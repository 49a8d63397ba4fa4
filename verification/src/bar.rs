//! Progress and volume bars, and how the free columns are split between them.
use crate::icons::empty_glyph;
use crate::icons::fill_glyph;
use crate::icons::IconSet;
use crate::text::push_char;
use vstd::arithmetic::div_mod::lemma_div_is_ordered;
use vstd::arithmetic::div_mod::lemma_fundamental_div_mod;
use vstd::arithmetic::mul::lemma_mul_inequality;
use vstd::prelude::*;

verus! {

/// Narrowest volume bar, in cells.
pub const MIN_VOLUME_BAR: usize = 5;

/// Widest main progress bar, in cells.
pub const MAX_PROGRESS_BAR: usize = 60;

/// `n` copies of `piece`, one after the other.
pub open spec fn repeat(piece: Seq<char>, n: nat) -> Seq<char>
    decreases n,
{
    if n == 0 {
        Seq::empty()
    } else {
        repeat(piece, (n - 1) as nat) + piece
    }
}

/// The numerator of the ratio `num / den` clamped to `[0, 1]`; a zero
/// denominator stands for the ratio 0.
pub open spec fn clamped_num(num: u64, den: u64) -> nat {
    if den == 0 {
        0
    } else if num > den {
        den as nat
    } else {
        num as nat
    }
}

/// The cells a bar of `width` cells fills for the ratio `num / den`: rounded
/// down for Nerd Fonts (which draw a partial block after them), rounded to
/// the nearest cell, halves up, otherwise.
pub open spec fn filled_cells(num: u64, den: u64, width: nat, icons: IconSet) -> nat {
    if den == 0 {
        0
    } else {
        let product = clamped_num(num, den) * width;
        let cells = if icons == IconSet::NerdFont {
            product / (den as nat)
        } else {
            (2 * product + den as nat) / (2 * den as nat)
        };
        if cells < width {
            cells
        } else {
            width
        }
    }
}

/// The eighths of a cell left over after the filled cells (0 to 7).
pub open spec fn partial_eighths(num: u64, den: u64, width: nat) -> nat {
    if den == 0 {
        0
    } else {
        (8 * ((clamped_num(num, den) * width) % (den as nat))) / (den as nat)
    }
}

/// Whether a partial block follows the filled cells: Nerd Fonts only, when
/// the bar is not full and at least one eighth is left over.
pub open spec fn has_partial(num: u64, den: u64, width: nat, icons: IconSet) -> bool {
    icons == IconSet::NerdFont && filled_cells(num, den, width, icons) < width
        && partial_eighths(num, den, width) > 0
}

/// The partial block glyph for 1 to 7 eighths.
pub open spec fn partial_glyph(eighths: nat) -> char {
    if eighths == 1 {
        '\u{258f}'
    } else if eighths == 2 {
        '\u{258e}'
    } else if eighths == 3 {
        '\u{258d}'
    } else if eighths == 4 {
        '\u{258c}'
    } else if eighths == 5 {
        '\u{258b}'
    } else if eighths == 6 {
        '\u{258a}'
    } else {
        '\u{2589}'
    }
}

/// The bar drawn for the ratio `num / den` over `width` cells: brackets
/// around the filled cells, an optional partial block, and empty cells up to
/// the full width.
pub open spec fn bar_text(num: u64, den: u64, width: nat, icons: IconSet) -> Seq<char> {
    let full = filled_cells(num, den, width, icons);
    let partial = has_partial(num, den, width, icons);
    let used = if partial {
        full + 1
    } else {
        full
    };
    seq!['['] + repeat(fill_glyph(icons), full) + (if partial {
        seq![partial_glyph(partial_eighths(num, den, width))]
    } else {
        Seq::empty()
    }) + repeat(empty_glyph(icons), (width - used) as nat) + seq![']']
}

/// UTF-8 bytes per bar cell: one for ASCII, three for the block glyphs.
pub open spec fn cell_bytes(icons: IconSet) -> nat {
    if icons == IconSet::Ascii {
        1
    } else {
        3
    }
}

pub proof fn lemma_repeat_len(piece: Seq<char>, n: nat)
    ensures
        repeat(piece, n).len() == n * piece.len(),
    decreases n,
{
    if n > 0 {
        lemma_repeat_len(piece, (n - 1) as nat);
        assert(repeat(piece, n) == repeat(piece, (n - 1) as nat) + piece);
        assert((n - 1) * piece.len() + piece.len() == n * piece.len()) by (nonlinear_arith);
    } else {
        assert(repeat(piece, n).len() == 0);
    }
}

proof fn lemma_cells_bounds(num: u64, den: u64, width: nat)
    requires
        den > 0,
    ensures
        clamped_num(num, den) * width <= den * width,
        (clamped_num(num, den) * width) % (den as nat) < den,
        partial_eighths(num, den, width) <= 7,
{
    let c = clamped_num(num, den);
    lemma_mul_inequality(c as int, den as int, width as int);
    let r = (c * width) % (den as nat);
    assert((8 * r) / (den as nat) <= 7) by (nonlinear_arith)
        requires
            r < den,
            den > 0,
    ;
}

fn bar_cells(num: u64, den: u64, width: usize, icons: IconSet) -> (r: (usize, u64))
    ensures
        r.0 == filled_cells(num, den, width as nat, icons),
        r.1 == partial_eighths(num, den, width as nat),
        r.0 <= width,
        r.1 <= 7,
{
    if den == 0 {
        return (0, 0);
    }
    proof {
        lemma_cells_bounds(num, den, width as nat);
    }
    let clamped: u64 = if num > den {
        den
    } else {
        num
    };
    assert((clamped as u128) * (width as u128) <= u128::MAX) by (nonlinear_arith)
        requires
            clamped <= u64::MAX,
            width <= u64::MAX,
    ;
    let product: u128 = (clamped as u128) * (width as u128);
    let d = den as u128;
    let q = product / d;
    let r = product % d;
    assert(q <= width) by (nonlinear_arith)
        requires
            q == product / d,
            product <= d * width,
            d > 0,
    ;
    let cells: u128 = if icons.is_nerd_font() {
        q
    } else {
        proof {
            lemma_fundamental_div_mod(product as int, d as int);
            assert((2 * product + d) / (2 * d) == q + (if 2 * r >= d {
                1int
            } else {
                0int
            })) by (nonlinear_arith)
                requires
                    product == d * q + r,
                    0 <= r < d,
                    d > 0,
                    q >= 0,
            ;
        }
        if 2 * r >= d {
            q + 1
        } else {
            q
        }
    };
    let full: usize = if cells < width as u128 {
        cells as usize
    } else {
        width
    };
    let eighths = (8 * r) / d;
    (full, eighths as u64)
}

fn partial_char(eighths: u64) -> (c: char)
    requires
        1 <= eighths <= 7,
    ensures
        c == partial_glyph(eighths as nat),
{
    if eighths == 1 {
        '\u{258f}'
    } else if eighths == 2 {
        '\u{258e}'
    } else if eighths == 3 {
        '\u{258d}'
    } else if eighths == 4 {
        '\u{258c}'
    } else if eighths == 5 {
        '\u{258b}'
    } else if eighths == 6 {
        '\u{258a}'
    } else {
        '\u{2589}'
    }
}

/// Appends `n` copies of `piece`.
fn push_repeat(s: &mut String, piece: &str, n: usize)
    ensures
        final(s)@ == old(s)@ + repeat(piece@, n as nat),
{
    let ghost start = s@;
    let mut i: usize = 0;
    while i < n
        invariant
            i <= n,
            s@ == start + repeat(piece@, i as nat),
        decreases n - i,
    {
        s.append(piece);
        i = i + 1;
        proof {
            assert(repeat(piece@, i as nat) == repeat(piece@, (i - 1) as nat) + piece@);
        }
    }
}

/// Renders a bar of `width` cells for the ratio `num / den`, clamped to
/// `[0, 1]` (a zero `den` draws an empty bar).
pub fn render_bar(num: u64, den: u64, width: usize, icons: IconSet) -> (s: String)
    requires
        width * cell_bytes(icons) + 2 <= usize::MAX,
    ensures
        s@ == bar_text(num, den, width as nat, icons),
{
    let (full, eighths) = bar_cells(num, den, width, icons);
    let partial = icons.is_nerd_font() && full < width && eighths > 0;
    let mut s = String::new();
    push_char(&mut s, '[');
    push_repeat(&mut s, icons.fill(), full);
    let mut used = full;
    if partial {
        push_char(&mut s, partial_char(eighths));
        used = used + 1;
    }
    push_repeat(&mut s, icons.empty(), width - used);
    push_char(&mut s, ']');
    proof {
        let ghost tail: Seq<char> = if partial {
            seq![partial_glyph(eighths as nat)]
        } else {
            Seq::empty()
        };
        assert(s@ == seq!['['] + repeat(fill_glyph(icons), full as nat) + tail + repeat(
            empty_glyph(icons),
            (width - used) as nat,
        ) + seq![']']);
    }
    s
}

/// Splits `available` columns between the main bar and the volume bar: the
/// main bar takes three quarters when that is at least 15 cells, else all
/// but the narrowest volume bar, at most 60 cells; the volume bar takes a
/// third of the main bar, at least 5 cells; when the two overflow, the main
/// bar gives way, and when fewer columns are free than the narrowest volume
/// bar needs, the main bar disappears and the volume bar takes what is left.
pub open spec fn bar_split(available: nat) -> (nat, nat) {
    let target = available * 3 / 4;
    let tentative: nat = if target >= 15 {
        target
    } else if available >= MIN_VOLUME_BAR {
        (available - MIN_VOLUME_BAR) as nat
    } else {
        0
    };
    let bar: nat = if tentative > MAX_PROGRESS_BAR {
        MAX_PROGRESS_BAR as nat
    } else {
        tentative
    };
    let vol: nat = if bar / 3 > MIN_VOLUME_BAR {
        bar / 3
    } else {
        MIN_VOLUME_BAR as nat
    };
    if bar + vol <= available {
        (bar, vol)
    } else if available >= vol {
        ((available - vol) as nat, vol)
    } else {
        (0, available)
    }
}

/// Widths of the main bar and the volume bar for `available` free columns.
pub fn bar_widths(available: usize) -> (r: (usize, usize))
    requires
        available <= usize::MAX / 3,
    ensures
        (r.0 as nat, r.1 as nat) == bar_split(available as nat),
        r.0 + r.1 <= available,
{
    let target = (available * 3) / 4;
    let tentative = if target >= 15 {
        target
    } else {
        available.saturating_sub(MIN_VOLUME_BAR)
    };
    let bar = if tentative > MAX_PROGRESS_BAR {
        MAX_PROGRESS_BAR
    } else {
        tentative
    };
    let vol = if bar / 3 > MIN_VOLUME_BAR {
        bar / 3
    } else {
        MIN_VOLUME_BAR
    };
    if bar + vol <= available {
        (bar, vol)
    } else if available >= vol {
        (available - vol, vol)
    } else {
        (0, available)
    }
}

/// The two bars never overflow the free columns; the main bar stays within
/// 60 cells, and the volume bar is at least 5 cells wide whenever 5 columns
/// are free.
pub proof fn lemma_bars_fit(available: nat)
    ensures
        bar_split(available).0 + bar_split(available).1 <= available,
        bar_split(available).0 <= MAX_PROGRESS_BAR,
        available >= MIN_VOLUME_BAR ==> bar_split(available).1 >= MIN_VOLUME_BAR,
{
}

/// A bar always has exactly `width` cells between its brackets.
pub proof fn lemma_bar_len(num: u64, den: u64, width: nat, icons: IconSet)
    ensures
        bar_text(num, den, width, icons).len() == width + 2,
{
    let full = filled_cells(num, den, width, icons);
    let partial = has_partial(num, den, width, icons);
    let used = if partial {
        full + 1
    } else {
        full
    };
    lemma_repeat_len(fill_glyph(icons), full);
    lemma_repeat_len(empty_glyph(icons), (width - used) as nat);
    assert(fill_glyph(icons).len() == 1);
    assert(empty_glyph(icons).len() == 1);
    assert(full * 1 == full);
    assert(((width - used) as nat) * 1 == (width - used) as nat);
    assert(used <= width);
}

/// A complete ratio fills the whole bar and an empty one fills nothing.
pub proof fn lemma_fill_ends(den: u64, width: nat, icons: IconSet)
    requires
        den > 0,
    ensures
        filled_cells(den, den, width, icons) == width,
        filled_cells(0, den, width, icons) == 0,
{
    let d = den as nat;
    assert((d * width) / d == width) by (nonlinear_arith)
        requires
            d > 0,
    ;
    assert((2 * (d * width) + d) / (2 * d) == width) by (nonlinear_arith)
        requires
            d > 0,
    ;
    assert(0 * width == 0);
    assert((2 * 0 + d) / (2 * d) == 0) by (nonlinear_arith)
        requires
            d > 0,
    ;
}

/// Cells of a bar left empty: all but the filled cells and the partial block.
pub open spec fn empty_cells(num: u64, den: u64, width: nat, icons: IconSet) -> nat {
    let used = if has_partial(num, den, width, icons) {
        filled_cells(num, den, width, icons) + 1
    } else {
        filled_cells(num, den, width, icons)
    };
    (width - used) as nat
}

/// The clamped ratio `num1 / den1` is at most the clamped ratio
/// `num2 / den2` (a zero denominator stands for the ratio 0).
pub open spec fn ratio_at_most(num1: u64, den1: u64, num2: u64, den2: u64) -> bool {
    clamped_num(num1, den1) == 0 || (den2 > 0 && clamped_num(num1, den1) * (den2 as nat)
        <= clamped_num(num2, den2) * (den1 as nat))
}

proof fn lemma_floor_div_ordered(a: nat, b: nat, c: nat, d: nat)
    requires
        b > 0,
        d > 0,
        a * d <= c * b,
    ensures
        a / b <= c / d,
{
    let q = a / b;
    lemma_fundamental_div_mod(a as int, b as int);
    assert(b * q <= a);
    assert(q * d * b <= c * b) by (nonlinear_arith)
        requires
            b * q <= a,
            a * d <= c * b,
            d >= 0,
    ;
    assert(q * d <= c) by (nonlinear_arith)
        requires
            q * d * b <= c * b,
            b > 0,
    ;
    lemma_div_is_ordered((q * d) as int, c as int, d as int);
    assert((q * d) / d == q) by (nonlinear_arith)
        requires
            d > 0,
    ;
}

proof fn lemma_zero_ratio_fills_nothing(num: u64, den: u64, width: nat, icons: IconSet)
    requires
        clamped_num(num, den) == 0,
    ensures
        filled_cells(num, den, width, icons) == 0,
        partial_eighths(num, den, width) == 0,
{
    if den > 0 {
        let d = den as nat;
        vstd::arithmetic::mul::lemma_mul_basics(width as int);
        assert(clamped_num(num, den) * width == 0);
        assert(0nat / d == 0 && (2 * 0 + d) / (2 * d) == 0 && 0nat % d == 0) by (nonlinear_arith)
            requires
                d > 0,
        ;
    }
}

/// The filled part grows with the ratio: whatever the denominators, a ratio
/// at least as large never fills fewer cells of a bar of the same width.
pub proof fn lemma_fill_monotone(
    num1: u64,
    den1: u64,
    num2: u64,
    den2: u64,
    width: nat,
    icons: IconSet,
)
    requires
        ratio_at_most(num1, den1, num2, den2),
    ensures
        filled_cells(num1, den1, width, icons) <= filled_cells(num2, den2, width, icons),
{
    let c1 = clamped_num(num1, den1);
    let c2 = clamped_num(num2, den2);
    if c1 == 0 {
        lemma_zero_ratio_fills_nothing(num1, den1, width, icons);
    } else {
        let d1 = den1 as nat;
        let d2 = den2 as nat;
        let p1 = c1 * width;
        let p2 = c2 * width;
        assert(p1 * d2 <= p2 * d1) by (nonlinear_arith)
            requires
                c1 * d2 <= c2 * d1,
                p1 == c1 * width,
                p2 == c2 * width,
        ;
        lemma_floor_div_ordered(p1, d1, p2, d2);
        assert((2 * p1 + d1) * (2 * d2) <= (2 * p2 + d2) * (2 * d1)) by (nonlinear_arith)
            requires
                p1 * d2 <= p2 * d1,
        ;
        lemma_floor_div_ordered(2 * p1 + d1, 2 * d1, 2 * p2 + d2, 2 * d2);
    }
}

/// The empty part shrinks as the ratio grows: whatever the denominators, a
/// ratio at least as large never leaves more cells of a bar of the same
/// width empty.
pub proof fn lemma_empty_monotone(
    num1: u64,
    den1: u64,
    num2: u64,
    den2: u64,
    width: nat,
    icons: IconSet,
)
    requires
        ratio_at_most(num1, den1, num2, den2),
    ensures
        empty_cells(num2, den2, width, icons) <= empty_cells(num1, den1, width, icons),
{
    lemma_fill_monotone(num1, den1, num2, den2, width, icons);
    let f1 = filled_cells(num1, den1, width, icons);
    let f2 = filled_cells(num2, den2, width, icons);
    let c1 = clamped_num(num1, den1);
    if c1 == 0 {
        lemma_zero_ratio_fills_nothing(num1, den1, width, icons);
    } else if f1 == f2 && has_partial(num1, den1, width, icons) {
        let c2 = clamped_num(num2, den2);
        let d1 = den1 as nat;
        let d2 = den2 as nat;
        let p1 = c1 * width;
        let p2 = c2 * width;
        assert(p1 * d2 <= p2 * d1) by (nonlinear_arith)
            requires
                c1 * d2 <= c2 * d1,
                p1 == c1 * width,
                p2 == c2 * width,
        ;
        lemma_fundamental_div_mod(p1 as int, d1 as int);
        lemma_fundamental_div_mod(p2 as int, d2 as int);
        // Nerd Fonts, below the width: the filled cells are the floors
        let q = f1;
        assert(p1 / d1 == q);
        assert(p2 / d2 == q);
        let r1 = p1 % d1;
        let r2 = p2 % d2;
        assert(8 * r1 >= d1) by (nonlinear_arith)
            requires
                (8 * r1) / d1 >= 1,
                d1 > 0,
        ;
        assert(8 * r2 >= d2) by (nonlinear_arith)
            requires
                p1 == d1 * q + r1,
                p2 == d2 * q + r2,
                p1 * d2 <= p2 * d1,
                8 * r1 >= d1,
                d1 > 0,
                d2 > 0,
        ;
        assert((8 * r2) / d2 >= 1) by (nonlinear_arith)
            requires
                8 * r2 >= d2,
                d2 > 0,
        ;
        assert(has_partial(num2, den2, width, icons));
    }
}

/// The ratio is clamped to `[0, 1]` before drawing: clamping it first
/// changes nothing; a ratio of 0 (or a zero denominator) draws only empty
/// cells and a ratio of 1 or more only filled cells.
pub proof fn lemma_bar_clamped(num: u64, den: u64, width: nat, icons: IconSet)
    ensures
        bar_text(num, den, width, icons) == bar_text(clamped_num(num, den) as u64, den, width, icons),
        (num == 0 || den == 0) ==> bar_text(num, den, width, icons) == seq!['['] + repeat(
            empty_glyph(icons),
            width,
        ) + seq![']'],
        (den > 0 && num >= den) ==> bar_text(num, den, width, icons) == seq!['['] + repeat(
            fill_glyph(icons),
            width,
        ) + seq![']'],
{
    assert(clamped_num(clamped_num(num, den) as u64, den) == clamped_num(num, den));
    if den > 0 {
        lemma_fill_ends(den, width, icons);
        let d = den as nat;
        if num == 0 {
            assert(clamped_num(num, den) == 0);
            vstd::arithmetic::mul::lemma_mul_basics(width as int);
            assert(clamped_num(num, den) * width == 0);
            assert(filled_cells(num, den, width, icons) == filled_cells(0, den, width, icons));
            assert(partial_eighths(num, den, width) == 0) by {
                vstd::arithmetic::div_mod::lemma_small_mod(0, d);
            }
            assert(repeat(fill_glyph(icons), 0) == Seq::<char>::empty());
            assert(bar_text(num, den, width, icons) =~= seq!['['] + repeat(empty_glyph(icons), width)
                + seq![']']);
        }
        if num >= den {
            assert(clamped_num(num, den) == d);
            assert(filled_cells(num, den, width, icons) == filled_cells(den, den, width, icons));
            assert((d * width) % d == 0) by (nonlinear_arith)
                requires
                    d > 0,
            ;
            assert(repeat(empty_glyph(icons), 0) == Seq::<char>::empty());
            assert(bar_text(num, den, width, icons) =~= seq!['['] + repeat(fill_glyph(icons), width)
                + seq![']']);
        }
    } else {
        assert(repeat(fill_glyph(icons), 0) == Seq::<char>::empty());
        assert(bar_text(num, den, width, icons) =~= seq!['['] + repeat(empty_glyph(icons), width)
            + seq![']']);
    }
}

/// The character of a filled cell: `#` in ASCII, a full block otherwise.
pub open spec fn filled_char(icons: IconSet) -> char {
    if icons == IconSet::Ascii {
        '#'
    } else {
        '\u{2588}'
    }
}

/// Whether the played fraction `num / den` (clamped to `[0, 1]`) reaches
/// cell `j` of a bar `width` cells wide: the whole cell for Nerd Fonts, at
/// least half of it otherwise.
pub open spec fn covers_cell(num: u64, den: u64, width: nat, icons: IconSet, j: nat) -> bool {
    let c: nat = if num < den {
        num as nat
    } else {
        den as nat
    };
    den > 0 && if icons == IconSet::NerdFont {
        (j + 1) * (den as nat) <= c * width
    } else {
        2 * (j + 1) * (den as nat) <= 2 * c * width + den as nat
    }
}

proof fn lemma_repeat_index(piece: Seq<char>, n: nat, i: int)
    requires
        piece.len() == 1,
        0 <= i < n,
    ensures
        repeat(piece, n)[i] == piece[0],
        repeat(piece, n).len() == n,
    decreases n,
{
    lemma_repeat_len(piece, n);
    assert(repeat(piece, n) == repeat(piece, (n - 1) as nat) + piece);
    lemma_repeat_len(piece, (n - 1) as nat);
    if i < n - 1 {
        lemma_repeat_index(piece, (n - 1) as nat, i);
    }
}

proof fn lemma_le_floor_div(k: nat, a: nat, b: nat)
    requires
        b > 0,
    ensures
        k <= a / b <==> k * b <= a,
{
    lemma_fundamental_div_mod(a as int, b as int);
    let q = a / b;
    let r = a % b;
    if k <= q {
        assert(k * b <= q * b) by (nonlinear_arith)
            requires
                k <= q,
        ;
        assert(q * b == b * q) by (nonlinear_arith);
    } else {
        assert(k * b >= (q + 1) * b) by (nonlinear_arith)
            requires
                k >= q + 1,
        ;
        assert((q + 1) * b == b * q + b) by (nonlinear_arith);
    }
}

/// A bar's cells in order: cell `j` (the `j + 1`-th character, after the
/// opening bracket) shows the filled character exactly when the played
/// fraction reaches it, and the bar is closed by brackets. So nothing but
/// elapsed time fills cells: a ratio of 0 draws none and a full ratio draws
/// every cell.
pub proof fn lemma_bar_cells(num: u64, den: u64, width: nat, icons: IconSet)
    ensures
        bar_text(num, den, width, icons).len() == width + 2,
        bar_text(num, den, width, icons)[0] == '[',
        bar_text(num, den, width, icons)[width + 1 as int] == ']',
        forall|j: nat|
            j < width ==> (#[trigger] bar_text(num, den, width, icons)[j + 1 as int] == filled_char(icons)
                <==> covers_cell(num, den, width, icons, j)),
{
    lemma_bar_len(num, den, width, icons);
    let full = filled_cells(num, den, width, icons);
    let partial = has_partial(num, den, width, icons);
    let used: nat = if partial {
        full + 1
    } else {
        full
    };
    let mid: Seq<char> = if partial {
        seq![partial_glyph(partial_eighths(num, den, width))]
    } else {
        Seq::empty()
    };
    let fills = repeat(fill_glyph(icons), full);
    let empties = repeat(empty_glyph(icons), (width - used) as nat);
    let b = bar_text(num, den, width, icons);
    assert(b == seq!['['] + fills + mid + empties + seq![']']);
    lemma_repeat_len(fill_glyph(icons), full);
    lemma_repeat_len(empty_glyph(icons), (width - used) as nat);
    assert(fill_glyph(icons).len() == 1 && fill_glyph(icons)[0] == filled_char(icons));
    assert(empty_glyph(icons).len() == 1 && empty_glyph(icons)[0] != filled_char(icons));
    assert(fills.len() == full * 1);
    assert(empties.len() == ((width - used) as nat) * 1);
    assert forall|j: nat| j < width implies (#[trigger] b[j + 1 as int] == filled_char(icons)
        <==> covers_cell(num, den, width, icons, j)) by {
        if j < full {
            lemma_repeat_index(fill_glyph(icons), full, j as int);
            assert(b[j + 1 as int] == fills[j as int]);
        } else if partial && j == full {
            assert(b[j + 1 as int] == mid[0]);
            assert(partial_eighths(num, den, width) >= 1);
        } else {
            let k = (j - used) as int;
            lemma_repeat_index(empty_glyph(icons), (width - used) as nat, k);
            assert(b[j + 1 as int] == empties[k]);
        }
        // the filled cells are exactly those the fraction reaches
        if den > 0 {
            let d = den as nat;
            let p = clamped_num(num, den) * width;
            if icons == IconSet::NerdFont {
                lemma_le_floor_div(j + 1, p, d);
                assert((j + 1) * d == d * (j + 1) as nat) by (nonlinear_arith);
            } else {
                lemma_le_floor_div(j + 1, 2 * p + d, 2 * d);
                assert(2 * (j + 1) * d == (j + 1) * (2 * d)) by (nonlinear_arith);
                assert(2 * clamped_num(num, den) * width == 2 * p) by (nonlinear_arith)
                    requires
                        p == clamped_num(num, den) * width,
                ;
            }
            assert(clamped_num(num, den) == (if num < den {
                num as nat
            } else {
                den as nat
            }));
        }
    }
}

} // verus!

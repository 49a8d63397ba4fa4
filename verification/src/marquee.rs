//! The scrolling header line: when the `artist — title` header is wider
//! than the terminal, a window of it scrolls one character per frame, with a
//! gap of five spaces between repetitions.
use crate::text::push_char;
use crate::width::cell_width;
use crate::width::char_width;
use crate::width::str_width;
use crate::width::str_width_of;
use vstd::arithmetic::div_mod::lemma_add_mod_noop;
use vstd::arithmetic::div_mod::lemma_small_mod;
use vstd::prelude::*;

verus! {

/// Spaces between the end of the header and its next repetition.
pub const MARQUEE_GAP_LEN: usize = 5;

/// One repetition of the scrolling text: the header, then the gap.
pub open spec fn marquee_cycle(header: Seq<char>) -> Seq<char> {
    header + seq![' ', ' ', ' ', ' ', ' ']
}

/// The `i`-th character shown when the repeated cycle is entered at `offset`.
pub open spec fn cycle_char(cycle: Seq<char>, offset: nat, i: nat) -> char {
    cycle[((offset + i) % cycle.len()) as int]
}

/// Total width of the first `k` characters shown from `offset`.
pub open spec fn run_width(cycle: Seq<char>, offset: nat, k: nat) -> nat
    decreases k,
{
    if k == 0 {
        0
    } else {
        run_width(cycle, offset, (k - 1) as nat) + cell_width(cycle_char(cycle, offset, (k - 1) as nat))
    }
}

/// The first `k` characters shown from `offset`.
pub open spec fn shown(cycle: Seq<char>, offset: nat, k: nat) -> Seq<char> {
    Seq::new(k, |i: int| cycle_char(cycle, offset, i as nat))
}

/// `k` characters from `offset` fit within `limit` columns and one more
/// would not: the window the marquee draws.
pub open spec fn is_window_len(cycle: Seq<char>, offset: nat, limit: nat, k: nat) -> bool {
    run_width(cycle, offset, k) <= limit && run_width(cycle, offset, k + 1) > limit
}

/// The visible part of the scrolling header for a scroll offset and a
/// column limit.
pub open spec fn marquee_text(header: Seq<char>, offset: nat, limit: nat) -> Seq<char> {
    let cycle = marquee_cycle(header);
    shown(cycle, offset, choose|k: nat| is_window_len(cycle, offset, limit, k))
}

/// Whether the header is wider than the terminal and must scroll.
pub fn marquee_needed(header: &str, term_width: u16) -> (r: bool)
    ensures
        r == (str_width_of(header@) > term_width),
{
    str_width(header) > term_width as usize
}

/// Length of one scrolling cycle: the header's characters plus the gap.
pub fn cycle_len(header: &str) -> (n: usize)
    requires
        header@.len() + MARQUEE_GAP_LEN <= usize::MAX,
    ensures
        n == marquee_cycle(header@).len(),
{
    header.unicode_len() + MARQUEE_GAP_LEN
}

/// The scroll offset after one more frame: one character further, wrapping
/// at the end of the cycle.
pub fn next_offset(offset: usize, header: &str) -> (r: usize)
    requires
        header@.len() + MARQUEE_GAP_LEN <= usize::MAX,
    ensures
        r == (offset + 1) % (marquee_cycle(header@).len() as int),
        r < marquee_cycle(header@).len(),
{
    let n = cycle_len(header);
    proof {
        lemma_add_mod_noop(offset as int, 1, n as int);
        lemma_small_mod(1, n as nat);
    }
    (offset % n + 1) % n
}

fn cycle_chars(header: &str) -> (v: Vec<char>)
    requires
        header@.len() + MARQUEE_GAP_LEN <= usize::MAX,
    ensures
        v@ == marquee_cycle(header@),
{
    let n = header.unicode_len();
    let mut v: Vec<char> = Vec::new();
    let mut i: usize = 0;
    while i < n
        invariant
            n == header@.len(),
            i <= n,
            v@ == header@.subrange(0, i as int),
        decreases n - i,
    {
        v.push(header.get_char(i));
        i = i + 1;
    }
    let mut j: usize = 0;
    while j < MARQUEE_GAP_LEN
        invariant
            j <= MARQUEE_GAP_LEN,
            n == header@.len(),
            v@.len() == n + j,
            v@.subrange(0, n as int) == header@,
            forall|k: int| n <= k < n + j ==> v@[k] == ' ',
        decreases MARQUEE_GAP_LEN - j,
    {
        v.push(' ');
        j = j + 1;
        proof {
            assert(v@.subrange(0, n as int) == v@.drop_last().subrange(0, n as int));
        }
    }
    proof {
        assert(v@ =~= marquee_cycle(header@));
    }
    v
}

/// Exactly one length is a window length for given cycle, offset and limit.
pub proof fn lemma_window_len_unique(cycle: Seq<char>, offset: nat, limit: nat, k1: nat, k2: nat)
    requires
        is_window_len(cycle, offset, limit, k1),
        is_window_len(cycle, offset, limit, k2),
    ensures
        k1 == k2,
{
    if k1 < k2 {
        lemma_run_width_monotone(cycle, offset, k1 + 1, k2);
    } else if k2 < k1 {
        lemma_run_width_monotone(cycle, offset, k2 + 1, k1);
    }
}

/// Showing more characters never takes fewer columns.
pub proof fn lemma_run_width_monotone(cycle: Seq<char>, offset: nat, a: nat, b: nat)
    requires
        a <= b,
    ensures
        run_width(cycle, offset, a) <= run_width(cycle, offset, b),
    decreases b - a,
{
    if a < b {
        lemma_run_width_monotone(cycle, offset, a, (b - 1) as nat);
    }
}

/// The visible part of the scrolling header: characters of the repeated
/// `header` + gap cycle, entered at `offset`, for as long as their total
/// width stays within `limit` columns.
pub fn marquee_window(header: &str, offset: usize, limit: usize) -> (s: String)
    requires
        header@.len() + MARQUEE_GAP_LEN <= usize::MAX,
    ensures
        s@ == shown(marquee_cycle(header@), offset as nat, s@.len()),
        is_window_len(marquee_cycle(header@), offset as nat, limit as nat, s@.len()),
        s@ == marquee_text(header@, offset as nat, limit as nat),
{
    let cyc = cycle_chars(header);
    let n = cyc.len();
    let h = header.unicode_len();
    let ghost cycle = marquee_cycle(header@);
    let space = char_width(' ');
    assert(cell_width(' ') == 1);
    let mut pos: usize = offset % n;
    let mut used: usize = 0;
    let ghost mut k: nat = 0;
    let mut s = String::new();
    loop
        invariant
            cyc@ == cycle,
            cycle == marquee_cycle(header@),
            n == cycle.len(),
            h == header@.len(),
            n == h + 5,
            cell_width(' ') == 1,
            pos < n,
            pos == (offset + k) % (n as int),
            n >= 5,
            used <= limit,
            used == run_width(cycle, offset as nat, k as nat),
            s@ == shown(cycle, offset as nat, k as nat),
            s@.len() == k,
        ensures
            used == run_width(cycle, offset as nat, k as nat),
            run_width(cycle, offset as nat, (k + 1) as nat) > limit,
            s@ == shown(cycle, offset as nat, k as nat),
            s@.len() == k,
        decreases limit - used, if pos < h {
            h - pos
        } else {
            0
        },
    {
        let c = cyc[pos];
        let w = match char_width(c) {
            Some(w) => w,
            None => 0,
        };
        assert(c == cycle_char(cycle, offset as nat, k as nat));
        assert(w == cell_width(c));
        if w > limit - used {
            break;
        }
        proof {
            if pos >= h {
                let gap = seq![' ', ' ', ' ', ' ', ' '];
                assert(cycle == header@ + gap);
                assert((header@ + gap)[pos as int] == gap[pos - h]);
                assert(c == ' ');
            }
            lemma_add_mod_noop(offset + k, 1, n as int);
            lemma_small_mod(1, n as nat);
            if pos + 1 < n {
                lemma_small_mod((pos + 1) as nat, n as nat);
            }
            assert(s@.push(c) =~= shown(cycle, offset as nat, (k + 1) as nat));
        }
        used = used + w;
        push_char(&mut s, c);
        proof {
            k = k + 1;
        }
        pos = (pos + 1) % n;
    }
    proof {
        let k2 = choose|k2: nat| is_window_len(cycle, offset as nat, limit as nat, k2);
        assert(is_window_len(cycle, offset as nat, limit as nat, k));
        lemma_window_len_unique(cycle, offset as nat, limit as nat, k, k2);
    }
    s
}

} // verus!

//! The live progress frame: an optional header line above a progress line
//! whose layout adapts to the terminal width.
use crate::ansi::clear_until_newline;
use crate::ansi::clear_until_newline_seq;
use crate::ansi::move_to_column;
use crate::ansi::move_to_column_seq;
use crate::ansi::move_up;
use crate::ansi::move_up_seq;
use crate::ansi::set_style;
use crate::ansi::set_style_seq;
use crate::ansi::TextStyle;
use crate::bar::bar_split;
use crate::bar::bar_text;
use crate::bar::bar_widths;
use crate::bar::clamped_num;
use crate::bar::render_bar;
use crate::icons::fast_forward_glyph;
use crate::icons::music_glyph;
use crate::icons::pause_glyph;
use crate::icons::play_glyph;
use crate::icons::rewind_glyph;
use crate::icons::volume_glyph;
use crate::icons::IconSet;
use crate::marquee::marquee_needed;
use crate::marquee::marquee_text;
use crate::marquee::marquee_window;
use crate::marquee::MARQUEE_GAP_LEN;
use crate::text::decimal;
use crate::text::decimal_string;
use crate::text::duration_text;
use crate::text::format_duration;
use crate::text::push_char;
use crate::width::str_width;
use crate::width::str_width_of;
use vstd::arithmetic::div_mod::lemma_fundamental_div_mod;
use vstd::prelude::*;

verus! {

/// Terminal width from which the control hints are shown.
pub const WIDTH_FULL: u16 = 80;

/// Terminal width from which the bars and the header line are shown.
pub const WIDTH_COMPACT: u16 = 50;

/// Terminal width from which the elapsed and total times are shown.
pub const WIDTH_MINIMAL: u16 = 30;

/// Narrowest terminal that gets a progress line at all.
pub const WIDTH_BARE: u16 = 20;

/// Maximum volume, in thousandths (200%).
pub const VOLUME_MAX: u32 = 2000;

/// Everything one frame of the progress display depends on.
pub struct RenderProgressContext {
    /// Terminal columns, or `None` when the size could not be read.
    pub term_cols: Option<u16>,
    /// Playback position, in nanoseconds.
    pub elapsed: u64,
    /// Track length, in nanoseconds.
    pub total: u64,
    pub paused: bool,
    /// Volume, in thousandths.
    pub volume: u32,
    pub interactive: bool,
    pub icons: IconSet,
    pub header: Option<String>,
    /// Whether a line above the progress line is already set aside for the header.
    pub header_reserved: bool,
    pub scroll_offset: usize,
}

/// The width the layout goes by: the terminal's, or the widest possible
/// when the size is unknown.
pub open spec fn layout_width(cols: Option<u16>) -> u16 {
    match cols {
        Some(c) => c,
        None => u16::MAX,
    }
}

/// Percent of the track played, rounded to the nearest integer, halves up.
pub open spec fn percent_of(elapsed: u64, total: u64) -> nat {
    if total == 0 {
        0
    } else {
        (200 * clamped_num(elapsed, total) + total as nat) / (2 * total as nat)
    }
}

/// The volume as a rounded percentage, capped at 200.
pub open spec fn volume_percent(volume: u32) -> nat {
    let v = if volume > VOLUME_MAX {
        VOLUME_MAX
    } else {
        volume
    };
    ((v + 5) / 10) as nat
}

/// The music glyph and a space before the play/pause icon, for Nerd Fonts.
pub open spec fn line_prefix(icons: IconSet) -> Seq<char> {
    if icons == IconSet::NerdFont {
        music_glyph(icons) + seq![' ']
    } else {
        Seq::empty()
    }
}

pub open spec fn state_icon(icons: IconSet, paused: bool) -> Seq<char> {
    if paused {
        pause_glyph(icons)
    } else {
        play_glyph(icons)
    }
}

/// `"  « [SPACE/pause] »  [↑↓/kj] vol  [m] mute  [q] quit"`, with `play `
/// in place of `pause` while paused.
pub open spec fn controls_hint(icons: IconSet, paused: bool) -> Seq<char> {
    let toggle = if paused {
        seq!['p', 'l', 'a', 'y', ' ']
    } else {
        seq!['p', 'a', 'u', 's', 'e']
    };
    seq![' ', ' '] + rewind_glyph(icons) + seq![' ', '[', 'S', 'P', 'A', 'C', 'E', '/'] + toggle
        + seq![']', ' '] + fast_forward_glyph(icons) + seq![
        ' ',
        ' ',
        '[',
        '\u{2191}',
        '\u{2193}',
        '/',
        'k',
        'j',
        ']',
        ' ',
        'v',
        'o',
        'l',
        ' ',
        ' ',
        '[',
        'm',
        ']',
        ' ',
        'm',
        'u',
        't',
        'e',
        ' ',
        ' ',
        '[',
        'q',
        ']',
        ' ',
        'q',
        'u',
        'i',
        't',
    ]
}

/// The hint shown after the volume, when the terminal is wide enough and the
/// controls are live.
pub open spec fn controls_suffix(icons: IconSet, paused: bool, tw: u16, interactive: bool) -> Seq<
    char,
> {
    if tw >= WIDTH_FULL && interactive {
        controls_hint(icons, paused)
    } else {
        Seq::empty()
    }
}

/// Columns taken by everything on the full progress line but the two bars.
pub open spec fn overhead(ctx: RenderProgressContext) -> nat {
    let tw = layout_width(ctx.term_cols);
    (str_width_of(line_prefix(ctx.icons)) + str_width_of(state_icon(ctx.icons, ctx.paused))
        + str_width_of(duration_text(ctx.elapsed)) + str_width_of(duration_text(ctx.total))
        + str_width_of(decimal(percent_of(ctx.elapsed, ctx.total))) + str_width_of(
        volume_glyph(ctx.icons, ctx.volume),
    ) + str_width_of(decimal(volume_percent(ctx.volume))) + str_width_of(
        controls_suffix(ctx.icons, ctx.paused, tw, ctx.interactive),
    ) + 19) as nat
}

/// Widths of the main bar and the volume bar: from the columns left over
/// when the terminal size is known, 30 and 10 otherwise.
pub open spec fn bar_sizes(ctx: RenderProgressContext) -> (nat, nat) {
    match ctx.term_cols {
        Some(cols) => bar_split(
            if cols as nat > overhead(ctx) {
                (cols as nat - overhead(ctx)) as nat
            } else {
                0
            },
        ),
        None => (30, 10),
    }
}

/// `"  0:42 / 4:05  [bar]  17%  🔊 [vol] 100%"` and the controls hint.
pub open spec fn full_status(ctx: RenderProgressContext) -> Seq<char> {
    let tw = layout_width(ctx.term_cols);
    let sizes = bar_sizes(ctx);
    seq![' ', ' '] + duration_text(ctx.elapsed) + seq![' ', '/', ' '] + duration_text(ctx.total)
        + seq![' ', ' '] + bar_text(ctx.elapsed, ctx.total, sizes.0, ctx.icons) + seq![' ', ' ']
        + decimal(percent_of(ctx.elapsed, ctx.total)) + seq!['%', ' ', ' '] + volume_glyph(
        ctx.icons,
        ctx.volume,
    ) + seq![' '] + bar_text(ctx.volume as u64, VOLUME_MAX as u64, sizes.1, ctx.icons) + seq![' ']
        + decimal(volume_percent(ctx.volume)) + seq!['%'] + controls_suffix(
        ctx.icons,
        ctx.paused,
        tw,
        ctx.interactive,
    )
}

/// The status text after the icon, by width tier.
pub open spec fn status_text(ctx: RenderProgressContext) -> Seq<char> {
    let tw = layout_width(ctx.term_cols);
    let pct = decimal(percent_of(ctx.elapsed, ctx.total));
    if tw >= WIDTH_COMPACT {
        full_status(ctx)
    } else if tw >= WIDTH_MINIMAL {
        seq![' '] + duration_text(ctx.elapsed) + seq!['/'] + duration_text(ctx.total) + seq![' ']
            + pct + seq!['%']
    } else {
        seq![' '] + pct + seq!['%']
    }
}

/// The header line: reserved on first use, redrawn (scrolling when too
/// wide) on compact terminals, and blanked when the terminal has narrowed
/// below the compact tier after it was reserved.
pub open spec fn header_text(ctx: RenderProgressContext) -> Seq<char> {
    let tw = layout_width(ctx.term_cols);
    match ctx.header {
        None => Seq::empty(),
        Some(hdr) => if tw >= WIDTH_COMPACT {
            (if !ctx.header_reserved {
                seq!['\n']
            } else {
                Seq::empty()
            }) + move_up_seq(1) + move_to_column_seq(0) + (if str_width_of(hdr@) > tw {
                marquee_text(hdr@, ctx.scroll_offset as nat, tw as nat)
            } else {
                hdr@
            }) + clear_until_newline_seq() + seq!['\n']
        } else if ctx.header_reserved {
            move_up_seq(1) + move_to_column_seq(0) + clear_until_newline_seq() + seq!['\n']
        } else {
            Seq::empty()
        },
    }
}

/// The whole frame: header part, then the progress line redrawn from the
/// first column with a bold icon.
pub open spec fn frame_text(ctx: RenderProgressContext) -> Seq<char> {
    header_text(ctx) + move_to_column_seq(0) + set_style_seq(TextStyle::Bold) + line_prefix(
        ctx.icons,
    ) + state_icon(ctx.icons, ctx.paused) + set_style_seq(TextStyle::Reset) + status_text(ctx)
        + clear_until_newline_seq()
}

/// What a frame needs of the header: its length must leave room for the
/// scrolling gap.
pub open spec fn header_fits(header: Option<String>) -> bool {
    match header {
        Some(h) => h@.len() + MARQUEE_GAP_LEN <= usize::MAX,
        None => true,
    }
}

/// Percent of the track played, rounded.
pub fn percent(elapsed: u64, total: u64) -> (p: u8)
    ensures
        p == percent_of(elapsed, total),
        p <= 100,
{
    if total == 0 {
        return 0;
    }
    let e: u128 = if elapsed > total {
        total as u128
    } else {
        elapsed as u128
    };
    let t = total as u128;
    assert((200 * e + t) / (2 * t) <= 100) by (nonlinear_arith)
        requires
            e <= t,
            t > 0,
    ;
    ((200 * e + t) / (2 * t)) as u8
}

/// The volume as a rounded percentage, capped at 200.
pub fn volume_pct(volume: u32) -> (p: u8)
    ensures
        p == volume_percent(volume),
        p <= 200,
{
    let v = if volume > VOLUME_MAX {
        VOLUME_MAX
    } else {
        volume
    };
    ((v + 5) / 10) as u8
}

fn prefix_str(icons: IconSet) -> (s: String)
    ensures
        s@ == line_prefix(icons),
{
    let mut s = String::new();
    if icons.is_nerd_font() {
        s.append(icons.music());
        push_char(&mut s, ' ');
    }
    s
}

fn state_icon_str(icons: IconSet, paused: bool) -> (s: &'static str)
    ensures
        s@ == state_icon(icons, paused),
{
    if paused {
        icons.pause()
    } else {
        icons.play()
    }
}

fn controls_str(icons: IconSet, paused: bool, tw: u16, interactive: bool) -> (s: String)
    ensures
        s@ == controls_suffix(icons, paused, tw, interactive),
{
    let mut s = String::new();
    if tw >= WIDTH_FULL && interactive {
        s.append("  ");
        s.append(icons.rewind());
        s.append(" [SPACE/");
        if paused {
            s.append("play ");
        } else {
            s.append("pause");
        }
        s.append("] ");
        s.append(icons.fast_forward());
        s.append("  [\u{2191}\u{2193}/kj] vol  [m] mute  [q] quit");
        proof {
            reveal_strlit("  ");
            reveal_strlit(" [SPACE/");
            reveal_strlit("play ");
            reveal_strlit("pause");
            reveal_strlit("] ");
            reveal_strlit("  [\u{2191}\u{2193}/kj] vol  [m] mute  [q] quit");
            assert(s@ =~= controls_hint(icons, paused));
        }
    }
    s
}


fn bar_sizes_exec(
    ctx: &RenderProgressContext,
    prefix: &str,
    icon: &str,
    elapsed_s: &str,
    total_s: &str,
    pct_s: &str,
    vol_icon: &str,
    vol_pct_s: &str,
    controls: &str,
) -> (r: (usize, usize))
    requires
        prefix@ == line_prefix(ctx.icons),
        icon@ == state_icon(ctx.icons, ctx.paused),
        elapsed_s@ == duration_text(ctx.elapsed),
        total_s@ == duration_text(ctx.total),
        pct_s@ == decimal(percent_of(ctx.elapsed, ctx.total)),
        vol_icon@ == volume_glyph(ctx.icons, ctx.volume),
        vol_pct_s@ == decimal(volume_percent(ctx.volume)),
        controls@ == controls_suffix(
            ctx.icons,
            ctx.paused,
            layout_width(ctx.term_cols),
            ctx.interactive,
        ),
    ensures
        (r.0 as nat, r.1 as nat) == bar_sizes(*ctx),
        r.0 <= MAX_BAR_CELLS,
        r.1 <= MAX_BAR_CELLS,
{
    match ctx.term_cols {
        Some(cols) => {
            let over: u128 = str_width(prefix) as u128 + str_width(icon) as u128 + str_width(
                elapsed_s,
            ) as u128 + str_width(total_s) as u128 + str_width(pct_s) as u128 + str_width(
                vol_icon,
            ) as u128 + str_width(vol_pct_s) as u128 + str_width(controls) as u128 + 19;
            assert(over == overhead(*ctx));
            let available: usize = if cols as u128 > over {
                (cols as u128 - over) as usize
            } else {
                0
            };
            proof {
                lemma_bar_split_bounds(available as nat);
            }
            bar_widths(available)
        },
        None => (30, 10),
    }
}

/// Neither bar is ever wider than this many cells.
pub const MAX_BAR_CELLS: usize = 60;

proof fn lemma_bar_split_bounds(available: nat)
    ensures
        bar_split(available).0 <= MAX_BAR_CELLS,
        bar_split(available).1 <= MAX_BAR_CELLS,
{
}

#[verifier::rlimit(60)]
fn full_status_str(ctx: &RenderProgressContext, tw: u16) -> (s: String)
    requires
        tw == layout_width(ctx.term_cols),
    ensures
        s@ == full_status(*ctx),
{
    let prefix = prefix_str(ctx.icons);
    let icon = state_icon_str(ctx.icons, ctx.paused);
    let elapsed_s = format_duration(ctx.elapsed);
    let total_s = format_duration(ctx.total);
    let pct = percent(ctx.elapsed, ctx.total);
    let pct_s = decimal_string(pct as u64);
    let vol_icon = ctx.icons.volume(ctx.volume);
    let vol_pct = volume_pct(ctx.volume);
    let vol_pct_s = decimal_string(vol_pct as u64);
    let controls = controls_str(ctx.icons, ctx.paused, tw, ctx.interactive);
    let (bar_w, vol_w) = bar_sizes_exec(
        ctx,
        prefix.as_str(),
        icon,
        elapsed_s.as_str(),
        total_s.as_str(),
        pct_s.as_str(),
        vol_icon,
        vol_pct_s.as_str(),
        controls.as_str(),
    );
    let bar = render_bar(ctx.elapsed, ctx.total, bar_w, ctx.icons);
    let vol_bar = render_bar(ctx.volume as u64, VOLUME_MAX as u64, vol_w, ctx.icons);
    let mut s = String::new();
    s.append("  ");
    s.append(elapsed_s.as_str());
    s.append(" / ");
    s.append(total_s.as_str());
    s.append("  ");
    s.append(bar.as_str());
    s.append("  ");
    s.append(pct_s.as_str());
    s.append("%  ");
    s.append(vol_icon);
    push_char(&mut s, ' ');
    s.append(vol_bar.as_str());
    push_char(&mut s, ' ');
    s.append(vol_pct_s.as_str());
    push_char(&mut s, '%');
    s.append(controls.as_str());
    proof {
        reveal_strlit("  ");
        reveal_strlit(" / ");
        reveal_strlit("%  ");
        assert(s@ =~= full_status(*ctx));
    }
    s
}

fn status_str(ctx: &RenderProgressContext, tw: u16) -> (s: String)
    requires
        tw == layout_width(ctx.term_cols),
    ensures
        s@ == status_text(*ctx),
{
    if tw >= WIDTH_COMPACT {
        full_status_str(ctx, tw)
    } else {
        let pct = percent(ctx.elapsed, ctx.total);
        let pct_s = decimal_string(pct as u64);
        let mut s = String::new();
        push_char(&mut s, ' ');
        if tw >= WIDTH_MINIMAL {
            let elapsed_s = format_duration(ctx.elapsed);
            let total_s = format_duration(ctx.total);
            s.append(elapsed_s.as_str());
            push_char(&mut s, '/');
            s.append(total_s.as_str());
            push_char(&mut s, ' ');
        }
        s.append(pct_s.as_str());
        push_char(&mut s, '%');
        proof {
            assert(s@ =~= status_text(*ctx));
        }
        s
    }
}

fn header_str(ctx: &RenderProgressContext, tw: u16) -> (s: String)
    requires
        tw == layout_width(ctx.term_cols),
        header_fits(ctx.header),
    ensures
        s@ == header_text(*ctx),
{
    let mut s = String::new();
    match &ctx.header {
        None => {},
        Some(header) => {
            let hdr = header.as_str();
            if tw >= WIDTH_COMPACT {
                if !ctx.header_reserved {
                    push_char(&mut s, '\n');
                }
                s.append(move_up(1).as_str());
                s.append(move_to_column(0).as_str());
                if marquee_needed(hdr, tw) {
                    s.append(marquee_window(hdr, ctx.scroll_offset, tw as usize).as_str());
                } else {
                    s.append(hdr);
                }
                s.append(clear_until_newline().as_str());
                push_char(&mut s, '\n');
                proof {
                    assert(s@ =~= header_text(*ctx));
                }
            } else if ctx.header_reserved {
                s.append(move_up(1).as_str());
                s.append(move_to_column(0).as_str());
                s.append(clear_until_newline().as_str());
                push_char(&mut s, '\n');
                proof {
                    assert(s@ =~= header_text(*ctx));
                }
            }
        },
    }
    s
}

/// Renders one frame of the progress display: the header line (when there
/// is a header) and the progress line, laid out for the terminal width.
/// Returns `None`, and draws nothing, on terminals narrower than 20 columns.
pub fn render_progress(ctx: &RenderProgressContext) -> (frame: Option<String>)
    requires
        header_fits(ctx.header),
    ensures
        frame is None <==> layout_width(ctx.term_cols) < WIDTH_BARE,
        frame matches Some(f) ==> f@ == frame_text(*ctx),
{
    let tw: u16 = match ctx.term_cols {
        Some(c) => c,
        None => u16::MAX,
    };
    if tw < WIDTH_BARE {
        return None;
    }
    let mut s = header_str(ctx, tw);
    s.append(move_to_column(0).as_str());
    s.append(set_style(TextStyle::Bold).as_str());
    s.append(prefix_str(ctx.icons).as_str());
    s.append(state_icon_str(ctx.icons, ctx.paused));
    s.append(set_style(TextStyle::Reset).as_str());
    s.append(status_str(ctx, tw).as_str());
    s.append(clear_until_newline().as_str());
    proof {
        assert(s@ =~= frame_text(*ctx));
    }
    Some(s)
}
/// The percentage is 0 at the start, 100 at the end, never above 100, and
/// never goes down as playback advances.
pub proof fn lemma_percent_range(e1: u64, e2: u64, total: u64)
    requires
        total > 0,
        e1 <= e2,
    ensures
        percent_of(0, total) == 0,
        percent_of(total, total) == 100,
        percent_of(e2, total) <= 100,
        percent_of(e1, total) <= percent_of(e2, total),
{
    let t = total as nat;
    assert((200 * 0 + t) / (2 * t) == 0) by (nonlinear_arith)
        requires
            t > 0,
    ;
    assert((200 * t + t) / (2 * t) == 100) by (nonlinear_arith)
        requires
            t > 0,
    ;
    let c1 = clamped_num(e1, total);
    let c2 = clamped_num(e2, total);
    assert((200 * c2 + t) / (2 * t) <= 100) by (nonlinear_arith)
        requires
            c2 <= t,
            t > 0,
    ;
    vstd::arithmetic::div_mod::lemma_div_is_ordered(
        (200 * c1 + t) as int,
        (200 * c2 + t) as int,
        (2 * t) as int,
    );
}

/// When the terminal size is known, the two bars never take more than the
/// columns the rest of the full progress line leaves free.
pub proof fn lemma_frame_bars_fit(ctx: RenderProgressContext)
    ensures
        ctx.term_cols matches Some(cols) ==> bar_sizes(ctx).0 + bar_sizes(ctx).1 <= (if cols as nat
            > overhead(ctx) {
            (cols as nat - overhead(ctx)) as nat
        } else {
            0nat
        }),
{
    match ctx.term_cols {
        Some(cols) => {
            let available: nat = if cols as nat > overhead(ctx) {
                (cols as nat - overhead(ctx)) as nat
            } else {
                0
            };
            crate::bar::lemma_bars_fit(available);
        },
        None => {},
    }
}

/// Where the main progress bar starts in a frame on a compact or wider
/// terminal: after the header part, the cursor and style sequences around
/// the icon, two spaces, the elapsed time, ` / `, the total time and two
/// more spaces.
pub open spec fn main_bar_start(ctx: RenderProgressContext) -> int {
    (header_text(ctx).len() + move_to_column_seq(0).len() + set_style_seq(TextStyle::Bold).len()
        + line_prefix(ctx.icons).len() + state_icon(ctx.icons, ctx.paused).len() + set_style_seq(
        TextStyle::Reset,
    ).len() + 2 + duration_text(ctx.elapsed).len() + 3 + duration_text(ctx.total).len() + 2) as int
}

/// On compact and full terminals the main bar shows the part of the track
/// already played: its cell `j` is filled exactly when `elapsed / total`
/// (clamped to `[0, 1]`) reaches that cell, rounded to the nearest cell
/// (Nerd Fonts: whole cells only). So nothing is filled at the start,
/// everything once `elapsed >= total`, and at a fixed bar width the filled
/// part only grows as playback advances.
proof fn lemma_full_status_split(ctx: RenderProgressContext)
    ensures
        full_status(ctx) == (seq![' ', ' '] + duration_text(ctx.elapsed) + seq![' ', '/', ' ']
            + duration_text(ctx.total) + seq![' ', ' ']) + bar_text(
            ctx.elapsed,
            ctx.total,
            bar_sizes(ctx).0,
            ctx.icons,
        ) + (seq![' ', ' '] + decimal(percent_of(ctx.elapsed, ctx.total)) + seq!['%', ' ', ' ']
            + volume_glyph(ctx.icons, ctx.volume) + seq![' '] + bar_text(
            ctx.volume as u64,
            VOLUME_MAX as u64,
            bar_sizes(ctx).1,
            ctx.icons,
        ) + seq![' '] + decimal(volume_percent(ctx.volume)) + seq!['%'] + controls_suffix(
            ctx.icons,
            ctx.paused,
            layout_width(ctx.term_cols),
            ctx.interactive,
        )),
{
    assert(full_status(ctx) =~= (seq![' ', ' '] + duration_text(ctx.elapsed) + seq![' ', '/', ' ']
        + duration_text(ctx.total) + seq![' ', ' ']) + bar_text(
        ctx.elapsed,
        ctx.total,
        bar_sizes(ctx).0,
        ctx.icons,
    ) + (seq![' ', ' '] + decimal(percent_of(ctx.elapsed, ctx.total)) + seq!['%', ' ', ' ']
        + volume_glyph(ctx.icons, ctx.volume) + seq![' '] + bar_text(
        ctx.volume as u64,
        VOLUME_MAX as u64,
        bar_sizes(ctx).1,
        ctx.icons,
    ) + seq![' '] + decimal(volume_percent(ctx.volume)) + seq!['%'] + controls_suffix(
        ctx.icons,
        ctx.paused,
        layout_width(ctx.term_cols),
        ctx.interactive,
    )));
}

proof fn lemma_frame_split(ctx: RenderProgressContext)
    requires
        layout_width(ctx.term_cols) >= WIDTH_COMPACT,
    ensures
        frame_text(ctx) == (header_text(ctx) + move_to_column_seq(0) + set_style_seq(
            TextStyle::Bold,
        ) + line_prefix(ctx.icons) + state_icon(ctx.icons, ctx.paused) + set_style_seq(
            TextStyle::Reset,
        )) + full_status(ctx) + clear_until_newline_seq(),
{
    assert(status_text(ctx) == full_status(ctx));
    assert(frame_text(ctx) =~= (header_text(ctx) + move_to_column_seq(0) + set_style_seq(
        TextStyle::Bold,
    ) + line_prefix(ctx.icons) + state_icon(ctx.icons, ctx.paused) + set_style_seq(
        TextStyle::Reset,
    )) + full_status(ctx) + clear_until_newline_seq());
}

pub proof fn lemma_main_bar_shows_played_fraction(ctx: RenderProgressContext)
    requires
        layout_width(ctx.term_cols) >= WIDTH_COMPACT,
    ensures
        ({
            let f = frame_text(ctx);
            let start = main_bar_start(ctx);
            let w = bar_sizes(ctx).0;
            &&& start + w + 2 <= f.len()
            &&& f[start] == '['
            &&& f[start + w + 1] == ']'
            &&& forall|j: nat|
                j < w ==> (#[trigger] f[start + 1 + j] == crate::bar::filled_char(ctx.icons)
                    <==> crate::bar::covers_cell(ctx.elapsed, ctx.total, w, ctx.icons, j))
        }),
{
    let w = bar_sizes(ctx).0;
    let bar = bar_text(ctx.elapsed, ctx.total, w, ctx.icons);
    crate::bar::lemma_bar_cells(ctx.elapsed, ctx.total, w, ctx.icons);
    lemma_frame_split(ctx);
    lemma_full_status_split(ctx);
    let head = header_text(ctx) + move_to_column_seq(0) + set_style_seq(TextStyle::Bold)
        + line_prefix(ctx.icons) + state_icon(ctx.icons, ctx.paused) + set_style_seq(
        TextStyle::Reset,
    );
    let lead = seq![' ', ' '] + duration_text(ctx.elapsed) + seq![' ', '/', ' '] + duration_text(
        ctx.total,
    ) + seq![' ', ' '];
    let status = full_status(ctx);
    let f = frame_text(ctx);
    assert(head.len() + lead.len() == main_bar_start(ctx));
    let start = main_bar_start(ctx);
    assert(status.len() >= lead.len() + w + 2);
    assert forall|j: nat| j < w implies (#[trigger] f[start + 1 + j] == crate::bar::filled_char(
        ctx.icons,
    ) <==> crate::bar::covers_cell(ctx.elapsed, ctx.total, w, ctx.icons, j)) by {
        assert(f[start + 1 + j] == status[lead.len() + 1 + j as int]);
        assert(status[lead.len() + 1 + j as int] == bar[j + 1 as int]);
    }
    assert(f[start] == status[lead.len() as int]);
    assert(status[lead.len() as int] == bar[0]);
    assert(f[start + w + 1] == status[lead.len() + w + 1 as int]);
    assert(status[lead.len() + w + 1 as int] == bar[w + 1 as int]);
}

/// The percentage shown is the played fraction rounded to the nearest
/// whole percent, halves up: it is within half a percent of
/// `100 * elapsed / total` (elapsed capped at total), and 0 for an empty track.
pub proof fn lemma_percent_rounds_to_nearest(elapsed: u64, total: u64)
    ensures
        total == 0 ==> percent_of(elapsed, total) == 0,
        total > 0 ==> ({
            let c: nat = if elapsed < total {
                elapsed as nat
            } else {
                total as nat
            };
            let p = percent_of(elapsed, total);
            &&& 2 * p * total <= 200 * c + total
            &&& 200 * c + total < 2 * (p + 1) * total
        }),
{
    if total > 0 {
        let t = total as nat;
        let c = clamped_num(elapsed, total);
        let a = 200 * c + t;
        let b = 2 * t;
        lemma_fundamental_div_mod(a as int, b as int);
        let p = a / b;
        assert(2 * p * t <= a && a < 2 * (p + 1) * t) by (nonlinear_arith)
            requires
                a == b * p + a % b,
                0 <= a % b < b,
                b == 2 * t,
        ;
    }
}

/// The volume percentage is the volume (capped at 200 %) in thousandths,
/// rounded to the nearest percent, halves up.
pub proof fn lemma_volume_percent_rounds(volume: u32)
    ensures
        ({
            let v: nat = if volume > 2000 {
                2000
            } else {
                volume as nat
            };
            let p = volume_percent(volume);
            10 * p <= v + 5 && v + 5 < 10 * p + 10
        }),
{
}

} // verus!

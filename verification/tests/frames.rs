use nu_plugin_audio::icons::IconSet;
use nu_plugin_audio::marquee::{cycle_len, marquee_needed, marquee_window, next_offset};
use nu_plugin_audio::progress::{percent, render_progress, volume_pct, RenderProgressContext};

const SEC: u64 = 1_000_000_000;

fn ctx(cols: Option<u16>) -> RenderProgressContext {
    RenderProgressContext {
        term_cols: cols,
        elapsed: 30 * SEC,
        total: 60 * SEC,
        paused: false,
        volume: 1000,
        interactive: false,
        icons: IconSet::Ascii,
        header: None,
        header_reserved: false,
        scroll_offset: 0,
    }
}

#[test]
fn percent_rounds_half_up() {
    assert_eq!(percent(0, 100), 0);
    assert_eq!(percent(1, 200), 1);
    assert_eq!(percent(17, 100), 17);
    assert_eq!(percent(100, 100), 100);
    assert_eq!(percent(150, 100), 100);
    assert_eq!(percent(5, 0), 0);
    assert_eq!(percent(42 * SEC, 245 * SEC), 17);
}

#[test]
fn volume_percent_is_capped() {
    assert_eq!(volume_pct(0), 0);
    assert_eq!(volume_pct(50), 5);
    assert_eq!(volume_pct(1000), 100);
    assert_eq!(volume_pct(2000), 200);
    assert_eq!(volume_pct(5000), 200);
    assert_eq!(volume_pct(333), 33);
    assert_eq!(volume_pct(335), 34);
}

#[test]
fn too_narrow_terminal_draws_nothing() {
    assert_eq!(render_progress(&ctx(Some(19))), None);
    assert_eq!(render_progress(&ctx(Some(0))), None);
}

#[test]
fn bare_tier_shows_percent_only() {
    assert_eq!(
        render_progress(&ctx(Some(20))).unwrap(),
        "\x1b[1G\x1b[1m>\x1b[0m 50%\x1b[K"
    );
}

#[test]
fn minimal_tier_shows_times() {
    assert_eq!(
        render_progress(&ctx(Some(30))).unwrap(),
        "\x1b[1G\x1b[1m>\x1b[0m 0:30/1:00 50%\x1b[K"
    );
}

#[test]
fn compact_tier_shows_bars() {
    // overhead 36 columns leaves 14: a 9-cell bar and a 5-cell volume bar
    assert_eq!(
        render_progress(&ctx(Some(50))).unwrap(),
        "\x1b[1G\x1b[1m>\x1b[0m  0:30 / 1:00  [#####....]  50%  [V] [###..] 100%\x1b[K"
    );
}

#[test]
fn unknown_size_uses_default_bars() {
    let mut c = ctx(None);
    c.paused = true;
    c.volume = 0;
    assert_eq!(
        render_progress(&c).unwrap(),
        format!(
            "\x1b[1G\x1b[1m||\x1b[0m  0:30 / 1:00  [{}{}]  50%  [M] [{}] 0%\x1b[K",
            "#".repeat(15),
            ".".repeat(15),
            ".".repeat(10)
        )
    );
}

#[test]
fn full_tier_shows_control_hints() {
    let mut c = ctx(Some(200));
    c.interactive = true;
    c.paused = true;
    let frame = render_progress(&c).unwrap();
    assert!(frame.ends_with("100%  << [SPACE/play ] >>  [↑↓/kj] vol  [m] mute  [q] quit\x1b[K"));
    c.paused = false;
    let frame = render_progress(&c).unwrap();
    assert!(frame.contains("[SPACE/pause]"));
    c.interactive = false;
    let frame = render_progress(&c).unwrap();
    assert!(!frame.contains("SPACE"));
}

#[test]
fn nerd_font_line_has_music_prefix() {
    let mut c = ctx(Some(25));
    c.icons = IconSet::NerdFont;
    assert_eq!(
        render_progress(&c).unwrap(),
        "\x1b[1G\x1b[1m\u{f001} \u{f04b}\x1b[0m 50%\x1b[K"
    );
}

#[test]
fn header_line_is_reserved_then_redrawn() {
    let mut c = ctx(Some(50));
    c.header = Some(String::from("# Artist"));
    let frame = render_progress(&c).unwrap();
    assert!(frame.starts_with("\n\x1b[1A\x1b[1G# Artist\x1b[K\n\x1b[1G"));
    c.header_reserved = true;
    let frame = render_progress(&c).unwrap();
    assert!(frame.starts_with("\x1b[1A\x1b[1G# Artist\x1b[K\n\x1b[1G"));
}

#[test]
fn header_line_cleared_when_terminal_narrows() {
    let mut c = ctx(Some(30));
    c.header = Some(String::from("# Artist"));
    c.header_reserved = true;
    let frame = render_progress(&c).unwrap();
    assert_eq!(frame, "\x1b[1A\x1b[1G\x1b[K\n\x1b[1G\x1b[1m>\x1b[0m 0:30/1:00 50%\x1b[K");
    c.header_reserved = false;
    let frame = render_progress(&c).unwrap();
    assert_eq!(frame, "\x1b[1G\x1b[1m>\x1b[0m 0:30/1:00 50%\x1b[K");
}

#[test]
fn wide_header_scrolls() {
    let header = "x".repeat(60);
    let mut c = ctx(Some(50));
    c.header = Some(header.clone());
    c.header_reserved = true;
    c.scroll_offset = 58;
    let frame = render_progress(&c).unwrap();
    let visible = format!("xx     {}", "x".repeat(43));
    assert!(frame.starts_with(&format!("\x1b[1A\x1b[1G{}\x1b[K\n", visible)));
}

#[test]
fn marquee_window_examples() {
    assert!(marquee_needed("abcdef", 5));
    assert!(!marquee_needed("abcde", 5));
    assert_eq!(marquee_window("abcdef", 0, 4), "abcd");
    assert_eq!(marquee_window("abcdef", 4, 4), "ef  ");
    assert_eq!(marquee_window("abcdef", 8, 10), "   abcdef ");
    // the offset wraps around the cycle of header and gap
    assert_eq!(marquee_window("abcdef", 11, 3), "abc");
    assert_eq!(marquee_window("abcdef", 13, 3), "cde");
    // wide characters take two columns
    assert_eq!(marquee_window("日本語", 0, 5), "日本");
    assert_eq!(marquee_window("日本語", 0, 0), "");
}

#[test]
fn marquee_offset_wraps() {
    assert_eq!(cycle_len("abcdef"), 11);
    assert_eq!(next_offset(0, "abcdef"), 1);
    assert_eq!(next_offset(10, "abcdef"), 0);
    assert_eq!(next_offset(25, "abcdef"), 4);
    assert_eq!(next_offset(usize::MAX, "abcdef"), ((usize::MAX % 11) + 1) % 11);
}

#[test]
fn bars_shrink_to_fit_narrow_full_line() {
    // 80 columns with the control hints: the rest of the line leaves no
    // room for the bars, so both are drawn empty-width
    let mut c = ctx(Some(80));
    c.interactive = true;
    let frame = render_progress(&c).unwrap();
    assert!(frame.contains("  [] "));
    assert!(frame.contains("[V] [] 100%"));
}

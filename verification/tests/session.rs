use nu_plugin_audio::icons::IconSet;
use nu_plugin_audio::playback::{
    build_header, control_for_key, keep_waiting, should_render, Control, KeyInput, KeyOutcome,
    PlaybackSession, PlaybackState, SinkAction,
};

const SEC: u64 = 1_000_000_000;

fn session(total: u64) -> PlaybackSession {
    PlaybackSession::new(total, 1000, IconSet::Ascii, None, None)
}

fn press(s: &mut PlaybackSession, key: KeyInput) -> KeyOutcome {
    s.on_key(key, true)
}

#[test]
fn keys_map_to_controls() {
    assert_eq!(control_for_key(KeyInput::Char(' ')), Some(Control::TogglePause));
    assert_eq!(control_for_key(KeyInput::Right), Some(Control::SeekForward));
    assert_eq!(control_for_key(KeyInput::Char('l')), Some(Control::SeekForward));
    assert_eq!(control_for_key(KeyInput::Left), Some(Control::SeekBackward));
    assert_eq!(control_for_key(KeyInput::Char('h')), Some(Control::SeekBackward));
    assert_eq!(control_for_key(KeyInput::Up), Some(Control::VolumeUp));
    assert_eq!(control_for_key(KeyInput::Char('k')), Some(Control::VolumeUp));
    assert_eq!(control_for_key(KeyInput::Down), Some(Control::VolumeDown));
    assert_eq!(control_for_key(KeyInput::Char('j')), Some(Control::VolumeDown));
    assert_eq!(control_for_key(KeyInput::Char('m')), Some(Control::ToggleMute));
    assert_eq!(control_for_key(KeyInput::Char('q')), Some(Control::Quit));
    assert_eq!(control_for_key(KeyInput::Esc), Some(Control::Quit));
    assert_eq!(control_for_key(KeyInput::Char('x')), None);
    assert_eq!(control_for_key(KeyInput::Other), None);
}

#[test]
fn new_session_starts_playing() {
    let s = PlaybackSession::new(90 * SEC, 500, IconSet::Unicode, None, None);
    assert!(s.interactive);
    assert_eq!(s.header, None);
    assert_eq!(
        s.state,
        PlaybackState {
            position: 0,
            paused: false,
            volume: 500,
            pre_mute_volume: 500,
            header_reserved: false,
            scroll_offset: 0
        }
    );
    assert!(!session(59 * SEC).interactive);
    // controls are for tracks longer than one minute
    assert!(!session(60 * SEC).interactive);
    assert!(session(60 * SEC + 1).interactive);
}

#[test]
fn one_minute_track_ignores_keys() {
    let mut s = session(60 * SEC);
    let out = press(&mut s, KeyInput::Char(' '));
    assert_eq!(out, KeyOutcome { action: None, render: false, quit: false });
    assert!(!s.state.paused);
}

#[test]
fn short_tracks_ignore_keys() {
    let mut s = session(30 * SEC);
    let out = press(&mut s, KeyInput::Char(' '));
    assert_eq!(out, KeyOutcome { action: None, render: false, quit: false });
    assert!(!s.state.paused);
}

#[test]
fn key_releases_are_ignored() {
    let mut s = session(120 * SEC);
    let out = s.on_key(KeyInput::Char(' '), false);
    assert_eq!(out.action, None);
    assert!(!s.state.paused);
}

#[test]
fn space_toggles_pause() {
    let mut s = session(120 * SEC);
    let out = press(&mut s, KeyInput::Char(' '));
    assert_eq!(out, KeyOutcome { action: Some(SinkAction::Pause), render: true, quit: false });
    assert!(s.state.paused);
    let out = press(&mut s, KeyInput::Char(' '));
    assert_eq!(out.action, Some(SinkAction::Play));
    assert!(!s.state.paused);
}

#[test]
fn seeking_stays_within_track() {
    let mut s = session(120 * SEC);
    assert!(!s.observe(3 * SEC, false));
    assert_eq!(press(&mut s, KeyInput::Left).action, Some(SinkAction::Seek(0)));
    assert_eq!(press(&mut s, KeyInput::Right).action, Some(SinkAction::Seek(8 * SEC)));
    assert!(!s.observe(118 * SEC, false));
    assert_eq!(press(&mut s, KeyInput::Char('l')).action, Some(SinkAction::Seek(120 * SEC)));
    assert_eq!(press(&mut s, KeyInput::Char('h')).action, Some(SinkAction::Seek(113 * SEC)));
    // seeking does not move the observed position by itself
    assert_eq!(s.state.position, 118 * SEC);
}

#[test]
fn volume_steps_are_clamped() {
    let mut s = PlaybackSession::new(120 * SEC, 1980, IconSet::Ascii, None, None);
    assert_eq!(press(&mut s, KeyInput::Up).action, Some(SinkAction::SetVolume(2000)));
    assert_eq!(press(&mut s, KeyInput::Char('k')).action, Some(SinkAction::SetVolume(2000)));
    let mut s = PlaybackSession::new(120 * SEC, 30, IconSet::Ascii, None, None);
    assert_eq!(press(&mut s, KeyInput::Down).action, Some(SinkAction::SetVolume(0)));
    assert_eq!(s.state.pre_mute_volume, 30);
    assert_eq!(press(&mut s, KeyInput::Char('j')).action, Some(SinkAction::SetVolume(0)));
}

#[test]
fn up_then_down_restores_volume() {
    let mut s = PlaybackSession::new(120 * SEC, 730, IconSet::Ascii, None, None);
    press(&mut s, KeyInput::Up);
    assert_eq!(s.state.volume, 780);
    press(&mut s, KeyInput::Down);
    assert_eq!(s.state.volume, 730);
}

#[test]
fn mute_twice_restores_volume() {
    let mut s = PlaybackSession::new(120 * SEC, 1000, IconSet::Ascii, None, None);
    assert_eq!(press(&mut s, KeyInput::Char('m')).action, Some(SinkAction::SetVolume(0)));
    assert_eq!(s.state.pre_mute_volume, 1000);
    assert_eq!(press(&mut s, KeyInput::Char('m')).action, Some(SinkAction::SetVolume(1000)));
}

#[test]
fn unmute_from_low_volume_comes_back_at_one_step() {
    // a volume below one step is not restored exactly: unmuting gives 5%
    let mut s = PlaybackSession::new(120 * SEC, 10, IconSet::Ascii, None, None);
    press(&mut s, KeyInput::Char('m'));
    assert_eq!(press(&mut s, KeyInput::Char('m')).action, Some(SinkAction::SetVolume(50)));
}

#[test]
fn quit_stops_player() {
    let mut s = session(120 * SEC);
    assert_eq!(
        press(&mut s, KeyInput::Char('q')),
        KeyOutcome { action: Some(SinkAction::Stop), render: false, quit: true }
    );
    assert!(press(&mut s, KeyInput::Esc).quit);
}

#[test]
fn position_is_capped_and_end_detected() {
    let mut s = session(10 * SEC);
    assert!(!s.observe(9 * SEC, false));
    assert!(s.observe(9 * SEC, true));
    assert!(s.observe(12 * SEC, false));
    assert_eq!(s.state.position, 10 * SEC);
}

#[test]
fn render_cadence() {
    assert!(should_render(true, 0));
    assert!(!should_render(false, 499_999_999));
    assert!(should_render(false, 500_000_000));
    assert!(keep_waiting(1, 2, false));
    assert!(!keep_waiting(2, 2, false));
    assert!(!keep_waiting(1, 2, true));
}

#[test]
fn header_from_tags() {
    assert_eq!(
        build_header(IconSet::Unicode, Some("Artist".into()), Some("Title".into())),
        Some("♪  Artist — Title".to_string())
    );
    assert_eq!(build_header(IconSet::Ascii, Some("Artist".into()), None), Some("#  Artist".to_string()));
    assert_eq!(build_header(IconSet::Ascii, None, Some("Title".into())), Some("#  Title".to_string()));
    assert_eq!(build_header(IconSet::Ascii, None, None), None);
}

#[test]
fn header_reserved_and_scrolled_after_render() {
    let long_title = "t".repeat(70);
    let mut s = PlaybackSession::new(120 * SEC, 1000, IconSet::Ascii, None, Some(long_title));
    s.after_render(false, Some(80));
    assert!(!s.state.header_reserved);
    s.after_render(true, Some(40));
    assert!(!s.state.header_reserved);
    assert_eq!(s.state.scroll_offset, 0);
    s.after_render(true, Some(100));
    assert!(s.state.header_reserved);
    assert_eq!(s.state.scroll_offset, 0);
    s.after_render(true, Some(60));
    assert_eq!(s.state.scroll_offset, 1);
    for _ in 0..77 {
        s.after_render(true, Some(60));
    }
    // the header "#  " + 70 characters plus the gap is 78 characters long
    assert_eq!(s.state.scroll_offset, 0);
}

#[test]
fn frames_follow_session_state() {
    let mut s = session(120 * SEC);
    s.observe(60 * SEC, false);
    press(&mut s, KeyInput::Char(' '));
    assert_eq!(s.frame(Some(25)).unwrap(), "\x1b[1G\x1b[1m||\x1b[0m 50%\x1b[K");
    assert_eq!(s.final_frame(Some(25)).unwrap(), "\x1b[1G\x1b[1m>\x1b[0m 50%\x1b[K");
    assert_eq!(s.frame(Some(10)), None);
}

#[test]
fn space_presses_alternate_pause_and_play() {
    let mut s = session(120 * SEC);
    for n in 0..7 {
        let expected = if n % 2 == 0 { SinkAction::Pause } else { SinkAction::Play };
        assert_eq!(press(&mut s, KeyInput::Char(' ')).action, Some(expected));
        assert_eq!(s.state.paused, n % 2 == 0);
        // other keys in between do not change the alternation
        press(&mut s, KeyInput::Char('x'));
    }
}

#[test]
fn marquee_offset_counts_scrolling_frames() {
    let long_title = "t".repeat(70);
    let mut s = PlaybackSession::new(120 * SEC, 1000, IconSet::Ascii, None, Some(long_title));
    // drawn wide enough to show the header: no scrolling
    s.after_render(true, Some(200));
    // not drawn, or drawn below the compact tier: no scrolling
    s.after_render(false, Some(60));
    s.after_render(true, Some(49));
    assert_eq!(s.state.scroll_offset, 0);
    for _ in 0..5 {
        s.after_render(true, Some(60));
    }
    assert_eq!(s.state.scroll_offset, 5);
}

#[test]
fn no_header_is_never_reserved() {
    let mut s = session(120 * SEC);
    for cols in [Some(20), Some(50), Some(200), None] {
        s.after_render(true, cols);
    }
    assert!(!s.state.header_reserved);
    assert_eq!(s.state.scroll_offset, 0);
}

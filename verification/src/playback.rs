//! The playback loop's decisions: what each key does to the player, when a
//! frame is drawn, and how the header line and its scrolling advance.
use crate::icons::music_glyph;
use crate::icons::IconSet;
use crate::marquee::marquee_cycle;
use crate::marquee::marquee_needed;
use crate::marquee::next_offset;
use crate::progress::frame_text;
use crate::progress::header_fits;
use crate::progress::layout_width;
use crate::progress::render_progress;
use crate::progress::RenderProgressContext;
use crate::progress::VOLUME_MAX;
use crate::progress::WIDTH_BARE;
use crate::progress::WIDTH_COMPACT;
use crate::width::str_width_of;
use vstd::arithmetic::div_mod::lemma_add_mod_noop;
use vstd::arithmetic::div_mod::lemma_mod_twice;
use vstd::prelude::*;

verus! {

/// Volume change per key press, in thousandths (5%).
pub const VOLUME_STEP: u32 = 50;

/// Seek distance per key press, in nanoseconds (5 s).
pub const SEEK_STEP: u64 = 5_000_000_000;

/// Tracks longer than this (1 min, in nanoseconds) get interactive controls.
pub const CONTROLS_THRESHOLD: u64 = 60_000_000_000;

/// The display is redrawn at least this often (500 ms, in nanoseconds).
pub const RENDER_INTERVAL: u64 = 500_000_000;

/// A key as the terminal reports it.
#[derive(Clone, Copy, Debug, PartialEq, Eq, Structural)]
pub enum KeyInput {
    Char(char),
    Left,
    Right,
    Up,
    Down,
    Esc,
    Other,
}

/// What a key asks of the player.
#[derive(Clone, Copy, Debug, PartialEq, Eq, Structural)]
pub enum Control {
    TogglePause,
    SeekForward,
    SeekBackward,
    VolumeUp,
    VolumeDown,
    ToggleMute,
    Quit,
}

/// What the audio player is told to do.
#[derive(Clone, Copy, Debug, PartialEq, Eq, Structural)]
pub enum SinkAction {
    Play,
    Pause,
    /// Seek to a position in nanoseconds.
    Seek(u64),
    /// Set the volume, in thousandths.
    SetVolume(u32),
    Stop,
}

/// The state the playback loop carries from one tick to the next.
#[derive(Clone, Copy, Debug, PartialEq, Eq, Structural)]
pub struct PlaybackState {
    /// Last observed position, in nanoseconds, capped at the track length.
    pub position: u64,
    pub paused: bool,
    /// Volume, in thousandths.
    pub volume: u32,
    /// Volume to come back to when unmuting, in thousandths.
    pub pre_mute_volume: u32,
    /// Whether a line above the progress line is set aside for the header.
    pub header_reserved: bool,
    pub scroll_offset: usize,
}

/// The outcome of one key press.
#[derive(Clone, Copy, Debug, PartialEq, Eq, Structural)]
pub struct KeyOutcome {
    /// What to tell the player, if anything.
    pub action: Option<SinkAction>,
    /// Whether to redraw right away.
    pub render: bool,
    /// Whether playback ends.
    pub quit: bool,
}

/// The controls: space toggles pause, right/`l` and left/`h` seek, up/`k`
/// and down/`j` change the volume, `m` toggles mute, `q` or escape quits.
pub open spec fn control_of(key: KeyInput) -> Option<Control> {
    match key {
        KeyInput::Char(' ') => Some(Control::TogglePause),
        KeyInput::Right | KeyInput::Char('l') => Some(Control::SeekForward),
        KeyInput::Left | KeyInput::Char('h') => Some(Control::SeekBackward),
        KeyInput::Up | KeyInput::Char('k') => Some(Control::VolumeUp),
        KeyInput::Down | KeyInput::Char('j') => Some(Control::VolumeDown),
        KeyInput::Char('m') => Some(Control::ToggleMute),
        KeyInput::Char('q') | KeyInput::Esc => Some(Control::Quit),
        _ => None,
    }
}

/// The state with a new volume; a nonzero volume is also remembered for unmuting.
pub open spec fn with_volume(s: PlaybackState, v: u32) -> PlaybackState {
    PlaybackState {
        volume: v,
        pre_mute_volume: if v > 0 {
            v
        } else {
            s.pre_mute_volume
        },
        ..s
    }
}

/// Where a seek forward from `position` lands: 5 s later, at most the end.
pub open spec fn seek_forward_target(position: u64, total: u64) -> u64 {
    if position + SEEK_STEP > total {
        total
    } else {
        (position + SEEK_STEP) as u64
    }
}

/// Where a seek back from `position` lands: 5 s earlier, at least the start.
pub open spec fn seek_backward_target(position: u64) -> u64 {
    if position > SEEK_STEP {
        (position - SEEK_STEP) as u64
    } else {
        0
    }
}

/// The new state and the outcome of a control.
pub open spec fn control_step(s: PlaybackState, total: u64, c: Control) -> (PlaybackState, KeyOutcome) {
    match c {
        Control::TogglePause => if s.paused {
            (
                PlaybackState { paused: false, ..s },
                KeyOutcome { action: Some(SinkAction::Play), render: true, quit: false },
            )
        } else {
            (
                PlaybackState { paused: true, ..s },
                KeyOutcome { action: Some(SinkAction::Pause), render: true, quit: false },
            )
        },
        Control::SeekForward => (
            s,
            KeyOutcome {
                action: Some(SinkAction::Seek(seek_forward_target(s.position, total))),
                render: true,
                quit: false,
            },
        ),
        Control::SeekBackward => (
            s,
            KeyOutcome {
                action: Some(SinkAction::Seek(seek_backward_target(s.position))),
                render: true,
                quit: false,
            },
        ),
        Control::VolumeUp => {
            let v: u32 = if s.volume + VOLUME_STEP > VOLUME_MAX {
                VOLUME_MAX
            } else {
                (s.volume + VOLUME_STEP) as u32
            };
            (
                with_volume(s, v),
                KeyOutcome { action: Some(SinkAction::SetVolume(v)), render: true, quit: false },
            )
        },
        Control::VolumeDown => {
            let v: u32 = if s.volume > VOLUME_STEP {
                (s.volume - VOLUME_STEP) as u32
            } else {
                0
            };
            (
                with_volume(s, v),
                KeyOutcome { action: Some(SinkAction::SetVolume(v)), render: true, quit: false },
            )
        },
        Control::ToggleMute => {
            let next = if s.volume > 0 {
                PlaybackState { pre_mute_volume: s.volume, volume: 0, ..s }
            } else {
                PlaybackState {
                    volume: if s.pre_mute_volume > VOLUME_STEP {
                        s.pre_mute_volume
                    } else {
                        VOLUME_STEP
                    },
                    ..s
                }
            };
            (
                next,
                KeyOutcome {
                    action: Some(SinkAction::SetVolume(next.volume)),
                    render: true,
                    quit: false,
                },
            )
        },
        Control::Quit => (s, KeyOutcome { action: Some(SinkAction::Stop), render: false, quit: true }),
    }
}

/// No change and nothing to do.
pub open spec fn no_outcome() -> KeyOutcome {
    KeyOutcome { action: None, render: false, quit: false }
}

/// The controls a key maps to.
pub fn control_for_key(key: KeyInput) -> (c: Option<Control>)
    ensures
        c == control_of(key),
{
    match key {
        KeyInput::Char(' ') => Some(Control::TogglePause),
        KeyInput::Right | KeyInput::Char('l') => Some(Control::SeekForward),
        KeyInput::Left | KeyInput::Char('h') => Some(Control::SeekBackward),
        KeyInput::Up | KeyInput::Char('k') => Some(Control::VolumeUp),
        KeyInput::Down | KeyInput::Char('j') => Some(Control::VolumeDown),
        KeyInput::Char('m') => Some(Control::ToggleMute),
        KeyInput::Char('q') | KeyInput::Esc => Some(Control::Quit),
        _ => None,
    }
}

impl PlaybackState {
    /// Volumes stay within `[0, 200%]` and the position within the track.
    pub open spec fn wf(&self, total: u64) -> bool {
        &&& self.volume <= VOLUME_MAX
        &&& self.pre_mute_volume <= VOLUME_MAX
        &&& self.position <= total
    }

    /// The state at the start of playback, as a value.
    pub open spec fn new_spec(initial_volume: u32) -> PlaybackState {
        PlaybackState {
            position: 0,
            paused: false,
            volume: initial_volume,
            pre_mute_volume: initial_volume,
            header_reserved: false,
            scroll_offset: 0,
        }
    }

    /// The state at the start of playback: at the beginning, playing, at the
    /// initial volume, with no header line reserved yet.
    pub fn new(initial_volume: u32) -> (s: PlaybackState)
        requires
            initial_volume <= VOLUME_MAX,
        ensures
            s == PlaybackState::new_spec(initial_volume),
    {
        PlaybackState {
            position: 0,
            paused: false,
            volume: initial_volume,
            pre_mute_volume: initial_volume,
            header_reserved: false,
            scroll_offset: 0,
        }
    }

    /// Applies a control to the state, for a track of length `total`.
    pub fn apply(&mut self, total: u64, c: Control) -> (out: KeyOutcome)
        requires
            old(self).wf(total),
        ensures
            (*final(self), out) == control_step(*old(self), total, c),
            final(self).wf(total),
    {
        match c {
            Control::TogglePause => {
                if self.paused {
                    self.paused = false;
                    KeyOutcome { action: Some(SinkAction::Play), render: true, quit: false }
                } else {
                    self.paused = true;
                    KeyOutcome { action: Some(SinkAction::Pause), render: true, quit: false }
                }
            },
            Control::SeekForward => {
                let target = if total - self.position < SEEK_STEP {
                    total
                } else {
                    self.position + SEEK_STEP
                };
                KeyOutcome { action: Some(SinkAction::Seek(target)), render: true, quit: false }
            },
            Control::SeekBackward => {
                let target = self.position.saturating_sub(SEEK_STEP);
                KeyOutcome { action: Some(SinkAction::Seek(target)), render: true, quit: false }
            },
            Control::VolumeUp => {
                let v = if self.volume + VOLUME_STEP > VOLUME_MAX {
                    VOLUME_MAX
                } else {
                    self.volume + VOLUME_STEP
                };
                self.volume = v;
                if v > 0 {
                    self.pre_mute_volume = v;
                }
                KeyOutcome { action: Some(SinkAction::SetVolume(v)), render: true, quit: false }
            },
            Control::VolumeDown => {
                let v = self.volume.saturating_sub(VOLUME_STEP);
                self.volume = v;
                if v > 0 {
                    self.pre_mute_volume = v;
                }
                KeyOutcome { action: Some(SinkAction::SetVolume(v)), render: true, quit: false }
            },
            Control::ToggleMute => {
                if self.volume > 0 {
                    self.pre_mute_volume = self.volume;
                    self.volume = 0;
                } else {
                    self.volume = if self.pre_mute_volume > VOLUME_STEP {
                        self.pre_mute_volume
                    } else {
                        VOLUME_STEP
                    };
                }
                KeyOutcome {
                    action: Some(SinkAction::SetVolume(self.volume)),
                    render: true,
                    quit: false,
                }
            },
            Control::Quit => KeyOutcome { action: Some(SinkAction::Stop), render: false, quit: true },
        }
    }
}

/// Characters in an optional text; none when absent.
pub open spec fn opt_len(t: Option<String>) -> nat {
    match t {
        Some(s) => s@.len(),
        None => 0,
    }
}

/// The separator between artist and title: space, em dash, space.
pub open spec fn artist_title_separator() -> Seq<char> {
    seq![' ', '\u{2014}', ' ']
}

/// The header above the progress line: the music glyph, two spaces, then
/// the artist and the title joined by an em dash, whichever are known; no
/// header when neither is.
pub open spec fn header_line(icons: IconSet, artist: Option<String>, title: Option<String>) -> Option<
    Seq<char>,
> {
    let joined: Option<Seq<char>> = match (artist, title) {
        (Some(a), Some(t)) => Some(a@ + artist_title_separator() + t@),
        (Some(a), None) => Some(a@),
        (None, Some(t)) => Some(t@),
        (None, None) => None,
    };
    match joined {
        Some(j) => Some(music_glyph(icons) + seq![' ', ' '] + j),
        None => None,
    }
}

/// Builds the header line from the track's artist and title tags.
pub fn build_header(icons: IconSet, artist: Option<String>, title: Option<String>) -> (h: Option<
    String,
>)
    ensures
        match h {
            Some(s) => header_line(icons, artist, title) == Some(s@),
            None => header_line(icons, artist, title) is None,
        },
{
    let joined: Option<String> = match (artist, title) {
        (Some(a), Some(t)) => {
            let mut j = a;
            j.append(" \u{2014} ");
            j.append(t.as_str());
            proof {
                reveal_strlit(" \u{2014} ");
            }
            Some(j)
        },
        (Some(a), None) => Some(a),
        (None, Some(t)) => Some(t),
        (None, None) => None,
    };
    match joined {
        Some(j) => {
            let mut s = String::new();
            s.append(icons.music());
            s.append("  ");
            s.append(j.as_str());
            proof {
                reveal_strlit("  ");
                assert(s@ =~= music_glyph(icons) + seq![' ', ' '] + j@);
            }
            Some(s)
        },
        None => None,
    }
}

/// Whether the position has reached the end of a track of length `total`
/// or the player has run dry.
pub open spec fn playback_over(position: u64, total: u64, sink_empty: bool) -> bool {
    position >= total || sink_empty
}

/// Whether silent playback keeps waiting: the track length has not yet
/// elapsed and the player still has sound queued.
pub fn keep_waiting(elapsed: u64, total: u64, sink_empty: bool) -> (r: bool)
    ensures
        r == (elapsed < total && !sink_empty),
{
    elapsed < total && !sink_empty
}

/// Whether a frame is due: a key asked for one, or the last one is at least
/// 500 ms old.
pub fn should_render(needs_render: bool, since_last_render: u64) -> (r: bool)
    ensures
        r == (needs_render || since_last_render >= RENDER_INTERVAL),
{
    needs_render || since_last_render >= RENDER_INTERVAL
}

/// One playback with the live display: the track length, whether the
/// controls are live, the glyph set, the header line, and the loop state.
pub struct PlaybackSession {
    /// Track length, in nanoseconds.
    pub total: u64,
    pub interactive: bool,
    pub icons: IconSet,
    pub header: Option<String>,
    pub state: PlaybackState,
}

impl PlaybackSession {
    /// The controls are live exactly for tracks longer than a minute, the
    /// state is within range, and the header leaves room for scrolling.
    pub open spec fn wf(&self) -> bool {
        &&& self.state.wf(self.total)
        &&& self.interactive == (self.total > CONTROLS_THRESHOLD)
        &&& header_fits(self.header)
    }

    /// The frame context for the current state; the last frame shows the
    /// play icon.
    pub open spec fn frame_context(&self, term_cols: Option<u16>, last: bool) -> RenderProgressContext {
        RenderProgressContext {
            term_cols: term_cols,
            elapsed: self.state.position,
            total: self.total,
            paused: if last {
                false
            } else {
                self.state.paused
            },
            volume: self.state.volume,
            interactive: self.interactive,
            icons: self.icons,
            header: self.header,
            header_reserved: self.state.header_reserved,
            scroll_offset: self.state.scroll_offset,
        }
    }

    /// Starts a session for a track of `total` nanoseconds at an initial
    /// volume, with the header built from the artist and title tags.
    pub fn new(
        total: u64,
        initial_volume: u32,
        icons: IconSet,
        artist: Option<String>,
        title: Option<String>,
    ) -> (s: PlaybackSession)
        requires
            initial_volume <= VOLUME_MAX,
            opt_len(artist) + opt_len(title) + 16 <= usize::MAX,
        ensures
            s.wf(),
            s.total == total,
            s.interactive == (total > CONTROLS_THRESHOLD),
            s.icons == icons,
            match s.header {
                Some(h) => header_line(icons, artist, title) == Some(h@),
                None => header_line(icons, artist, title) is None,
            },
            s.state == PlaybackState::new_spec(initial_volume),
    {
        let header = build_header(icons, artist, title);
        PlaybackSession {
            total,
            interactive: total > CONTROLS_THRESHOLD,
            icons,
            header,
            state: PlaybackState::new(initial_volume),
        }
    }

    /// Takes in the player's position (capped at the track length) and
    /// whether the player is empty; returns whether playback is over.
    pub fn observe(&mut self, raw_position: u64, sink_empty: bool) -> (over: bool)
        requires
            old(self).wf(),
        ensures
            final(self).wf(),
            final(self).state == (PlaybackState {
                position: if raw_position < old(self).total {
                    raw_position
                } else {
                    old(self).total
                },
                ..old(self).state
            }),
            final(self).total == old(self).total,
            final(self).interactive == old(self).interactive,
            final(self).icons == old(self).icons,
            final(self).header == old(self).header,
            over == playback_over(final(self).state.position, final(self).total, sink_empty),
    {
        let position = if raw_position < self.total {
            raw_position
        } else {
            self.total
        };
        self.state.position = position;
        position >= self.total || sink_empty
    }

    /// Handles a key event: only key presses, and only when the controls
    /// are live, do anything.
    pub fn on_key(&mut self, key: KeyInput, is_press: bool) -> (out: KeyOutcome)
        requires
            old(self).wf(),
        ensures
            final(self).wf(),
            final(self).total == old(self).total,
            final(self).interactive == old(self).interactive,
            final(self).icons == old(self).icons,
            final(self).header == old(self).header,
            match control_of(key) {
                Some(c) => if old(self).interactive && is_press {
                    (final(self).state, out) == control_step(old(self).state, old(self).total, c)
                } else {
                    final(self).state == old(self).state && out == no_outcome()
                },
                None => final(self).state == old(self).state && out == no_outcome(),
            },
    {
        if !self.interactive || !is_press {
            return KeyOutcome { action: None, render: false, quit: false };
        }
        match control_for_key(key) {
            Some(c) => {
                let total = self.total;
                self.state.apply(total, c)
            },
            None => KeyOutcome { action: None, render: false, quit: false },
        }
    }

    fn context(&self, term_cols: Option<u16>, last: bool) -> (ctx: RenderProgressContext)
        ensures
            ctx == self.frame_context(term_cols, last),
    {
        let header = match &self.header {
            Some(h) => Some(h.clone()),
            None => None,
        };
        RenderProgressContext {
            term_cols,
            elapsed: self.state.position,
            total: self.total,
            paused: if last {
                false
            } else {
                self.state.paused
            },
            volume: self.state.volume,
            interactive: self.interactive,
            icons: self.icons,
            header,
            header_reserved: self.state.header_reserved,
            scroll_offset: self.state.scroll_offset,
        }
    }

    /// The frame for the current state, or `None` on terminals narrower
    /// than 20 columns.
    pub fn frame(&self, term_cols: Option<u16>) -> (f: Option<String>)
        requires
            self.wf(),
        ensures
            f is None <==> layout_width(term_cols) < WIDTH_BARE,
            f matches Some(s) ==> s@ == frame_text(self.frame_context(term_cols, false)),
    {
        let ctx = self.context(term_cols, false);
        render_progress(&ctx)
    }

    /// The frame drawn once playback is over: the same display with the
    /// play icon.
    pub fn final_frame(&self, term_cols: Option<u16>) -> (f: Option<String>)
        requires
            self.wf(),
        ensures
            f is None <==> layout_width(term_cols) < WIDTH_BARE,
            f matches Some(s) ==> s@ == frame_text(self.frame_context(term_cols, true)),
    {
        let ctx = self.context(term_cols, true);
        render_progress(&ctx)
    }

    /// After a frame: once a header has been drawn on a compact terminal its
    /// line stays reserved, and a header too wide for the terminal scrolls
    /// by one character.
    pub fn after_render(&mut self, rendered: bool, term_cols: Option<u16>)
        requires
            old(self).wf(),
        ensures
            final(self).wf(),
            final(self).total == old(self).total,
            final(self).interactive == old(self).interactive,
            final(self).icons == old(self).icons,
            final(self).header == old(self).header,
            final(self).state.position == old(self).state.position,
            final(self).state.paused == old(self).state.paused,
            final(self).state.volume == old(self).state.volume,
            final(self).state.pre_mute_volume == old(self).state.pre_mute_volume,
            final(self).state.header_reserved == (old(self).state.header_reserved || (rendered
                && old(self).header is Some && layout_width(term_cols) >= WIDTH_COMPACT)),
            final(self).state.scroll_offset == (match old(self).header {
                Some(h) => if rendered && layout_width(term_cols) >= WIDTH_COMPACT
                    && str_width_of(h@) > layout_width(term_cols) {
                    ((old(self).state.scroll_offset + 1) % (marquee_cycle(h@).len() as int)) as usize
                } else {
                    old(self).state.scroll_offset
                },
                None => old(self).state.scroll_offset,
            }),
            final(self).state == render_step(old(self).state, old(self).header, rendered, term_cols),
    {
        if !rendered {
            return;
        }
        let tw: u16 = match term_cols {
            Some(c) => c,
            None => u16::MAX,
        };
        match &self.header {
            Some(hdr) => {
                if tw >= WIDTH_COMPACT {
                    self.state.header_reserved = true;
                    if marquee_needed(hdr.as_str(), tw) {
                        self.state.scroll_offset = next_offset(self.state.scroll_offset, hdr.as_str());
                    }
                }
            },
            None => {},
        }
    }
}
/// Muting and then unmuting gives back the volume that was playing, for
/// any volume of at least one step (or silence, which stays silent).
pub proof fn lemma_mute_twice_restores(s: PlaybackState, total: u64)
    requires
        s.wf(total),
        s.volume == 0 || s.volume >= VOLUME_STEP,
    ensures
        control_step(control_step(s, total, Control::ToggleMute).0, total, Control::ToggleMute).0.volume
            == s.volume,
{
}

/// Pressing space twice returns to the same pause state, telling the player
/// to pause and then play (or the reverse).
pub proof fn lemma_pause_twice_restores(s: PlaybackState, total: u64)
    ensures
        control_step(control_step(s, total, Control::TogglePause).0, total, Control::TogglePause).0
            == s,
        control_step(s, total, Control::TogglePause).1.action == Some(
            if s.paused {
                SinkAction::Play
            } else {
                SinkAction::Pause
            },
        ),
{
}

/// A volume step up followed by a step down gives back the volume when the
/// step up was not cut off at 200%; a step down followed by a step up does
/// when the step down was not cut off at 0.
pub proof fn lemma_volume_steps_undo(s: PlaybackState, total: u64)
    requires
        s.wf(total),
    ensures
        s.volume + VOLUME_STEP <= VOLUME_MAX ==> control_step(
            control_step(s, total, Control::VolumeUp).0,
            total,
            Control::VolumeDown,
        ).0.volume == s.volume,
        s.volume >= VOLUME_STEP ==> control_step(
            control_step(s, total, Control::VolumeDown).0,
            total,
            Control::VolumeUp,
        ).0.volume == s.volume,
{
}

/// Every control keeps the volume within `[0, 200%]` and the position
/// within the track, and seeking lands within the track: forward never
/// before the position, backward never after it.
pub proof fn lemma_controls_stay_in_range(s: PlaybackState, total: u64, c: Control)
    requires
        s.wf(total),
    ensures
        control_step(s, total, c).0.wf(total),
        c == Control::SeekForward ==> s.position <= seek_forward_target(s.position, total) <= total,
        c == Control::SeekBackward ==> seek_backward_target(s.position) <= s.position,
        control_step(s, total, c).1.quit <==> c == Control::Quit,
{
}

/// The state after `n` presses of space.
pub open spec fn space_presses(s: PlaybackState, total: u64, n: nat) -> PlaybackState
    decreases n,
{
    if n == 0 {
        s
    } else {
        control_step(space_presses(s, total, (n - 1) as nat), total, Control::TogglePause).0
    }
}

/// Space presses alternate: after `n` presses only the pause state has
/// changed, flipped exactly when `n` is odd, and the next press asks the
/// player to play when paused and to pause otherwise. From a playing start
/// the requests are pause, play, pause, and so on.
pub proof fn lemma_space_presses_alternate(s: PlaybackState, total: u64, n: nat)
    ensures
        space_presses(s, total, n) == (PlaybackState {
            paused: s.paused != (n % 2 == 1),
            ..s
        }),
        control_step(space_presses(s, total, n), total, Control::TogglePause).1.action == Some(
            if space_presses(s, total, n).paused {
                SinkAction::Play
            } else {
                SinkAction::Pause
            },
        ),
        !s.paused ==> control_step(space_presses(s, total, n), total, Control::TogglePause).1.action
            == Some(
            if n % 2 == 0 {
                SinkAction::Pause
            } else {
                SinkAction::Play
            },
        ),
    decreases n,
{
    if n > 0 {
        lemma_space_presses_alternate(s, total, (n - 1) as nat);
    }
}

/// The loop state after a frame: once a header has been drawn on a compact
/// terminal its line stays reserved, and a header wider than the terminal
/// scrolls one character further; nothing changes otherwise.
pub open spec fn render_step(
    s: PlaybackState,
    header: Option<String>,
    rendered: bool,
    term_cols: Option<u16>,
) -> PlaybackState {
    match header {
        Some(h) => if rendered && layout_width(term_cols) >= WIDTH_COMPACT {
            PlaybackState {
                header_reserved: true,
                scroll_offset: if str_width_of(h@) > layout_width(term_cols) {
                    ((s.scroll_offset + 1) % (marquee_cycle(h@).len() as int)) as usize
                } else {
                    s.scroll_offset
                },
                ..s
            }
        } else {
            s
        },
        None => s,
    }
}

/// The loop state after a run of frames, each given by whether it was drawn
/// and the terminal columns then.
pub open spec fn render_steps(
    s: PlaybackState,
    header: Option<String>,
    frames: Seq<(bool, Option<u16>)>,
) -> PlaybackState
    decreases frames.len(),
{
    if frames.len() == 0 {
        s
    } else {
        render_step(
            render_steps(s, header, frames.drop_last()),
            header,
            frames.last().0,
            frames.last().1,
        )
    }
}

/// Whether a frame moves the marquee: drawn, on a compact terminal, with the
/// header wider than the terminal.
pub open spec fn scrolls(h: Seq<char>, frame: (bool, Option<u16>)) -> bool {
    frame.0 && layout_width(frame.1) >= WIDTH_COMPACT && str_width_of(h) > layout_width(frame.1)
}

/// How many frames of a run move the marquee.
pub open spec fn scrolling_frames(h: Seq<char>, frames: Seq<(bool, Option<u16>)>) -> nat
    decreases frames.len(),
{
    if frames.len() == 0 {
        0
    } else {
        scrolling_frames(h, frames.drop_last()) + if scrolls(h, frames.last()) {
            1nat
        } else {
            0nat
        }
    }
}

/// Over any run of frames, the marquee offset advances by one, modulo the
/// header's length plus the gap, for each frame drawn on a compact terminal
/// too narrow for the header, and stays put otherwise; without a header the
/// loop state never changes, so no header line is ever reserved. Nothing
/// but the header line and the offset changes.
pub proof fn lemma_marquee_over_frames(
    s: PlaybackState,
    header: Option<String>,
    frames: Seq<(bool, Option<u16>)>,
)
    requires
        header_fits(header),
    ensures
        header is None ==> render_steps(s, header, frames) == s,
        render_steps(s, header, frames).position == s.position,
        render_steps(s, header, frames).paused == s.paused,
        render_steps(s, header, frames).volume == s.volume,
        render_steps(s, header, frames).pre_mute_volume == s.pre_mute_volume,
        s.header_reserved ==> render_steps(s, header, frames).header_reserved,
        header matches Some(h) ==> (render_steps(s, header, frames).scroll_offset as int) % (marquee_cycle(
            h@,
        ).len() as int) == (s.scroll_offset + scrolling_frames(h@, frames)) % (marquee_cycle(
            h@,
        ).len() as int),
    decreases frames.len(),
{
    if frames.len() > 0 {
        lemma_marquee_over_frames(s, header, frames.drop_last());
        match header {
            Some(h) => {
                let n = marquee_cycle(h@).len() as int;
                let prev = render_steps(s, header, frames.drop_last());
                let c = scrolling_frames(h@, frames.drop_last());
                if scrolls(h@, frames.last()) {
                    lemma_add_mod_noop(prev.scroll_offset as int, 1, n);
                    lemma_add_mod_noop((s.scroll_offset + c) as int, 1, n);
                    lemma_mod_twice((prev.scroll_offset + 1) as int, n);
                } else {
                }
            },
            None => {},
        }
    }
}

/// Seeking moves exactly five seconds: backward from position `p` the
/// player is sent to `p - 5 s`, or to the start when less than five seconds
/// have played; forward it is sent to `p + 5 s`, or to the end when less than
/// five seconds are left. Nothing else about the state changes, and the
/// display is redrawn.
pub proof fn lemma_seek_moves_five_seconds(s: PlaybackState, total: u64)
    ensures
        ({
            let (next, out) = control_step(s, total, Control::SeekBackward);
            &&& next == s
            &&& out.render && !out.quit
            &&& out.action matches Some(SinkAction::Seek(t)) && (if s.position >= 5_000_000_000 {
                t + 5_000_000_000 == s.position
            } else {
                t == 0
            })
        }),
        ({
            let (next, out) = control_step(s, total, Control::SeekForward);
            &&& next == s
            &&& out.render && !out.quit
            &&& out.action matches Some(SinkAction::Seek(t)) && (if s.position + 5_000_000_000
                <= total {
                t == s.position + 5_000_000_000
            } else {
                t == total
            })
        }),
{
}

/// A volume key moves the volume by exactly 5 % (50 thousandths), up to
/// 200 % and down to 0, tells the player the new volume, and remembers any
/// audible volume for unmuting.
pub proof fn lemma_volume_keys_step_five_percent(s: PlaybackState, total: u64)
    ensures
        ({
            let (next, out) = control_step(s, total, Control::VolumeUp);
            &&& next.volume == (if s.volume + 50 <= 2000 {
                s.volume + 50
            } else {
                2000
            })
            &&& out.action == Some(SinkAction::SetVolume(next.volume))
            &&& next.pre_mute_volume == (if next.volume > 0 {
                next.volume
            } else {
                s.pre_mute_volume
            })
            &&& next.paused == s.paused && next.position == s.position
        }),
        ({
            let (next, out) = control_step(s, total, Control::VolumeDown);
            &&& next.volume == (if s.volume >= 50 {
                s.volume - 50
            } else {
                0
            })
            &&& out.action == Some(SinkAction::SetVolume(next.volume))
            &&& next.pre_mute_volume == (if next.volume > 0 {
                next.volume
            } else {
                s.pre_mute_volume
            })
            &&& next.paused == s.paused && next.position == s.position
        }),
{
}

/// Mute silences an audible player and remembers its volume; on a silent
/// player it brings back the remembered volume, at least 5 %.
pub proof fn lemma_mute_silences_and_restores(s: PlaybackState, total: u64)
    ensures
        ({
            let (next, out) = control_step(s, total, Control::ToggleMute);
            &&& s.volume > 0 ==> next.volume == 0 && next.pre_mute_volume == s.volume
            &&& s.volume == 0 ==> next.volume == (if s.pre_mute_volume >= 50 {
                s.pre_mute_volume
            } else {
                50
            })
            &&& out.action == Some(SinkAction::SetVolume(next.volume))
            &&& next.paused == s.paused && next.position == s.position
        }),
{
}

} // verus!

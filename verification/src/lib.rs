//! Playback display and control logic for the `sound play` command: glyph
//! sets, progress and volume bars, the header marquee, the progress frame and
//! the keyboard-driven playback state machine.
pub mod icons;
pub mod command;
pub mod text;
pub mod width;
pub mod ansi;
pub mod bar;
pub mod marquee;
pub mod progress;
pub mod playback;
pub mod setup;

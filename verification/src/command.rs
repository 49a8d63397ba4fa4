//! The `sound play` command's own description: its name, help text and
//! usage examples.
use vstd::prelude::*;

verus! {

/// Nushell command `sound play`: decodes and plays an audio file with a live
/// progress bar on stderr and optional interactive keyboard controls.
pub struct SoundPlayCmd;

/// A usage example: what it does, and the command line.
#[derive(Clone, Copy, Debug, PartialEq, Eq)]
pub struct PlayExample {
    pub description: &'static str,
    pub example: &'static str,
}

/// What an argument takes: a file path, a duration or a number; a flag
/// without a shape is a switch.
#[derive(Clone, Copy, Debug, PartialEq, Eq, Structural)]
pub enum ArgShape {
    Filepath,
    Duration,
    Float,
}

/// One argument of the command: its name, what it takes, its help text and
/// its one-letter form.
#[derive(Clone, Copy, Debug, PartialEq, Eq)]
pub struct ArgSpec {
    pub name: &'static str,
    pub shape: Option<ArgShape>,
    pub description: &'static str,
    pub short: Option<char>,
}

impl SoundPlayCmd {
    /// The required positional argument: the file to play.
    pub fn file_argument(&self) -> (a: ArgSpec)
        ensures
            a.name@ == "File Path"@,
            a.shape == Some(ArgShape::Filepath),
            a.description@ == "file to play"@,
            a.short is None,
    {
        ArgSpec {
            name: "File Path",
            shape: Some(ArgShape::Filepath),
            description: "file to play",
            short: None,
        }
    }

    /// The named flags, in order: `--duration`, `--amplify`, and the
    /// switches `--no-progress` and `--nerd-fonts`.
    pub fn flags(&self) -> (v: Vec<ArgSpec>)
        ensures
            v@.len() == 4,
            v@[0].name@ == "duration"@,
            v@[0].shape == Some(ArgShape::Duration),
            v@[0].description@
                == "truncate playback to this duration (default: auto-detected from file headers)"@,
            v@[0].short == Some('d'),
            v@[1].name@ == "amplify"@,
            v@[1].shape == Some(ArgShape::Float),
            v@[1].description@
                == "initial volume: 1.0 = normal, 0.5 = half, 2.0 = double (default 1.0)"@,
            v@[1].short == Some('a'),
            v@[2].name@ == "no-progress"@,
            v@[2].shape is None,
            v@[2].description@
                == "disable live playback stats (use when piping or running in background)"@,
            v@[2].short == Some('q'),
            v@[3].name@ == "nerd-fonts"@,
            v@[3].shape is None,
            v@[3].description@
                == "use Nerd Font icons in the progress display (or set NERD_FONTS=1)"@,
            v@[3].short == Some('n'),
    {
        let mut v: Vec<ArgSpec> = Vec::new();
        v.push(
            ArgSpec {
                name: "duration",
                shape: Some(ArgShape::Duration),
                description: "truncate playback to this duration (default: auto-detected from file headers)",
                short: Some('d'),
            },
        );
        v.push(
            ArgSpec {
                name: "amplify",
                shape: Some(ArgShape::Float),
                description: "initial volume: 1.0 = normal, 0.5 = half, 2.0 = double (default 1.0)",
                short: Some('a'),
            },
        );
        v.push(
            ArgSpec {
                name: "no-progress",
                shape: None,
                description: "disable live playback stats (use when piping or running in background)",
                short: Some('q'),
            },
        );
        v.push(
            ArgSpec {
                name: "nerd-fonts",
                shape: None,
                description: "use Nerd Font icons in the progress display (or set NERD_FONTS=1)",
                short: Some('n'),
            },
        );
        v
    }

    /// The command's name.
    pub fn name(&self) -> (s: &'static str)
        ensures
            s@ == "sound play"@,
    {
        "sound play"
    }

    /// The command's help text.
    pub fn description(&self) -> (s: &'static str)
        ensures
            s@ == "play an audio file; by default supports FLAC, WAV, MP3, OGG, AAC, and MP4 files \
        (install with `all-decoders` feature to include minimp3, 64-bit precision, and more). \
        Displays live playback stats by default; use --no-progress (-q) to suppress \
        output for scripting or background use. Interactive controls (space, arrows) \
        are available for files longer than 1 minute, including volume up/down and 5s seeking. \
        Use --nerd-fonts (-n) or set NERD_FONTS=1 for richer icons."@,
    {
        "play an audio file; by default supports FLAC, WAV, MP3, OGG, AAC, and MP4 files \
        (install with `all-decoders` feature to include minimp3, 64-bit precision, and more). \
        Displays live playback stats by default; use --no-progress (-q) to suppress \
        output for scripting or background use. Interactive controls (space, arrows) \
        are available for files longer than 1 minute, including volume up/down and 5s seeking. \
        Use --nerd-fonts (-n) or set NERD_FONTS=1 for richer icons."
    }

    /// The command's usage examples, in order.
    pub fn examples(&self) -> (v: Vec<PlayExample>)
        ensures
            v@.len() == 6,
            v@[0].description@ == "play a sound and exit after 5min"@,
            v@[0].example@ == "sound play audio.mp4 -d 5min"@,
            v@[1].description@ == "play a sound starting at 2x volume"@,
            v@[1].example@ == "sound play audio.mp3 -a 2.0"@,
            v@[2].description@ == "play a sound starting at 50% volume"@,
            v@[2].example@ == "sound play audio.mp3 -a 0.5"@,
            v@[3].description@ == "play a sound for its detected metadata duration"@,
            v@[3].example@ == "sound play audio.mp3"@,
            v@[4].description@ == "play silently \u{2014} no terminal output (background or pipe use)"@,
            v@[4].example@ == "sound play audio.mp3 --no-progress"@,
            v@[5].description@ == "play with Nerd Font icons"@,
            v@[5].example@ == "sound play audio.mp3 --nerd-fonts"@,
    {
        let mut v: Vec<PlayExample> = Vec::new();
        v.push(
            PlayExample {
                description: "play a sound and exit after 5min",
                example: "sound play audio.mp4 -d 5min",
            },
        );
        v.push(
            PlayExample {
                description: "play a sound starting at 2x volume",
                example: "sound play audio.mp3 -a 2.0",
            },
        );
        v.push(
            PlayExample {
                description: "play a sound starting at 50% volume",
                example: "sound play audio.mp3 -a 0.5",
            },
        );
        v.push(
            PlayExample {
                description: "play a sound for its detected metadata duration",
                example: "sound play audio.mp3",
            },
        );
        v.push(
            PlayExample {
                description: "play silently \u{2014} no terminal output (background or pipe use)",
                example: "sound play audio.mp3 --no-progress",
            },
        );
        v.push(
            PlayExample {
                description: "play with Nerd Font icons",
                example: "sound play audio.mp3 --nerd-fonts",
            },
        );
        v
    }
}

} // verus!

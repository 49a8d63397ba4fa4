//! Decisions taken before playback starts: the glyph set, the track length
//! to wait for, and the initial volume.
use crate::icons::IconSet;
use crate::progress::VOLUME_MAX;
use crate::text::contains_seq;
use crate::text::contains_str;
use crate::text::lowercase;
use crate::text::str_equals;
use crate::text::to_lowercase;
use crate::text::to_uppercase;
use crate::text::uppercase;
use vstd::prelude::*;

verus! {

/// Length assumed for a track whose length is unknown: one hour, in nanoseconds.
pub const FALLBACK_DURATION: u64 = 3_600_000_000_000;

/// Normal volume, in thousandths.
pub const DEFAULT_VOLUME: u32 = 1000;

/// A `NERD_FONTS` value turns Nerd Fonts on when it is `1`, or `true` in any
/// case (`lowered` is its lowercase form).
pub open spec fn env_value_enables(raw: Seq<char>, lowered: Seq<char>) -> bool {
    raw == seq!['1'] || lowered == seq!['t', 'r', 'u', 'e']
}

/// Whether a `NERD_FONTS` value, if set, turns Nerd Fonts on.
pub open spec fn nerd_env_enabled(value: Option<&str>) -> bool {
    match value {
        Some(v) => env_value_enables(v@, lowercase(v@)),
        None => false,
    }
}

/// The glyph set, in priority order: the flag or the environment asks for
/// Nerd Fonts, else Unicode when the terminal supports it, else ASCII.
pub open spec fn icon_set_for(flag: bool, env: bool, unicode: bool) -> IconSet {
    if flag || env {
        IconSet::NerdFont
    } else if unicode {
        IconSet::Unicode
    } else {
        IconSet::Ascii
    }
}

/// The locale `LANG` names, else the one `LC_ALL` names, else none.
pub open spec fn chosen_locale(lang: Option<&str>, lc_all: Option<&str>) -> Seq<char> {
    match lang {
        Some(l) => l@,
        None => match lc_all {
            Some(l) => l@,
            None => Seq::empty(),
        },
    }
}

/// An uppercased locale name advertises UTF-8 when it holds `UTF-8` or `UTF8`.
pub open spec fn advertises_utf8(upper: Seq<char>) -> bool {
    contains_seq(upper, seq!['U', 'T', 'F', '-', '8']) || contains_seq(upper, seq!['U', 'T', 'F', '8'])
}

/// Whether a value and its lowercase form turn Nerd Fonts on.
pub fn env_value_enables_exec(raw: &str, lowered: &str) -> (r: bool)
    ensures
        r == env_value_enables(raw@, lowered@),
{
    proof {
        reveal_strlit("1");
        reveal_strlit("true");
        assert("1"@ =~= seq!['1']);
        assert("true"@ =~= seq!['t', 'r', 'u', 'e']);
    }
    str_equals(raw, "1") || str_equals(lowered, "true")
}

/// Whether the `NERD_FONTS` environment value turns Nerd Fonts on.
pub fn nerd_env_value_enables(value: Option<&str>) -> (r: bool)
    ensures
        r == nerd_env_enabled(value),
{
    match value {
        Some(v) => {
            let lowered = to_lowercase(v);
            env_value_enables_exec(v, lowered.as_str())
        },
        None => false,
    }
}

/// Picks the glyph set from the `--nerd-fonts` flag, the `NERD_FONTS`
/// environment value and whether the terminal supports Unicode.
pub fn resolve_icon_set(flag: bool, nerd_env: Option<&str>, unicode: bool) -> (icons: IconSet)
    ensures
        icons == icon_set_for(flag, nerd_env_enabled(nerd_env), unicode),
{
    let env = nerd_env_value_enables(nerd_env);
    if flag || env {
        return IconSet::NerdFont;
    }
    if unicode {
        IconSet::Unicode
    } else {
        IconSet::Ascii
    }
}

/// Whether an uppercased locale name advertises UTF-8.
pub fn advertises_utf8_exec(upper: &str) -> (r: bool)
    ensures
        r == advertises_utf8(upper@),
{
    proof {
        reveal_strlit("UTF-8");
        reveal_strlit("UTF8");
        assert("UTF-8"@ =~= seq!['U', 'T', 'F', '-', '8']);
        assert("UTF8"@ =~= seq!['U', 'T', 'F', '8']);
    }
    contains_str(upper, "UTF-8") || contains_str(upper, "UTF8")
}

/// Whether the terminal locale (`LANG`, else `LC_ALL`) advertises UTF-8,
/// in any case.
pub fn locale_supports_unicode(lang: Option<&str>, lc_all: Option<&str>) -> (r: bool)
    ensures
        r == advertises_utf8(uppercase(chosen_locale(lang, lc_all))),
{
    let chosen: &str = match lang {
        Some(l) => l,
        None => match lc_all {
            Some(l) => l,
            None => {
                proof {
                    reveal_strlit("");
                    assert(""@ =~= Seq::<char>::empty());
                }
                ""
            },
        },
    };
    let upper = to_uppercase(chosen);
    advertises_utf8_exec(upper.as_str())
}

/// Whether a Windows console supports Unicode: Windows Terminal, ConEmu,
/// the VS Code terminal, or ANSICON.
pub fn windows_console_supports_unicode(
    wt_session: bool,
    conemu_pid: bool,
    term_program: Option<&str>,
    ansicon: bool,
) -> (r: bool)
    ensures
        r == (wt_session || conemu_pid || (match term_program {
            Some(p) => p@ == seq!['v', 's', 'c', 'o', 'd', 'e'],
            None => false,
        }) || ansicon),
{
    proof {
        reveal_strlit("vscode");
        assert("vscode"@ =~= seq!['v', 's', 'c', 'o', 'd', 'e']);
    }
    let vscode = match term_program {
        Some(p) => str_equals(p, "vscode"),
        None => false,
    };
    wt_session || conemu_pid || vscode || ansicon
}

/// A duration flag given in nanoseconds: negative values are ignored.
pub fn duration_flag(nanos: Option<i64>) -> (d: Option<u64>)
    ensures
        d == (match nanos {
            Some(v) => if v >= 0 {
                Some(v as u64)
            } else {
                None
            },
            None => None,
        }),
{
    match nanos {
        Some(v) => if v >= 0 {
            Some(v as u64)
        } else {
            None
        },
        None => None,
    }
}

/// The length of the track in nanoseconds, in priority order: the
/// `--duration` flag, the decoder's length, the length in the file's tags
/// when it is not zero, and one hour.
pub open spec fn total_for(flag: Option<u64>, decoder: Option<u64>, tags: Option<u64>) -> u64 {
    match flag {
        Some(d) => d,
        None => match decoder {
            Some(d) => d,
            None => match tags {
                Some(d) => if d != 0 {
                    d
                } else {
                    FALLBACK_DURATION
                },
                None => FALLBACK_DURATION,
            },
        },
    }
}

/// Chooses how long to play, in nanoseconds.
pub fn resolve_total(flag: Option<u64>, decoder: Option<u64>, tags: Option<u64>) -> (t: u64)
    ensures
        t == total_for(flag, decoder, tags),
{
    match flag {
        Some(d) => d,
        None => match decoder {
            Some(d) => d,
            None => match tags {
                Some(d) => if d != 0 {
                    d
                } else {
                    FALLBACK_DURATION
                },
                None => FALLBACK_DURATION,
            },
        },
    }
}

/// The initial volume in thousandths: the `--amplify` value clamped to
/// `[0, 200%]`, or normal volume when it is not given.
pub fn initial_volume(amplify: Option<i64>) -> (v: u32)
    ensures
        v == (match amplify {
            Some(a) => if a < 0 {
                0
            } else if a > VOLUME_MAX {
                VOLUME_MAX
            } else {
                a as u32
            },
            None => DEFAULT_VOLUME,
        }),
        v <= VOLUME_MAX,
{
    match amplify {
        Some(a) => if a < 0 {
            0
        } else if a > VOLUME_MAX as i64 {
            VOLUME_MAX
        } else {
            a as u32
        },
        None => DEFAULT_VOLUME,
    }
}

/// The `--nerd-fonts` flag always selects Nerd Fonts, whatever `NERD_FONTS`
/// holds and whatever the locale; so does an enabling `NERD_FONTS`. Without
/// either, a UTF-8 terminal gets Unicode glyphs and any other terminal ASCII.
pub proof fn lemma_icon_set_priority(flag: bool, env: bool, unicode: bool)
    ensures
        flag ==> icon_set_for(flag, env, unicode) == IconSet::NerdFont,
        env ==> icon_set_for(flag, env, unicode) == IconSet::NerdFont,
        !flag && !env && unicode ==> icon_set_for(flag, env, unicode) == IconSet::Unicode,
        !flag && !env && !unicode ==> icon_set_for(flag, env, unicode) == IconSet::Ascii,
{
}

/// A `--duration` value is always the length played, whatever the decoder
/// and the tags report; without it the decoder's length is used, then a
/// nonzero length from the tags, then one hour.
pub proof fn lemma_track_length_priority(flag: Option<u64>, decoder: Option<u64>, tags: Option<u64>)
    ensures
        flag matches Some(d) ==> total_for(flag, decoder, tags) == d,
        forall|d: u64| flag is None && decoder == Some(d) ==> total_for(flag, decoder, tags) == d,
        forall|d: u64|
            flag is None && decoder is None && tags == Some(d) && d > 0 ==> total_for(
                flag,
                decoder,
                tags,
            ) == d,
        flag is None && decoder is None && (tags is None || tags == Some(0u64)) ==> total_for(
            flag,
            decoder,
            tags,
        ) == 3_600_000_000_000,
{
}

} // verus!

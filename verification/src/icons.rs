//! Glyph sets used by the live progress display.
use vstd::prelude::*;

verus! {

/// Volume levels are kept in thousandths: `1000` is normal volume.
pub const VOLUME_UNIT: u32 = 1000;

/// Selects the glyph set used for the live progress display.
///
/// Priority order for resolution: `--nerd-fonts` flag, then `NERD_FONTS`
/// environment variable, then Unicode when the terminal locale advertises
/// UTF-8, then the ASCII fallback.
#[derive(Clone, Copy, Debug, PartialEq, Eq, Structural)]
pub enum IconSet {
    /// Nerd Font glyphs: richest, requires a patched font.
    NerdFont,
    /// Standard Unicode block/arrow characters.
    Unicode,
    /// Pure ASCII: works everywhere.
    Ascii,
}

pub open spec fn play_glyph(icons: IconSet) -> Seq<char> {
    match icons {
        IconSet::NerdFont => seq!['\u{f04b}'],
        IconSet::Unicode => seq!['\u{25b6}'],
        IconSet::Ascii => seq!['>'],
    }
}

pub open spec fn pause_glyph(icons: IconSet) -> Seq<char> {
    match icons {
        IconSet::NerdFont => seq!['\u{f04c}'],
        IconSet::Unicode => seq!['\u{23f8}'],
        IconSet::Ascii => seq!['|', '|'],
    }
}

pub open spec fn rewind_glyph(icons: IconSet) -> Seq<char> {
    match icons {
        IconSet::NerdFont => seq!['\u{f04a}'],
        IconSet::Unicode => seq!['\u{ab}'],
        IconSet::Ascii => seq!['<', '<'],
    }
}

pub open spec fn fast_forward_glyph(icons: IconSet) -> Seq<char> {
    match icons {
        IconSet::NerdFont => seq!['\u{f04e}'],
        IconSet::Unicode => seq!['\u{bb}'],
        IconSet::Ascii => seq!['>', '>'],
    }
}

pub open spec fn music_glyph(icons: IconSet) -> Seq<char> {
    match icons {
        IconSet::NerdFont => seq!['\u{f001}'],
        IconSet::Unicode => seq!['\u{266a}'],
        IconSet::Ascii => seq!['#'],
    }
}

pub open spec fn fill_glyph(icons: IconSet) -> Seq<char> {
    match icons {
        IconSet::NerdFont => seq!['\u{2588}'],
        IconSet::Unicode => seq!['\u{2588}'],
        IconSet::Ascii => seq!['#'],
    }
}

pub open spec fn empty_glyph(icons: IconSet) -> Seq<char> {
    match icons {
        IconSet::NerdFont => seq!['\u{2591}'],
        IconSet::Unicode => seq!['\u{2591}'],
        IconSet::Ascii => seq!['.'],
    }
}

/// The volume tier of a level in thousandths: 0 muted, 1 below half, 2 otherwise.
pub open spec fn volume_tier(level: u32) -> int {
    if level == 0 {
        0
    } else if level < VOLUME_UNIT / 2 {
        1
    } else {
        2
    }
}

pub open spec fn volume_glyph(icons: IconSet, level: u32) -> Seq<char> {
    let tier = volume_tier(level);
    match icons {
        IconSet::NerdFont => if tier == 0 {
            seq!['\u{f026}']
        } else if tier == 1 {
            seq!['\u{f027}']
        } else {
            seq!['\u{f028}']
        },
        IconSet::Unicode => if tier == 0 {
            seq!['\u{1f507}']
        } else if tier == 1 {
            seq!['\u{1f509}']
        } else {
            seq!['\u{1f50a}']
        },
        IconSet::Ascii => if tier == 0 {
            seq!['[', 'M', ']']
        } else if tier == 1 {
            seq!['[', 'v', ']']
        } else {
            seq!['[', 'V', ']']
        },
    }
}

impl IconSet {
    /// True for the Nerd Font set.
    pub fn is_nerd_font(&self) -> (b: bool)
        ensures
            b == (*self == IconSet::NerdFont),
    {
        match self {
            IconSet::NerdFont => true,
            _ => false,
        }
    }

    /// Play icon.
    pub fn play(&self) -> (s: &'static str)
        ensures
            s@ == play_glyph(*self),
    {
        match self {
            IconSet::NerdFont => {
                proof {
                    reveal_strlit("\u{f04b}");
                }
                "\u{f04b}"
            },
            IconSet::Unicode => {
                proof {
                    reveal_strlit("\u{25b6}");
                }
                "\u{25b6}"
            },
            IconSet::Ascii => {
                proof {
                    reveal_strlit(">");
                }
                ">"
            },
        }
    }

    /// Pause icon.
    pub fn pause(&self) -> (s: &'static str)
        ensures
            s@ == pause_glyph(*self),
    {
        match self {
            IconSet::NerdFont => {
                proof {
                    reveal_strlit("\u{f04c}");
                }
                "\u{f04c}"
            },
            IconSet::Unicode => {
                proof {
                    reveal_strlit("\u{23f8}");
                }
                "\u{23f8}"
            },
            IconSet::Ascii => {
                proof {
                    reveal_strlit("||");
                }
                "||"
            },
        }
    }

    /// Rewind / seek-back icon.
    pub fn rewind(&self) -> (s: &'static str)
        ensures
            s@ == rewind_glyph(*self),
    {
        match self {
            IconSet::NerdFont => {
                proof {
                    reveal_strlit("\u{f04a}");
                }
                "\u{f04a}"
            },
            IconSet::Unicode => {
                proof {
                    reveal_strlit("\u{ab}");
                }
                "\u{ab}"
            },
            IconSet::Ascii => {
                proof {
                    reveal_strlit("<<");
                }
                "<<"
            },
        }
    }

    /// Fast-forward / seek-forward icon.
    pub fn fast_forward(&self) -> (s: &'static str)
        ensures
            s@ == fast_forward_glyph(*self),
    {
        match self {
            IconSet::NerdFont => {
                proof {
                    reveal_strlit("\u{f04e}");
                }
                "\u{f04e}"
            },
            IconSet::Unicode => {
                proof {
                    reveal_strlit("\u{bb}");
                }
                "\u{bb}"
            },
            IconSet::Ascii => {
                proof {
                    reveal_strlit(">>");
                }
                ">>"
            },
        }
    }

    /// Music note / track decoration icon.
    pub fn music(&self) -> (s: &'static str)
        ensures
            s@ == music_glyph(*self),
    {
        match self {
            IconSet::NerdFont => {
                proof {
                    reveal_strlit("\u{f001}");
                }
                "\u{f001}"
            },
            IconSet::Unicode => {
                proof {
                    reveal_strlit("\u{266a}");
                }
                "\u{266a}"
            },
            IconSet::Ascii => {
                proof {
                    reveal_strlit("#");
                }
                "#"
            },
        }
    }

    /// Filled bar segment.
    pub fn fill(&self) -> (s: &'static str)
        ensures
            s@ == fill_glyph(*self),
    {
        match self {
            IconSet::Ascii => {
                proof {
                    reveal_strlit("#");
                }
                "#"
            },
            _ => {
                proof {
                    reveal_strlit("\u{2588}");
                }
                "\u{2588}"
            },
        }
    }

    /// Empty bar segment.
    pub fn empty(&self) -> (s: &'static str)
        ensures
            s@ == empty_glyph(*self),
    {
        match self {
            IconSet::Ascii => {
                proof {
                    reveal_strlit(".");
                }
                "."
            },
            _ => {
                proof {
                    reveal_strlit("\u{2591}");
                }
                "\u{2591}"
            },
        }
    }

    /// Volume icon: three tiers (muted, below half, half or more), for a
    /// level in thousandths.
    pub fn volume(&self, level: u32) -> (s: &'static str)
        ensures
            s@ == volume_glyph(*self, level),
    {
        match self {
            IconSet::NerdFont => {
                if level == 0 {
                    proof {
                        reveal_strlit("\u{f026}");
                    }
                    "\u{f026}"
                } else if level < VOLUME_UNIT / 2 {
                    proof {
                        reveal_strlit("\u{f027}");
                    }
                    "\u{f027}"
                } else {
                    proof {
                        reveal_strlit("\u{f028}");
                    }
                    "\u{f028}"
                }
            },
            IconSet::Unicode => {
                if level == 0 {
                    proof {
                        reveal_strlit("\u{1f507}");
                    }
                    "\u{1f507}"
                } else if level < VOLUME_UNIT / 2 {
                    proof {
                        reveal_strlit("\u{1f509}");
                    }
                    "\u{1f509}"
                } else {
                    proof {
                        reveal_strlit("\u{1f50a}");
                    }
                    "\u{1f50a}"
                }
            },
            IconSet::Ascii => {
                if level == 0 {
                    proof {
                        reveal_strlit("[M]");
                    }
                    "[M]"
                } else if level < VOLUME_UNIT / 2 {
                    proof {
                        reveal_strlit("[v]");
                    }
                    "[v]"
                } else {
                    proof {
                        reveal_strlit("[V]");
                    }
                    "[V]"
                }
            },
        }
    }
}

} // verus!

use nu_plugin_audio::icons::IconSet;

#[test]
fn glyphs_per_icon_set() {
    assert_eq!(IconSet::NerdFont.play(), "\u{f04b}");
    assert_eq!(IconSet::Unicode.play(), "▶");
    assert_eq!(IconSet::Ascii.play(), ">");
    assert_eq!(IconSet::NerdFont.pause(), "\u{f04c}");
    assert_eq!(IconSet::Unicode.pause(), "⏸");
    assert_eq!(IconSet::Ascii.pause(), "||");
    assert_eq!(IconSet::Unicode.rewind(), "«");
    assert_eq!(IconSet::Ascii.rewind(), "<<");
    assert_eq!(IconSet::NerdFont.rewind(), "\u{f04a}");
    assert_eq!(IconSet::Unicode.fast_forward(), "»");
    assert_eq!(IconSet::Ascii.fast_forward(), ">>");
    assert_eq!(IconSet::NerdFont.fast_forward(), "\u{f04e}");
    assert_eq!(IconSet::NerdFont.music(), "\u{f001}");
    assert_eq!(IconSet::Unicode.music(), "♪");
    assert_eq!(IconSet::Ascii.music(), "#");
    assert_eq!(IconSet::NerdFont.fill(), "█");
    assert_eq!(IconSet::Unicode.fill(), "█");
    assert_eq!(IconSet::Ascii.fill(), "#");
    assert_eq!(IconSet::NerdFont.empty(), "░");
    assert_eq!(IconSet::Unicode.empty(), "░");
    assert_eq!(IconSet::Ascii.empty(), ".");
}

#[test]
fn volume_icon_tiers() {
    // levels are in thousandths: 0 is muted, below 500 is "low"
    assert_eq!(IconSet::Ascii.volume(0), "[M]");
    assert_eq!(IconSet::Ascii.volume(1), "[v]");
    assert_eq!(IconSet::Ascii.volume(499), "[v]");
    assert_eq!(IconSet::Ascii.volume(500), "[V]");
    assert_eq!(IconSet::Ascii.volume(2000), "[V]");
    assert_eq!(IconSet::Unicode.volume(0), "🔇");
    assert_eq!(IconSet::Unicode.volume(250), "🔉");
    assert_eq!(IconSet::Unicode.volume(1000), "🔊");
    assert_eq!(IconSet::NerdFont.volume(0), "\u{f026}");
    assert_eq!(IconSet::NerdFont.volume(450), "\u{f027}");
    assert_eq!(IconSet::NerdFont.volume(1500), "\u{f028}");
}

#[test]
fn nerd_font_check() {
    assert!(IconSet::NerdFont.is_nerd_font());
    assert!(!IconSet::Unicode.is_nerd_font());
    assert!(!IconSet::Ascii.is_nerd_font());
}

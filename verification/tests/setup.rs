use nu_plugin_audio::command::{ArgShape, SoundPlayCmd};
use nu_plugin_audio::icons::IconSet;
use nu_plugin_audio::setup::{
    duration_flag, initial_volume, locale_supports_unicode, nerd_env_value_enables,
    resolve_icon_set, resolve_total, windows_console_supports_unicode,
};

const SEC: u64 = 1_000_000_000;

#[test]
fn icon_set_priority() {
    assert_eq!(resolve_icon_set(true, None, false), IconSet::NerdFont);
    assert_eq!(resolve_icon_set(false, Some("1"), false), IconSet::NerdFont);
    assert_eq!(resolve_icon_set(false, Some("TRUE"), true), IconSet::NerdFont);
    assert_eq!(resolve_icon_set(false, Some("yes"), true), IconSet::Unicode);
    assert_eq!(resolve_icon_set(false, None, true), IconSet::Unicode);
    assert_eq!(resolve_icon_set(false, Some("0"), false), IconSet::Ascii);
}

#[test]
fn nerd_fonts_environment_values() {
    assert!(nerd_env_value_enables(Some("1")));
    assert!(nerd_env_value_enables(Some("true")));
    assert!(nerd_env_value_enables(Some("True")));
    assert!(!nerd_env_value_enables(Some("11")));
    assert!(!nerd_env_value_enables(Some("")));
    assert!(!nerd_env_value_enables(None));
}

#[test]
fn locale_detection() {
    assert!(locale_supports_unicode(Some("en_US.UTF-8"), None));
    assert!(locale_supports_unicode(Some("en_US.utf8"), None));
    assert!(!locale_supports_unicode(Some("C"), Some("en_US.UTF-8")));
    assert!(locale_supports_unicode(None, Some("de_DE.UTF-8")));
    assert!(!locale_supports_unicode(None, None));
    assert!(!locale_supports_unicode(Some("POSIX"), None));
}

#[test]
fn windows_console_detection() {
    assert!(windows_console_supports_unicode(true, false, None, false));
    assert!(windows_console_supports_unicode(false, false, Some("vscode"), false));
    assert!(!windows_console_supports_unicode(false, false, Some("xterm"), false));
    assert!(windows_console_supports_unicode(false, false, None, true));
    assert!(!windows_console_supports_unicode(false, false, None, false));
}

#[test]
fn duration_flag_rejects_negative() {
    assert_eq!(duration_flag(Some(-1)), None);
    assert_eq!(duration_flag(Some(0)), Some(0));
    assert_eq!(duration_flag(Some(5 * 60 * 1_000_000_000)), Some(300 * SEC));
    assert_eq!(duration_flag(None), None);
}

#[test]
fn track_length_priority() {
    assert_eq!(resolve_total(Some(3 * SEC), Some(4 * SEC), Some(5 * SEC)), 3 * SEC);
    assert_eq!(resolve_total(None, Some(4 * SEC), Some(5 * SEC)), 4 * SEC);
    assert_eq!(resolve_total(None, None, Some(5 * SEC)), 5 * SEC);
    assert_eq!(resolve_total(None, None, Some(0)), 3600 * SEC);
    assert_eq!(resolve_total(None, None, None), 3600 * SEC);
}

#[test]
fn amplify_is_clamped() {
    assert_eq!(initial_volume(None), 1000);
    assert_eq!(initial_volume(Some(500)), 500);
    assert_eq!(initial_volume(Some(2000)), 2000);
    assert_eq!(initial_volume(Some(3000)), 2000);
    assert_eq!(initial_volume(Some(-100)), 0);
}

#[test]
fn command_description() {
    let cmd = SoundPlayCmd;
    assert_eq!(cmd.name(), "sound play");
    assert!(cmd.description().starts_with("play an audio file;"));
    let examples = cmd.examples();
    assert_eq!(examples.len(), 6);
    assert_eq!(examples[0].example, "sound play audio.mp4 -d 5min");
    assert_eq!(examples[5].description, "play with Nerd Font icons");
}

#[test]
fn command_arguments() {
    let cmd = SoundPlayCmd;
    let file = cmd.file_argument();
    assert_eq!(file.name, "File Path");
    assert_eq!(file.shape, Some(ArgShape::Filepath));
    let flags = cmd.flags();
    let names: Vec<&str> = flags.iter().map(|f| f.name).collect();
    assert_eq!(names, vec!["duration", "amplify", "no-progress", "nerd-fonts"]);
    assert_eq!(flags[1].shape, Some(ArgShape::Float));
    assert_eq!(flags[2].shape, None);
    assert_eq!(flags[3].short, Some('n'));
}

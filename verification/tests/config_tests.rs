use sagascript::config::apply_reset;
use sagascript::config::apply_set;
use sagascript::config::get_setting_value;
use sagascript::config::parse_bool;
use sagascript::config::validate_key;
use sagascript::formats::check_extension;
use sagascript::formats::supported_extensions;
use sagascript::settings::HotkeyMode;
use sagascript::settings::Language;
use sagascript::settings::Settings;
use sagascript::settings::WhisperModel;

// -- validate_key --

#[test]
fn validate_key_accepts_known_keys() {
    for key in [
        "language",
        "whisper_model",
        "hotkey_mode",
        "show_overlay",
        "auto_paste",
        "auto_select_model",
        "hotkey",
    ] {
        assert!(validate_key(key).is_ok(), "{key}");
    }
}

#[test]
fn validate_key_rejects_unknown() {
    let err = validate_key("volume").unwrap_err();
    assert!(err.message().contains("Unknown setting 'volume'"));
    assert!(err.message().contains("Valid keys"));
}

// -- get_setting_value --

#[test]
fn get_setting_value_formats_each_key() {
    let s = Settings::default();
    assert_eq!(get_setting_value(&s, "language"), "en");
    assert_eq!(get_setting_value(&s, "whisper_model"), "base");
    assert_eq!(get_setting_value(&s, "hotkey_mode"), "push");
    assert_eq!(get_setting_value(&s, "show_overlay"), "true");
    assert_eq!(get_setting_value(&s, "auto_paste"), "true");
    assert_eq!(get_setting_value(&s, "auto_select_model"), "true");
    assert_eq!(get_setting_value(&s, "hotkey"), "Control+Shift+Space");
    assert_eq!(get_setting_value(&s, "nope"), "unknown");
}

// -- parse_bool --

#[test]
fn parse_bool_accepts_exactly_true_false() {
    assert_eq!(parse_bool("true", "auto_paste").unwrap(), true);
    assert_eq!(parse_bool("false", "auto_paste").unwrap(), false);
    let err = parse_bool("yes", "auto_paste").unwrap_err();
    assert!(err.message().contains("Invalid value 'yes' for auto_paste"));
}

// -- apply_set --

#[test]
fn apply_set_updates_each_field() {
    let s = Settings::default();
    let s = apply_set(&s, "language", "no").unwrap();
    assert_eq!(s.language, Language::Norwegian);
    let s = apply_set(&s, "whisper_model", "kb-whisper-base").unwrap();
    assert_eq!(s.whisper_model, WhisperModel::KbWhisperBase);
    let s = apply_set(&s, "hotkey_mode", "toggle").unwrap();
    assert_eq!(s.hotkey_mode, HotkeyMode::Toggle);
    let s = apply_set(&s, "show_overlay", "false").unwrap();
    assert!(!s.show_overlay);
    let s = apply_set(&s, "auto_paste", "false").unwrap();
    assert!(!s.auto_paste);
    let s = apply_set(&s, "auto_select_model", "false").unwrap();
    assert!(!s.auto_select_model);
    let s = apply_set(&s, "hotkey", "Option+Space").unwrap();
    assert_eq!(s.hotkey, "Option+Space");
}

#[test]
fn apply_set_rejects_bad_values() {
    let s = Settings::default();
    assert!(apply_set(&s, "language", "english").is_err()); // strict codes only
    assert!(apply_set(&s, "whisper_model", "huge").is_err());
    assert!(apply_set(&s, "hotkey_mode", "hold").is_err());
    assert!(apply_set(&s, "show_overlay", "on").is_err());
    assert!(apply_set(&s, "hotkey", "Space").is_err()); // needs a modifier
    assert!(apply_set(&s, "brightness", "1").is_err()); // unknown key
}

// -- apply_reset --

#[test]
fn apply_reset_restores_single_field() {
    let mut s = Settings::default();
    s.language = Language::Swedish;
    s.hotkey = "Alt+X".to_string();
    let r = apply_reset(&s, "language").unwrap();
    assert_eq!(r.language, Language::English);
    assert_eq!(r.hotkey, "Alt+X"); // untouched
    let r = apply_reset(&s, "hotkey").unwrap();
    assert_eq!(r.hotkey, "Control+Shift+Space");
    assert_eq!(r.language, Language::Swedish); // untouched
    assert!(apply_reset(&s, "nope").is_err());
}

// -- formats --

#[test]
fn supported_extensions_list() {
    let exts = supported_extensions();
    assert!(exts.contains(&"wav"));
    assert!(exts.contains(&"mp3"));
    assert!(exts.contains(&"m4a"));
    assert!(exts.contains(&"flac"));
    assert!(exts.contains(&"ogg"));
    assert!(exts.contains(&"mp4"));
    assert!(exts.contains(&"mov"));
    assert!(exts.contains(&"webm"));
    assert!(exts.contains(&"aac"));
}

#[test]
fn unsupported_extension_returns_error() {
    let err = check_extension("xyz").unwrap_err();
    let msg = err.message();
    assert!(msg.contains(".xyz"), "error should mention extension: {msg}");
    assert!(msg.contains("wav"), "error should list supported formats: {msg}");
}

#[test]
fn case_insensitive_extension() {
    assert!(check_extension("WAV").is_ok());
    assert!(check_extension("Mp3").is_ok());
    assert!(check_extension("wav").is_ok());
}

use sagascript::settings::Language;
use sagascript::settings::HotkeyMode;
use sagascript::settings::Settings;
use sagascript::settings::WhisperModel;
use sagascript::settings_json::parse_settings_doc;
use sagascript::settings_json::render_settings_update;
use sagascript::settings_json::settings_from_json;
use sagascript::store::model_path_in;
use sagascript::store::model_tmp_path_in;
use sagascript::store::settings_path;
use sagascript::store::settings_path_in;

#[test]
fn settings_path_is_under_app_data_dir() {
    let p = settings_path();
    assert!(p.ends_with("sagascript-settings.json"));
    let parent = &p[..p.len() - "/sagascript-settings.json".len()];
    assert!(parent.ends_with("com.sagascript.app"));
}

#[test]
fn settings_path_in_composes() {
    let p = settings_path_in("/data");
    assert_eq!(p, "/data/com.sagascript.app/sagascript-settings.json");
}

#[test]
fn model_paths_compose() {
    let p = model_path_in("/data", WhisperModel::BaseEn);
    assert_eq!(p, "/data/Sagascript/Models/ggml-base.en.bin");
    let t = model_tmp_path_in("/data", WhisperModel::BaseEn);
    assert_eq!(t, "/data/Sagascript/Models/ggml-base.en.bin.tmp");
}

#[test]
fn load_returns_defaults_when_file_missing() {
    // An unreadable (here: absent, hence empty) file loads as defaults.
    let s = settings_from_json("");
    let d = Settings::default();
    assert_eq!(s.language, d.language);
    assert_eq!(s.whisper_model, d.whisper_model);
    assert_eq!(s.hotkey, d.hotkey);
}

#[test]
fn save_and_load_roundtrip() {
    let mut settings = Settings::default();
    settings.language = Language::Swedish;
    settings.hotkey = "Alt+Space".to_string();

    let text = render_settings_update("", &settings);
    let loaded = settings_from_json(&text);
    assert_eq!(loaded.language, Language::Swedish);
    assert_eq!(loaded.hotkey, "Alt+Space");
    assert_eq!(loaded.whisper_model, WhisperModel::Base); // default preserved
    assert_eq!(loaded.hotkey_mode, HotkeyMode::PushToTalk);
    assert_eq!(loaded.show_overlay, settings.show_overlay);
    assert_eq!(loaded.auto_paste, settings.auto_paste);
    assert_eq!(loaded.auto_select_model, settings.auto_select_model);
}

#[test]
fn save_preserves_non_settings_keys() {
    // Pre-populate with a non-settings key
    let initial = "{\"hasCompletedOnboarding\":true,\"language\":\"en\"}";

    let mut settings = Settings::default();
    settings.language = Language::Norwegian;

    let text = render_settings_update(initial, &settings);

    // Verify non-settings key preserved and the language updated
    assert!(text.contains("\"hasCompletedOnboarding\":true"));
    assert!(text.contains("\"language\":\"no\""));
    let reloaded = settings_from_json(&text);
    assert_eq!(reloaded.language, Language::Norwegian);
}

#[test]
fn partial_json_fills_defaults() {
    let json = "{\"language\":\"sv\",\"hotkey\":\"Alt+X\"}";
    let s = settings_from_json(json);
    assert_eq!(s.language, Language::Swedish);
    assert_eq!(s.hotkey, "Alt+X");
    // Defaults for missing fields
    assert_eq!(s.whisper_model, WhisperModel::Base);
    assert_eq!(s.hotkey_mode, HotkeyMode::PushToTalk);
    assert!(s.show_overlay);
    assert!(s.auto_paste);
    assert!(s.auto_select_model);
}

#[test]
fn invalid_known_value_rejects_whole_document() {
    // A known key with a value outside its vocabulary loads as defaults.
    let s = settings_from_json("{\"language\":\"klingon\"}");
    assert_eq!(s.language, Language::English);
}

#[test]
fn whitespace_and_escapes_are_read_back() {
    let text = " { \"hotkey\" : \"Ctrl+\\\\\" , \"auto_paste\" : false } ";
    let s = settings_from_json(text);
    assert_eq!(s.hotkey, "Ctrl+\\");
    assert!(!s.auto_paste);
}

#[test]
fn unknown_scalars_survive_a_save() {
    let initial = "{\"fontSize\":14,\"theme\":\"dark\",\"beta\":null}";
    let text = render_settings_update(initial, &Settings::default());
    assert!(text.contains("\"fontSize\":14"));
    assert!(text.contains("\"theme\":\"dark\""));
    assert!(text.contains("\"beta\":null"));
    assert!(parse_settings_doc(&text).is_some());
}

#[test]
fn duplicate_keys_are_overwritten_on_save() {
    // A hand-edited file may hold the same key twice; a save overwrites
    // every occurrence, so a reload can never see a stale value.
    let initial = "{\"language\":\"sv\",\"fontSize\":14,\"language\":\"no\"}";
    let mut s = Settings::default();
    s.language = Language::Swedish;
    let text = render_settings_update(initial, &s);
    assert!(!text.contains("\"no\""));
    let loaded = settings_from_json(&text);
    assert_eq!(loaded.language, Language::Swedish);
    assert!(text.contains("\"fontSize\":14"));
}

#[test]
fn nested_documents_are_rejected() {
    assert!(parse_settings_doc("{\"a\":{\"b\":1}}").is_none());
    assert!(parse_settings_doc("{\"a\":[1,2]}").is_none());
    assert!(parse_settings_doc("not json").is_none());
    assert!(parse_settings_doc("{}").is_some());
}

#[test]
fn all_settings_roundtrip_through_text() {
    let mut s = Settings::default();
    s.language = Language::Norwegian;
    s.whisper_model = WhisperModel::NbWhisperSmall;
    s.hotkey_mode = HotkeyMode::Toggle;
    s.show_overlay = false;
    s.auto_paste = false;
    s.auto_select_model = false;
    s.hotkey = "Command+Shift+D".to_string();

    let text = render_settings_update("", &s);
    let loaded = settings_from_json(&text);
    assert_eq!(loaded.language, s.language);
    assert_eq!(loaded.whisper_model, s.whisper_model);
    assert_eq!(loaded.hotkey_mode, s.hotkey_mode);
    assert_eq!(loaded.show_overlay, s.show_overlay);
    assert_eq!(loaded.auto_paste, s.auto_paste);
    assert_eq!(loaded.auto_select_model, s.auto_select_model);
    assert_eq!(loaded.hotkey, s.hotkey);
}

use sagascript::engine::WhisperBackend;
use sagascript::engine::missing_model_error;
use sagascript::engine::timed_out;
use sagascript::engine::timeout_error;
use sagascript::settings::HotkeyMode;
use sagascript::settings::Language;
use sagascript::settings::Settings;
use sagascript::settings::WhisperModel;
use sagascript::state::AppController;
use sagascript::state::AppState;
use sagascript::state::sleep_before_stop_ms;

fn default_controller() -> AppController {
    AppController::new(Settings::default())
}

/// Drive a fresh controller into the `Transcribing` state.
fn transcribing_controller() -> AppController {
    let mut ctrl = default_controller();
    assert!(ctrl.handle_hotkey_down());
    ctrl.on_capture_started(0);
    ctrl.stop_recording();
    assert_eq!(ctrl.state(), AppState::Transcribing);
    ctrl
}

// -- AppState --

#[test]
fn app_state_is_recording() {
    assert!(!AppState::Idle.is_recording());
    assert!(AppState::Recording.is_recording());
    assert!(!AppState::Transcribing.is_recording());
    assert!(!AppState::Error.is_recording());
}

#[test]
fn app_state_is_busy() {
    assert!(!AppState::Idle.is_busy());
    assert!(AppState::Recording.is_busy());
    assert!(AppState::Transcribing.is_busy());
    assert!(!AppState::Error.is_busy());
}

// -- AppController initial state --

#[test]
fn initial_state_is_idle() {
    let ctrl = default_controller();
    assert_eq!(ctrl.state(), AppState::Idle);
}

#[test]
fn initial_model_not_ready() {
    let ctrl = default_controller();
    assert!(!ctrl.is_model_ready());
}

#[test]
fn initial_no_transcription() {
    let ctrl = default_controller();
    assert!(ctrl.last_transcription().is_none());
}

#[test]
fn initial_no_error() {
    let ctrl = default_controller();
    assert!(ctrl.last_error().is_none());
}

#[test]
fn initial_language_from_settings() {
    let mut settings = Settings::default();
    settings.language = Language::Swedish;
    let ctrl = AppController::new(settings);
    assert_eq!(ctrl.language(), Language::Swedish);
}

// -- Settings --

#[test]
fn settings_getter() {
    let ctrl = default_controller();
    assert_eq!(ctrl.settings().language, Language::English);
}

#[test]
fn settings_mut_modifiable() {
    let mut ctrl = default_controller();
    ctrl.set_language(Language::Norwegian);
    assert_eq!(ctrl.settings().language, Language::Norwegian);
}

#[test]
fn update_settings_replaces() {
    let mut ctrl = default_controller();
    let mut new_settings = Settings::default();
    new_settings.auto_paste = false;
    new_settings.language = Language::Swedish;
    ctrl.update_settings(new_settings);
    assert!(!ctrl.settings().auto_paste);
    assert_eq!(ctrl.settings().language, Language::Swedish);
}

#[test]
fn set_whisper_model_disables_auto_select() {
    let mut ctrl = default_controller();
    assert!(ctrl.settings().auto_select_model);
    ctrl.set_whisper_model(WhisperModel::KbWhisperSmall);
    assert!(!ctrl.settings().auto_select_model);
    assert_eq!(ctrl.settings().whisper_model, WhisperModel::KbWhisperSmall);
}

// -- Model ready --

#[test]
fn set_model_ready() {
    let mut ctrl = default_controller();
    assert!(!ctrl.is_model_ready());
    ctrl.set_model_ready(true);
    assert!(ctrl.is_model_ready());
    ctrl.set_model_ready(false);
    assert!(!ctrl.is_model_ready());
}

// -- Transcription callbacks --

#[test]
fn on_transcription_success_stores_text() {
    let mut ctrl = transcribing_controller();
    ctrl.on_transcription_success("Hello world");
    assert_eq!(ctrl.last_transcription(), Some("Hello world"));
    assert_eq!(ctrl.state(), AppState::Idle);
}

#[test]
fn on_transcription_error_stores_error() {
    let mut ctrl = transcribing_controller();
    ctrl.on_transcription_error("model crashed");
    assert_eq!(ctrl.last_error(), Some("model crashed"));
    assert_eq!(ctrl.state(), AppState::Idle);
}

// -- Recording elapsed --

#[test]
fn recording_elapsed_zero_when_not_recording() {
    let ctrl = default_controller();
    assert_eq!(ctrl.recording_elapsed_ms(12345), 0);
}

// -- should_stop_on_key_up --

#[test]
fn should_stop_on_key_up_push_to_talk_recording() {
    let mut ctrl = default_controller();
    ctrl.set_hotkey_mode(HotkeyMode::PushToTalk);
    ctrl.on_capture_started(0);
    assert!(ctrl.should_stop_on_key_up());
}

#[test]
fn should_not_stop_on_key_up_push_to_talk_idle() {
    let mut ctrl = default_controller();
    ctrl.set_hotkey_mode(HotkeyMode::PushToTalk);
    assert!(!ctrl.should_stop_on_key_up());
}

#[test]
fn should_not_stop_on_key_up_toggle_mode() {
    let mut ctrl = default_controller();
    ctrl.set_hotkey_mode(HotkeyMode::Toggle);
    ctrl.on_capture_started(0);
    assert!(!ctrl.should_stop_on_key_up());
}

// -- cancel_recording --

#[test]
fn cancel_recording_when_not_recording_is_noop() {
    let mut ctrl = default_controller();
    ctrl.cancel_recording();
    assert_eq!(ctrl.state(), AppState::Idle);
}

#[test]
fn start_recording_when_transcribing_is_noop() {
    let ctrl = transcribing_controller();
    assert!(!ctrl.handle_hotkey_down());
    assert_eq!(ctrl.state(), AppState::Transcribing); // unchanged
}

// -- Minimum recording duration --

#[test]
fn short_press_waits_out_the_minimum() {
    assert_eq!(sleep_before_stop_ms(0), 300);
    assert_eq!(sleep_before_stop_ms(50), 250);
    assert_eq!(sleep_before_stop_ms(299), 1);
    assert_eq!(sleep_before_stop_ms(300), 0);
    assert_eq!(sleep_before_stop_ms(800), 0);
}

// -- End-to-end state traces --

#[test]
fn happy_path_push_to_talk_english() {
    let mut settings = Settings::default();
    settings.language = Language::English;
    settings.auto_select_model = true;
    settings.auto_paste = true;
    settings.hotkey_mode = HotkeyMode::PushToTalk;
    let mut ctrl = AppController::new(settings);
    let mut engine = WhisperBackend::new();

    // Hotkey down at t=0: capture starts.
    assert!(ctrl.handle_hotkey_down());
    ctrl.on_capture_started(0);
    assert_eq!(ctrl.state(), AppState::Recording);

    // Hotkey up at t=800 ms: past the minimum, stop immediately.
    assert!(ctrl.should_stop_on_key_up());
    assert_eq!(ctrl.recording_elapsed_ms(800), 800);
    assert_eq!(sleep_before_stop_ms(800), 0);
    ctrl.stop_recording();
    assert_eq!(ctrl.state(), AppState::Transcribing);

    // The selected model is the default English model and it is resident.
    assert_eq!(ctrl.settings().effective_model(), WhisperModel::BaseEn);
    engine.on_model_loaded(WhisperModel::BaseEn);
    assert!(engine.transcribe_preflight(12_000).is_ok());

    // The engine returns; the text is stored and exactly one paste is due.
    let paste = ctrl.on_transcription_success("Hello world");
    assert!(paste);
    assert_eq!(ctrl.last_transcription(), Some("Hello world"));
    assert_eq!(ctrl.state(), AppState::Idle);
    assert!(ctrl.last_error().is_none());
}

#[test]
fn cancel_during_inference_discards_outcome() {
    let mut ctrl = transcribing_controller();
    let prior_transcription = ctrl.last_transcription().map(|s| s.to_string());
    let prior_error = ctrl.last_error().map(|s| s.to_string());

    // cancel() while transcribing: the worker must be asked to abort.
    let abort = ctrl.cancel();
    assert!(abort);
    assert_eq!(ctrl.state(), AppState::Transcribing);

    // The worker eventually returns a result; it is observed but discarded.
    let paste = ctrl.on_transcription_success("late result");
    assert!(!paste);
    assert_eq!(ctrl.state(), AppState::Idle);
    assert_eq!(ctrl.last_transcription().map(|s| s.to_string()), prior_transcription);
    assert_eq!(ctrl.last_error().map(|s| s.to_string()), prior_error);
}

#[test]
fn cancel_during_inference_discards_late_failure() {
    let mut ctrl = transcribing_controller();
    let prior_error = ctrl.last_error().map(|s| s.to_string());
    assert!(ctrl.cancel());
    ctrl.on_transcription_error("late failure");
    assert_eq!(ctrl.state(), AppState::Idle);
    assert_eq!(ctrl.last_error().map(|s| s.to_string()), prior_error);
}

#[test]
fn cancel_while_recording_returns_to_idle() {
    let mut ctrl = default_controller();
    ctrl.on_capture_started(0);
    let abort = ctrl.cancel();
    assert!(!abort);
    assert_eq!(ctrl.state(), AppState::Idle);
}

#[test]
fn model_missing_reports_and_returns_to_idle() {
    let mut ctrl = transcribing_controller();

    // The selected model's file is absent: the engine cannot load it.
    let err = missing_model_error(WhisperModel::BaseEn);
    assert_eq!(err.kind(), "ModelNotOnDisk");
    let msg = err.message();
    assert!(msg.contains("Whisper Base (EN)"));
    assert!(msg.contains("not downloaded"));

    ctrl.on_transcription_error(&msg);
    assert_eq!(ctrl.state(), AppState::Idle);
    assert!(ctrl.last_error().unwrap().contains("not downloaded"));
}

#[test]
fn inference_timeout_aborts_and_recovers() {
    let mut ctrl = transcribing_controller();
    let mut engine = WhisperBackend::new();
    engine.on_model_loaded(WhisperModel::BaseEn);
    engine.clear_abort();

    // The simulated engine never returns; at 60 s the timeout fires.
    assert!(!timed_out(59_999));
    assert!(timed_out(60_000));
    engine.request_abort();
    assert!(engine.loaded_model() == Some(WhisperModel::BaseEn));

    let err = timeout_error();
    assert!(err.message().contains("timed out"));
    ctrl.on_transcription_error(&err.message());
    assert_eq!(ctrl.state(), AppState::Idle);

    // A new dictation can begin.
    assert!(ctrl.handle_hotkey_down());
    ctrl.on_capture_started(61_000);
    assert_eq!(ctrl.state(), AppState::Recording);
}

#[test]
fn capture_failure_surfaces_error() {
    let mut ctrl = default_controller();
    assert!(ctrl.handle_hotkey_down());
    ctrl.on_capture_start_failed("Audio capture error: no device");
    assert_eq!(ctrl.state(), AppState::Idle);
    assert!(ctrl.last_error().unwrap().contains("no device"));
}

use sagascript::download::DownloadTracker;
use sagascript::download::progress_percent;
use sagascript::engine::TRANSCRIPTION_TIMEOUT_SECS;
use sagascript::engine::WhisperBackend;
use sagascript::engine::assemble_transcript;
use sagascript::engine::inference_params;
use sagascript::engine::timed_out;
use sagascript::engine::timeout_error;
use sagascript::errors::DictationError;
use sagascript::paste::PasteService;
use sagascript::settings::Language;
use sagascript::settings::WhisperModel;

// -- WhisperBackend bookkeeping --

#[test]
fn backend_starts_unloaded() {
    let backend = WhisperBackend::new();
    assert!(backend.loaded_model().is_none());
    assert!(backend.needs_reload(WhisperModel::Base));
}

#[test]
fn backend_reload_tracking() {
    let mut backend = WhisperBackend::new();
    backend.on_model_loaded(WhisperModel::BaseEn);
    assert_eq!(backend.loaded_model(), Some(WhisperModel::BaseEn));
    assert!(!backend.needs_reload(WhisperModel::BaseEn));
    assert!(backend.needs_reload(WhisperModel::KbWhisperBase));
}

#[test]
fn preflight_rejects_empty_audio() {
    let backend = WhisperBackend::new();
    match backend.transcribe_preflight(0) {
        Err(DictationError::NoAudioCaptured) => {}
        other => panic!("expected NoAudioCaptured, got {:?}", other.map(|_| ())),
    }
}

#[test]
fn preflight_rejects_missing_model() {
    let backend = WhisperBackend::new();
    match backend.transcribe_preflight(16000) {
        Err(DictationError::ModelNotLoaded) => {}
        other => panic!("expected ModelNotLoaded, got {:?}", other.map(|_| ())),
    }
}

#[test]
fn preflight_accepts_loaded_model_and_audio() {
    let mut backend = WhisperBackend::new();
    backend.on_model_loaded(WhisperModel::Base);
    assert!(backend.transcribe_preflight(16000).is_ok());
}

// -- Inference parameters --

#[test]
fn params_threads_half_of_cpus_min_one() {
    assert_eq!(inference_params(WhisperModel::Base, Language::Auto, 8).n_threads, 4);
    assert_eq!(inference_params(WhisperModel::Base, Language::Auto, 1).n_threads, 1);
    assert_eq!(inference_params(WhisperModel::Base, Language::Auto, 0).n_threads, 1);
    assert_eq!(inference_params(WhisperModel::Base, Language::Auto, 3).n_threads, 1);
}

#[test]
fn params_language_tag() {
    let p = inference_params(WhisperModel::Base, Language::Swedish, 4);
    assert_eq!(p.language_code.as_deref(), Some("sv"));
    let p = inference_params(WhisperModel::Base, Language::Auto, 4);
    assert_eq!(p.language_code, None);
}

#[test]
fn params_fixed_tuning() {
    let p = inference_params(WhisperModel::Base, Language::English, 4);
    assert!(p.sampling_greedy);
    assert_eq!(p.best_of, 1);
    assert_eq!(p.temperature_milli, 0);
    assert_eq!(p.temperature_inc_milli, 200);
    assert!(!p.translate);
    assert!(p.no_timestamps);
    assert!(p.suppress_blank);
    assert_eq!(p.no_speech_threshold_milli, 300);
    let p = inference_params(WhisperModel::SmallEn, Language::English, 4);
    assert_eq!(p.no_speech_threshold_milli, 0);
}

// -- Transcript assembly --

#[test]
fn transcript_concatenates_and_trims() {
    let segments = vec![" Hello".to_string(), " world".to_string(), "  ".to_string()];
    assert_eq!(assemble_transcript(&segments), "Hello world");
}

#[test]
fn transcript_of_no_segments_is_empty() {
    let segments: Vec<String> = Vec::new();
    assert_eq!(assemble_transcript(&segments), "");
}

// -- Timeout --

#[test]
fn timeout_at_sixty_seconds() {
    assert_eq!(TRANSCRIPTION_TIMEOUT_SECS, 60);
    assert!(!timed_out(0));
    assert!(!timed_out(59_999));
    assert!(timed_out(60_000));
    let err = timeout_error();
    assert_eq!(err.kind(), "TranscriptionTimedOut");
    assert_eq!(
        err.message(),
        "Transcription timed out after 60s (inference may still be running in background)"
    );
}

// -- Download progress --

#[test]
fn progress_percent_values() {
    assert_eq!(progress_percent(0, 200), 0);
    assert_eq!(progress_percent(50, 200), 25);
    assert_eq!(progress_percent(200, 200), 100);
    assert_eq!(progress_percent(1, 3), 33);
    assert_eq!(progress_percent(10, 0), 0); // unknown total
}

#[test]
fn tracker_accumulates_monotonically() {
    let mut t = DownloadTracker::new(1000);
    let mut last_percent = 0u64;
    let mut last_downloaded = 0u64;
    for chunk in [100u64, 250, 150, 500] {
        t.on_chunk(chunk);
        assert!(t.downloaded() >= last_downloaded);
        assert!(t.percent() >= last_percent);
        last_downloaded = t.downloaded();
        last_percent = t.percent();
    }
    assert_eq!(t.downloaded(), 1000);
    assert_eq!(t.percent(), 100);
}

// -- Paste decisions --

#[test]
fn paste_empty_text_is_noop() {
    let svc = PasteService::new();
    let plan = svc.plan(0, true);
    assert!(!plan.set_clipboard);
    assert!(!plan.keystroke);
    assert!(svc.outcome(0, false).is_ok());
}

#[test]
fn paste_without_accessibility_keeps_clipboard() {
    let svc = PasteService::new();
    let plan = svc.plan(11, false);
    assert!(plan.set_clipboard);
    assert!(!plan.keystroke);
    match svc.outcome(11, false) {
        Err(DictationError::AccessibilityPermissionDenied) => {}
        other => panic!("expected AccessibilityPermissionDenied, got {:?}", other.map(|_| ())),
    }
}

#[test]
fn paste_with_accessibility_strikes_keystroke() {
    let svc = PasteService::new();
    let plan = svc.plan(11, true);
    assert!(plan.set_clipboard);
    assert!(plan.keystroke);
    assert_eq!(plan.restore_after_ms, 100);
    assert!(svc.outcome(11, true).is_ok());
}

use sagascript::errors::DictationError;

#[test]
fn display_microphone_permission() {
    let err = DictationError::MicrophonePermissionDenied;
    let msg = err.message();
    assert!(msg.contains("Microphone permission"));
    assert!(msg.contains("System Settings"));
}

#[test]
fn display_accessibility_permission() {
    let err = DictationError::AccessibilityPermissionDenied;
    assert!(err.message().contains("Accessibility permission"));
}

#[test]
fn display_model_not_loaded() {
    let err = DictationError::ModelNotLoaded;
    assert!(err.message().contains("not loaded"));
}

#[test]
fn display_with_message() {
    let err = DictationError::TranscriptionFailed("timeout".into());
    assert_eq!(err.message(), "Transcription failed: timeout");

    let err = DictationError::AudioCaptureError("no device".into());
    assert_eq!(err.message(), "Audio capture error: no device");

    let err = DictationError::ModelDownloadFailed("404".into());
    assert_eq!(err.message(), "Model download failed: 404");

    let err = DictationError::FileDecodeError("corrupt".into());
    assert_eq!(err.message(), "File decode error: corrupt");

    let err = DictationError::UnsupportedFormat(".xyz".into());
    assert_eq!(err.message(), "Unsupported format: .xyz");

    let err = DictationError::ModelLoadFailed("bad magic".into());
    assert_eq!(err.message(), "Failed to load model: bad magic");

    let err = DictationError::ModelNotOnDisk("Whisper Base (EN)".into());
    assert_eq!(
        err.message(),
        "Model 'Whisper Base (EN)' not downloaded. Please download it from Settings first."
    );
}

#[test]
fn from_error_to_string() {
    let err = DictationError::NoAudioCaptured;
    let s: String = err.into();
    assert!(s.contains("No audio was captured"));
}

#[test]
fn clone_error() {
    let err = DictationError::SettingsError("bad config".into());
    let cloned = err.clone();
    assert_eq!(err.message(), cloned.message());
}

#[test]
fn debug_format() {
    let err = DictationError::HotkeyError("conflict".into());
    let debug = format!("{:?}", err);
    assert!(debug.contains("HotkeyError"));
    assert!(debug.contains("conflict"));
}

#[test]
fn error_kinds_name_each_variant() {
    assert_eq!(DictationError::MicrophonePermissionDenied.kind(), "MicrophonePermissionDenied");
    assert_eq!(DictationError::AccessibilityPermissionDenied.kind(), "AccessibilityPermissionDenied");
    assert_eq!(DictationError::ModelNotLoaded.kind(), "ModelNotLoaded");
    assert_eq!(DictationError::ModelNotOnDisk("x".into()).kind(), "ModelNotOnDisk");
    assert_eq!(DictationError::ModelLoadFailed("x".into()).kind(), "ModelLoadFailed");
    assert_eq!(DictationError::TranscriptionFailed("x".into()).kind(), "TranscriptionFailed");
    assert_eq!(DictationError::TranscriptionTimedOut.kind(), "TranscriptionTimedOut");
    assert_eq!(DictationError::NoAudioCaptured.kind(), "NoAudioCaptured");
    assert_eq!(DictationError::AudioCaptureError("x".into()).kind(), "AudioCaptureError");
    assert_eq!(DictationError::ModelDownloadFailed("x".into()).kind(), "ModelDownloadFailed");
    assert_eq!(DictationError::SettingsError("x".into()).kind(), "SettingsError");
    assert_eq!(DictationError::HotkeyError("x".into()).kind(), "HotkeyError");
    assert_eq!(DictationError::PasteError("x".into()).kind(), "PasteError");
    assert_eq!(DictationError::FileDecodeError("x".into()).kind(), "FileDecodeError");
    assert_eq!(DictationError::UnsupportedFormat("x".into()).kind(), "UnsupportedFormat");
}

#[test]
fn settings_hotkey_paste_messages() {
    assert_eq!(DictationError::SettingsError("bad".into()).message(), "Settings error: bad");
    assert_eq!(DictationError::HotkeyError("bad".into()).message(), "Hotkey error: bad");
    assert_eq!(DictationError::PasteError("bad".into()).message(), "Paste error: bad");
    assert_eq!(
        DictationError::NoAudioCaptured.message(),
        "No audio was captured. Please try again."
    );
}

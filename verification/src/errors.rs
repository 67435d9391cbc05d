//! The error taxonomy of the dictation workflow. Every failure in a leaf
//! component is converted to one of these kinds at the component boundary.

use vstd::prelude::*;
use vstd::string::StringExecFns;

verus! {

/// Errors that can occur during dictation workflow
#[derive(Debug, Clone)]
pub enum DictationError {
    MicrophonePermissionDenied,
    AccessibilityPermissionDenied,
    ModelNotLoaded,
    /// The selected model's file is absent from disk; the payload is the
    /// model's display name.
    ModelNotOnDisk(String),
    /// The model file exists but the engine could not load it.
    ModelLoadFailed(String),
    TranscriptionFailed(String),
    /// An inference exceeded its wall-clock budget; the worker may still be
    /// running in the background.
    TranscriptionTimedOut,
    NoAudioCaptured,
    AudioCaptureError(String),
    ModelDownloadFailed(String),
    SettingsError(String),
    HotkeyError(String),
    PasteError(String),
    FileDecodeError(String),
    UnsupportedFormat(String),
}

/// The human-readable message carried by each error kind.
pub open spec fn error_message_spec(e: DictationError) -> Seq<char> {
    match e {
        DictationError::MicrophonePermissionDenied => "Microphone permission is required. Please enable it in System Settings > Privacy & Security > Microphone."@,
        DictationError::AccessibilityPermissionDenied => "Accessibility permission is required for automatic paste. Text has been copied to clipboard."@,
        DictationError::ModelNotLoaded => "Transcription model is not loaded. Please wait for initialization."@,
        DictationError::ModelNotOnDisk(m) => "Model '"@ + m@
            + "' not downloaded. Please download it from Settings first."@,
        DictationError::ModelLoadFailed(m) => "Failed to load model: "@ + m@,
        DictationError::TranscriptionFailed(m) => "Transcription failed: "@ + m@,
        DictationError::TranscriptionTimedOut => "Transcription timed out after 60s (inference may still be running in background)"@,
        DictationError::NoAudioCaptured => "No audio was captured. Please try again."@,
        DictationError::AudioCaptureError(m) => "Audio capture error: "@ + m@,
        DictationError::ModelDownloadFailed(m) => "Model download failed: "@ + m@,
        DictationError::SettingsError(m) => "Settings error: "@ + m@,
        DictationError::HotkeyError(m) => "Hotkey error: "@ + m@,
        DictationError::PasteError(m) => "Paste error: "@ + m@,
        DictationError::FileDecodeError(m) => "File decode error: "@ + m@,
        DictationError::UnsupportedFormat(m) => "Unsupported format: "@ + m@,
    }
}

/// The tag naming each error kind, as surfaced to the UI.
pub open spec fn error_kind_spec(e: DictationError) -> Seq<char> {
    match e {
        DictationError::MicrophonePermissionDenied => "MicrophonePermissionDenied"@,
        DictationError::AccessibilityPermissionDenied => "AccessibilityPermissionDenied"@,
        DictationError::ModelNotLoaded => "ModelNotLoaded"@,
        DictationError::ModelNotOnDisk(_) => "ModelNotOnDisk"@,
        DictationError::ModelLoadFailed(_) => "ModelLoadFailed"@,
        DictationError::TranscriptionFailed(_) => "TranscriptionFailed"@,
        DictationError::TranscriptionTimedOut => "TranscriptionTimedOut"@,
        DictationError::NoAudioCaptured => "NoAudioCaptured"@,
        DictationError::AudioCaptureError(_) => "AudioCaptureError"@,
        DictationError::ModelDownloadFailed(_) => "ModelDownloadFailed"@,
        DictationError::SettingsError(_) => "SettingsError"@,
        DictationError::HotkeyError(_) => "HotkeyError"@,
        DictationError::PasteError(_) => "PasteError"@,
        DictationError::FileDecodeError(_) => "FileDecodeError"@,
        DictationError::UnsupportedFormat(_) => "UnsupportedFormat"@,
    }
}

impl DictationError {
    /// The full human-readable message for this error.
    pub fn message(&self) -> (r: String)
        ensures
            r@ == error_message_spec(*self),
    {
        match self {
            DictationError::MicrophonePermissionDenied => String::from_str(
                "Microphone permission is required. Please enable it in System Settings > Privacy & Security > Microphone.",
            ),
            DictationError::AccessibilityPermissionDenied => String::from_str(
                "Accessibility permission is required for automatic paste. Text has been copied to clipboard.",
            ),
            DictationError::ModelNotLoaded => String::from_str(
                "Transcription model is not loaded. Please wait for initialization.",
            ),
            DictationError::ModelNotOnDisk(m) => String::from_str("Model '").concat(
                m.as_str(),
            ).concat("' not downloaded. Please download it from Settings first."),
            DictationError::ModelLoadFailed(m) => String::from_str(
                "Failed to load model: ",
            ).concat(m.as_str()),
            DictationError::TranscriptionFailed(m) => String::from_str(
                "Transcription failed: ",
            ).concat(m.as_str()),
            DictationError::TranscriptionTimedOut => String::from_str(
                "Transcription timed out after 60s (inference may still be running in background)",
            ),
            DictationError::NoAudioCaptured => String::from_str(
                "No audio was captured. Please try again.",
            ),
            DictationError::AudioCaptureError(m) => String::from_str(
                "Audio capture error: ",
            ).concat(m.as_str()),
            DictationError::ModelDownloadFailed(m) => String::from_str(
                "Model download failed: ",
            ).concat(m.as_str()),
            DictationError::SettingsError(m) => String::from_str(
                "Settings error: ",
            ).concat(m.as_str()),
            DictationError::HotkeyError(m) => String::from_str(
                "Hotkey error: ",
            ).concat(m.as_str()),
            DictationError::PasteError(m) => String::from_str(
                "Paste error: ",
            ).concat(m.as_str()),
            DictationError::FileDecodeError(m) => String::from_str(
                "File decode error: ",
            ).concat(m.as_str()),
            DictationError::UnsupportedFormat(m) => String::from_str(
                "Unsupported format: ",
            ).concat(m.as_str()),
        }
    }

    /// The tag naming this error's kind.
    pub fn kind(&self) -> (r: &'static str)
        ensures
            r@ == error_kind_spec(*self),
    {
        match self {
            DictationError::MicrophonePermissionDenied => "MicrophonePermissionDenied",
            DictationError::AccessibilityPermissionDenied => "AccessibilityPermissionDenied",
            DictationError::ModelNotLoaded => "ModelNotLoaded",
            DictationError::ModelNotOnDisk(_) => "ModelNotOnDisk",
            DictationError::ModelLoadFailed(_) => "ModelLoadFailed",
            DictationError::TranscriptionFailed(_) => "TranscriptionFailed",
            DictationError::TranscriptionTimedOut => "TranscriptionTimedOut",
            DictationError::NoAudioCaptured => "NoAudioCaptured",
            DictationError::AudioCaptureError(_) => "AudioCaptureError",
            DictationError::ModelDownloadFailed(_) => "ModelDownloadFailed",
            DictationError::SettingsError(_) => "SettingsError",
            DictationError::HotkeyError(_) => "HotkeyError",
            DictationError::PasteError(_) => "PasteError",
            DictationError::FileDecodeError(_) => "FileDecodeError",
            DictationError::UnsupportedFormat(_) => "UnsupportedFormat",
        }
    }
}

impl From<DictationError> for String {
    /// Commands surface errors to the UI as their message string.
    fn from(err: DictationError) -> (r: String) {
        err.message()
    }
}

impl vstd::std_specs::convert::FromSpecImpl<DictationError> for String {
    open spec fn obeys_from_spec() -> bool {
        false
    }

    open spec fn from_spec(v: DictationError) -> Self {
        choose|s: String| s@ == error_message_spec(v)
    }
}

} // verus!

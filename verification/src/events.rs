//! Event names emitted from the core to the UI layer.

use vstd::prelude::*;

verus! {

/// App state changed (idle/recording/loading_model/transcribing)
pub const STATE_CHANGED: &'static str = "state-changed";

/// Transcription result ready
pub const TRANSCRIPTION_RESULT: &'static str = "transcription-result";

/// Transcription progress, integer percent
pub const TRANSCRIPTION_PROGRESS: &'static str = "transcription-progress";

/// Error occurred
pub const ERROR: &'static str = "error";

/// Model download progress
pub const MODEL_DOWNLOAD_PROGRESS: &'static str = "model-download-progress";

/// Model ready
pub const MODEL_READY: &'static str = "model-ready";

} // verus!

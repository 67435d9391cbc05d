//! The inference engine's bookkeeping: which model is resident, the abort
//! flag, the parameters handed to each inference run, transcript assembly,
//! and the wall-clock timeout rule. The blocking inference call itself is
//! made by the surrounding process; everything it decides with is computed
//! here.

use vstd::prelude::*;
use vstd::string::StringExecFns;

use crate::errors::DictationError;
use crate::errors::error_message_spec;
use crate::hotkey::trim_chars;
use crate::hotkey::trim_spec;
use crate::ids::model_id_spec;
use crate::settings::Language;
use crate::settings::WhisperModel;
use crate::settings::language_whisper_code_spec;
use crate::settings::model_display_name_spec;
use crate::settings::model_no_speech_threshold_milli_spec;
use crate::text::chars_of;
use crate::text::chars_to_string;

verus! {

/// Maximum time to wait for an inference before aborting, in seconds.
pub const TRANSCRIPTION_TIMEOUT_SECS: u64 = 60;

/// Bookkeeping for the local speech-to-text backend: at most one resident
/// model, and one abort flag that is reset at the start of each inference.
pub struct WhisperBackend {
    loaded_model: Option<WhisperModel>,
    abort_requested: bool,
}

impl WhisperBackend {
    pub closed spec fn spec_loaded_model(&self) -> Option<WhisperModel> {
        self.loaded_model
    }

    pub closed spec fn spec_abort_requested(&self) -> bool {
        self.abort_requested
    }

    pub fn new() -> (r: Self)
        ensures
            r.spec_loaded_model() is None,
            !r.spec_abort_requested(),
    {
        WhisperBackend { loaded_model: None, abort_requested: false }
    }

    pub fn loaded_model(&self) -> (r: Option<WhisperModel>)
        ensures
            r == self.spec_loaded_model(),
    {
        self.loaded_model
    }

    /// Whether the resident model differs from the one the settings select.
    pub fn needs_reload(&self, desired_model: WhisperModel) -> (r: bool)
        ensures
            r == (self.spec_loaded_model() != Some(desired_model)),
    {
        match self.loaded_model {
            Some(m) => m != desired_model,
            None => true,
        }
    }

    /// Ask the running inference to stop at its next checkpoint.
    pub fn request_abort(&mut self)
        ensures
            final(self).spec_abort_requested(),
            final(self).spec_loaded_model() == old(self).spec_loaded_model(),
    {
        self.abort_requested = true;
    }

    /// The abort flag is reset at the start of each inference.
    pub fn clear_abort(&mut self)
        ensures
            !final(self).spec_abort_requested(),
            final(self).spec_loaded_model() == old(self).spec_loaded_model(),
    {
        self.abort_requested = false;
    }

    /// Commit a model the outside loader brought up; any previous context
    /// was dropped before the new one was created.
    pub fn on_model_loaded(&mut self, model: WhisperModel)
        ensures
            final(self).spec_loaded_model() == Some(model),
            final(self).spec_abort_requested() == old(self).spec_abort_requested(),
    {
        self.loaded_model = Some(model);
    }

    /// The checks made before an inference run: captured audio must be
    /// non-empty and a model must be resident. Succeeds exactly when both
    /// hold.
    pub fn transcribe_preflight(&self, audio_len: usize) -> (r: Result<(), DictationError>)
        ensures
            r is Ok <==> (audio_len > 0 && self.spec_loaded_model() is Some),
            audio_len == 0 ==> (r matches Err(e) && e is NoAudioCaptured),
            audio_len > 0 && self.spec_loaded_model() is None ==> (r matches Err(e)
                && e is ModelNotLoaded),
    {
        if audio_len == 0 {
            return Err(DictationError::NoAudioCaptured);
        }
        if self.loaded_model.is_none() {
            return Err(DictationError::ModelNotLoaded);
        }
        Ok(())
    }
}

/// The error returned when the selected model's file is absent: its own
/// kind, carrying the model's display name.
pub fn missing_model_error(model: WhisperModel) -> (r: DictationError)
    ensures
        r matches DictationError::ModelNotOnDisk(m) && m@ == model_display_name_spec(model),
        error_message_spec(r) == "Model '"@ + model_display_name_spec(model)
            + "' not downloaded. Please download it from Settings first."@,
{
    DictationError::ModelNotOnDisk(String::from_str(model.display_name()))
}

/// The error returned when the engine cannot bring a present model file
/// up; the detail is whatever the loader reported.
pub fn model_load_failed_error(detail: &str) -> (r: DictationError)
    ensures
        r matches DictationError::ModelLoadFailed(m) && m@ == detail@,
        error_message_spec(r) == "Failed to load model: "@ + detail@,
{
    DictationError::ModelLoadFailed(String::from_str(detail))
}

/// The parameter block prepared for each inference run. Temperatures and
/// thresholds are carried in thousandths; the caller divides by 1000 when
/// handing them to the inference library.
pub struct InferenceParams {
    /// Greedy sampling (no beam search).
    pub sampling_greedy: bool,
    /// How many candidates greedy sampling keeps.
    pub best_of: u32,
    /// Whisper language tag, or none for auto-detection.
    pub language_code: Option<String>,
    /// Half the logical CPU count, at least one.
    pub n_threads: usize,
    /// Initial sampling temperature, in thousandths.
    pub temperature_milli: u32,
    /// Fallback temperature increment, in thousandths.
    pub temperature_inc_milli: u32,
    /// Per-model no-speech threshold, in thousandths.
    pub no_speech_threshold_milli: u32,
    pub translate: bool,
    pub no_timestamps: bool,
    pub suppress_blank: bool,
}

/// Prepare the parameters for one inference run: greedy sampling with a
/// single candidate, threads from the CPU count, temperature 0.0 with 0.2
/// fallback steps, timestamps off, blank suppression on, and the per-model
/// no-speech threshold.
pub fn inference_params(model: WhisperModel, language: Language, cpu_count: usize) -> (r:
    InferenceParams)
    ensures
        r.sampling_greedy,
        r.best_of == 1,
        match r.language_code {
            Some(c) => language_whisper_code_spec(language) == Some(c@),
            None => language_whisper_code_spec(language) is None,
        },
        r.n_threads == if cpu_count / 2 >= 1 {
            cpu_count / 2
        } else {
            1usize
        },
        r.n_threads >= 1,
        r.temperature_milli == 0,
        r.temperature_inc_milli == 200,
        r.no_speech_threshold_milli == model_no_speech_threshold_milli_spec(model),
        !r.translate,
        r.no_timestamps,
        r.suppress_blank,
{
    let n_threads = if cpu_count / 2 >= 1 {
        cpu_count / 2
    } else {
        1
    };
    let language_code = match language.whisper_code() {
        Some(c) => Some(String::from_str(c)),
        None => None,
    };
    InferenceParams {
        sampling_greedy: true,
        best_of: 1,
        language_code,
        n_threads,
        temperature_milli: 0,
        temperature_inc_milli: 200,
        no_speech_threshold_milli: model.no_speech_threshold_milli(),
        translate: false,
        no_timestamps: true,
        suppress_blank: true,
    }
}

/// The concatenation of all decoded segments, in order.
pub open spec fn concat_segments_spec(segs: Seq<Seq<char>>) -> Seq<char>
    decreases segs.len(),
{
    if segs.len() == 0 {
        Seq::empty()
    } else {
        concat_segments_spec(segs.drop_last()) + segs.last()
    }
}

/// Assemble the final transcript: concatenate every segment the engine
/// produced and trim surrounding whitespace.
pub fn assemble_transcript(segments: &Vec<String>) -> (r: String)
    ensures
        r@ == trim_spec(concat_segments_spec(segments@.map_values(|s: String| s@))),
{
    let mut joined = String::new();
    let mut i: usize = 0;
    while i < segments.len()
        invariant
            0 <= i <= segments@.len(),
            joined@ == concat_segments_spec(
                segments@.map_values(|s: String| s@).take(i as int),
            ),
        decreases segments@.len() - i,
    {
        joined.append(segments[i].as_str());
        proof {
            let views = segments@.map_values(|s: String| s@);
            assert(views.take(i + 1).drop_last() =~= views.take(i as int));
            assert(views.take(i + 1).last() == views[i as int]);
        }
        i += 1;
    }
    proof {
        let views = segments@.map_values(|s: String| s@);
        assert(views.take(views.len() as int) =~= views);
    }
    let cs = chars_of(joined.as_str());
    let trimmed = trim_chars(&cs);
    chars_to_string(&trimmed)
}

/// Whether an inference has exhausted its wall-clock budget.
pub fn timed_out(elapsed_ms: u64) -> (r: bool)
    ensures
        r == (elapsed_ms >= TRANSCRIPTION_TIMEOUT_SECS * 1000),
{
    elapsed_ms >= TRANSCRIPTION_TIMEOUT_SECS * 1000
}

/// The error reported on timeout: its own kind, so the UI can tell a
/// timeout (whose worker may still be running) from an ordinary failure.
pub fn timeout_error() -> (r: DictationError)
    ensures
        r is TranscriptionTimedOut,
        error_message_spec(r)
            == "Transcription timed out after 60s (inference may still be running in background)"@,
{
    DictationError::TranscriptionTimedOut
}

} // verus!

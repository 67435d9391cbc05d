//! User-facing configuration: languages, the model catalogue, hotkey mode,
//! and the `Settings` record with its model-selection rule.

use vstd::prelude::*;

verus! {

/// Supported transcription languages
#[derive(Debug, Clone, Copy, PartialEq, Eq, Structural)]
pub enum Language {
    English,
    Swedish,
    Norwegian,
    Auto,
}

pub open spec fn language_display_name_spec(l: Language) -> Seq<char> {
    match l {
        Language::English => "English"@,
        Language::Swedish => "Swedish"@,
        Language::Norwegian => "Norwegian"@,
        Language::Auto => "Auto-detect"@,
    }
}

/// Whisper language tag handed to the inference engine; `None` means
/// auto-detect.
pub open spec fn language_whisper_code_spec(l: Language) -> Option<Seq<char>> {
    match l {
        Language::English => Some("en"@),
        Language::Swedish => Some("sv"@),
        Language::Norwegian => Some("no"@),
        Language::Auto => None,
    }
}

impl Language {
    pub fn display_name(&self) -> (r: &'static str)
        ensures
            r@ == language_display_name_spec(*self),
    {
        match self {
            Language::English => "English",
            Language::Swedish => "Swedish",
            Language::Norwegian => "Norwegian",
            Language::Auto => "Auto-detect",
        }
    }

    /// Whisper language code (None for auto-detect)
    pub fn whisper_code(&self) -> (r: Option<&'static str>)
        ensures
            match r {
                Some(c) => language_whisper_code_spec(*self) == Some(c@),
                None => language_whisper_code_spec(*self) is None,
            },
    {
        match self {
            Language::English => Some("en"),
            Language::Swedish => Some("sv"),
            Language::Norwegian => Some("no"),
            Language::Auto => None,
        }
    }
}

impl Default for Language {
    fn default() -> (r: Self)
        ensures
            r == Language::English,
    {
        Language::English
    }
}

/// Whisper model variants; every model is a GGML file resolved through the
/// model store.
#[derive(Debug, Clone, Copy, PartialEq, Eq, Structural)]
pub enum WhisperModel {
    TinyEn,
    Tiny,
    BaseEn,
    Base,
    KbWhisperTiny,
    KbWhisperBase,
    KbWhisperSmall,
    KbWhisperMedium,
    KbWhisperLarge,
    NbWhisperTiny,
    NbWhisperBase,
    NbWhisperSmall,
    NbWhisperMedium,
    NbWhisperLarge,
    SmallEn,
    Small,
    MediumEn,
    Medium,
    LargeV3Turbo,
}

pub open spec fn model_display_name_spec(m: WhisperModel) -> Seq<char> {
    match m {
        WhisperModel::TinyEn => "Whisper Tiny (EN)"@,
        WhisperModel::Tiny => "Whisper Tiny"@,
        WhisperModel::BaseEn => "Whisper Base (EN)"@,
        WhisperModel::Base => "Whisper Base"@,
        WhisperModel::KbWhisperTiny => "KB-Whisper Tiny"@,
        WhisperModel::KbWhisperBase => "KB-Whisper Base"@,
        WhisperModel::KbWhisperSmall => "KB-Whisper Small"@,
        WhisperModel::KbWhisperMedium => "KB-Whisper Medium"@,
        WhisperModel::KbWhisperLarge => "KB-Whisper Large"@,
        WhisperModel::NbWhisperTiny => "NB-Whisper Tiny"@,
        WhisperModel::NbWhisperBase => "NB-Whisper Base"@,
        WhisperModel::NbWhisperSmall => "NB-Whisper Small"@,
        WhisperModel::NbWhisperMedium => "NB-Whisper Medium"@,
        WhisperModel::NbWhisperLarge => "NB-Whisper Large"@,
        WhisperModel::SmallEn => "Whisper Small (EN)"@,
        WhisperModel::Small => "Whisper Small"@,
        WhisperModel::MediumEn => "Whisper Medium (EN)"@,
        WhisperModel::Medium => "Whisper Medium"@,
        WhisperModel::LargeV3Turbo => "Whisper Large v3 Turbo"@,
    }
}

pub open spec fn model_ggml_filename_spec(m: WhisperModel) -> Seq<char> {
    match m {
        WhisperModel::TinyEn => "ggml-tiny.en.bin"@,
        WhisperModel::Tiny => "ggml-tiny.bin"@,
        WhisperModel::BaseEn => "ggml-base.en.bin"@,
        WhisperModel::Base => "ggml-base.bin"@,
        WhisperModel::KbWhisperTiny => "kb-whisper-tiny-q5_0.bin"@,
        WhisperModel::KbWhisperBase => "kb-whisper-base-q5_0.bin"@,
        WhisperModel::KbWhisperSmall => "kb-whisper-small-q5_0.bin"@,
        WhisperModel::KbWhisperMedium => "kb-whisper-medium-q5_0.bin"@,
        WhisperModel::KbWhisperLarge => "kb-whisper-large-q5_0.bin"@,
        WhisperModel::NbWhisperTiny => "nb-whisper-tiny-q5_0.bin"@,
        WhisperModel::NbWhisperBase => "nb-whisper-base-q5_0.bin"@,
        WhisperModel::NbWhisperSmall => "nb-whisper-small-q5_0.bin"@,
        WhisperModel::NbWhisperMedium => "nb-whisper-medium-q5_0.bin"@,
        WhisperModel::NbWhisperLarge => "nb-whisper-large-q5_0.bin"@,
        WhisperModel::SmallEn => "ggml-small.en.bin"@,
        WhisperModel::Small => "ggml-small.bin"@,
        WhisperModel::MediumEn => "ggml-medium.en.bin"@,
        WhisperModel::Medium => "ggml-medium.bin"@,
        WhisperModel::LargeV3Turbo => "ggml-large-v3-turbo.bin"@,
    }
}

pub open spec fn model_download_url_spec(m: WhisperModel) -> Seq<char> {
    match m {
        WhisperModel::TinyEn => "https://huggingface.co/ggerganov/whisper.cpp/resolve/main/ggml-tiny.en.bin"@,
        WhisperModel::Tiny => "https://huggingface.co/ggerganov/whisper.cpp/resolve/main/ggml-tiny.bin"@,
        WhisperModel::BaseEn => "https://huggingface.co/ggerganov/whisper.cpp/resolve/main/ggml-base.en.bin"@,
        WhisperModel::Base => "https://huggingface.co/ggerganov/whisper.cpp/resolve/main/ggml-base.bin"@,
        WhisperModel::KbWhisperTiny => "https://huggingface.co/KBLab/kb-whisper-tiny/resolve/main/ggml-model-q5_0.bin"@,
        WhisperModel::KbWhisperBase => "https://huggingface.co/KBLab/kb-whisper-base/resolve/main/ggml-model-q5_0.bin"@,
        WhisperModel::KbWhisperSmall => "https://huggingface.co/KBLab/kb-whisper-small/resolve/main/ggml-model-q5_0.bin"@,
        WhisperModel::KbWhisperMedium => "https://huggingface.co/KBLab/kb-whisper-medium/resolve/main/ggml-model-q5_0.bin"@,
        WhisperModel::KbWhisperLarge => "https://huggingface.co/KBLab/kb-whisper-large/resolve/main/ggml-model-q5_0.bin"@,
        WhisperModel::NbWhisperTiny => "https://huggingface.co/NbAiLab/nb-whisper-tiny/resolve/main/ggml-model-q5_0.bin"@,
        WhisperModel::NbWhisperBase => "https://huggingface.co/NbAiLab/nb-whisper-base/resolve/main/ggml-model-q5_0.bin"@,
        WhisperModel::NbWhisperSmall => "https://huggingface.co/NbAiLab/nb-whisper-small/resolve/main/ggml-model-q5_0.bin"@,
        WhisperModel::NbWhisperMedium => "https://huggingface.co/NbAiLab/nb-whisper-medium/resolve/main/ggml-model-q5_0.bin"@,
        WhisperModel::NbWhisperLarge => "https://huggingface.co/NbAiLab/nb-whisper-large/resolve/main/ggml-model-q5_0.bin"@,
        WhisperModel::SmallEn => "https://huggingface.co/ggerganov/whisper.cpp/resolve/main/ggml-small.en.bin"@,
        WhisperModel::Small => "https://huggingface.co/ggerganov/whisper.cpp/resolve/main/ggml-small.bin"@,
        WhisperModel::MediumEn => "https://huggingface.co/ggerganov/whisper.cpp/resolve/main/ggml-medium.en.bin"@,
        WhisperModel::Medium => "https://huggingface.co/ggerganov/whisper.cpp/resolve/main/ggml-medium.bin"@,
        WhisperModel::LargeV3Turbo => "https://huggingface.co/ggerganov/whisper.cpp/resolve/main/ggml-large-v3-turbo.bin"@,
    }
}

pub open spec fn model_size_mb_spec(m: WhisperModel) -> u32 {
    match m {
        WhisperModel::TinyEn => 75,
        WhisperModel::Tiny => 75,
        WhisperModel::BaseEn => 142,
        WhisperModel::Base => 142,
        WhisperModel::KbWhisperTiny => 40,
        WhisperModel::KbWhisperBase => 60,
        WhisperModel::KbWhisperSmall => 190,
        WhisperModel::KbWhisperMedium => 514,
        WhisperModel::KbWhisperLarge => 1031,
        WhisperModel::NbWhisperTiny => 30,
        WhisperModel::NbWhisperBase => 55,
        WhisperModel::NbWhisperSmall => 175,
        WhisperModel::NbWhisperMedium => 514,
        WhisperModel::NbWhisperLarge => 1031,
        WhisperModel::SmallEn => 466,
        WhisperModel::Small => 466,
        WhisperModel::MediumEn => 1530,
        WhisperModel::Medium => 1530,
        WhisperModel::LargeV3Turbo => 1620,
    }
}

pub open spec fn model_description_spec(m: WhisperModel) -> Seq<char> {
    match m {
        WhisperModel::TinyEn => "OpenAI Whisper, English-only. Fastest, less accurate"@,
        WhisperModel::Tiny => "OpenAI Whisper, multilingual. Fastest, less accurate"@,
        WhisperModel::BaseEn => "OpenAI Whisper, English-only. Balanced speed and accuracy"@,
        WhisperModel::Base => "OpenAI Whisper, multilingual. Balanced speed and accuracy"@,
        WhisperModel::KbWhisperTiny => "By KBLab. Swedish-optimized. Fastest, less accurate"@,
        WhisperModel::KbWhisperBase => "By KBLab. Swedish-optimized. Balanced speed and accuracy"@,
        WhisperModel::KbWhisperSmall => "By KBLab. Swedish-optimized. More accurate, slower"@,
        WhisperModel::KbWhisperMedium => "By KBLab. Swedish-optimized. High accuracy, slow"@,
        WhisperModel::KbWhisperLarge => "By KBLab. Swedish-optimized. Highest accuracy, slowest"@,
        WhisperModel::NbWhisperTiny => "By NbAiLab. Norwegian-optimized. Fastest, less accurate"@,
        WhisperModel::NbWhisperBase => "By NbAiLab. Norwegian-optimized. Balanced speed and accuracy"@,
        WhisperModel::NbWhisperSmall => "By NbAiLab. Norwegian-optimized. More accurate, slower"@,
        WhisperModel::NbWhisperMedium => "By NbAiLab. Norwegian-optimized. High accuracy, slow"@,
        WhisperModel::NbWhisperLarge => "By NbAiLab. Norwegian-optimized. Highest accuracy, slowest"@,
        WhisperModel::SmallEn => "OpenAI Whisper, English-only. More accurate, slower"@,
        WhisperModel::Small => "OpenAI Whisper, multilingual. More accurate, slower"@,
        WhisperModel::MediumEn => "OpenAI Whisper, English-only. High accuracy, slow"@,
        WhisperModel::Medium => "OpenAI Whisper, multilingual. High accuracy, slow"@,
        WhisperModel::LargeV3Turbo => "OpenAI Whisper, multilingual. Highest accuracy, slowest"@,
    }
}

pub open spec fn model_is_english_only_spec(m: WhisperModel) -> bool {
    m == WhisperModel::TinyEn || m == WhisperModel::BaseEn || m == WhisperModel::SmallEn
        || m == WhisperModel::MediumEn
}

pub open spec fn model_is_swedish_optimized_spec(m: WhisperModel) -> bool {
    m == WhisperModel::KbWhisperTiny || m == WhisperModel::KbWhisperBase
        || m == WhisperModel::KbWhisperSmall || m == WhisperModel::KbWhisperMedium
        || m == WhisperModel::KbWhisperLarge
}

pub open spec fn model_is_norwegian_optimized_spec(m: WhisperModel) -> bool {
    m == WhisperModel::NbWhisperTiny || m == WhisperModel::NbWhisperBase
        || m == WhisperModel::NbWhisperSmall || m == WhisperModel::NbWhisperMedium
        || m == WhisperModel::NbWhisperLarge
}

/// Per-model no-speech threshold, in thousandths (the inference engine takes
/// the value divided by 1000).
pub open spec fn model_no_speech_threshold_milli_spec(m: WhisperModel) -> u32 {
    if m == WhisperModel::SmallEn {
        0
    } else {
        300
    }
}

pub open spec fn recommended_model_spec(l: Language) -> WhisperModel {
    match l {
        Language::English => WhisperModel::BaseEn,
        Language::Swedish => WhisperModel::KbWhisperBase,
        Language::Norwegian => WhisperModel::NbWhisperBase,
        Language::Auto => WhisperModel::Base,
    }
}

pub open spec fn models_for_language_spec(l: Language) -> Seq<WhisperModel> {
    match l {
        Language::English => seq![
            WhisperModel::TinyEn,
            WhisperModel::BaseEn,
            WhisperModel::SmallEn,
            WhisperModel::MediumEn,
        ],
        Language::Swedish => seq![
            WhisperModel::KbWhisperTiny,
            WhisperModel::KbWhisperBase,
            WhisperModel::KbWhisperSmall,
            WhisperModel::KbWhisperMedium,
            WhisperModel::KbWhisperLarge,
        ],
        Language::Norwegian => seq![
            WhisperModel::NbWhisperTiny,
            WhisperModel::NbWhisperBase,
            WhisperModel::NbWhisperSmall,
            WhisperModel::NbWhisperMedium,
            WhisperModel::NbWhisperLarge,
        ],
        Language::Auto => seq![
            WhisperModel::Tiny,
            WhisperModel::Base,
            WhisperModel::Small,
            WhisperModel::Medium,
            WhisperModel::LargeV3Turbo,
        ],
    }
}

impl WhisperModel {
    pub fn display_name(&self) -> (r: &'static str)
        ensures
            r@ == model_display_name_spec(*self),
    {
        match self {
            WhisperModel::TinyEn => "Whisper Tiny (EN)",
            WhisperModel::Tiny => "Whisper Tiny",
            WhisperModel::BaseEn => "Whisper Base (EN)",
            WhisperModel::Base => "Whisper Base",
            WhisperModel::KbWhisperTiny => "KB-Whisper Tiny",
            WhisperModel::KbWhisperBase => "KB-Whisper Base",
            WhisperModel::KbWhisperSmall => "KB-Whisper Small",
            WhisperModel::KbWhisperMedium => "KB-Whisper Medium",
            WhisperModel::KbWhisperLarge => "KB-Whisper Large",
            WhisperModel::NbWhisperTiny => "NB-Whisper Tiny",
            WhisperModel::NbWhisperBase => "NB-Whisper Base",
            WhisperModel::NbWhisperSmall => "NB-Whisper Small",
            WhisperModel::NbWhisperMedium => "NB-Whisper Medium",
            WhisperModel::NbWhisperLarge => "NB-Whisper Large",
            WhisperModel::SmallEn => "Whisper Small (EN)",
            WhisperModel::Small => "Whisper Small",
            WhisperModel::MediumEn => "Whisper Medium (EN)",
            WhisperModel::Medium => "Whisper Medium",
            WhisperModel::LargeV3Turbo => "Whisper Large v3 Turbo",
        }
    }

    pub fn description(&self) -> (r: &'static str)
        ensures
            r@ == model_description_spec(*self),
    {
        match self {
            WhisperModel::TinyEn => "OpenAI Whisper, English-only. Fastest, less accurate",
            WhisperModel::Tiny => "OpenAI Whisper, multilingual. Fastest, less accurate",
            WhisperModel::BaseEn => "OpenAI Whisper, English-only. Balanced speed and accuracy",
            WhisperModel::Base => "OpenAI Whisper, multilingual. Balanced speed and accuracy",
            WhisperModel::KbWhisperTiny => "By KBLab. Swedish-optimized. Fastest, less accurate",
            WhisperModel::KbWhisperBase => "By KBLab. Swedish-optimized. Balanced speed and accuracy",
            WhisperModel::KbWhisperSmall => "By KBLab. Swedish-optimized. More accurate, slower",
            WhisperModel::KbWhisperMedium => "By KBLab. Swedish-optimized. High accuracy, slow",
            WhisperModel::KbWhisperLarge => "By KBLab. Swedish-optimized. Highest accuracy, slowest",
            WhisperModel::NbWhisperTiny => "By NbAiLab. Norwegian-optimized. Fastest, less accurate",
            WhisperModel::NbWhisperBase => "By NbAiLab. Norwegian-optimized. Balanced speed and accuracy",
            WhisperModel::NbWhisperSmall => "By NbAiLab. Norwegian-optimized. More accurate, slower",
            WhisperModel::NbWhisperMedium => "By NbAiLab. Norwegian-optimized. High accuracy, slow",
            WhisperModel::NbWhisperLarge => "By NbAiLab. Norwegian-optimized. Highest accuracy, slowest",
            WhisperModel::SmallEn => "OpenAI Whisper, English-only. More accurate, slower",
            WhisperModel::Small => "OpenAI Whisper, multilingual. More accurate, slower",
            WhisperModel::MediumEn => "OpenAI Whisper, English-only. High accuracy, slow",
            WhisperModel::Medium => "OpenAI Whisper, multilingual. High accuracy, slow",
            WhisperModel::LargeV3Turbo => "OpenAI Whisper, multilingual. Highest accuracy, slowest",
        }
    }

    pub fn is_english_only(&self) -> (r: bool)
        ensures
            r == model_is_english_only_spec(*self),
    {
        matches!(
            self,
            WhisperModel::TinyEn | WhisperModel::BaseEn | WhisperModel::SmallEn
                | WhisperModel::MediumEn
        )
    }

    pub fn is_swedish_optimized(&self) -> (r: bool)
        ensures
            r == model_is_swedish_optimized_spec(*self),
    {
        matches!(
            self,
            WhisperModel::KbWhisperTiny | WhisperModel::KbWhisperBase
                | WhisperModel::KbWhisperSmall | WhisperModel::KbWhisperMedium
                | WhisperModel::KbWhisperLarge
        )
    }

    pub fn is_norwegian_optimized(&self) -> (r: bool)
        ensures
            r == model_is_norwegian_optimized_spec(*self),
    {
        matches!(
            self,
            WhisperModel::NbWhisperTiny | WhisperModel::NbWhisperBase
                | WhisperModel::NbWhisperSmall | WhisperModel::NbWhisperMedium
                | WhisperModel::NbWhisperLarge
        )
    }

    /// GGML model filename
    pub fn ggml_filename(&self) -> (r: &'static str)
        ensures
            r@ == model_ggml_filename_spec(*self),
    {
        match self {
            WhisperModel::TinyEn => "ggml-tiny.en.bin",
            WhisperModel::Tiny => "ggml-tiny.bin",
            WhisperModel::BaseEn => "ggml-base.en.bin",
            WhisperModel::Base => "ggml-base.bin",
            WhisperModel::KbWhisperTiny => "kb-whisper-tiny-q5_0.bin",
            WhisperModel::KbWhisperBase => "kb-whisper-base-q5_0.bin",
            WhisperModel::KbWhisperSmall => "kb-whisper-small-q5_0.bin",
            WhisperModel::KbWhisperMedium => "kb-whisper-medium-q5_0.bin",
            WhisperModel::KbWhisperLarge => "kb-whisper-large-q5_0.bin",
            WhisperModel::NbWhisperTiny => "nb-whisper-tiny-q5_0.bin",
            WhisperModel::NbWhisperBase => "nb-whisper-base-q5_0.bin",
            WhisperModel::NbWhisperSmall => "nb-whisper-small-q5_0.bin",
            WhisperModel::NbWhisperMedium => "nb-whisper-medium-q5_0.bin",
            WhisperModel::NbWhisperLarge => "nb-whisper-large-q5_0.bin",
            WhisperModel::SmallEn => "ggml-small.en.bin",
            WhisperModel::Small => "ggml-small.bin",
            WhisperModel::MediumEn => "ggml-medium.en.bin",
            WhisperModel::Medium => "ggml-medium.bin",
            WhisperModel::LargeV3Turbo => "ggml-large-v3-turbo.bin",
        }
    }

    /// Public download URL for the model file
    pub fn download_url(&self) -> (r: &'static str)
        ensures
            r@ == model_download_url_spec(*self),
    {
        match self {
            WhisperModel::TinyEn => "https://huggingface.co/ggerganov/whisper.cpp/resolve/main/ggml-tiny.en.bin",
            WhisperModel::Tiny => "https://huggingface.co/ggerganov/whisper.cpp/resolve/main/ggml-tiny.bin",
            WhisperModel::BaseEn => "https://huggingface.co/ggerganov/whisper.cpp/resolve/main/ggml-base.en.bin",
            WhisperModel::Base => "https://huggingface.co/ggerganov/whisper.cpp/resolve/main/ggml-base.bin",
            WhisperModel::KbWhisperTiny => "https://huggingface.co/KBLab/kb-whisper-tiny/resolve/main/ggml-model-q5_0.bin",
            WhisperModel::KbWhisperBase => "https://huggingface.co/KBLab/kb-whisper-base/resolve/main/ggml-model-q5_0.bin",
            WhisperModel::KbWhisperSmall => "https://huggingface.co/KBLab/kb-whisper-small/resolve/main/ggml-model-q5_0.bin",
            WhisperModel::KbWhisperMedium => "https://huggingface.co/KBLab/kb-whisper-medium/resolve/main/ggml-model-q5_0.bin",
            WhisperModel::KbWhisperLarge => "https://huggingface.co/KBLab/kb-whisper-large/resolve/main/ggml-model-q5_0.bin",
            WhisperModel::NbWhisperTiny => "https://huggingface.co/NbAiLab/nb-whisper-tiny/resolve/main/ggml-model-q5_0.bin",
            WhisperModel::NbWhisperBase => "https://huggingface.co/NbAiLab/nb-whisper-base/resolve/main/ggml-model-q5_0.bin",
            WhisperModel::NbWhisperSmall => "https://huggingface.co/NbAiLab/nb-whisper-small/resolve/main/ggml-model-q5_0.bin",
            WhisperModel::NbWhisperMedium => "https://huggingface.co/NbAiLab/nb-whisper-medium/resolve/main/ggml-model-q5_0.bin",
            WhisperModel::NbWhisperLarge => "https://huggingface.co/NbAiLab/nb-whisper-large/resolve/main/ggml-model-q5_0.bin",
            WhisperModel::SmallEn => "https://huggingface.co/ggerganov/whisper.cpp/resolve/main/ggml-small.en.bin",
            WhisperModel::Small => "https://huggingface.co/ggerganov/whisper.cpp/resolve/main/ggml-small.bin",
            WhisperModel::MediumEn => "https://huggingface.co/ggerganov/whisper.cpp/resolve/main/ggml-medium.en.bin",
            WhisperModel::Medium => "https://huggingface.co/ggerganov/whisper.cpp/resolve/main/ggml-medium.bin",
            WhisperModel::LargeV3Turbo => "https://huggingface.co/ggerganov/whisper.cpp/resolve/main/ggml-large-v3-turbo.bin",
        }
    }

    /// Approximate download size in MB
    pub fn size_mb(&self) -> (r: u32)
        ensures
            r == model_size_mb_spec(*self),
    {
        match self {
            WhisperModel::TinyEn => 75,
            WhisperModel::Tiny => 75,
            WhisperModel::BaseEn => 142,
            WhisperModel::Base => 142,
            WhisperModel::KbWhisperTiny => 40,
            WhisperModel::KbWhisperBase => 60,
            WhisperModel::KbWhisperSmall => 190,
            WhisperModel::KbWhisperMedium => 514,
            WhisperModel::KbWhisperLarge => 1031,
            WhisperModel::NbWhisperTiny => 30,
            WhisperModel::NbWhisperBase => 55,
            WhisperModel::NbWhisperSmall => 175,
            WhisperModel::NbWhisperMedium => 514,
            WhisperModel::NbWhisperLarge => 1031,
            WhisperModel::SmallEn => 466,
            WhisperModel::Small => 466,
            WhisperModel::MediumEn => 1530,
            WhisperModel::Medium => 1530,
            WhisperModel::LargeV3Turbo => 1620,
        }
    }

    /// Optimal no-speech threshold per model, in thousandths.
    ///
    /// The small English-only model aggressively classifies speech as silence
    /// at moderate thresholds, causing large content deletions, so its filter
    /// is fully disabled; every other model is robust at 0.3.
    pub fn no_speech_threshold_milli(&self) -> (r: u32)
        ensures
            r == model_no_speech_threshold_milli_spec(*self),
    {
        match self {
            WhisperModel::SmallEn => 0,
            _ => 300,
        }
    }

    /// Recommended model for a given language
    pub fn recommended(language: Language) -> (r: WhisperModel)
        ensures
            r == recommended_model_spec(language),
    {
        match language {
            Language::English => WhisperModel::BaseEn,
            Language::Swedish => WhisperModel::KbWhisperBase,
            Language::Norwegian => WhisperModel::NbWhisperBase,
            Language::Auto => WhisperModel::Base,
        }
    }

    /// Models available for a given language
    pub fn models_for_language(language: Language) -> (r: Vec<WhisperModel>)
        ensures
            r@ == models_for_language_spec(language),
    {
        match language {
            Language::English => vec![
                WhisperModel::TinyEn,
                WhisperModel::BaseEn,
                WhisperModel::SmallEn,
                WhisperModel::MediumEn,
            ],
            Language::Swedish => vec![
                WhisperModel::KbWhisperTiny,
                WhisperModel::KbWhisperBase,
                WhisperModel::KbWhisperSmall,
                WhisperModel::KbWhisperMedium,
                WhisperModel::KbWhisperLarge,
            ],
            Language::Norwegian => vec![
                WhisperModel::NbWhisperTiny,
                WhisperModel::NbWhisperBase,
                WhisperModel::NbWhisperSmall,
                WhisperModel::NbWhisperMedium,
                WhisperModel::NbWhisperLarge,
            ],
            Language::Auto => vec![
                WhisperModel::Tiny,
                WhisperModel::Base,
                WhisperModel::Small,
                WhisperModel::Medium,
                WhisperModel::LargeV3Turbo,
            ],
        }
    }
}

impl Default for WhisperModel {
    fn default() -> (r: Self)
        ensures
            r == WhisperModel::Base,
    {
        WhisperModel::Base
    }
}

/// The recommended model for a language is always one of the models offered
/// for that language.
pub proof fn lemma_recommended_model_is_among_models_for_language(language: Language)
    ensures
        models_for_language_spec(language).contains(recommended_model_spec(language)),
{
    match language {
        Language::English => {
            assert(models_for_language_spec(language)[1] == recommended_model_spec(language));
        },
        Language::Swedish => {
            assert(models_for_language_spec(language)[1] == recommended_model_spec(language));
        },
        Language::Norwegian => {
            assert(models_for_language_spec(language)[1] == recommended_model_spec(language));
        },
        Language::Auto => {
            assert(models_for_language_spec(language)[1] == recommended_model_spec(language));
        },
    }
}

/// Hotkey activation mode
#[derive(Debug, Clone, Copy, PartialEq, Eq, Structural)]
pub enum HotkeyMode {
    PushToTalk,
    Toggle,
}

pub open spec fn hotkey_mode_display_name_spec(m: HotkeyMode) -> Seq<char> {
    match m {
        HotkeyMode::PushToTalk => "Push-to-talk"@,
        HotkeyMode::Toggle => "Toggle"@,
    }
}

impl HotkeyMode {
    pub fn display_name(&self) -> (r: &'static str)
        ensures
            r@ == hotkey_mode_display_name_spec(*self),
    {
        match self {
            HotkeyMode::PushToTalk => "Push-to-talk",
            HotkeyMode::Toggle => "Toggle",
        }
    }
}

impl Default for HotkeyMode {
    fn default() -> (r: Self)
        ensures
            r == HotkeyMode::PushToTalk,
    {
        HotkeyMode::PushToTalk
    }
}

/// All user-configurable settings, persisted as JSON
#[derive(Debug, Clone)]
pub struct Settings {
    pub language: Language,
    pub whisper_model: WhisperModel,
    pub hotkey_mode: HotkeyMode,
    pub show_overlay: bool,
    pub auto_paste: bool,
    pub auto_select_model: bool,
    /// Hotkey shortcut string (e.g. "Control+Shift+Space")
    pub hotkey: String,
}

/// The default hotkey binding.
pub open spec fn default_hotkey_spec() -> Seq<char> {
    "Control+Shift+Space"@
}

pub open spec fn settings_default_spec(s: Settings) -> bool {
    &&& s.language == Language::English
    &&& s.whisper_model == WhisperModel::Base
    &&& s.hotkey_mode == HotkeyMode::PushToTalk
    &&& s.show_overlay == true
    &&& s.auto_paste == true
    &&& s.auto_select_model == true
    &&& s.hotkey@ == default_hotkey_spec()
}

impl Default for Settings {
    fn default() -> (r: Self)
        ensures
            settings_default_spec(r),
    {
        Settings {
            language: Language::default(),
            whisper_model: WhisperModel::default(),
            hotkey_mode: HotkeyMode::default(),
            show_overlay: true,
            auto_paste: true,
            auto_select_model: true,
            hotkey: String::from_str("Control+Shift+Space"),
        }
    }
}

/// The model a given settings record actually selects for inference.
pub open spec fn effective_model_spec(s: Settings) -> WhisperModel {
    if s.auto_select_model {
        recommended_model_spec(s.language)
    } else {
        s.whisper_model
    }
}

impl Settings {
    /// A field-for-field copy of this record.
    pub fn clone_fields(&self) -> (r: Settings)
        ensures
            r == *self,
    {
        Settings {
            language: self.language,
            whisper_model: self.whisper_model,
            hotkey_mode: self.hotkey_mode,
            show_overlay: self.show_overlay,
            auto_paste: self.auto_paste,
            auto_select_model: self.auto_select_model,
            hotkey: self.hotkey.clone(),
        }
    }

    /// Returns the effective model considering auto-selection
    pub fn effective_model(&self) -> (r: WhisperModel)
        ensures
            r == effective_model_spec(*self),
    {
        if self.auto_select_model {
            WhisperModel::recommended(self.language)
        } else {
            self.whisper_model
        }
    }
}

/// The effective model is always either offered for the configured language
/// or is the user's explicitly chosen model.
pub proof fn lemma_effective_model_is_offered_or_explicit(s: Settings)
    ensures
        models_for_language_spec(s.language).contains(effective_model_spec(s))
            || effective_model_spec(s) == s.whisper_model,
{
    if s.auto_select_model {
        lemma_recommended_model_is_among_models_for_language(s.language);
    }
}

} // verus!

//! Textual wire encodings of the configuration enums: the identifiers used
//! on the command line and in the settings file.

use vstd::prelude::*;
use vstd::string::StrSliceExecFns;
use vstd::string::StringExecFns;

use crate::errors::DictationError;
use crate::settings::Language;
use crate::settings::WhisperModel;
use crate::settings::HotkeyMode;
use crate::settings::recommended_model_spec;
use crate::text::str_eq;

verus! {

/// The wire code of each language, as stored in the settings file.
pub open spec fn language_code_spec(l: Language) -> Seq<char> {
    match l {
        Language::English => "en"@,
        Language::Swedish => "sv"@,
        Language::Norwegian => "no"@,
        Language::Auto => "auto"@,
    }
}

/// Which language a wire string denotes; long names are accepted too.
pub open spec fn language_from_wire_spec(s: Seq<char>) -> Option<Language> {
    if s == "en"@ || s == "english"@ {
        Some(Language::English)
    } else if s == "sv"@ || s == "swedish"@ {
        Some(Language::Swedish)
    } else if s == "no"@ || s == "norwegian"@ {
        Some(Language::Norwegian)
    } else if s == "auto"@ {
        Some(Language::Auto)
    } else {
        None
    }
}

/// The wire identifier of each model.
pub open spec fn model_id_spec(m: WhisperModel) -> Seq<char> {
    match m {
        WhisperModel::TinyEn => "tiny.en"@,
        WhisperModel::Tiny => "tiny"@,
        WhisperModel::BaseEn => "base.en"@,
        WhisperModel::Base => "base"@,
        WhisperModel::KbWhisperTiny => "kb-whisper-tiny"@,
        WhisperModel::KbWhisperBase => "kb-whisper-base"@,
        WhisperModel::KbWhisperSmall => "kb-whisper-small"@,
        WhisperModel::KbWhisperMedium => "kb-whisper-medium"@,
        WhisperModel::KbWhisperLarge => "kb-whisper-large"@,
        WhisperModel::NbWhisperTiny => "nb-whisper-tiny"@,
        WhisperModel::NbWhisperBase => "nb-whisper-base"@,
        WhisperModel::NbWhisperSmall => "nb-whisper-small"@,
        WhisperModel::NbWhisperMedium => "nb-whisper-medium"@,
        WhisperModel::NbWhisperLarge => "nb-whisper-large"@,
        WhisperModel::SmallEn => "small.en"@,
        WhisperModel::Small => "small"@,
        WhisperModel::MediumEn => "medium.en"@,
        WhisperModel::Medium => "medium"@,
        WhisperModel::LargeV3Turbo => "large-v3-turbo"@,
    }
}

/// Which model a wire identifier denotes.
pub open spec fn model_from_wire_spec(s: Seq<char>) -> Option<WhisperModel> {
    if s == "tiny.en"@ {
        Some(WhisperModel::TinyEn)
    } else if s == "tiny"@ {
        Some(WhisperModel::Tiny)
    } else if s == "base.en"@ {
        Some(WhisperModel::BaseEn)
    } else if s == "base"@ {
        Some(WhisperModel::Base)
    } else if s == "kb-whisper-tiny"@ {
        Some(WhisperModel::KbWhisperTiny)
    } else if s == "kb-whisper-base"@ {
        Some(WhisperModel::KbWhisperBase)
    } else if s == "kb-whisper-small"@ {
        Some(WhisperModel::KbWhisperSmall)
    } else if s == "kb-whisper-medium"@ {
        Some(WhisperModel::KbWhisperMedium)
    } else if s == "kb-whisper-large"@ {
        Some(WhisperModel::KbWhisperLarge)
    } else if s == "nb-whisper-tiny"@ {
        Some(WhisperModel::NbWhisperTiny)
    } else if s == "nb-whisper-base"@ {
        Some(WhisperModel::NbWhisperBase)
    } else if s == "nb-whisper-small"@ {
        Some(WhisperModel::NbWhisperSmall)
    } else if s == "nb-whisper-medium"@ {
        Some(WhisperModel::NbWhisperMedium)
    } else if s == "nb-whisper-large"@ {
        Some(WhisperModel::NbWhisperLarge)
    } else if s == "small.en"@ {
        Some(WhisperModel::SmallEn)
    } else if s == "small"@ {
        Some(WhisperModel::Small)
    } else if s == "medium.en"@ {
        Some(WhisperModel::MediumEn)
    } else if s == "medium"@ {
        Some(WhisperModel::Medium)
    } else if s == "large-v3-turbo"@ {
        Some(WhisperModel::LargeV3Turbo)
    } else {
        None
    }
}

/// The wire code of each hotkey mode.
pub open spec fn hotkey_mode_code_spec(m: HotkeyMode) -> Seq<char> {
    match m {
        HotkeyMode::PushToTalk => "push"@,
        HotkeyMode::Toggle => "toggle"@,
    }
}

/// Which hotkey mode a wire string denotes.
pub open spec fn hotkey_mode_from_wire_spec(s: Seq<char>) -> Option<HotkeyMode> {
    if s == "push"@ {
        Some(HotkeyMode::PushToTalk)
    } else if s == "toggle"@ {
        Some(HotkeyMode::Toggle)
    } else {
        None
    }
}

/// Which language a settings-file code denotes: exactly the codes that
/// `language_code` writes.
pub open spec fn language_from_code_spec(s: Seq<char>) -> Option<Language> {
    if s == "en"@ {
        Some(Language::English)
    } else if s == "sv"@ {
        Some(Language::Swedish)
    } else if s == "no"@ {
        Some(Language::Norwegian)
    } else if s == "auto"@ {
        Some(Language::Auto)
    } else {
        None
    }
}

/// The settings-file code of a language.
pub fn language_code(l: Language) -> (r: &'static str)
    ensures
        r@ == language_code_spec(l),
{
    match l {
        Language::English => "en",
        Language::Swedish => "sv",
        Language::Norwegian => "no",
        Language::Auto => "auto",
    }
}

/// Parse a settings-file language code, strictly.
pub fn language_from_code(s: &str) -> (r: Option<Language>)
    ensures
        r == language_from_code_spec(s@),
{
    if str_eq(s, "en") {
        Some(Language::English)
    } else if str_eq(s, "sv") {
        Some(Language::Swedish)
    } else if str_eq(s, "no") {
        Some(Language::Norwegian)
    } else if str_eq(s, "auto") {
        Some(Language::Auto)
    } else {
        None
    }
}

/// The settings-file code of a hotkey mode.
pub fn hotkey_mode_code(m: HotkeyMode) -> (r: &'static str)
    ensures
        r@ == hotkey_mode_code_spec(m),
{
    match m {
        HotkeyMode::PushToTalk => "push",
        HotkeyMode::Toggle => "toggle",
    }
}

/// Parse a settings-file hotkey-mode code.
pub fn hotkey_mode_from_code(s: &str) -> (r: Option<HotkeyMode>)
    ensures
        r == hotkey_mode_from_wire_spec(s@),
{
    if str_eq(s, "push") {
        Some(HotkeyMode::PushToTalk)
    } else if str_eq(s, "toggle") {
        Some(HotkeyMode::Toggle)
    } else {
        None
    }
}

/// Parse a settings-file model identifier; the identifiers coincide with
/// the command-line ones.
pub fn model_from_code(s: &str) -> (r: Option<WhisperModel>)
    ensures
        r == model_from_wire_spec(s@),
{
    match parse_model(s) {
        Ok(m) => Some(m),
        Err(_) => None,
    }
}

/// Every language's settings-file code parses back to it, strictly.
pub proof fn lemma_language_code_strict_roundtrip(l: Language)
    ensures
        language_from_code_spec(language_code_spec(l)) == Some(l),
{
    reveal_strlit("en");
    reveal_strlit("sv");
    reveal_strlit("no");
    reveal_strlit("auto");
    assert("en"@.len() == 2);
    assert("sv"@.len() == 2);
    assert("no"@.len() == 2);
    assert("auto"@.len() == 4);
    assert("en"@[0] == 'e');
    assert("sv"@[0] == 's');
    assert("no"@[0] == 'n');
    match l {
        Language::English => assert(language_code_spec(l) =~= "en"@),
        Language::Swedish => assert(language_code_spec(l) =~= "sv"@),
        Language::Norwegian => assert(language_code_spec(l) =~= "no"@),
        Language::Auto => assert(language_code_spec(l) =~= "auto"@),
    }
}

/// The message given for an unknown language string.
pub open spec fn unknown_language_message_spec(s: Seq<char>) -> Seq<char> {
    "Unknown language '"@ + s + "'. Valid: en, sv, no, auto"@
}

/// The message given for an unknown model identifier.
pub open spec fn unknown_model_message_spec(s: Seq<char>) -> Seq<char> {
    "Unknown model '"@ + s + "'. Run 'sagascript list-models' to see available models."@
}

/// Parse a language given on the command line: the two-letter codes and the
/// English long names are accepted, case-sensitively.
pub fn parse_language(s: &str) -> (r: Result<Language, DictationError>)
    ensures
        r matches Ok(l) ==> language_from_wire_spec(s@) == Some(l),
        r is Ok <==> language_from_wire_spec(s@) is Some,
        r matches Err(e) ==> e matches DictationError::SettingsError(m) && m@
            == unknown_language_message_spec(s@),
{
    if str_eq(s, "en") || str_eq(s, "english") {
        Ok(Language::English)
    } else if str_eq(s, "sv") || str_eq(s, "swedish") {
        Ok(Language::Swedish)
    } else if str_eq(s, "no") || str_eq(s, "norwegian") {
        Ok(Language::Norwegian)
    } else if str_eq(s, "auto") {
        Ok(Language::Auto)
    } else {
        Err(
            DictationError::SettingsError(
                String::from_str("Unknown language '").concat(s).concat(
                    "'. Valid: en, sv, no, auto",
                ),
            ),
        )
    }
}

/// Parse a model identifier, exactly as written by `model_id_string`.
pub fn parse_model(s: &str) -> (r: Result<WhisperModel, DictationError>)
    ensures
        r matches Ok(m) ==> model_from_wire_spec(s@) == Some(m),
        r is Ok <==> model_from_wire_spec(s@) is Some,
        r matches Err(e) ==> e matches DictationError::SettingsError(m) && m@
            == unknown_model_message_spec(s@),
{
    if str_eq(s, "tiny.en") {
        Ok(WhisperModel::TinyEn)
    } else if str_eq(s, "tiny") {
        Ok(WhisperModel::Tiny)
    } else if str_eq(s, "base.en") {
        Ok(WhisperModel::BaseEn)
    } else if str_eq(s, "base") {
        Ok(WhisperModel::Base)
    } else if str_eq(s, "kb-whisper-tiny") {
        Ok(WhisperModel::KbWhisperTiny)
    } else if str_eq(s, "kb-whisper-base") {
        Ok(WhisperModel::KbWhisperBase)
    } else if str_eq(s, "kb-whisper-small") {
        Ok(WhisperModel::KbWhisperSmall)
    } else if str_eq(s, "kb-whisper-medium") {
        Ok(WhisperModel::KbWhisperMedium)
    } else if str_eq(s, "kb-whisper-large") {
        Ok(WhisperModel::KbWhisperLarge)
    } else if str_eq(s, "nb-whisper-tiny") {
        Ok(WhisperModel::NbWhisperTiny)
    } else if str_eq(s, "nb-whisper-base") {
        Ok(WhisperModel::NbWhisperBase)
    } else if str_eq(s, "nb-whisper-small") {
        Ok(WhisperModel::NbWhisperSmall)
    } else if str_eq(s, "nb-whisper-medium") {
        Ok(WhisperModel::NbWhisperMedium)
    } else if str_eq(s, "nb-whisper-large") {
        Ok(WhisperModel::NbWhisperLarge)
    } else if str_eq(s, "small.en") {
        Ok(WhisperModel::SmallEn)
    } else if str_eq(s, "small") {
        Ok(WhisperModel::Small)
    } else if str_eq(s, "medium.en") {
        Ok(WhisperModel::MediumEn)
    } else if str_eq(s, "medium") {
        Ok(WhisperModel::Medium)
    } else if str_eq(s, "large-v3-turbo") {
        Ok(WhisperModel::LargeV3Turbo)
    } else {
        Err(
            DictationError::SettingsError(
                String::from_str("Unknown model '").concat(s).concat(
                    "'. Run 'sagascript list-models' to see available models.",
                ),
            ),
        )
    }
}

/// The wire identifier of a model.
pub fn model_id_string(model: WhisperModel) -> (r: &'static str)
    ensures
        r@ == model_id_spec(model),
{
    match model {
        WhisperModel::TinyEn => "tiny.en",
        WhisperModel::Tiny => "tiny",
        WhisperModel::BaseEn => "base.en",
        WhisperModel::Base => "base",
        WhisperModel::KbWhisperTiny => "kb-whisper-tiny",
        WhisperModel::KbWhisperBase => "kb-whisper-base",
        WhisperModel::KbWhisperSmall => "kb-whisper-small",
        WhisperModel::KbWhisperMedium => "kb-whisper-medium",
        WhisperModel::KbWhisperLarge => "kb-whisper-large",
        WhisperModel::NbWhisperTiny => "nb-whisper-tiny",
        WhisperModel::NbWhisperBase => "nb-whisper-base",
        WhisperModel::NbWhisperSmall => "nb-whisper-small",
        WhisperModel::NbWhisperMedium => "nb-whisper-medium",
        WhisperModel::NbWhisperLarge => "nb-whisper-large",
        WhisperModel::SmallEn => "small.en",
        WhisperModel::Small => "small",
        WhisperModel::MediumEn => "medium.en",
        WhisperModel::Medium => "medium",
        WhisperModel::LargeV3Turbo => "large-v3-turbo",
    }
}

/// Resolve the model to use: an explicit identifier wins, otherwise the
/// recommended model for the language.
pub fn resolve_model(model_str: Option<&str>, language: Language) -> (r: Result<
    WhisperModel,
    DictationError,
>)
    ensures
        model_str is None ==> (r matches Ok(m) && m == recommended_model_spec(language)),
        model_str matches Some(s) ==> {
            &&& (r matches Ok(m) ==> model_from_wire_spec(s@) == Some(m))
            &&& (r is Ok <==> model_from_wire_spec(s@) is Some)
        },
{
    match model_str {
        None => Ok(WhisperModel::recommended(language)),
        Some(s) => parse_model(s),
    }
}

/// Every model identifier parses back to the model it was printed from.
pub proof fn lemma_model_id_roundtrip(m: WhisperModel)
    ensures
        model_from_wire_spec(model_id_spec(m)) == Some(m),
{
    reveal_strlit("tiny.en");
    reveal_strlit("tiny");
    reveal_strlit("base.en");
    reveal_strlit("base");
    reveal_strlit("kb-whisper-tiny");
    reveal_strlit("kb-whisper-base");
    reveal_strlit("kb-whisper-small");
    reveal_strlit("kb-whisper-medium");
    reveal_strlit("kb-whisper-large");
    reveal_strlit("nb-whisper-tiny");
    reveal_strlit("nb-whisper-base");
    reveal_strlit("nb-whisper-small");
    reveal_strlit("nb-whisper-medium");
    reveal_strlit("nb-whisper-large");
    reveal_strlit("small.en");
    reveal_strlit("small");
    reveal_strlit("medium.en");
    reveal_strlit("medium");
    reveal_strlit("large-v3-turbo");
    assert("tiny.en"@.len() == 7);
    assert("tiny"@.len() == 4);
    assert("base.en"@.len() == 7);
    assert("base"@.len() == 4);
    assert("kb-whisper-tiny"@.len() == 15);
    assert("kb-whisper-base"@.len() == 15);
    assert("kb-whisper-small"@.len() == 16);
    assert("kb-whisper-medium"@.len() == 17);
    assert("kb-whisper-large"@.len() == 16);
    assert("nb-whisper-tiny"@.len() == 15);
    assert("nb-whisper-base"@.len() == 15);
    assert("nb-whisper-small"@.len() == 16);
    assert("nb-whisper-medium"@.len() == 17);
    assert("nb-whisper-large"@.len() == 16);
    assert("small.en"@.len() == 8);
    assert("small"@.len() == 5);
    assert("medium.en"@.len() == 9);
    assert("medium"@.len() == 6);
    assert("large-v3-turbo"@.len() == 14);
    assert("tiny.en"@[0] == 't');
    assert("base.en"@[0] == 'b');
    assert("tiny"@[0] == 't');
    assert("base"@[0] == 'b');
    assert("kb-whisper-tiny"@[0] == 'k');
    assert("kb-whisper-base"@[0] == 'k');
    assert("kb-whisper-small"@[0] == 'k');
    assert("kb-whisper-medium"@[0] == 'k');
    assert("kb-whisper-large"@[0] == 'k');
    assert("nb-whisper-tiny"@[0] == 'n');
    assert("nb-whisper-base"@[0] == 'n');
    assert("nb-whisper-small"@[0] == 'n');
    assert("nb-whisper-medium"@[0] == 'n');
    assert("nb-whisper-large"@[0] == 'n');
    assert("kb-whisper-tiny"@[11] == 't');
    assert("kb-whisper-base"@[11] == 'b');
    assert("kb-whisper-small"@[11] == 's');
    assert("kb-whisper-large"@[11] == 'l');
    assert("nb-whisper-tiny"@[11] == 't');
    assert("nb-whisper-base"@[11] == 'b');
    assert("nb-whisper-small"@[11] == 's');
    assert("nb-whisper-large"@[11] == 'l');
    match m {
        WhisperModel::TinyEn => assert(model_id_spec(m) =~= "tiny.en"@),
        WhisperModel::Tiny => assert(model_id_spec(m) =~= "tiny"@),
        WhisperModel::BaseEn => assert(model_id_spec(m) =~= "base.en"@),
        WhisperModel::Base => assert(model_id_spec(m) =~= "base"@),
        WhisperModel::KbWhisperTiny => assert(model_id_spec(m) =~= "kb-whisper-tiny"@),
        WhisperModel::KbWhisperBase => assert(model_id_spec(m) =~= "kb-whisper-base"@),
        WhisperModel::KbWhisperSmall => assert(model_id_spec(m) =~= "kb-whisper-small"@),
        WhisperModel::KbWhisperMedium => assert(model_id_spec(m) =~= "kb-whisper-medium"@),
        WhisperModel::KbWhisperLarge => assert(model_id_spec(m) =~= "kb-whisper-large"@),
        WhisperModel::NbWhisperTiny => assert(model_id_spec(m) =~= "nb-whisper-tiny"@),
        WhisperModel::NbWhisperBase => assert(model_id_spec(m) =~= "nb-whisper-base"@),
        WhisperModel::NbWhisperSmall => assert(model_id_spec(m) =~= "nb-whisper-small"@),
        WhisperModel::NbWhisperMedium => assert(model_id_spec(m) =~= "nb-whisper-medium"@),
        WhisperModel::NbWhisperLarge => assert(model_id_spec(m) =~= "nb-whisper-large"@),
        WhisperModel::SmallEn => assert(model_id_spec(m) =~= "small.en"@),
        WhisperModel::Small => assert(model_id_spec(m) =~= "small"@),
        WhisperModel::MediumEn => assert(model_id_spec(m) =~= "medium.en"@),
        WhisperModel::Medium => assert(model_id_spec(m) =~= "medium"@),
        WhisperModel::LargeV3Turbo => assert(model_id_spec(m) =~= "large-v3-turbo"@),
    }
}

/// Every language code parses back to the language it encodes.
pub proof fn lemma_language_code_roundtrip(l: Language)
    ensures
        language_from_wire_spec(language_code_spec(l)) == Some(l),
{
    reveal_strlit("en");
    reveal_strlit("english");
    reveal_strlit("sv");
    reveal_strlit("swedish");
    reveal_strlit("no");
    reveal_strlit("norwegian");
    reveal_strlit("auto");
    assert("en"@.len() == 2);
    assert("english"@.len() == 7);
    assert("sv"@.len() == 2);
    assert("swedish"@.len() == 7);
    assert("no"@.len() == 2);
    assert("norwegian"@.len() == 9);
    assert("auto"@.len() == 4);
    assert("en"@[0] == 'e');
    assert("sv"@[0] == 's');
    assert("no"@[0] == 'n');
    assert("english"@[0] == 'e');
    assert("swedish"@[0] == 's');
    match l {
        Language::English => assert(language_code_spec(l) =~= "en"@),
        Language::Swedish => assert(language_code_spec(l) =~= "sv"@),
        Language::Norwegian => assert(language_code_spec(l) =~= "no"@),
        Language::Auto => assert(language_code_spec(l) =~= "auto"@),
    }
}

/// Every hotkey-mode code parses back to the mode it encodes.
pub proof fn lemma_hotkey_mode_code_roundtrip(m: HotkeyMode)
    ensures
        hotkey_mode_from_wire_spec(hotkey_mode_code_spec(m)) == Some(m),
{
    reveal_strlit("push");
    reveal_strlit("toggle");
    match m {
        HotkeyMode::PushToTalk => assert(hotkey_mode_code_spec(m) =~= "push"@),
        HotkeyMode::Toggle => assert(hotkey_mode_code_spec(m) =~= "toggle"@),
    }
}

} // verus!

use sagascript::ids::model_id_string;
use sagascript::ids::parse_language;
use sagascript::ids::parse_model;
use sagascript::ids::resolve_model;
use sagascript::settings::Language;
use sagascript::settings::WhisperModel;

// -- parse_language --

#[test]
fn parse_language_valid_codes() {
    assert_eq!(parse_language("en").unwrap(), Language::English);
    assert_eq!(parse_language("sv").unwrap(), Language::Swedish);
    assert_eq!(parse_language("no").unwrap(), Language::Norwegian);
    assert_eq!(parse_language("auto").unwrap(), Language::Auto);
}

#[test]
fn parse_language_long_names() {
    assert_eq!(parse_language("english").unwrap(), Language::English);
    assert_eq!(parse_language("swedish").unwrap(), Language::Swedish);
    assert_eq!(parse_language("norwegian").unwrap(), Language::Norwegian);
}

#[test]
fn parse_language_invalid() {
    assert!(parse_language("de").is_err());
    assert!(parse_language("").is_err());
    assert!(parse_language("ENGLISH").is_err()); // case-sensitive
}

#[test]
fn parse_language_error_message() {
    let err = parse_language("fr").unwrap_err();
    let msg = err.message();
    assert!(msg.contains("fr"), "error should mention input: {msg}");
    assert!(msg.contains("en"), "error should list valid options: {msg}");
}

// -- parse_model --

#[test]
fn parse_model_all_valid_ids() {
    let cases = [
        ("tiny.en", WhisperModel::TinyEn),
        ("tiny", WhisperModel::Tiny),
        ("base.en", WhisperModel::BaseEn),
        ("base", WhisperModel::Base),
        ("kb-whisper-tiny", WhisperModel::KbWhisperTiny),
        ("kb-whisper-base", WhisperModel::KbWhisperBase),
        ("kb-whisper-small", WhisperModel::KbWhisperSmall),
        ("kb-whisper-medium", WhisperModel::KbWhisperMedium),
        ("kb-whisper-large", WhisperModel::KbWhisperLarge),
        ("nb-whisper-tiny", WhisperModel::NbWhisperTiny),
        ("nb-whisper-base", WhisperModel::NbWhisperBase),
        ("nb-whisper-small", WhisperModel::NbWhisperSmall),
        ("nb-whisper-medium", WhisperModel::NbWhisperMedium),
        ("nb-whisper-large", WhisperModel::NbWhisperLarge),
        ("small.en", WhisperModel::SmallEn),
        ("small", WhisperModel::Small),
        ("medium.en", WhisperModel::MediumEn),
        ("medium", WhisperModel::Medium),
        ("large-v3-turbo", WhisperModel::LargeV3Turbo),
    ];
    for (id, expected) in cases {
        assert_eq!(parse_model(id).unwrap(), expected, "parse_model({id})");
    }
}

#[test]
fn parse_model_invalid() {
    assert!(parse_model("large-v3").is_err());
    assert!(parse_model("").is_err());
    assert!(parse_model("BASE").is_err()); // case-sensitive
}

#[test]
fn parse_model_error_message() {
    let err = parse_model("nonexistent").unwrap_err();
    let msg = err.message();
    assert!(msg.contains("nonexistent"));
    assert!(msg.contains("list-models"));
}

// -- model_id_string --

#[test]
fn model_id_string_all_variants() {
    let models = [
        (WhisperModel::TinyEn, "tiny.en"),
        (WhisperModel::Tiny, "tiny"),
        (WhisperModel::BaseEn, "base.en"),
        (WhisperModel::Base, "base"),
        (WhisperModel::KbWhisperTiny, "kb-whisper-tiny"),
        (WhisperModel::KbWhisperBase, "kb-whisper-base"),
        (WhisperModel::KbWhisperSmall, "kb-whisper-small"),
        (WhisperModel::KbWhisperMedium, "kb-whisper-medium"),
        (WhisperModel::KbWhisperLarge, "kb-whisper-large"),
        (WhisperModel::NbWhisperTiny, "nb-whisper-tiny"),
        (WhisperModel::NbWhisperBase, "nb-whisper-base"),
        (WhisperModel::NbWhisperSmall, "nb-whisper-small"),
        (WhisperModel::NbWhisperMedium, "nb-whisper-medium"),
        (WhisperModel::NbWhisperLarge, "nb-whisper-large"),
        (WhisperModel::SmallEn, "small.en"),
        (WhisperModel::Small, "small"),
        (WhisperModel::MediumEn, "medium.en"),
        (WhisperModel::Medium, "medium"),
        (WhisperModel::LargeV3Turbo, "large-v3-turbo"),
    ];
    for (model, expected) in models {
        assert_eq!(model_id_string(model), expected);
    }
}

#[test]
fn model_id_string_roundtrip_with_parse() {
    let all_models = [
        WhisperModel::TinyEn,
        WhisperModel::Tiny,
        WhisperModel::BaseEn,
        WhisperModel::Base,
        WhisperModel::KbWhisperTiny,
        WhisperModel::KbWhisperBase,
        WhisperModel::KbWhisperSmall,
        WhisperModel::KbWhisperMedium,
        WhisperModel::KbWhisperLarge,
        WhisperModel::NbWhisperTiny,
        WhisperModel::NbWhisperBase,
        WhisperModel::NbWhisperSmall,
        WhisperModel::NbWhisperMedium,
        WhisperModel::NbWhisperLarge,
        WhisperModel::SmallEn,
        WhisperModel::Small,
        WhisperModel::MediumEn,
        WhisperModel::Medium,
        WhisperModel::LargeV3Turbo,
    ];
    for model in all_models {
        let id = model_id_string(model);
        let parsed = parse_model(id).unwrap();
        assert_eq!(parsed, model, "roundtrip failed for {id}");
    }
}

// -- resolve_model --

#[test]
fn resolve_model_none_uses_recommended() {
    let result = resolve_model(None, Language::English).unwrap();
    assert_eq!(result, WhisperModel::BaseEn);

    let result = resolve_model(None, Language::Swedish).unwrap();
    assert_eq!(result, WhisperModel::KbWhisperBase);
}

#[test]
fn resolve_model_explicit_overrides() {
    let result = resolve_model(Some("tiny.en"), Language::Swedish).unwrap();
    assert_eq!(result, WhisperModel::TinyEn);
}

#[test]
fn resolve_model_invalid_string() {
    assert!(resolve_model(Some("invalid"), Language::Auto).is_err());
}

use sagascript::settings::HotkeyMode;
use sagascript::settings::Language;
use sagascript::settings::Settings;
use sagascript::settings::WhisperModel;

fn all_models() -> Vec<WhisperModel> {
    vec![
        WhisperModel::TinyEn,
        WhisperModel::Tiny,
        WhisperModel::BaseEn,
        WhisperModel::Base,
        WhisperModel::KbWhisperTiny,
        WhisperModel::KbWhisperBase,
        WhisperModel::KbWhisperSmall,
        WhisperModel::KbWhisperMedium,
        WhisperModel::KbWhisperLarge,
        WhisperModel::NbWhisperTiny,
        WhisperModel::NbWhisperBase,
        WhisperModel::NbWhisperSmall,
        WhisperModel::NbWhisperMedium,
        WhisperModel::NbWhisperLarge,
        WhisperModel::SmallEn,
        WhisperModel::Small,
        WhisperModel::MediumEn,
        WhisperModel::Medium,
        WhisperModel::LargeV3Turbo,
    ]
}

#[test]
fn manager_language_default_is_english() {
    assert_eq!(Language::default(), Language::English);
}

#[test]
fn manager_language_display_names() {
    assert_eq!(Language::English.display_name(), "English");
    assert_eq!(Language::Swedish.display_name(), "Swedish");
    assert_eq!(Language::Norwegian.display_name(), "Norwegian");
    assert_eq!(Language::Auto.display_name(), "Auto-detect");
}

#[test]
fn manager_language_whisper_codes() {
    assert_eq!(Language::English.whisper_code(), Some("en"));
    assert_eq!(Language::Swedish.whisper_code(), Some("sv"));
    assert_eq!(Language::Norwegian.whisper_code(), Some("no"));
    assert_eq!(Language::Auto.whisper_code(), None);
}

#[test]
fn manager_whisper_model_default_is_base() {
    assert_eq!(WhisperModel::default(), WhisperModel::Base);
}

#[test]
fn manager_english_only_models() {
    assert!(WhisperModel::TinyEn.is_english_only());
    assert!(WhisperModel::BaseEn.is_english_only());
    assert!(WhisperModel::SmallEn.is_english_only());
    assert!(WhisperModel::MediumEn.is_english_only());
    assert!(!WhisperModel::Tiny.is_english_only());
    assert!(!WhisperModel::Base.is_english_only());
    assert!(!WhisperModel::Small.is_english_only());
    assert!(!WhisperModel::Medium.is_english_only());
    assert!(!WhisperModel::LargeV3Turbo.is_english_only());
    assert!(!WhisperModel::KbWhisperTiny.is_english_only());
    assert!(!WhisperModel::NbWhisperBase.is_english_only());
}

#[test]
fn manager_swedish_optimized_models() {
    assert!(WhisperModel::KbWhisperTiny.is_swedish_optimized());
    assert!(WhisperModel::KbWhisperBase.is_swedish_optimized());
    assert!(WhisperModel::KbWhisperSmall.is_swedish_optimized());
    assert!(WhisperModel::KbWhisperMedium.is_swedish_optimized());
    assert!(WhisperModel::KbWhisperLarge.is_swedish_optimized());
    assert!(!WhisperModel::TinyEn.is_swedish_optimized());
    assert!(!WhisperModel::NbWhisperTiny.is_swedish_optimized());
}

#[test]
fn manager_norwegian_optimized_models() {
    assert!(WhisperModel::NbWhisperTiny.is_norwegian_optimized());
    assert!(WhisperModel::NbWhisperBase.is_norwegian_optimized());
    assert!(WhisperModel::NbWhisperSmall.is_norwegian_optimized());
    assert!(WhisperModel::NbWhisperMedium.is_norwegian_optimized());
    assert!(WhisperModel::NbWhisperLarge.is_norwegian_optimized());
    assert!(!WhisperModel::TinyEn.is_norwegian_optimized());
    assert!(!WhisperModel::KbWhisperTiny.is_norwegian_optimized());
}

#[test]
fn manager_all_models_have_ggml_filenames() {
    for m in all_models() {
        let filename = m.ggml_filename();
        assert!(filename.ends_with(".bin"), "{:?} filename: {}", m, filename);
        assert!(!filename.is_empty());
    }
}

#[test]
fn manager_all_models_have_download_urls() {
    for m in all_models() {
        let url = m.download_url();
        assert!(url.starts_with("https://huggingface.co/"), "{:?}: {}", m, url);
        assert!(url.contains(".bin"), "{:?}: {}", m, url);
    }
}

#[test]
fn manager_all_models_have_nonzero_size() {
    for m in all_models() {
        assert!(m.size_mb() > 0, "{:?} has 0 size", m);
    }
}

#[test]
fn manager_recommended_model_per_language() {
    assert_eq!(WhisperModel::recommended(Language::English), WhisperModel::BaseEn);
    assert_eq!(WhisperModel::recommended(Language::Swedish), WhisperModel::KbWhisperBase);
    assert_eq!(WhisperModel::recommended(Language::Norwegian), WhisperModel::NbWhisperBase);
    assert_eq!(WhisperModel::recommended(Language::Auto), WhisperModel::Base);
}

#[test]
fn manager_models_for_language_returns_correct_sets() {
    let en = WhisperModel::models_for_language(Language::English);
    assert_eq!(en.len(), 4);
    assert!(en.contains(&WhisperModel::TinyEn));
    assert!(en.contains(&WhisperModel::BaseEn));
    assert!(en.contains(&WhisperModel::SmallEn));
    assert!(en.contains(&WhisperModel::MediumEn));

    let sv = WhisperModel::models_for_language(Language::Swedish);
    assert_eq!(sv.len(), 5);
    assert!(sv.contains(&WhisperModel::KbWhisperTiny));
    assert!(sv.contains(&WhisperModel::KbWhisperBase));
    assert!(sv.contains(&WhisperModel::KbWhisperSmall));
    assert!(sv.contains(&WhisperModel::KbWhisperMedium));
    assert!(sv.contains(&WhisperModel::KbWhisperLarge));

    let no = WhisperModel::models_for_language(Language::Norwegian);
    assert_eq!(no.len(), 5);
    assert!(no.contains(&WhisperModel::NbWhisperTiny));
    assert!(no.contains(&WhisperModel::NbWhisperBase));
    assert!(no.contains(&WhisperModel::NbWhisperSmall));
    assert!(no.contains(&WhisperModel::NbWhisperMedium));
    assert!(no.contains(&WhisperModel::NbWhisperLarge));

    let auto = WhisperModel::models_for_language(Language::Auto);
    assert_eq!(auto.len(), 5);
    assert!(auto.contains(&WhisperModel::Tiny));
    assert!(auto.contains(&WhisperModel::Base));
    assert!(auto.contains(&WhisperModel::Small));
    assert!(auto.contains(&WhisperModel::Medium));
    assert!(auto.contains(&WhisperModel::LargeV3Turbo));
}

#[test]
fn manager_hotkey_mode_default_is_push_to_talk() {
    assert_eq!(HotkeyMode::default(), HotkeyMode::PushToTalk);
}

#[test]
fn manager_hotkey_mode_display_names() {
    assert_eq!(HotkeyMode::PushToTalk.display_name(), "Push-to-talk");
    assert_eq!(HotkeyMode::Toggle.display_name(), "Toggle");
}

#[test]
fn manager_settings_default_values() {
    let s = Settings::default();
    assert_eq!(s.language, Language::English);
    assert_eq!(s.whisper_model, WhisperModel::Base);
    assert_eq!(s.hotkey_mode, HotkeyMode::PushToTalk);
    assert!(s.show_overlay);
    assert!(s.auto_paste);
    assert!(s.auto_select_model);
    assert_eq!(s.hotkey, "Control+Shift+Space");
}

#[test]
fn manager_settings_effective_model_with_auto_select() {
    let mut s = Settings::default();
    s.auto_select_model = true;

    s.language = Language::English;
    assert_eq!(s.effective_model(), WhisperModel::BaseEn);

    s.language = Language::Swedish;
    assert_eq!(s.effective_model(), WhisperModel::KbWhisperBase);

    s.language = Language::Norwegian;
    assert_eq!(s.effective_model(), WhisperModel::NbWhisperBase);

    s.language = Language::Auto;
    assert_eq!(s.effective_model(), WhisperModel::Base);
}

#[test]
fn manager_settings_effective_model_without_auto_select() {
    let mut s = Settings::default();
    s.auto_select_model = false;
    s.whisper_model = WhisperModel::KbWhisperSmall;
    s.language = Language::English; // shouldn't matter

    assert_eq!(s.effective_model(), WhisperModel::KbWhisperSmall);
}

#[test]
fn recommended_model_is_in_models_for_language() {
    let languages = [Language::English, Language::Swedish, Language::Norwegian, Language::Auto];
    for lang in languages {
        let recommended = WhisperModel::recommended(lang);
        let models = WhisperModel::models_for_language(lang);
        assert!(
            models.contains(&recommended),
            "recommended model {:?} for {:?} is not in models_for_language: {:?}",
            recommended,
            lang,
            models
        );
    }
}

#[test]
fn no_speech_threshold_per_model() {
    assert_eq!(WhisperModel::SmallEn.no_speech_threshold_milli(), 0);
    assert_eq!(WhisperModel::BaseEn.no_speech_threshold_milli(), 300);
    assert_eq!(WhisperModel::Tiny.no_speech_threshold_milli(), 300);
    assert_eq!(WhisperModel::KbWhisperLarge.no_speech_threshold_milli(), 300);
    assert_eq!(WhisperModel::MediumEn.no_speech_threshold_milli(), 300);
}

#[test]
fn model_descriptions_nonempty() {
    for m in all_models() {
        assert!(!m.description().is_empty(), "{:?}", m);
        assert!(!m.display_name().is_empty(), "{:?}", m);
    }
}

use adufa::i18n::{
    choice_from_code, text, LanguageChoice, LanguagePreference, Locale, PreferenceRead, Text,
    SUPPORTED_LOCALES,
};

#[test]
fn language_tags_resolve_to_supported_locales_with_english_fallback() {
    assert_eq!(Locale::from_language_tag("pt-PT"), Locale::PtBr);
    assert_eq!(Locale::from_language_tag("es-MX"), Locale::Es);
    assert_eq!(Locale::from_language_tag("zh-Hans"), Locale::ZhCn);
    assert_eq!(Locale::from_language_tag("zh-TW"), Locale::En);
    assert_eq!(Locale::from_language_tag("ko-KR"), Locale::En);
}

#[test]
fn automatic_choice_uses_the_detected_system_locale() {
    let preference = LanguagePreference::load(PreferenceRead::NotFound, Locale::Ja)
        .expect("missing preference should use automatic mode");
    assert_eq!(preference.choice(), LanguageChoice::Automatic);
    assert_eq!(preference.locale(), Locale::Ja);
}

#[test]
fn manual_choice_survives_loading_a_new_preference_instance() {
    let mut first = LanguagePreference::load(PreferenceRead::NotFound, Locale::En)
        .expect("temporary preference should load");
    first.set(LanguageChoice::Manual(Locale::Fr));
    let stored = first.choice().stored_code().to_owned();

    let second = LanguagePreference::load(PreferenceRead::Stored(Some(stored)), Locale::Ja)
        .expect("saved preference should reload");
    assert_eq!(second.choice(), LanguageChoice::Manual(Locale::Fr));
    assert_eq!(second.locale(), Locale::Fr);
}

#[test]
fn unknown_persisted_language_falls_back_to_automatic() {
    let preference =
        LanguagePreference::load(PreferenceRead::Stored(Some("xx".to_owned())), Locale::It)
            .expect("unknown language should not prevent startup");
    assert_eq!(preference.choice(), LanguageChoice::Automatic);
    assert_eq!(preference.locale(), Locale::It);
    let unparsable = LanguagePreference::load(PreferenceRead::Stored(None), Locale::It)
        .expect("unparsable contents should not prevent startup");
    assert_eq!(unparsable.choice(), LanguageChoice::Automatic);
    assert_eq!(
        LanguagePreference::load(PreferenceRead::Failed("denied".to_owned()), Locale::It)
            .err()
            .as_deref(),
        Some("Adufa could not read its language preference: denied")
    );
}

#[test]
fn every_supported_locale_has_every_catalog_entry() {
    let keys = [
        Text::AudioRouter,
        Text::Listening,
        Text::FindSound,
        Text::NoApplications,
        Text::SystemDefault,
        Text::UnavailableOutput,
        Text::SystemSounds,
        Text::Application,
        Text::Settings,
        Text::Exit,
        Text::System,
        Text::OpenAtLogin,
        Text::StartAtLoginDescription,
        Text::QuickAccess,
        Text::OpenSelectorNearCursor,
        Text::AudibleAppUnderPointer,
        Text::SystemAudioSettings,
        Text::OpenWindowsMixer,
        Text::Language,
        Text::LanguageDescription,
        Text::Automatic,
        Text::ChooseLanguage,
        Text::AudioOutput,
        Text::Muted,
        Text::LocatorFailed,
        Text::DiscoveryFailed,
        Text::StartupFailed,
        Text::LanguageFailed,
        Text::WindowsMixer,
        Text::MixerOpenFailed,
        Text::RoutingFailed,
        Text::RouteChangeFailed,
        Text::CouldNotStart,
    ];
    for locale in SUPPORTED_LOCALES {
        for key in keys {
            assert!(
                !text(locale, key).trim().is_empty(),
                "{} has an empty string",
                locale.code()
            );
        }
    }
}

#[test]
fn stored_codes_are_read_without_case() {
    assert_eq!(choice_from_code("AUTO"), Some(LanguageChoice::Automatic));
    assert_eq!(choice_from_code("pt-br"), Some(LanguageChoice::Manual(Locale::PtBr)));
    assert_eq!(choice_from_code("klingon"), None);
    let preference = LanguagePreference::automatic(Locale::De);
    assert_eq!(preference.locale(), Locale::De);
    assert!(preference.automatic_label().ends_with(&format!("({})", Locale::De.display_name())));
}

#[test]
fn tray_tooltip_names_the_product_in_the_chosen_language() {
    assert_eq!(adufa::i18n::tray_tooltip(adufa::i18n::Locale::En), "Adufa — Audio router");
    assert_eq!(adufa::i18n::tray_tooltip(adufa::i18n::Locale::PtBr), "Adufa — Roteador de áudio");
}

#[test]
fn language_labels_name_the_choice_and_the_rows() {
    let automatic = LanguagePreference::automatic(Locale::Fr);
    assert_eq!(automatic.choice_label(), automatic.automatic_label());
    assert_eq!(automatic.language_row_label(0), automatic.automatic_label());
    assert_eq!(automatic.language_row_label(1), "English");
    assert_eq!(automatic.language_row_label(9), "");
    let fixed = LanguagePreference::new(LanguageChoice::Manual(Locale::De), Locale::Fr);
    assert_eq!(fixed.choice_label(), "Deutsch");
}

#[test]
fn every_locale_code_resolves_to_its_locale() {
    for locale in SUPPORTED_LOCALES {
        assert_eq!(Locale::from_language_tag(locale.code()), locale);
    }
}

#[test]
fn language_tags_resolve_as_their_normalized_form() {
    for tag in ["  PT_br ", "zh_HANS", "ZH-sg", "Es-mx\t", "zh-TW", "\u{3000}ja-JP"] {
        let normalized = tag.trim().replace('_', "-").to_ascii_lowercase();
        assert_eq!(
            Locale::from_language_tag(tag),
            Locale::from_language_tag(&normalized)
        );
    }
    assert_eq!(Locale::from_language_tag("  PT_br "), Locale::PtBr);
    assert_eq!(Locale::from_language_tag("ZH-sg"), Locale::ZhCn);
}

#[test]
fn no_catalog_text_is_blank() {
    for locale in SUPPORTED_LOCALES {
        for key in [Text::AudioRouter, Text::SystemDefault, Text::Settings, Text::CouldNotStart] {
            assert!(!text(locale, key).trim().is_empty());
        }
    }
}

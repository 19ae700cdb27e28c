//! The localization boundary of the native user interface.
//!
//! The catalog ships inside the executable. The only persisted value is the
//! user's language choice; `auto` resolves from the operating-system UI
//! language on every launch.

use vstd::prelude::*;

use crate::text::{
    ascii_lower, ascii_lower_char, chars_contain, chars_eq_text, chars_of, contains_text,
    eq_ignore_ascii_case, first_index_of, first_index_of_char, text_eq_ignore_ascii_case, trim,
    trim_chars,
};

verus! {

/// A supported interface language.
#[derive(Clone, Copy, Debug, Eq, PartialEq, Structural)]
pub enum Locale {
    En,
    PtBr,
    Es,
    Fr,
    De,
    It,
    Ja,
    ZhCn,
}

/// Every supported locale, in the order the language list shows them.
pub const SUPPORTED_LOCALES: [Locale; 8] = [
    Locale::En,
    Locale::PtBr,
    Locale::Es,
    Locale::Fr,
    Locale::De,
    Locale::It,
    Locale::Ja,
    Locale::ZhCn,
];

/// The BCP 47 code of a locale.
pub open spec fn locale_code(l: Locale) -> Seq<char> {
    match l {
        Locale::En => "en"@,
        Locale::PtBr => "pt-BR"@,
        Locale::Es => "es"@,
        Locale::Fr => "fr"@,
        Locale::De => "de"@,
        Locale::It => "it"@,
        Locale::Ja => "ja"@,
        Locale::ZhCn => "zh-CN"@,
    }
}

/// The autonym of a locale.
pub open spec fn locale_display_name(l: Locale) -> Seq<char> {
    match l {
        Locale::En => "English"@,
        Locale::PtBr => "Português (Brasil)"@,
        Locale::Es => "Español"@,
        Locale::Fr => "Français"@,
        Locale::De => "Deutsch"@,
        Locale::It => "Italiano"@,
        Locale::Ja => "日本語"@,
        Locale::ZhCn => "简体中文"@,
    }
}

/// `c` with `_` spelled `-` and ASCII letters in lowercase.
pub open spec fn normalize_tag_char(c: char) -> char {
    if c == '_' {
        '-'
    } else {
        ascii_lower(c)
    }
}

/// A language tag trimmed, with `-` separators and in ASCII lowercase.
pub open spec fn normalized_tag(tag: Seq<char>) -> Seq<char> {
    trim(tag).map_values(|c: char| normalize_tag_char(c))
}

/// The supported locale for a language tag; English when none matches.
pub open spec fn locale_for_tag(tag: Seq<char>) -> Locale {
    let n = normalized_tag(tag);
    let language = n.take(first_index_of(n, '-'));
    if language == "pt"@ {
        Locale::PtBr
    } else if language == "es"@ {
        Locale::Es
    } else if language == "fr"@ {
        Locale::Fr
    } else if language == "de"@ {
        Locale::De
    } else if language == "it"@ {
        Locale::It
    } else if language == "ja"@ {
        Locale::Ja
    } else if language == "zh"@ && (n == "zh-cn"@ || n == "zh-sg"@ || contains_text(n, "hans"@)) {
        Locale::ZhCn
    } else {
        Locale::En
    }
}

impl Locale {
    /// The BCP 47 code of this locale.
    pub fn code(self) -> (s: &'static str)
        ensures
            s@ == locale_code(self),
    {
        match self {
            Locale::En => "en",
            Locale::PtBr => "pt-BR",
            Locale::Es => "es",
            Locale::Fr => "fr",
            Locale::De => "de",
            Locale::It => "it",
            Locale::Ja => "ja",
            Locale::ZhCn => "zh-CN",
        }
    }

    /// The locale's own name for itself, so that the language list stays
    /// usable whatever language is currently selected.
    pub fn display_name(self) -> (s: &'static str)
        ensures
            s@ == locale_display_name(self),
    {
        match self {
            Locale::En => "English",
            Locale::PtBr => "Português (Brasil)",
            Locale::Es => "Español",
            Locale::Fr => "Français",
            Locale::De => "Deutsch",
            Locale::It => "Italiano",
            Locale::Ja => "日本語",
            Locale::ZhCn => "简体中文",
        }
    }

    /// Resolves a language tag such as `pt-PT` or `zh_Hans` to a supported
    /// locale, falling back to English.
    pub fn from_language_tag(tag: &str) -> (l: Locale)
        ensures
            l == locale_for_tag(tag@),
    {
        let trimmed = trim_chars(tag);
        let mut normalized: Vec<char> = Vec::new();
        let mut i: usize = 0;
        while i < trimmed.len()
            invariant
                i <= trimmed@.len(),
                normalized@ == trimmed@.take(i as int).map_values(|c: char| normalize_tag_char(c)),
            decreases trimmed@.len() - i,
        {
            let c = trimmed[i];
            let d = if c == '_' {
                '-'
            } else {
                ascii_lower_char(c)
            };
            normalized.push(d);
            i = i + 1;
            assert(trimmed@.take(i as int) =~= trimmed@.take(i - 1).push(c));
            assert(normalized@ =~= trimmed@.take(i as int).map_values(|c: char| normalize_tag_char(c)));
        }
        assert(trimmed@.take(i as int) =~= trimmed@);
        let end = first_index_of_char(&normalized, '-');
        let mut language: Vec<char> = Vec::new();
        let mut k: usize = 0;
        while k < end
            invariant
                end <= normalized@.len(),
                k <= end,
                language@ == normalized@.take(k as int),
            decreases end - k,
        {
            language.push(normalized[k]);
            k = k + 1;
            assert(language@ =~= normalized@.take(k as int));
        }
        if chars_eq_text(&language, "pt") {
            Locale::PtBr
        } else if chars_eq_text(&language, "es") {
            Locale::Es
        } else if chars_eq_text(&language, "fr") {
            Locale::Fr
        } else if chars_eq_text(&language, "de") {
            Locale::De
        } else if chars_eq_text(&language, "it") {
            Locale::It
        } else if chars_eq_text(&language, "ja") {
            Locale::Ja
        } else if chars_eq_text(&language, "zh") && (chars_eq_text(&normalized, "zh-cn")
            || chars_eq_text(&normalized, "zh-sg") || chars_contain(&normalized, &chars_of("hans"))) {
            Locale::ZhCn
        } else {
            Locale::En
        }
    }
}

/// Whether the interface follows the operating system or a fixed language.
#[derive(Clone, Copy, Debug, Eq, PartialEq, Structural)]
pub enum LanguageChoice {
    Automatic,
    Manual(Locale),
}

impl Default for LanguageChoice {
    fn default() -> (r: Self)
        ensures
            r == LanguageChoice::Automatic,
    {
        LanguageChoice::Automatic
    }
}

/// The row of a choice in the language list.
pub open spec fn choice_index(c: LanguageChoice) -> int {
    match c {
        LanguageChoice::Automatic => 0,
        LanguageChoice::Manual(Locale::En) => 1,
        LanguageChoice::Manual(Locale::PtBr) => 2,
        LanguageChoice::Manual(Locale::Es) => 3,
        LanguageChoice::Manual(Locale::Fr) => 4,
        LanguageChoice::Manual(Locale::De) => 5,
        LanguageChoice::Manual(Locale::It) => 6,
        LanguageChoice::Manual(Locale::Ja) => 7,
        LanguageChoice::Manual(Locale::ZhCn) => 8,
    }
}

/// The choice a persisted language code denotes, if any.
pub open spec fn choice_for_code(value: Seq<char>) -> Option<LanguageChoice> {
    if eq_ignore_ascii_case(value, "auto"@) {
        Some(LanguageChoice::Automatic)
    } else if eq_ignore_ascii_case(value, "en"@) {
        Some(LanguageChoice::Manual(Locale::En))
    } else if eq_ignore_ascii_case(value, "pt-BR"@) {
        Some(LanguageChoice::Manual(Locale::PtBr))
    } else if eq_ignore_ascii_case(value, "es"@) {
        Some(LanguageChoice::Manual(Locale::Es))
    } else if eq_ignore_ascii_case(value, "fr"@) {
        Some(LanguageChoice::Manual(Locale::Fr))
    } else if eq_ignore_ascii_case(value, "de"@) {
        Some(LanguageChoice::Manual(Locale::De))
    } else if eq_ignore_ascii_case(value, "it"@) {
        Some(LanguageChoice::Manual(Locale::It))
    } else if eq_ignore_ascii_case(value, "ja"@) {
        Some(LanguageChoice::Manual(Locale::Ja))
    } else if eq_ignore_ascii_case(value, "zh-CN"@) {
        Some(LanguageChoice::Manual(Locale::ZhCn))
    } else {
        None
    }
}

/// The code under which a choice is persisted.
pub open spec fn stored_code_of(c: LanguageChoice) -> Seq<char> {
    match c {
        LanguageChoice::Automatic => "auto"@,
        LanguageChoice::Manual(l) => locale_code(l),
    }
}

impl LanguageChoice {
    /// The row of this choice in the language list; row zero is Automatic.
    pub fn list_index(self) -> (i: usize)
        ensures
            i == choice_index(self),
    {
        match self {
            LanguageChoice::Automatic => 0,
            LanguageChoice::Manual(Locale::En) => 1,
            LanguageChoice::Manual(Locale::PtBr) => 2,
            LanguageChoice::Manual(Locale::Es) => 3,
            LanguageChoice::Manual(Locale::Fr) => 4,
            LanguageChoice::Manual(Locale::De) => 5,
            LanguageChoice::Manual(Locale::It) => 6,
            LanguageChoice::Manual(Locale::Ja) => 7,
            LanguageChoice::Manual(Locale::ZhCn) => 8,
        }
    }

    /// The choice shown at a row of the language list.
    pub fn from_list_index(index: usize) -> (c: Option<Self>)
        ensures
            match c {
                Some(choice) => choice_index(choice) == index,
                None => index >= 9,
            },
    {
        match index {
            0 => Some(LanguageChoice::Automatic),
            1 => Some(LanguageChoice::Manual(Locale::En)),
            2 => Some(LanguageChoice::Manual(Locale::PtBr)),
            3 => Some(LanguageChoice::Manual(Locale::Es)),
            4 => Some(LanguageChoice::Manual(Locale::Fr)),
            5 => Some(LanguageChoice::Manual(Locale::De)),
            6 => Some(LanguageChoice::Manual(Locale::It)),
            7 => Some(LanguageChoice::Manual(Locale::Ja)),
            8 => Some(LanguageChoice::Manual(Locale::ZhCn)),
            _ => None,
        }
    }

    /// The code under which this choice is persisted.
    pub fn stored_code(self) -> (s: &'static str)
        ensures
            s@ == stored_code_of(self),
    {
        match self {
            LanguageChoice::Automatic => "auto",
            LanguageChoice::Manual(locale) => locale.code(),
        }
    }
}

/// Reads a persisted language code; codes are compared without ASCII case.
pub fn choice_from_code(value: &str) -> (c: Option<LanguageChoice>)
    ensures
        c == choice_for_code(value@),
{
    if text_eq_ignore_ascii_case(value, "auto") {
        return Some(LanguageChoice::Automatic);
    }
    let mut i: usize = 0;
    while i < 8
        invariant
            i <= 8,
            !eq_ignore_ascii_case(value@, "auto"@),
            forall|k: int| 0 <= k < i ==> !eq_ignore_ascii_case(value@, locale_code(#[trigger] SUPPORTED_LOCALES@[k])),
        decreases 8 - i,
    {
        let locale = SUPPORTED_LOCALES[i];
        if text_eq_ignore_ascii_case(locale.code(), value) {
            proof {
                lemma_eq_ignore_case_symmetric(locale_code(locale), value@);
                assert forall|k: int| 0 <= k < i implies locale_code(#[trigger] SUPPORTED_LOCALES@[k]) != locale_code(locale) by {
                    lemma_eq_ignore_case_symmetric(locale_code(locale), value@);
                    if locale_code(SUPPORTED_LOCALES@[k]) == locale_code(locale) {
                    }
                }
            }
            return Some(LanguageChoice::Manual(locale));
        }
        proof {
            lemma_eq_ignore_case_symmetric(locale_code(locale), value@);
        }
        i = i + 1;
    }
    None
}

proof fn lemma_eq_ignore_case_symmetric(a: Seq<char>, b: Seq<char>)
    ensures
        eq_ignore_ascii_case(a, b) == eq_ignore_ascii_case(b, a),
{
}

/// Every row of the language list maps back to the choice it shows.
pub proof fn law_language_list_round_trip(c: LanguageChoice)
    ensures
        0 <= choice_index(c) < 9,
        forall|d: LanguageChoice| choice_index(d) == choice_index(c) ==> d == c,
{
}

/// A persisted choice reads back as the same choice.
pub proof fn law_stored_choice_round_trip(c: LanguageChoice)
    ensures
        choice_for_code(stored_code_of(c)) == Some(c),
{
    reveal_strlit("auto");
    reveal_strlit("en");
    reveal_strlit("pt-BR");
    reveal_strlit("es");
    reveal_strlit("fr");
    reveal_strlit("de");
    reveal_strlit("it");
    reveal_strlit("ja");
    reveal_strlit("zh-CN");
    let v = stored_code_of(c);
    assert(eq_ignore_ascii_case(v, v));
    match c {
        LanguageChoice::Automatic => {},
        LanguageChoice::Manual(l) => {
            assert(!eq_ignore_ascii_case(v, "auto"@)) by {
                if v.len() == 4 {
                    assert(ascii_lower(v[0]) != ascii_lower("auto"@[0]));
                }
            }
            match l {
                Locale::En => {},
                Locale::PtBr => {
                    assert(!eq_ignore_ascii_case(v, "en"@));
                },
                Locale::Es => {
                    assert(ascii_lower(v[1]) != ascii_lower("en"@[1]));
                    assert(!eq_ignore_ascii_case(v, "en"@));
                },
                Locale::Fr => {
                    assert(ascii_lower(v[0]) != ascii_lower("en"@[0]));
                    assert(ascii_lower(v[0]) != ascii_lower("es"@[0]));
                },
                Locale::De => {
                    assert(ascii_lower(v[0]) != ascii_lower("en"@[0]));
                    assert(ascii_lower(v[0]) != ascii_lower("es"@[0]));
                    assert(ascii_lower(v[0]) != ascii_lower("fr"@[0]));
                },
                Locale::It => {
                    assert(ascii_lower(v[0]) != ascii_lower("en"@[0]));
                    assert(ascii_lower(v[0]) != ascii_lower("es"@[0]));
                    assert(ascii_lower(v[0]) != ascii_lower("fr"@[0]));
                    assert(ascii_lower(v[0]) != ascii_lower("de"@[0]));
                },
                Locale::Ja => {
                    assert(ascii_lower(v[0]) != ascii_lower("en"@[0]));
                    assert(ascii_lower(v[0]) != ascii_lower("es"@[0]));
                    assert(ascii_lower(v[0]) != ascii_lower("fr"@[0]));
                    assert(ascii_lower(v[0]) != ascii_lower("de"@[0]));
                    assert(ascii_lower(v[0]) != ascii_lower("it"@[0]));
                },
                Locale::ZhCn => {
                    assert(!eq_ignore_ascii_case(v, "pt-BR"@)) by {
                        assert(ascii_lower(v[0]) != ascii_lower("pt-BR"@[0]));
                    }
                },
            }
        },
    }
}

/// What reading the stored language preference gave.
#[derive(Clone, Debug, PartialEq, Eq)]
pub enum PreferenceRead {
    /// The file was read; the language code it stores, `None` when its
    /// contents could not be parsed.
    Stored(Option<String>),
    /// The file does not exist.
    NotFound,
    /// The file could not be read; the text describes why.
    Failed(String),
}

/// The user's language choice together with the detected system locale.
pub struct LanguagePreference {
    choice: LanguageChoice,
    system_locale: Locale,
}

impl LanguagePreference {
    /// A preference with the given choice on a system whose UI locale is `system_locale`.
    pub fn new(choice: LanguageChoice, system_locale: Locale) -> (p: Self)
        ensures
            p.choice() == choice,
            p.system_locale() == system_locale,
    {
        LanguagePreference { choice, system_locale }
    }

    /// Opens the stored preference: a stored code that names a choice is
    /// used, anything else (no file, unreadable contents, an unknown code)
    /// falls back to following the system; a failed read is reported.
    pub fn load(read: PreferenceRead, system_locale: Locale) -> (r: Result<Self, String>)
        ensures
            read matches PreferenceRead::Failed(why) ==> (r matches Err(m) && m@
                == "Adufa could not read its language preference: "@ + why@),
            !(read is Failed) ==> (r matches Ok(p) && p.system_locale() == system_locale
                && p.choice() == (match read {
                PreferenceRead::Stored(Some(code)) => match choice_for_code(code@) {
                    Some(c) => c,
                    None => LanguageChoice::Automatic,
                },
                _ => LanguageChoice::Automatic,
            })),
    {
        let choice = match read {
            PreferenceRead::Stored(Some(code)) => match choice_from_code(code.as_str()) {
                Some(c) => c,
                None => LanguageChoice::Automatic,
            },
            PreferenceRead::Stored(None) | PreferenceRead::NotFound => LanguageChoice::Automatic,
            PreferenceRead::Failed(why) => {
                let s = String::from_str("Adufa could not read its language preference: ");
                return Err(s.concat(why.as_str()));
            },
        };
        Ok(LanguagePreference { choice, system_locale })
    }

    /// A preference that follows the system locale.
    pub fn automatic(system_locale: Locale) -> (p: Self)
        ensures
            p.choice() == LanguageChoice::Automatic,
            p.system_locale() == system_locale,
    {
        LanguagePreference { choice: LanguageChoice::Automatic, system_locale }
    }

    pub closed spec fn spec_choice(&self) -> LanguageChoice {
        self.choice
    }

    pub closed spec fn system_locale(&self) -> Locale {
        self.system_locale
    }

    /// The current choice.
    #[verifier::when_used_as_spec(spec_choice)]
    pub fn choice(&self) -> (c: LanguageChoice)
        ensures
            c == self.spec_choice(),
    {
        self.choice
    }

    /// The locale the interface uses under this preference.
    pub open spec fn spec_locale(&self) -> Locale {
        match self.choice() {
            LanguageChoice::Automatic => self.system_locale(),
            LanguageChoice::Manual(locale) => locale,
        }
    }

    /// The locale the interface uses now.
    #[verifier::when_used_as_spec(spec_locale)]
    pub fn locale(&self) -> (l: Locale)
        ensures
            l == self.spec_locale(),
    {
        match self.choice {
            LanguageChoice::Automatic => self.system_locale,
            LanguageChoice::Manual(locale) => locale,
        }
    }

    /// Records a new choice.
    pub fn set(&mut self, choice: LanguageChoice)
        ensures
            final(self).choice() == choice,
            final(self).system_locale() == old(self).system_locale(),
    {
        self.choice = choice;
    }

    /// The label of the Automatic row: "Automatic (<system language>)" in the
    /// current interface language.
    pub fn automatic_label(&self) -> (s: String)
        ensures
            s@ == text_of(self.locale(), Text::Automatic) + " ("@ + locale_display_name(self.system_locale()) + ")"@,
    {
        let label = String::from_str(text(self.locale(), Text::Automatic));
        let label = label.concat(" (");
        let label = label.concat(self.system_locale.display_name());
        label.concat(")")
    }
}

impl LanguagePreference {
    /// The label of a choice in the current interface language: the
    /// Automatic row names the system language, a fixed language its own name.
    pub open spec fn choice_label_of(&self, c: LanguageChoice) -> Seq<char> {
        match c {
            LanguageChoice::Automatic => text_of(self.locale(), Text::Automatic) + " ("@
                + locale_display_name(self.system_locale()) + ")"@,
            LanguageChoice::Manual(locale) => locale_display_name(locale),
        }
    }

    /// The label of the current choice, shown on the settings page.
    pub fn choice_label(&self) -> (s: String)
        ensures
            s@ == self.choice_label_of(self.choice()),
    {
        match self.choice {
            LanguageChoice::Automatic => self.automatic_label(),
            LanguageChoice::Manual(locale) => String::from_str(locale.display_name()),
        }
    }

    /// The label of row `index` of the language list; empty past the last row.
    pub fn language_row_label(&self, index: usize) -> (s: String)
        ensures
            index < 9 ==> exists|c: LanguageChoice| choice_index(c) == index && s@ == self.choice_label_of(c),
            index >= 9 ==> s@.len() == 0,
    {
        match LanguageChoice::from_list_index(index) {
            Some(LanguageChoice::Automatic) => self.automatic_label(),
            Some(LanguageChoice::Manual(locale)) => String::from_str(locale.display_name()),
            None => String::new(),
        }
    }
}

/// A catalog entry.
#[derive(Clone, Copy, Debug, Eq, PartialEq, Structural)]
pub enum Text {
    AudioRouter,
    Listening,
    FindSound,
    NoApplications,
    SystemDefault,
    UnavailableOutput,
    SystemSounds,
    Application,
    Settings,
    Exit,
    System,
    OpenAtLogin,
    StartAtLoginDescription,
    QuickAccess,
    OpenSelectorNearCursor,
    AudibleAppUnderPointer,
    SystemAudioSettings,
    OpenWindowsMixer,
    Language,
    LanguageDescription,
    Automatic,
    ChooseLanguage,
    AudioOutput,
    Muted,
    LocatorFailed,
    DiscoveryFailed,
    StartupFailed,
    LanguageFailed,
    WindowsMixer,
    MixerOpenFailed,
    RoutingFailed,
    RouteChangeFailed,
    CouldNotStart,
}

/// The catalog: the text of `key` in `locale`.
pub open spec fn text_of(locale: Locale, key: Text) -> Seq<char> {
    match locale {
        Locale::En => english_text(key),
        Locale::PtBr => portuguese_text(key),
        Locale::Es => spanish_text(key),
        Locale::Fr => french_text(key),
        Locale::De => german_text(key),
        Locale::It => italian_text(key),
        Locale::Ja => japanese_text(key),
        Locale::ZhCn => simplified_chinese_text(key),
    }
}

/// The tray icon's tooltip in `locale`: the product name and what it is.
pub fn tray_tooltip(locale: Locale) -> (s: String)
    ensures
        s@ == "Adufa — "@ + text_of(locale, Text::AudioRouter),
{
    let s = String::from_str("Adufa — ");
    s.concat(text(locale, Text::AudioRouter))
}

/// The text of `key` in `locale`.
pub fn text(locale: Locale, key: Text) -> (s: &'static str)
    ensures
        s@ == text_of(locale, key),
{
    match locale {
        Locale::En => english(key),
        Locale::PtBr => portuguese(key),
        Locale::Es => spanish(key),
        Locale::Fr => french(key),
        Locale::De => german(key),
        Locale::It => italian(key),
        Locale::Ja => japanese(key),
        Locale::ZhCn => simplified_chinese(key),
    }
}

pub open spec fn english_text(key: Text) -> Seq<char> {
    match key {
        Text::AudioRouter => "Audio router"@,
        Text::Listening => "Listening"@,
        Text::FindSound => "Find sound"@,
        Text::NoApplications => "No applications are playing audio"@,
        Text::SystemDefault => "System default"@,
        Text::UnavailableOutput => "Unavailable output"@,
        Text::SystemSounds => "System sounds"@,
        Text::Application => "Application"@,
        Text::Settings => "Settings"@,
        Text::Exit => "Exit"@,
        Text::System => "System"@,
        Text::OpenAtLogin => "Open at login"@,
        Text::StartAtLoginDescription => "Start Adufa when you sign in"@,
        Text::QuickAccess => "Quick access"@,
        Text::OpenSelectorNearCursor => "Open selector near the cursor"@,
        Text::AudibleAppUnderPointer => "Targets the audible app under the pointer"@,
        Text::SystemAudioSettings => "System audio settings"@,
        Text::OpenWindowsMixer => "Open Windows volume mixer"@,
        Text::Language => "Language"@,
        Text::LanguageDescription => "Choose the interface language"@,
        Text::Automatic => "Automatic"@,
        Text::ChooseLanguage => "Choose language"@,
        Text::AudioOutput => "Audio output"@,
        Text::Muted => "Muted"@,
        Text::LocatorFailed => "Sound Locator failed"@,
        Text::DiscoveryFailed => "Audio discovery failed"@,
        Text::StartupFailed => "Startup preference failed"@,
        Text::LanguageFailed => "Language preference failed"@,
        Text::WindowsMixer => "Windows volume mixer"@,
        Text::MixerOpenFailed => "Windows could not open the application volume settings."@,
        Text::RoutingFailed => "Audio routing failed"@,
        Text::RouteChangeFailed => "Adufa could not change this application's output."@,
        Text::CouldNotStart => "Adufa could not start."@,
    }
}

fn english(key: Text) -> (s: &'static str)
    ensures
        s@ == english_text(key),
{
    match key {
        Text::AudioRouter => "Audio router",
        Text::Listening => "Listening",
        Text::FindSound => "Find sound",
        Text::NoApplications => "No applications are playing audio",
        Text::SystemDefault => "System default",
        Text::UnavailableOutput => "Unavailable output",
        Text::SystemSounds => "System sounds",
        Text::Application => "Application",
        Text::Settings => "Settings",
        Text::Exit => "Exit",
        Text::System => "System",
        Text::OpenAtLogin => "Open at login",
        Text::StartAtLoginDescription => "Start Adufa when you sign in",
        Text::QuickAccess => "Quick access",
        Text::OpenSelectorNearCursor => "Open selector near the cursor",
        Text::AudibleAppUnderPointer => "Targets the audible app under the pointer",
        Text::SystemAudioSettings => "System audio settings",
        Text::OpenWindowsMixer => "Open Windows volume mixer",
        Text::Language => "Language",
        Text::LanguageDescription => "Choose the interface language",
        Text::Automatic => "Automatic",
        Text::ChooseLanguage => "Choose language",
        Text::AudioOutput => "Audio output",
        Text::Muted => "Muted",
        Text::LocatorFailed => "Sound Locator failed",
        Text::DiscoveryFailed => "Audio discovery failed",
        Text::StartupFailed => "Startup preference failed",
        Text::LanguageFailed => "Language preference failed",
        Text::WindowsMixer => "Windows volume mixer",
        Text::MixerOpenFailed => "Windows could not open the application volume settings.",
        Text::RoutingFailed => "Audio routing failed",
        Text::RouteChangeFailed => "Adufa could not change this application's output.",
        Text::CouldNotStart => "Adufa could not start.",
    }
}

pub open spec fn portuguese_text(key: Text) -> Seq<char> {
    match key {
        Text::AudioRouter => "Roteador de áudio"@,
        Text::Listening => "Ouvindo"@,
        Text::FindSound => "Localizar som"@,
        Text::NoApplications => "Nenhum aplicativo está reproduzindo áudio"@,
        Text::SystemDefault => "Padrão do sistema"@,
        Text::UnavailableOutput => "Saída indisponível"@,
        Text::SystemSounds => "Sons do sistema"@,
        Text::Application => "Aplicativo"@,
        Text::Settings => "Configurações"@,
        Text::Exit => "Sair"@,
        Text::System => "Sistema"@,
        Text::OpenAtLogin => "Abrir ao entrar"@,
        Text::StartAtLoginDescription => "Iniciar o Adufa ao entrar no sistema"@,
        Text::QuickAccess => "Acesso rápido"@,
        Text::OpenSelectorNearCursor => "Abrir seletor perto do cursor"@,
        Text::AudibleAppUnderPointer => "Encontra o app com áudio sob o ponteiro"@,
        Text::SystemAudioSettings => "Configurações de áudio do sistema"@,
        Text::OpenWindowsMixer => "Abrir o mixer de volume do Windows"@,
        Text::Language => "Idioma"@,
        Text::LanguageDescription => "Escolher o idioma da interface"@,
        Text::Automatic => "Automático"@,
        Text::ChooseLanguage => "Escolher idioma"@,
        Text::AudioOutput => "Saída de áudio"@,
        Text::Muted => "Sem som"@,
        Text::LocatorFailed => "Falha ao localizar o som"@,
        Text::DiscoveryFailed => "Falha ao detectar o áudio"@,
        Text::StartupFailed => "Falha na preferência de inicialização"@,
        Text::LanguageFailed => "Falha na preferência de idioma"@,
        Text::WindowsMixer => "Mixer de volume do Windows"@,
        Text::MixerOpenFailed => "O Windows não conseguiu abrir as configurações de volume dos aplicativos."@,
        Text::RoutingFailed => "Falha ao rotear o áudio"@,
        Text::RouteChangeFailed => "O Adufa não conseguiu alterar a saída deste aplicativo."@,
        Text::CouldNotStart => "O Adufa não conseguiu iniciar."@,
    }
}

fn portuguese(key: Text) -> (s: &'static str)
    ensures
        s@ == portuguese_text(key),
{
    match key {
        Text::AudioRouter => "Roteador de áudio",
        Text::Listening => "Ouvindo",
        Text::FindSound => "Localizar som",
        Text::NoApplications => "Nenhum aplicativo está reproduzindo áudio",
        Text::SystemDefault => "Padrão do sistema",
        Text::UnavailableOutput => "Saída indisponível",
        Text::SystemSounds => "Sons do sistema",
        Text::Application => "Aplicativo",
        Text::Settings => "Configurações",
        Text::Exit => "Sair",
        Text::System => "Sistema",
        Text::OpenAtLogin => "Abrir ao entrar",
        Text::StartAtLoginDescription => "Iniciar o Adufa ao entrar no sistema",
        Text::QuickAccess => "Acesso rápido",
        Text::OpenSelectorNearCursor => "Abrir seletor perto do cursor",
        Text::AudibleAppUnderPointer => "Encontra o app com áudio sob o ponteiro",
        Text::SystemAudioSettings => "Configurações de áudio do sistema",
        Text::OpenWindowsMixer => "Abrir o mixer de volume do Windows",
        Text::Language => "Idioma",
        Text::LanguageDescription => "Escolher o idioma da interface",
        Text::Automatic => "Automático",
        Text::ChooseLanguage => "Escolher idioma",
        Text::AudioOutput => "Saída de áudio",
        Text::Muted => "Sem som",
        Text::LocatorFailed => "Falha ao localizar o som",
        Text::DiscoveryFailed => "Falha ao detectar o áudio",
        Text::StartupFailed => "Falha na preferência de inicialização",
        Text::LanguageFailed => "Falha na preferência de idioma",
        Text::WindowsMixer => "Mixer de volume do Windows",
        Text::MixerOpenFailed => "O Windows não conseguiu abrir as configurações de volume dos aplicativos.",
        Text::RoutingFailed => "Falha ao rotear o áudio",
        Text::RouteChangeFailed => "O Adufa não conseguiu alterar a saída deste aplicativo.",
        Text::CouldNotStart => "O Adufa não conseguiu iniciar.",
    }
}

pub open spec fn spanish_text(key: Text) -> Seq<char> {
    match key {
        Text::AudioRouter => "Enrutador de audio"@,
        Text::Listening => "Escuchando"@,
        Text::FindSound => "Buscar sonido"@,
        Text::NoApplications => "Ninguna aplicación está reproduciendo audio"@,
        Text::SystemDefault => "Predeterminado del sistema"@,
        Text::UnavailableOutput => "Salida no disponible"@,
        Text::SystemSounds => "Sonidos del sistema"@,
        Text::Application => "Aplicación"@,
        Text::Settings => "Configuración"@,
        Text::Exit => "Salir"@,
        Text::System => "Sistema"@,
        Text::OpenAtLogin => "Abrir al iniciar sesión"@,
        Text::StartAtLoginDescription => "Iniciar Adufa al iniciar sesión"@,
        Text::QuickAccess => "Acceso rápido"@,
        Text::OpenSelectorNearCursor => "Abrir selector junto al cursor"@,
        Text::AudibleAppUnderPointer => "Busca la app audible bajo el puntero"@,
        Text::SystemAudioSettings => "Configuración de audio del sistema"@,
        Text::OpenWindowsMixer => "Abrir el mezclador de volumen de Windows"@,
        Text::Language => "Idioma"@,
        Text::LanguageDescription => "Elegir el idioma de la interfaz"@,
        Text::Automatic => "Automático"@,
        Text::ChooseLanguage => "Elegir idioma"@,
        Text::AudioOutput => "Salida de audio"@,
        Text::Muted => "Silenciado"@,
        Text::LocatorFailed => "Error al localizar el sonido"@,
        Text::DiscoveryFailed => "Error al detectar el audio"@,
        Text::StartupFailed => "Error en la preferencia de inicio"@,
        Text::LanguageFailed => "Error en la preferencia de idioma"@,
        Text::WindowsMixer => "Mezclador de volumen de Windows"@,
        Text::MixerOpenFailed => "Windows no pudo abrir la configuración de volumen de las aplicaciones."@,
        Text::RoutingFailed => "Error de enrutamiento de audio"@,
        Text::RouteChangeFailed => "Adufa no pudo cambiar la salida de esta aplicación."@,
        Text::CouldNotStart => "Adufa no pudo iniciarse."@,
    }
}

fn spanish(key: Text) -> (s: &'static str)
    ensures
        s@ == spanish_text(key),
{
    match key {
        Text::AudioRouter => "Enrutador de audio",
        Text::Listening => "Escuchando",
        Text::FindSound => "Buscar sonido",
        Text::NoApplications => "Ninguna aplicación está reproduciendo audio",
        Text::SystemDefault => "Predeterminado del sistema",
        Text::UnavailableOutput => "Salida no disponible",
        Text::SystemSounds => "Sonidos del sistema",
        Text::Application => "Aplicación",
        Text::Settings => "Configuración",
        Text::Exit => "Salir",
        Text::System => "Sistema",
        Text::OpenAtLogin => "Abrir al iniciar sesión",
        Text::StartAtLoginDescription => "Iniciar Adufa al iniciar sesión",
        Text::QuickAccess => "Acceso rápido",
        Text::OpenSelectorNearCursor => "Abrir selector junto al cursor",
        Text::AudibleAppUnderPointer => "Busca la app audible bajo el puntero",
        Text::SystemAudioSettings => "Configuración de audio del sistema",
        Text::OpenWindowsMixer => "Abrir el mezclador de volumen de Windows",
        Text::Language => "Idioma",
        Text::LanguageDescription => "Elegir el idioma de la interfaz",
        Text::Automatic => "Automático",
        Text::ChooseLanguage => "Elegir idioma",
        Text::AudioOutput => "Salida de audio",
        Text::Muted => "Silenciado",
        Text::LocatorFailed => "Error al localizar el sonido",
        Text::DiscoveryFailed => "Error al detectar el audio",
        Text::StartupFailed => "Error en la preferencia de inicio",
        Text::LanguageFailed => "Error en la preferencia de idioma",
        Text::WindowsMixer => "Mezclador de volumen de Windows",
        Text::MixerOpenFailed => "Windows no pudo abrir la configuración de volumen de las aplicaciones.",
        Text::RoutingFailed => "Error de enrutamiento de audio",
        Text::RouteChangeFailed => "Adufa no pudo cambiar la salida de esta aplicación.",
        Text::CouldNotStart => "Adufa no pudo iniciarse.",
    }
}

pub open spec fn french_text(key: Text) -> Seq<char> {
    match key {
        Text::AudioRouter => "Routeur audio"@,
        Text::Listening => "Écoute"@,
        Text::FindSound => "Repérer le son"@,
        Text::NoApplications => "Aucune application ne lit de son"@,
        Text::SystemDefault => "Valeur système par défaut"@,
        Text::UnavailableOutput => "Sortie indisponible"@,
        Text::SystemSounds => "Sons système"@,
        Text::Application => "Application"@,
        Text::Settings => "Paramètres"@,
        Text::Exit => "Quitter"@,
        Text::System => "Système"@,
        Text::OpenAtLogin => "Ouvrir à la connexion"@,
        Text::StartAtLoginDescription => "Lancer Adufa à la connexion"@,
        Text::QuickAccess => "Accès rapide"@,
        Text::OpenSelectorNearCursor => "Ouvrir le sélecteur près du curseur"@,
        Text::AudibleAppUnderPointer => "Cible l’app audible sous le pointeur"@,
        Text::SystemAudioSettings => "Paramètres audio du système"@,
        Text::OpenWindowsMixer => "Ouvrir le mélangeur de volume Windows"@,
        Text::Language => "Langue"@,
        Text::LanguageDescription => "Choisir la langue de l’interface"@,
        Text::Automatic => "Automatique"@,
        Text::ChooseLanguage => "Choisir la langue"@,
        Text::AudioOutput => "Sortie audio"@,
        Text::Muted => "Muet"@,
        Text::LocatorFailed => "Échec du repérage du son"@,
        Text::DiscoveryFailed => "Échec de la détection audio"@,
        Text::StartupFailed => "Échec de la préférence de démarrage"@,
        Text::LanguageFailed => "Échec de la préférence de langue"@,
        Text::WindowsMixer => "Mélangeur de volume Windows"@,
        Text::MixerOpenFailed => "Windows n’a pas pu ouvrir les paramètres de volume des applications."@,
        Text::RoutingFailed => "Échec du routage audio"@,
        Text::RouteChangeFailed => "Adufa n’a pas pu modifier la sortie de cette application."@,
        Text::CouldNotStart => "Adufa n’a pas pu démarrer."@,
    }
}

fn french(key: Text) -> (s: &'static str)
    ensures
        s@ == french_text(key),
{
    match key {
        Text::AudioRouter => "Routeur audio",
        Text::Listening => "Écoute",
        Text::FindSound => "Repérer le son",
        Text::NoApplications => "Aucune application ne lit de son",
        Text::SystemDefault => "Valeur système par défaut",
        Text::UnavailableOutput => "Sortie indisponible",
        Text::SystemSounds => "Sons système",
        Text::Application => "Application",
        Text::Settings => "Paramètres",
        Text::Exit => "Quitter",
        Text::System => "Système",
        Text::OpenAtLogin => "Ouvrir à la connexion",
        Text::StartAtLoginDescription => "Lancer Adufa à la connexion",
        Text::QuickAccess => "Accès rapide",
        Text::OpenSelectorNearCursor => "Ouvrir le sélecteur près du curseur",
        Text::AudibleAppUnderPointer => "Cible l’app audible sous le pointeur",
        Text::SystemAudioSettings => "Paramètres audio du système",
        Text::OpenWindowsMixer => "Ouvrir le mélangeur de volume Windows",
        Text::Language => "Langue",
        Text::LanguageDescription => "Choisir la langue de l’interface",
        Text::Automatic => "Automatique",
        Text::ChooseLanguage => "Choisir la langue",
        Text::AudioOutput => "Sortie audio",
        Text::Muted => "Muet",
        Text::LocatorFailed => "Échec du repérage du son",
        Text::DiscoveryFailed => "Échec de la détection audio",
        Text::StartupFailed => "Échec de la préférence de démarrage",
        Text::LanguageFailed => "Échec de la préférence de langue",
        Text::WindowsMixer => "Mélangeur de volume Windows",
        Text::MixerOpenFailed => "Windows n’a pas pu ouvrir les paramètres de volume des applications.",
        Text::RoutingFailed => "Échec du routage audio",
        Text::RouteChangeFailed => "Adufa n’a pas pu modifier la sortie de cette application.",
        Text::CouldNotStart => "Adufa n’a pas pu démarrer.",
    }
}

pub open spec fn german_text(key: Text) -> Seq<char> {
    match key {
        Text::AudioRouter => "Audio-Router"@,
        Text::Listening => "Hört zu"@,
        Text::FindSound => "Ton finden"@,
        Text::NoApplications => "Keine Anwendung gibt Audio wieder"@,
        Text::SystemDefault => "Systemstandard"@,
        Text::UnavailableOutput => "Ausgabe nicht verfügbar"@,
        Text::SystemSounds => "Systemsounds"@,
        Text::Application => "Anwendung"@,
        Text::Settings => "Einstellungen"@,
        Text::Exit => "Beenden"@,
        Text::System => "System"@,
        Text::OpenAtLogin => "Bei Anmeldung öffnen"@,
        Text::StartAtLoginDescription => "Adufa nach der Anmeldung starten"@,
        Text::QuickAccess => "Schnellzugriff"@,
        Text::OpenSelectorNearCursor => "Auswahl am Mauszeiger öffnen"@,
        Text::AudibleAppUnderPointer => "Wählt die hörbare App unter dem Zeiger"@,
        Text::SystemAudioSettings => "System-Audioeinstellungen"@,
        Text::OpenWindowsMixer => "Windows-Lautstärkemixer öffnen"@,
        Text::Language => "Sprache"@,
        Text::LanguageDescription => "Sprache der Oberfläche auswählen"@,
        Text::Automatic => "Automatisch"@,
        Text::ChooseLanguage => "Sprache auswählen"@,
        Text::AudioOutput => "Audioausgabe"@,
        Text::Muted => "Stumm"@,
        Text::LocatorFailed => "Tonsuche fehlgeschlagen"@,
        Text::DiscoveryFailed => "Audioerkennung fehlgeschlagen"@,
        Text::StartupFailed => "Autostart-Einstellung fehlgeschlagen"@,
        Text::LanguageFailed => "Spracheinstellung fehlgeschlagen"@,
        Text::WindowsMixer => "Windows-Lautstärkemixer"@,
        Text::MixerOpenFailed => "Windows konnte die Lautstärkeeinstellungen der Anwendungen nicht öffnen."@,
        Text::RoutingFailed => "Audio-Routing fehlgeschlagen"@,
        Text::RouteChangeFailed => "Adufa konnte die Ausgabe dieser Anwendung nicht ändern."@,
        Text::CouldNotStart => "Adufa konnte nicht gestartet werden."@,
    }
}

fn german(key: Text) -> (s: &'static str)
    ensures
        s@ == german_text(key),
{
    match key {
        Text::AudioRouter => "Audio-Router",
        Text::Listening => "Hört zu",
        Text::FindSound => "Ton finden",
        Text::NoApplications => "Keine Anwendung gibt Audio wieder",
        Text::SystemDefault => "Systemstandard",
        Text::UnavailableOutput => "Ausgabe nicht verfügbar",
        Text::SystemSounds => "Systemsounds",
        Text::Application => "Anwendung",
        Text::Settings => "Einstellungen",
        Text::Exit => "Beenden",
        Text::System => "System",
        Text::OpenAtLogin => "Bei Anmeldung öffnen",
        Text::StartAtLoginDescription => "Adufa nach der Anmeldung starten",
        Text::QuickAccess => "Schnellzugriff",
        Text::OpenSelectorNearCursor => "Auswahl am Mauszeiger öffnen",
        Text::AudibleAppUnderPointer => "Wählt die hörbare App unter dem Zeiger",
        Text::SystemAudioSettings => "System-Audioeinstellungen",
        Text::OpenWindowsMixer => "Windows-Lautstärkemixer öffnen",
        Text::Language => "Sprache",
        Text::LanguageDescription => "Sprache der Oberfläche auswählen",
        Text::Automatic => "Automatisch",
        Text::ChooseLanguage => "Sprache auswählen",
        Text::AudioOutput => "Audioausgabe",
        Text::Muted => "Stumm",
        Text::LocatorFailed => "Tonsuche fehlgeschlagen",
        Text::DiscoveryFailed => "Audioerkennung fehlgeschlagen",
        Text::StartupFailed => "Autostart-Einstellung fehlgeschlagen",
        Text::LanguageFailed => "Spracheinstellung fehlgeschlagen",
        Text::WindowsMixer => "Windows-Lautstärkemixer",
        Text::MixerOpenFailed => "Windows konnte die Lautstärkeeinstellungen der Anwendungen nicht öffnen.",
        Text::RoutingFailed => "Audio-Routing fehlgeschlagen",
        Text::RouteChangeFailed => "Adufa konnte die Ausgabe dieser Anwendung nicht ändern.",
        Text::CouldNotStart => "Adufa konnte nicht gestartet werden.",
    }
}

pub open spec fn italian_text(key: Text) -> Seq<char> {
    match key {
        Text::AudioRouter => "Router audio"@,
        Text::Listening => "In ascolto"@,
        Text::FindSound => "Trova suono"@,
        Text::NoApplications => "Nessuna applicazione sta riproducendo audio"@,
        Text::SystemDefault => "Predefinito di sistema"@,
        Text::UnavailableOutput => "Uscita non disponibile"@,
        Text::SystemSounds => "Suoni di sistema"@,
        Text::Application => "Applicazione"@,
        Text::Settings => "Impostazioni"@,
        Text::Exit => "Esci"@,
        Text::System => "Sistema"@,
        Text::OpenAtLogin => "Apri all’accesso"@,
        Text::StartAtLoginDescription => "Avvia Adufa dopo l’accesso"@,
        Text::QuickAccess => "Accesso rapido"@,
        Text::OpenSelectorNearCursor => "Apri il selettore vicino al cursore"@,
        Text::AudibleAppUnderPointer => "Individua l’app udibile sotto il puntatore"@,
        Text::SystemAudioSettings => "Impostazioni audio di sistema"@,
        Text::OpenWindowsMixer => "Apri il mixer volume di Windows"@,
        Text::Language => "Lingua"@,
        Text::LanguageDescription => "Scegli la lingua dell’interfaccia"@,
        Text::Automatic => "Automatico"@,
        Text::ChooseLanguage => "Scegli lingua"@,
        Text::AudioOutput => "Uscita audio"@,
        Text::Muted => "Disattivato"@,
        Text::LocatorFailed => "Ricerca del suono non riuscita"@,
        Text::DiscoveryFailed => "Rilevamento audio non riuscito"@,
        Text::StartupFailed => "Preferenza di avvio non riuscita"@,
        Text::LanguageFailed => "Preferenza della lingua non riuscita"@,
        Text::WindowsMixer => "Mixer volume di Windows"@,
        Text::MixerOpenFailed => "Windows non ha potuto aprire le impostazioni del volume delle applicazioni."@,
        Text::RoutingFailed => "Instradamento audio non riuscito"@,
        Text::RouteChangeFailed => "Adufa non ha potuto cambiare l’uscita di questa applicazione."@,
        Text::CouldNotStart => "Impossibile avviare Adufa."@,
    }
}

fn italian(key: Text) -> (s: &'static str)
    ensures
        s@ == italian_text(key),
{
    match key {
        Text::AudioRouter => "Router audio",
        Text::Listening => "In ascolto",
        Text::FindSound => "Trova suono",
        Text::NoApplications => "Nessuna applicazione sta riproducendo audio",
        Text::SystemDefault => "Predefinito di sistema",
        Text::UnavailableOutput => "Uscita non disponibile",
        Text::SystemSounds => "Suoni di sistema",
        Text::Application => "Applicazione",
        Text::Settings => "Impostazioni",
        Text::Exit => "Esci",
        Text::System => "Sistema",
        Text::OpenAtLogin => "Apri all’accesso",
        Text::StartAtLoginDescription => "Avvia Adufa dopo l’accesso",
        Text::QuickAccess => "Accesso rapido",
        Text::OpenSelectorNearCursor => "Apri il selettore vicino al cursore",
        Text::AudibleAppUnderPointer => "Individua l’app udibile sotto il puntatore",
        Text::SystemAudioSettings => "Impostazioni audio di sistema",
        Text::OpenWindowsMixer => "Apri il mixer volume di Windows",
        Text::Language => "Lingua",
        Text::LanguageDescription => "Scegli la lingua dell’interfaccia",
        Text::Automatic => "Automatico",
        Text::ChooseLanguage => "Scegli lingua",
        Text::AudioOutput => "Uscita audio",
        Text::Muted => "Disattivato",
        Text::LocatorFailed => "Ricerca del suono non riuscita",
        Text::DiscoveryFailed => "Rilevamento audio non riuscito",
        Text::StartupFailed => "Preferenza di avvio non riuscita",
        Text::LanguageFailed => "Preferenza della lingua non riuscita",
        Text::WindowsMixer => "Mixer volume di Windows",
        Text::MixerOpenFailed => "Windows non ha potuto aprire le impostazioni del volume delle applicazioni.",
        Text::RoutingFailed => "Instradamento audio non riuscito",
        Text::RouteChangeFailed => "Adufa non ha potuto cambiare l’uscita di questa applicazione.",
        Text::CouldNotStart => "Impossibile avviare Adufa.",
    }
}

pub open spec fn japanese_text(key: Text) -> Seq<char> {
    match key {
        Text::AudioRouter => "オーディオルーター"@,
        Text::Listening => "検出中"@,
        Text::FindSound => "音を探す"@,
        Text::NoApplications => "音声を再生中のアプリはありません"@,
        Text::SystemDefault => "システムの既定値"@,
        Text::UnavailableOutput => "利用できない出力"@,
        Text::SystemSounds => "システム サウンド"@,
        Text::Application => "アプリケーション"@,
        Text::Settings => "設定"@,
        Text::Exit => "終了"@,
        Text::System => "システム"@,
        Text::OpenAtLogin => "サインイン時に開く"@,
        Text::StartAtLoginDescription => "サインイン後に Adufa を起動します"@,
        Text::QuickAccess => "クイック アクセス"@,
        Text::OpenSelectorNearCursor => "カーソル付近に選択画面を開く"@,
        Text::AudibleAppUnderPointer => "ポインター下の再生中アプリを選びます"@,
        Text::SystemAudioSettings => "システムのオーディオ設定"@,
        Text::OpenWindowsMixer => "Windows 音量ミキサーを開く"@,
        Text::Language => "言語"@,
        Text::LanguageDescription => "インターフェイスの言語を選択"@,
        Text::Automatic => "自動"@,
        Text::ChooseLanguage => "言語を選択"@,
        Text::AudioOutput => "音声出力"@,
        Text::Muted => "ミュート"@,
        Text::LocatorFailed => "音の検出に失敗しました"@,
        Text::DiscoveryFailed => "オーディオの検出に失敗しました"@,
        Text::StartupFailed => "起動設定を変更できませんでした"@,
        Text::LanguageFailed => "言語設定を変更できませんでした"@,
        Text::WindowsMixer => "Windows 音量ミキサー"@,
        Text::MixerOpenFailed => "Windows でアプリの音量設定を開けませんでした。"@,
        Text::RoutingFailed => "オーディオのルーティングに失敗しました"@,
        Text::RouteChangeFailed => "Adufa はこのアプリの出力を変更できませんでした。"@,
        Text::CouldNotStart => "Adufa を起動できませんでした。"@,
    }
}

fn japanese(key: Text) -> (s: &'static str)
    ensures
        s@ == japanese_text(key),
{
    match key {
        Text::AudioRouter => "オーディオルーター",
        Text::Listening => "検出中",
        Text::FindSound => "音を探す",
        Text::NoApplications => "音声を再生中のアプリはありません",
        Text::SystemDefault => "システムの既定値",
        Text::UnavailableOutput => "利用できない出力",
        Text::SystemSounds => "システム サウンド",
        Text::Application => "アプリケーション",
        Text::Settings => "設定",
        Text::Exit => "終了",
        Text::System => "システム",
        Text::OpenAtLogin => "サインイン時に開く",
        Text::StartAtLoginDescription => "サインイン後に Adufa を起動します",
        Text::QuickAccess => "クイック アクセス",
        Text::OpenSelectorNearCursor => "カーソル付近に選択画面を開く",
        Text::AudibleAppUnderPointer => "ポインター下の再生中アプリを選びます",
        Text::SystemAudioSettings => "システムのオーディオ設定",
        Text::OpenWindowsMixer => "Windows 音量ミキサーを開く",
        Text::Language => "言語",
        Text::LanguageDescription => "インターフェイスの言語を選択",
        Text::Automatic => "自動",
        Text::ChooseLanguage => "言語を選択",
        Text::AudioOutput => "音声出力",
        Text::Muted => "ミュート",
        Text::LocatorFailed => "音の検出に失敗しました",
        Text::DiscoveryFailed => "オーディオの検出に失敗しました",
        Text::StartupFailed => "起動設定を変更できませんでした",
        Text::LanguageFailed => "言語設定を変更できませんでした",
        Text::WindowsMixer => "Windows 音量ミキサー",
        Text::MixerOpenFailed => "Windows でアプリの音量設定を開けませんでした。",
        Text::RoutingFailed => "オーディオのルーティングに失敗しました",
        Text::RouteChangeFailed => "Adufa はこのアプリの出力を変更できませんでした。",
        Text::CouldNotStart => "Adufa を起動できませんでした。",
    }
}

pub open spec fn simplified_chinese_text(key: Text) -> Seq<char> {
    match key {
        Text::AudioRouter => "音频路由器"@,
        Text::Listening => "正在监听"@,
        Text::FindSound => "查找声音"@,
        Text::NoApplications => "没有应用正在播放音频"@,
        Text::SystemDefault => "系统默认"@,
        Text::UnavailableOutput => "输出不可用"@,
        Text::SystemSounds => "系统声音"@,
        Text::Application => "应用"@,
        Text::Settings => "设置"@,
        Text::Exit => "退出"@,
        Text::System => "系统"@,
        Text::OpenAtLogin => "登录时打开"@,
        Text::StartAtLoginDescription => "登录后启动 Adufa"@,
        Text::QuickAccess => "快速访问"@,
        Text::OpenSelectorNearCursor => "在光标附近打开选择器"@,
        Text::AudibleAppUnderPointer => "选择指针下正在发声的应用"@,
        Text::SystemAudioSettings => "系统音频设置"@,
        Text::OpenWindowsMixer => "打开 Windows 音量混合器"@,
        Text::Language => "语言"@,
        Text::LanguageDescription => "选择界面语言"@,
        Text::Automatic => "自动"@,
        Text::ChooseLanguage => "选择语言"@,
        Text::AudioOutput => "音频输出"@,
        Text::Muted => "已静音"@,
        Text::LocatorFailed => "声音定位失败"@,
        Text::DiscoveryFailed => "音频检测失败"@,
        Text::StartupFailed => "启动首选项设置失败"@,
        Text::LanguageFailed => "语言首选项设置失败"@,
        Text::WindowsMixer => "Windows 音量混合器"@,
        Text::MixerOpenFailed => "Windows 无法打开应用音量设置。"@,
        Text::RoutingFailed => "音频路由失败"@,
        Text::RouteChangeFailed => "Adufa 无法更改此应用的输出。"@,
        Text::CouldNotStart => "Adufa 无法启动。"@,
    }
}

fn simplified_chinese(key: Text) -> (s: &'static str)
    ensures
        s@ == simplified_chinese_text(key),
{
    match key {
        Text::AudioRouter => "音频路由器",
        Text::Listening => "正在监听",
        Text::FindSound => "查找声音",
        Text::NoApplications => "没有应用正在播放音频",
        Text::SystemDefault => "系统默认",
        Text::UnavailableOutput => "输出不可用",
        Text::SystemSounds => "系统声音",
        Text::Application => "应用",
        Text::Settings => "设置",
        Text::Exit => "退出",
        Text::System => "系统",
        Text::OpenAtLogin => "登录时打开",
        Text::StartAtLoginDescription => "登录后启动 Adufa",
        Text::QuickAccess => "快速访问",
        Text::OpenSelectorNearCursor => "在光标附近打开选择器",
        Text::AudibleAppUnderPointer => "选择指针下正在发声的应用",
        Text::SystemAudioSettings => "系统音频设置",
        Text::OpenWindowsMixer => "打开 Windows 音量混合器",
        Text::Language => "语言",
        Text::LanguageDescription => "选择界面语言",
        Text::Automatic => "自动",
        Text::ChooseLanguage => "选择语言",
        Text::AudioOutput => "音频输出",
        Text::Muted => "已静音",
        Text::LocatorFailed => "声音定位失败",
        Text::DiscoveryFailed => "音频检测失败",
        Text::StartupFailed => "启动首选项设置失败",
        Text::LanguageFailed => "语言首选项设置失败",
        Text::WindowsMixer => "Windows 音量混合器",
        Text::MixerOpenFailed => "Windows 无法打开应用音量设置。",
        Text::RoutingFailed => "音频路由失败",
        Text::RouteChangeFailed => "Adufa 无法更改此应用的输出。",
        Text::CouldNotStart => "Adufa 无法启动。",
    }
}

} // verus!

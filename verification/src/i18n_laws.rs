//! Properties of language tags and of the interface text catalog.

use vstd::prelude::*;

use crate::i18n::{
    english_text, french_text, german_text, italian_text, japanese_text, locale_code,
    locale_for_tag, normalize_tag_char, normalized_tag, portuguese_text, simplified_chinese_text,
    spanish_text, text_of, Locale, Text,
};
use crate::text::{
    first_index_of, is_white_space, lemma_trim_ends, lemma_trim_keeps_visible,
    lemma_trim_visible_ends, trim,
};

verus! {

/// Normalizing a language tag twice changes nothing.
pub proof fn law_normalization_is_idempotent(tag: Seq<char>)
    ensures
        normalized_tag(normalized_tag(tag)) == normalized_tag(tag),
{
    let e = trim(tag);
    let n = normalized_tag(tag);
    lemma_trim_ends(tag);
    if n.len() > 0 {
        assert(n[0] == normalize_tag_char(e[0]));
        assert(n.last() == normalize_tag_char(e.last()));
    }
    lemma_trim_visible_ends(n);
    assert(normalized_tag(n) =~= n);
}

/// A language tag resolves to the same locale as its trimmed, `-`-separated,
/// ASCII-lowercase form.
pub proof fn law_tag_resolves_as_normalized(tag: Seq<char>)
    ensures
        locale_for_tag(normalized_tag(tag)) == locale_for_tag(tag),
{
    law_normalization_is_idempotent(tag);
}

proof fn lemma_tag_literals()
    ensures
        "pt"@ == seq!['p', 't'],
        "es"@ == seq!['e', 's'],
        "fr"@ == seq!['f', 'r'],
        "de"@ == seq!['d', 'e'],
        "it"@ == seq!['i', 't'],
        "ja"@ == seq!['j', 'a'],
        "zh"@ == seq!['z', 'h'],
        "zh-cn"@ == seq!['z', 'h', '-', 'c', 'n'],
        "en"@ == seq!['e', 'n'],
        "pt-BR"@ == seq!['p', 't', '-', 'B', 'R'],
        "zh-CN"@ == seq!['z', 'h', '-', 'C', 'N'],
{
    reveal_strlit("pt");
    reveal_strlit("es");
    reveal_strlit("fr");
    reveal_strlit("de");
    reveal_strlit("it");
    reveal_strlit("ja");
    reveal_strlit("zh");
    reveal_strlit("zh-cn");
    reveal_strlit("en");
    reveal_strlit("pt-BR");
    reveal_strlit("zh-CN");
    assert("pt"@ =~= seq!['p', 't']);
    assert("es"@ =~= seq!['e', 's']);
    assert("fr"@ =~= seq!['f', 'r']);
    assert("de"@ =~= seq!['d', 'e']);
    assert("it"@ =~= seq!['i', 't']);
    assert("ja"@ =~= seq!['j', 'a']);
    assert("zh"@ =~= seq!['z', 'h']);
    assert("zh-cn"@ =~= seq!['z', 'h', '-', 'c', 'n']);
    assert("en"@ =~= seq!['e', 'n']);
    assert("pt-BR"@ =~= seq!['p', 't', '-', 'B', 'R']);
    assert("zh-CN"@ =~= seq!['z', 'h', '-', 'C', 'N']);
}

/// The locale that a two-letter code without a region names.
proof fn lemma_plain_code(l: Locale, a: char, b: char)
    requires
        locale_code(l) == seq![a, b],
        'a' <= a <= 'z',
        'a' <= b <= 'z',
    ensures
        normalized_tag(locale_code(l)) == seq![a, b],
        first_index_of(seq![a, b], '-') == 2,
{
    let s = locale_code(l);
    lemma_trim_visible_ends(s);
    assert(normalized_tag(s) =~= seq![a, b]);
    reveal_with_fuel(first_index_of, 3);
    assert(seq![a, b].drop_first() =~= seq![b]);
    assert(seq![b].drop_first() =~= Seq::<char>::empty());
}

/// Every locale's code resolves back to that locale.
pub proof fn law_locale_code_round_trip(l: Locale)
    ensures
        locale_for_tag(locale_code(l)) == l,
{
    lemma_tag_literals();
    let s = locale_code(l);
    match l {
        Locale::PtBr => {
            lemma_trim_visible_ends(s);
            let n = seq!['p', 't', '-', 'b', 'r'];
            assert(normalized_tag(s) =~= n);
            reveal_with_fuel(first_index_of, 4);
            assert(n.drop_first() =~= seq!['t', '-', 'b', 'r']);
            assert(seq!['t', '-', 'b', 'r'].drop_first() =~= seq!['-', 'b', 'r']);
            assert(first_index_of(n, '-') == 2);
            assert(n.take(2) =~= "pt"@);
        },
        Locale::ZhCn => {
            lemma_trim_visible_ends(s);
            let n = seq!['z', 'h', '-', 'c', 'n'];
            assert(normalized_tag(s) =~= n);
            reveal_with_fuel(first_index_of, 4);
            assert(n.drop_first() =~= seq!['h', '-', 'c', 'n']);
            assert(seq!['h', '-', 'c', 'n'].drop_first() =~= seq!['-', 'c', 'n']);
            assert(first_index_of(n, '-') == 2);
            assert(n.take(2) =~= "zh"@);
        },
        Locale::En => {
            lemma_plain_code(l, 'e', 'n');
            assert(seq!['e', 'n'].take(2) =~= seq!['e', 'n']);
        },
        Locale::Es => {
            lemma_plain_code(l, 'e', 's');
            assert(seq!['e', 's'].take(2) =~= "es"@);
        },
        Locale::Fr => {
            lemma_plain_code(l, 'f', 'r');
            assert(seq!['f', 'r'].take(2) =~= "fr"@);
        },
        Locale::De => {
            lemma_plain_code(l, 'd', 'e');
            assert(seq!['d', 'e'].take(2) =~= "de"@);
        },
        Locale::It => {
            lemma_plain_code(l, 'i', 't');
            assert(seq!['i', 't'].take(2) =~= "it"@);
        },
        Locale::Ja => {
            lemma_plain_code(l, 'j', 'a');
            assert(seq!['j', 'a'].take(2) =~= "ja"@);
        },
    }
}

/// No interface text is blank: every entry of the catalog keeps a visible
/// character once trimmed.
pub proof fn law_texts_are_not_blank(locale: Locale, key: Text)
    ensures
        trim(text_of(locale, key)).len() > 0,
{
    match locale {
        Locale::En => lemma_english_visible(key),
        Locale::PtBr => lemma_portuguese_visible(key),
        Locale::Es => lemma_spanish_visible(key),
        Locale::Fr => lemma_french_visible(key),
        Locale::De => lemma_german_visible(key),
        Locale::It => lemma_italian_visible(key),
        Locale::Ja => lemma_japanese_visible(key),
        Locale::ZhCn => lemma_simplified_chinese_visible(key),
    }
    lemma_trim_keeps_visible(text_of(locale, key), 0);
}

proof fn lemma_english_visible(key: Text)
    ensures
        english_text(key).len() > 0,
        !is_white_space(english_text(key)[0]),
{
    match key {
        Text::AudioRouter => reveal_strlit("Audio router"),
        Text::Listening => reveal_strlit("Listening"),
        Text::FindSound => reveal_strlit("Find sound"),
        Text::NoApplications => reveal_strlit("No applications are playing audio"),
        Text::SystemDefault => reveal_strlit("System default"),
        Text::UnavailableOutput => reveal_strlit("Unavailable output"),
        Text::SystemSounds => reveal_strlit("System sounds"),
        Text::Application => reveal_strlit("Application"),
        Text::Settings => reveal_strlit("Settings"),
        Text::Exit => reveal_strlit("Exit"),
        Text::System => reveal_strlit("System"),
        Text::OpenAtLogin => reveal_strlit("Open at login"),
        Text::StartAtLoginDescription => reveal_strlit("Start Adufa when you sign in"),
        Text::QuickAccess => reveal_strlit("Quick access"),
        Text::OpenSelectorNearCursor => reveal_strlit("Open selector near the cursor"),
        Text::AudibleAppUnderPointer => reveal_strlit("Targets the audible app under the pointer"),
        Text::SystemAudioSettings => reveal_strlit("System audio settings"),
        Text::OpenWindowsMixer => reveal_strlit("Open Windows volume mixer"),
        Text::Language => reveal_strlit("Language"),
        Text::LanguageDescription => reveal_strlit("Choose the interface language"),
        Text::Automatic => reveal_strlit("Automatic"),
        Text::ChooseLanguage => reveal_strlit("Choose language"),
        Text::AudioOutput => reveal_strlit("Audio output"),
        Text::Muted => reveal_strlit("Muted"),
        Text::LocatorFailed => reveal_strlit("Sound Locator failed"),
        Text::DiscoveryFailed => reveal_strlit("Audio discovery failed"),
        Text::StartupFailed => reveal_strlit("Startup preference failed"),
        Text::LanguageFailed => reveal_strlit("Language preference failed"),
        Text::WindowsMixer => reveal_strlit("Windows volume mixer"),
        Text::MixerOpenFailed => reveal_strlit("Windows could not open the application volume settings."),
        Text::RoutingFailed => reveal_strlit("Audio routing failed"),
        Text::RouteChangeFailed => reveal_strlit("Adufa could not change this application's output."),
        Text::CouldNotStart => reveal_strlit("Adufa could not start."),
    }
}

proof fn lemma_portuguese_visible(key: Text)
    ensures
        portuguese_text(key).len() > 0,
        !is_white_space(portuguese_text(key)[0]),
{
    match key {
        Text::AudioRouter => reveal_strlit("Roteador de áudio"),
        Text::Listening => reveal_strlit("Ouvindo"),
        Text::FindSound => reveal_strlit("Localizar som"),
        Text::NoApplications => reveal_strlit("Nenhum aplicativo está reproduzindo áudio"),
        Text::SystemDefault => reveal_strlit("Padrão do sistema"),
        Text::UnavailableOutput => reveal_strlit("Saída indisponível"),
        Text::SystemSounds => reveal_strlit("Sons do sistema"),
        Text::Application => reveal_strlit("Aplicativo"),
        Text::Settings => reveal_strlit("Configurações"),
        Text::Exit => reveal_strlit("Sair"),
        Text::System => reveal_strlit("Sistema"),
        Text::OpenAtLogin => reveal_strlit("Abrir ao entrar"),
        Text::StartAtLoginDescription => reveal_strlit("Iniciar o Adufa ao entrar no sistema"),
        Text::QuickAccess => reveal_strlit("Acesso rápido"),
        Text::OpenSelectorNearCursor => reveal_strlit("Abrir seletor perto do cursor"),
        Text::AudibleAppUnderPointer => reveal_strlit("Encontra o app com áudio sob o ponteiro"),
        Text::SystemAudioSettings => reveal_strlit("Configurações de áudio do sistema"),
        Text::OpenWindowsMixer => reveal_strlit("Abrir o mixer de volume do Windows"),
        Text::Language => reveal_strlit("Idioma"),
        Text::LanguageDescription => reveal_strlit("Escolher o idioma da interface"),
        Text::Automatic => reveal_strlit("Automático"),
        Text::ChooseLanguage => reveal_strlit("Escolher idioma"),
        Text::AudioOutput => reveal_strlit("Saída de áudio"),
        Text::Muted => reveal_strlit("Sem som"),
        Text::LocatorFailed => reveal_strlit("Falha ao localizar o som"),
        Text::DiscoveryFailed => reveal_strlit("Falha ao detectar o áudio"),
        Text::StartupFailed => reveal_strlit("Falha na preferência de inicialização"),
        Text::LanguageFailed => reveal_strlit("Falha na preferência de idioma"),
        Text::WindowsMixer => reveal_strlit("Mixer de volume do Windows"),
        Text::MixerOpenFailed => reveal_strlit("O Windows não conseguiu abrir as configurações de volume dos aplicativos."),
        Text::RoutingFailed => reveal_strlit("Falha ao rotear o áudio"),
        Text::RouteChangeFailed => reveal_strlit("O Adufa não conseguiu alterar a saída deste aplicativo."),
        Text::CouldNotStart => reveal_strlit("O Adufa não conseguiu iniciar."),
    }
}

proof fn lemma_spanish_visible(key: Text)
    ensures
        spanish_text(key).len() > 0,
        !is_white_space(spanish_text(key)[0]),
{
    match key {
        Text::AudioRouter => reveal_strlit("Enrutador de audio"),
        Text::Listening => reveal_strlit("Escuchando"),
        Text::FindSound => reveal_strlit("Buscar sonido"),
        Text::NoApplications => reveal_strlit("Ninguna aplicación está reproduciendo audio"),
        Text::SystemDefault => reveal_strlit("Predeterminado del sistema"),
        Text::UnavailableOutput => reveal_strlit("Salida no disponible"),
        Text::SystemSounds => reveal_strlit("Sonidos del sistema"),
        Text::Application => reveal_strlit("Aplicación"),
        Text::Settings => reveal_strlit("Configuración"),
        Text::Exit => reveal_strlit("Salir"),
        Text::System => reveal_strlit("Sistema"),
        Text::OpenAtLogin => reveal_strlit("Abrir al iniciar sesión"),
        Text::StartAtLoginDescription => reveal_strlit("Iniciar Adufa al iniciar sesión"),
        Text::QuickAccess => reveal_strlit("Acceso rápido"),
        Text::OpenSelectorNearCursor => reveal_strlit("Abrir selector junto al cursor"),
        Text::AudibleAppUnderPointer => reveal_strlit("Busca la app audible bajo el puntero"),
        Text::SystemAudioSettings => reveal_strlit("Configuración de audio del sistema"),
        Text::OpenWindowsMixer => reveal_strlit("Abrir el mezclador de volumen de Windows"),
        Text::Language => reveal_strlit("Idioma"),
        Text::LanguageDescription => reveal_strlit("Elegir el idioma de la interfaz"),
        Text::Automatic => reveal_strlit("Automático"),
        Text::ChooseLanguage => reveal_strlit("Elegir idioma"),
        Text::AudioOutput => reveal_strlit("Salida de audio"),
        Text::Muted => reveal_strlit("Silenciado"),
        Text::LocatorFailed => reveal_strlit("Error al localizar el sonido"),
        Text::DiscoveryFailed => reveal_strlit("Error al detectar el audio"),
        Text::StartupFailed => reveal_strlit("Error en la preferencia de inicio"),
        Text::LanguageFailed => reveal_strlit("Error en la preferencia de idioma"),
        Text::WindowsMixer => reveal_strlit("Mezclador de volumen de Windows"),
        Text::MixerOpenFailed => reveal_strlit("Windows no pudo abrir la configuración de volumen de las aplicaciones."),
        Text::RoutingFailed => reveal_strlit("Error de enrutamiento de audio"),
        Text::RouteChangeFailed => reveal_strlit("Adufa no pudo cambiar la salida de esta aplicación."),
        Text::CouldNotStart => reveal_strlit("Adufa no pudo iniciarse."),
    }
}

proof fn lemma_french_visible(key: Text)
    ensures
        french_text(key).len() > 0,
        !is_white_space(french_text(key)[0]),
{
    match key {
        Text::AudioRouter => reveal_strlit("Routeur audio"),
        Text::Listening => reveal_strlit("Écoute"),
        Text::FindSound => reveal_strlit("Repérer le son"),
        Text::NoApplications => reveal_strlit("Aucune application ne lit de son"),
        Text::SystemDefault => reveal_strlit("Valeur système par défaut"),
        Text::UnavailableOutput => reveal_strlit("Sortie indisponible"),
        Text::SystemSounds => reveal_strlit("Sons système"),
        Text::Application => reveal_strlit("Application"),
        Text::Settings => reveal_strlit("Paramètres"),
        Text::Exit => reveal_strlit("Quitter"),
        Text::System => reveal_strlit("Système"),
        Text::OpenAtLogin => reveal_strlit("Ouvrir à la connexion"),
        Text::StartAtLoginDescription => reveal_strlit("Lancer Adufa à la connexion"),
        Text::QuickAccess => reveal_strlit("Accès rapide"),
        Text::OpenSelectorNearCursor => reveal_strlit("Ouvrir le sélecteur près du curseur"),
        Text::AudibleAppUnderPointer => reveal_strlit("Cible l’app audible sous le pointeur"),
        Text::SystemAudioSettings => reveal_strlit("Paramètres audio du système"),
        Text::OpenWindowsMixer => reveal_strlit("Ouvrir le mélangeur de volume Windows"),
        Text::Language => reveal_strlit("Langue"),
        Text::LanguageDescription => reveal_strlit("Choisir la langue de l’interface"),
        Text::Automatic => reveal_strlit("Automatique"),
        Text::ChooseLanguage => reveal_strlit("Choisir la langue"),
        Text::AudioOutput => reveal_strlit("Sortie audio"),
        Text::Muted => reveal_strlit("Muet"),
        Text::LocatorFailed => reveal_strlit("Échec du repérage du son"),
        Text::DiscoveryFailed => reveal_strlit("Échec de la détection audio"),
        Text::StartupFailed => reveal_strlit("Échec de la préférence de démarrage"),
        Text::LanguageFailed => reveal_strlit("Échec de la préférence de langue"),
        Text::WindowsMixer => reveal_strlit("Mélangeur de volume Windows"),
        Text::MixerOpenFailed => reveal_strlit("Windows n’a pas pu ouvrir les paramètres de volume des applications."),
        Text::RoutingFailed => reveal_strlit("Échec du routage audio"),
        Text::RouteChangeFailed => reveal_strlit("Adufa n’a pas pu modifier la sortie de cette application."),
        Text::CouldNotStart => reveal_strlit("Adufa n’a pas pu démarrer."),
    }
}

proof fn lemma_german_visible(key: Text)
    ensures
        german_text(key).len() > 0,
        !is_white_space(german_text(key)[0]),
{
    match key {
        Text::AudioRouter => reveal_strlit("Audio-Router"),
        Text::Listening => reveal_strlit("Hört zu"),
        Text::FindSound => reveal_strlit("Ton finden"),
        Text::NoApplications => reveal_strlit("Keine Anwendung gibt Audio wieder"),
        Text::SystemDefault => reveal_strlit("Systemstandard"),
        Text::UnavailableOutput => reveal_strlit("Ausgabe nicht verfügbar"),
        Text::SystemSounds => reveal_strlit("Systemsounds"),
        Text::Application => reveal_strlit("Anwendung"),
        Text::Settings => reveal_strlit("Einstellungen"),
        Text::Exit => reveal_strlit("Beenden"),
        Text::System => reveal_strlit("System"),
        Text::OpenAtLogin => reveal_strlit("Bei Anmeldung öffnen"),
        Text::StartAtLoginDescription => reveal_strlit("Adufa nach der Anmeldung starten"),
        Text::QuickAccess => reveal_strlit("Schnellzugriff"),
        Text::OpenSelectorNearCursor => reveal_strlit("Auswahl am Mauszeiger öffnen"),
        Text::AudibleAppUnderPointer => reveal_strlit("Wählt die hörbare App unter dem Zeiger"),
        Text::SystemAudioSettings => reveal_strlit("System-Audioeinstellungen"),
        Text::OpenWindowsMixer => reveal_strlit("Windows-Lautstärkemixer öffnen"),
        Text::Language => reveal_strlit("Sprache"),
        Text::LanguageDescription => reveal_strlit("Sprache der Oberfläche auswählen"),
        Text::Automatic => reveal_strlit("Automatisch"),
        Text::ChooseLanguage => reveal_strlit("Sprache auswählen"),
        Text::AudioOutput => reveal_strlit("Audioausgabe"),
        Text::Muted => reveal_strlit("Stumm"),
        Text::LocatorFailed => reveal_strlit("Tonsuche fehlgeschlagen"),
        Text::DiscoveryFailed => reveal_strlit("Audioerkennung fehlgeschlagen"),
        Text::StartupFailed => reveal_strlit("Autostart-Einstellung fehlgeschlagen"),
        Text::LanguageFailed => reveal_strlit("Spracheinstellung fehlgeschlagen"),
        Text::WindowsMixer => reveal_strlit("Windows-Lautstärkemixer"),
        Text::MixerOpenFailed => reveal_strlit("Windows konnte die Lautstärkeeinstellungen der Anwendungen nicht öffnen."),
        Text::RoutingFailed => reveal_strlit("Audio-Routing fehlgeschlagen"),
        Text::RouteChangeFailed => reveal_strlit("Adufa konnte die Ausgabe dieser Anwendung nicht ändern."),
        Text::CouldNotStart => reveal_strlit("Adufa konnte nicht gestartet werden."),
    }
}

proof fn lemma_italian_visible(key: Text)
    ensures
        italian_text(key).len() > 0,
        !is_white_space(italian_text(key)[0]),
{
    match key {
        Text::AudioRouter => reveal_strlit("Router audio"),
        Text::Listening => reveal_strlit("In ascolto"),
        Text::FindSound => reveal_strlit("Trova suono"),
        Text::NoApplications => reveal_strlit("Nessuna applicazione sta riproducendo audio"),
        Text::SystemDefault => reveal_strlit("Predefinito di sistema"),
        Text::UnavailableOutput => reveal_strlit("Uscita non disponibile"),
        Text::SystemSounds => reveal_strlit("Suoni di sistema"),
        Text::Application => reveal_strlit("Applicazione"),
        Text::Settings => reveal_strlit("Impostazioni"),
        Text::Exit => reveal_strlit("Esci"),
        Text::System => reveal_strlit("Sistema"),
        Text::OpenAtLogin => reveal_strlit("Apri all’accesso"),
        Text::StartAtLoginDescription => reveal_strlit("Avvia Adufa dopo l’accesso"),
        Text::QuickAccess => reveal_strlit("Accesso rapido"),
        Text::OpenSelectorNearCursor => reveal_strlit("Apri il selettore vicino al cursore"),
        Text::AudibleAppUnderPointer => reveal_strlit("Individua l’app udibile sotto il puntatore"),
        Text::SystemAudioSettings => reveal_strlit("Impostazioni audio di sistema"),
        Text::OpenWindowsMixer => reveal_strlit("Apri il mixer volume di Windows"),
        Text::Language => reveal_strlit("Lingua"),
        Text::LanguageDescription => reveal_strlit("Scegli la lingua dell’interfaccia"),
        Text::Automatic => reveal_strlit("Automatico"),
        Text::ChooseLanguage => reveal_strlit("Scegli lingua"),
        Text::AudioOutput => reveal_strlit("Uscita audio"),
        Text::Muted => reveal_strlit("Disattivato"),
        Text::LocatorFailed => reveal_strlit("Ricerca del suono non riuscita"),
        Text::DiscoveryFailed => reveal_strlit("Rilevamento audio non riuscito"),
        Text::StartupFailed => reveal_strlit("Preferenza di avvio non riuscita"),
        Text::LanguageFailed => reveal_strlit("Preferenza della lingua non riuscita"),
        Text::WindowsMixer => reveal_strlit("Mixer volume di Windows"),
        Text::MixerOpenFailed => reveal_strlit("Windows non ha potuto aprire le impostazioni del volume delle applicazioni."),
        Text::RoutingFailed => reveal_strlit("Instradamento audio non riuscito"),
        Text::RouteChangeFailed => reveal_strlit("Adufa non ha potuto cambiare l’uscita di questa applicazione."),
        Text::CouldNotStart => reveal_strlit("Impossibile avviare Adufa."),
    }
}

proof fn lemma_japanese_visible(key: Text)
    ensures
        japanese_text(key).len() > 0,
        !is_white_space(japanese_text(key)[0]),
{
    match key {
        Text::AudioRouter => reveal_strlit("オーディオルーター"),
        Text::Listening => reveal_strlit("検出中"),
        Text::FindSound => reveal_strlit("音を探す"),
        Text::NoApplications => reveal_strlit("音声を再生中のアプリはありません"),
        Text::SystemDefault => reveal_strlit("システムの既定値"),
        Text::UnavailableOutput => reveal_strlit("利用できない出力"),
        Text::SystemSounds => reveal_strlit("システム サウンド"),
        Text::Application => reveal_strlit("アプリケーション"),
        Text::Settings => reveal_strlit("設定"),
        Text::Exit => reveal_strlit("終了"),
        Text::System => reveal_strlit("システム"),
        Text::OpenAtLogin => reveal_strlit("サインイン時に開く"),
        Text::StartAtLoginDescription => reveal_strlit("サインイン後に Adufa を起動します"),
        Text::QuickAccess => reveal_strlit("クイック アクセス"),
        Text::OpenSelectorNearCursor => reveal_strlit("カーソル付近に選択画面を開く"),
        Text::AudibleAppUnderPointer => reveal_strlit("ポインター下の再生中アプリを選びます"),
        Text::SystemAudioSettings => reveal_strlit("システムのオーディオ設定"),
        Text::OpenWindowsMixer => reveal_strlit("Windows 音量ミキサーを開く"),
        Text::Language => reveal_strlit("言語"),
        Text::LanguageDescription => reveal_strlit("インターフェイスの言語を選択"),
        Text::Automatic => reveal_strlit("自動"),
        Text::ChooseLanguage => reveal_strlit("言語を選択"),
        Text::AudioOutput => reveal_strlit("音声出力"),
        Text::Muted => reveal_strlit("ミュート"),
        Text::LocatorFailed => reveal_strlit("音の検出に失敗しました"),
        Text::DiscoveryFailed => reveal_strlit("オーディオの検出に失敗しました"),
        Text::StartupFailed => reveal_strlit("起動設定を変更できませんでした"),
        Text::LanguageFailed => reveal_strlit("言語設定を変更できませんでした"),
        Text::WindowsMixer => reveal_strlit("Windows 音量ミキサー"),
        Text::MixerOpenFailed => reveal_strlit("Windows でアプリの音量設定を開けませんでした。"),
        Text::RoutingFailed => reveal_strlit("オーディオのルーティングに失敗しました"),
        Text::RouteChangeFailed => reveal_strlit("Adufa はこのアプリの出力を変更できませんでした。"),
        Text::CouldNotStart => reveal_strlit("Adufa を起動できませんでした。"),
    }
}

proof fn lemma_simplified_chinese_visible(key: Text)
    ensures
        simplified_chinese_text(key).len() > 0,
        !is_white_space(simplified_chinese_text(key)[0]),
{
    match key {
        Text::AudioRouter => reveal_strlit("音频路由器"),
        Text::Listening => reveal_strlit("正在监听"),
        Text::FindSound => reveal_strlit("查找声音"),
        Text::NoApplications => reveal_strlit("没有应用正在播放音频"),
        Text::SystemDefault => reveal_strlit("系统默认"),
        Text::UnavailableOutput => reveal_strlit("输出不可用"),
        Text::SystemSounds => reveal_strlit("系统声音"),
        Text::Application => reveal_strlit("应用"),
        Text::Settings => reveal_strlit("设置"),
        Text::Exit => reveal_strlit("退出"),
        Text::System => reveal_strlit("系统"),
        Text::OpenAtLogin => reveal_strlit("登录时打开"),
        Text::StartAtLoginDescription => reveal_strlit("登录后启动 Adufa"),
        Text::QuickAccess => reveal_strlit("快速访问"),
        Text::OpenSelectorNearCursor => reveal_strlit("在光标附近打开选择器"),
        Text::AudibleAppUnderPointer => reveal_strlit("选择指针下正在发声的应用"),
        Text::SystemAudioSettings => reveal_strlit("系统音频设置"),
        Text::OpenWindowsMixer => reveal_strlit("打开 Windows 音量混合器"),
        Text::Language => reveal_strlit("语言"),
        Text::LanguageDescription => reveal_strlit("选择界面语言"),
        Text::Automatic => reveal_strlit("自动"),
        Text::ChooseLanguage => reveal_strlit("选择语言"),
        Text::AudioOutput => reveal_strlit("音频输出"),
        Text::Muted => reveal_strlit("已静音"),
        Text::LocatorFailed => reveal_strlit("声音定位失败"),
        Text::DiscoveryFailed => reveal_strlit("音频检测失败"),
        Text::StartupFailed => reveal_strlit("启动首选项设置失败"),
        Text::LanguageFailed => reveal_strlit("语言首选项设置失败"),
        Text::WindowsMixer => reveal_strlit("Windows 音量混合器"),
        Text::MixerOpenFailed => reveal_strlit("Windows 无法打开应用音量设置。"),
        Text::RoutingFailed => reveal_strlit("音频路由失败"),
        Text::RouteChangeFailed => reveal_strlit("Adufa 无法更改此应用的输出。"),
        Text::CouldNotStart => reveal_strlit("Adufa 无法启动。"),
    }
}

} // verus!

//! The texts of the tray menu in each supported language, and the language events.
use vstd::prelude::*;

use crate::text::chars_eq_str;
use crate::text::chars_of;

verus! {

/// The event sent when the language changes, naming a supported language.
#[derive(Debug, Clone, Copy, PartialEq, Eq)]
pub struct LanguageChanged {
    pub language: &'static str,
}

/// The labels of the tray menu.
#[derive(Debug, Clone, Copy, PartialEq, Eq)]
pub struct TrayText {
    pub open_dashboard: &'static str,
    pub auto_start: &'static str,
    pub privacy_mode: &'static str,
    pub privacy_mode_partial: &'static str,
    pub mode: &'static str,
    pub mode_dashboard: &'static str,
    pub mode_minimal: &'static str,
    pub language: &'static str,
    pub quit: &'static str,
}

/// The tray labels for `language`; languages other than the four translations get English.
pub open spec fn is_tray_text(t: TrayText, language: Seq<char>) -> bool {
    if language == "zh-CN"@ {
        &&& t.open_dashboard@ == "打开主界面"@
        &&& t.auto_start@ == "开机自启"@
        &&& t.privacy_mode@ == "隐私模式"@
        &&& t.privacy_mode_partial@ == "隐私模式（部分）"@
        &&& t.mode@ == "模式"@
        &&& t.mode_dashboard@ == "Dashboard"@
        &&& t.mode_minimal@ == "极简"@
        &&& t.language@ == "语言"@
        &&& t.quit@ == "退出"@
    } else if language == "zh-TW"@ {
        &&& t.open_dashboard@ == "開啟主介面"@
        &&& t.auto_start@ == "開機自啟"@
        &&& t.privacy_mode@ == "隱私模式"@
        &&& t.privacy_mode_partial@ == "隱私模式（部分）"@
        &&& t.mode@ == "模式"@
        &&& t.mode_dashboard@ == "Dashboard"@
        &&& t.mode_minimal@ == "極簡"@
        &&& t.language@ == "語言"@
        &&& t.quit@ == "退出"@
    } else if language == "fr-FR"@ {
        &&& t.open_dashboard@ == "Ouvrir le tableau de bord"@
        &&& t.auto_start@ == "Lancer au démarrage"@
        &&& t.privacy_mode@ == "Mode privé"@
        &&& t.privacy_mode_partial@ == "Mode privé (partiel)"@
        &&& t.mode@ == "Mode"@
        &&& t.mode_dashboard@ == "Dashboard"@
        &&& t.mode_minimal@ == "Minimal"@
        &&& t.language@ == "Langue"@
        &&& t.quit@ == "Quitter"@
    } else if language == "ru-RU"@ {
        &&& t.open_dashboard@ == "Открыть панель"@
        &&& t.auto_start@ == "Автозапуск"@
        &&& t.privacy_mode@ == "Приватный режим"@
        &&& t.privacy_mode_partial@ == "Приватный режим (частично)"@
        &&& t.mode@ == "Режим"@
        &&& t.mode_dashboard@ == "Dashboard"@
        &&& t.mode_minimal@ == "Минимальный"@
        &&& t.language@ == "Язык"@
        &&& t.quit@ == "Выход"@
    } else {
        &&& t.open_dashboard@ == "Open Dashboard"@
        &&& t.auto_start@ == "Auto Start"@
        &&& t.privacy_mode@ == "Privacy Mode"@
        &&& t.privacy_mode_partial@ == "Privacy Mode (Partial)"@
        &&& t.mode@ == "Mode"@
        &&& t.mode_dashboard@ == "Dashboard"@
        &&& t.mode_minimal@ == "Minimal"@
        &&& t.language@ == "Language"@
        &&& t.quit@ == "Quit"@
    }
}

/// The tray labels in `language`: Simplified or Traditional Chinese, French or
/// Russian, and English for any other language.
pub fn tray_text(language: &str) -> (r: TrayText)
    ensures
        is_tray_text(r, language@),
{
    let chars = chars_of(language);
    if chars_eq_str(chars.as_slice(), "zh-CN") {
        TrayText {
            open_dashboard: "打开主界面",
            auto_start: "开机自启",
            privacy_mode: "隐私模式",
            privacy_mode_partial: "隐私模式（部分）",
            mode: "模式",
            mode_dashboard: "Dashboard",
            mode_minimal: "极简",
            language: "语言",
            quit: "退出",
        }
    } else if chars_eq_str(chars.as_slice(), "zh-TW") {
        TrayText {
            open_dashboard: "開啟主介面",
            auto_start: "開機自啟",
            privacy_mode: "隱私模式",
            privacy_mode_partial: "隱私模式（部分）",
            mode: "模式",
            mode_dashboard: "Dashboard",
            mode_minimal: "極簡",
            language: "語言",
            quit: "退出",
        }
    } else if chars_eq_str(chars.as_slice(), "fr-FR") {
        TrayText {
            open_dashboard: "Ouvrir le tableau de bord",
            auto_start: "Lancer au démarrage",
            privacy_mode: "Mode privé",
            privacy_mode_partial: "Mode privé (partiel)",
            mode: "Mode",
            mode_dashboard: "Dashboard",
            mode_minimal: "Minimal",
            language: "Langue",
            quit: "Quitter",
        }
    } else if chars_eq_str(chars.as_slice(), "ru-RU") {
        TrayText {
            open_dashboard: "Открыть панель",
            auto_start: "Автозапуск",
            privacy_mode: "Приватный режим",
            privacy_mode_partial: "Приватный режим (частично)",
            mode: "Режим",
            mode_dashboard: "Dashboard",
            mode_minimal: "Минимальный",
            language: "Язык",
            quit: "Выход",
        }
    } else {
        TrayText {
            open_dashboard: "Open Dashboard",
            auto_start: "Auto Start",
            privacy_mode: "Privacy Mode",
            privacy_mode_partial: "Privacy Mode (Partial)",
            mode: "Mode",
            mode_dashboard: "Dashboard",
            mode_minimal: "Minimal",
            language: "Language",
            quit: "Quit",
        }
    }
}

/// The supported languages, each with its code and its name in itself.
pub fn supported_languages() -> (r: Vec<(&'static str, &'static str)>)
    ensures
        r@.len() == 5,
        r@[0].0@ == "en-US"@ && r@[0].1@ == "English"@,
        r@[1].0@ == "zh-CN"@ && r@[1].1@ == "简体中文"@,
        r@[2].0@ == "zh-TW"@ && r@[2].1@ == "繁體中文"@,
        r@[3].0@ == "fr-FR"@ && r@[3].1@ == "Français"@,
        r@[4].0@ == "ru-RU"@ && r@[4].1@ == "Русский"@,
{
    vec![
        ("en-US", "English"),
        ("zh-CN", "简体中文"),
        ("zh-TW", "繁體中文"),
        ("fr-FR", "Français"),
        ("ru-RU", "Русский"),
    ]
}

pub open spec fn is_supported_language(language: Seq<char>) -> bool {
    language == "en-US"@ || language == "zh-CN"@ || language == "zh-TW"@ || language == "fr-FR"@
        || language == "ru-RU"@
}

/// The supported language equal to `language`, or `en-US`.
pub fn canonical(language: &str) -> (r: &'static str)
    ensures
        is_supported_language(language@) ==> r@ == language@,
        !is_supported_language(language@) ==> r@ == "en-US"@,
{
    let languages = supported_languages();
    let mut i: usize = 0;
    while i < languages.len()
        invariant
            i <= languages@.len(),
            languages@.len() == 5,
            languages@[0].0@ == "en-US"@,
            languages@[1].0@ == "zh-CN"@,
            languages@[2].0@ == "zh-TW"@,
            languages@[3].0@ == "fr-FR"@,
            languages@[4].0@ == "ru-RU"@,
            forall|k: int| 0 <= k < i ==> languages@[k].0@ != language@,
        decreases languages@.len() - i,
    {
        let (code, _) = languages[i];
        if crate::text::str_eq(code, language) {
            return code;
        }
        i = i + 1;
    }
    "en-US"
}

/// The event announcing a change to `language`, which names `en-US` when the
/// language is not supported.
pub fn language_event(language: &str) -> (r: LanguageChanged)
    ensures
        is_supported_language(language@) ==> r.language@ == language@,
        !is_supported_language(language@) ==> r.language@ == "en-US"@,
{
    LanguageChanged { language: canonical(language) }
}

} // verus!

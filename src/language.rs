use vstd::prelude::*;
use crate::text::str_eq;

verus! {

/// Languages as the Steam web API names them.
#[derive(Debug, Clone, Copy, PartialEq, Eq, Structural, PartialOrd, Ord, Hash)]
#[non_exhaustive]
pub enum Language {
    All,
    Arabic,
    Bulgarian,
    SimplifiedChinese,
    TraditionalChinese,
    Czech,
    Danish,
    Dutch,
    English,
    Finnish,
    French,
    German,
    Greek,
    Hungarian,
    Italian,
    Japanese,
    Korean,
    Norwegian,
    Polish,
    Portuguese,
    PortugueseBrazilian,
    Romanian,
    Russian,
    SpanishSpain,
    SpanishLatAm,
    Swedish,
    Thai,
    Turkish,
    Ukrainian,
    Vietnamese,
}

/// The text is not one of the language names that [`Language::from_str`] knows.
#[derive(Debug, Clone, Copy, PartialEq, Eq, Structural)]
pub struct LangParseError;

impl LangParseError {
    /// A human-readable description of the error.
    pub fn message(&self) -> (r: &'static str)
        ensures
            r@ == lang_parse_error_text(),
    {
        "Tried to a parse an unlisted language. Please report! Valve probably added in new languages since I last updated."
    }
}

/// The description of a language that could not be read.
pub open spec fn lang_parse_error_text() -> Seq<char> {
    "Tried to a parse an unlisted language. Please report! Valve probably added in new languages since I last updated."@
}

/// How a language is written in queries and in persisted records.
pub open spec fn language_text(l: Language) -> Seq<char> {
    match l {
        Language::All => "all"@,
        Language::Arabic => "arabic"@,
        Language::Bulgarian => "bulgarian"@,
        Language::SimplifiedChinese => "schinese"@,
        Language::TraditionalChinese => "tchinese"@,
        Language::Czech => "czech"@,
        Language::Danish => "danish"@,
        Language::Dutch => "dutch"@,
        Language::English => "english"@,
        Language::Finnish => "finnish"@,
        Language::French => "french"@,
        Language::German => "german"@,
        Language::Greek => "greek"@,
        Language::Hungarian => "hungarian"@,
        Language::Italian => "italian"@,
        Language::Japanese => "japanese"@,
        Language::Korean => "koreana"@,
        Language::Norwegian => "norwegian"@,
        Language::Polish => "polish"@,
        Language::Portuguese => "portuguese"@,
        Language::PortugueseBrazilian => "brazilian"@,
        Language::Romanian => "romanian"@,
        Language::Russian => "russian"@,
        Language::SpanishSpain => "spanish"@,
        Language::SpanishLatAm => "latam"@,
        Language::Swedish => "swedish"@,
        Language::Thai => "thai"@,
        Language::Turkish => "turkish"@,
        Language::Ukrainian => "ukrainian"@,
        Language::Vietnamese => "vietnamese"@,
    }
}

/// The short code of a language.
pub open spec fn language_code_text(l: Language) -> Seq<char> {
    match l {
        Language::All => "all"@,
        Language::Arabic => "ar"@,
        Language::Bulgarian => "bg"@,
        Language::SimplifiedChinese => "zh-CN"@,
        Language::TraditionalChinese => "zh-TW"@,
        Language::Czech => "cs"@,
        Language::Danish => "da"@,
        Language::Dutch => "nl"@,
        Language::English => "en"@,
        Language::Finnish => "fi"@,
        Language::French => "fr"@,
        Language::German => "de"@,
        Language::Greek => "el el"@,
        Language::Hungarian => "hu"@,
        Language::Italian => "it"@,
        Language::Japanese => "ja"@,
        Language::Korean => "ko"@,
        Language::Norwegian => "no"@,
        Language::Polish => "pl"@,
        Language::Portuguese => "pt"@,
        Language::PortugueseBrazilian => "pt-BR"@,
        Language::Romanian => "ro"@,
        Language::Russian => "ru"@,
        Language::SpanishSpain => "es"@,
        Language::SpanishLatAm => "es-419"@,
        Language::Swedish => "sv"@,
        Language::Thai => "th"@,
        Language::Turkish => "tr"@,
        Language::Ukrainian => "uk"@,
        Language::Vietnamese => "vn"@,
    }
}

/// The name of a language in that language.
pub open spec fn native_name_text(l: Language) -> Seq<char> {
    match l {
        Language::All => "All"@,
        Language::Arabic => "العربية"@,
        Language::Bulgarian => "български език"@,
        Language::SimplifiedChinese => "简体中文"@,
        Language::TraditionalChinese => "繁體中文"@,
        Language::Czech => "čeština"@,
        Language::Danish => "Dansk"@,
        Language::Dutch => "Nederlands"@,
        Language::English => "English"@,
        Language::Finnish => "Suomi"@,
        Language::French => "Français"@,
        Language::German => "Deutsch"@,
        Language::Greek => "Ελληνικά"@,
        Language::Hungarian => "Magyar"@,
        Language::Italian => "Italiano"@,
        Language::Japanese => "日本語"@,
        Language::Korean => "한국어"@,
        Language::Norwegian => "Norsk"@,
        Language::Polish => "Polski"@,
        Language::Portuguese => "Português"@,
        Language::PortugueseBrazilian => "Português-Brasil"@,
        Language::Romanian => "Română"@,
        Language::Russian => "Русский"@,
        Language::SpanishSpain => "Español-España"@,
        Language::SpanishLatAm => "Español-Latinoamérica"@,
        Language::Swedish => "Svenska"@,
        Language::Thai => "ไทย"@,
        Language::Turkish => "Türkçe"@,
        Language::Ukrainian => "Українська"@,
        Language::Vietnamese => "Tiếng Việt"@,
    }
}

/// The language that a text names: its query form, its native name or its short code.
pub open spec fn parse_language(s: Seq<char>) -> Option<Language> {
    if s == "all"@ {
        Some(Language::All)
    } else if s == "arabic"@ || s == "العربية"@ || s == "ar"@ {
        Some(Language::Arabic)
    } else if s == "bulgarian"@ || s == "български език"@ || s == "bg"@ {
        Some(Language::Bulgarian)
    } else if s == "schinese"@ || s == "简体中文"@ || s == "zh-CN"@ {
        Some(Language::SimplifiedChinese)
    } else if s == "tchinese"@ || s == "繁體中文"@ || s == "zh-TW"@ {
        Some(Language::TraditionalChinese)
    } else if s == "czech"@ || s == "čeština"@ || s == "cs"@ {
        Some(Language::Czech)
    } else if s == "danish"@ || s == "Dansk"@ || s == "da"@ {
        Some(Language::Danish)
    } else if s == "dutch"@ || s == "Nederlands"@ || s == "nl"@ {
        Some(Language::Dutch)
    } else if s == "english"@ || s == "English"@ || s == "en"@ {
        Some(Language::English)
    } else if s == "finnish"@ || s == "Suomi"@ || s == "fl"@ {
        Some(Language::Finnish)
    } else if s == "french"@ || s == "Français"@ || s == "fr"@ {
        Some(Language::French)
    } else if s == "german"@ || s == "Deutsch"@ || s == "de"@ {
        Some(Language::German)
    } else if s == "greek"@ || s == "Ελληνικά"@ || s == "el"@ {
        Some(Language::Greek)
    } else if s == "hungarian"@ || s == "Magyar"@ || s == "hu"@ {
        Some(Language::Hungarian)
    } else if s == "italian"@ || s == "Italiano"@ || s == "it"@ {
        Some(Language::Italian)
    } else if s == "japanese"@ || s == "日本語"@ || s == "ja"@ {
        Some(Language::Japanese)
    } else if s == "koreana"@ || s == "한국어"@ || s == "ko"@ {
        Some(Language::Korean)
    } else if s == "norwegian"@ || s == "Norsk"@ || s == "no"@ {
        Some(Language::Norwegian)
    } else if s == "polish"@ || s == "Polski"@ || s == "pl"@ {
        Some(Language::Polish)
    } else if s == "portuguese"@ || s == "Português"@ || s == "pt"@ {
        Some(Language::Portuguese)
    } else if s == "brazilian"@ || s == "Português-Brasil"@ || s == "pt-BR"@ {
        Some(Language::PortugueseBrazilian)
    } else if s == "romanian"@ || s == "Română"@ || s == "ro"@ {
        Some(Language::Romanian)
    } else if s == "russian"@ || s == "Русский"@ || s == "ru"@ {
        Some(Language::Russian)
    } else if s == "spanish"@ || s == "Español-España"@ || s == "es"@ {
        Some(Language::SpanishSpain)
    } else if s == "latam"@ || s == "Español-Latinoamérica"@ || s == "es-419"@ {
        Some(Language::SpanishLatAm)
    } else if s == "swedish"@ || s == "Svenska"@ || s == "sv"@ {
        Some(Language::Swedish)
    } else if s == "thai"@ || s == "ไทย"@ || s == "th"@ {
        Some(Language::Thai)
    } else if s == "turkish"@ || s == "Türkçe"@ || s == "tr"@ {
        Some(Language::Turkish)
    } else if s == "ukrainian"@ || s == "Українська"@ || s == "uk"@ {
        Some(Language::Ukrainian)
    } else if s == "vietnamese"@ || s == "Tiếng Việt"@ || s == "vn"@ {
        Some(Language::Vietnamese)
    } else {
        None
    }
}

impl Language {
    /// How the language appears in queries.
    pub fn as_str(self) -> (r: &'static str)
        ensures
            r@ == language_text(self),
    {
        match self {
            Language::All => "all",
            Language::Arabic => "arabic",
            Language::Bulgarian => "bulgarian",
            Language::SimplifiedChinese => "schinese",
            Language::TraditionalChinese => "tchinese",
            Language::Czech => "czech",
            Language::Danish => "danish",
            Language::Dutch => "dutch",
            Language::English => "english",
            Language::Finnish => "finnish",
            Language::French => "french",
            Language::German => "german",
            Language::Greek => "greek",
            Language::Hungarian => "hungarian",
            Language::Italian => "italian",
            Language::Japanese => "japanese",
            Language::Korean => "koreana",
            Language::Norwegian => "norwegian",
            Language::Polish => "polish",
            Language::Portuguese => "portuguese",
            Language::PortugueseBrazilian => "brazilian",
            Language::Romanian => "romanian",
            Language::Russian => "russian",
            Language::SpanishSpain => "spanish",
            Language::SpanishLatAm => "latam",
            Language::Swedish => "swedish",
            Language::Thai => "thai",
            Language::Turkish => "turkish",
            Language::Ukrainian => "ukrainian",
            Language::Vietnamese => "vietnamese",
        }
    }

    /// Shorthand language code as the Steam web API writes it.
    pub fn language_code(self) -> (r: &'static str)
        ensures
            r@ == language_code_text(self),
    {
        match self {
            Language::All => "all",
            Language::Arabic => "ar",
            Language::Bulgarian => "bg",
            Language::SimplifiedChinese => "zh-CN",
            Language::TraditionalChinese => "zh-TW",
            Language::Czech => "cs",
            Language::Danish => "da",
            Language::Dutch => "nl",
            Language::English => "en",
            Language::Finnish => "fi",
            Language::French => "fr",
            Language::German => "de",
            Language::Greek => "el el",
            Language::Hungarian => "hu",
            Language::Italian => "it",
            Language::Japanese => "ja",
            Language::Korean => "ko",
            Language::Norwegian => "no",
            Language::Polish => "pl",
            Language::Portuguese => "pt",
            Language::PortugueseBrazilian => "pt-BR",
            Language::Romanian => "ro",
            Language::Russian => "ru",
            Language::SpanishSpain => "es",
            Language::SpanishLatAm => "es-419",
            Language::Swedish => "sv",
            Language::Thai => "th",
            Language::Turkish => "tr",
            Language::Ukrainian => "uk",
            Language::Vietnamese => "vn",
        }
    }

    /// The language's native name.
    pub fn native_name(self) -> (r: &'static str)
        ensures
            r@ == native_name_text(self),
    {
        match self {
            Language::All => "All",
            Language::Arabic => "العربية",
            Language::Bulgarian => "български език",
            Language::SimplifiedChinese => "简体中文",
            Language::TraditionalChinese => "繁體中文",
            Language::Czech => "čeština",
            Language::Danish => "Dansk",
            Language::Dutch => "Nederlands",
            Language::English => "English",
            Language::Finnish => "Suomi",
            Language::French => "Français",
            Language::German => "Deutsch",
            Language::Greek => "Ελληνικά",
            Language::Hungarian => "Magyar",
            Language::Italian => "Italiano",
            Language::Japanese => "日本語",
            Language::Korean => "한국어",
            Language::Norwegian => "Norsk",
            Language::Polish => "Polski",
            Language::Portuguese => "Português",
            Language::PortugueseBrazilian => "Português-Brasil",
            Language::Romanian => "Română",
            Language::Russian => "Русский",
            Language::SpanishSpain => "Español-España",
            Language::SpanishLatAm => "Español-Latinoamérica",
            Language::Swedish => "Svenska",
            Language::Thai => "ไทย",
            Language::Turkish => "Türkçe",
            Language::Ukrainian => "Українська",
            Language::Vietnamese => "Tiếng Việt",
        }
    }

    /// Reads a language from its query form, its native name or its short code.
    pub fn from_str(s: &str) -> (r: Result<Language, LangParseError>)
        ensures
            r is Ok <==> parse_language(s@) is Some,
            r matches Ok(l) ==> parse_language(s@) == Some(l),
    {
        if str_eq(s, "all") {
            Ok(Language::All)
        } else if str_eq(s, "arabic") || str_eq(s, "العربية") || str_eq(s, "ar") {
            Ok(Language::Arabic)
        } else if str_eq(s, "bulgarian") || str_eq(s, "български език") || str_eq(s, "bg") {
            Ok(Language::Bulgarian)
        } else if str_eq(s, "schinese") || str_eq(s, "简体中文") || str_eq(s, "zh-CN") {
            Ok(Language::SimplifiedChinese)
        } else if str_eq(s, "tchinese") || str_eq(s, "繁體中文") || str_eq(s, "zh-TW") {
            Ok(Language::TraditionalChinese)
        } else if str_eq(s, "czech") || str_eq(s, "čeština") || str_eq(s, "cs") {
            Ok(Language::Czech)
        } else if str_eq(s, "danish") || str_eq(s, "Dansk") || str_eq(s, "da") {
            Ok(Language::Danish)
        } else if str_eq(s, "dutch") || str_eq(s, "Nederlands") || str_eq(s, "nl") {
            Ok(Language::Dutch)
        } else if str_eq(s, "english") || str_eq(s, "English") || str_eq(s, "en") {
            Ok(Language::English)
        } else if str_eq(s, "finnish") || str_eq(s, "Suomi") || str_eq(s, "fl") {
            Ok(Language::Finnish)
        } else if str_eq(s, "french") || str_eq(s, "Français") || str_eq(s, "fr") {
            Ok(Language::French)
        } else if str_eq(s, "german") || str_eq(s, "Deutsch") || str_eq(s, "de") {
            Ok(Language::German)
        } else if str_eq(s, "greek") || str_eq(s, "Ελληνικά") || str_eq(s, "el") {
            Ok(Language::Greek)
        } else if str_eq(s, "hungarian") || str_eq(s, "Magyar") || str_eq(s, "hu") {
            Ok(Language::Hungarian)
        } else if str_eq(s, "italian") || str_eq(s, "Italiano") || str_eq(s, "it") {
            Ok(Language::Italian)
        } else if str_eq(s, "japanese") || str_eq(s, "日本語") || str_eq(s, "ja") {
            Ok(Language::Japanese)
        } else if str_eq(s, "koreana") || str_eq(s, "한국어") || str_eq(s, "ko") {
            Ok(Language::Korean)
        } else if str_eq(s, "norwegian") || str_eq(s, "Norsk") || str_eq(s, "no") {
            Ok(Language::Norwegian)
        } else if str_eq(s, "polish") || str_eq(s, "Polski") || str_eq(s, "pl") {
            Ok(Language::Polish)
        } else if str_eq(s, "portuguese") || str_eq(s, "Português") || str_eq(s, "pt") {
            Ok(Language::Portuguese)
        } else if str_eq(s, "brazilian") || str_eq(s, "Português-Brasil") || str_eq(s, "pt-BR") {
            Ok(Language::PortugueseBrazilian)
        } else if str_eq(s, "romanian") || str_eq(s, "Română") || str_eq(s, "ro") {
            Ok(Language::Romanian)
        } else if str_eq(s, "russian") || str_eq(s, "Русский") || str_eq(s, "ru") {
            Ok(Language::Russian)
        } else if str_eq(s, "spanish") || str_eq(s, "Español-España") || str_eq(s, "es") {
            Ok(Language::SpanishSpain)
        } else if str_eq(s, "latam") || str_eq(s, "Español-Latinoamérica") || str_eq(s, "es-419") {
            Ok(Language::SpanishLatAm)
        } else if str_eq(s, "swedish") || str_eq(s, "Svenska") || str_eq(s, "sv") {
            Ok(Language::Swedish)
        } else if str_eq(s, "thai") || str_eq(s, "ไทย") || str_eq(s, "th") {
            Ok(Language::Thai)
        } else if str_eq(s, "turkish") || str_eq(s, "Türkçe") || str_eq(s, "tr") {
            Ok(Language::Turkish)
        } else if str_eq(s, "ukrainian") || str_eq(s, "Українська") || str_eq(s, "uk") {
            Ok(Language::Ukrainian)
        } else if str_eq(s, "vietnamese") || str_eq(s, "Tiếng Việt") || str_eq(s, "vn") {
            Ok(Language::Vietnamese)
        } else {
            Err(LangParseError)
        }
    }
}

} // verus!

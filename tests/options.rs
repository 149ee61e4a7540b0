use steam_rev_query::language::Language;
use steam_rev_query::options::{Filter, PurchaseType, ReviewType};
use steam_rev_query::score::ReviewScore;
use steam_rev_query::text::{decimal_string, str_eq};

#[test]
fn option_texts_and_defaults() {
    assert_eq!(ReviewType::Positive.as_str(), "positive");
    assert_eq!(Filter::Updated.as_str(), "updated");
    assert_eq!(PurchaseType::Steam.as_str(), "steam");
    assert_eq!(ReviewType::default(), ReviewType::All);
    assert_eq!(Filter::default(), Filter::All);
    assert_eq!(PurchaseType::default(), PurchaseType::Steam);
}

#[test]
fn good_parse() {
    assert_eq!(Language::from_str("english"), Ok(Language::English));
}

#[test]
fn bad_parse() {
    let _err = Language::from_str("meow talk").unwrap_err();
}

#[test]
fn language_names_codes_and_aliases() {
    assert_eq!(Language::Korean.as_str(), "koreana");
    assert_eq!(Language::SpanishLatAm.language_code(), "es-419");
    assert_eq!(Language::Greek.native_name(), "Ελληνικά");
    assert_eq!(Language::from_str("한국어"), Ok(Language::Korean));
    assert_eq!(Language::from_str("pt-BR"), Ok(Language::PortugueseBrazilian));
    assert_eq!(Language::from_str("fl"), Ok(Language::Finnish));
    assert!(Language::from_str("").is_err());
    assert!(Language::from_str("English ").is_err());
}

#[test]
fn review_scores_round_trip() {
    let all = [
        ReviewScore::OverwhelminglyNegative,
        ReviewScore::VeryNegative,
        ReviewScore::Negative,
        ReviewScore::MostlyNegative,
        ReviewScore::Mixed,
        ReviewScore::MostlyPositive,
        ReviewScore::Positive,
        ReviewScore::VeryPositive,
        ReviewScore::OverwhelminglyPositive,
    ];
    for s in all {
        assert_eq!(ReviewScore::from_str(s.as_str()), Ok(s));
    }
    assert_eq!(ReviewScore::MostlyPositive.as_str(), "Mostly Positive");
    assert!(ReviewScore::from_str("Kinda Positive").is_err());
}

#[test]
fn decimal_and_equality_helpers() {
    assert_eq!(decimal_string(0), "0");
    assert_eq!(decimal_string(9160), "9160");
    assert_eq!(decimal_string(u64::MAX), "18446744073709551615");
    assert!(str_eq("čeština", "čeština"));
    assert!(!str_eq("ab", "abc"));
    assert!(!str_eq("abd", "abc"));
    assert!(str_eq("", ""));
}

#[test]
fn review_type_names_in_any_case() {
    assert_eq!(ReviewType::from_name("POSITIVE"), ReviewType::Positive);
    assert_eq!(ReviewType::from_name("Negative"), ReviewType::Negative);
    assert_eq!(ReviewType::from_name("all"), ReviewType::All);
    assert_eq!(ReviewType::from_name("mixed"), ReviewType::All);
    assert_eq!(ReviewType::from_lowercase("NEGATIVE"), ReviewType::All);
}

use steam_rev_query::error::Error;
use steam_rev_query::language::Language;
use steam_rev_query::records::{FlattenedQuery, Minutes, TitleSerde, UnixTimestamp};
use steam_rev_query::resume::ResumeInfo;

fn record(appid: &str, created: u64) -> FlattenedQuery {
    FlattenedQuery {
        title: TitleSerde::default(),
        appid: TitleSerde::from_text(appid),
        recommendation_id: created,
        steam_id: 1,
        num_games_owned: 0,
        num_reviews: 0,
        playtime_forever: Minutes(0),
        language: Language::German,
        review: String::from("gut"),
        timestamp_created: UnixTimestamp(created),
        voted_up: false,
        votes_up: 0,
        votes_funny: 0,
        comment_count: 0,
        steam_purchase: false,
        received_for_free: true,
        written_during_early_access: true,
        developer_response: String::new(),
    }
}

#[test]
fn resume_info_starts_unset() {
    let info = ResumeInfo::default();
    assert!(info.appid.is_default());
    assert_eq!(info.timestamp, UnixTimestamp(u64::MAX));
}

#[test]
fn update_adopts_appid_and_lowers_timestamp() {
    let mut info = ResumeInfo::default();
    info.update(&record("100", 500)).unwrap();
    assert_eq!(info.appid.as_str(), "100");
    assert_eq!(info.timestamp, UnixTimestamp(500));
    info.update(&record("100", 700)).unwrap();
    assert_eq!(info.timestamp, UnixTimestamp(500));
    info.update(&record("100", 200)).unwrap();
    assert_eq!(info.timestamp, UnixTimestamp(200));
}

#[test]
fn update_rejects_second_appid() {
    let mut info = ResumeInfo::default();
    info.update(&record("100", 500)).unwrap();
    assert!(matches!(info.update(&record("200", 400)), Err(Error::MultipleAppids)));
    assert_eq!(info.appid.as_str(), "100");
    assert_eq!(info.timestamp, UnixTimestamp(400));
}

#[test]
fn day_range_counts_whole_days() {
    let mut info = ResumeInfo::default();
    info.update(&record("1", 1_000_000)).unwrap();
    assert_eq!(info.day_range_at(1_000_000), Some(0));
    assert_eq!(info.day_range_at(1_000_000 + 86_399), Some(0));
    assert_eq!(info.day_range_at(1_000_000 + 86_400 * 365), Some(365));
    assert_eq!(info.day_range_at(1_000_000 - 86_399), Some(0));
    assert_eq!(info.day_range_at(1_000_000 - 86_400), None);
    assert_eq!(info.day_range_at(i64::MIN), None);
}

#[test]
fn day_range_of_empty_resume_is_refused() {
    let info = ResumeInfo::default();
    assert_eq!(info.day_range_at(1_700_000_000), None);
    assert_eq!(info.day_range(), None);
}

#[test]
fn day_range_from_clock_for_past_record() {
    let mut info = ResumeInfo::default();
    info.update(&record("1", 0)).unwrap();
    let days = info.day_range().unwrap();
    assert!(days > 19_000);
}

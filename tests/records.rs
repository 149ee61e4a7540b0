use steam_rev_query::language::Language;
use steam_rev_query::records::{
    success_to_bool, FlattenedQuery, Minutes, Review, ReviewAuthor, TitleSerde, UnixTimestamp,
};

fn fake_review() -> Review {
    Review {
        recommendationid: 0,
        author: ReviewAuthor {
            steamid: 0,
            num_games_owned: 1337,
            num_reviews: 5,
            playtime_forever: Minutes(9001),
            playtime_last_two_weeks: Minutes(480),
            playtime_at_review: Some(Minutes(4096)),
            last_played: UnixTimestamp(1463112000),
        },
        language: Language::English,
        review: "ðŸ˜»ðŸ˜»ðŸ˜» This game is full of CATS.".to_owned(),
        timestamp_created: UnixTimestamp(1618826641),
        timestamp_updated: UnixTimestamp(1618826641),
        voted_up: true,
        votes_up: 28,
        votes_funny: 54,
        weighted_vote_score: "0".to_owned(),
        comment_count: 9,
        steam_purchase: true,
        received_for_free: false,
        written_during_early_access: false,
        developer_response: None,
        timestamp_dev_responded: None,
    }
}

#[test]
fn test_from() {
    let _flattened: FlattenedQuery = FlattenedQuery::from(fake_review());
}

#[test]
fn flattening_keeps_fields_and_uses_placeholders() {
    let q = FlattenedQuery::from(fake_review());
    assert!(q.title.is_default());
    assert!(q.appid.is_default());
    assert_eq!(q.num_games_owned, 1337);
    assert_eq!(q.playtime_forever, Minutes(9001));
    assert_eq!(q.timestamp_created, UnixTimestamp(1618826641));
    assert_eq!(q.votes_funny, 54);
    assert_eq!(q.comment_count, 9);
    assert_eq!(q.developer_response, "");
    assert_eq!(q.review, "ðŸ˜»ðŸ˜»ðŸ˜» This game is full of CATS.");
}

#[test]
fn flattening_with_titles_and_developer_response() {
    let mut r = fake_review();
    r.developer_response = Some("Thanks!".to_owned());
    let q = FlattenedQuery::from_with_title_strs(r, "Master Levels for Doom II", "9160");
    assert_eq!(q.title.as_str(), "Master Levels for Doom II");
    assert_eq!(q.appid.as_str(), "9160");
    assert!(!q.appid.is_default());
    assert_eq!(q.developer_response, "Thanks!");
    let q2 = FlattenedQuery::from_with_titles(fake_review(), TitleSerde::from("T".to_string()), TitleSerde::from_text("1"));
    assert_eq!(q2.title.as_str(), "T");
    assert_eq!(q2.clone(), q2);
}

#[test]
fn success_flag_trusts_only_one() {
    assert!(success_to_bool(1));
    assert!(!success_to_bool(0));
    assert!(!success_to_bool(2));
    assert!(!success_to_bool(255));
}

#[test]
fn default_title_is_placeholder() {
    assert_eq!(TitleSerde::default().as_str(), "NA");
    assert!(TitleSerde::default().is_default());
    assert!(!TitleSerde::from_text("na").is_default());
}

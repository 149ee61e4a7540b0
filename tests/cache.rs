use steam_rev_query::cache::{end_after_zero_wrap, InsertStep, ScraperCache};
use steam_rev_query::error::Error;
use steam_rev_query::language::Language;
use steam_rev_query::records::{FlattenedQuery, Minutes, TitleSerde, UnixTimestamp};

fn record(id: u64, appid: &str, created: u64) -> FlattenedQuery {
    FlattenedQuery {
        title: TitleSerde::from_text("Game"),
        appid: TitleSerde::from_text(appid),
        recommendation_id: id,
        steam_id: 76561197960287930 + id,
        num_games_owned: 3,
        num_reviews: 1,
        playtime_forever: Minutes(60),
        language: Language::English,
        review: format!("review {}", id),
        timestamp_created: UnixTimestamp(created),
        voted_up: id % 2 == 0,
        votes_up: 0,
        votes_funny: 0,
        comment_count: 0,
        steam_purchase: true,
        received_for_free: false,
        written_during_early_access: false,
        developer_response: String::new(),
    }
}

fn batch(ids: std::ops::Range<u64>) -> Vec<FlattenedQuery> {
    ids.map(|i| record(i, "9160", 1_600_000_000 + i)).collect()
}

/// Writes every owed row to `sink`, as a caller's flush does.
fn flush_all(cache: &mut ScraperCache, sink: &mut Vec<FlattenedQuery>) {
    sink.extend(cache.unwritten().iter().cloned());
    cache.flush_cache(Ok(())).unwrap();
}

/// Runs an insert to its end, flushing whenever asked.
fn insert_all(cache: &mut ScraperCache, sink: &mut Vec<FlattenedQuery>, data: &[FlattenedQuery]) -> Result<(), Error> {
    let mut step = cache.insert(data)?;
    while step == InsertStep::Flush {
        flush_all(cache, sink);
        step = cache.continue_insert();
    }
    Ok(())
}

#[test]
fn inserting_same_batch_twice_gives_no_new_data() {
    let mut cache = ScraperCache::new(500);
    let mut sink = Vec::new();
    let data = batch(0..10);
    insert_all(&mut cache, &mut sink, &data).unwrap();
    assert!(matches!(cache.insert(&data), Err(Error::NoDataAfterFiltering)));
    flush_all(&mut cache, &mut sink);
    assert_eq!(sink, data);
    assert_eq!(cache.seen_count(), 10);
}

#[test]
fn small_capacity_flushes_in_order_without_duplicates() {
    let mut cache = ScraperCache::new(3);
    let mut sink = Vec::new();
    let data = batch(0..10);
    let mut step = cache.insert(&data).unwrap();
    let mut flushes = 0;
    while step == InsertStep::Flush {
        assert!(cache.cache_full());
        assert_eq!(cache.cache_free_space(), 0);
        flush_all(&mut cache, &mut sink);
        flushes += 1;
        step = cache.continue_insert();
    }
    assert_eq!(flushes, 3);
    assert_eq!(cache.unwritten().len(), 1);
    flush_all(&mut cache, &mut sink);
    assert_eq!(sink, data);
    let again = batch(5..12);
    insert_all(&mut cache, &mut sink, &again).unwrap();
    flush_all(&mut cache, &mut sink);
    assert_eq!(sink, batch(0..12));
}

#[test]
fn empty_batch_gives_no_new_data() {
    let mut cache = ScraperCache::new(5);
    assert!(matches!(cache.insert(&[]), Err(Error::NoDataAfterFiltering)));
    assert_eq!(cache.cache_free_space(), 5);
}

#[test]
fn equal_records_within_one_batch_are_both_staged() {
    let mut cache = ScraperCache::new(5);
    let data = vec![record(1, "1", 5), record(1, "1", 5)];
    assert_eq!(cache.insert(&data).unwrap(), InsertStep::Done);
    assert_eq!(cache.unwritten().len(), 2);
    assert_eq!(cache.seen_count(), 1);
}

#[test]
fn zero_capacity_stages_one_at_a_time() {
    let mut cache = ScraperCache::new(0);
    assert_eq!(cache.cache_free_space(), 1);
    let mut sink = Vec::new();
    insert_all(&mut cache, &mut sink, &batch(0..3)).unwrap();
    assert_eq!(sink.len(), 2);
    assert_eq!(cache.unwritten().len(), 1);
}

#[test]
fn partial_flush_retry_writes_only_the_rest() {
    let mut cache = ScraperCache::new(5);
    let data = batch(0..5);
    assert_eq!(cache.insert(&data).unwrap(), InsertStep::Done);
    let mut sink: Vec<FlattenedQuery> = Vec::new();
    // The third row fails to serialize.
    sink.extend(cache.unwritten()[..2].iter().cloned());
    let err = cache.flush_cache(Err((2, Error::MultipleAppids))).unwrap_err();
    assert!(matches!(err, Error::MultipleAppids));
    assert_eq!(cache.unwritten(), &data[2..]);
    flush_all(&mut cache, &mut sink);
    assert_eq!(sink, data);
    assert!(cache.unwritten().is_empty());
    assert_eq!(cache.cache_free_space(), 5);
}

#[test]
fn failed_flush_during_insert_abandons_rest_of_batch() {
    let mut cache = ScraperCache::new(2);
    let data = batch(0..4);
    assert_eq!(cache.insert(&data).unwrap(), InsertStep::Flush);
    assert!(cache.flush_cache(Err((0, Error::NoDataAfterFiltering))).is_err());
    // The record that asked for the flush has its hash recorded; the rest do not.
    let retry = batch(2..4);
    let mut sink = Vec::new();
    insert_all(&mut cache, &mut sink, &retry).unwrap();
    flush_all(&mut cache, &mut sink);
    assert_eq!(sink, vec![data[0].clone(), data[1].clone(), data[3].clone()]);
}

#[test]
fn resume_from_two_targets_fails() {
    let mut resumed = ScraperCache::start_resume(500);
    assert!(resumed.replay(Ok(record(1, "100", 10)), true).unwrap().is_none());
    let err = resumed.replay(Ok(record(2, "200", 20)), true).unwrap_err();
    assert!(matches!(err, Error::MultipleAppids));
}

#[test]
fn resume_round_trip_counts_and_oldest_timestamp() {
    let mut cache = ScraperCache::new(4);
    let mut sink = Vec::new();
    let data = vec![record(1, "9160", 300), record(2, "9160", 100), record(3, "9160", 200)];
    insert_all(&mut cache, &mut sink, &data).unwrap();
    flush_all(&mut cache, &mut sink);
    let mut resumed = ScraperCache::start_resume(4);
    for row in sink {
        assert!(resumed.replay(Ok(row), true).unwrap().is_none());
    }
    assert_eq!(resumed.cache.seen_count(), 3);
    assert_eq!(resumed.resume_info.timestamp, UnixTimestamp(100));
    assert_eq!(resumed.resume_info.appid.as_str(), "9160");
    assert!(resumed.cache.unwritten().is_empty());
    // The resumed buffer knows the persisted records.
    assert!(matches!(resumed.cache.insert(&data), Err(Error::NoDataAfterFiltering)));
}

#[test]
fn resume_parse_errors_skip_or_fail() {
    let mut resumed = ScraperCache::start_resume(10);
    let skipped = resumed.replay(Err(Error::NoDataAfterFiltering), false).unwrap();
    assert!(matches!(skipped, Some(Error::NoDataAfterFiltering)));
    assert_eq!(resumed.cache.seen_count(), 0);
    assert!(resumed.resume_info.appid.is_default());
    assert!(resumed.replay(Err(Error::MultipleAppids), true).is_err());
}

#[test]
fn error_texts() {
    assert_eq!(Error::MultipleAppids.message(), Some("Scraping multiple appids is unsupported."));
    assert_eq!(
        Error::NoDataAfterFiltering.message(),
        Some("No data were available to write after filtering for duplicates.")
    );
    let io = Error::from(std::io::Error::new(std::io::ErrorKind::Other, "disk"));
    assert_eq!(io.message(), None);
}

#[test]
fn keep_going_turns_no_new_data_into_empty_batch() {
    let kept = end_after_zero_wrap::<FlattenedQuery>(Err(Error::NoDataAfterFiltering), true).unwrap();
    assert!(kept.is_empty());
    assert!(matches!(
        end_after_zero_wrap::<FlattenedQuery>(Err(Error::NoDataAfterFiltering), false),
        Err(Error::NoDataAfterFiltering)
    ));
    assert!(matches!(end_after_zero_wrap::<FlattenedQuery>(Err(Error::MultipleAppids), true), Err(Error::MultipleAppids)));
    assert_eq!(end_after_zero_wrap(Ok(vec![1u8, 2]), true).unwrap(), vec![1, 2]);
}

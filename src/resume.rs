use vstd::prelude::*;
use crate::error::Error;
use crate::records::{FlatView, FlattenedQuery, TitleSerde, UnixTimestamp, default_title};
use crate::text::str_eq;

verus! {

/// The oldest of a timestamp and a record's creation time.
pub open spec fn oldest(ts: u64, q: FlatView) -> u64 {
    if ts > q.timestamp_created.0 {
        q.timestamp_created.0
    } else {
        ts
    }
}

/// The product id after a record is replayed: a placeholder adopts the record's
/// id; `None` when the record belongs to another product.
pub open spec fn adopted_appid(appid: Seq<char>, q: FlatView) -> Option<Seq<char>> {
    if appid == default_title() {
        Some(q.appid)
    } else if appid != q.appid {
        None
    } else {
        Some(appid)
    }
}

/// Seconds in a day.
pub const SECS_PER_DAY: i128 = 86400;

/// Whole days from `then` to `now`, rounded toward zero.
pub open spec fn days_between(now: int, then: int) -> int {
    let d = now - then;
    if d >= 0 {
        d / 86400
    } else {
        -((-d) / 86400)
    }
}

/// The day range that reaches back from `now` to a scrape's oldest record: `None`
/// when that record lies in the future or the range does not fit in a `u32`.
pub open spec fn day_window(now: i64, oldest: u64) -> Option<u32> {
    let d = days_between(now as int, oldest as int);
    if 0 <= d <= u32::MAX {
        Some(d as u32)
    } else {
        None
    }
}

/// Relies on `chrono::Utc::now` and `DateTime::timestamp`: the current time, in
/// seconds since the Unix epoch. Nothing is promised of its value.
#[verifier::external_body]
fn utc_now() -> i64 {
    chrono::Utc::now().timestamp()
}

/// What a resumed scrape needs: its product and the creation time of its oldest record.
#[derive(Debug)]
pub struct ResumeInfo {
    /// The product; the placeholder "NA" until a record names one.
    pub appid: TitleSerde,
    /// The oldest creation time seen; the largest timestamp until a record lowers it.
    pub timestamp: UnixTimestamp,
}

impl Default for ResumeInfo {
    fn default() -> (r: Self)
        ensures
            r.appid@ == default_title(),
            r.timestamp.0 == u64::MAX,
    {
        ResumeInfo { appid: TitleSerde::default(), timestamp: UnixTimestamp(u64::MAX) }
    }
}

impl ResumeInfo {
    /// Folds one persisted record in: the oldest timestamp is lowered to it, and
    /// its product is adopted, or, when it differs from the one already adopted,
    /// the replay fails with `MultipleAppids`.
    pub fn update(&mut self, query: &FlattenedQuery) -> (r: Result<(), Error>)
        ensures
            final(self).timestamp.0 == oldest(old(self).timestamp.0, query@),
            match adopted_appid(old(self).appid@, query@) {
                Some(a) => r is Ok && final(self).appid@ == a,
                None => r matches Err(Error::MultipleAppids) && final(self).appid == old(self).appid,
            },
    {
        if self.timestamp.0 > query.timestamp_created.0 {
            self.timestamp = query.timestamp_created;
        }
        if self.appid.is_default() {
            self.appid = query.appid.clone();
            Ok(())
        } else if !str_eq(self.appid.as_str(), query.appid.as_str()) {
            Err(Error::MultipleAppids)
        } else {
            Ok(())
        }
    }

    /// The day range of a resumed scrape at time `now` (seconds since the epoch):
    /// `None` when the oldest record lies in the future, which must not be resumed.
    pub fn day_range_at(&self, now: i64) -> (r: Option<u32>)
        ensures
            r == day_window(now, self.timestamp.0),
    {
        let d: i128 = now as i128 - self.timestamp.0 as i128;
        let days: i128 = if d >= 0 {
            d / SECS_PER_DAY
        } else {
            -((-d) / SECS_PER_DAY)
        };
        if 0 <= days && days <= u32::MAX as i128 {
            Some(days as u32)
        } else {
            None
        }
    }

    /// The day range of a resumed scrape, reaching back from the current time.
    pub fn day_range(&self) -> (r: Option<u32>)
        ensures
            exists|now: i64| r == day_window(now, self.timestamp.0),
    {
        let now = utc_now();
        self.day_range_at(now)
    }
}

} // verus!

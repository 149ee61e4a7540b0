use vstd::prelude::*;
use std::time::Instant;
use url::ParseError;
use url::Url;
use crate::error::{Error, RevApiError};
use crate::options::filter_pages;
use crate::query::{ReviewApi, cursor_step, url_parses, endpoint};
use crate::records::{FlatView, FlattenedQuery, Review, SteamRevOuter, TitleSerde, flatten};

verus! {

/// A reading of the monotonic clock.
#[verifier::external_type_specification]
#[verifier::external_body]
pub struct ExInstant(Instant);

/// Relies on `std::time::Instant::now`: a reading of the monotonic clock.
#[verifier::external_body]
fn clock_now() -> Instant {
    Instant::now()
}

/// Relies on `Instant::elapsed` and `Duration::as_millis`: whole milliseconds since
/// `t`. Nothing is promised of its value.
#[verifier::external_body]
fn millis_since(t: &Instant) -> u128 {
    t.elapsed().as_millis()
}

/// Milliseconds left of a wait of `fire_time` after `elapsed` have passed.
pub open spec fn time_left_after(fire_time: u128, elapsed: u128) -> u128 {
    if elapsed >= fire_time {
        0
    } else {
        (fire_time - elapsed) as u128
    }
}

/// Milliseconds left of a wait of `fire_time` after `elapsed` have passed; zero
/// once it has passed.
pub fn remaining(fire_time: u128, elapsed: u128) -> (r: u128)
    ensures
        r == time_left_after(fire_time, elapsed),
{
    if elapsed >= fire_time {
        0
    } else {
        fire_time - elapsed
    }
}

/// Keeps requests at least a fixed interval apart.
#[derive(Debug, Clone, Copy)]
struct DumbTimer {
    last: Instant,
    /// The interval, in milliseconds.
    fire_time: u128,
}

impl DumbTimer {
    fn new(secs: u64) -> (r: Self)
        ensures
            r.fire_time == secs * 1000,
    {
        DumbTimer { last: clock_now(), fire_time: secs as u128 * 1000 }
    }

    /// Milliseconds since the timer last fired.
    fn elapsed(&self) -> u128 {
        millis_since(&self.last)
    }

    /// Milliseconds until the interval has passed.
    fn time_left(&self) -> (r: u128)
        ensures
            r <= self.fire_time,
    {
        remaining(self.fire_time, self.elapsed())
    }

    /// Whether the interval has passed.
    fn complete(&self) -> bool {
        self.elapsed() >= self.fire_time
    }

    /// Fires the timer now.
    fn reset(&mut self)
        ensures
            final(self).fire_time == old(self).fire_time,
    {
        self.last = clock_now();
    }
}

/// The minimum interval between two requests, in seconds.
pub const REQUEST_INTERVAL_SECS: u64 = 30;

/// The records of a page under a product's title and id, in the page's order.
pub open spec fn page_records(reviews: Seq<Review>, title: Seq<char>, appid: Seq<char>) -> Seq<FlatView> {
    reviews.map_values(|r: Review| flatten(r, title, appid))
}

/// What one pull of the sequence yields: the page's records, the end of the
/// sequence when a page comes back empty, or the error of a failed request.
pub open spec fn next_item(
    response: Result<SteamRevOuter, Error>,
    title: Seq<char>,
    appid: Seq<char>,
) -> Option<Result<Seq<FlatView>, Error>> {
    match response {
        Ok(page) => if page.reviews.len() == 0 {
            None
        } else {
            Some(Ok(page_records(page.reviews@, title, appid)))
        },
        Err(e) => Some(Err(e)),
    }
}

/// The values of an item of the poller's sequence.
pub open spec fn result_views(r: Option<Result<Vec<FlattenedQuery>, Error>>) -> Option<Result<Seq<FlatView>, Error>> {
    match r {
        Some(Ok(v)) => Some(Ok(v@.map_values(|q: FlattenedQuery| q@))),
        Some(Err(e)) => Some(Err(e)),
        None => None,
    }
}

/// The paginating poller's decisions. The caller waits [`ReviewScraper::wait_time`],
/// sends the request of [`ReviewScraper::start_request`], and hands the outcome to
/// [`ReviewScraper::next`], which restarts the rate-limit interval, advances the
/// cursor and yields the page's records.
pub struct ReviewScraper {
    query: ReviewApi,
    timer: DumbTimer,
    app_title: TitleSerde,
    appid: TitleSerde,
}

impl ReviewScraper {
    /// A poller's query always permits paging.
    pub closed spec fn wf(&self) -> bool {
        &&& filter_pages(self.query@.filter)
        &&& self.timer.fire_time == REQUEST_INTERVAL_SECS * 1000
    }

    /// The query that the next request sends.
    pub closed spec fn query_view(&self) -> crate::query::QueryView {
        self.query@
    }

    /// The title that the poller's records carry.
    pub closed spec fn title_view(&self) -> Seq<char> {
        self.app_title@
    }

    /// The product id that the poller's records carry.
    pub closed spec fn appid_view(&self) -> Seq<char> {
        self.appid@
    }

    /// A poller over `query`, whose records carry `app_title` and `appid`. A
    /// poller paginates, so a query under the complete sweep is refused with
    /// `InvalidFilterCursor`.
    pub fn try_from(query: ReviewApi, app_title: TitleSerde, appid: TitleSerde) -> (r: Result<Self, Error>)
        ensures
            filter_pages(query@.filter) ==> (r matches Ok(s) && s.wf() && s.query_view() == query@
                && s.title_view() == app_title@ && s.appid_view() == appid@),
            !filter_pages(query@.filter) ==> r matches Err(Error::ReviewApi(RevApiError::InvalidFilterCursor)),
    {
        if query.paging_ok() {
            Ok(ReviewScraper { query, timer: DumbTimer::new(REQUEST_INTERVAL_SECS), app_title, appid })
        } else {
            Err(Error::ReviewApi(RevApiError::InvalidFilterCursor))
        }
    }

    /// The product's title.
    pub fn title(&self) -> (r: &str)
        ensures
            r@ == self.title_view(),
    {
        self.app_title.as_str()
    }

    /// The query that the next request sends.
    pub fn query(&self) -> (r: &ReviewApi)
        ensures
            r@ == self.query_view(),
    {
        &self.query
    }

    /// Milliseconds to wait before the next request: none once the interval since
    /// the previous request has passed, and never more than the interval.
    pub fn wait_time(&self) -> (r: u128)
        requires
            self.wf(),
        ensures
            r <= REQUEST_INTERVAL_SECS * 1000,
    {
        if self.timer.complete() {
            0
        } else {
            self.timer.time_left()
        }
    }

    /// The address of the next request.
    pub fn start_request(&self) -> (r: Result<Url, ParseError>)
        ensures
            r is Ok <==> url_parses(endpoint(self.query_view().appid)),
    {
        self.query.build()
    }

    /// Takes a page in: the cursor advances to the page's, and the page's reviews
    /// become records under the product's title and id, in order. Paging is legal
    /// for every poller, so this always succeeds.
    pub fn pull(&mut self, page: SteamRevOuter) -> (r: Result<Vec<FlattenedQuery>, Error>)
        requires
            old(self).wf(),
        ensures
            final(self).wf(),
            cursor_step(old(self).query_view(), page.cursor@) == Ok::<_, RevApiError>(final(self).query_view()),
            final(self).title_view() == old(self).title_view(),
            final(self).appid_view() == old(self).appid_view(),
            r matches Ok(v) && v@.map_values(|q: FlattenedQuery| q@) == page_records(
                page.reviews@,
                old(self).title_view(),
                old(self).appid_view(),
            ),
    {
        let SteamRevOuter { success: _, query_summary: _, cursor, reviews } = page;
        let ghost reviews_view = reviews@;
        let changed = self.query.change_cursor(cursor.as_str());
        if changed.is_err() {
            return Err(Error::ReviewApi(RevApiError::InvalidFilterCursor));
        }
        let mut out: Vec<FlattenedQuery> = Vec::new();
        let mut rest = reviews;
        proof {
            assert(rest@ =~= reviews_view.subrange(0, reviews_view.len() as int));
        }
        while rest.len() > 0
            invariant
                out@.len() + rest@.len() == reviews_view.len(),
                rest@ == reviews_view.subrange(out@.len() as int, reviews_view.len() as int),
                out@.map_values(|q: FlattenedQuery| q@) == page_records(
                    reviews_view.subrange(0, out@.len() as int),
                    self.app_title@,
                    self.appid@,
                ),
            decreases rest.len(),
        {
            let ghost k: int = out@.len() as int;
            let review = rest.remove(0);
            proof {
                assert(rest@ =~= reviews_view.subrange(k + 1, reviews_view.len() as int));
            }
            let ghost before_out = out@;
            out.push(FlattenedQuery::from_with_titles(review, self.app_title.clone(), self.appid.clone()));
            proof {
                assert(reviews_view.subrange(0, k + 1) =~= reviews_view.subrange(0, k).push(reviews_view[k]));
                assert(out@.map_values(|q: FlattenedQuery| q@) =~= before_out.map_values(|q: FlattenedQuery| q@).push(
                    flatten(reviews_view[k], self.app_title@, self.appid@),
                ));
                assert(page_records(reviews_view.subrange(0, k + 1), self.app_title@, self.appid@) =~= page_records(
                    reviews_view.subrange(0, k),
                    self.app_title@,
                    self.appid@,
                ).push(flatten(reviews_view[k], self.app_title@, self.appid@)));
            }
        }
        proof {
            assert(reviews_view.subrange(0, reviews_view.len() as int) =~= reviews_view);
        }
        Ok(out)
    }

    /// The next item of the poller's sequence, given the outcome of its request: a
    /// page with records yields them, an empty page ends the sequence (`None`), and
    /// a failed request yields its error, leaving the query as it was. Either way
    /// the rate-limit interval starts again now that the request has returned.
    pub fn next(&mut self, response: Result<SteamRevOuter, Error>) -> (r: Option<Result<Vec<FlattenedQuery>, Error>>)
        requires
            old(self).wf(),
        ensures
            final(self).wf(),
            result_views(r) == next_item(response, old(self).title_view(), old(self).appid_view()),
            response matches Ok(page) ==> cursor_step(old(self).query_view(), page.cursor@) == Ok::<_, RevApiError>(
                final(self).query_view(),
            ),
            response is Err ==> final(self).query_view() == old(self).query_view(),
    {
        self.timer.reset();
        match response {
            Ok(page) => {
                let ghost reviews = page.reviews@;
                match self.pull(page) {
                    Ok(records) => {
                        proof {
                            assert(records@.map_values(|q: FlattenedQuery| q@).len() == records@.len());
                            assert(reviews.map_values(|r: Review| flatten(r, self.app_title@, self.appid@)).len()
                                == reviews.len());
                        }
                        if records.len() == 0 {
                            None
                        } else {
                            Some(Ok(records))
                        }
                    },
                    Err(e) => Some(Err(e)),
                }
            },
            Err(e) => Some(Err(e)),
        }
    }
}

} // verus!

use vstd::prelude::*;
use url::ParseError;
use url::Url;
use crate::error::RevApiError;
use crate::language::{Language, language_text};
use crate::options::{Filter, PurchaseType, ReviewType, filter_pages, filter_text, purchase_type_text, review_type_text};
use crate::text::{decimal, decimal_string, str_eq};

verus! {

/// Carried from the query builder to whatever sends the request.
#[verifier::external_type_specification]
#[verifier::external_body]
pub struct ExUrl(Url);

/// The address of the review listing; the product's id follows it.
pub const STEAM_REV_API: &'static str = "https://store.steampowered.com/appreviews/";

/// Whether `url::Url::parse` accepts a text as an absolute URL.
pub uninterp spec fn url_parses(s: Seq<char>) -> bool;

/// Relies on `url::Url::parse_with_params`: it parses `input` with the same parser
/// as `Url::parse` and, on success, appends the pairs to the query; it fails exactly
/// when that parse fails.
#[verifier::external_body]
fn parse_with_params(input: &str, pairs: &Vec<(String, String)>) -> (r: Result<Url, ParseError>)
    ensures
        r is Ok <==> url_parses(input@),
{
    Url::parse_with_params(input, pairs.iter())
}

/// What a query asks of the review listing.
pub struct QueryView {
    pub appid: u32,
    pub filter: Filter,
    pub cursor: Seq<char>,
    pub day_range: Option<u32>,
    pub review_type: Option<ReviewType>,
    pub purchase_type: Option<PurchaseType>,
    pub num_per_page: Option<u8>,
}

/// The cursor that starts a pagination.
pub open spec fn initial_cursor() -> Seq<char> {
    "*"@
}

/// A day range needs the complete sweep, and the complete sweep has no cursor
/// other than the initial one.
pub open spec fn legal(q: QueryView) -> bool {
    &&& q.day_range is Some ==> q.filter == Filter::All
    &&& q.filter == Filter::All ==> q.cursor == initial_cursor()
}

/// A fresh query: newest reviews first, at the start of pagination.
pub open spec fn initial_query(appid: u32) -> QueryView {
    QueryView {
        appid,
        filter: Filter::Recent,
        cursor: initial_cursor(),
        day_range: None,
        review_type: None,
        purchase_type: None,
        num_per_page: None,
    }
}

/// Switching the ordering: the complete sweep is refused in the middle of a
/// pagination, an ordered filter is refused while a day range is set.
pub open spec fn filter_step(q: QueryView, f: Filter) -> Result<QueryView, RevApiError> {
    if f == Filter::All && q.cursor != initial_cursor() {
        Err(RevApiError::InvalidFilterCursor)
    } else if f != Filter::All && q.day_range is Some {
        Err(RevApiError::InvalidFilterDayRange)
    } else {
        Ok(QueryView { filter: f, ..q })
    }
}

/// Setting a day range, legal only under the complete sweep.
pub open spec fn day_range_step(q: QueryView, days: u32) -> Result<QueryView, RevApiError> {
    if q.filter == Filter::All {
        Ok(QueryView { day_range: Some(days), ..q })
    } else {
        Err(RevApiError::InvalidFilterDayRange)
    }
}

/// Advancing the cursor, legal only under an ordered filter.
pub open spec fn cursor_step(q: QueryView, cursor: Seq<char>) -> Result<QueryView, RevApiError> {
    if filter_pages(q.filter) {
        Ok(QueryView { cursor, ..q })
    } else {
        Err(RevApiError::InvalidFilterCursor)
    }
}

/// Changing the product always succeeds and restarts pagination.
pub open spec fn appid_step(q: QueryView, appid: u32) -> QueryView {
    QueryView { appid, cursor: initial_cursor(), ..q }
}

/// The query parameters of a request, in the order in which they are sent.
pub open spec fn query_pairs_of(q: QueryView) -> Seq<(Seq<char>, Seq<char>)> {
    seq![
        ("json"@, "1"@),
        ("language"@, language_text(Language::English)),
        ("filter"@, filter_text(q.filter)),
        ("cursor"@, q.cursor),
    ] + match q.day_range {
        Some(d) => seq![("day_range"@, decimal(d as nat))],
        None => Seq::empty(),
    } + match q.review_type {
        Some(t) => seq![("review_type"@, review_type_text(t))],
        None => Seq::empty(),
    } + match q.purchase_type {
        Some(p) => seq![("purchase_type"@, purchase_type_text(p))],
        None => Seq::empty(),
    } + match q.num_per_page {
        Some(n) => seq![("num_per_page"@, decimal(n as nat))],
        None => Seq::empty(),
    }
}

/// The address of the listing of one product's reviews, before its query.
pub open spec fn endpoint(appid: u32) -> Seq<char> {
    STEAM_REV_API@ + decimal(appid as nat)
}

/// The texts of a sequence of parameter pairs.
pub open spec fn pair_views(v: Seq<(String, String)>) -> Seq<(Seq<char>, Seq<char>)> {
    v.map_values(|p: (String, String)| (p.0@, p.1@))
}

/// Every change of state that the query's methods allow keeps it legal.
pub proof fn lemma_steps_keep_legal(q: QueryView, f: Filter, days: u32, cursor: Seq<char>, appid: u32)
    requires
        legal(q),
    ensures
        filter_step(q, f) matches Ok(n) ==> legal(n),
        day_range_step(q, days) matches Ok(n) ==> legal(n),
        cursor_step(q, cursor) matches Ok(n) ==> legal(n),
        legal(appid_step(q, appid)),
{
}

/// State information and builder for a query of the Steam review listing.
#[derive(Debug)]
pub struct ReviewApi {
    appid: u32,
    filter: Filter,
    cursor: String,
    day_range: Option<u32>,
    review_type: Option<ReviewType>,
    purchase_type: Option<PurchaseType>,
    num_per_page: Option<u8>,
}

impl View for ReviewApi {
    type V = QueryView;

    closed spec fn view(&self) -> QueryView {
        QueryView {
            appid: self.appid,
            filter: self.filter,
            cursor: self.cursor@,
            day_range: self.day_range,
            review_type: self.review_type,
            purchase_type: self.purchase_type,
            num_per_page: self.num_per_page,
        }
    }
}

impl ReviewApi {
    #[verifier::type_invariant]
    closed spec fn inv(&self) -> bool {
        legal(self@)
    }

    /// A query of the reviews of product `appid`, newest first, at the start of
    /// pagination. The id is not checked.
    pub fn new(appid: u32) -> (r: Self)
        ensures
            r@ == initial_query(appid),
    {
        let r = ReviewApi {
            appid,
            filter: Filter::Recent,
            cursor: String::from_str("*"),
            day_range: None,
            review_type: None,
            purchase_type: None,
            num_per_page: None,
        };
        r
    }

    /// The product whose reviews are asked for.
    pub fn current_appid(&self) -> (r: u32)
        ensures
            r == self@.appid,
    {
        self.appid
    }

    /// Switches to another product, which restarts pagination. The id is not checked.
    pub fn appid(&mut self, new_appid: u32) -> (r: &mut Self)
        ensures
            r@ == appid_step(old(self)@, new_appid),
            final(self)@ == final(r)@,
    {
        proof {
            use_type_invariant(&*self);
        }
        self.appid = new_appid;
        self.cursor = String::from_str("*");
        self
    }

    /// The parameter that asks for JSON.
    fn add_json() -> (r: (&'static str, &'static str))
        ensures
            r.0@ == "json"@,
            r.1@ == "1"@,
    {
        ("json", "1")
    }

    /// The parameter that asks for reviews in one language.
    fn add_language(lang: Language) -> (r: (&'static str, &'static str))
        ensures
            r.0@ == "language"@,
            r.1@ == language_text(lang),
    {
        ("language", lang.as_str())
    }

    /// Sets the ordering of the results; see `filter_step` for when it is refused,
    /// in which case nothing changes.
    pub fn filter(&mut self, filt: Filter) -> (r: Result<&mut Self, RevApiError>)
        ensures
            match filter_step(old(self)@, filt) {
                Ok(n) => r matches Ok(s) && s@ == n && final(self)@ == final(s)@,
                Err(e) => r == Err::<&mut Self, RevApiError>(e) && final(self)@ == old(self)@,
            },
    {
        proof {
            use_type_invariant(&*self);
        }
        if filt == Filter::All && !str_eq(self.cursor.as_str(), "*") {
            Err(RevApiError::InvalidFilterCursor)
        } else if filt != Filter::All && self.day_range.is_some() {
            Err(RevApiError::InvalidFilterDayRange)
        } else {
            self.filter = filt;
            Ok(self)
        }
    }

    /// Restricts the complete sweep to reviews of the last `days_ago` days;
    /// refused under an ordered filter, in which case nothing changes.
    pub fn day_range(&mut self, days_ago: u32) -> (r: Result<&mut Self, RevApiError>)
        ensures
            match day_range_step(old(self)@, days_ago) {
                Ok(n) => r matches Ok(s) && s@ == n && final(self)@ == final(s)@,
                Err(e) => r == Err::<&mut Self, RevApiError>(e) && final(self)@ == old(self)@,
            },
    {
        proof {
            use_type_invariant(&*self);
        }
        if self.filter == Filter::All {
            self.day_range = Some(days_ago);
            Ok(self)
        } else {
            Err(RevApiError::InvalidFilterDayRange)
        }
    }

    /// Moves to the page that `new_cursor` names; refused under the complete
    /// sweep, in which case nothing changes.
    pub fn change_cursor(&mut self, new_cursor: &str) -> (r: Result<&mut Self, RevApiError>)
        ensures
            match cursor_step(old(self)@, new_cursor@) {
                Ok(n) => r matches Ok(s) && s@ == n && final(self)@ == final(s)@,
                Err(e) => r == Err::<&mut Self, RevApiError>(e) && final(self)@ == old(self)@,
            },
    {
        proof {
            use_type_invariant(&*self);
        }
        if self.paging_ok() {
            self.cursor = String::from_str(new_cursor);
            Ok(self)
        } else {
            Err(RevApiError::InvalidFilterCursor)
        }
    }

    /// Asks only for positive, only for negative, or for all reviews.
    pub fn review_type(&mut self, rev_type: ReviewType) -> (r: &mut Self)
        ensures
            r@ == (QueryView { review_type: Some(rev_type), ..old(self)@ }),
            final(self)@ == final(r)@,
    {
        proof {
            use_type_invariant(&*self);
        }
        self.review_type = Some(rev_type);
        self
    }

    /// Asks for reviews by where the product was obtained.
    pub fn purchase_type(&mut self, purchase: PurchaseType) -> (r: &mut Self)
        ensures
            r@ == (QueryView { purchase_type: Some(purchase), ..old(self)@ }),
            final(self)@ == final(r)@,
    {
        proof {
            use_type_invariant(&*self);
        }
        self.purchase_type = Some(purchase);
        self
    }

    /// Sets the number of results per page. Larger values than the server's
    /// maximum of 100 are sent as they are; the server caps them.
    pub fn num_per_page(&mut self, amount: u8) -> (r: &mut Self)
        ensures
            r@ == (QueryView { num_per_page: Some(amount), ..old(self)@ }),
            final(self)@ == final(r)@,
    {
        proof {
            use_type_invariant(&*self);
        }
        self.num_per_page = Some(amount);
        self
    }

    /// Whether the current ordering permits a cursor.
    pub fn paging_ok(&self) -> (r: bool)
        ensures
            r == filter_pages(self@.filter),
    {
        match self.filter {
            Filter::All => false,
            Filter::Recent | Filter::Updated => true,
        }
    }

    /// The query parameters of the request, in order.
    pub fn query_pairs(&self) -> (r: Vec<(String, String)>)
        ensures
            pair_views(r@) == query_pairs_of(self@),
    {
        let mut v: Vec<(String, String)> = Vec::new();
        let (k, val) = ReviewApi::add_json();
        v.push((String::from_str(k), String::from_str(val)));
        let (k, val) = ReviewApi::add_language(Language::English);
        v.push((String::from_str(k), String::from_str(val)));
        v.push((String::from_str("filter"), String::from_str(self.filter.as_str())));
        v.push((String::from_str("cursor"), self.cursor.clone()));
        let ghost base = v@;
        if let Some(d) = self.day_range {
            v.push((String::from_str("day_range"), decimal_string(d as u64)));
        }
        let ghost with_days = v@;
        if let Some(t) = self.review_type {
            v.push((String::from_str("review_type"), String::from_str(t.as_str())));
        }
        let ghost with_type = v@;
        if let Some(p) = self.purchase_type {
            v.push((String::from_str("purchase_type"), String::from_str(p.as_str())));
        }
        let ghost with_purchase = v@;
        if let Some(n) = self.num_per_page {
            v.push((String::from_str("num_per_page"), decimal_string(n as u64)));
        }
        proof {
            let q = self@;
            assert(pair_views(base) == seq![
                ("json"@, "1"@),
                ("language"@, language_text(Language::English)),
                ("filter"@, filter_text(q.filter)),
                ("cursor"@, q.cursor),
            ]);
            let d = match q.day_range {
                Some(d) => seq![("day_range"@, decimal(d as nat))],
                None => Seq::empty(),
            };
            let t = match q.review_type {
                Some(t) => seq![("review_type"@, review_type_text(t))],
                None => Seq::empty(),
            };
            let p = match q.purchase_type {
                Some(p) => seq![("purchase_type"@, purchase_type_text(p))],
                None => Seq::empty(),
            };
            let n = match q.num_per_page {
                Some(n) => seq![("num_per_page"@, decimal(n as nat))],
                None => Seq::empty(),
            };
            assert(pair_views(with_days) == pair_views(base) + d);
            assert(pair_views(with_type) == pair_views(base) + d + t);
            assert(pair_views(with_purchase) == pair_views(base) + d + t + p);
            assert(pair_views(v@) == pair_views(base) + d + t + p + n);
        }
        v
    }

    /// The request's address: the listing of the product's reviews with the
    /// query parameters of `query_pairs` appended.
    pub fn build(&self) -> (r: Result<Url, ParseError>)
        ensures
            r is Ok <==> url_parses(endpoint(self@.appid)),
    {
        let mut base = String::from_str(STEAM_REV_API);
        let id = decimal_string(self.appid as u64);
        base.append(id.as_str());
        let pairs = self.query_pairs();
        parse_with_params(base.as_str(), &pairs)
    }
}

} // verus!

use vstd::prelude::*;
use crate::language::Language;
use crate::score::ReviewScore;
use crate::text::str_eq;

verus! {

/// A number of minutes of play.
#[derive(Clone, Copy, Debug, Hash, PartialEq, Eq, Structural, PartialOrd, Ord)]
pub struct Minutes(pub u32);

/// Seconds since the Unix epoch.
#[derive(Clone, Copy, Debug, Hash, PartialEq, Eq, Structural, PartialOrd, Ord)]
pub struct UnixTimestamp(pub u64);

/// Summary of a page of results and of the product's reviews as a whole. Only
/// `num_reviews` is present on every page; the rest come with the first one.
#[derive(Clone, Copy, Debug, Hash, PartialEq, Eq, Structural, PartialOrd, Ord)]
pub struct ReviewQuerySum {
    /// Number of reviews on this page.
    pub num_reviews: u8,
    /// The product's review class.
    pub review_score_desc: Option<ReviewScore>,
    /// Positive reviews of the product on Steam.
    pub total_positive: Option<u32>,
    /// Negative reviews of the product on Steam.
    pub total_negative: Option<u32>,
    /// All reviews of the product on Steam.
    pub total_reviews: Option<u32>,
}

/// The author of a review.
#[derive(Clone, Copy, Debug, Hash, PartialEq, Eq, Structural, PartialOrd, Ord)]
pub struct ReviewAuthor {
    /// The author's SteamID64.
    pub steamid: u64,
    /// Number of products the author owns.
    pub num_games_owned: u32,
    /// Number of reviews the author wrote.
    pub num_reviews: u32,
    /// Time the author played the product.
    pub playtime_forever: Minutes,
    /// Time the author played the product in the last two weeks.
    pub playtime_last_two_weeks: Minutes,
    /// Time the author had played when writing the review; missing for some products.
    pub playtime_at_review: Option<Minutes>,
    /// When the author last played the product.
    pub last_played: UnixTimestamp,
}

/// One review as the listing returns it.
#[derive(Debug, PartialEq)]
pub struct Review {
    /// Unique id of the review.
    pub recommendationid: u64,
    pub author: ReviewAuthor,
    pub language: Language,
    /// Text of the review.
    pub review: String,
    pub timestamp_created: UnixTimestamp,
    /// Equal to `timestamp_created` when the review was never edited.
    pub timestamp_updated: UnixTimestamp,
    /// Whether the review recommends the product.
    pub voted_up: bool,
    pub votes_up: u32,
    pub votes_funny: u32,
    /// Valve's helpfulness score, as the decimal text the listing sends.
    pub weighted_vote_score: String,
    pub comment_count: u32,
    /// Whether the product was bought on Steam.
    pub steam_purchase: bool,
    /// Whether the author said they received the product for free.
    pub received_for_free: bool,
    /// Whether the review was written during Early Access.
    pub written_during_early_access: bool,
    /// The developer's response, if any.
    pub developer_response: Option<String>,
    pub timestamp_dev_responded: Option<UnixTimestamp>,
}

/// One page of the listing.
#[derive(Debug, PartialEq)]
pub struct SteamRevOuter {
    /// The listing's own success flag, which is not reliable.
    pub success: bool,
    pub query_summary: ReviewQuerySum,
    /// Names the next page; handed back to the query to paginate.
    pub cursor: String,
    pub reviews: Vec<Review>,
}

/// The listing's success flag is trusted only when it is exactly 1; any other
/// value, expected or not, reads as failure.
pub fn success_to_bool(value: u8) -> (r: bool)
    ensures
        r == (value == 1),
{
    value == 1
}

/// The placeholder of a title that could not be found.
pub open spec fn default_title() -> Seq<char> {
    "NA"@
}

/// A product's display title, or its id as text.
#[derive(Debug, Hash, Eq, PartialEq)]
pub struct TitleSerde(pub String);

impl View for TitleSerde {
    type V = Seq<char>;

    open spec fn view(&self) -> Seq<char> {
        self.0@
    }
}

impl Clone for TitleSerde {
    fn clone(&self) -> (r: Self)
        ensures
            r == *self,
    {
        TitleSerde(self.0.clone())
    }
}

impl Default for TitleSerde {
    /// The placeholder "NA".
    fn default() -> (r: Self)
        ensures
            r@ == default_title(),
    {
        TitleSerde(String::from_str("NA"))
    }
}

impl From<String> for TitleSerde {
    fn from(title: String) -> TitleSerde {
        TitleSerde(title)
    }
}

impl vstd::std_specs::convert::FromSpecImpl<String> for TitleSerde {
    open spec fn obeys_from_spec() -> bool {
        true
    }

    open spec fn from_spec(title: String) -> TitleSerde {
        TitleSerde(title)
    }
}

impl TitleSerde {
    /// A title with the given text.
    pub fn from_text(title: &str) -> (r: Self)
        ensures
            r@ == title@,
    {
        TitleSerde(String::from_str(title))
    }

    /// The title's text.
    pub fn as_str(&self) -> (r: &str)
        ensures
            r@ == self@,
    {
        self.0.as_str()
    }

    /// Whether this is the placeholder of a missing title.
    pub fn is_default(&self) -> (r: bool)
        ensures
            r == (self@ == default_title()),
    {
        str_eq(self.0.as_str(), "NA")
    }
}

/// A persisted record, as values.
pub struct FlatView {
    pub title: Seq<char>,
    pub appid: Seq<char>,
    pub recommendation_id: u64,
    pub steam_id: u64,
    pub num_games_owned: u32,
    pub num_reviews: u32,
    pub playtime_forever: Minutes,
    pub language: Language,
    pub review: Seq<char>,
    pub timestamp_created: UnixTimestamp,
    pub voted_up: bool,
    pub votes_up: u32,
    pub votes_funny: u32,
    pub comment_count: u32,
    pub steam_purchase: bool,
    pub received_for_free: bool,
    pub written_during_early_access: bool,
    pub developer_response: Seq<char>,
}

/// One review with its product's title and id, in the form that is persisted:
/// one row per record.
#[derive(Debug, Hash, PartialEq, Eq)]
pub struct FlattenedQuery {
    pub title: TitleSerde,
    pub appid: TitleSerde,
    pub recommendation_id: u64,
    pub steam_id: u64,
    pub num_games_owned: u32,
    pub num_reviews: u32,
    pub playtime_forever: Minutes,
    pub language: Language,
    pub review: String,
    pub timestamp_created: UnixTimestamp,
    pub voted_up: bool,
    pub votes_up: u32,
    pub votes_funny: u32,
    pub comment_count: u32,
    pub steam_purchase: bool,
    pub received_for_free: bool,
    pub written_during_early_access: bool,
    /// Empty when the developer did not respond.
    pub developer_response: String,
}

impl View for FlattenedQuery {
    type V = FlatView;

    open spec fn view(&self) -> FlatView {
        FlatView {
            title: self.title@,
            appid: self.appid@,
            recommendation_id: self.recommendation_id,
            steam_id: self.steam_id,
            num_games_owned: self.num_games_owned,
            num_reviews: self.num_reviews,
            playtime_forever: self.playtime_forever,
            language: self.language,
            review: self.review@,
            timestamp_created: self.timestamp_created,
            voted_up: self.voted_up,
            votes_up: self.votes_up,
            votes_funny: self.votes_funny,
            comment_count: self.comment_count,
            steam_purchase: self.steam_purchase,
            received_for_free: self.received_for_free,
            written_during_early_access: self.written_during_early_access,
            developer_response: self.developer_response@,
        }
    }
}

/// The record of a review under the given title and product id.
pub open spec fn flatten(r: Review, title: Seq<char>, appid: Seq<char>) -> FlatView {
    FlatView {
        title,
        appid,
        recommendation_id: r.recommendationid,
        steam_id: r.author.steamid,
        num_games_owned: r.author.num_games_owned,
        num_reviews: r.author.num_reviews,
        playtime_forever: r.author.playtime_forever,
        language: r.language,
        review: r.review@,
        timestamp_created: r.timestamp_created,
        voted_up: r.voted_up,
        votes_up: r.votes_up,
        votes_funny: r.votes_funny,
        comment_count: r.comment_count,
        steam_purchase: r.steam_purchase,
        received_for_free: r.received_for_free,
        written_during_early_access: r.written_during_early_access,
        developer_response: match r.developer_response {
            Some(t) => t@,
            None => Seq::empty(),
        },
    }
}

impl Clone for FlattenedQuery {
    fn clone(&self) -> (r: Self)
        ensures
            r == *self,
    {
        FlattenedQuery {
            title: self.title.clone(),
            appid: self.appid.clone(),
            recommendation_id: self.recommendation_id,
            steam_id: self.steam_id,
            num_games_owned: self.num_games_owned,
            num_reviews: self.num_reviews,
            playtime_forever: self.playtime_forever,
            language: self.language,
            review: self.review.clone(),
            timestamp_created: self.timestamp_created,
            voted_up: self.voted_up,
            votes_up: self.votes_up,
            votes_funny: self.votes_funny,
            comment_count: self.comment_count,
            steam_purchase: self.steam_purchase,
            received_for_free: self.received_for_free,
            written_during_early_access: self.written_during_early_access,
            developer_response: self.developer_response.clone(),
        }
    }
}

impl FlattenedQuery {
    /// The record of a review whose title and product id are not known: both are
    /// the placeholder "NA".
    pub fn from(other: Review) -> (r: Self)
        ensures
            r@ == flatten(other, default_title(), default_title()),
    {
        FlattenedQuery::from_with_titles(other, TitleSerde::default(), TitleSerde::default())
    }

    /// The record of a review under the given title and product id.
    pub fn from_with_title_strs(other: Review, title: &str, appid: &str) -> (r: Self)
        ensures
            r@ == flatten(other, title@, appid@),
    {
        FlattenedQuery::from_with_titles(other, TitleSerde::from_text(title), TitleSerde::from_text(appid))
    }

    /// The record of a review under the given title and product id.
    pub fn from_with_titles(other: Review, title: TitleSerde, appid: TitleSerde) -> (r: Self)
        ensures
            r@ == flatten(other, title@, appid@),
    {
        let developer_response = match other.developer_response {
            Some(t) => t,
            None => String::new(),
        };
        FlattenedQuery {
            title,
            appid,
            recommendation_id: other.recommendationid,
            steam_id: other.author.steamid,
            num_games_owned: other.author.num_games_owned,
            num_reviews: other.author.num_reviews,
            playtime_forever: other.author.playtime_forever,
            language: other.language,
            review: other.review,
            timestamp_created: other.timestamp_created,
            voted_up: other.voted_up,
            votes_up: other.votes_up,
            votes_funny: other.votes_funny,
            comment_count: other.comment_count,
            steam_purchase: other.steam_purchase,
            received_for_free: other.received_for_free,
            written_during_early_access: other.written_during_early_access,
            developer_response,
        }
    }
}

} // verus!

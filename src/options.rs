use vstd::prelude::*;
use crate::text::str_eq;

verus! {

/// Which reviews to request by their verdict.
#[derive(Debug, Clone, Copy, PartialEq, Eq, Structural, PartialOrd, Ord, Hash)]
pub enum ReviewType {
    All,
    Positive,
    Negative,
}

/// Server-side ordering of the review stream.
#[derive(Debug, Clone, Copy, PartialEq, Eq, Structural, PartialOrd, Ord, Hash)]
pub enum Filter {
    /// Newest first; pagination is legal.
    Recent,
    /// Most recently updated first; pagination is legal.
    Updated,
    /// The complete, unordered sweep; a day range is legal, a cursor is not.
    All,
}

/// Where the author obtained the product.
#[derive(Debug, Clone, Copy, PartialEq, Eq, Structural, PartialOrd, Ord, Hash)]
pub enum PurchaseType {
    /// Every review.
    All,
    /// Products received elsewhere but activated on Steam.
    NonSteamPurchase,
    /// Products bought on Steam.
    Steam,
}

/// How a review type is written in queries.
pub open spec fn review_type_text(r: ReviewType) -> Seq<char> {
    match r {
        ReviewType::All => "all"@,
        ReviewType::Positive => "positive"@,
        ReviewType::Negative => "negative"@,
    }
}

/// How a filter is written in queries.
pub open spec fn filter_text(f: Filter) -> Seq<char> {
    match f {
        Filter::Recent => "recent"@,
        Filter::Updated => "updated"@,
        Filter::All => "all"@,
    }
}

/// How a purchase type is written in queries.
pub open spec fn purchase_type_text(p: PurchaseType) -> Seq<char> {
    match p {
        PurchaseType::All => "all"@,
        PurchaseType::NonSteamPurchase => "non_steam_purchase"@,
        PurchaseType::Steam => "steam"@,
    }
}

/// Paging (a cursor) is legal only under the two ordered filters.
pub open spec fn filter_pages(f: Filter) -> bool {
    f != Filter::All
}

impl ReviewType {
    /// The value of the `review_type` query parameter.
    pub fn as_str(self) -> (r: &'static str)
        ensures
            r@ == review_type_text(self),
    {
        match self {
            ReviewType::All => "all",
            ReviewType::Positive => "positive",
            ReviewType::Negative => "negative",
        }
    }
}

impl Default for ReviewType {
    fn default() -> (r: Self)
        ensures
            r == ReviewType::All,
    {
        ReviewType::All
    }
}

impl Filter {
    /// The value of the `filter` query parameter.
    pub fn as_str(self) -> (r: &'static str)
        ensures
            r@ == filter_text(self),
    {
        match self {
            Filter::Recent => "recent",
            Filter::Updated => "updated",
            Filter::All => "all",
        }
    }
}

impl Default for Filter {
    /// The server's own default ordering.
    fn default() -> (r: Self)
        ensures
            r == Filter::All,
    {
        Filter::All
    }
}

impl PurchaseType {
    /// The value of the `purchase_type` query parameter.
    pub fn as_str(self) -> (r: &'static str)
        ensures
            r@ == purchase_type_text(self),
    {
        match self {
            PurchaseType::All => "all",
            PurchaseType::NonSteamPurchase => "non_steam_purchase",
            PurchaseType::Steam => "steam",
        }
    }
}

impl Default for PurchaseType {
    /// The server defaults to purchases made on Steam.
    fn default() -> (r: Self)
        ensures
            r == PurchaseType::Steam,
    {
        PurchaseType::Steam
    }
}

/// The lower-case form of a text, as `str::to_lowercase` gives it.
pub uninterp spec fn lower_of(s: Seq<char>) -> Seq<char>;

/// Relies on `str::to_lowercase`: the result depends on the characters alone.
#[verifier::external_body]
fn lowercase(s: &str) -> (r: String)
    ensures
        r@ == lower_of(s@),
{
    s.to_lowercase()
}

/// The review type that a lower-case name gives; an unknown name gives the default.
pub open spec fn review_type_named(s: Seq<char>) -> ReviewType {
    if s == "positive"@ {
        ReviewType::Positive
    } else if s == "negative"@ {
        ReviewType::Negative
    } else {
        ReviewType::All
    }
}

impl ReviewType {
    /// The review type named by an already lower-case text: "all", "positive" or
    /// "negative"; any other text gives the default, `All`.
    pub fn from_lowercase(s: &str) -> (r: ReviewType)
        ensures
            r == review_type_named(s@),
    {
        if str_eq(s, "positive") {
            ReviewType::Positive
        } else if str_eq(s, "negative") {
            ReviewType::Negative
        } else {
            ReviewType::All
        }
    }

    /// The review type named by a text in any case.
    pub fn from_name(s: &str) -> (r: ReviewType)
        ensures
            r == review_type_named(lower_of(s@)),
    {
        let lower = lowercase(s);
        ReviewType::from_lowercase(lower.as_str())
    }
}

} // verus!

use vstd::prelude::*;
use crate::text::str_eq;

verus! {

/// Steam's review class of a product, from the most negative to the most positive.
#[derive(Clone, Copy, Debug, Hash, PartialEq, Eq, Structural, PartialOrd, Ord)]
pub enum ReviewScore {
    OverwhelminglyNegative,
    VeryNegative,
    Negative,
    MostlyNegative,
    Mixed,
    MostlyPositive,
    Positive,
    VeryPositive,
    OverwhelminglyPositive,
}

/// The text is not one of Steam's review classes.
#[derive(Debug, Clone, Copy, PartialEq, Eq, Structural)]
pub struct ReviewScoreParseError;

/// The description of a review class that could not be read.
pub open spec fn review_score_parse_error_text() -> Seq<char> {
    "You should NOT see this error unless Valve changed their review descriptions. Please report this issue on GitHub."@
}

impl ReviewScoreParseError {
    /// A human-readable description of the error.
    pub fn message(&self) -> (r: &'static str)
        ensures
            r@ == review_score_parse_error_text(),
    {
        "You should NOT see this error unless Valve changed their review descriptions. Please report this issue on GitHub."
    }
}

/// How Steam writes a review class.
pub open spec fn review_score_text(s: ReviewScore) -> Seq<char> {
    match s {
        ReviewScore::OverwhelminglyNegative => "Overwhelmingly Negative"@,
        ReviewScore::VeryNegative => "Very Negative"@,
        ReviewScore::Negative => "Negative"@,
        ReviewScore::MostlyNegative => "Mostly Negative"@,
        ReviewScore::Mixed => "Mixed"@,
        ReviewScore::MostlyPositive => "Mostly Positive"@,
        ReviewScore::Positive => "Positive"@,
        ReviewScore::VeryPositive => "Very Positive"@,
        ReviewScore::OverwhelminglyPositive => "Overwhelmingly Positive"@,
    }
}

/// The review class that a text names.
pub open spec fn parse_review_score(s: Seq<char>) -> Option<ReviewScore> {
    if s == "Overwhelmingly Negative"@ {
        Some(ReviewScore::OverwhelminglyNegative)
    } else if s == "Very Negative"@ {
        Some(ReviewScore::VeryNegative)
    } else if s == "Negative"@ {
        Some(ReviewScore::Negative)
    } else if s == "Mostly Negative"@ {
        Some(ReviewScore::MostlyNegative)
    } else if s == "Mixed"@ {
        Some(ReviewScore::Mixed)
    } else if s == "Mostly Positive"@ {
        Some(ReviewScore::MostlyPositive)
    } else if s == "Positive"@ {
        Some(ReviewScore::Positive)
    } else if s == "Very Positive"@ {
        Some(ReviewScore::VeryPositive)
    } else if s == "Overwhelmingly Positive"@ {
        Some(ReviewScore::OverwhelminglyPositive)
    } else {
        None
    }
}

impl ReviewScore {
    /// How Steam writes the review class.
    pub fn as_str(self) -> (r: &'static str)
        ensures
            r@ == review_score_text(self),
    {
        match self {
            ReviewScore::OverwhelminglyNegative => "Overwhelmingly Negative",
            ReviewScore::VeryNegative => "Very Negative",
            ReviewScore::Negative => "Negative",
            ReviewScore::MostlyNegative => "Mostly Negative",
            ReviewScore::Mixed => "Mixed",
            ReviewScore::MostlyPositive => "Mostly Positive",
            ReviewScore::Positive => "Positive",
            ReviewScore::VeryPositive => "Very Positive",
            ReviewScore::OverwhelminglyPositive => "Overwhelmingly Positive",
        }
    }

    /// Reads a review class as Steam writes it.
    pub fn from_str(s: &str) -> (r: Result<ReviewScore, ReviewScoreParseError>)
        ensures
            r is Ok <==> parse_review_score(s@) is Some,
            r matches Ok(v) ==> parse_review_score(s@) == Some(v),
    {
        if str_eq(s, "Overwhelmingly Negative") {
            Ok(ReviewScore::OverwhelminglyNegative)
        } else if str_eq(s, "Very Negative") {
            Ok(ReviewScore::VeryNegative)
        } else if str_eq(s, "Negative") {
            Ok(ReviewScore::Negative)
        } else if str_eq(s, "Mostly Negative") {
            Ok(ReviewScore::MostlyNegative)
        } else if str_eq(s, "Mixed") {
            Ok(ReviewScore::Mixed)
        } else if str_eq(s, "Mostly Positive") {
            Ok(ReviewScore::MostlyPositive)
        } else if str_eq(s, "Positive") {
            Ok(ReviewScore::Positive)
        } else if str_eq(s, "Very Positive") {
            Ok(ReviewScore::VeryPositive)
        } else if str_eq(s, "Overwhelmingly Positive") {
            Ok(ReviewScore::OverwhelminglyPositive)
        } else {
            Err(ReviewScoreParseError)
        }
    }
}

} // verus!

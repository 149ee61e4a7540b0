use vstd::prelude::*;
use attohttpc::Error as RequestError;
use csv::Error as CsvError;

verus! {

/// Carried as the cause of a failed file operation; never inspected here.
#[verifier::external_type_specification]
#[verifier::external_body]
pub struct ExIoError(std::io::Error);

/// Carried as the cause of a failed read or write of a persisted row; never inspected here.
#[verifier::external_type_specification]
#[verifier::external_body]
pub struct ExCsvError(CsvError);

/// Returned by `url::Url::parse_with_params` when the request address does not parse.
#[verifier::external_type_specification]
#[verifier::external_body]
pub struct ExUrlParseError(url::ParseError);

/// Carried as the cause of a failed request; never inspected here.
#[verifier::external_type_specification]
#[verifier::external_body]
pub struct ExRequestError(RequestError);

/// An illegal combination of ordering, cursor and day range was asked of a query.
#[derive(Debug, Clone, Copy, PartialEq, Eq, Structural)]
pub enum RevApiError {
    /// A cursor is legal only under the ordered filters, and the complete sweep
    /// cannot start while a cursor is set.
    InvalidFilterCursor,
    /// A day range is legal only under the complete sweep.
    InvalidFilterDayRange,
}

/// The description of a query error.
pub open spec fn rev_api_error_text(e: RevApiError) -> Seq<char> {
    match e {
        RevApiError::InvalidFilterCursor => "Cursors (for pagination) are only valid for Filter::Recent or Filter::Updated"@,
        RevApiError::InvalidFilterDayRange => "Day ranges are only allowed for Filter::All. You may need to manually call ReviewApi::filter."@,
    }
}

impl RevApiError {
    /// A human-readable description of the error.
    pub fn message(&self) -> (r: &'static str)
        ensures
            r@ == rev_api_error_text(*self),
    {
        match self {
            RevApiError::InvalidFilterCursor => "Cursors (for pagination) are only valid for Filter::Recent or Filter::Updated",
            RevApiError::InvalidFilterDayRange => "Day ranges are only allowed for Filter::All. You may need to manually call ReviewApi::filter.",
        }
    }
}

/// Everything that can go wrong during a scrape.
#[derive(Debug)]
#[non_exhaustive]
pub enum Error {
    /// The query was put in an illegal state.
    ReviewApi(RevApiError),
    /// A resumed scrape holds records of more than one product.
    MultipleAppids,
    /// A batch held nothing that had not been seen before.
    NoDataAfterFiltering,
    /// A file operation failed.
    Io(std::io::Error),
    /// A persisted row could not be read or written.
    Csv(CsvError),
    /// The request address did not parse.
    UrlParse(url::ParseError),
    /// A request failed.
    Request(RequestError),
}

/// The description of an error that this library raises itself.
pub open spec fn error_text(e: Error) -> Option<Seq<char>> {
    match e {
        Error::ReviewApi(r) => Some(rev_api_error_text(r)),
        Error::MultipleAppids => Some("Scraping multiple appids is unsupported."@),
        Error::NoDataAfterFiltering => Some("No data were available to write after filtering for duplicates."@),
        _ => None,
    }
}

impl Error {
    /// The description of an error that this library raises itself; `None` for
    /// an error that comes from a file, a row, an address or a request, which
    /// describes itself.
    pub fn message(&self) -> (r: Option<&'static str>)
        ensures
            r is Some <==> error_text(*self) is Some,
            r matches Some(t) ==> error_text(*self) == Some(t@),
    {
        match self {
            Error::ReviewApi(e) => Some(e.message()),
            Error::MultipleAppids => Some("Scraping multiple appids is unsupported."),
            Error::NoDataAfterFiltering => Some("No data were available to write after filtering for duplicates."),
            _ => None,
        }
    }
}

impl From<RevApiError> for Error {
    fn from(e: RevApiError) -> Error {
        Error::ReviewApi(e)
    }
}

impl vstd::std_specs::convert::FromSpecImpl<RevApiError> for Error {
    open spec fn obeys_from_spec() -> bool {
        true
    }

    open spec fn from_spec(e: RevApiError) -> Error {
        Error::ReviewApi(e)
    }
}

impl From<std::io::Error> for Error {
    fn from(e: std::io::Error) -> Error {
        Error::Io(e)
    }
}

impl vstd::std_specs::convert::FromSpecImpl<std::io::Error> for Error {
    open spec fn obeys_from_spec() -> bool {
        true
    }

    open spec fn from_spec(e: std::io::Error) -> Error {
        Error::Io(e)
    }
}

impl From<url::ParseError> for Error {
    fn from(e: url::ParseError) -> Error {
        Error::UrlParse(e)
    }
}

impl vstd::std_specs::convert::FromSpecImpl<url::ParseError> for Error {
    open spec fn obeys_from_spec() -> bool {
        true
    }

    open spec fn from_spec(e: url::ParseError) -> Error {
        Error::UrlParse(e)
    }
}

impl From<RequestError> for Error {
    fn from(e: RequestError) -> Error {
        Error::Request(e)
    }
}

impl vstd::std_specs::convert::FromSpecImpl<RequestError> for Error {
    open spec fn obeys_from_spec() -> bool {
        true
    }

    open spec fn from_spec(e: RequestError) -> Error {
        Error::Request(e)
    }
}

} // verus!

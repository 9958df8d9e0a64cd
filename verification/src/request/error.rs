//! The errors a request parse can end in, and the protocol-mandated
//! responses to some of them.
use vstd::prelude::*;

use crate::header::{HeaderError, KeyError};
use crate::response::Response;

verus! {

/// Everything that can go wrong while parsing a raw request, both
/// breaches of the message grammar and failed conversions.  Parsing is
/// fail-fast: the first error wins and no partial request survives.
#[derive(Debug, PartialEq, Eq, Structural, Clone, Copy)]
pub enum RequestParseError {
    /// The request text holds no line to parse.
    EmptyRequest,
    /// The start line is missing one of `method request-target
    /// HTTP-version`.
    MissingStartlineElements,
    /// The third start-line word does not begin with `HTTP/`.
    InvalidHttpWord,
    /// The first start-line word is no known request method.
    MethodNotRecognized(MethodParseError),
    /// A header line breaks the header syntax.
    BadHeader(HeaderError),
    /// What follows `HTTP/` is not `major.minor` with two plain decimal
    /// numbers.
    InvalidVersion,
}

/// Why a method word was rejected: the standard methods are all ASCII
/// upper-case, so anything else cannot be one of them, and an upper-case
/// word may still match none.
#[derive(Debug, PartialEq, Eq, Structural, Clone, Copy)]
pub enum MethodParseError {
    NotAsciiUppercase,
    NotAMethod,
}

impl RequestParseError {
    /// The response the standard prescribes or strongly recommends for
    /// this error, where it does: 501 for an unrecognized method, 400
    /// for pre-colon white space in a header key.  For every other
    /// error the caller must choose.
    pub fn appropriate_response(&self) -> (r: Option<Response>)
        ensures
            r == match *self {
                RequestParseError::MethodNotRecognized(_) => Some(Response::NotImplemented),
                RequestParseError::BadHeader(HeaderError::Key(KeyError::ColonWhitespace)) => Some(
                    Response::BadRequest,
                ),
                _ => None::<Response>,
            },
    {
        match self {
            RequestParseError::MethodNotRecognized(_) => Some(Response::NotImplemented),
            RequestParseError::BadHeader(HeaderError::Key(KeyError::ColonWhitespace)) => Some(
                Response::BadRequest,
            ),
            _ => None,
        }
    }
}

impl MethodParseError {
    /// What this error means, as `MethodParseError::describe` renders it.
    pub open spec fn describe_spec(self) -> Seq<char> {
        match self {
            MethodParseError::NotAsciiUppercase => "not ascii uppercase"@,
            MethodParseError::NotAMethod => "not a method word"@,
        }
    }

    /// A short description of the error.
    pub fn describe(&self) -> (r: &'static str)
        ensures
            r@ == self.describe_spec(),
    {
        match self {
            MethodParseError::NotAsciiUppercase => "not ascii uppercase",
            MethodParseError::NotAMethod => "not a method word",
        }
    }
}

impl RequestParseError {
    /// What this error means, as `RequestParseError::describe` renders
    /// it.
    pub open spec fn describe_spec(self) -> Seq<char> {
        match self {
            RequestParseError::EmptyRequest => "empty string"@,
            RequestParseError::MissingStartlineElements => "request is missing any of method request-target HTTP-version"@,
            RequestParseError::InvalidHttpWord => "start line does not end with a HTTP/.. version string"@,
            RequestParseError::MethodNotRecognized(e) => "method not recognized: "@
                + e.describe_spec(),
            RequestParseError::BadHeader(_) => "header invalid"@,
            RequestParseError::InvalidVersion => "version invalid"@,
        }
    }

    /// A short description of the error.
    pub fn describe(&self) -> (r: String)
        ensures
            r@ == self.describe_spec(),
    {
        match self {
            RequestParseError::EmptyRequest => String::from_str("empty string"),
            RequestParseError::MissingStartlineElements => String::from_str(
                "request is missing any of method request-target HTTP-version",
            ),
            RequestParseError::InvalidHttpWord => String::from_str(
                "start line does not end with a HTTP/.. version string",
            ),
            RequestParseError::MethodNotRecognized(e) => String::from_str(
                "method not recognized: ",
            ).concat(e.describe()),
            RequestParseError::BadHeader(_) => String::from_str("header invalid"),
            RequestParseError::InvalidVersion => String::from_str("version invalid"),
        }
    }
}

} // verus!

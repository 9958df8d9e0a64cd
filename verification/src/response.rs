//! Standard HTTP response status codes and the ordering-constrained
//! response builder with its exact byte serialization.
use core::marker::PhantomData;
use vstd::prelude::*;

use crate::header::key::key_check;
use crate::header::map::{entries_wf, has_key, merge, Entries};
use crate::header::value::value_check;
use crate::header::{HeaderError, HeaderMap, Key};
use crate::text::{dec_digits, push_dec_u64, utf8_to_str};
use crate::Version;
use vstd::utf8::{decode_utf8, valid_utf8};

verus! {

/// The closed set of standard HTTP response status codes, each bound to
/// exactly one canonical reason phrase.
#[derive(Debug, PartialEq, Eq, Structural, Clone, Copy)]
pub enum Response {
    /// 100 CONTINUE
    Continue,
    /// 101 SWITCHING PROTOCOLS
    SwitchingProtocols,
    /// 102 PROCESSING
    Processing,
    /// 103 EARLY HINTS
    EarlyHints,
    /// 200 OK
    Okay,
    /// 201 CREATED
    Created,
    /// 202 Accepted
    Accepted,
    /// 203 NON-AUTHORITATIVE INFORMATION
    NonAuthoritativeInformation,
    /// 204 NO CONTENT
    NoContent,
    /// 205 RESET CONTENT
    ResetContent,
    /// 206 PARTIAL CONTENT
    PartialContent,
    /// 207 MULTI-STATUS
    MultiStatus,
    /// 208 ALREADY REPORTED
    AlreadyReported,
    /// 226 IM USED
    ImUsed,
    /// 300 MULTIPLE CHOICES
    MultipleChoices,
    /// 301 MOVED PERMANENTLY
    MovedPermanently,
    /// 302 FOUND
    Found,
    /// 303 SEE OTHER
    SeeOther,
    /// 304 NOT MODIFIED
    NotModified,
    /// 305 USE PROXY
    UseProxy,
    /// 306 SWITCH PROXY
    SwitchProxy,
    /// 307 TEMPORARY REDIRECT
    TemporaryRedirect,
    /// 308 PERMANENT REDIRECT
    PermanentRedirect,
    /// 400 BAD REQUEST
    BadRequest,
    /// 401 UNAUTHORIZED
    Unauthorized,
    /// 402 PAYMENT REQUIRED
    PaymentRequired,
    /// 403 FORBIDDEN
    Forbidden,
    /// 404 NOT FOUND
    NotFound,
    /// 405 METHOD NOT ALLOWED
    MethodNotAllowed,
    /// 406 NOT ACCCEPTABLE
    NotAcceptable,
    /// 407 PROXY AUTHENTICATION REQUIRED
    ProxyAuthenticationRequired,
    /// 408 REQUEST TIMEOUT
    RequestTimeout,
    /// 409 CONFLICT
    Conflict,
    /// 410 GONE
    Gone,
    /// 411 LENGTH REQUIRED
    LengthRequired,
    /// 412 PRECONDITON FAILED
    PreconditonFailed,
    /// 413 PAYLOAD TOO LARGE
    PayloadTooLarge,
    /// 414 URI TOO LONG
    UriTooLong,
    /// 415 UNSUPPORTED MEDIA TYPE
    UnsupportedMediaType,
    /// 416 RANGE NOT SATISFIABLE
    RangeNotSatisfiable,
    /// 417 EXPECTATION FAILED
    ExpectationFailed,
    /// 418 IM A TEAPOT
    ImATeapot,
    /// 421 MISDIRECTED REQUEST
    MisdirectedRequest,
    /// 422 UNPROCESSABLE ENTITY
    UnprocessableEntity,
    /// 423 LOCKED
    Locked,
    /// 424 FAILED DEPENDENCY
    FailedDependency,
    /// 425 TOO EARLY
    TooEarly,
    /// 426 UPGRADE REQUIRED
    UpgradeRequired,
    /// 428 PRECONDITION REQUIRED
    PreconditionRequired,
    /// 429 TOO MANY REQUESTS
    TooManyRequests,
    /// 431 REQUEST HEADER FIELDS TOO LARGE
    RequestHeaderFieldsTooLarge,
    /// 451 UNAVAILABLE FOR LEGAL REASONS
    UnavailableForLegalReasons,
    /// 500 SERVER ERROR
    ServerError,
    /// 501 NOT IMPLEMENTED
    NotImplemented,
    /// 502 BAD GATEWAY
    BadGateway,
    /// 503 SERVICE UNAVAILABLE
    ServiceUnavailable,
    /// 504 GATEWAY TIMEOUT
    GatewayTimeout,
    /// 505 HTTP VERSION NOT SUPPORTED
    HttpVersionNotSupported,
    /// 506 VARIANT ALSO NEGOTIATES
    VariantAlsoNegotiates,
    /// 507 INSUFFICIENT STORAGE
    InsufficientStorage,
    /// 508 LOOP DETECTED
    LoopDetected,
    /// 510 NOT EXTENDED
    NotExtended,
    /// 511 NETWORK AUTHENTICATION REQUIRED
    NetworkAuthenticationRequired,
}

/// The numeric wire value of each status.
pub open spec fn code_of(r: Response) -> u16 {
    match r {
        Response::Continue => 100,
        Response::SwitchingProtocols => 101,
        Response::Processing => 102,
        Response::EarlyHints => 103,
        Response::Okay => 200,
        Response::Created => 201,
        Response::Accepted => 202,
        Response::NonAuthoritativeInformation => 203,
        Response::NoContent => 204,
        Response::ResetContent => 205,
        Response::PartialContent => 206,
        Response::MultiStatus => 207,
        Response::AlreadyReported => 208,
        Response::ImUsed => 226,
        Response::MultipleChoices => 300,
        Response::MovedPermanently => 301,
        Response::Found => 302,
        Response::SeeOther => 303,
        Response::NotModified => 304,
        Response::UseProxy => 305,
        Response::SwitchProxy => 306,
        Response::TemporaryRedirect => 307,
        Response::PermanentRedirect => 308,
        Response::BadRequest => 400,
        Response::Unauthorized => 401,
        Response::PaymentRequired => 402,
        Response::Forbidden => 403,
        Response::NotFound => 404,
        Response::MethodNotAllowed => 405,
        Response::NotAcceptable => 406,
        Response::ProxyAuthenticationRequired => 407,
        Response::RequestTimeout => 408,
        Response::Conflict => 409,
        Response::Gone => 410,
        Response::LengthRequired => 411,
        Response::PreconditonFailed => 412,
        Response::PayloadTooLarge => 413,
        Response::UriTooLong => 414,
        Response::UnsupportedMediaType => 415,
        Response::RangeNotSatisfiable => 416,
        Response::ExpectationFailed => 417,
        Response::ImATeapot => 418,
        Response::MisdirectedRequest => 421,
        Response::UnprocessableEntity => 422,
        Response::Locked => 423,
        Response::FailedDependency => 424,
        Response::TooEarly => 425,
        Response::UpgradeRequired => 426,
        Response::PreconditionRequired => 428,
        Response::TooManyRequests => 429,
        Response::RequestHeaderFieldsTooLarge => 431,
        Response::UnavailableForLegalReasons => 451,
        Response::ServerError => 500,
        Response::NotImplemented => 501,
        Response::BadGateway => 502,
        Response::ServiceUnavailable => 503,
        Response::GatewayTimeout => 504,
        Response::HttpVersionNotSupported => 505,
        Response::VariantAlsoNegotiates => 506,
        Response::InsufficientStorage => 507,
        Response::LoopDetected => 508,
        Response::NotExtended => 510,
        Response::NetworkAuthenticationRequired => 511,
    }
}

/// The canonical reason phrase of each status.
pub open spec fn phrase_of(r: Response) -> Seq<char> {
    match r {
        Response::Continue => "CONTINUE"@,
        Response::SwitchingProtocols => "SWITCHING PROTOCOLS"@,
        Response::Processing => "PROCESSING"@,
        Response::EarlyHints => "EARLY HINTS"@,
        Response::Okay => "OK"@,
        Response::Created => "CREATED"@,
        Response::Accepted => "ACCEPTED"@,
        Response::NonAuthoritativeInformation => "NON-AUTHORITATIVE INFORMATION"@,
        Response::NoContent => "NO CONTENT"@,
        Response::ResetContent => "RESET CONTENT"@,
        Response::PartialContent => "PARTIAL CONTENT"@,
        Response::MultiStatus => "MULTI-STATUS"@,
        Response::AlreadyReported => "ALREADY REPORTED"@,
        Response::ImUsed => "IM USED"@,
        Response::MultipleChoices => "MULTIPLE CHOICES"@,
        Response::MovedPermanently => "MOVED PERMANENTLY"@,
        Response::Found => "FOUND"@,
        Response::SeeOther => "SEE OTHER"@,
        Response::NotModified => "NOT MODIFIED"@,
        Response::UseProxy => "USE PROXY"@,
        Response::SwitchProxy => "SWITCH PROXY"@,
        Response::TemporaryRedirect => "TEMPORARY REDIRECT"@,
        Response::PermanentRedirect => "PERMANENT REDIRECT"@,
        Response::BadRequest => "BAD REQUEST"@,
        Response::Unauthorized => "UNAUTHORIZED"@,
        Response::PaymentRequired => "PAYMENT REQUIRED"@,
        Response::Forbidden => "FORBIDDEN"@,
        Response::NotFound => "NOT FOUND"@,
        Response::MethodNotAllowed => "METHOD NOT ALLOWED"@,
        Response::NotAcceptable => "NOT ACCEPTABLE"@,
        Response::ProxyAuthenticationRequired => "PROXY AUTHENTICATION REQUIRED"@,
        Response::RequestTimeout => "REQUEST TIMEOUT"@,
        Response::Conflict => "CONFLICT"@,
        Response::Gone => "GONE"@,
        Response::LengthRequired => "LENGTH REQUIRED"@,
        Response::PreconditonFailed => "PRECONDITON FAILED"@,
        Response::PayloadTooLarge => "PAYLOAD TOO LARGE"@,
        Response::UriTooLong => "URI TOO LONG"@,
        Response::UnsupportedMediaType => "UNSUPPORTED MEDIA TYPE"@,
        Response::RangeNotSatisfiable => "RANGE NOT SATISFIABLE"@,
        Response::ExpectationFailed => "EXPECTATION FAILED"@,
        Response::ImATeapot => "IM A TEAPOT"@,
        Response::MisdirectedRequest => "MISDIRECTED REQUEST"@,
        Response::UnprocessableEntity => "UNPROCESSABLE ENTITY"@,
        Response::Locked => "LOCKED"@,
        Response::FailedDependency => "FAILED DEPENDENCY"@,
        Response::TooEarly => "TOO EARLY"@,
        Response::UpgradeRequired => "UPGRADE REQUIRED"@,
        Response::PreconditionRequired => "PRECONDITION REQUIRED"@,
        Response::TooManyRequests => "TOO MANY REQUESTS"@,
        Response::RequestHeaderFieldsTooLarge => "REQUEST HEADER FIELDS TOO LARGE"@,
        Response::UnavailableForLegalReasons => "UNAVAILABLE FOR LEGAL REASONS"@,
        Response::ServerError => "SERVER ERROR"@,
        Response::NotImplemented => "NOT IMPLEMENTED"@,
        Response::BadGateway => "BAD GATEWAY"@,
        Response::ServiceUnavailable => "SERVICE UNAVAILABLE"@,
        Response::GatewayTimeout => "GATEWAY TIMEOUT"@,
        Response::HttpVersionNotSupported => "HTTP VERSION NOT SUPPORTED"@,
        Response::VariantAlsoNegotiates => "VARIANT ALSO NEGOTIATES"@,
        Response::InsufficientStorage => "INSUFFICIENT STORAGE"@,
        Response::LoopDetected => "LOOP DETECTED"@,
        Response::NotExtended => "NOT EXTENDED"@,
        Response::NetworkAuthenticationRequired => "NETWORK AUTHENTICATION REQUIRED"@,
    }
}

/// The status a numeric code denotes, for the codes of the standard set.
pub open spec fn response_of_code(code: u16) -> Option<Response> {
    match code {
        100 => Some(Response::Continue),
        101 => Some(Response::SwitchingProtocols),
        102 => Some(Response::Processing),
        103 => Some(Response::EarlyHints),
        200 => Some(Response::Okay),
        201 => Some(Response::Created),
        202 => Some(Response::Accepted),
        203 => Some(Response::NonAuthoritativeInformation),
        204 => Some(Response::NoContent),
        205 => Some(Response::ResetContent),
        206 => Some(Response::PartialContent),
        207 => Some(Response::MultiStatus),
        208 => Some(Response::AlreadyReported),
        226 => Some(Response::ImUsed),
        300 => Some(Response::MultipleChoices),
        301 => Some(Response::MovedPermanently),
        302 => Some(Response::Found),
        303 => Some(Response::SeeOther),
        304 => Some(Response::NotModified),
        305 => Some(Response::UseProxy),
        306 => Some(Response::SwitchProxy),
        307 => Some(Response::TemporaryRedirect),
        308 => Some(Response::PermanentRedirect),
        400 => Some(Response::BadRequest),
        401 => Some(Response::Unauthorized),
        402 => Some(Response::PaymentRequired),
        403 => Some(Response::Forbidden),
        404 => Some(Response::NotFound),
        405 => Some(Response::MethodNotAllowed),
        406 => Some(Response::NotAcceptable),
        407 => Some(Response::ProxyAuthenticationRequired),
        408 => Some(Response::RequestTimeout),
        409 => Some(Response::Conflict),
        410 => Some(Response::Gone),
        411 => Some(Response::LengthRequired),
        412 => Some(Response::PreconditonFailed),
        413 => Some(Response::PayloadTooLarge),
        414 => Some(Response::UriTooLong),
        415 => Some(Response::UnsupportedMediaType),
        416 => Some(Response::RangeNotSatisfiable),
        417 => Some(Response::ExpectationFailed),
        418 => Some(Response::ImATeapot),
        421 => Some(Response::MisdirectedRequest),
        422 => Some(Response::UnprocessableEntity),
        423 => Some(Response::Locked),
        424 => Some(Response::FailedDependency),
        425 => Some(Response::TooEarly),
        426 => Some(Response::UpgradeRequired),
        428 => Some(Response::PreconditionRequired),
        429 => Some(Response::TooManyRequests),
        431 => Some(Response::RequestHeaderFieldsTooLarge),
        451 => Some(Response::UnavailableForLegalReasons),
        500 => Some(Response::ServerError),
        501 => Some(Response::NotImplemented),
        502 => Some(Response::BadGateway),
        503 => Some(Response::ServiceUnavailable),
        504 => Some(Response::GatewayTimeout),
        505 => Some(Response::HttpVersionNotSupported),
        506 => Some(Response::VariantAlsoNegotiates),
        507 => Some(Response::InsufficientStorage),
        508 => Some(Response::LoopDetected),
        510 => Some(Response::NotExtended),
        511 => Some(Response::NetworkAuthenticationRequired),
        _ => None,
    }
}

/// The error of [`Response::new`]: the number is no standard status code.
#[derive(Debug, PartialEq, Eq, Structural, Clone, Copy)]
pub struct InvalidCode;

impl InvalidCode {
    /// A short description of the error.
    pub fn describe(&self) -> (r: &'static str)
        ensures
            r@ == "invalid response code"@,
    {
        "invalid response code"
    }
}

impl Response {
    /// Looks a numeric code up in the standard set; any other number,
    /// in range or not, is refused.
    pub fn new(code: u16) -> (r: Result<Response, InvalidCode>)
        ensures
            match response_of_code(code) {
                Some(resp) => r is Ok && r->Ok_0 == resp,
                None => r is Err,
            },
    {
        match code {
            100 => Ok(Response::Continue),
            101 => Ok(Response::SwitchingProtocols),
            102 => Ok(Response::Processing),
            103 => Ok(Response::EarlyHints),
            200 => Ok(Response::Okay),
            201 => Ok(Response::Created),
            202 => Ok(Response::Accepted),
            203 => Ok(Response::NonAuthoritativeInformation),
            204 => Ok(Response::NoContent),
            205 => Ok(Response::ResetContent),
            206 => Ok(Response::PartialContent),
            207 => Ok(Response::MultiStatus),
            208 => Ok(Response::AlreadyReported),
            226 => Ok(Response::ImUsed),
            300 => Ok(Response::MultipleChoices),
            301 => Ok(Response::MovedPermanently),
            302 => Ok(Response::Found),
            303 => Ok(Response::SeeOther),
            304 => Ok(Response::NotModified),
            305 => Ok(Response::UseProxy),
            306 => Ok(Response::SwitchProxy),
            307 => Ok(Response::TemporaryRedirect),
            308 => Ok(Response::PermanentRedirect),
            400 => Ok(Response::BadRequest),
            401 => Ok(Response::Unauthorized),
            402 => Ok(Response::PaymentRequired),
            403 => Ok(Response::Forbidden),
            404 => Ok(Response::NotFound),
            405 => Ok(Response::MethodNotAllowed),
            406 => Ok(Response::NotAcceptable),
            407 => Ok(Response::ProxyAuthenticationRequired),
            408 => Ok(Response::RequestTimeout),
            409 => Ok(Response::Conflict),
            410 => Ok(Response::Gone),
            411 => Ok(Response::LengthRequired),
            412 => Ok(Response::PreconditonFailed),
            413 => Ok(Response::PayloadTooLarge),
            414 => Ok(Response::UriTooLong),
            415 => Ok(Response::UnsupportedMediaType),
            416 => Ok(Response::RangeNotSatisfiable),
            417 => Ok(Response::ExpectationFailed),
            418 => Ok(Response::ImATeapot),
            421 => Ok(Response::MisdirectedRequest),
            422 => Ok(Response::UnprocessableEntity),
            423 => Ok(Response::Locked),
            424 => Ok(Response::FailedDependency),
            425 => Ok(Response::TooEarly),
            426 => Ok(Response::UpgradeRequired),
            428 => Ok(Response::PreconditionRequired),
            429 => Ok(Response::TooManyRequests),
            431 => Ok(Response::RequestHeaderFieldsTooLarge),
            451 => Ok(Response::UnavailableForLegalReasons),
            500 => Ok(Response::ServerError),
            501 => Ok(Response::NotImplemented),
            502 => Ok(Response::BadGateway),
            503 => Ok(Response::ServiceUnavailable),
            504 => Ok(Response::GatewayTimeout),
            505 => Ok(Response::HttpVersionNotSupported),
            506 => Ok(Response::VariantAlsoNegotiates),
            507 => Ok(Response::InsufficientStorage),
            508 => Ok(Response::LoopDetected),
            510 => Ok(Response::NotExtended),
            511 => Ok(Response::NetworkAuthenticationRequired),
            _ => Err(InvalidCode),
        }
    }

    /// The numeric wire value of this status.
    pub fn code_value(&self) -> (c: u16)
        ensures
            c == code_of(*self),
    {
        match self {
            Response::Continue => 100,
            Response::SwitchingProtocols => 101,
            Response::Processing => 102,
            Response::EarlyHints => 103,
            Response::Okay => 200,
            Response::Created => 201,
            Response::Accepted => 202,
            Response::NonAuthoritativeInformation => 203,
            Response::NoContent => 204,
            Response::ResetContent => 205,
            Response::PartialContent => 206,
            Response::MultiStatus => 207,
            Response::AlreadyReported => 208,
            Response::ImUsed => 226,
            Response::MultipleChoices => 300,
            Response::MovedPermanently => 301,
            Response::Found => 302,
            Response::SeeOther => 303,
            Response::NotModified => 304,
            Response::UseProxy => 305,
            Response::SwitchProxy => 306,
            Response::TemporaryRedirect => 307,
            Response::PermanentRedirect => 308,
            Response::BadRequest => 400,
            Response::Unauthorized => 401,
            Response::PaymentRequired => 402,
            Response::Forbidden => 403,
            Response::NotFound => 404,
            Response::MethodNotAllowed => 405,
            Response::NotAcceptable => 406,
            Response::ProxyAuthenticationRequired => 407,
            Response::RequestTimeout => 408,
            Response::Conflict => 409,
            Response::Gone => 410,
            Response::LengthRequired => 411,
            Response::PreconditonFailed => 412,
            Response::PayloadTooLarge => 413,
            Response::UriTooLong => 414,
            Response::UnsupportedMediaType => 415,
            Response::RangeNotSatisfiable => 416,
            Response::ExpectationFailed => 417,
            Response::ImATeapot => 418,
            Response::MisdirectedRequest => 421,
            Response::UnprocessableEntity => 422,
            Response::Locked => 423,
            Response::FailedDependency => 424,
            Response::TooEarly => 425,
            Response::UpgradeRequired => 426,
            Response::PreconditionRequired => 428,
            Response::TooManyRequests => 429,
            Response::RequestHeaderFieldsTooLarge => 431,
            Response::UnavailableForLegalReasons => 451,
            Response::ServerError => 500,
            Response::NotImplemented => 501,
            Response::BadGateway => 502,
            Response::ServiceUnavailable => 503,
            Response::GatewayTimeout => 504,
            Response::HttpVersionNotSupported => 505,
            Response::VariantAlsoNegotiates => 506,
            Response::InsufficientStorage => 507,
            Response::LoopDetected => 508,
            Response::NotExtended => 510,
            Response::NetworkAuthenticationRequired => 511,
        }
    }

    /// The canonical reason phrase of this status.
    pub fn phrase_str(&self) -> (p: &'static str)
        ensures
            p@ == phrase_of(*self),
    {
        match self {
            Response::Continue => "CONTINUE",
            Response::SwitchingProtocols => "SWITCHING PROTOCOLS",
            Response::Processing => "PROCESSING",
            Response::EarlyHints => "EARLY HINTS",
            Response::Okay => "OK",
            Response::Created => "CREATED",
            Response::Accepted => "ACCEPTED",
            Response::NonAuthoritativeInformation => "NON-AUTHORITATIVE INFORMATION",
            Response::NoContent => "NO CONTENT",
            Response::ResetContent => "RESET CONTENT",
            Response::PartialContent => "PARTIAL CONTENT",
            Response::MultiStatus => "MULTI-STATUS",
            Response::AlreadyReported => "ALREADY REPORTED",
            Response::ImUsed => "IM USED",
            Response::MultipleChoices => "MULTIPLE CHOICES",
            Response::MovedPermanently => "MOVED PERMANENTLY",
            Response::Found => "FOUND",
            Response::SeeOther => "SEE OTHER",
            Response::NotModified => "NOT MODIFIED",
            Response::UseProxy => "USE PROXY",
            Response::SwitchProxy => "SWITCH PROXY",
            Response::TemporaryRedirect => "TEMPORARY REDIRECT",
            Response::PermanentRedirect => "PERMANENT REDIRECT",
            Response::BadRequest => "BAD REQUEST",
            Response::Unauthorized => "UNAUTHORIZED",
            Response::PaymentRequired => "PAYMENT REQUIRED",
            Response::Forbidden => "FORBIDDEN",
            Response::NotFound => "NOT FOUND",
            Response::MethodNotAllowed => "METHOD NOT ALLOWED",
            Response::NotAcceptable => "NOT ACCEPTABLE",
            Response::ProxyAuthenticationRequired => "PROXY AUTHENTICATION REQUIRED",
            Response::RequestTimeout => "REQUEST TIMEOUT",
            Response::Conflict => "CONFLICT",
            Response::Gone => "GONE",
            Response::LengthRequired => "LENGTH REQUIRED",
            Response::PreconditonFailed => "PRECONDITON FAILED",
            Response::PayloadTooLarge => "PAYLOAD TOO LARGE",
            Response::UriTooLong => "URI TOO LONG",
            Response::UnsupportedMediaType => "UNSUPPORTED MEDIA TYPE",
            Response::RangeNotSatisfiable => "RANGE NOT SATISFIABLE",
            Response::ExpectationFailed => "EXPECTATION FAILED",
            Response::ImATeapot => "IM A TEAPOT",
            Response::MisdirectedRequest => "MISDIRECTED REQUEST",
            Response::UnprocessableEntity => "UNPROCESSABLE ENTITY",
            Response::Locked => "LOCKED",
            Response::FailedDependency => "FAILED DEPENDENCY",
            Response::TooEarly => "TOO EARLY",
            Response::UpgradeRequired => "UPGRADE REQUIRED",
            Response::PreconditionRequired => "PRECONDITION REQUIRED",
            Response::TooManyRequests => "TOO MANY REQUESTS",
            Response::RequestHeaderFieldsTooLarge => "REQUEST HEADER FIELDS TOO LARGE",
            Response::UnavailableForLegalReasons => "UNAVAILABLE FOR LEGAL REASONS",
            Response::ServerError => "SERVER ERROR",
            Response::NotImplemented => "NOT IMPLEMENTED",
            Response::BadGateway => "BAD GATEWAY",
            Response::ServiceUnavailable => "SERVICE UNAVAILABLE",
            Response::GatewayTimeout => "GATEWAY TIMEOUT",
            Response::HttpVersionNotSupported => "HTTP VERSION NOT SUPPORTED",
            Response::VariantAlsoNegotiates => "VARIANT ALSO NEGOTIATES",
            Response::InsufficientStorage => "INSUFFICIENT STORAGE",
            Response::LoopDetected => "LOOP DETECTED",
            Response::NotExtended => "NOT EXTENDED",
            Response::NetworkAuthenticationRequired => "NETWORK AUTHENTICATION REQUIRED",
        }
    }
}

// ---------------------------------------------------------------------------
// Serialization layout
// ---------------------------------------------------------------------------
/// The byte image of a character sequence; meaningful for the all-ASCII
/// sequences serialization produces.
pub open spec fn chars_to_bytes(s: Seq<char>) -> Seq<u8> {
    s.map_values(|c: char| (c as u32) as u8)
}

/// The status line: `HTTP/{major}.{minor} {code} {PHRASE}`.
pub open spec fn status_line_chars(resp: Response, v: Version) -> Seq<char> {
    "HTTP/"@ + dec_digits(v.0 as nat) + "."@ + dec_digits(v.1 as nat) + " "@ + dec_digits(
        code_of(resp) as nat,
    ) + " "@ + phrase_of(resp)
}

/// One `\r\n`-prefixed `key:value` line per header, in storage order,
/// with no space after the colon.
pub open spec fn header_block_chars(m: Entries) -> Seq<char>
    decreases m.len(),
{
    if m.len() == 0 {
        Seq::empty()
    } else {
        header_block_chars(m.drop_last()) + "\r\n"@ + m.last().0 + ":"@ + m.last().1
    }
}

/// Everything before the body: status line, header block, blank line.
pub open spec fn head_chars(resp: Response, v: Version, m: Entries) -> Seq<char> {
    status_line_chars(resp, v) + header_block_chars(m) + "\r\n\r\n"@
}

/// The version a response advertises: 1.1 as soon as a `host` header is
/// present, else 1.0.  Recomputed at serialization time, never cached.
pub open spec fn advertised_version(m: Entries) -> Version {
    if has_key(m, "host"@) {
        Version(1, 1)
    } else {
        Version(1, 0)
    }
}

/// The comma-separated decimal bytes of a debug listing, without the
/// surrounding brackets.
pub open spec fn debug_bytes_inner(bs: Seq<u8>) -> Seq<char>
    decreases bs.len(),
{
    if bs.len() == 0 {
        Seq::empty()
    } else if bs.len() == 1 {
        dec_digits(bs[0] as nat)
    } else {
        debug_bytes_inner(bs.drop_last()) + ", "@ + dec_digits(bs.last() as nat)
    }
}

/// The debug listing a textual rendering falls back to for a body that
/// is not valid UTF-8: the raw bytes in decimal between brackets.
pub open spec fn debug_bytes(bs: Seq<u8>) -> Seq<char> {
    "["@ + debug_bytes_inner(bs) + "]"@
}

/// What a textual rendering shows for a body: the decoded text when the
/// bytes are valid UTF-8, else the debug listing.
pub open spec fn body_text(bs: Seq<u8>) -> Seq<char> {
    if valid_utf8(bs) {
        decode_utf8(bs)
    } else {
        debug_bytes(bs)
    }
}

// ---------------------------------------------------------------------------
// Capability traits
// ---------------------------------------------------------------------------
/// Anything that answers with a status code.
pub trait ResponseCode {
    /// The status this value answers with.
    spec fn spec_response(&self) -> Response;

    /// The status as a [`Response`] value.
    fn response_type(&self) -> (r: Response)
        ensures
            r == self.spec_response(),
    ;

    /// The numeric status code.
    fn code(&self) -> (c: u16)
        ensures
            c == code_of(self.spec_response()),
    {
        self.response_type().code_value()
    }

    /// The canonical reason phrase.
    fn standard_phrase(&self) -> (p: &'static str)
        ensures
            p@ == phrase_of(self.spec_response()),
    {
        self.response_type().phrase_str()
    }
}

/// Anything that serializes to a complete HTTP response byte image.
pub trait IntoBytes {
    /// Internal consistency, as serialization relies on it.
    spec fn inv(&self) -> bool;

    /// The exact serialized byte image.
    spec fn spec_bytes(&self) -> Seq<u8>;

    /// The protocol version advertised in the status line.
    spec fn spec_max_version(&self) -> Version;

    /// Serializes the whole message into raw bytes.
    fn into_bytes(self) -> (r: Vec<u8>)
        requires
            self.inv(),
        ensures
            r@ == self.spec_bytes(),
    ;

    /// The protocol version the serialized status line advertises.
    fn max_version(&self) -> (v: Version)
        requires
            self.inv(),
        ensures
            v == self.spec_max_version(),
    ;
}

// ---------------------------------------------------------------------------
// Builder stages
// ---------------------------------------------------------------------------
/// Marker for a builder whose body is not yet set: headers may still be
/// added.
#[derive(Debug, PartialEq, Eq, Structural, Clone, Copy)]
pub struct Incomplete;

/// Marker for a finished builder: only serialization remains.
#[derive(Debug, PartialEq, Eq, Structural, Clone, Copy)]
pub struct Complete;

/// The builder stages.  Each stage type only offers the operations that
/// are legal next, so ordering violations cannot be written down.
pub trait State {

}

impl State for Incomplete {

}

impl State for Complete {

}

/// A response under construction: a status, the headers accumulated so
/// far, and (in the [`Complete`] stage) the body.  Every transition
/// consumes the previous builder value.
#[derive(Debug, PartialEq)]
#[verifier::reject_recursive_types(S)]
pub struct ResponseBuilder<S: State> {
    response: Response,
    marker: PhantomData<S>,
    body: Vec<u8>,
    headers: HeaderMap,
}

impl<S: State> Clone for ResponseBuilder<S> {
    /// Cloning preserves the status, the headers and the body.
    fn clone(&self) -> (r: Self)
        ensures
            r.spec_status() == self.spec_status(),
            r.spec_headers() == self.spec_headers(),
            r.spec_body() == self.spec_body(),
    {
        ResponseBuilder {
            response: self.response,
            marker: PhantomData,
            body: self.body.clone(),
            headers: self.headers.clone(),
        }
    }
}

impl<S: State> ResponseBuilder<S> {
    /// The status the response answers with.
    pub closed spec fn spec_status(&self) -> Response {
        self.response
    }

    /// The headers accumulated so far.
    pub closed spec fn spec_headers(&self) -> Entries {
        self.headers@
    }

    /// The body bytes; empty while no body was set.
    pub closed spec fn spec_body(&self) -> Seq<u8> {
        self.body@
    }

    /// The accumulated headers are well formed.
    pub open spec fn wf(&self) -> bool {
        entries_wf(self.spec_headers())
    }

    /// Read access to the accumulated headers.
    pub fn headers(&self) -> (r: &HeaderMap)
        ensures
            r@ == self.spec_headers(),
            self.wf() ==> r.wf(),
    {
        &self.headers
    }

    /// The textual form of the whole response: the serialized head, then
    /// the body as text when it is valid UTF-8, else as a debug listing
    /// of its raw bytes.
    pub fn render(&self) -> (r: String)
        requires
            self.wf(),
        ensures
            r@ == head_chars(self.spec_status(), self.spec_max_version(), self.spec_headers())
                + body_text(self.spec_body()),
    {
        let version = self.max_version();
        let mut out = head_string(self.response, version, &self.headers);
        match utf8_to_str(self.body.as_slice()) {
            Some(text) => {
                out.append(text);
            },
            None => {
                let n = self.body.len();
                out.append("[");
                let mut i: usize = 0;
                while i < n
                    invariant
                        0 <= i <= n,
                        n == self.body@.len(),
                        out@ == head_chars(
                            self.spec_status(),
                            self.spec_max_version(),
                            self.spec_headers(),
                        ) + "["@ + debug_bytes_inner(self.body@.subrange(0, i as int)),
                    decreases n - i,
                {
                    if i > 0 {
                        out.append(", ");
                    }
                    push_dec_u64(&mut out, self.body[i] as u64);
                    proof {
                        let prefix = self.body@.subrange(0, i + 1);
                        assert(prefix.drop_last() =~= self.body@.subrange(0, i as int));
                        assert(prefix.last() == self.body@[i as int]);
                        assert((self.body@[i as int] as u64) as nat == self.body@[i as int] as nat);
                        assert(out@ =~= head_chars(
                            self.spec_status(),
                            self.spec_max_version(),
                            self.spec_headers(),
                        ) + "["@ + debug_bytes_inner(prefix));
                    }
                    i = i + 1;
                }
                out.append("]");
                proof {
                    assert(self.body@.subrange(0, n as int) =~= self.body@);
                    assert(out@ =~= head_chars(
                        self.spec_status(),
                        self.spec_max_version(),
                        self.spec_headers(),
                    ) + debug_bytes(self.body@));
                }
            },
        }
        out
    }

    /// The serialized response as a `String`, which exists exactly when
    /// the body is valid UTF-8 (the head always is).
    pub fn into_string(self) -> (r: Option<String>)
        requires
            self.wf(),
        ensures
            r is Some <==> valid_utf8(self.spec_body()),
            r is Some ==> r->0@ == head_chars(
                self.spec_status(),
                self.spec_max_version(),
                self.spec_headers(),
            ) + decode_utf8(self.spec_body()),
    {
        let version = self.max_version();
        let mut out = head_string(self.response, version, &self.headers);
        match utf8_to_str(self.body.as_slice()) {
            Some(text) => {
                out.append(text);
                Some(out)
            },
            None => None,
        }
    }
}

impl ResponseBuilder<Incomplete> {
    /// Sets the body and moves to the terminal stage; the accumulated
    /// headers carry over unchanged.
    pub fn body(self, body: Vec<u8>) -> (r: ResponseBuilder<Complete>)
        ensures
            r.spec_status() == self.spec_status(),
            r.spec_headers() == self.spec_headers(),
            r.spec_body() == body@,
    {
        ResponseBuilder {
            response: self.response,
            marker: PhantomData,
            body,
            headers: self.headers,
        }
    }

    /// Adds one more header, merging per the repeated-field rule when
    /// the key is already present.  A validation error consumes the
    /// builder: no partial response survives a bad header.
    pub fn header(self, k: &str, v: &str) -> (r: Result<ResponseBuilder<Incomplete>, HeaderError>)
        requires
            self.wf(),
        ensures
            match key_check(k@) {
                Err(e) => r is Err && r->Err_0 == HeaderError::Key(e),
                Ok(kk) => match value_check(v@) {
                    Err(e) => r is Err && r->Err_0 == HeaderError::Value(e),
                    Ok(t) => r is Ok && (r->Ok_0).spec_status() == self.spec_status() && (
                    r->Ok_0).spec_headers() == merge(self.spec_headers(), kk, t) && (
                    r->Ok_0).spec_body() == self.spec_body() && (r->Ok_0).wf(),
                },
            },
    {
        let mut this = self;
        let key = match Key::new(k) {
            Ok(key) => key,
            Err(e) => {
                return Err(HeaderError::Key(e));
            },
        };
        match this.headers.insert_merged(key, v) {
            Ok(()) => Ok(this),
            Err(e) => Err(HeaderError::Value(e)),
        }
    }
}

impl Response {
    /// Sets the body directly, skipping the header stage: the response
    /// is complete with an empty header set.
    pub fn body(self, body: Vec<u8>) -> (r: ResponseBuilder<Complete>)
        ensures
            r.spec_status() == self,
            r.spec_headers() == Seq::<(Seq<char>, Seq<char>)>::empty(),
            r.spec_body() == body@,
            r.wf(),
    {
        ResponseBuilder { response: self, marker: PhantomData, body, headers: HeaderMap::new() }
    }

    /// Starts building with one validated header.
    pub fn header(self, k: &str, v: &str) -> (r: Result<
        ResponseBuilder<Incomplete>,
        HeaderError,
    >)
        ensures
            match key_check(k@) {
                Err(e) => r is Err && r->Err_0 == HeaderError::Key(e),
                Ok(kk) => match value_check(v@) {
                    Err(e) => r is Err && r->Err_0 == HeaderError::Value(e),
                    Ok(t) => r is Ok && (r->Ok_0).spec_status() == self && (
                    r->Ok_0).spec_headers() == Seq::<(Seq<char>, Seq<char>)>::empty().push(
                        (kk, t),
                    ) && (r->Ok_0).spec_body() == Seq::<u8>::empty() && (r->Ok_0).wf(),
                },
            },
    {
        let key = match Key::new(k) {
            Ok(key) => key,
            Err(e) => {
                return Err(HeaderError::Key(e));
            },
        };
        let mut headers = HeaderMap::new();
        match headers.insert_merged(key, v) {
            Ok(()) => Ok(
                ResponseBuilder {
                    response: self,
                    marker: PhantomData,
                    body: Vec::new(),
                    headers,
                },
            ),
            Err(e) => Err(HeaderError::Value(e)),
        }
    }

    /// The textual form of the bare response: status line and blank
    /// line, with version 1.0 and no headers.
    pub fn render(&self) -> (r: String)
        ensures
            r@ == head_chars(*self, Version(1, 0), Seq::<(Seq<char>, Seq<char>)>::empty()),
    {
        let empty = HeaderMap::new();
        head_string(*self, Version(1, 0), &empty)
    }
}

impl ResponseCode for Response {
    open spec fn spec_response(&self) -> Response {
        *self
    }

    fn response_type(&self) -> (r: Response) {
        *self
    }
}

impl<S: State> ResponseCode for ResponseBuilder<S> {
    open spec fn spec_response(&self) -> Response {
        self.spec_status()
    }

    fn response_type(&self) -> (r: Response) {
        self.response
    }
}

impl IntoBytes for Response {
    open spec fn inv(&self) -> bool {
        true
    }

    open spec fn spec_bytes(&self) -> Seq<u8> {
        chars_to_bytes(head_chars(*self, Version(1, 0), Seq::<(Seq<char>, Seq<char>)>::empty()))
    }

    open spec fn spec_max_version(&self) -> Version {
        Version(1, 0)
    }

    fn into_bytes(self) -> (r: Vec<u8>) {
        let empty = HeaderMap::new();
        let head = head_string(self, Version(1, 0), &empty);
        string_to_bytes(head.as_str())
    }

    fn max_version(&self) -> (v: Version) {
        Version(1, 0)
    }
}

impl<S: State> IntoBytes for ResponseBuilder<S> {
    open spec fn inv(&self) -> bool {
        self.wf()
    }

    open spec fn spec_bytes(&self) -> Seq<u8> {
        chars_to_bytes(
            head_chars(self.spec_status(), self.spec_max_version(), self.spec_headers()),
        ) + self.spec_body()
    }

    open spec fn spec_max_version(&self) -> Version {
        advertised_version(self.spec_headers())
    }

    fn into_bytes(self) -> (r: Vec<u8>) {
        let version = self.max_version();
        let head = head_string(self.response, version, &self.headers);
        let mut out = string_to_bytes(head.as_str());
        let mut body = self.body;
        out.append(&mut body);
        out
    }

    fn max_version(&self) -> (v: Version) {
        proof {
            lemma_host_key_valid();
        }
        match Key::new("host") {
            Ok(host) => {
                if self.headers.get(&host).is_some() {
                    Version(1, 1)
                } else {
                    Version(1, 0)
                }
            },
            Err(_) => {
                proof {
                    assert(false);
                }
                Version(1, 0)
            },
        }
    }
}

/// Law: merging a value under the key `host` into any header set makes
/// the advertised version 1.1, whether or not the key was present.
pub proof fn lemma_host_header_raises_version(m: Entries, v: Seq<char>)
    ensures
        advertised_version(merge(m, "host"@, v)) == Version(1, 1),
{
    let k = "host"@;
    let mm = merge(m, k, v);
    if has_key(m, k) {
        let i = crate::header::map::index_of(m, k);
        assert(0 <= i < m.len() && m[i].0 == k);
        assert(mm[i].0 == k);
        assert(has_key(mm, k));
    } else {
        assert(mm[m.len() as int].0 == k);
        assert(has_key(mm, k));
    }
}

/// The literal `host` is a valid, already-canonical key.
proof fn lemma_host_key_valid()
    ensures
        key_check("host"@) == Ok::<Seq<char>, crate::header::KeyError>("host"@),
{
    reveal_strlit("host");
    assert(crate::text::is_ascii_seq("host"@));
    assert(!crate::text::is_space("host"@[0]));
    assert(!crate::text::is_space("host"@.last()));
    assert(crate::text::to_lower("host"@) =~= "host"@);
}

/// Builds the serialized head: status line, header block, blank line.
fn head_string(resp: Response, version: Version, m: &HeaderMap) -> (r: String)
    ensures
        r@ == head_chars(resp, version, m@),
{
    let mut out = String::new();
    out.append("HTTP/");
    push_dec_u64(&mut out, version.0);
    out.append(".");
    push_dec_u64(&mut out, version.1);
    out.append(" ");
    let code = resp.code_value();
    proof {
        assert((code as u64) as nat == code as nat);
    }
    push_dec_u64(&mut out, code as u64);
    out.append(" ");
    out.append(resp.phrase_str());
    proof {
        assert(out@ =~= status_line_chars(resp, version));
    }
    let n = m.len();
    let mut i: usize = 0;
    while i < n
        invariant
            0 <= i <= n,
            n == m@.len(),
            out@ == status_line_chars(resp, version) + header_block_chars(
                m@.subrange(0, i as int),
            ),
        decreases n - i,
    {
        out.append("\r\n");
        out.append(m.key_at(i).as_str());
        out.append(":");
        out.append(m.value_at(i).as_str());
        proof {
            let prefix = m@.subrange(0, i + 1);
            assert(prefix.drop_last() =~= m@.subrange(0, i as int));
            assert(prefix.last() == m@[i as int]);
            assert(out@ =~= status_line_chars(resp, version) + header_block_chars(prefix));
        }
        i = i + 1;
    }
    out.append("\r\n\r\n");
    proof {
        assert(m@.subrange(0, n as int) =~= m@);
        assert(out@ =~= head_chars(resp, version, m@));
    }
    out
}

/// The byte image of an already-built head string.
fn string_to_bytes(s: &str) -> (r: Vec<u8>)
    ensures
        r@ == chars_to_bytes(s@),
{
    let n = s.unicode_len();
    let mut out: Vec<u8> = Vec::new();
    let mut i: usize = 0;
    while i < n
        invariant
            0 <= i <= n,
            n == s@.len(),
            out@ == chars_to_bytes(s@.subrange(0, i as int)),
        decreases n - i,
    {
        let c = s.get_char(i);
        out.push((c as u32) as u8);
        proof {
            assert(chars_to_bytes(s@.subrange(0, i + 1)) =~= chars_to_bytes(
                s@.subrange(0, i as int),
            ).push((s@[i as int] as u32) as u8));
        }
        i = i + 1;
    }
    proof {
        assert(s@.subrange(0, n as int) =~= s@);
    }
    out
}

/// The canonical reason phrase for a numeric status code, or `None` when
/// the number is no standard status code.
pub fn standard_phrase(code: u16) -> (r: Option<&'static str>)
    ensures
        match response_of_code(code) {
            Some(resp) => r is Some && r->0@ == phrase_of(resp),
            None => r is None,
        },
{
    match Response::new(code) {
        Ok(resp) => Some(resp.phrase_str()),
        Err(_) => None,
    }
}

} // verus!

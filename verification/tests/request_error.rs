use http_message::header::{HeaderError, KeyError};
use http_message::request::error::{MethodParseError, RequestParseError};
use http_message::{Request, Response};

#[test]
fn appropriate_reponse_method_not_recognized() {
    assert_eq!(
        RequestParseError::MethodNotRecognized(MethodParseError::NotAMethod).appropriate_response(),
        Some(Response::NotImplemented)
    )
}

#[test]
fn appropriate_response_colon_whitespace() {
    let err = "GET / HTTP/1.1\r\nkey : v\r\n".parse::<Request>().unwrap_err();
    assert_eq!(
        err,
        RequestParseError::BadHeader(HeaderError::Key(KeyError::ColonWhitespace))
    );
    assert_eq!(err.appropriate_response(), Some(Response::BadRequest));
}

#[test]
fn appropriate_response_mostly_none() {
    assert_eq!(RequestParseError::EmptyRequest.appropriate_response(), None);
    assert_eq!(RequestParseError::InvalidVersion.appropriate_response(), None);
    assert_eq!(
        RequestParseError::BadHeader(HeaderError::NoSeparator).appropriate_response(),
        None
    );
}

#[test]
fn parse_error_describe_words() {
    assert_eq!(
        RequestParseError::EmptyRequest.describe(),
        String::from("empty string")
    );
    assert_eq!(
        RequestParseError::MethodNotRecognized(MethodParseError::NotAMethod).describe(),
        String::from("method not recognized: not a method word")
    );
}

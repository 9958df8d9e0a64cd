use http_message::header::HeaderError;
use http_message::request::error::{MethodParseError, RequestParseError};
use http_message::{Request, RequestMethod, Version};

#[test]
fn version_one_one() {
    let request = "GET / HTTP/1.1\r\n".parse().unwrap();
    assert!(matches!(
        request,
        Request {
            method: RequestMethod::Get,
            version: Version(1, 1),
            ..
        }
    ))
}

#[test]
fn version_three() {
    let request = "POST /stuff HTTP/3.0\r\n\r\n".parse().unwrap();
    assert!(matches!(
        request,
        Request {
            version: Version(3, 0),
            ..
        }
    ))
}

#[test]
fn version_invalid_three_items() {
    let request = "DELETE /other/stuff HTTP/2.0.1\r\n".parse::<Request>();
    assert_eq!(request, Err(RequestParseError::InvalidVersion))
}

#[test]
fn headers_combine() {
    let request = "POST /stuff HTTP/1.1\r\n\
            Some_header: A\r\n\
            Some_Header: B\r\n\
            some_header:    C    \r\n"
        .parse::<Request>()
        .unwrap();
    assert_eq!(request.get_header("some_header").unwrap().as_str(), "A,B,C");
}

#[test]
fn ignore_first_empty_line() {
    let str = "\r\nPOST /stuff HTTP/1.1\r\n\
        Some_header: A\r\n\r\n";
    let rq = str.parse::<Request>();
    assert!(rq.is_ok());
}

#[test]
fn fail_empty_line() {
    let str = "";
    assert_eq!(str.parse::<Request>(), Err(RequestParseError::EmptyRequest));
}

#[test]
fn whole_request_with_body() {
    let input = "GET /my/path HTTP/1.1\r\n\
        Content-Length: 50\r\n\
        Authorization: I have none\r\n\
        \r\n\
        This is somebody's body";
    let request = input.parse::<Request>().unwrap();
    assert_eq!(request.method, RequestMethod::Get);
    assert_eq!(request.path, String::from("/my/path"));
    assert_eq!(request.version, Version(1, 1));
    assert_eq!(request.get_header("content-length").unwrap().as_str(), "50");
    assert_eq!(request.get_header("Authorization").unwrap().as_str(), "I have none");
    assert!(request.get_header("missing").is_none());
}

#[test]
fn too_few_startline_words() {
    assert_eq!(
        "GET /\r\n".parse::<Request>(),
        Err(RequestParseError::MissingStartlineElements)
    );
}

#[test]
fn extra_startline_words_are_ignored() {
    let request = "GET / HTTP/1.1 something extra\r\n".parse::<Request>().unwrap();
    assert_eq!(request.version, Version(1, 1));
}

#[test]
fn version_without_http_prefix() {
    assert_eq!(
        "GET / FTP/1.1\r\n".parse::<Request>(),
        Err(RequestParseError::InvalidHttpWord)
    );
}

#[test]
fn version_too_large_for_u64() {
    assert_eq!(
        "GET / HTTP/99999999999999999999.0\r\n".parse::<Request>(),
        Err(RequestParseError::InvalidVersion)
    );
}

#[test]
fn lowercase_method_is_refused() {
    assert_eq!(
        "get / HTTP/1.1\r\n".parse::<Request>(),
        Err(RequestParseError::MethodNotRecognized(
            MethodParseError::NotAsciiUppercase
        ))
    );
}

#[test]
fn unknown_uppercase_method_is_refused() {
    assert_eq!(
        "BLAH / HTTP/1.1\r\n".parse::<Request>(),
        Err(RequestParseError::MethodNotRecognized(
            MethodParseError::NotAMethod
        ))
    );
}

#[test]
fn header_line_without_colon() {
    assert_eq!(
        "GET / HTTP/1.1\r\nbadline\r\n".parse::<Request>(),
        Err(RequestParseError::BadHeader(HeaderError::NoSeparator))
    );
}

#[test]
fn all_methods_parse() {
    for (word, method) in [
        ("GET", RequestMethod::Get),
        ("HEAD", RequestMethod::Head),
        ("POST", RequestMethod::Post),
        ("PUT", RequestMethod::Put),
        ("DELETE", RequestMethod::Delete),
        ("CONNECT", RequestMethod::Connect),
        ("OPTIONS", RequestMethod::Options),
        ("TRACE", RequestMethod::Trace),
    ] {
        assert_eq!(RequestMethod::from_word(word), Ok(method));
    }
}

#[test]
fn method_safety_table() {
    assert!(RequestMethod::Get.is_safe());
    assert!(RequestMethod::Head.is_safe());
    assert!(RequestMethod::Options.is_safe());
    assert!(RequestMethod::Trace.is_safe());
    assert!(!RequestMethod::Post.is_safe());
    assert!(!RequestMethod::Put.is_safe());
    assert!(!RequestMethod::Delete.is_safe());
    assert!(!RequestMethod::Connect.is_safe());
}

#[test]
fn method_idempotency_table() {
    assert!(RequestMethod::Get.is_idempotent());
    assert!(RequestMethod::Put.is_idempotent());
    assert!(RequestMethod::Delete.is_idempotent());
    assert!(!RequestMethod::Post.is_idempotent());
    assert!(!RequestMethod::Connect.is_idempotent());
}

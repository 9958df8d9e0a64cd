use http_message::header::Value;
use http_message::response::{standard_phrase, InvalidCode};
use http_message::{IntoBytes, Response, ResponseCode, Version};

#[test]
fn codes_and_phrases_through_the_trait() {
    assert_eq!(Response::NotFound.code(), 404);
    assert_eq!(Response::NotFound.standard_phrase(), "NOT FOUND");
    let builder = Response::Okay.header("hi", "there").unwrap();
    assert_eq!(builder.code(), 200);
    assert_eq!(builder.standard_phrase(), "OK");
    assert_eq!(builder.response_type(), Response::Okay);
}

#[test]
fn response_title_bytes() {
    let result = Response::Okay.into_bytes();
    assert_eq!(result, b"HTTP/1.0 200 OK\r\n\r\n");
}

#[test]
fn response_body_bytes() {
    let result = Response::Okay.body(b"SomeBODY".to_vec());
    assert_eq!(result.into_bytes(), b"HTTP/1.0 200 OK\r\n\r\nSomeBODY");
}

#[test]
fn response_header_bytes() {
    let result = Response::Okay
        .header("hi", "its me")
        .unwrap()
        .body(b"someBODY".to_vec());
    assert_eq!(
        result.into_bytes(),
        b"HTTP/1.0 200 OK\r\nhi:its me\r\n\r\nsomeBODY"
    );
}

#[test]
// Header fields with different keys may appear in arbitrary order
fn reponse_multiple_headers() {
    let result = Response::Okay
        .header("hey", "man")
        .unwrap()
        .header("how", "are you")
        .unwrap()
        .body(b"someBODY".to_vec());
    assert!(
        result.clone().into_bytes() == b"HTTP/1.0 200 OK\r\nhey:man\r\nhow:are you\r\n\r\nsomeBODY"
            || result.into_bytes() == b"HTTP/1.0 200 OK\r\nhow:are you\r\nhey:man\r\n\r\nsomeBODY"
    )
}

#[test]
fn multiple_headers() {
    let result = Response::Okay
        .header("stuff", "Aaron")
        .unwrap()
        .header("STUFF", "Berta")
        .unwrap()
        .header("sTuFf", "Charlie   ")
        .unwrap()
        .header("other_stuff", "Daniel")
        .unwrap();
    assert_eq!(
        result.headers().get_str("stuff"),
        Some(&Value::new("Aaron,Berta,Charlie").unwrap())
    );
    assert_eq!(
        result.headers().get_str("other_stuff"),
        Some(&Value::new("Daniel").unwrap())
    );
}

#[test]
fn headers_trim_leading_whitespace() {
    let key = "some_header";
    let r = Response::Okay;
    let result = r.clone().header(key, "no_whitespace").unwrap();
    let result2 = r.header(key, "   no_whitespace").unwrap();
    assert_eq!(result, result2);
}

#[test]
fn headers_trim_trailing_whitespace() {
    let key = "some_header";
    let r = Response::Okay;
    let result = r.clone().header(key, "no_whitespace").unwrap();
    let result2 = r.header(key, "no_whitespace          ").unwrap();
    assert_eq!(result, result2);
}

#[test]
fn header_cant_insert_empty() {
    assert!(Response::Okay.header("stuff", "").is_err());
    assert!(Response::Okay.header("", "stuff").is_err());
}

#[test]
fn try_into_string() {
    let response = Response::new(404).unwrap();
    let response = response
        .header("your", "mom")
        .unwrap()
        .body(b"is great".to_vec());
    let string: String = response.into_string().unwrap();
    assert_eq!(
        string,
        "HTTP/1.0 404 NOT FOUND\r\n\
            your:mom\r\n\r\n\
            is great"
            .to_owned()
    );
}

#[test]
fn complete_correct_string() {
    let test_string = "HTTP/1.0 400 BAD REQUEST\r\n\
        header:stuff\r\n\r\n"
        .to_owned();
    let raw = Response::BadRequest.header("header", "stuff").unwrap();
    assert_eq!(raw.render(), test_string);
    assert_eq!(raw.body(Vec::new()).render(), test_string)
}

#[test]
fn print_invalid_utf8() {
    let test_string = "HTTP/1.0 400 BAD REQUEST\r\n\r\n\
        [14, 147, 94]"
        .to_owned();
    let response = Response::BadRequest.body(vec![14, 147, 94]);
    assert_eq!(test_string, response.render());
}

#[test]
fn no_string_from_invalid_utf8() {
    let response = Response::BadRequest.body(vec![14, 147, 94]);
    assert!(response.into_string().is_none());
}

#[test]
fn print_no_header_only_two_rns() {
    let test_string = "HTTP/1.0 418 IM A TEAPOT\r\n\r\n".to_owned();
    let response = Response::ImATeapot;
    assert_eq!(test_string, response.render())
}

#[test]
fn version_host_key() {
    let res = Response::Okay.header("Host", "github.com").unwrap();
    assert_eq!(res.max_version(), Version(1, 1));
}

#[test]
fn version_no_host_key() {
    let res = Response::Okay;
    assert_eq!(res.max_version(), Version(1, 0));
}

#[test]
fn unlisted_code_is_refused() {
    assert_eq!(Response::new(600), Err(InvalidCode));
    assert_eq!(Response::new(0), Err(InvalidCode));
    assert_eq!(Response::new(419), Err(InvalidCode));
    assert_eq!(Response::new(200), Ok(Response::Okay));
    assert_eq!(Response::new(511), Ok(Response::NetworkAuthenticationRequired));
}

#[test]
fn standard_phrase_lookup() {
    assert_eq!(standard_phrase(404), Some("NOT FOUND"));
    assert_eq!(standard_phrase(418), Some("IM A TEAPOT"));
    assert_eq!(standard_phrase(202), Some("ACCEPTED"));
    assert_eq!(standard_phrase(406), Some("NOT ACCEPTABLE"));
    assert_eq!(standard_phrase(600), None);
}

#[test]
fn version_renders_as_major_dot_minor() {
    assert_eq!(Version(1, 1).render(), String::from("1.1"));
    assert_eq!(Version(10, 0).render(), String::from("10.0"));
}

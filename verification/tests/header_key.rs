use http_message::header::{Key, KeyError};

#[test]
fn eq_string_ignore_case() {
    let result = Key::new("AbC").unwrap();
    assert!(result.eq_str("abc"));
    assert!(result.eq_str("ABC"));
}

#[test]
fn eq_string_refuse_whitespace() {
    assert!(!Key::new("AbC").unwrap().eq_str("  ABC"));
}

#[test]
fn eq_self_ignore_case() {
    assert_eq!(Key::new("ABC"), Key::new("abc"));
}

#[test]
fn refuse_whitespace() {
    assert!(Key::new("      abc         ").is_err())
}

#[test]
fn refuse_whitespace_trailing() {
    assert!(Key::new("abc ").is_err());
}

#[test]
fn refuse_whitespace_leading() {
    assert!(Key::new(" abc").is_err())
}

#[test]
fn key_stores_lowercase_form() {
    assert_eq!(Key::new("X-Forwarded-For").unwrap().as_str(), "x-forwarded-for");
    assert_eq!(Key::new("HOST").unwrap().into_string(), String::from("host"));
}

#[test]
fn key_error_order() {
    assert_eq!(Key::new("héllo"), Err(KeyError::NonAsciiChars));
    assert_eq!(Key::new(""), Err(KeyError::EmptyString));
    assert_eq!(Key::new(" abc "), Err(KeyError::LeadingWhitespace));
    assert_eq!(Key::new("abc\t"), Err(KeyError::ColonWhitespace));
    // a non-ASCII key with surrounding white space still reports the
    // ASCII breach first
    assert_eq!(Key::new(" héllo "), Err(KeyError::NonAsciiChars));
}

#[test]
fn key_describe_words() {
    assert_eq!(KeyError::ColonWhitespace.describe(), "pre-colon whitespace");
    assert_eq!(KeyError::LeadingWhitespace.describe(), "leading whitespace");
}

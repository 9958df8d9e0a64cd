use http_message::header::{HeaderError, KeyError, Value, ValueError};

#[test]
fn reject_null() {
    assert!(Value::new("S\0me text").is_err());
}

#[test]
fn reject_newline() {
    assert!(Value::new("Someo\ne elses problem").is_err());
}

#[test]
fn reject_linefeed() {
    assert!(Value::new("Nobody ca\res").is_err());
}

#[test]
fn reject_multiple_illegal_chars() {
    assert!(Value::new("\n\0body ca\res").is_err());
}

#[test]
fn trim_whitespace() {
    let none = Value::new("some_text");
    let in_front = Value::new("   some_text");
    let trailing = Value::new("some_text      ");
    let both = Value::new("     some_text   ");
    assert_eq!(none, in_front);
    assert_eq!(none, trailing);
    assert_eq!(none, both);
}

#[test]
fn dont_trim_middle_whitespace() {
    let none = Value::new("some_text").unwrap();
    let some = Value::new("some_   text").unwrap();
    assert_ne!(none, some);
}

#[test]
fn dont_ignore_caps() {
    assert_ne!(Value::new("some_text").unwrap().as_str(), "SoMe_text");
    assert_eq!(Value::new("some_text").unwrap().as_str(), "some_text");
}

#[test]
fn into_string() {
    assert_eq!(
        Value::new("SOME TEXT").unwrap().into_string(),
        String::from("SOME TEXT")
    )
}

#[test]
fn illegal_chars_reported_as_such() {
    assert_eq!(Value::new("a\rb"), Err(ValueError::IllegalChars));
    assert_eq!(Value::new("a\nb"), Err(ValueError::IllegalChars));
    assert_eq!(Value::new("a\0b"), Err(ValueError::IllegalChars));
}

#[test]
fn empty_and_whitespace_only_are_empty() {
    assert_eq!(Value::new(""), Err(ValueError::EmptyString));
    assert_eq!(Value::new("     "), Err(ValueError::EmptyString));
    assert_eq!(Value::new("\t \t"), Err(ValueError::EmptyString));
}

#[test]
fn value_refuses_non_ascii() {
    assert_eq!(Value::new("héllo"), Err(ValueError::NonAsciiChars));
}

#[test]
fn append_joins_with_comma() {
    let mut v = Value::new("A").unwrap();
    v.append("B").unwrap();
    assert_eq!(v, Value::new("A,B").unwrap());
}

#[test]
fn three_appends_chain() {
    let mut v = Value::new("A").unwrap();
    v.append("B").unwrap();
    v.append("C").unwrap();
    assert_eq!(v.as_str(), "A,B,C");
}

#[test]
fn append_validates_the_new_piece() {
    let mut v = Value::new("A").unwrap();
    assert_eq!(v.append("   "), Err(ValueError::EmptyString));
    assert_eq!(v.as_str(), "A");
}

#[test]
fn value_describe_words() {
    assert_eq!(ValueError::EmptyString.describe(), "empty value");
    assert_eq!(
        HeaderError::Key(KeyError::NonAsciiChars).describe(),
        String::from("Key: non-ascii chars")
    );
    assert_eq!(
        HeaderError::Value(ValueError::IllegalChars).describe(),
        String::from("Value: illegal characters (\\r, \\n or \\0)")
    );
}

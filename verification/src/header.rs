//! Header keys and values, their validation rules, and the ordered,
//! merge-on-insert header collection.
use vstd::prelude::*;

pub mod key;
pub mod map;
pub mod value;

pub use key::Key;
pub use map::HeaderMap;
pub use value::Value;

verus! {

/// Why a raw header line was rejected.
#[derive(Debug, PartialEq, Eq, Structural, Clone, Copy)]
pub enum HeaderError {
    Key(KeyError),
    Value(ValueError),
    NoSeparator,
}

/// Why a raw header key was rejected.  The checks run in declaration
/// order, so the first failing rule names the error.
#[derive(Debug, PartialEq, Eq, Structural, Clone, Copy)]
pub enum KeyError {
    NonAsciiChars,
    EmptyString,
    LeadingWhitespace,
    /// White space at the end of a key, which in a raw header line sits
    /// directly before the colon: a known request-smuggling vector, kept
    /// distinct from plain leading white space.
    ColonWhitespace,
}

/// Why a raw header value was rejected.  The value is trimmed before any
/// rule runs, so an all-white-space input counts as empty.
#[derive(Debug, PartialEq, Eq, Structural, Clone, Copy)]
pub enum ValueError {
    NonAsciiChars,
    EmptyString,
    IllegalChars,
}

impl KeyError {
    /// What this error means, as `KeyError::describe` renders it.
    pub open spec fn describe_spec(self) -> Seq<char> {
        match self {
            KeyError::NonAsciiChars => "non-ascii chars"@,
            KeyError::EmptyString => "empty key"@,
            KeyError::LeadingWhitespace => "leading whitespace"@,
            KeyError::ColonWhitespace => "pre-colon whitespace"@,
        }
    }

    /// A short description of the error.
    pub fn describe(&self) -> (r: &'static str)
        ensures
            r@ == self.describe_spec(),
    {
        match self {
            KeyError::NonAsciiChars => "non-ascii chars",
            KeyError::EmptyString => "empty key",
            KeyError::LeadingWhitespace => "leading whitespace",
            KeyError::ColonWhitespace => "pre-colon whitespace",
        }
    }
}

impl ValueError {
    /// What this error means, as `ValueError::describe` renders it.
    pub open spec fn describe_spec(self) -> Seq<char> {
        match self {
            ValueError::NonAsciiChars => "non-ascii chars"@,
            ValueError::EmptyString => "empty value"@,
            ValueError::IllegalChars => "illegal characters (\\r, \\n or \\0)"@,
        }
    }

    /// A short description of the error.
    pub fn describe(&self) -> (r: &'static str)
        ensures
            r@ == self.describe_spec(),
    {
        match self {
            ValueError::NonAsciiChars => "non-ascii chars",
            ValueError::EmptyString => "empty value",
            ValueError::IllegalChars => "illegal characters (\\r, \\n or \\0)",
        }
    }
}

impl HeaderError {
    /// What this error means, as `HeaderError::describe` renders it.
    pub open spec fn describe_spec(self) -> Seq<char> {
        match self {
            HeaderError::Key(e) => "Key: "@ + e.describe_spec(),
            HeaderError::Value(e) => "Value: "@ + e.describe_spec(),
            HeaderError::NoSeparator => "Header: missing key-value pair separated by ': '"@,
        }
    }

    /// A short description of the error, naming the side it came from.
    pub fn describe(&self) -> (r: String)
        ensures
            r@ == self.describe_spec(),
    {
        match self {
            HeaderError::Key(e) => String::from_str("Key: ").concat(e.describe()),
            HeaderError::Value(e) => String::from_str("Value: ").concat(e.describe()),
            HeaderError::NoSeparator => String::from_str(
                "Header: missing key-value pair separated by ': '",
            ),
        }
    }
}

} // verus!

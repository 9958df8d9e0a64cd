//! Validated, canonicalized header keys.
use vstd::prelude::*;

use crate::header::KeyError;
use crate::text::{
    check_ascii, is_ascii_char, is_ascii_seq, is_space, is_space_char, lower_char, str_eq,
    to_lower, to_lowercase_string,
};

verus! {

/// Decides how [`Key::new`] treats a raw key: the canonical (lower-case)
/// form on success, or the first failing rule.  The rules run in order:
/// ASCII first, then emptiness, then leading white space, then trailing
/// white space (the pre-colon position).
pub open spec fn key_check(s: Seq<char>) -> Result<Seq<char>, KeyError> {
    if !is_ascii_seq(s) {
        Err(KeyError::NonAsciiChars)
    } else if s.len() == 0 {
        Err(KeyError::EmptyString)
    } else if is_space(s[0]) {
        Err(KeyError::LeadingWhitespace)
    } else if is_space(s.last()) {
        Err(KeyError::ColonWhitespace)
    } else {
        Ok(to_lower(s))
    }
}

/// The invariant of a stored key: non-empty ASCII, no white space at
/// either end, already lower-case.
pub open spec fn key_wf(s: Seq<char>) -> bool {
    &&& is_ascii_seq(s)
    &&& s.len() > 0
    &&& !is_space(s[0])
    &&& !is_space(s.last())
    &&& s == to_lower(s)
}

/// A header key that meets the HTTP/1.1 field-name rules.
/// Always stores the ASCII-lowercase form, so keys that differ only in
/// case are equal.
#[derive(Debug, PartialEq, Eq, Hash)]
pub struct Key(String);

impl View for Key {
    type V = Seq<char>;

    closed spec fn view(&self) -> Seq<char> {
        self.0@
    }
}

impl Key {
    /// The stored canonical form satisfies [`key_wf`].
    pub open spec fn wf(&self) -> bool {
        key_wf(self@)
    }

    /// Validates a raw key and stores its ASCII-lowercase form, per
    /// [`key_check`].
    pub fn new(s: &str) -> (r: Result<Key, KeyError>)
        ensures
            match key_check(s@) {
                Ok(t) => r is Ok && r->Ok_0@ == t && r->Ok_0.wf(),
                Err(e) => r is Err && r->Err_0 == e,
            },
    {
        if !check_ascii(s) {
            Err(KeyError::NonAsciiChars)
        } else if s.is_empty() {
            Err(KeyError::EmptyString)
        } else if is_space_char(s.get_char(0)) {
            Err(KeyError::LeadingWhitespace)
        } else {
            let n = s.unicode_len();
            if is_space_char(s.get_char(n - 1)) {
                Err(KeyError::ColonWhitespace)
            } else {
                let lowered = to_lowercase_string(s);
                proof {
                    lemma_to_lower_wf(s@);
                }
                Ok(Key(lowered))
            }
        }
    }

    /// The canonical (lower-case) text of the key.
    pub fn as_str(&self) -> (r: &str)
        ensures
            r@ == self@,
    {
        self.0.as_str()
    }

    /// Case-insensitive comparison against a raw string, matching the way
    /// two raw keys would compare after construction.
    pub fn eq_str(&self, other: &str) -> (r: bool)
        ensures
            r == (self@ == to_lower(other@)),
    {
        let lowered = to_lowercase_string(other);
        str_eq(self.0.as_str(), lowered.as_str())
    }

    /// Gives up the key and hands back its canonical text.
    pub fn into_string(self) -> (r: String)
        ensures
            r@ == self@,
    {
        self.0
    }
}

impl Clone for Key {
    /// Cloning preserves the canonical text.
    fn clone(&self) -> (r: Self)
        ensures
            r@ == self@,
    {
        Key(self.0.clone())
    }
}

/// Law: on every non-empty ASCII string with no surrounding white
/// space, key construction succeeds and round-trips to the ASCII
/// lower-case form.
pub proof fn lemma_key_roundtrip(s: Seq<char>)
    requires
        is_ascii_seq(s),
        s.len() > 0,
        !is_space(s[0]),
        !is_space(s.last()),
    ensures
        key_check(s) == Ok::<Seq<char>, KeyError>(to_lower(s)),
{
}

/// Law: the empty string is refused as an empty key.
pub proof fn lemma_key_empty(s: Seq<char>)
    requires
        s.len() == 0,
    ensures
        key_check(s) == Err::<Seq<char>, KeyError>(KeyError::EmptyString),
{
}

/// Law: keys built from case variants of the same letters are equal.
/// When one raw key is accepted, any raw key with the same lower-case
/// form parses to the very same canonical key.
pub proof fn lemma_key_case_insensitive(s1: Seq<char>, s2: Seq<char>)
    requires
        key_check(s1) is Ok,
        to_lower(s1) == to_lower(s2),
    ensures
        key_check(s2) == key_check(s1),
{
    let l1 = to_lower(s1);
    let l2 = to_lower(s2);
    assert(l1.len() == s1.len() && l2.len() == s2.len());
    assert(s2.len() == s1.len());
    assert forall|i: int| 0 <= i < s2.len() implies is_ascii_char(s2[i]) by {
        assert(l1[i] == lower_char(s1[i]));
        assert(l2[i] == lower_char(s2[i]));
        assert(lower_char(s2[i]) == lower_char(s1[i]));
        assert(is_ascii_char(s1[i]));
    }
    assert(is_ascii_seq(s2));
    assert(l1[0] == lower_char(s1[0]) && l2[0] == lower_char(s2[0]));
    assert(lower_char(s2[0]) == lower_char(s1[0]));
    assert(!is_space(s1[0]));
    assert(!is_space(s2[0]));
    let e: int = s1.len() - 1;
    assert(l1[e] == lower_char(s1[e]) && l2[e] == lower_char(s2[e]));
    assert(lower_char(s2[e]) == lower_char(s1[e]));
    assert(!is_space(s1[e]));
    assert(!is_space(s2[e]));
    assert(key_check(s2) == Ok::<Seq<char>, KeyError>(l2));
}

/// Lowercasing a valid raw key yields a canonical one.
proof fn lemma_to_lower_wf(s: Seq<char>)
    requires
        is_ascii_seq(s),
        s.len() > 0,
        !is_space(s[0]),
        !is_space(s.last()),
    ensures
        key_wf(to_lower(s)),
{
    let t = to_lower(s);
    assert(forall|i: int| 0 <= i < s.len() ==> t[i] == lower_char(s[i]));
    assert(is_ascii_seq(t));
    assert(!is_space(t[0]));
    assert(t.last() == lower_char(s.last()));
    assert(to_lower(t) =~= t);
}

} // verus!

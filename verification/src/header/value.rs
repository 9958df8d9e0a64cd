//! Validated header values with comma-merge append semantics.
use vstd::prelude::*;

use crate::header::ValueError;
use crate::text::{
    check_ascii, is_ascii_seq, is_space, lemma_trimmed_edges, push_char, trim_back, trim_front,
    trim_str, trimmed,
};

verus! {

/// A character a header value may never contain, wherever it stands.
pub open spec fn is_illegal_char(c: char) -> bool {
    c == '\r' || c == '\n' || c == '\0'
}

/// Whether `s` contains a carriage return, line feed or NUL anywhere.
pub open spec fn has_illegal_char(s: Seq<char>) -> bool {
    exists|i: int| 0 <= i < s.len() && is_illegal_char(s[i])
}

/// Decides how [`Value::new`] treats a raw value: white space is trimmed
/// off both ends first, then the rules run in order: ASCII, emptiness
/// (an all-white-space input is empty), then the illegal characters
/// `\r`, `\n` and `\0`.
pub open spec fn value_check(s: Seq<char>) -> Result<Seq<char>, ValueError> {
    let t = trimmed(s);
    if !is_ascii_seq(t) {
        Err(ValueError::NonAsciiChars)
    } else if t.len() == 0 {
        Err(ValueError::EmptyString)
    } else if has_illegal_char(t) {
        Err(ValueError::IllegalChars)
    } else {
        Ok(t)
    }
}

/// The invariant of a stored value: non-empty ASCII, free of `\r`, `\n`
/// and `\0`, with no white space at either end.  Interior white space is
/// preserved.
pub open spec fn value_wf(s: Seq<char>) -> bool {
    &&& is_ascii_seq(s)
    &&& s.len() > 0
    &&& !has_illegal_char(s)
    &&& !is_space(s[0])
    &&& !is_space(s.last())
}

/// A header value that meets the HTTP/1.1 field-value rules.  Comparison
/// is exact: case matters, unlike for keys.
#[derive(Debug, PartialEq, Eq)]
pub struct Value(String);

impl View for Value {
    type V = Seq<char>;

    closed spec fn view(&self) -> Seq<char> {
        self.0@
    }
}

impl Clone for Value {
    /// Cloning preserves the text.
    fn clone(&self) -> (r: Self)
        ensures
            r@ == self@,
    {
        Value(self.0.clone())
    }
}

impl Value {
    /// The stored text satisfies [`value_wf`].
    pub open spec fn wf(&self) -> bool {
        value_wf(self@)
    }

    /// Validates a raw value and stores its trimmed form, per
    /// [`value_check`].
    pub fn new(s: &str) -> (r: Result<Value, ValueError>)
        ensures
            match value_check(s@) {
                Ok(t) => r is Ok && r->Ok_0@ == t && r->Ok_0.wf(),
                Err(e) => r is Err && r->Err_0 == e,
            },
    {
        let t = trim_str(s);
        proof {
            lemma_trimmed_edges(s@);
        }
        if !check_ascii(t) {
            Err(ValueError::NonAsciiChars)
        } else if t.is_empty() {
            Err(ValueError::EmptyString)
        } else {
            let n = t.unicode_len();
            let mut i: usize = 0;
            while i < n
                invariant
                    0 <= i <= n,
                    n == t@.len(),
                    n > 0,
                    t@ == trimmed(s@),
                    is_ascii_seq(t@),
                    forall|j: int| 0 <= j < i ==> !is_illegal_char(t@[j]),
                decreases n - i,
            {
                let c = t.get_char(i);
                if c == '\r' || c == '\n' || c == '\0' {
                    proof {
                        assert(is_illegal_char(trimmed(s@)[i as int]));
                        assert(has_illegal_char(trimmed(s@)));
                    }
                    return Err(ValueError::IllegalChars);
                }
                i = i + 1;
            }
            Ok(Value(String::from_str(t)))
        }
    }

    /// Merges a second raw value for the same key: validates it on its
    /// own, then appends it after a comma, realizing the HTTP rule that
    /// repeated fields form a single comma-joined list.  On failure the
    /// stored value is untouched.
    pub fn append(&mut self, s: &str) -> (r: Result<(), ValueError>)
        requires
            old(self).wf(),
        ensures
            match value_check(s@) {
                Ok(t) => r is Ok && final(self)@ == old(self)@ + seq![','] + t
                    && final(self).wf(),
                Err(e) => r is Err && r->Err_0 == e && final(self)@ == old(self)@,
            },
    {
        match Value::new(s) {
            Ok(cleaned) => {
                push_char(&mut self.0, ',');
                self.0.append(cleaned.0.as_str());
                proof {
                    assert(final(self)@ =~= old(self)@ + seq![','] + cleaned@);
                }
                Ok(())
            },
            Err(e) => Err(e),
        }
    }

    /// The stored text of the value.
    pub fn as_str(&self) -> (r: &str)
        ensures
            r@ == self@,
    {
        self.0.as_str()
    }

    /// Gives up the value and hands back its text.
    pub fn into_string(self) -> (r: String)
        ensures
            r@ == self@,
    {
        self.0
    }
}

/// Law: an ASCII value that still holds `\r`, `\n` or `\0` after
/// trimming is refused as IllegalChars, wherever the character stands.
pub proof fn lemma_value_illegal(s: Seq<char>)
    requires
        is_ascii_seq(s),
        has_illegal_char(trimmed(s)),
    ensures
        value_check(s) == Err::<Seq<char>, ValueError>(ValueError::IllegalChars),
{
    crate::text::lemma_trim_ascii(s);
}

/// Law: an empty or all-white-space raw value is refused as an empty
/// string, since trimming runs first.
pub proof fn lemma_value_all_space_empty(s: Seq<char>)
    requires
        forall|i: int| 0 <= i < s.len() ==> is_space(s[i]),
    ensures
        value_check(s) == Err::<Seq<char>, ValueError>(ValueError::EmptyString),
{
    crate::text::lemma_trim_front_is(s, s.len() as int);
    assert(trim_front(s) =~= Seq::<char>::empty());
}

/// Law: joining two accepted values with a comma is itself an accepted
/// value, already in canonical form.  Together with the contract of
/// [`Value::append`] this says that appending a raw value to a
/// constructed one yields exactly the value constructed from
/// `first,second`, and that appends chain: three appends give
/// `a,b,c`.
pub proof fn lemma_append_comma_join(a: Seq<char>, b: Seq<char>)
    requires
        value_check(a) is Ok,
        value_check(b) is Ok,
    ensures
        value_check(value_check(a)->Ok_0 + seq![','] + value_check(b)->Ok_0) == Ok::<
            Seq<char>,
            ValueError,
        >(value_check(a)->Ok_0 + seq![','] + value_check(b)->Ok_0),
{
    let va = value_check(a)->Ok_0;
    let vb = value_check(b)->Ok_0;
    let j = va + seq![','] + vb;
    crate::text::lemma_trimmed_edges(a);
    crate::text::lemma_trimmed_edges(b);
    assert(j[0] == va[0]);
    assert(j.last() == vb.last());
    assert(!is_space(j[0]));
    assert(!is_space(j.last()));
    assert(trim_front(j) == j);
    assert(trim_back(j) == j);
    assert forall|i: int| 0 <= i < j.len() implies crate::text::is_ascii_char(j[i])
        && !is_illegal_char(j[i]) by {
        if i < va.len() {
            assert(j[i] == va[i]);
            assert(!has_illegal_char(va) ==> !is_illegal_char(va[i]));
        } else if i == va.len() {
            assert(j[i] == ',');
        } else {
            assert(j[i] == vb[i - va.len() - 1]);
        }
    }
    assert(!has_illegal_char(j));
}

} // verus!

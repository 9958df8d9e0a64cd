//! Requests: the closed method set and the parser that turns a raw text
//! blob into a typed request.
use vstd::prelude::*;

use crate::header::key::key_check;
use crate::header::map::{entries_wf, has_key, merge, value_of, Entries};
use crate::header::value::value_check;
use crate::header::{HeaderError, HeaderMap, Key, Value};
use crate::text::{
    find_char, is_upper, lemma_find_char_is, lemma_find_char_none, lines_of, parse_u64_spec,
    parse_u64_str, spec_lines, split_ws, split_ws_str, str_eq, views_of,
};
use crate::Version;

use self::error::{MethodParseError, RequestParseError};

pub mod error;

verus! {

/// The closed set of standardized request methods.
///
/// Safety and idempotency follow the HTTP/1.1 standard and are pure
/// functions of the variant, never stored state.
#[derive(Debug, PartialEq, Eq, Structural, Clone, Copy)]
pub enum RequestMethod {
    Get,
    Head,
    Post,
    Put,
    Delete,
    Connect,
    Options,
    Trace,
}

/// Every character of `s` is an ASCII upper-case letter.
pub open spec fn all_upper(s: Seq<char>) -> bool {
    forall|i: int| 0 <= i < s.len() ==> is_upper(s[i])
}

/// Decides how a method word parses: anything not entirely ASCII
/// upper-case cannot be a standard method; an upper-case word must
/// still match one of the eight literals.
pub open spec fn method_check(s: Seq<char>) -> Result<RequestMethod, MethodParseError> {
    if !all_upper(s) {
        Err(MethodParseError::NotAsciiUppercase)
    } else if s == "GET"@ {
        Ok(RequestMethod::Get)
    } else if s == "HEAD"@ {
        Ok(RequestMethod::Head)
    } else if s == "POST"@ {
        Ok(RequestMethod::Post)
    } else if s == "PUT"@ {
        Ok(RequestMethod::Put)
    } else if s == "DELETE"@ {
        Ok(RequestMethod::Delete)
    } else if s == "CONNECT"@ {
        Ok(RequestMethod::Connect)
    } else if s == "OPTIONS"@ {
        Ok(RequestMethod::Options)
    } else if s == "TRACE"@ {
        Ok(RequestMethod::Trace)
    } else {
        Err(MethodParseError::NotAMethod)
    }
}

impl RequestMethod {
    /// Safe methods must not mutate state on the server.
    pub open spec fn safe_spec(self) -> bool {
        self == RequestMethod::Get || self == RequestMethod::Head || self == RequestMethod::Options
            || self == RequestMethod::Trace
    }

    /// Idempotent methods: repeating the request has the same net
    /// effect as issuing it once.  All safe methods qualify, and so do
    /// `Put` and `Delete`, which only shift a resource between existing
    /// and not existing.
    pub open spec fn idempotent_spec(self) -> bool {
        self.safe_spec() || self == RequestMethod::Put || self == RequestMethod::Delete
    }

    /// Whether this method is safe: `Get`, `Head`, `Options`, `Trace`.
    pub fn is_safe(&self) -> (r: bool)
        ensures
            r == self.safe_spec(),
    {
        matches!(
            self,
            RequestMethod::Get | RequestMethod::Head | RequestMethod::Options | RequestMethod::Trace
        )
    }

    /// Whether this method is idempotent: safe, or `Put` or `Delete`.
    pub fn is_idempotent(&self) -> (r: bool)
        ensures
            r == self.idempotent_spec(),
    {
        self.is_safe() || matches!(self, RequestMethod::Put | RequestMethod::Delete)
    }

    /// Parses a method word per [`method_check`].
    pub fn from_word(s: &str) -> (r: Result<RequestMethod, MethodParseError>)
        ensures
            r == method_check(s@),
    {
        let n = s.unicode_len();
        let mut i: usize = 0;
        while i < n
            invariant
                0 <= i <= n,
                n == s@.len(),
                forall|j: int| 0 <= j < i ==> is_upper(s@[j]),
            decreases n - i,
        {
            let u = s.get_char(i) as u32;
            if u < 65 || u > 90 {
                proof {
                    assert(!is_upper(s@[i as int]));
                }
                return Err(MethodParseError::NotAsciiUppercase);
            }
            i = i + 1;
        }
        if str_eq(s, "GET") {
            Ok(RequestMethod::Get)
        } else if str_eq(s, "HEAD") {
            Ok(RequestMethod::Head)
        } else if str_eq(s, "POST") {
            Ok(RequestMethod::Post)
        } else if str_eq(s, "PUT") {
            Ok(RequestMethod::Put)
        } else if str_eq(s, "DELETE") {
            Ok(RequestMethod::Delete)
        } else if str_eq(s, "CONNECT") {
            Ok(RequestMethod::Connect)
        } else if str_eq(s, "OPTIONS") {
            Ok(RequestMethod::Options)
        } else if str_eq(s, "TRACE") {
            Ok(RequestMethod::Trace)
        } else {
            Err(MethodParseError::NotAMethod)
        }
    }
}

/// The version rule: the word must begin with `HTTP/`, and the
/// remainder must split at its first `.` into two plain decimal
/// numbers.
pub open spec fn version_check(w: Seq<char>) -> Result<Version, RequestParseError> {
    if !(w.len() >= 5 && w.subrange(0, 5) == "HTTP/"@) {
        Err(RequestParseError::InvalidHttpWord)
    } else {
        let rest = w.subrange(5, w.len() as int);
        let d = find_char(rest, '.');
        if !(0 <= d < rest.len()) {
            Err(RequestParseError::InvalidVersion)
        } else {
            let major = parse_u64_spec(rest.subrange(0, d));
            let minor = parse_u64_spec(rest.subrange(d + 1, rest.len() as int));
            if major is Some && minor is Some {
                Ok(Version(major->0, minor->0))
            } else {
                Err(RequestParseError::InvalidVersion)
            }
        }
    }
}

/// Parses a version word per [`version_check`].
fn parse_version_word(w: &str) -> (r: Result<Version, RequestParseError>)
    ensures
        r == version_check(w@),
{
    let n = w.unicode_len();
    if n < 5 || !str_eq(w.substring_char(0, 5), "HTTP/") {
        proof {
            if n >= 5 {
                assert(w@.subrange(0, 5) != "HTTP/"@);
            }
        }
        return Err(RequestParseError::InvalidHttpWord);
    }
    let rest = w.substring_char(5, n);
    let ghost restv = w@.subrange(5, w@.len() as int);
    match crate::text::find_char_from(rest, 0, '.') {
        Some(d) => {
            proof {
                lemma_find_char_is(restv, '.', d as int);
            }
            let major_str = rest.substring_char(0, d);
            let minor_str = rest.substring_char(d + 1, rest.unicode_len());
            match (parse_u64_str(major_str), parse_u64_str(minor_str)) {
                (Some(major), Some(minor)) => Ok(Version(major, minor)),
                _ => Err(RequestParseError::InvalidVersion),
            }
        },
        None => {
            proof {
                lemma_find_char_none(restv, '.');
            }
            Err(RequestParseError::InvalidVersion)
        },
    }
}

/// The header lines of a request: every line up to, not including, the
/// first empty one.
pub open spec fn take_until_empty(lines: Seq<Seq<char>>) -> Seq<Seq<char>>
    decreases lines.len(),
{
    if lines.len() == 0 || lines[0].len() == 0 {
        Seq::<Seq<char>>::empty()
    } else {
        seq![lines[0]] + take_until_empty(lines.drop_first())
    }
}

/// Folds raw header lines into entries, fail-fast: each line must hold
/// a colon; the part before the first colon must pass the key rules,
/// the part after it the value rules; values under a repeated key merge
/// per [`merge`].  The first failing line wins and nothing partial
/// survives.
pub open spec fn headers_check(lines: Seq<Seq<char>>, acc: Entries) -> Result<
    Entries,
    HeaderError,
>
    decreases lines.len(),
{
    if lines.len() == 0 {
        Ok(acc)
    } else {
        let line = lines[0];
        let c = find_char(line, ':');
        if !(0 <= c < line.len()) {
            Err(HeaderError::NoSeparator)
        } else {
            match key_check(line.subrange(0, c)) {
                Err(e) => Err(HeaderError::Key(e)),
                Ok(k) => match value_check(line.subrange(c + 1, line.len() as int)) {
                    Err(e) => Err(HeaderError::Value(e)),
                    Ok(v) => headers_check(lines.drop_first(), merge(acc, k, v)),
                },
            }
        }
    }
}

/// The parsed form of a request, as the grammar lays it out.
pub ghost struct SpecRequest {
    pub method: RequestMethod,
    pub path: Seq<char>,
    pub headers: Entries,
    pub version: Version,
}

/// The whole request grammar: split into lines; tolerate one single
/// leading empty line; the start line must hold at least three
/// white-space-separated words, of which the first must be a method,
/// the second is the opaque request target, and the third must pass the
/// version rule; all following lines up to the first empty one are
/// header lines.  Fail-fast: the first error wins.
pub open spec fn spec_parse(s: Seq<char>) -> Result<SpecRequest, RequestParseError> {
    let ls = spec_lines(s);
    let start: int = if ls.len() > 0 && ls[0].len() == 0 {
        1
    } else {
        0
    };
    if ls.len() <= start {
        Err(RequestParseError::EmptyRequest)
    } else {
        let tokens = split_ws(ls[start]);
        if tokens.len() < 3 {
            Err(RequestParseError::MissingStartlineElements)
        } else {
            match method_check(tokens[0]) {
                Err(e) => Err(RequestParseError::MethodNotRecognized(e)),
                Ok(m) => match version_check(tokens[2]) {
                    Err(e) => Err(e),
                    Ok(v) => match headers_check(
                        take_until_empty(ls.subrange(start + 1, ls.len() as int)),
                        Seq::<(Seq<char>, Seq<char>)>::empty(),
                    ) {
                        Err(e) => Err(RequestParseError::BadHeader(e)),
                        Ok(hs) => Ok(
                            SpecRequest { method: m, path: tokens[1], headers: hs, version: v },
                        ),
                    },
                },
            }
        }
    }
}

/// A complete parsed HTTP request: method, opaque target path, headers
/// and protocol version.  Constructed atomically by [`Request::parse`],
/// which establishes [`Request::wf`]; the headers are reached only
/// through the lookup accessors, never mutated.
#[derive(Debug, PartialEq, Eq)]
pub struct Request {
    pub method: RequestMethod,
    pub path: String,
    pub(crate) headers: HeaderMap,
    pub version: Version,
}

impl Request {
    /// The parsed method.
    pub closed spec fn spec_method(&self) -> RequestMethod {
        self.method
    }

    /// The parsed request target.
    pub closed spec fn spec_path(&self) -> Seq<char> {
        self.path@
    }

    /// The parsed headers.
    pub closed spec fn spec_headers(&self) -> Entries {
        self.headers@
    }

    /// The parsed protocol version.
    pub closed spec fn spec_version(&self) -> Version {
        self.version
    }

    /// The headers hold canonical keys, valid values, and no key twice.
    pub open spec fn wf(&self) -> bool {
        entries_wf(self.spec_headers())
    }

    /// Parses a complete request text per [`spec_parse`].
    pub fn parse(s: &str) -> (r: Result<Request, RequestParseError>)
        ensures
            match spec_parse(s@) {
                Ok(m) => r is Ok && r->Ok_0.spec_method() == m.method && r->Ok_0.spec_path()
                    == m.path && r->Ok_0.spec_headers() == m.headers && r->Ok_0.spec_version()
                    == m.version && r->Ok_0.wf(),
                Err(e) => r is Err && r->Err_0 == e,
            },
    {
        let ls = lines_of(s);
        let ghost lsv = spec_lines(s@);
        let mut start: usize = 0;
        if ls.len() > 0 && ls[0].is_empty() {
            start = 1;
        }
        if ls.len() <= start {
            return Err(RequestParseError::EmptyRequest);
        }
        let tokens = split_ws_str(ls[start]);
        proof {
            assert(views_of(ls@)[start as int] == ls@[start as int]@);
        }
        if tokens.len() < 3 {
            return Err(RequestParseError::MissingStartlineElements);
        }
        proof {
            assert(views_of(tokens@)[0] == tokens@[0]@);
            assert(views_of(tokens@)[1] == tokens@[1]@);
            assert(views_of(tokens@)[2] == tokens@[2]@);
        }
        let method = match RequestMethod::from_word(tokens[0]) {
            Ok(m) => m,
            Err(e) => {
                return Err(RequestParseError::MethodNotRecognized(e));
            },
        };
        let version = match parse_version_word(tokens[2]) {
            Ok(v) => v,
            Err(e) => {
                return Err(e);
            },
        };
        let path = String::from_str(tokens[1]);
        let ghost spec_result = headers_check(
            take_until_empty(lsv.subrange(start + 1, lsv.len() as int)),
            Seq::<(Seq<char>, Seq<char>)>::empty(),
        );
        let mut headers = HeaderMap::new();
        let n = ls.len();
        let mut i = start + 1;
        while i < n
            invariant
                start + 1 <= i <= n,
                n == lsv.len(),
                n == ls@.len(),
                views_of(ls@) == lsv,
                headers.wf(),
                headers_check(take_until_empty(lsv.subrange(i as int, n as int)), headers@)
                    == spec_result,
                spec_parse(s@) == (match spec_result {
                    Ok(hs) => Ok(SpecRequest { method, path: path@, headers: hs, version }),
                    Err(e) => Err(RequestParseError::BadHeader(e)),
                }),
            ensures
                start + 1 <= i <= n,
                headers.wf(),
                spec_result == Ok::<Entries, HeaderError>(headers@),
                spec_parse(s@) == (match spec_result {
                    Ok(hs) => Ok(SpecRequest { method, path: path@, headers: hs, version }),
                    Err(e) => Err(RequestParseError::BadHeader(e)),
                }),
            decreases n - i,
        {
            let line = ls[i];
            proof {
                assert(views_of(ls@)[i as int] == ls@[i as int]@);
            }
            let ghost rest = lsv.subrange(i as int, n as int);
            let ghost rest_hdrs = take_until_empty(rest);
            if line.is_empty() {
                proof {
                    assert(rest[0] == line@);
                    assert(rest_hdrs =~= Seq::<Seq<char>>::empty());
                }
                break ;
            }
            proof {
                assert(rest[0] == line@);
                assert(rest_hdrs == seq![line@] + take_until_empty(rest.drop_first()));
                assert(rest_hdrs[0] == line@);
                assert(rest_hdrs.drop_first() =~= take_until_empty(rest.drop_first()));
                assert(rest.drop_first() =~= lsv.subrange(i + 1, n as int));
            }
            let line_len = line.unicode_len();
            let c = match crate::text::find_char_from(line, 0, ':') {
                Some(c) => c,
                None => {
                    proof {
                        lemma_find_char_none(line@, ':');
                    }
                    return Err(RequestParseError::BadHeader(HeaderError::NoSeparator));
                },
            };
            proof {
                lemma_find_char_is(line@, ':', c as int);
            }
            let key_str = line.substring_char(0, c);
            let val_str = line.substring_char(c + 1, line_len);
            let key = match Key::new(key_str) {
                Ok(k) => k,
                Err(e) => {
                    return Err(RequestParseError::BadHeader(HeaderError::Key(e)));
                },
            };
            match headers.insert_merged(key, val_str) {
                Ok(()) => (),
                Err(e) => {
                    return Err(RequestParseError::BadHeader(HeaderError::Value(e)));
                },
            }
            i = i + 1;
        }
        Ok(Request { method, path, headers, version })
    }

    /// Looks a header up by raw key text, case-insensitively: the raw
    /// text is canonicalized exactly as construction would; a raw key
    /// that no valid key can come from is simply absent.
    pub fn get_header<'a>(&'a self, s: &str) -> (r: Option<&'a Value>)
        requires
            self.wf(),
        ensures
            r is Some <==> (key_check(s@) is Ok && has_key(self.spec_headers(), key_check(
                s@,
            )->Ok_0)),
            r is Some ==> r->0@ == value_of(self.spec_headers(), key_check(s@)->Ok_0),
    {
        self.headers.get_str(s)
    }

    /// Read access to the parsed headers.
    pub fn headers(&self) -> (r: &HeaderMap)
        ensures
            r@ == self.spec_headers(),
            self.wf() ==> r.wf(),
    {
        &self.headers
    }
}

impl core::str::FromStr for Request {
    type Err = RequestParseError;

    fn from_str(s: &str) -> Result<Self, Self::Err> {
        Request::parse(s)
    }
}

} // verus!

//! Character classes and sequence utilities shared by the header, request
//! and response modules: white-space handling, ASCII lowercasing, locating
//! characters, decimal digits, and building strings.
use vstd::prelude::*;

verus! {

// ---------------------------------------------------------------------------
// Character classes
// ---------------------------------------------------------------------------
/// The Unicode white-space characters, the same set that
/// `char::is_whitespace` accepts.
pub open spec fn is_space(c: char) -> bool {
    let u = c as u32;
    (9 <= u && u <= 13) || u == 32 || u == 0x85 || u == 0xa0 || u == 0x1680 || (0x2000 <= u && u
        <= 0x200a) || u == 0x2028 || u == 0x2029 || u == 0x202f || u == 0x205f || u == 0x3000
}

/// A character inside the ASCII range.
pub open spec fn is_ascii_char(c: char) -> bool {
    (c as u32) < 128
}

/// A character sequence that lies entirely inside the ASCII range.
pub open spec fn is_ascii_seq(s: Seq<char>) -> bool {
    forall|i: int| 0 <= i < s.len() ==> is_ascii_char(s[i])
}

/// An ASCII upper-case letter.
pub open spec fn is_upper(c: char) -> bool {
    65 <= c as u32 && c as u32 <= 90
}

/// An ASCII decimal digit.
pub open spec fn is_digit(c: char) -> bool {
    48 <= c as u32 && c as u32 <= 57
}

/// Maps an ASCII upper-case letter to its lower-case form; any other
/// character is left alone.
pub open spec fn lower_char(c: char) -> char {
    if is_upper(c) {
        (c as u32 + 32) as char
    } else {
        c
    }
}

/// ASCII-lowercases a whole character sequence.
pub open spec fn to_lower(s: Seq<char>) -> Seq<char> {
    s.map_values(|c: char| lower_char(c))
}

pub fn is_space_char(c: char) -> (r: bool)
    ensures
        r == is_space(c),
{
    let u = c as u32;
    (9 <= u && u <= 13) || u == 32 || u == 0x85 || u == 0xa0 || u == 0x1680 || (0x2000 <= u && u
        <= 0x200a) || u == 0x2028 || u == 0x2029 || u == 0x202f || u == 0x205f || u == 0x3000
}

pub fn lower_char_exec(c: char) -> (r: char)
    ensures
        r == lower_char(c),
{
    let u = c as u32;
    if 65 <= u && u <= 90 {
        let b = (u + 32) as u8;
        proof {
            assert(((u + 32) as u8) as u32 == u + 32) by (bit_vector)
                requires
                    65 <= u && u <= 90,
            ;
        }
        b as char
    } else {
        c
    }
}

/// Whether every character of `s` is ASCII.
pub fn check_ascii(s: &str) -> (r: bool)
    ensures
        r == is_ascii_seq(s@),
{
    let n = s.unicode_len();
    let mut i: usize = 0;
    while i < n
        invariant
            0 <= i <= n,
            n == s@.len(),
            forall|j: int| 0 <= j < i ==> is_ascii_char(s@[j]),
        decreases n - i,
    {
        if s.get_char(i) as u32 >= 128 {
            return false;
        }
        i = i + 1;
    }
    true
}

// ---------------------------------------------------------------------------
// Locating characters
// ---------------------------------------------------------------------------
/// Index of the first occurrence of `c` in `s`, or -1 when `s` does not
/// contain it.
pub open spec fn find_char(s: Seq<char>, c: char) -> int
    decreases s.len(),
{
    if s.len() == 0 {
        -1
    } else if s[0] == c {
        0
    } else {
        let r = find_char(s.drop_first(), c);
        if r == -1 {
            -1
        } else {
            r + 1
        }
    }
}

/// Index of the first white-space character in `s`, or -1 when there is none.
pub open spec fn find_space(s: Seq<char>) -> int
    decreases s.len(),
{
    if s.len() == 0 {
        -1
    } else if is_space(s[0]) {
        0
    } else {
        let r = find_space(s.drop_first());
        if r == -1 {
            -1
        } else {
            r + 1
        }
    }
}

pub proof fn lemma_find_char(s: Seq<char>, c: char)
    ensures
        find_char(s, c) == -1 ==> forall|i: int| 0 <= i < s.len() ==> s[i] != c,
        find_char(s, c) != -1 ==> 0 <= find_char(s, c) < s.len() && s[find_char(s, c)] == c
            && forall|i: int| 0 <= i < find_char(s, c) ==> s[i] != c,
    decreases s.len(),
{
    if s.len() == 0 {
    } else if s[0] == c {
    } else {
        let t = s.drop_first();
        lemma_find_char(t, c);
        assert(forall|i: int| 0 <= i < t.len() ==> t[i] == s[i + 1]);
        let r = find_char(t, c);
        if r == -1 {
            assert(find_char(s, c) == -1);
            assert(forall|i: int| 1 <= i < s.len() ==> s[i] == t[i - 1]);
        } else {
            assert(find_char(s, c) == r + 1);
            assert(s[r + 1] == t[r]);
            assert(forall|i: int| 1 <= i < r + 1 ==> s[i] == t[i - 1]);
        }
    }
}

pub proof fn lemma_find_space(s: Seq<char>)
    ensures
        find_space(s) == -1 ==> forall|i: int| 0 <= i < s.len() ==> !is_space(s[i]),
        find_space(s) != -1 ==> 0 <= find_space(s) < s.len() && is_space(s[find_space(s)])
            && forall|i: int| 0 <= i < find_space(s) ==> !is_space(s[i]),
    decreases s.len(),
{
    if s.len() == 0 {
    } else if is_space(s[0]) {
    } else {
        let t = s.drop_first();
        lemma_find_space(t);
        assert(forall|i: int| 0 <= i < t.len() ==> t[i] == s[i + 1]);
        let r = find_space(t);
        if r == -1 {
            assert(find_space(s) == -1);
            assert(forall|i: int| 1 <= i < s.len() ==> s[i] == t[i - 1]);
        } else {
            assert(find_space(s) == r + 1);
            assert(s[r + 1] == t[r]);
            assert(forall|i: int| 1 <= i < r + 1 ==> s[i] == t[i - 1]);
        }
    }
}

/// The first occurrence is unique, so a witness pins `find_char` down.
pub proof fn lemma_find_char_is(s: Seq<char>, c: char, i: int)
    requires
        0 <= i < s.len(),
        s[i] == c,
        forall|j: int| 0 <= j < i ==> s[j] != c,
    ensures
        find_char(s, c) == i,
{
    lemma_find_char(s, c);
}

pub proof fn lemma_find_char_none(s: Seq<char>, c: char)
    requires
        forall|j: int| 0 <= j < s.len() ==> s[j] != c,
    ensures
        find_char(s, c) == -1,
{
    lemma_find_char(s, c);
}

pub proof fn lemma_find_space_is(s: Seq<char>, i: int)
    requires
        0 <= i < s.len(),
        is_space(s[i]),
        forall|j: int| 0 <= j < i ==> !is_space(s[j]),
    ensures
        find_space(s) == i,
{
    lemma_find_space(s);
}

pub proof fn lemma_find_space_none(s: Seq<char>)
    requires
        forall|j: int| 0 <= j < s.len() ==> !is_space(s[j]),
    ensures
        find_space(s) == -1,
{
    lemma_find_space(s);
}

/// First occurrence of `c` in `s` at or after `from`.
pub fn find_char_from(s: &str, from: usize, c: char) -> (r: Option<usize>)
    requires
        from <= s@.len(),
    ensures
        match r {
            Some(i) => from <= i < s@.len() && s@[i as int] == c && forall|j: int|
                from <= j < i ==> s@[j] != c,
            None => forall|j: int| from <= j < s@.len() ==> s@[j] != c,
        },
{
    let n = s.unicode_len();
    let mut i = from;
    while i < n
        invariant
            from <= i <= n,
            n == s@.len(),
            forall|j: int| from <= j < i ==> s@[j] != c,
        decreases n - i,
    {
        if s.get_char(i) == c {
            return Some(i);
        }
        i = i + 1;
    }
    None
}

/// First white-space character in `s` at or after `from`.
pub fn find_space_from(s: &str, from: usize) -> (r: Option<usize>)
    requires
        from <= s@.len(),
    ensures
        match r {
            Some(i) => from <= i < s@.len() && is_space(s@[i as int]) && forall|j: int|
                from <= j < i ==> !is_space(s@[j]),
            None => forall|j: int| from <= j < s@.len() ==> !is_space(s@[j]),
        },
{
    let n = s.unicode_len();
    let mut i = from;
    while i < n
        invariant
            from <= i <= n,
            n == s@.len(),
            forall|j: int| from <= j < i ==> !is_space(s@[j]),
        decreases n - i,
    {
        if is_space_char(s.get_char(i)) {
            return Some(i);
        }
        i = i + 1;
    }
    None
}

// ---------------------------------------------------------------------------
// Trimming white space
// ---------------------------------------------------------------------------
/// `s` without its leading white space.
pub open spec fn trim_front(s: Seq<char>) -> Seq<char>
    decreases s.len(),
{
    if s.len() > 0 && is_space(s[0]) {
        trim_front(s.drop_first())
    } else {
        s
    }
}

/// `s` without its trailing white space.
pub open spec fn trim_back(s: Seq<char>) -> Seq<char>
    decreases s.len(),
{
    if s.len() > 0 && is_space(s.last()) {
        trim_back(s.drop_last())
    } else {
        s
    }
}

/// `s` without leading and trailing white space.
pub open spec fn trimmed(s: Seq<char>) -> Seq<char> {
    trim_back(trim_front(s))
}

pub proof fn lemma_trim_front_is(s: Seq<char>, i: int)
    requires
        0 <= i <= s.len(),
        forall|j: int| 0 <= j < i ==> is_space(s[j]),
        i < s.len() ==> !is_space(s[i]),
    ensures
        trim_front(s) == s.subrange(i, s.len() as int),
    decreases i,
{
    if i == 0 {
        assert(s.subrange(0, s.len() as int) =~= s);
    } else {
        let t = s.drop_first();
        assert(forall|j: int| 0 <= j < t.len() ==> t[j] == s[j + 1]);
        lemma_trim_front_is(t, i - 1);
        assert(t.subrange(i - 1, t.len() as int) =~= s.subrange(i, s.len() as int));
    }
}

pub proof fn lemma_trim_back_is(s: Seq<char>, j: int)
    requires
        0 <= j <= s.len(),
        forall|k: int| j <= k < s.len() ==> is_space(s[k]),
        j > 0 ==> !is_space(s[j - 1]),
    ensures
        trim_back(s) == s.subrange(0, j),
    decreases s.len(),
{
    if j == s.len() {
        assert(s.subrange(0, s.len() as int) =~= s);
    } else {
        let t = s.drop_last();
        assert(forall|k: int| 0 <= k < t.len() ==> t[k] == s[k]);
        lemma_trim_back_is(t, j);
        assert(t.subrange(0, j) =~= s.subrange(0, j));
    }
}

pub proof fn lemma_trim_front_head(s: Seq<char>)
    ensures
        trim_front(s).len() > 0 ==> !is_space(trim_front(s)[0]),
    decreases s.len(),
{
    if s.len() > 0 && is_space(s[0]) {
        lemma_trim_front_head(s.drop_first());
    }
}

pub proof fn lemma_trim_back_last(s: Seq<char>)
    ensures
        trim_back(s).len() > 0 ==> !is_space(trim_back(s).last()),
    decreases s.len(),
{
    if s.len() > 0 && is_space(s.last()) {
        lemma_trim_back_last(s.drop_last());
    }
}

/// Trimming the back only ever shortens: the result is a prefix.
pub proof fn lemma_trim_back_prefix(s: Seq<char>)
    ensures
        trim_back(s).len() <= s.len(),
        trim_back(s) == s.subrange(0, trim_back(s).len() as int),
    decreases s.len(),
{
    if s.len() > 0 && is_space(s.last()) {
        let t = s.drop_last();
        lemma_trim_back_prefix(t);
        assert(t.subrange(0, trim_back(t).len() as int) =~= s.subrange(
            0,
            trim_back(t).len() as int,
        ));
    } else {
        assert(s.subrange(0, s.len() as int) =~= s);
    }
}

/// A non-empty trimmed string neither starts nor ends with white space.
pub proof fn lemma_trimmed_edges(s: Seq<char>)
    ensures
        trimmed(s).len() > 0 ==> !is_space(trimmed(s)[0]) && !is_space(trimmed(s).last()),
{
    let f = trim_front(s);
    lemma_trim_front_head(s);
    lemma_trim_back_last(f);
    lemma_trim_back_prefix(f);
    if trimmed(s).len() > 0 {
        assert(trimmed(s)[0] == f[0]);
    }
}

proof fn lemma_trim_front_ascii(s: Seq<char>)
    requires
        is_ascii_seq(s),
    ensures
        is_ascii_seq(trim_front(s)),
    decreases s.len(),
{
    if s.len() > 0 && is_space(s[0]) {
        let t = s.drop_first();
        assert(forall|i: int| 0 <= i < t.len() ==> t[i] == s[i + 1]);
        lemma_trim_front_ascii(t);
    }
}

proof fn lemma_trim_back_ascii(s: Seq<char>)
    requires
        is_ascii_seq(s),
    ensures
        is_ascii_seq(trim_back(s)),
    decreases s.len(),
{
    if s.len() > 0 && is_space(s.last()) {
        let t = s.drop_last();
        assert(forall|i: int| 0 <= i < t.len() ==> t[i] == s[i]);
        lemma_trim_back_ascii(t);
    }
}

/// Trimming an ASCII sequence leaves an ASCII sequence.
pub proof fn lemma_trim_ascii(s: Seq<char>)
    requires
        is_ascii_seq(s),
    ensures
        is_ascii_seq(trimmed(s)),
{
    lemma_trim_front_ascii(s);
    lemma_trim_back_ascii(trim_front(s));
}

/// Index of the first character of `s` that is not white space, or the
/// length of `s` when it is white space throughout.
pub fn skip_spaces(s: &str) -> (i: usize)
    ensures
        i <= s@.len(),
        forall|j: int| 0 <= j < i ==> is_space(s@[j]),
        i < s@.len() ==> !is_space(s@[i as int]),
{
    let n = s.unicode_len();
    let mut i: usize = 0;
    while i < n
        invariant
            0 <= i <= n,
            n == s@.len(),
            forall|j: int| 0 <= j < i ==> is_space(s@[j]),
        decreases n - i,
    {
        if !is_space_char(s.get_char(i)) {
            return i;
        }
        i = i + 1;
    }
    i
}

/// The white-space-trimmed middle of `s`, as `str::trim` returns it.
pub fn trim_str<'a>(s: &'a str) -> (r: &'a str)
    ensures
        r@ == trimmed(s@),
{
    let n = s.unicode_len();
    let i = skip_spaces(s);
    proof {
        lemma_trim_front_is(s@, i as int);
    }
    if i == n {
        let r = s.substring_char(n, n);
        proof {
            assert(r@ =~= trim_back(s@.subrange(n as int, n as int)));
        }
        r
    } else {
        let mut j = n;
        while j > i + 1 && is_space_char(s.get_char(j - 1))
            invariant
                i < j <= n,
                n == s@.len(),
                i < n,
                !is_space(s@[i as int]),
                forall|k: int| j <= k < n ==> is_space(s@[k]),
            decreases j,
        {
            j = j - 1;
        }
        proof {
            if j == i + 1 && is_space(s@[j - 1]) {
                assert(false);
            }
            let front = s@.subrange(i as int, n as int);
            assert(forall|k: int|
                0 <= k < front.len() ==> front[k] == s@[k + i]);
            lemma_trim_back_is(front, j - i);
            assert(front.subrange(0, j - i) =~= s@.subrange(i as int, j as int));
        }
        s.substring_char(i, j)
    }
}

// ---------------------------------------------------------------------------
// Splitting into lines and words
// ---------------------------------------------------------------------------
/// The lines of `s`, split as `str::lines` splits them: at every line
/// feed, dropping one carriage return directly before it.  The final
/// line needs no terminator, and a terminator after the last line adds
/// no empty line.
pub open spec fn spec_lines(s: Seq<char>) -> Seq<Seq<char>>
    decreases s.len(),
{
    if s.len() == 0 {
        Seq::empty()
    } else {
        let i = find_char(s, '\n');
        if !(0 <= i < s.len()) {
            seq![s]
        } else {
            let line = if i > 0 && s[i - 1] == '\r' {
                s.subrange(0, i - 1)
            } else {
                s.subrange(0, i)
            };
            seq![line] + spec_lines(s.subrange(i + 1, s.len() as int))
        }
    }
}

/// The white-space-separated words of `s`: maximal runs free of white
/// space, in order, never empty.
pub open spec fn split_ws(s: Seq<char>) -> Seq<Seq<char>>
    decreases s.len(),
{
    if s.len() == 0 {
        Seq::empty()
    } else if is_space(s[0]) {
        split_ws(s.drop_first())
    } else {
        let j = find_space(s);
        if 1 <= j < s.len() {
            seq![s.subrange(0, j)] + split_ws(s.subrange(j, s.len() as int))
        } else {
            seq![s]
        }
    }
}

/// The views of a vector of string slices.
pub open spec fn views_of(v: Seq<&str>) -> Seq<Seq<char>> {
    v.map_values(|t: &str| t@)
}

/// The lines of `s`, as [`spec_lines`] lays them out.
pub fn lines_of<'a>(s: &'a str) -> (r: Vec<&'a str>)
    ensures
        views_of(r@) == spec_lines(s@),
{
    let n = s.unicode_len();
    let mut out: Vec<&'a str> = Vec::new();
    let mut pos: usize = 0;
    proof {
        assert(s@.subrange(0, n as int) =~= s@);
        assert(views_of(out@) + spec_lines(s@.subrange(0, n as int)) =~= spec_lines(s@));
    }
    while pos < n
        invariant
            0 <= pos <= n,
            n == s@.len(),
            views_of(out@) + spec_lines(s@.subrange(pos as int, n as int)) == spec_lines(s@),
        decreases n - pos,
    {
        let ghost suf = s@.subrange(pos as int, n as int);
        match find_char_from(s, pos, '\n') {
            Some(k) => {
                proof {
                    assert(forall|j: int| 0 <= j < suf.len() ==> suf[j] == s@[j + pos]);
                    lemma_find_char_is(suf, '\n', k - pos);
                }
                let line_end = if k > pos && s.get_char(k - 1) == '\r' {
                    k - 1
                } else {
                    k
                };
                let line = s.substring_char(pos, line_end);
                let ghost out0 = out@;
                out.push(line);
                proof {
                    let i = k - pos;
                    let spec_line = if i > 0 && suf[i - 1] == '\r' {
                        suf.subrange(0, i - 1)
                    } else {
                        suf.subrange(0, i)
                    };
                    assert(line@ =~= spec_line);
                    assert(suf.subrange(i + 1, suf.len() as int) =~= s@.subrange(
                        k + 1,
                        n as int,
                    ));
                    assert(spec_lines(suf) == seq![line@] + spec_lines(
                        s@.subrange(k + 1, n as int),
                    ));
                    assert(views_of(out@) =~= views_of(out0).push(line@));
                    assert(views_of(out@) + spec_lines(s@.subrange(k + 1, n as int))
                        =~= views_of(out0) + spec_lines(suf));
                }
                pos = k + 1;
            },
            None => {
                proof {
                    assert(forall|j: int| 0 <= j < suf.len() ==> suf[j] == s@[j + pos]);
                    lemma_find_char_none(suf, '\n');
                }
                let line = s.substring_char(pos, n);
                let ghost out0 = out@;
                out.push(line);
                proof {
                    assert(line@ =~= suf);
                    assert(spec_lines(suf) == seq![suf]);
                    assert(views_of(out@) =~= views_of(out0).push(line@));
                    assert(spec_lines(s@.subrange(n as int, n as int)) =~= Seq::<
                        Seq<char>,
                    >::empty());
                    assert(views_of(out@) + spec_lines(s@.subrange(n as int, n as int))
                        =~= views_of(out0) + spec_lines(suf));
                }
                pos = n;
            },
        }
    }
    proof {
        assert(spec_lines(s@.subrange(pos as int, n as int)) =~= Seq::<Seq<char>>::empty());
        assert(views_of(out@) =~= views_of(out@) + Seq::<Seq<char>>::empty());
        assert(s@.subrange(0, n as int) =~= s@);
    }
    out
}

/// The white-space-separated words of `s`, as [`split_ws`] lays them
/// out.
pub fn split_ws_str<'a>(s: &'a str) -> (r: Vec<&'a str>)
    ensures
        views_of(r@) == split_ws(s@),
{
    let n = s.unicode_len();
    let mut out: Vec<&'a str> = Vec::new();
    let mut pos: usize = 0;
    proof {
        assert(s@.subrange(0, n as int) =~= s@);
        assert(views_of(out@) + split_ws(s@.subrange(0, n as int)) =~= split_ws(s@));
    }
    while pos < n
        invariant
            0 <= pos <= n,
            n == s@.len(),
            views_of(out@) + split_ws(s@.subrange(pos as int, n as int)) == split_ws(s@),
        decreases n - pos,
    {
        let ghost suf = s@.subrange(pos as int, n as int);
        proof {
            assert(forall|j: int| 0 <= j < suf.len() ==> suf[j] == s@[j + pos]);
        }
        if is_space_char(s.get_char(pos)) {
            proof {
                assert(suf.drop_first() =~= s@.subrange(pos + 1, n as int));
                assert(split_ws(suf) == split_ws(s@.subrange(pos + 1, n as int)));
            }
            pos = pos + 1;
        } else {
            let word_end = match find_space_from(s, pos) {
                Some(k) => k,
                None => n,
            };
            let word = s.substring_char(pos, word_end);
            let ghost out0 = out@;
            out.push(word);
            proof {
                if word_end < n {
                    lemma_find_space_is(suf, word_end - pos);
                    let j = word_end - pos;
                    assert(1 <= j < suf.len());
                    assert(word@ =~= suf.subrange(0, j));
                    assert(suf.subrange(j, suf.len() as int) =~= s@.subrange(
                        word_end as int,
                        n as int,
                    ));
                    assert(split_ws(suf) == seq![word@] + split_ws(
                        s@.subrange(word_end as int, n as int),
                    ));
                } else {
                    lemma_find_space_none(suf);
                    assert(word@ =~= suf);
                    assert(split_ws(suf) == seq![suf]);
                    assert(split_ws(s@.subrange(word_end as int, n as int)) =~= Seq::<
                        Seq<char>,
                    >::empty());
                }
                assert(views_of(out@) =~= views_of(out0).push(word@));
                assert(views_of(out@) + split_ws(s@.subrange(word_end as int, n as int))
                    =~= views_of(out0) + split_ws(suf));
            }
            pos = word_end;
        }
    }
    proof {
        assert(split_ws(s@.subrange(pos as int, n as int)) =~= Seq::<Seq<char>>::empty());
        assert(views_of(out@) =~= views_of(out@) + Seq::<Seq<char>>::empty());
        assert(s@.subrange(0, n as int) =~= s@);
    }
    out
}

// ---------------------------------------------------------------------------
// Comparing and building strings
// ---------------------------------------------------------------------------
/// Character-for-character equality of two string slices.
pub fn str_eq(a: &str, b: &str) -> (r: bool)
    ensures
        r == (a@ == b@),
{
    let n = a.unicode_len();
    if n != b.unicode_len() {
        return false;
    }
    let mut i: usize = 0;
    while i < n
        invariant
            0 <= i <= n,
            n == a@.len(),
            n == b@.len(),
            forall|j: int| 0 <= j < i ==> a@[j] == b@[j],
        decreases n - i,
    {
        if a.get_char(i) != b.get_char(i) {
            return false;
        }
        i = i + 1;
    }
    proof {
        assert(a@ =~= b@);
    }
    true
}

/// Relies on `String::push`: appends the given character to the end of the
/// string.
#[verifier::external_body]
pub(crate) fn push_char(s: &mut String, c: char)
    ensures
        final(s)@ == old(s)@.push(c),
{
    s.push(c);
}

/// Relies on `str::from_utf8`: succeeds exactly on valid UTF-8 input and
/// yields the characters the bytes encode.
#[verifier::external_body]
pub(crate) fn utf8_to_str<'a>(v: &'a [u8]) -> (r: Option<&'a str>)
    ensures
        r is Some <==> vstd::utf8::valid_utf8(v@),
        r is Some ==> r->0@ == vstd::utf8::decode_utf8(v@),
{
    match core::str::from_utf8(v) {
        Ok(s) => Some(s),
        Err(_) => None,
    }
}

/// The ASCII-lowercased copy of `s`.
pub fn to_lowercase_string(s: &str) -> (r: String)
    ensures
        r@ == to_lower(s@),
{
    let n = s.unicode_len();
    let mut out = String::new();
    let mut i: usize = 0;
    while i < n
        invariant
            0 <= i <= n,
            n == s@.len(),
            out@ == to_lower(s@.subrange(0, i as int)),
        decreases n - i,
    {
        let c = lower_char_exec(s.get_char(i));
        push_char(&mut out, c);
        proof {
            assert(to_lower(s@.subrange(0, i + 1)) =~= to_lower(
                s@.subrange(0, i as int),
            ).push(lower_char(s@[i as int])));
        }
        i = i + 1;
    }
    proof {
        assert(s@.subrange(0, n as int) =~= s@);
    }
    out
}

// ---------------------------------------------------------------------------
// Decimal numbers
// ---------------------------------------------------------------------------
/// The ASCII digit for a value between 0 and 9.
pub open spec fn dec_digit_char(d: int) -> char {
    (d + 48) as char
}

/// The decimal digit string of `n`, most significant digit first, with no
/// leading zeroes (a single `'0'` for zero).
pub open spec fn dec_digits(n: nat) -> Seq<char>
    decreases n,
{
    if n < 10 {
        seq![dec_digit_char(n as int)]
    } else {
        dec_digits(n / 10).push(dec_digit_char((n % 10) as int))
    }
}

/// Appends the decimal digit string of `n` to `out`.
pub fn push_dec_u64(out: &mut String, n: u64)
    ensures
        final(out)@ == old(out)@ + dec_digits(n as nat),
    decreases n,
{
    if n < 10 {
        let d = (n as u8) + 48;
        proof {
            assert((n as u8) as u64 == n) by (bit_vector)
                requires
                    n < 10,
            ;
        }
        push_char(out, d as char);
        proof {
            assert(old(out)@ + dec_digits(n as nat) =~= old(out)@.push(dec_digit_char(n as int)));
        }
    } else {
        push_dec_u64(out, n / 10);
        let m = n % 10;
        let d = (m as u8) + 48;
        proof {
            assert((m as u8) as u64 == m) by (bit_vector)
                requires
                    m < 10,
            ;
        }
        push_char(out, d as char);
        proof {
            assert(old(out)@ + dec_digits(n as nat) =~= (old(out)@ + dec_digits(
                (n / 10) as nat,
            )).push(dec_digit_char((n % 10) as int)));
        }
    }
}

/// The numeric value of a digit string, most significant digit first.
/// Meaningful only when every character is a decimal digit.
pub open spec fn dec_value(s: Seq<char>) -> int
    decreases s.len(),
{
    if s.len() == 0 {
        0
    } else {
        dec_value(s.drop_last()) * 10 + (s.last() as u32 - 48)
    }
}

/// Every character of `s` is a decimal digit.
pub open spec fn all_digits(s: Seq<char>) -> bool {
    forall|i: int| 0 <= i < s.len() ==> is_digit(s[i])
}

/// The number a string denotes in plain decimal notation: at least one
/// digit, digits only, and a value that fits in a `u64`.
pub open spec fn parse_u64_spec(s: Seq<char>) -> Option<u64> {
    if s.len() > 0 && all_digits(s) && dec_value(s) <= u64::MAX {
        Some(dec_value(s) as u64)
    } else {
        None
    }
}

pub proof fn lemma_dec_value_nonneg(s: Seq<char>)
    requires
        all_digits(s),
    ensures
        dec_value(s) >= 0,
    decreases s.len(),
{
    if s.len() > 0 {
        let t = s.drop_last();
        assert(forall|i: int| 0 <= i < t.len() ==> t[i] == s[i]);
        lemma_dec_value_nonneg(t);
    }
}

/// Once a prefix is already too large for a `u64`, any continuation is too.
pub proof fn lemma_dec_value_overflow(s: Seq<char>, k: int)
    requires
        0 <= k <= s.len(),
        dec_value(s.subrange(0, k)) > u64::MAX,
    ensures
        dec_value(s) > u64::MAX,
    decreases s.len() - k,
{
    if k < s.len() {
        let p = s.subrange(0, k);
        let q = s.subrange(0, k + 1);
        assert(q.drop_last() =~= p);
        assert(q.last() as u32 - 48 >= -48);
        assert(dec_value(q) == dec_value(p) * 10 + (q.last() as u32 - 48));
        assert(dec_value(p) * 10 >= dec_value(p) + 9 * 0x1_0000_0000_0000_0000);
        lemma_dec_value_overflow(s, k + 1);
    } else {
        assert(s.subrange(0, s.len() as int) =~= s);
    }
}

/// Parses `s` as a plain decimal `u64`: digits only, no sign, no radix
/// prefix; fails on anything else and on values that do not fit.
pub fn parse_u64_str(s: &str) -> (r: Option<u64>)
    ensures
        r == parse_u64_spec(s@),
{
    let n = s.unicode_len();
    if n == 0 {
        return None;
    }
    let mut acc: u64 = 0;
    let mut i: usize = 0;
    while i < n
        invariant
            0 <= i <= n,
            n == s@.len(),
            n > 0,
            all_digits(s@.subrange(0, i as int)),
            acc == dec_value(s@.subrange(0, i as int)),
        decreases n - i,
    {
        let c = s.get_char(i);
        let u = c as u32;
        if u < 48 || u > 57 {
            proof {
                assert(!is_digit(s@[i as int]));
                assert(!all_digits(s@));
            }
            return None;
        }
        let d = (u - 48) as u64;
        proof {
            assert(s@.subrange(0, i + 1).drop_last() =~= s@.subrange(0, i as int));
            assert(s@.subrange(0, i + 1).last() == s@[i as int]);
            lemma_dec_value_nonneg(s@.subrange(0, i as int));
        }
        if acc > (u64::MAX - d) / 10 {
            proof {
                let q = (u64::MAX - d) / 10;
                assert(10 * q + d <= u64::MAX);
                assert(acc * 10 >= (q + 1) * 10);
                assert(10 * q > u64::MAX - d - 10);
                assert(dec_value(s@.subrange(0, i + 1)) == acc * 10 + d);
                assert(dec_value(s@.subrange(0, i + 1)) > u64::MAX);
                lemma_dec_value_overflow(s@, i + 1);
            }
            return None;
        }
        proof {
            let q = (u64::MAX - d) / 10;
            assert(10 * q <= u64::MAX - d);
            assert(acc * 10 + d <= u64::MAX);
        }
        acc = acc * 10 + d;
        proof {
            assert(all_digits(s@.subrange(0, i + 1)));
        }
        i = i + 1;
    }
    proof {
        assert(s@.subrange(0, n as int) =~= s@);
    }
    Some(acc)
}

} // verus!

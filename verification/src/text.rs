//! Character-level text helpers shared by the other modules: conversion
//! between strings and character vectors, Unicode whitespace trimming,
//! searching, and ASCII case folding.

use vstd::prelude::*;
use vstd::string::*;

verus! {

/// Unicode `White_Space` characters, the set `char::is_whitespace` accepts.
pub open spec fn is_ws(c: char) -> bool {
    ('\u{9}' <= c && c <= '\u{d}') || c == ' ' || c == '\u{85}' || c == '\u{a0}' || c == '\u{1680}'
        || ('\u{2000}' <= c && c <= '\u{200a}') || c == '\u{2028}' || c == '\u{2029}' || c
        == '\u{202f}' || c == '\u{205f}' || c == '\u{3000}'
}

pub fn is_whitespace_char(c: char) -> (r: bool)
    ensures
        r == is_ws(c),
{
    ('\u{9}' <= c && c <= '\u{d}') || c == ' ' || c == '\u{85}' || c == '\u{a0}' || c == '\u{1680}'
        || ('\u{2000}' <= c && c <= '\u{200a}') || c == '\u{2028}' || c == '\u{2029}' || c
        == '\u{202f}' || c == '\u{205f}' || c == '\u{3000}'
}

/// A text is blank when it is empty after trimming whitespace.
pub open spec fn is_blank(s: Seq<char>) -> bool {
    forall|i: int| 0 <= i < s.len() ==> is_ws(#[trigger] s[i])
}

/// Number of leading whitespace characters.
pub open spec fn leading_ws(s: Seq<char>) -> nat
    decreases s.len(),
{
    if s.len() > 0 && is_ws(s[0]) {
        1 + leading_ws(s.drop_first())
    } else {
        0
    }
}

/// Number of trailing whitespace characters.
pub open spec fn trailing_ws(s: Seq<char>) -> nat
    decreases s.len(),
{
    if s.len() > 0 && is_ws(s.last()) {
        1 + trailing_ws(s.drop_last())
    } else {
        0
    }
}

pub open spec fn trim_start(s: Seq<char>) -> Seq<char> {
    s.skip(leading_ws(s) as int)
}

pub open spec fn trim_end(s: Seq<char>) -> Seq<char> {
    s.take(s.len() - trailing_ws(s))
}

pub open spec fn trim(s: Seq<char>) -> Seq<char> {
    trim_end(trim_start(s))
}

pub proof fn lemma_leading_ws_bound(s: Seq<char>)
    ensures
        leading_ws(s) <= s.len(),
        forall|i: int| 0 <= i < leading_ws(s) ==> is_ws(#[trigger] s[i]),
        leading_ws(s) < s.len() ==> !is_ws(s[leading_ws(s) as int]),
    decreases s.len(),
{
    if s.len() > 0 && is_ws(s[0]) {
        lemma_leading_ws_bound(s.drop_first());
        assert forall|i: int| 0 <= i < leading_ws(s) implies is_ws(#[trigger] s[i]) by {
            if i > 0 {
                assert(s[i] == s.drop_first()[i - 1]);
            }
        }
        if leading_ws(s) < s.len() {
            assert(s[leading_ws(s) as int] == s.drop_first()[leading_ws(s.drop_first()) as int]);
        }
    }
}

pub proof fn lemma_trailing_ws_bound(s: Seq<char>)
    ensures
        trailing_ws(s) <= s.len(),
        forall|i: int| s.len() - trailing_ws(s) <= i < s.len() ==> is_ws(#[trigger] s[i]),
        trailing_ws(s) < s.len() ==> !is_ws(s[s.len() - trailing_ws(s) - 1]),
    decreases s.len(),
{
    if s.len() > 0 && is_ws(s.last()) {
        lemma_trailing_ws_bound(s.drop_last());
        assert forall|i: int| s.len() - trailing_ws(s) <= i < s.len() implies is_ws(#[trigger] s[i]) by {
            if i < s.len() - 1 {
                assert(s[i] == s.drop_last()[i]);
            }
        }
        if trailing_ws(s) < s.len() {
            assert(s[s.len() - trailing_ws(s) - 1] == s.drop_last()[s.drop_last().len() - trailing_ws(s.drop_last()) - 1]);
        }
    }
}

/// Blank texts are exactly those whose trimmed form is empty.
pub proof fn lemma_blank_iff_trim_empty(s: Seq<char>)
    ensures
        is_blank(s) <==> trim(s).len() == 0,
{
    lemma_leading_ws_bound(s);
    lemma_trailing_ws_bound(trim_start(s));
    if is_blank(s) {
        if leading_ws(s) < s.len() {
            assert(is_ws(s[leading_ws(s) as int]));
        }
    } else {
        if leading_ws(s) == s.len() {
            assert forall|i: int| 0 <= i < s.len() implies is_ws(#[trigger] s[i]) by {}
        }
        let t = trim_start(s);
        assert(t.len() > 0);
        assert(!is_ws(t[0]));
    }
}

/// The characters of a string slice.
pub fn to_chars(s: &str) -> (v: Vec<char>)
    ensures
        v@ == s@,
{
    let n = s.unicode_len();
    let mut v: Vec<char> = Vec::new();
    let mut i: usize = 0;
    while i < n
        invariant
            n == s@.len(),
            i <= n,
            v@ == s@.take(i as int),
        decreases n - i,
    {
        let c = s.get_char(i);
        v.push(c);
        i = i + 1;
        assert(v@ =~= s@.take(i as int));
    }
    assert(s@.take(n as int) =~= s@);
    v
}

/// Appends one character to a string (std's `String::push`).
#[verifier::external_body]
pub(crate) fn push_char(s: &mut String, c: char)
    ensures
        final(s)@ == old(s)@.push(c),
{
    s.push(c);
}

/// Appends a string slice to a string.
pub fn push_str(s: &mut String, t: &str)
    ensures
        final(s)@ == old(s)@ + t@,
{
    s.append(t);
}

/// Builds a string from a range of characters.
pub fn chars_to_string_range(v: &Vec<char>, from: usize, to: usize) -> (s: String)
    requires
        from <= to <= v.len(),
    ensures
        s@ == v@.subrange(from as int, to as int),
{
    let mut s = String::new();
    let mut i = from;
    while i < to
        invariant
            from <= i <= to,
            to <= v.len(),
            s@ == v@.subrange(from as int, i as int),
        decreases to - i,
    {
        push_char(&mut s, v[i]);
        i = i + 1;
        assert(s@ =~= v@.subrange(from as int, i as int));
    }
    s
}

/// Builds a string from characters.
pub fn chars_to_string(v: &Vec<char>) -> (s: String)
    ensures
        s@ == v@,
{
    let s = chars_to_string_range(v, 0, v.len());
    assert(v@.subrange(0, v.len() as int) =~= v@);
    s
}

/// Copy of a string slice as an owned string.
pub fn owned(s: &str) -> (r: String)
    ensures
        r@ == s@,
{
    let mut r = String::new();
    r.append(s);
    assert(r@ =~= s@);
    r
}

/// Equality of two string slices.
pub fn str_eq(a: &str, b: &str) -> (eq: bool)
    ensures
        eq == (a@ == b@),
{
    let va = to_chars(a);
    let vb = to_chars(b);
    if va.len() != vb.len() {
        return false;
    }
    let mut i: usize = 0;
    while i < va.len()
        invariant
            va@ == a@,
            vb@ == b@,
            va.len() == vb.len(),
            i <= va.len(),
            forall|j: int| 0 <= j < i ==> va@[j] == vb@[j],
        decreases va.len() - i,
    {
        if va[i] != vb[i] {
            return false;
        }
        i = i + 1;
    }
    assert(a@ =~= b@);
    true
}

/// Whether the text is empty or only whitespace (`s.trim().is_empty()`).
pub fn is_blank_str(s: &str) -> (blank: bool)
    ensures
        blank == is_blank(s@),
{
    let v = to_chars(s);
    let mut i: usize = 0;
    while i < v.len()
        invariant
            v@ == s@,
            i <= v.len(),
            forall|j: int| 0 <= j < i ==> is_ws(#[trigger] v@[j]),
        decreases v.len() - i,
    {
        if !is_whitespace_char(v[i]) {
            return false;
        }
        i = i + 1;
    }
    true
}

/// Index just past the leading whitespace of `v`.
pub fn leading_ws_len(v: &Vec<char>) -> (n: usize)
    ensures
        n == leading_ws(v@),
{
    proof {
        lemma_leading_ws_bound(v@);
    }
    let mut i: usize = 0;
    assert(v@.skip(0) =~= v@);
    while i < v.len() && is_whitespace_char(v[i])
        invariant
            i <= v.len(),
            forall|j: int| 0 <= j < i ==> is_ws(#[trigger] v@[j]),
            leading_ws(v@) == i + leading_ws(v@.skip(i as int)),
        decreases v.len() - i,
    {
        assert(v@.skip(i as int).drop_first() =~= v@.skip(i + 1));
        i = i + 1;
    }
    i
}

/// Length of `v` without its trailing whitespace.
pub fn trimmed_end_len(v: &Vec<char>) -> (n: usize)
    ensures
        n == v@.len() - trailing_ws(v@),
{
    proof {
        lemma_trailing_ws_bound(v@);
    }
    let mut n = v.len();
    assert(v@.take(n as int) =~= v@);
    while n > 0 && is_whitespace_char(v[n - 1])
        invariant
            n <= v.len(),
            trailing_ws(v@) == (v.len() - n) + trailing_ws(v@.take(n as int)),
        decreases n,
    {
        assert(v@.take(n as int).drop_last() =~= v@.take(n - 1));
        n = n - 1;
    }
    assert(v@.take(n as int).len() == n);
    n
}

/// `s.trim_end()` as an owned string.
pub fn trim_end_string(s: &str) -> (r: String)
    ensures
        r@ == trim_end(s@),
{
    let v = to_chars(s);
    let n = trimmed_end_len(&v);
    chars_to_string_range(&v, 0, n)
}

/// `s.trim_start()` as an owned string.
pub fn trim_start_string(s: &str) -> (r: String)
    ensures
        r@ == trim_start(s@),
{
    let v = to_chars(s);
    let n = leading_ws_len(&v);
    proof { lemma_leading_ws_bound(v@); }
    let r = chars_to_string_range(&v, n, v.len());
    assert(v@.subrange(n as int, v.len() as int) =~= v@.skip(n as int));
    r
}

/// `s.trim()` as an owned string.
pub fn trim_string(s: &str) -> (r: String)
    ensures
        r@ == trim(s@),
{
    let v = to_chars(s);
    let a = leading_ws_len(&v);
    proof { lemma_leading_ws_bound(v@); }
    let rest = chars_to_string_range(&v, a, v.len());
    assert(rest@ =~= trim_start(s@));
    let w = to_chars(rest.as_str());
    let b = trimmed_end_len(&w);
    chars_to_string_range(&w, 0, b)
}

// ---------------------------------------------------------------------
// ASCII case folding and searching
// ---------------------------------------------------------------------

/// ASCII lower-casing of one character (other characters unchanged).
pub open spec fn lower_ascii(c: char) -> char {
    if 'A' <= c && c <= 'Z' { ((c as u32) + 32) as char } else { c }
}

/// ASCII upper-casing of one character (other characters unchanged).
pub open spec fn upper_ascii(c: char) -> char {
    if 'a' <= c && c <= 'z' { ((c as u32) - 32) as char } else { c }
}

pub fn to_lower_ascii(c: char) -> (r: char)
    ensures
        r == lower_ascii(c),
{
    if 'A' <= c && c <= 'Z' {
        let u = (c as u32) + 32;
        assert(0x61 <= u <= 0x7a);
        char_from_ascii(u)
    } else {
        c
    }
}

pub fn to_upper_ascii(c: char) -> (r: char)
    ensures
        r == upper_ascii(c),
{
    if 'a' <= c && c <= 'z' {
        let u = (c as u32) - 32;
        char_from_ascii(u)
    } else {
        c
    }
}

fn char_from_ascii(u: u32) -> (c: char)
    requires
        u < 128,
    ensures
        c == u as char,
{
    let b = u as u8;
    b as char
}

/// Whether `needle` occurs in `hay` at position `i`, comparing characters
/// after ASCII lower-casing of `hay` (`needle` is given lower-case).
pub open spec fn matches_at_ci(hay: Seq<char>, needle: Seq<char>, i: int) -> bool {
    0 <= i && i + needle.len() <= hay.len() && forall|j: int|
        0 <= j < needle.len() ==> lower_ascii(#[trigger] hay[i + j]) == needle[j]
}

/// Whether `needle` occurs in `hay` at position `i`.
pub open spec fn matches_at(hay: Seq<char>, needle: Seq<char>, i: int) -> bool {
    0 <= i && i + needle.len() <= hay.len() && hay.subrange(i, i + needle.len()) == needle
}

pub open spec fn contains_ci(hay: Seq<char>, needle: Seq<char>) -> bool {
    exists|i: int| matches_at_ci(hay, needle, i)
}

pub open spec fn contains_seq(hay: Seq<char>, needle: Seq<char>) -> bool {
    exists|i: int| matches_at(hay, needle, i)
}

/// First position at which `needle` matches, compared case-insensitively.
pub open spec fn is_first_match_ci(hay: Seq<char>, needle: Seq<char>, i: int) -> bool {
    matches_at_ci(hay, needle, i) && forall|j: int| 0 <= j < i ==> !matches_at_ci(hay, needle, j)
}

pub open spec fn is_first_match(hay: Seq<char>, needle: Seq<char>, i: int) -> bool {
    matches_at(hay, needle, i) && forall|j: int| 0 <= j < i ==> !matches_at(hay, needle, j)
}

fn match_at_ci(hay: &Vec<char>, needle: &Vec<char>, i: usize) -> (m: bool)
    ensures
        m == matches_at_ci(hay@, needle@, i as int),
{
    if i > hay.len() || needle.len() > hay.len() - i {
        return false;
    }
    let mut j: usize = 0;
    while j < needle.len()
        invariant
            i + needle.len() <= hay.len(),
            j <= needle.len(),
            forall|k: int| 0 <= k < j ==> lower_ascii(#[trigger] hay@[i + k]) == needle@[k],
        decreases needle.len() - j,
    {
        if to_lower_ascii(hay[i + j]) != needle[j] {
            return false;
        }
        j = j + 1;
    }
    true
}

fn match_at(hay: &Vec<char>, needle: &Vec<char>, i: usize) -> (m: bool)
    ensures
        m == matches_at(hay@, needle@, i as int),
{
    if i > hay.len() || needle.len() > hay.len() - i {
        return false;
    }
    let mut j: usize = 0;
    while j < needle.len()
        invariant
            i + needle.len() <= hay.len(),
            j <= needle.len(),
            forall|k: int| 0 <= k < j ==> hay@[i + k] == needle@[k],
        decreases needle.len() - j,
    {
        if hay[i + j] != needle[j] {
            assert(hay@.subrange(i as int, i + needle.len())[j as int] != needle@[j as int]);
            return false;
        }
        j = j + 1;
    }
    assert(hay@.subrange(i as int, i + needle.len()) =~= needle@);
    true
}

/// Position of the first case-insensitive occurrence of `needle` (given in
/// lower case) in `hay`, searching from `from` on.
pub fn find_ci_from(hay: &Vec<char>, needle: &Vec<char>, from: usize) -> (r: Option<usize>)
    requires
        from <= hay.len(),
    ensures
        match r {
            Some(i) => from <= i && matches_at_ci(hay@, needle@, i as int) && forall|j: int|
                from <= j < i ==> !matches_at_ci(hay@, needle@, j),
            None => forall|j: int| from <= j ==> !matches_at_ci(hay@, needle@, j),
        },
{
    let mut i = from;
    while i < hay.len()
        invariant
            from <= i <= hay.len(),
            forall|j: int| from <= j < i ==> !matches_at_ci(hay@, needle@, j),
        decreases hay.len() - i,
    {
        if match_at_ci(hay, needle, i) {
            return Some(i);
        }
        i = i + 1;
    }
    if match_at_ci(hay, needle, i) {
        return Some(i);
    }
    None
}

/// Position of the first occurrence of `needle` in `hay` from `from` on.
pub fn find_from(hay: &Vec<char>, needle: &Vec<char>, from: usize) -> (r: Option<usize>)
    requires
        from <= hay.len(),
    ensures
        match r {
            Some(i) => from <= i && matches_at(hay@, needle@, i as int) && forall|j: int|
                from <= j < i ==> !matches_at(hay@, needle@, j),
            None => forall|j: int| from <= j ==> !matches_at(hay@, needle@, j),
        },
{
    let mut i = from;
    while i < hay.len()
        invariant
            from <= i <= hay.len(),
            forall|j: int| from <= j < i ==> !matches_at(hay@, needle@, j),
        decreases hay.len() - i,
    {
        if match_at(hay, needle, i) {
            return Some(i);
        }
        i = i + 1;
    }
    if match_at(hay, needle, i) {
        return Some(i);
    }
    None
}

/// Whether `hay` contains `needle` (lower case) ignoring ASCII case.
pub fn contains_ci_chars(hay: &Vec<char>, needle: &str) -> (r: bool)
    ensures
        r == contains_ci(hay@, needle@),
{
    let n = to_chars(needle);
    match find_ci_from(hay, &n, 0) {
        Some(_) => true,
        None => {
            assert forall|j: int| !matches_at_ci(hay@, needle@, j) by {
                if j < 0 {
                }
            }
            false
        },
    }
}

/// Whether `hay` contains `needle`.
pub fn contains_chars(hay: &Vec<char>, needle: &str) -> (r: bool)
    ensures
        r == contains_seq(hay@, needle@),
{
    let n = to_chars(needle);
    match find_from(hay, &n, 0) {
        Some(_) => true,
        None => {
            assert forall|j: int| !matches_at(hay@, needle@, j) by {
                if j < 0 {
                }
            }
            false
        },
    }
}

/// Whether `s` begins with `prefix`.
pub open spec fn starts_with(s: Seq<char>, prefix: Seq<char>) -> bool {
    prefix.len() <= s.len() && s.take(prefix.len() as int) == prefix
}

pub fn starts_with_chars(s: &Vec<char>, prefix: &str) -> (r: bool)
    ensures
        r == starts_with(s@, prefix@),
{
    let p = to_chars(prefix);
    let r = match_at(s, &p, 0);
    assert(s@.subrange(0, p@.len() as int) =~= s@.take(p@.len() as int));
    r
}

pub fn starts_with_str(s: &str, prefix: &str) -> (r: bool)
    ensures
        r == starts_with(s@, prefix@),
{
    let v = to_chars(s);
    starts_with_chars(&v, prefix)
}

pub fn contains_str(s: &str, needle: &str) -> (r: bool)
    ensures
        r == contains_seq(s@, needle@),
{
    let v = to_chars(s);
    contains_chars(&v, needle)
}

/// First position, at or after `from`, where `needle` occurs in `hay`.
#[verifier::opaque]
pub open spec fn first_match_from(hay: Seq<char>, needle: Seq<char>, from: int) -> Option<int> {
    if exists|i: int| from <= i && matches_at(hay, needle, i) {
        Some(
            choose|i: int|
                from <= i && matches_at(hay, needle, i) && forall|j: int|
                    from <= j < i ==> !matches_at(hay, needle, j),
        )
    } else {
        None
    }
}

/// First position, at or after `from`, where `needle` (lower case) occurs
/// in `hay` ignoring ASCII case.
#[verifier::opaque]
pub open spec fn first_match_ci_from(hay: Seq<char>, needle: Seq<char>, from: int) -> Option<int> {
    if exists|i: int| from <= i && matches_at_ci(hay, needle, i) {
        Some(
            choose|i: int|
                from <= i && matches_at_ci(hay, needle, i) && forall|j: int|
                    from <= j < i ==> !matches_at_ci(hay, needle, j),
        )
    } else {
        None
    }
}

/// [`first_match_from`] as an optional `usize`.
pub open spec fn same_position(r: Option<usize>, p: Option<int>) -> bool {
    match r {
        Some(i) => p == Some(i as int),
        None => p is None,
    }
}

/// Position of the first occurrence of `needle` in `hay` at or after `from`.
pub fn find_first(hay: &Vec<char>, needle: &str, from: usize) -> (r: Option<usize>)
    requires
        from <= hay.len(),
    ensures
        same_position(r, first_match_from(hay@, needle@, from as int)),
        r matches Some(i) ==> from <= i && i + needle@.len() <= hay@.len(),
{
    let n = to_chars(needle);
    let r = find_from(hay, &n, from);
    reveal(first_match_from);
    match r {
        Some(i) => {
            let ghost p = first_match_from(hay@, needle@, from as int);
            assert(p is Some);
            let ghost k = p->0;
            assert(from <= k && matches_at(hay@, needle@, k));
            assert(k == i) by {
                if k < i {
                } else if i < k {
                }
            }
        },
        None => {},
    }
    r
}

/// Position of the first occurrence of `needle` (lower case) in `hay` at or
/// after `from`, ignoring ASCII case.
pub fn find_first_ci(hay: &Vec<char>, needle: &str, from: usize) -> (r: Option<usize>)
    requires
        from <= hay.len(),
    ensures
        same_position(r, first_match_ci_from(hay@, needle@, from as int)),
        r matches Some(i) ==> from <= i && i + needle@.len() <= hay@.len(),
{
    let n = to_chars(needle);
    let r = find_ci_from(hay, &n, from);
    reveal(first_match_ci_from);
    match r {
        Some(i) => {
            let ghost p = first_match_ci_from(hay@, needle@, from as int);
            assert(p is Some);
            let ghost k = p->0;
            assert(from <= k && matches_at_ci(hay@, needle@, k));
            assert(k == i) by {
                if k < i {
                } else if i < k {
                }
            }
        },
        None => {},
    }
    r
}

/// The string `t` inserted into `s` before position `pos`.
pub open spec fn insert_at(s: Seq<char>, pos: int, t: Seq<char>) -> Seq<char> {
    s.take(pos) + t + s.skip(pos)
}

/// `t` inserted into the characters `v` before position `pos`.
pub fn insert_str_at(v: &Vec<char>, pos: usize, t: &str) -> (r: String)
    requires
        pos <= v.len(),
    ensures
        r@ == insert_at(v@, pos as int, t@),
{
    let mut r = chars_to_string_range(v, 0, pos);
    push_str(&mut r, t);
    let tail = chars_to_string_range(v, pos, v.len());
    r.append(tail.as_str());
    assert(v@.subrange(0, pos as int) =~= v@.take(pos as int));
    assert(v@.subrange(pos as int, v@.len() as int) =~= v@.skip(pos as int));
    r
}

/// Whether `s` ends with `suffix`.
pub open spec fn ends_with(s: Seq<char>, suffix: Seq<char>) -> bool {
    suffix.len() <= s.len() && s.skip(s.len() - suffix.len()) == suffix
}

pub fn ends_with_str(s: &str, suffix: &str) -> (r: bool)
    ensures
        r == ends_with(s@, suffix@),
{
    let v = to_chars(s);
    let p = to_chars(suffix);
    if p.len() > v.len() {
        return false;
    }
    let start = v.len() - p.len();
    let mut j: usize = 0;
    while j < p.len()
        invariant
            v@ == s@,
            p@ == suffix@,
            start + p.len() == v.len(),
            start + p@.len() == v@.len(),
            j <= p@.len(),
            forall|k: int| 0 <= k < j ==> v@[start + k] == p@[k],
        decreases p@.len() - j,
    {
        if v[start + j] != p[j] {
            assert(v@.skip(start as int)[j as int] != p@[j as int]);
            return false;
        }
        j = j + 1;
    }
    assert(v@.skip(start as int) =~= p@);
    true
}

} // verus!

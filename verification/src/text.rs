//! Character sequences: conversion between strings and vectors of characters,
//! searching, comparing and concatenating.
//!
//! Strings are handled as vectors of `char`; every contract speaks of the
//! mathematical sequence of characters, the view of a string or of a vector.

use vstd::prelude::*;

verus! {

/// Index of the first `c` in `s`, or `s.len()` when `s` holds no `c`.
pub open spec fn first_index(s: Seq<char>, c: char) -> int
    decreases s.len(),
{
    if s.len() == 0 || s[0] == c {
        0
    } else {
        1 + first_index(s.skip(1), c)
    }
}

/// `first_index` is in range, points at a `c` unless it is the length, and
/// nothing before it is a `c`.
pub proof fn lemma_first_index(s: Seq<char>, c: char)
    ensures
        0 <= first_index(s, c) <= s.len(),
        first_index(s, c) < s.len() ==> s[first_index(s, c)] == c,
        forall|j: int| 0 <= j < first_index(s, c) ==> s[j] != c,
    decreases s.len(),
{
    if s.len() == 0 || s[0] == c {
    } else {
        let t = s.skip(1);
        lemma_first_index(t, c);
        assert forall|j: int| 0 <= j < first_index(s, c) implies s[j] != c by {
            if j > 0 {
                assert(s[j] == t[j - 1]);
            }
        }
    }
}

/// The only position with the properties of `lemma_first_index` is
/// `first_index` itself.
pub proof fn lemma_first_index_is(s: Seq<char>, c: char, k: int)
    requires
        0 <= k <= s.len(),
        k < s.len() ==> s[k] == c,
        forall|j: int| 0 <= j < k ==> s[j] != c,
    ensures
        first_index(s, c) == k,
    decreases s.len(),
{
    if s.len() == 0 || s[0] == c {
    } else {
        let t = s.skip(1);
        assert forall|j: int| 0 <= j < k - 1 implies t[j] != c by {
            assert(t[j] == s[j + 1]);
        }
        lemma_first_index_is(t, c, k - 1);
    }
}

/// Whether `needle` stands in `hay` at position `i`.
pub open spec fn occurs_at(hay: Seq<char>, needle: Seq<char>, i: int) -> bool {
    0 <= i && i + needle.len() <= hay.len() && hay.subrange(i, i + needle.len()) == needle
}

/// Whether `needle` is a contiguous part of `hay`.
pub open spec fn occurs_in(hay: Seq<char>, needle: Seq<char>) -> bool {
    exists|i: int| occurs_at(hay, needle, i)
}

/// Whether `s` begins with `prefix`.
pub open spec fn begins_with(s: Seq<char>, prefix: Seq<char>) -> bool {
    occurs_at(s, prefix, 0)
}

/// Whether `s` ends with `suffix`.
pub open spec fn finishes_with(s: Seq<char>, suffix: Seq<char>) -> bool {
    occurs_at(s, suffix, s.len() - suffix.len())
}

/// The character sequences that `rows` holds, in order.
pub open spec fn texts(rows: Seq<Vec<char>>) -> Seq<Seq<char>> {
    Seq::new(rows.len(), |i: int| rows[i]@)
}

/// The characters of `s`, in order.
pub fn chars_of(s: &str) -> (out: Vec<char>)
    ensures
        out@ == s@,
{
    let mut out: Vec<char> = Vec::new();
    for c in it: s.chars()
        invariant
            it.seq() == s@,
            out@ == s@.take(it.index()),
    {
        out.push(c);
    }
    out
}

/// The string whose characters are `chars`. Stands for `String::from_iter` of
/// the standard library, which collects the characters it is given, in order.
#[verifier::external_body]
pub(crate) fn string_of(chars: &Vec<char>) -> (out: String)
    ensures
        out@ == chars@,
{
    String::from_iter(chars)
}

/// Position of the first `c` in `s` at or after `from`, or `s.len()`.
pub fn find_from(s: &Vec<char>, from: usize, c: char) -> (at: usize)
    requires
        from <= s.len(),
    ensures
        at == from + first_index(s@.skip(from as int), c),
{
    let mut at: usize = from;
    while at < s.len() && s[at] != c
        invariant
            from <= at <= s.len(),
            forall|j: int| from <= j < at ==> s@[j] != c,
        decreases s.len() - at,
    {
        at += 1;
    }
    proof {
        let t = s@.skip(from as int);
        assert forall|j: int| 0 <= j < at - from implies t[j] != c by {
            assert(t[j] == s@[from + j]);
        }
        lemma_first_index_is(t, c, at - from);
    }
    at
}

/// Whether `needle` stands in `hay` at position `i`.
pub fn matches_at(hay: &Vec<char>, needle: &Vec<char>, i: usize) -> (found: bool)
    ensures
        found == occurs_at(hay@, needle@, i as int),
{
    if needle.len() > hay.len() || i > hay.len() - needle.len() {
        return false;
    }
    let mut k: usize = 0;
    while k < needle.len()
        invariant
            k <= needle.len(),
            i + needle.len() <= hay.len(),
            forall|j: int| 0 <= j < k ==> hay@[i + j] == needle@[j],
        decreases needle.len() - k,
    {
        if hay[i + k] != needle[k] {
            proof {
                let part = hay@.subrange(i as int, i + needle.len());
                assert(part[k as int] == hay@[i + k]);
            }
            return false;
        }
        k += 1;
    }
    proof {
        let part = hay@.subrange(i as int, i + needle.len());
        assert(part =~= needle@);
    }
    true
}

/// Whether `needle` is a contiguous part of `hay`.
pub fn contains(hay: &Vec<char>, needle: &Vec<char>) -> (found: bool)
    ensures
        found == occurs_in(hay@, needle@),
{
    if needle.len() > hay.len() {
        return false;
    }
    if needle.len() == 0 {
        proof {
            assert(hay@.subrange(0, 0) =~= needle@);
            assert(occurs_at(hay@, needle@, 0));
        }
        return true;
    }
    let last: usize = hay.len() - needle.len();
    let mut i: usize = 0;
    while i <= last
        invariant
            last == hay.len() - needle.len(),
            needle.len() > 0,
            i <= last + 1,
            forall|j: int| 0 <= j < i ==> !occurs_at(hay@, needle@, j),
        decreases last + 1 - i,
    {
        if matches_at(hay, needle, i) {
            return true;
        }
        i += 1;
    }
    false
}

/// Whether `s` begins with `prefix`.
pub fn starts_with(s: &Vec<char>, prefix: &Vec<char>) -> (yes: bool)
    ensures
        yes == begins_with(s@, prefix@),
{
    matches_at(s, prefix, 0)
}

/// Whether `s` ends with `suffix`.
pub fn ends_with(s: &Vec<char>, suffix: &Vec<char>) -> (yes: bool)
    ensures
        yes == finishes_with(s@, suffix@),
{
    if suffix.len() > s.len() {
        return false;
    }
    matches_at(s, suffix, s.len() - suffix.len())
}

/// The characters of `s` from `from` up to, not including, `to`.
pub fn slice_of(s: &Vec<char>, from: usize, to: usize) -> (out: Vec<char>)
    requires
        from <= to <= s.len(),
    ensures
        out@ == s@.subrange(from as int, to as int),
{
    let mut out: Vec<char> = Vec::new();
    let mut i: usize = from;
    while i < to
        invariant
            from <= i <= to <= s.len(),
            out@ == s@.subrange(from as int, i as int),
        decreases to - i,
    {
        out.push(s[i]);
        i += 1;
    }
    out
}

/// `a` followed by `b`.
pub fn append(a: &Vec<char>, b: &Vec<char>) -> (out: Vec<char>)
    ensures
        out@ == a@ + b@,
{
    let mut out: Vec<char> = Vec::new();
    let mut i: usize = 0;
    while i < a.len()
        invariant
            i <= a.len(),
            out@ == a@.take(i as int),
        decreases a.len() - i,
    {
        out.push(a[i]);
        i += 1;
    }
    let mut j: usize = 0;
    while j < b.len()
        invariant
            j <= b.len(),
            out@ == a@ + b@.take(j as int),
        decreases b.len() - j,
    {
        out.push(b[j]);
        j += 1;
    }
    out
}

/// Whether `a` and `b` hold the same characters.
pub fn same(a: &Vec<char>, b: &Vec<char>) -> (yes: bool)
    ensures
        yes == (a@ == b@),
{
    if a.len() != b.len() {
        return false;
    }
    let yes = matches_at(a, b, 0);
    proof {
        assert(a@.subrange(0, a@.len() as int) =~= a@);
    }
    yes
}

/// `a` followed by `b`, as a string.
pub fn glue(a: &str, b: &str) -> (out: String)
    ensures
        out@ == a@ + b@,
{
    string_of(&append(&chars_of(a), &chars_of(b)))
}

/// A copy of `s`.
pub fn copy_of(s: &str) -> (out: String)
    ensures
        out@ == s@,
{
    string_of(&chars_of(s))
}

/// Whether `a` and `b` are the same text.
pub fn same_text(a: &str, b: &str) -> (yes: bool)
    ensures
        yes == (a@ == b@),
{
    same(&chars_of(a), &chars_of(b))
}

} // verus!

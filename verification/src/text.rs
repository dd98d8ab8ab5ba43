//! Character sequences: conversion from strings and substring search.

use vstd::prelude::*;

verus! {

/// `needle` stands in `hay` starting at index `at`.
pub open spec fn occurs_at(hay: Seq<char>, needle: Seq<char>, at: int) -> bool {
    &&& 0 <= at
    &&& at + needle.len() <= hay.len()
    &&& hay.subrange(at, at + needle.len()) == needle
}

/// `needle` stands somewhere in `hay`.
pub open spec fn contains(hay: Seq<char>, needle: Seq<char>) -> bool {
    exists|at: int| occurs_at(hay, needle, at)
}

/// The characters of a string, in order.
pub fn to_chars(s: &str) -> (v: Vec<char>)
    ensures
        v@ == s@,
{
    let mut v: Vec<char> = Vec::new();
    for c in it: s.chars()
        invariant
            v@ == it.history(),
    {
        v.push(c);
    }
    v
}

/// Whether `needle` stands in `hay` at index `at`.
pub fn matches_at(hay: &Vec<char>, needle: &Vec<char>, at: usize) -> (r: bool)
    ensures
        r == occurs_at(hay@, needle@, at as int),
{
    if needle.len() > hay.len() || at > hay.len() - needle.len() {
        return false;
    }
    let mut k: usize = 0;
    while k < needle.len()
        invariant
            k <= needle.len(),
            at + needle.len() <= hay.len(),
            forall|j: int| 0 <= j < k ==> hay@[at + j] == needle@[j],
        decreases needle.len() - k,
    {
        if hay[at + k] != needle[k] {
            proof {
                let window = hay@.subrange(at as int, at + needle.len());
                assert(window[k as int] == hay@[at + k]);
            }
            return false;
        }
        k += 1;
    }
    assert(hay@.subrange(at as int, at + needle.len()) =~= needle@);
    true
}

/// The first index at or after `start` where `needle` stands in `hay`.
pub open spec fn index_of(hay: Seq<char>, needle: Seq<char>, start: int) -> Option<int>
    decreases hay.len() - start + 1,
{
    if start < 0 || start + needle.len() > hay.len() {
        None
    } else if occurs_at(hay, needle, start) {
        Some(start)
    } else {
        index_of(hay, needle, start + 1)
    }
}

/// What `index_of` finds is the first place at or after `start`, and it
/// finds nothing only where there is none.
pub proof fn index_of_is_first(hay: Seq<char>, needle: Seq<char>, start: int)
    requires
        0 <= start,
    ensures
        match index_of(hay, needle, start) {
            Some(at) => start <= at && occurs_at(hay, needle, at) && forall|j: int|
                start <= j < at ==> !occurs_at(hay, needle, j),
            None => forall|j: int| start <= j ==> !occurs_at(hay, needle, j),
        },
    decreases hay.len() - start + 1,
{
    if start + needle.len() <= hay.len() && !occurs_at(hay, needle, start) {
        index_of_is_first(hay, needle, start + 1);
    }
}

/// Searches `hay` from index `start` on for the first place where `needle` stands.
pub fn find_from(hay: &Vec<char>, needle: &Vec<char>, start: usize) -> (r: Option<usize>)
    ensures
        match r {
            Some(at) => index_of(hay@, needle@, start as int) == Some(at as int),
            None => index_of(hay@, needle@, start as int) is None,
        },
{
    if needle.len() > hay.len() || start > hay.len() - needle.len() {
        return None;
    }
    let last: usize = hay.len() - needle.len();
    let mut at: usize = start;
    while at <= last
        invariant
            start <= at <= last,
            last == hay.len() - needle.len(),
            index_of(hay@, needle@, start as int) == index_of(hay@, needle@, at as int),
        decreases last + 1 - at,
    {
        if matches_at(hay, needle, at) {
            return Some(at);
        }
        if at == last {
            assert(index_of(hay@, needle@, at + 1) is None);
            return None;
        }
        at += 1;
    }
    None
}

/// Whether `needle` stands somewhere in `hay`.
pub fn contains_chars(hay: &Vec<char>, needle: &Vec<char>) -> (r: bool)
    ensures
        r == contains(hay@, needle@),
{
    proof {
        index_of_is_first(hay@, needle@, 0);
    }
    match find_from(hay, needle, 0) {
        Some(at) => {
            assert(occurs_at(hay@, needle@, at as int));
            true
        },
        None => {
            assert forall|j: int| !occurs_at(hay@, needle@, j) by {
                if 0 <= j {
                    assert(!occurs_at(hay@, needle@, j));
                }
            }
            false
        },
    }
}

/// Whether two strings hold the same text.
pub fn same_text(a: &str, b: &str) -> (r: bool)
    ensures
        r == (a@ == b@),
{
    let x = to_chars(a);
    let y = to_chars(b);
    if x.len() != y.len() {
        return false;
    }
    let hit = matches_at(&x, &y, 0);
    proof {
        assert(x@.subrange(0, x@.len() as int) =~= x@);
    }
    hit
}

} // verus!

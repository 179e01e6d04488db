//! Character-level text utilities shared by the classification and formatting rules.

use vstd::prelude::*;

verus! {

/// `needle` occurs in `hay` starting at position `at`.
pub open spec fn occurs_at(hay: Seq<char>, needle: Seq<char>, at: int) -> bool {
    &&& 0 <= at
    &&& at + needle.len() <= hay.len()
    &&& hay.subrange(at, at + needle.len()) == needle
}

/// `needle` occurs somewhere in `hay` as a contiguous run of characters.
pub open spec fn contains(hay: Seq<char>, needle: Seq<char>) -> bool {
    exists|at: int| occurs_at(hay, needle, at)
}

/// `c` is one of the ten decimal digits `0` to `9`.
pub open spec fn is_digit(c: char) -> bool {
    '0' <= c <= '9'
}

/// Tests whether a character is a decimal digit.
pub fn is_decimal_digit(c: char) -> (digit: bool)
    ensures
        digit == is_digit(c),
{
    '0' <= c && c <= '9'
}

/// The characters of a string slice, in order.
pub fn chars_of(s: &str) -> (chars: Vec<char>)
    ensures
        chars@ == s@,
{
    let mut chars: Vec<char> = Vec::new();
    for c in it: s.chars()
        invariant
            it.seq() == s@,
            chars@ == it.seq().take(it.index() as int),
    {
        chars.push(c);
    }
    chars
}

/// Tests whether `needle` occurs in `hay` at position `at`.
pub fn matches_at(hay: &Vec<char>, needle: &Vec<char>, at: usize) -> (found: bool)
    requires
        at + needle.len() <= hay.len(),
    ensures
        found == occurs_at(hay@, needle@, at as int),
{
    let mut k: usize = 0;
    while k < needle.len()
        invariant
            k <= needle.len(),
            at + needle.len() <= hay.len(),
            forall|j: int| 0 <= j < k ==> hay@[at + j] == needle@[j],
        decreases needle.len() - k,
    {
        if hay[at + k] != needle[k] {
            proof {
                let window = hay@.subrange(at as int, at + needle.len());
                assert(window[k as int] != needle@[k as int]);
            }
            return false;
        }
        k += 1;
    }
    proof {
        assert(hay@.subrange(at as int, at + needle.len()) =~= needle@);
    }
    true
}

/// Tests whether `needle` occurs anywhere in `hay`.
pub fn contains_chars(hay: &Vec<char>, needle: &Vec<char>) -> (found: bool)
    ensures
        found == contains(hay@, needle@),
{
    if needle.len() > hay.len() {
        return false;
    }
    if needle.len() == 0 {
        proof {
            assert(hay@.subrange(0, 0) =~= needle@);
            assert(occurs_at(hay@, needle@, 0));
        }
        return true;
    }
    let last: usize = hay.len() - needle.len();
    let mut at: usize = 0;
    while at <= last
        invariant
            at <= last + 1,
            last == hay.len() - needle.len(),
            0 < needle.len() <= hay.len(),
            forall|j: int| 0 <= j < at ==> !occurs_at(hay@, needle@, j),
        decreases last + 1 - at,
    {
        if matches_at(hay, needle, at) {
            return true;
        }
        at += 1;
    }
    false
}

/// Tests whether the text `needle` occurs anywhere in the text `hay`.
pub fn text_contains(hay: &str, needle: &str) -> (found: bool)
    ensures
        found == contains(hay@, needle@),
{
    let hay_chars = chars_of(hay);
    let needle_chars = chars_of(needle);
    contains_chars(&hay_chars, &needle_chars)
}

/// Tests whether two sequences of characters are the same.
pub fn chars_equal(left: &Vec<char>, right: &Vec<char>) -> (same: bool)
    ensures
        same == (left@ == right@),
{
    if left.len() != right.len() {
        return false;
    }
    proof {
        assert(left@.subrange(0, right@.len() as int) =~= left@);
    }
    matches_at(left, right, 0)
}

/// Tests whether two texts hold the same characters.
pub fn text_equals(left: &str, right: &str) -> (same: bool)
    ensures
        same == (left@ == right@),
{
    chars_equal(&chars_of(left), &chars_of(right))
}

} // verus!

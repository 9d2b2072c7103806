//! Character-sequence predicates and the trusted bridge to std's string
//! operations that vstd leaves unspecified: substring search and Unicode
//! uppercasing.

use vstd::prelude::*;

verus! {

/// `needle` occurs contiguously somewhere inside `hay`.
pub open spec fn has_substring(hay: Seq<char>, needle: Seq<char>) -> bool {
    exists|i: int|
        0 <= i && i + needle.len() <= hay.len() && #[trigger] hay.subrange(i, i + needle.len())
            == needle
}

/// The view of an optional string slice.
pub open spec fn opt_view(o: Option<&str>) -> Option<Seq<char>> {
    match o {
        Some(s) => Some(s@),
        None => None,
    }
}

/// An ASCII character.
pub open spec fn is_ascii_char(c: char) -> bool {
    (c as u32) < 128
}

/// Every character of `s` is an ASCII character.
pub open spec fn seq_is_ascii(s: Seq<char>) -> bool {
    forall|i: int| 0 <= i < s.len() ==> is_ascii_char(#[trigger] s[i])
}

/// The ASCII uppercase of one character: `a`..`z` map to `A`..`Z`, everything
/// else is unchanged.
pub open spec fn ascii_upper_char(c: char) -> char {
    if 97 <= (c as u32) && (c as u32) <= 122 {
        ((c as u32) - 32) as char
    } else {
        c
    }
}

/// The ASCII uppercase of a sequence, character by character.
pub open spec fn ascii_upper(s: Seq<char>) -> Seq<char> {
    s.map_values(|c: char| ascii_upper_char(c))
}

/// The Unicode uppercase of a sequence holding some character outside
/// ASCII, as `str::to_uppercase` computes it. The mapping is the Unicode
/// case table and is left unstated here.
pub uninterp spec fn unicode_upper_of(s: Seq<char>) -> Seq<char>;

/// The uppercase of a sequence, as `str::to_uppercase` computes it. On
/// ASCII input the Unicode case mapping is exactly the ASCII one — no ASCII
/// character maps beyond `a`..`z` to `A`..`Z`; everything else goes through
/// the unstated Unicode case table.
pub open spec fn upper_of(s: Seq<char>) -> Seq<char> {
    if seq_is_ascii(s) {
        ascii_upper(s)
    } else {
        unicode_upper_of(s)
    }
}

/// Relies on `str::contains` with a `&str` pattern: true exactly when the
/// pattern occurs as a contiguous substring of the receiver.
#[verifier::external_body]
pub fn str_contains(hay: &str, needle: &str) -> (r: bool)
    ensures
        r == has_substring(hay@, needle@),
{
    hay.contains(needle)
}

/// Relies on `str::to_uppercase`: the result is the Unicode uppercase of
/// the input, which depends on the input characters alone.
#[verifier::external_body]
pub fn to_upper(s: &str) -> (r: String)
    ensures
        r@ == upper_of(s@),
        !seq_is_ascii(s@) ==> r@ == unicode_upper_of(s@),
{
    s.to_uppercase()
}

/// Relies on `<str as PartialEq>::eq`: string slices compare equal exactly
/// when their character sequences are equal.
#[verifier::external_body]
pub fn str_eq(a: &str, b: &str) -> (r: bool)
    ensures
        r == (a@ == b@),
{
    a == b
}

/// Every sequence contains itself.
pub proof fn lemma_has_substring_reflexive(s: Seq<char>)
    ensures
        has_substring(s, s),
{
    let i: int = 0;
    assert(s.subrange(i, i + s.len()) =~= s);
}

} // verus!

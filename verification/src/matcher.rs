//! The layout matcher: decides whether a human-readable description of the
//! currently selected keyboard layout already denotes the layout that a target
//! token asks for.
//!
//! A target token is first uppercased and dispatched on a fixed set of
//! recognized language families; each family carries a hardcoded list of
//! substrings diagnostic of "this layout is active". Tokens of no recognized
//! family fall back to case-insensitive substring containment.

use vstd::prelude::*;

use crate::text::{ascii_upper, has_substring, lemma_has_substring_reflexive, seq_is_ascii,
    str_contains, str_eq, to_upper, upper_of};

verus! {

/// An uppercased token naming the English family.
pub open spec fn is_english_token(t: Seq<char>) -> bool {
    t == "US"@ || t == "EN"@ || t == "ENGLISH"@
}

/// An uppercased token naming the Russian family.
pub open spec fn is_russian_token(t: Seq<char>) -> bool {
    t == "RU"@ || t == "RUSSIAN"@
}

/// An uppercased token naming the Chinese family.
pub open spec fn is_chinese_token(t: Seq<char>) -> bool {
    t == "CN"@ || t == "CHINESE"@ || t == "PINYIN"@ || t == "ZH"@
}

/// An uppercased token naming the Hindi family.
pub open spec fn is_hindi_token(t: Seq<char>) -> bool {
    t == "HI"@ || t == "HINDI"@ || t == "DEVANAGARI"@
}

/// The current layout description shows an English layout.
pub open spec fn shows_english(cur: Seq<char>) -> bool {
    ||| has_substring(cur, "U.S."@)
    ||| has_substring(cur, "US"@)
    ||| has_substring(cur, "English"@)
    ||| has_substring(cur, "com.apple.keylayout.US"@)
    ||| has_substring(cur, "ABC"@)
}

/// The current layout description shows a Russian layout.
pub open spec fn shows_russian(cur: Seq<char>) -> bool {
    ||| has_substring(cur, "Russian"@)
    ||| has_substring(cur, "Русская"@)
    ||| has_substring(cur, "com.apple.keylayout.Russian"@)
}

/// The current layout description shows a Chinese layout. The first two
/// checks are made on the uppercased description.
pub open spec fn shows_chinese(cur: Seq<char>) -> bool {
    ||| has_substring(upper_of(cur), "PINYIN"@)
    ||| has_substring(upper_of(cur), "SIMPLIFIED"@)
    ||| has_substring(cur, "简体"@)
    ||| has_substring(cur, "com.apple.keylayout.PinyinSimplified"@)
    ||| has_substring(cur, "com.apple.inputmethod.SCIM.Pinyin"@)
}

/// The current layout description shows a Hindi layout. The first two checks
/// are made on the uppercased description.
pub open spec fn shows_hindi(cur: Seq<char>) -> bool {
    ||| has_substring(upper_of(cur), "HINDI"@)
    ||| has_substring(upper_of(cur), "DEVANAGARI"@)
    ||| has_substring(cur, "देवनागरी"@)
    ||| has_substring(cur, "com.apple.keylayout.Devanagari-QWERTY"@)
    ||| has_substring(cur, "com.apple.keylayout.Hindi-QWERTY"@)
}

/// Whether the layout described by `cur` is the one that the token `target`
/// asks for: family dispatch on the uppercased token, then that family's
/// diagnostic substrings; for unrecognized tokens, case-insensitive
/// containment of the token in the description.
pub open spec fn layout_matches(cur: Seq<char>, target: Seq<char>) -> bool {
    let t = upper_of(target);
    if is_english_token(t) {
        shows_english(cur)
    } else if is_russian_token(t) {
        shows_russian(cur)
    } else if is_chinese_token(t) {
        shows_chinese(cur)
    } else if is_hindi_token(t) {
        shows_hindi(cur)
    } else {
        has_substring(upper_of(cur), upper_of(target))
    }
}

/// The recognized language families.
#[derive(Clone, Copy, PartialEq, Eq, Structural, Debug)]
pub enum LayoutFamily {
    English,
    Russian,
    Chinese,
    Hindi,
}

/// The family that an uppercased token names, if any.
pub open spec fn family_of(t: Seq<char>) -> Option<LayoutFamily> {
    if is_english_token(t) {
        Some(LayoutFamily::English)
    } else if is_russian_token(t) {
        Some(LayoutFamily::Russian)
    } else if is_chinese_token(t) {
        Some(LayoutFamily::Chinese)
    } else if is_hindi_token(t) {
        Some(LayoutFamily::Hindi)
    } else {
        None
    }
}

/// The diagnostic substrings registered for each family, in the order the
/// matcher tests them. The first two of the Chinese and Hindi families are
/// checked against the uppercased description, the rest literally.
pub open spec fn family_diagnostics(f: LayoutFamily) -> Seq<Seq<char>> {
    match f {
        LayoutFamily::English => seq![
            "U.S."@,
            "US"@,
            "English"@,
            "com.apple.keylayout.US"@,
            "ABC"@,
        ],
        LayoutFamily::Russian => seq!["Russian"@, "Русская"@, "com.apple.keylayout.Russian"@],
        LayoutFamily::Chinese => seq![
            "PINYIN"@,
            "SIMPLIFIED"@,
            "简体"@,
            "com.apple.keylayout.PinyinSimplified"@,
            "com.apple.inputmethod.SCIM.Pinyin"@,
        ],
        LayoutFamily::Hindi => seq![
            "HINDI"@,
            "DEVANAGARI"@,
            "देवनागरी"@,
            "com.apple.keylayout.Devanagari-QWERTY"@,
            "com.apple.keylayout.Hindi-QWERTY"@,
        ],
    }
}

/// Law: every diagnostic substring registered for a family, taken itself as
/// the layout description, matches every token of that family.
pub proof fn lemma_family_diagnostic_matches(target: Seq<char>, f: LayoutFamily, i: int)
    requires
        family_of(upper_of(target)) == Some(f),
        0 <= i < family_diagnostics(f).len(),
    ensures
        layout_matches(family_diagnostics(f)[i], target),
{
    let d = family_diagnostics(f)[i];
    lemma_has_substring_reflexive(d);
    match f {
        LayoutFamily::English => {
        },
        LayoutFamily::Russian => {
        },
        LayoutFamily::Chinese => {
            if i == 0 {
                reveal_strlit("PINYIN");
                assert(seq_is_ascii("PINYIN"@));
                assert(ascii_upper("PINYIN"@) =~= "PINYIN"@);
            } else if i == 1 {
                reveal_strlit("SIMPLIFIED");
                assert(seq_is_ascii("SIMPLIFIED"@));
                assert(ascii_upper("SIMPLIFIED"@) =~= "SIMPLIFIED"@);
            }
        },
        LayoutFamily::Hindi => {
            if i == 0 {
                reveal_strlit("HINDI");
                assert(seq_is_ascii("HINDI"@));
                assert(ascii_upper("HINDI"@) =~= "HINDI"@);
            } else if i == 1 {
                reveal_strlit("DEVANAGARI");
                assert(seq_is_ascii("DEVANAGARI"@));
                assert(ascii_upper("DEVANAGARI"@) =~= "DEVANAGARI"@);
            }
        },
    }
}

/// Law: a token naming no recognized family matches exactly the
/// descriptions whose uppercase holds the token's uppercase — that is,
/// case-insensitive substring containment of the token in the description.
pub proof fn lemma_unrecognized_token_containment(cur: Seq<char>, target: Seq<char>)
    requires
        family_of(upper_of(target)) is None,
    ensures
        layout_matches(cur, target) == has_substring(upper_of(cur), upper_of(target)),
{
}

/// Decides whether `current_layout` already denotes the layout that
/// `target_layout` asks for.
pub fn is_target_layout(current_layout: &str, target_layout: &str) -> (r: bool)
    ensures
        r == layout_matches(current_layout@, target_layout@),
{
    let upper = to_upper(target_layout);
    let u: &str = upper.as_str();
    if str_eq(u, "US") || str_eq(u, "EN") || str_eq(u, "ENGLISH") {
        str_contains(current_layout, "U.S.") || str_contains(current_layout, "US")
            || str_contains(current_layout, "English")
            || str_contains(current_layout, "com.apple.keylayout.US")
            || str_contains(current_layout, "ABC")
    } else if str_eq(u, "RU") || str_eq(u, "RUSSIAN") {
        str_contains(current_layout, "Russian") || str_contains(current_layout, "Русская")
            || str_contains(current_layout, "com.apple.keylayout.Russian")
    } else if str_eq(u, "CN") || str_eq(u, "CHINESE") || str_eq(u, "PINYIN") || str_eq(u, "ZH") {
        let cur_upper = to_upper(current_layout);
        str_contains(cur_upper.as_str(), "PINYIN") || str_contains(cur_upper.as_str(), "SIMPLIFIED")
            || str_contains(current_layout, "简体")
            || str_contains(current_layout, "com.apple.keylayout.PinyinSimplified")
            || str_contains(current_layout, "com.apple.inputmethod.SCIM.Pinyin")
    } else if str_eq(u, "HI") || str_eq(u, "HINDI") || str_eq(u, "DEVANAGARI") {
        let cur_upper = to_upper(current_layout);
        str_contains(cur_upper.as_str(), "HINDI") || str_contains(cur_upper.as_str(), "DEVANAGARI")
            || str_contains(current_layout, "देवनागरी")
            || str_contains(current_layout, "com.apple.keylayout.Devanagari-QWERTY")
            || str_contains(current_layout, "com.apple.keylayout.Hindi-QWERTY")
    } else {
        let cur_upper = to_upper(current_layout);
        str_contains(cur_upper.as_str(), u)
    }
}

} // verus!

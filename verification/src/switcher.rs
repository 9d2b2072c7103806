//! The decisions inside the switch attempt: which identifier and name
//! patterns to scan the installed input sources for, whether a given source
//! matches them, and whether the English-language fast path applies. The
//! enumeration and selection of input sources themselves are
//! operating-system calls and stay outside the library.

use vstd::prelude::*;

use crate::matcher::{is_chinese_token, is_english_token, is_hindi_token, is_russian_token};
use crate::text::{has_substring, opt_view, str_contains, str_eq, to_upper, upper_of};

verus! {

/// The character sequences held by a vector of strings, in order.
pub open spec fn strings_view(v: Vec<String>) -> Seq<Seq<char>> {
    Seq::new(v@.len(), |i: int| v@[i]@)
}

/// The patterns that the switch scans installed input sources for, by family
/// of the target token; an unrecognized token is its own single pattern.
pub open spec fn spec_search_patterns(target: Seq<char>) -> Seq<Seq<char>> {
    let t = upper_of(target);
    if is_english_token(t) {
        seq!["com.apple.keylayout.US"@, "com.apple.keylayout.ABC"@, "US"@]
    } else if is_russian_token(t) {
        seq!["com.apple.keylayout.Russian"@, "Russian"@]
    } else if is_chinese_token(t) {
        seq![
            "com.apple.keylayout.PinyinSimplified"@,
            "com.apple.inputmethod.SCIM.Pinyin"@,
            "Pinyin"@,
            "简体"@,
        ]
    } else if is_hindi_token(t) {
        seq![
            "com.apple.keylayout.Devanagari-QWERTY"@,
            "com.apple.keylayout.Hindi-QWERTY"@,
            "Hindi"@,
            "Devanagari"@,
            "देवनागरी"@,
        ]
    } else {
        seq![target]
    }
}

/// Builds the search patterns for a target token.
pub fn search_patterns(target_layout: &str) -> (r: Vec<String>)
    ensures
        strings_view(r) == spec_search_patterns(target_layout@),
{
    let upper = to_upper(target_layout);
    let u: &str = upper.as_str();
    let mut v: Vec<String> = Vec::new();
    if str_eq(u, "US") || str_eq(u, "EN") || str_eq(u, "ENGLISH") {
        v.push("com.apple.keylayout.US".to_owned());
        v.push("com.apple.keylayout.ABC".to_owned());
        v.push("US".to_owned());
    } else if str_eq(u, "RU") || str_eq(u, "RUSSIAN") {
        v.push("com.apple.keylayout.Russian".to_owned());
        v.push("Russian".to_owned());
    } else if str_eq(u, "CN") || str_eq(u, "CHINESE") || str_eq(u, "PINYIN") || str_eq(u, "ZH") {
        v.push("com.apple.keylayout.PinyinSimplified".to_owned());
        v.push("com.apple.inputmethod.SCIM.Pinyin".to_owned());
        v.push("Pinyin".to_owned());
        v.push("简体".to_owned());
    } else if str_eq(u, "HI") || str_eq(u, "HINDI") || str_eq(u, "DEVANAGARI") {
        v.push("com.apple.keylayout.Devanagari-QWERTY".to_owned());
        v.push("com.apple.keylayout.Hindi-QWERTY".to_owned());
        v.push("Hindi".to_owned());
        v.push("Devanagari".to_owned());
        v.push("देवनागरी".to_owned());
    } else {
        v.push(target_layout.to_owned());
    }
    proof {
        assert(strings_view(v) =~= spec_search_patterns(target_layout@));
    }
    v
}

/// Whether the switch may try the fast path that asks the system directly
/// for an English-language input source.
pub fn wants_english_fast_path(target_layout: &str) -> (r: bool)
    ensures
        r == is_english_token(upper_of(target_layout@)),
{
    let upper = to_upper(target_layout);
    let u: &str = upper.as_str();
    str_eq(u, "US") || str_eq(u, "EN") || str_eq(u, "ENGLISH")
}

/// An input source matches when its identifier holds some pattern literally,
/// or its localized name holds some pattern case-insensitively.
pub open spec fn spec_source_matches(
    id: Option<Seq<char>>,
    name: Option<Seq<char>>,
    patterns: Seq<Seq<char>>,
) -> bool {
    ||| (id is Some && exists|i: int|
        0 <= i < patterns.len() && has_substring(id->Some_0, #[trigger] patterns[i]))
    ||| (name is Some && exists|i: int|
        0 <= i < patterns.len() && has_substring(
            upper_of(name->Some_0),
            upper_of(#[trigger] patterns[i]),
        ))
}

/// Decides whether one installed input source, described by its identifier
/// and its localized name where they could be read, matches the patterns.
pub fn source_matches(id: Option<&str>, name: Option<&str>, patterns: &Vec<String>) -> (r: bool)
    ensures
        r == spec_source_matches(opt_view(id), opt_view(name), strings_view(*patterns)),
{
    let n = patterns.len();
    if id.is_some() {
        let id_str: &str = id.unwrap();
        {
            let mut i: usize = 0;
            while i < n
                invariant
                    n == patterns@.len(),
                    0 <= i <= n,
                    opt_view(id) == Some(id_str@),
                    forall|j: int|
                        0 <= j < i ==> !has_substring(id_str@, #[trigger] strings_view(*patterns)[j]),
                decreases n - i,
            {
                if str_contains(id_str, patterns[i].as_str()) {
                    proof {
                        let pv = strings_view(*patterns);
                        assert(has_substring(id_str@, pv[i as int]));
                    }
                    return true;
                }
                i += 1;
            }
        }
    }
    if name.is_some() {
        let name_str: &str = name.unwrap();
        {
            let name_upper = to_upper(name_str);
            let mut i: usize = 0;
            while i < n
                invariant
                    n == patterns@.len(),
                    0 <= i <= n,
                    opt_view(name) == Some(name_str@),
                    name_upper@ == upper_of(name_str@),
                    forall|j: int|
                        0 <= j < i ==> !has_substring(
                            upper_of(name_str@),
                            upper_of(#[trigger] strings_view(*patterns)[j]),
                        ),
                decreases n - i,
            {
                let pattern_upper = to_upper(patterns[i].as_str());
                if str_contains(name_upper.as_str(), pattern_upper.as_str()) {
                    proof {
                        let pv = strings_view(*patterns);
                        assert(has_substring(upper_of(name_str@), upper_of(pv[i as int])));
                    }
                    return true;
                }
                i += 1;
            }
        }
    }
    false
}

} // verus!

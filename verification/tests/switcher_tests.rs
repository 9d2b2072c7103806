//! Tests of the switch attempt's decisions.

use language_handler::switcher::{search_patterns, source_matches, wants_english_fast_path};

#[test]
fn english_tokens_take_the_fast_path() {
    assert!(wants_english_fast_path("US"));
    assert!(wants_english_fast_path("en"));
    assert!(wants_english_fast_path("English"));
    assert!(!wants_english_fast_path("RU"));
    assert!(!wants_english_fast_path("FR"));
}

#[test]
fn patterns_follow_the_family() {
    assert_eq!(
        search_patterns("US"),
        vec!["com.apple.keylayout.US", "com.apple.keylayout.ABC", "US"]
    );
    assert_eq!(search_patterns("russian"), vec!["com.apple.keylayout.Russian", "Russian"]);
    assert_eq!(
        search_patterns("zh"),
        vec![
            "com.apple.keylayout.PinyinSimplified",
            "com.apple.inputmethod.SCIM.Pinyin",
            "Pinyin",
            "简体"
        ]
    );
    assert_eq!(
        search_patterns("Devanagari"),
        vec![
            "com.apple.keylayout.Devanagari-QWERTY",
            "com.apple.keylayout.Hindi-QWERTY",
            "Hindi",
            "Devanagari",
            "देवनागरी"
        ]
    );
}

#[test]
fn unrecognized_token_is_its_own_pattern() {
    assert_eq!(search_patterns("Ukrainian"), vec!["Ukrainian"]);
}

#[test]
fn identifier_matches_patterns_literally() {
    let patterns = search_patterns("RU");
    assert!(source_matches(Some("com.apple.keylayout.Russian"), None, &patterns));
    assert!(!source_matches(Some("com.apple.keylayout.russian"), None, &patterns));
    assert!(!source_matches(Some("com.apple.keylayout.US"), None, &patterns));
}

#[test]
fn name_matches_patterns_case_insensitively() {
    let patterns = search_patterns("RU");
    assert!(source_matches(None, Some("russian"), &patterns));
    assert!(source_matches(None, Some("RUSSIAN - PC"), &patterns));
    assert!(!source_matches(None, Some("U.S."), &patterns));
}

#[test]
fn missing_identifier_and_name_match_nothing() {
    let patterns = search_patterns("US");
    assert!(!source_matches(None, None, &patterns));
}

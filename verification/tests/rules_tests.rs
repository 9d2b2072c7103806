//! Tests of the rule mapping and the resolver.

use language_handler::rules::LayoutRules;

fn rules_of(pairs: &[(&str, &str)]) -> LayoutRules {
    let mut r = LayoutRules::new();
    for (app, layout) in pairs {
        r.insert((*app).to_owned(), (*layout).to_owned());
    }
    r
}

#[test]
fn exact_match_takes_precedence_over_fuzzy() {
    let rules = rules_of(&[("Code", "US"), ("Co", "RU")]);
    let resolved = rules.resolve("Code").expect("a rule must resolve");
    assert_eq!(resolved.layout, "US");
    assert_eq!(resolved.rule_app, "Code");
    assert!(!resolved.fuzzy);
}

#[test]
fn exact_match_takes_precedence_whatever_the_order() {
    let rules = rules_of(&[("Co", "RU"), ("Code", "US")]);
    let resolved = rules.resolve("Code").expect("a rule must resolve");
    assert_eq!(resolved.layout, "US");
    assert!(!resolved.fuzzy);
}

#[test]
fn fuzzy_match_when_app_contains_key() {
    let rules = rules_of(&[("iTerm", "US")]);
    let resolved = rules.resolve("iTerm2").expect("a rule must resolve");
    assert_eq!(resolved.layout, "US");
    assert_eq!(resolved.rule_app, "iTerm");
    assert!(resolved.fuzzy);
}

#[test]
fn fuzzy_match_when_key_contains_app() {
    let rules = rules_of(&[("iTerm2", "US")]);
    let resolved = rules.resolve("iTerm").expect("a rule must resolve");
    assert_eq!(resolved.layout, "US");
    assert_eq!(resolved.rule_app, "iTerm2");
    assert!(resolved.fuzzy);
}

#[test]
fn first_fuzzy_entry_wins() {
    let rules = rules_of(&[("Term", "US"), ("Code", "RU")]);
    let resolved = rules.resolve("TermCode").expect("a rule must resolve");
    assert_eq!(resolved.layout, "US");
    assert_eq!(resolved.rule_app, "Term");
}

#[test]
fn unrelated_app_resolves_nothing() {
    let rules = rules_of(&[("Terminal", "US")]);
    assert!(rules.resolve("Finder").is_none());
}

#[test]
fn empty_rules_resolve_nothing() {
    let rules = LayoutRules::new();
    assert_eq!(rules.len(), 0);
    assert!(rules.resolve("Terminal").is_none());
}

#[test]
fn insert_overwrites_existing_key_in_place() {
    let rules = rules_of(&[("Code", "US"), ("Terminal", "RU"), ("Code", "CN")]);
    assert_eq!(rules.len(), 2);
    let resolved = rules.resolve("Code").expect("a rule must resolve");
    assert_eq!(resolved.layout, "CN");
    assert!(!resolved.fuzzy);
}

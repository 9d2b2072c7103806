//! Tests of the monitor state and the switch decision.

use language_handler::rules::LayoutRules;
use language_handler::state::{AppState, SwitchDecision};

fn terminal_us_rules() -> LayoutRules {
    let mut r = LayoutRules::new();
    r.insert("Terminal".to_owned(), "US".to_owned());
    r
}

#[test]
fn switches_when_rule_resolves_and_layout_differs() {
    let mut st = AppState::new(terminal_us_rules());
    st.set_active_app("Terminal".to_owned());
    st.set_current_layout("Russian".to_owned());
    match st.decide_switch() {
        SwitchDecision::Switch(rr) => {
            assert_eq!(rr.layout, "US");
            assert_eq!(rr.rule_app, "Terminal");
            assert!(!rr.fuzzy);
        }
        SwitchDecision::Stay => panic!("a switch to US was expected"),
    }
}

#[test]
fn stays_when_no_rule_relates_to_app() {
    let mut st = AppState::new(terminal_us_rules());
    st.set_active_app("Finder".to_owned());
    st.set_current_layout("Russian".to_owned());
    assert!(matches!(st.decide_switch(), SwitchDecision::Stay));
}

#[test]
fn stays_when_layout_already_matches() {
    let mut st = AppState::new(terminal_us_rules());
    st.set_active_app("Terminal".to_owned());
    st.set_current_layout("U.S. (com.apple.keylayout.US)".to_owned());
    assert!(matches!(st.decide_switch(), SwitchDecision::Stay));
}

#[test]
fn stays_before_any_notification() {
    let st = AppState::new(terminal_us_rules());
    assert!(matches!(st.decide_switch(), SwitchDecision::Stay));
}

#[test]
fn stays_while_layout_is_unknown() {
    let mut st = AppState::new(terminal_us_rules());
    st.set_active_app("Terminal".to_owned());
    assert!(matches!(st.decide_switch(), SwitchDecision::Stay));
}

#[test]
fn second_check_after_a_successful_switch_stays() {
    let mut st = AppState::new(terminal_us_rules());
    st.set_active_app("Terminal".to_owned());
    st.set_current_layout("Russian".to_owned());
    let mut switches = 0;
    for _ in 0..2 {
        if let SwitchDecision::Switch(rr) = st.decide_switch() {
            switches += 1;
            // A successful switch changes the layout, and the monitor re-reads
            // it before the next check.
            assert_eq!(rr.layout, "US");
            st.set_current_layout("U.S. (com.apple.keylayout.US)".to_owned());
        }
    }
    assert_eq!(switches, 1);
}

#[test]
fn fuzzy_rule_reported_in_decision() {
    let mut r = LayoutRules::new();
    r.insert("iTerm".to_owned(), "US".to_owned());
    let mut st = AppState::new(r);
    st.set_active_app("iTerm2".to_owned());
    st.set_current_layout("Russian".to_owned());
    match st.decide_switch() {
        SwitchDecision::Switch(rr) => {
            assert_eq!(rr.rule_app, "iTerm");
            assert!(rr.fuzzy);
        }
        SwitchDecision::Stay => panic!("a fuzzy switch was expected"),
    }
}

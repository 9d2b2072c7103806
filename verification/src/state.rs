//! The monitor's state and the rule check that each notification triggers:
//! resolve a rule for the frontmost application, ask the matcher whether the
//! current layout already is the resolved target, and decide whether a switch
//! should be attempted.

use vstd::prelude::*;

use crate::matcher::{is_target_layout, layout_matches};
use crate::rules::{spec_resolve, LayoutRules, ResolvedRule};

verus! {

/// What the rule check decided: attempt a switch to the resolved rule's
/// target, or leave the layout alone.
pub enum SwitchDecision {
    Switch(ResolvedRule),
    Stay,
}

/// The view of an optional owned string.
pub open spec fn opt_str_view(o: Option<String>) -> Option<Seq<char>> {
    match o {
        Some(s) => Some(s@),
        None => None,
    }
}

/// The decision for a given state: nothing while the frontmost application is
/// unknown; nothing when no rule resolves; nothing while the current layout
/// is unknown or already matches the resolved target; otherwise the resolved
/// rule, whose target the switch should select.
pub open spec fn spec_decide(
    rules: Seq<(Seq<char>, Seq<char>)>,
    app: Option<Seq<char>>,
    layout: Option<Seq<char>>,
) -> Option<(Seq<char>, Seq<char>, bool)> {
    match app {
        None => None,
        Some(a) => match spec_resolve(a, rules) {
            None => None,
            Some(p) => match layout {
                None => None,
                Some(cur) => if !layout_matches(cur, p.1) {
                    Some(p)
                } else {
                    None
                },
            },
        },
    }
}

/// The monitor's state: the configured rules, the frontmost application's
/// name and the description of the currently selected layout — the latter
/// two unknown until the corresponding notification has been handled.
pub struct AppState {
    pub rules: LayoutRules,
    pub active_app: Option<String>,
    pub current_layout: Option<String>,
}

impl AppState {
    /// The configured rules have pairwise distinct keys.
    pub open spec fn wf(&self) -> bool {
        self.rules.wf()
    }

    /// A fresh state around the loaded rules, before any notification.
    pub fn new(rules: LayoutRules) -> (s: AppState)
        ensures
            s.rules@ == rules@,
            s.active_app is None,
            s.current_layout is None,
            rules.wf() ==> s.wf(),
    {
        AppState { rules, active_app: None, current_layout: None }
    }

    /// Records the name of the newly activated frontmost application.
    pub fn set_active_app(&mut self, name: String)
        ensures
            final(self).active_app == Some(name),
            final(self).current_layout == old(self).current_layout,
            final(self).rules@ == old(self).rules@,
            old(self).wf() ==> final(self).wf(),
    {
        self.active_app = Some(name);
    }

    /// Records the description of the newly selected keyboard layout.
    pub fn set_current_layout(&mut self, layout: String)
        ensures
            final(self).current_layout == Some(layout),
            final(self).active_app == old(self).active_app,
            final(self).rules@ == old(self).rules@,
            old(self).wf() ==> final(self).wf(),
    {
        self.current_layout = Some(layout);
    }

    /// Checks the configured rules against the current state and decides
    /// whether a switch should be attempted, and to which target.
    pub fn decide_switch(&self) -> (d: SwitchDecision)
        ensures
            match d {
                SwitchDecision::Stay => spec_decide(
                    self.rules@,
                    opt_str_view(self.active_app),
                    opt_str_view(self.current_layout),
                ) is None,
                SwitchDecision::Switch(rr) => spec_decide(
                    self.rules@,
                    opt_str_view(self.active_app),
                    opt_str_view(self.current_layout),
                ) == Some(rr@),
            },
    {
        match &self.active_app {
            None => SwitchDecision::Stay,
            Some(app) => match self.rules.resolve(app.as_str()) {
                None => SwitchDecision::Stay,
                Some(rr) => match &self.current_layout {
                    None => SwitchDecision::Stay,
                    Some(cur) => if !is_target_layout(cur.as_str(), rr.layout.as_str()) {
                        SwitchDecision::Switch(rr)
                    } else {
                        SwitchDecision::Stay
                    },
                },
            },
        }
    }
}

/// Law: when a rule resolves and the current layout already matches its
/// target, the check decides to stay — no switch is attempted.
pub proof fn lemma_no_switch_when_matching(
    rules: Seq<(Seq<char>, Seq<char>)>,
    app: Seq<char>,
    layout: Seq<char>,
)
    requires
        spec_resolve(app, rules) is Some,
        layout_matches(layout, spec_resolve(app, rules)->Some_0.1),
    ensures
        spec_decide(rules, Some(app), Some(layout)) is None,
{
}

/// Law: switching is idempotent. If the check decides to switch, and
/// afterwards the layout matches the resolved target — as it does once the
/// switch succeeded and the state was re-read — then the same check on the
/// updated state decides to stay, so no second switch is attempted.
pub proof fn lemma_switch_idempotent(
    rules: Seq<(Seq<char>, Seq<char>)>,
    app: Option<Seq<char>>,
    layout: Option<Seq<char>>,
    new_layout: Seq<char>,
)
    requires
        spec_decide(rules, app, layout) is Some,
        layout_matches(new_layout, spec_decide(rules, app, layout)->Some_0.1),
    ensures
        spec_decide(rules, app, Some(new_layout)) is None,
{
}

} // verus!

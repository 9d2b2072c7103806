//! The configuration store: the default rule mapping, and the interpretation
//! of a configuration file's content, falling back to the defaults when the
//! file is missing or unparsable.

use vstd::prelude::*;

use std::collections::HashMap;

use crate::rules::{unique_keys, LayoutRule, LayoutRules};

verus! {

/// The six default rules: common editors and terminals mapped to "US".
pub open spec fn spec_default_rules() -> Seq<(Seq<char>, Seq<char>)> {
    seq![
        ("Terminal"@, "US"@),
        ("iTerm2"@, "US"@),
        ("iTerm"@, "US"@),
        ("Code"@, "US"@),
        ("Visual Studio Code"@, "US"@),
        ("Xcode"@, "US"@),
    ]
}

/// Builds the default mapping.
pub fn create_default_config() -> (r: LayoutRules)
    ensures
        r@ == spec_default_rules(),
        r.wf(),
{
    let mut entries: Vec<LayoutRule> = Vec::new();
    entries.push(LayoutRule { app: "Terminal".to_owned(), layout: "US".to_owned() });
    entries.push(LayoutRule { app: "iTerm2".to_owned(), layout: "US".to_owned() });
    entries.push(LayoutRule { app: "iTerm".to_owned(), layout: "US".to_owned() });
    entries.push(LayoutRule { app: "Code".to_owned(), layout: "US".to_owned() });
    entries.push(LayoutRule { app: "Visual Studio Code".to_owned(), layout: "US".to_owned() });
    entries.push(LayoutRule { app: "Xcode".to_owned(), layout: "US".to_owned() });
    let r = LayoutRules { entries };
    proof {
        reveal_strlit("Terminal");
        reveal_strlit("iTerm2");
        reveal_strlit("iTerm");
        reveal_strlit("Code");
        reveal_strlit("Visual Studio Code");
        reveal_strlit("Xcode");
        assert(r@ =~= spec_default_rules());
        let ks = spec_default_rules();
        assert(ks[0].0 == "Terminal"@ && ks[1].0 == "iTerm2"@ && ks[2].0 == "iTerm"@ && ks[3].0
            == "Code"@ && ks[4].0 == "Visual Studio Code"@ && ks[5].0 == "Xcode"@);
        assert(("Terminal"@).len() == 8 && ("iTerm2"@).len() == 6 && ("iTerm"@).len() == 5 && (
        "Code"@).len() == 4 && ("Visual Studio Code"@).len() == 18 && ("Xcode"@).len() == 5);
        assert(("iTerm"@)[0] == 'i' && ("Xcode"@)[0] == 'X');
        assert forall|i: int, j: int| 0 <= i < j < r@.len() implies (#[trigger] r@[i]).0 != (
        #[trigger] r@[j]).0 by {
            assert(r@[i] == ks[i] && r@[j] == ks[j]);
        }
        assert(r.wf());
    }
    r
}

/// The rule mapping that a JSON document encodes, when the document is an
/// object of strings: its keys mapped to their values. Which mapping a given
/// document encodes is a function of the document alone; the JSON grammar
/// itself is left unstated here.
pub uninterp spec fn json_rules(s: Seq<char>) -> Option<Map<Seq<char>, Seq<char>>>;

/// Relies on `serde_json::from_str` deserializing a `HashMap<String,
/// String>`: it succeeds exactly on the documents that encode a mapping of
/// strings to strings, and then yields that mapping, each key once. The
/// entries come out in the hash map's iteration order, of which nothing is
/// assumed here.
#[verifier::external_body]
fn parse_rules_json(content: &str) -> (r: Option<LayoutRules>)
    ensures
        r is Some <==> json_rules(content@) is Some,
        r is Some ==> {
            let m = json_rules(content@)->Some_0;
            let es = r->Some_0@;
            &&& unique_keys(es)
            &&& forall|i: int|
                0 <= i < es.len() ==> m.contains_pair((#[trigger] es[i]).0, es[i].1)
            &&& forall|k: Seq<char>|
                #[trigger] m.dom().contains(k) ==> exists|i: int|
                    0 <= i < es.len() && (#[trigger] es[i]).0 == k
        },
{
    match serde_json::from_str::<HashMap<String, String>>(content) {
        Ok(m) => Some(
            LayoutRules {
                entries: m.into_iter().map(|(app, layout)| LayoutRule { app, layout }).collect(),
            },
        ),
        Err(_) => None,
    }
}

/// The outcome of loading the configuration: the rules to use, and whether
/// they are the defaults — after missing or unparsable content — that the
/// caller should try to persist.
pub struct LoadedConfig {
    pub rules: LayoutRules,
    pub used_default: bool,
}

/// Interprets the configuration file's content. Content that encodes a
/// mapping of strings gives that mapping's rules; missing (`None`) or
/// unparsable content falls back to the default mapping.
pub fn load_or_create_config(content: Option<&str>) -> (r: LoadedConfig)
    ensures
        r.rules.wf(),
        match content {
            None => r.used_default && r.rules@ == spec_default_rules(),
            Some(c) => match json_rules(c@) {
                None => r.used_default && r.rules@ == spec_default_rules(),
                Some(m) => {
                    &&& !r.used_default
                    &&& forall|i: int|
                        0 <= i < r.rules@.len() ==> m.contains_pair(
                            (#[trigger] r.rules@[i]).0,
                            r.rules@[i].1,
                        )
                    &&& forall|k: Seq<char>|
                        #[trigger] m.dom().contains(k) ==> exists|i: int|
                            0 <= i < r.rules@.len() && (#[trigger] r.rules@[i]).0 == k
                },
            },
        },
{
    match content {
        None => LoadedConfig { rules: create_default_config(), used_default: true },
        Some(c) => match parse_rules_json(c) {
            Some(rules) => LoadedConfig { rules, used_default: false },
            None => LoadedConfig { rules: create_default_config(), used_default: true },
        },
    }
}

} // verus!

//! The configured rule mapping and the rule resolver: given the frontmost
//! application's name, find the applicable target layout, first by exact key
//! match, then by bidirectional substring containment between rule keys and
//! the application name, first entry in insertion order winning.

use vstd::prelude::*;

use crate::text::{has_substring, str_contains, str_eq};

verus! {

/// One configured rule: when the frontmost application's name relates to
/// `app`, the desired layout is `layout`.
pub struct LayoutRule {
    pub app: String,
    pub layout: String,
}

impl View for LayoutRule {
    type V = (Seq<char>, Seq<char>);

    open spec fn view(&self) -> (Seq<char>, Seq<char>) {
        (self.app@, self.layout@)
    }
}

/// The keys of a rule sequence are pairwise distinct.
pub open spec fn unique_keys(rs: Seq<(Seq<char>, Seq<char>)>) -> bool {
    forall|i: int, j: int|
        0 <= i < j < rs.len() ==> (#[trigger] rs[i]).0 != (#[trigger] rs[j]).0
}

/// The configured mapping from application names to layout tokens. Keys are
/// unique. Entries keep their insertion order, and that order decides which
/// rule wins when several keys substring-match the same application name.
pub struct LayoutRules {
    pub entries: Vec<LayoutRule>,
}

impl View for LayoutRules {
    type V = Seq<(Seq<char>, Seq<char>)>;

    open spec fn view(&self) -> Seq<(Seq<char>, Seq<char>)> {
        Seq::new(self.entries@.len(), |i: int| self.entries[i]@)
    }
}

/// The application name and a rule key relate by substring containment in
/// either direction.
pub open spec fn is_fuzzy_pair(app: Seq<char>, key: Seq<char>) -> bool {
    has_substring(app, key) || has_substring(key, app)
}

/// The value of the first entry whose key equals `app`, if any.
pub open spec fn spec_exact_resolve(app: Seq<char>, rs: Seq<(Seq<char>, Seq<char>)>) -> Option<
    (Seq<char>, Seq<char>),
>
    decreases rs.len(),
{
    if rs.len() == 0 {
        None
    } else if rs[0].0 == app {
        Some(rs[0])
    } else {
        spec_exact_resolve(app, rs.drop_first())
    }
}

/// The first entry whose key substring-relates to `app`, if any.
pub open spec fn spec_fuzzy_resolve(app: Seq<char>, rs: Seq<(Seq<char>, Seq<char>)>) -> Option<
    (Seq<char>, Seq<char>),
>
    decreases rs.len(),
{
    if rs.len() == 0 {
        None
    } else if is_fuzzy_pair(app, rs[0].0) {
        Some(rs[0])
    } else {
        spec_fuzzy_resolve(app, rs.drop_first())
    }
}

/// The resolved rule for `app`: the exact match if one exists, else the first
/// fuzzy match, else nothing. The third component tells whether the match was
/// fuzzy.
pub open spec fn spec_resolve(app: Seq<char>, rs: Seq<(Seq<char>, Seq<char>)>) -> Option<
    (Seq<char>, Seq<char>, bool),
> {
    match spec_exact_resolve(app, rs) {
        Some(p) => Some((p.0, p.1, false)),
        None => match spec_fuzzy_resolve(app, rs) {
            Some(p) => Some((p.0, p.1, true)),
            None => None,
        },
    }
}

/// The outcome of resolution: the key of the rule that applied, its target
/// layout token, and whether the key matched fuzzily rather than exactly.
pub struct ResolvedRule {
    pub rule_app: String,
    pub layout: String,
    pub fuzzy: bool,
}

impl View for ResolvedRule {
    type V = (Seq<char>, Seq<char>, bool);

    open spec fn view(&self) -> (Seq<char>, Seq<char>, bool) {
        (self.rule_app@, self.layout@, self.fuzzy)
    }
}

impl LayoutRules {
    /// Keys are pairwise distinct.
    pub open spec fn wf(&self) -> bool {
        unique_keys(self@)
    }

    /// An empty mapping.
    pub fn new() -> (r: LayoutRules)
        ensures
            r@ == Seq::<(Seq<char>, Seq<char>)>::empty(),
            r.wf(),
    {
        let r = LayoutRules { entries: Vec::new() };
        proof {
            assert(r@ =~= Seq::<(Seq<char>, Seq<char>)>::empty());
        }
        r
    }

    /// The number of configured rules.
    pub fn len(&self) -> (n: usize)
        ensures
            n == self@.len(),
    {
        self.entries.len()
    }

    /// Adds a rule. An existing entry with the same key keeps its place and
    /// gets the new value; otherwise the rule is appended.
    pub fn insert(&mut self, app: String, layout: String)
        requires
            old(self).wf(),
        ensures
            final(self).wf(),
            if exists|i: int| 0 <= i < old(self)@.len() && (#[trigger] old(self)@[i]).0 == app@ {
                exists|i: int|
                    0 <= i < old(self)@.len() && (#[trigger] old(self)@[i]).0 == app@
                        && final(self)@ == old(self)@.update(i, (app@, layout@))
            } else {
                final(self)@ == old(self)@.push((app@, layout@))
            },
    {
        let ghost app_view = app@;
        let ghost layout_view = layout@;
        let n = self.entries.len();
        let mut i: usize = 0;
        while i < n
            invariant
                n == self@.len(),
                0 <= i <= n,
                self.wf(),
                self@ == old(self)@,
                app_view == app@,
                layout_view == layout@,
                forall|j: int| 0 <= j < i ==> (#[trigger] self@[j]).0 != app_view,
            decreases n - i,
        {
            if str_eq(self.entries[i].app.as_str(), app.as_str()) {
                proof {
                    assert(old(self)@[i as int].0 == app_view);
                }
                self.entries.set(i, LayoutRule { app, layout });
                proof {
                    assert(self@ =~= old(self)@.update(i as int, (app_view, layout_view)));
                    assert(forall|k: int|
                        0 <= k < self@.len() ==> (#[trigger] self@[k]).0 == old(self)@[k].0);
                    assert(self.wf());
                }
                return ;
            }
            i += 1;
        }
        self.entries.push(LayoutRule { app, layout });
        proof {
            assert(self@ =~= old(self)@.push((app_view, layout_view)));
            assert(forall|k: int|
                0 <= k < old(self)@.len() ==> (#[trigger] self@[k]) == old(self)@[k]);
            assert(self@[n as int].0 == app_view);
            assert(self.wf());
        }
    }

    /// Resolves the applicable rule for the frontmost application's name:
    /// the exact key match if one exists, else the first fuzzily matching
    /// entry in insertion order.
    pub fn resolve(&self, active_app: &str) -> (r: Option<ResolvedRule>)
        ensures
            match r {
                None => spec_resolve(active_app@, self@) is None,
                Some(rr) => spec_resolve(active_app@, self@) == Some(rr@),
            },
    {
        proof {
            assert(self@.skip(0) =~= self@);
        }
        let n = self.entries.len();
        let mut i: usize = 0;
        while i < n
            invariant
                n == self@.len(),
                0 <= i <= n,
                spec_exact_resolve(active_app@, self@) == spec_exact_resolve(
                    active_app@,
                    self@.skip(i as int),
                ),
            decreases n - i,
        {
            proof {
                assert(self@.skip(i as int)[0] == self@[i as int]);
                assert(self@.skip(i as int).drop_first() =~= self@.skip(i as int + 1));
            }
            if str_eq(self.entries[i].app.as_str(), active_app) {
                return Some(
                    ResolvedRule {
                        rule_app: self.entries[i].app.clone(),
                        layout: self.entries[i].layout.clone(),
                        fuzzy: false,
                    },
                );
            }
            i += 1;
        }
        proof {
            assert(self@.skip(n as int) =~= Seq::<(Seq<char>, Seq<char>)>::empty());
        }
        let mut i: usize = 0;
        proof {
            assert(self@.skip(0) =~= self@);
        }
        while i < n
            invariant
                n == self@.len(),
                0 <= i <= n,
                spec_exact_resolve(active_app@, self@) is None,
                spec_fuzzy_resolve(active_app@, self@) == spec_fuzzy_resolve(
                    active_app@,
                    self@.skip(i as int),
                ),
            decreases n - i,
        {
            proof {
                assert(self@.skip(i as int)[0] == self@[i as int]);
                assert(self@.skip(i as int).drop_first() =~= self@.skip(i as int + 1));
            }
            let key = self.entries[i].app.as_str();
            if str_contains(active_app, key) || str_contains(key, active_app) {
                return Some(
                    ResolvedRule {
                        rule_app: self.entries[i].app.clone(),
                        layout: self.entries[i].layout.clone(),
                        fuzzy: true,
                    },
                );
            }
            i += 1;
        }
        proof {
            assert(self@.skip(n as int) =~= Seq::<(Seq<char>, Seq<char>)>::empty());
        }
        None
    }
}

/// What each outcome of exact resolution tells of the entries.
proof fn lemma_exact_resolve_props(app: Seq<char>, rs: Seq<(Seq<char>, Seq<char>)>)
    ensures
        match spec_exact_resolve(app, rs) {
            None => forall|i: int| 0 <= i < rs.len() ==> (#[trigger] rs[i]).0 != app,
            Some(p) => exists|i: int| 0 <= i < rs.len() && #[trigger] rs[i] == p && p.0 == app,
        },
    decreases rs.len(),
{
    if rs.len() == 0 {
    } else {
        let rest = rs.drop_first();
        assert(forall|i: int| 0 <= i < rest.len() ==> #[trigger] rest[i] == rs[i + 1]);
        if rs[0].0 == app {
        } else {
            lemma_exact_resolve_props(app, rest);
            match spec_exact_resolve(app, rest) {
                None => {
                    assert forall|i: int| 0 <= i < rs.len() implies (#[trigger] rs[i]).0
                        != app by {
                        if i > 0 {
                            assert(rest[i - 1] == rs[i]);
                        }
                    }
                },
                Some(p) => {
                    let j = choose|j: int| 0 <= j < rest.len() && #[trigger] rest[j] == p && p.0
                        == app;
                    assert(rs[j + 1] == p);
                },
            }
        }
    }
}

/// What each outcome of fuzzy resolution tells of the entries.
proof fn lemma_fuzzy_resolve_props(app: Seq<char>, rs: Seq<(Seq<char>, Seq<char>)>)
    ensures
        match spec_fuzzy_resolve(app, rs) {
            None => forall|i: int| 0 <= i < rs.len() ==> !is_fuzzy_pair(app, (#[trigger] rs[i]).0),
            Some(p) => exists|i: int|
                0 <= i < rs.len() && #[trigger] rs[i] == p && is_fuzzy_pair(app, p.0),
        },
    decreases rs.len(),
{
    if rs.len() == 0 {
    } else {
        let rest = rs.drop_first();
        assert(forall|i: int| 0 <= i < rest.len() ==> #[trigger] rest[i] == rs[i + 1]);
        if is_fuzzy_pair(app, rs[0].0) {
        } else {
            lemma_fuzzy_resolve_props(app, rest);
            match spec_fuzzy_resolve(app, rest) {
                None => {
                    assert forall|i: int| 0 <= i < rs.len() implies !is_fuzzy_pair(
                        app,
                        (#[trigger] rs[i]).0,
                    ) by {
                        if i > 0 {
                            assert(rest[i - 1] == rs[i]);
                        }
                    }
                },
                Some(p) => {
                    let j = choose|j: int|
                        0 <= j < rest.len() && #[trigger] rest[j] == p && is_fuzzy_pair(app, p.0);
                    assert(rs[j + 1] == p);
                },
            }
        }
    }
}

/// Exact resolution finds nothing exactly when no key equals `app`.
proof fn lemma_exact_resolve_none_iff(app: Seq<char>, rs: Seq<(Seq<char>, Seq<char>)>)
    ensures
        spec_exact_resolve(app, rs) is None <==> (forall|i: int|
            0 <= i < rs.len() ==> (#[trigger] rs[i]).0 != app),
{
    lemma_exact_resolve_props(app, rs);
}

/// Fuzzy resolution finds nothing exactly when no key substring-relates to
/// `app` in either direction.
proof fn lemma_fuzzy_resolve_none_iff(app: Seq<char>, rs: Seq<(Seq<char>, Seq<char>)>)
    ensures
        spec_fuzzy_resolve(app, rs) is None <==> (forall|i: int|
            0 <= i < rs.len() ==> !is_fuzzy_pair(app, (#[trigger] rs[i]).0)),
{
    lemma_fuzzy_resolve_props(app, rs);
}

/// With unique keys, exact resolution returns the value of the one entry
/// whose key equals `app`.
proof fn lemma_exact_resolve_at(app: Seq<char>, rs: Seq<(Seq<char>, Seq<char>)>, i: int)
    requires
        unique_keys(rs),
        0 <= i < rs.len(),
        rs[i].0 == app,
    ensures
        spec_exact_resolve(app, rs) == Some((app, rs[i].1)),
    decreases rs.len(),
{
    assert(forall|k: int|
        0 <= k < rs.drop_first().len() ==> #[trigger] rs.drop_first()[k] == rs[k + 1]);
    if i == 0 {
    } else {
        assert(rs[0].0 != app);
        assert(unique_keys(rs.drop_first()));
        lemma_exact_resolve_at(app, rs.drop_first(), i - 1);
    }
}

/// Fuzzy resolution returns the first substring-related entry.
proof fn lemma_fuzzy_resolve_at(app: Seq<char>, rs: Seq<(Seq<char>, Seq<char>)>, i: int)
    requires
        0 <= i < rs.len(),
        is_fuzzy_pair(app, rs[i].0),
        forall|j: int| 0 <= j < i ==> !is_fuzzy_pair(app, (#[trigger] rs[j]).0),
    ensures
        spec_fuzzy_resolve(app, rs) == Some(rs[i]),
    decreases rs.len(),
{
    assert(forall|k: int|
        0 <= k < rs.drop_first().len() ==> #[trigger] rs.drop_first()[k] == rs[k + 1]);
    if i == 0 {
    } else {
        assert(!is_fuzzy_pair(app, rs[0].0));
        lemma_fuzzy_resolve_at(app, rs.drop_first(), i - 1);
    }
}

/// Law: exact-key resolution takes precedence over fuzzy resolution. When
/// some entry's key equals the application name, resolution returns that
/// entry's value as a non-fuzzy match, whatever other entries would match
/// fuzzily.
pub proof fn lemma_exact_match_precedence(app: Seq<char>, rs: Seq<(Seq<char>, Seq<char>)>, i: int)
    requires
        unique_keys(rs),
        0 <= i < rs.len(),
        rs[i].0 == app,
    ensures
        spec_resolve(app, rs) == Some((app, rs[i].1, false)),
{
    lemma_exact_resolve_at(app, rs, i);
}

/// Law: fuzzy resolution matches bidirectionally. When no key equals the
/// application name, the first entry whose key is contained in the name or
/// contains it — either direction alone suffices — resolves as a fuzzy match.
pub proof fn lemma_fuzzy_bidirectional(app: Seq<char>, rs: Seq<(Seq<char>, Seq<char>)>, i: int)
    requires
        forall|j: int| 0 <= j < rs.len() ==> (#[trigger] rs[j]).0 != app,
        0 <= i < rs.len(),
        has_substring(app, rs[i].0) || has_substring(rs[i].0, app),
        forall|j: int| 0 <= j < i ==> !is_fuzzy_pair(app, (#[trigger] rs[j]).0),
    ensures
        spec_resolve(app, rs) == Some((rs[i].0, rs[i].1, true)),
{
    lemma_exact_resolve_none_iff(app, rs);
    lemma_fuzzy_resolve_at(app, rs, i);
}

/// Law: resolution yields nothing exactly when no entry's key equals the
/// application name or substring-relates to it in either direction.
pub proof fn lemma_resolve_none_iff(app: Seq<char>, rs: Seq<(Seq<char>, Seq<char>)>)
    ensures
        spec_resolve(app, rs) is None <==> (forall|i: int|
            0 <= i < rs.len() ==> (#[trigger] rs[i]).0 != app && !is_fuzzy_pair(app, rs[i].0)),
{
    lemma_exact_resolve_none_iff(app, rs);
    lemma_fuzzy_resolve_none_iff(app, rs);
}

} // verus!

//! A store of style rules keyed by strings (node names or tags).
//!
//! The store keeps at most one rule per key: adding a rule under an existing
//! key merges the new attributes into the stored rule, override-wins, rather
//! than replacing it. The store is modelled as a map from key characters to
//! attribute sets.

use vstd::prelude::*;

use crate::style_description::{spec_merge, StyleDescription};
use crate::text::str_eq;

verus! {

/// One stored rule: a key and the attribute set accumulated under it.
#[derive(Debug)]
pub struct StyleRule {
    pub key: String,
    pub style: StyleDescription,
}

/// Whether some rule in `s` carries the key `k`.
spec fn contains_rule(s: Seq<StyleRule>, k: Seq<char>) -> bool {
    exists|i: int| 0 <= i < s.len() && s[i].key@ == k
}

/// The position of the rule carrying key `k`; meaningful only when the keys
/// in `s` are distinct and one of them is `k`.
spec fn rule_index(s: Seq<StyleRule>, k: Seq<char>) -> int {
    choose|i: int| 0 <= i < s.len() && s[i].key@ == k
}

/// The rules in `s` as a map from key to attribute set.
spec fn rules_map(s: Seq<StyleRule>) -> Map<Seq<char>, StyleDescription> {
    Map::new(|k: Seq<char>| contains_rule(s, k), |k: Seq<char>| s[rule_index(s, k)].style)
}

/// A collection of style rules with pairwise distinct keys.
#[derive(Debug)]
pub struct RuleStore {
    entries: Vec<StyleRule>,
}

impl View for RuleStore {
    type V = Map<Seq<char>, StyleDescription>;

    closed spec fn view(&self) -> Map<Seq<char>, StyleDescription> {
        rules_map(self.entries@)
    }
}

impl RuleStore {
    /// Keys are pairwise distinct, so each key identifies one rule.
    pub closed spec fn wf(&self) -> bool {
        forall|i: int, j: int|
            0 <= i < j < self.entries@.len() ==> self.entries@[i].key@ != self.entries@[j].key@
    }

    /// An empty store.
    pub fn new() -> (r: Self)
        ensures
            r.wf(),
            r@ =~= Map::<Seq<char>, StyleDescription>::empty(),
    {
        RuleStore { entries: Vec::new() }
    }

    /// The position of the rule for `key`, if the store holds one.
    fn find(&self, key: &str) -> (r: Option<usize>)
        requires
            self.wf(),
        ensures
            match r {
                Some(i) => i < self.entries@.len() && self.entries@[i as int].key@ == key@,
                None => !self@.dom().contains(key@),
            },
    {
        let mut i: usize = 0;
        while i < self.entries.len()
            invariant
                i <= self.entries@.len(),
                forall|j: int| 0 <= j < i ==> self.entries@[j].key@ != key@,
            decreases self.entries@.len() - i,
        {
            if str_eq(self.entries[i].key.as_str(), key) {
                return Some(i);
            }
            i = i + 1;
        }
        None
    }

    /// Look up the rule stored for `key`.
    pub fn get(&self, key: &str) -> (r: Option<&StyleDescription>)
        requires
            self.wf(),
        ensures
            match r {
                Some(s) => self@.dom().contains(key@) && *s == self@[key@],
                None => !self@.dom().contains(key@),
            },
    {
        match self.find(key) {
            Some(i) => {
                proof {
                    let s = self.entries@;
                    assert(contains_rule(s, key@));
                    let j = rule_index(s, key@);
                    assert(0 <= j < s.len() && s[j].key@ == key@);
                    assert(j == i as int);
                }
                Some(&self.entries[i].style)
            },
            None => None,
        }
    }

    /// Add `style` under `key`: when the store already holds a rule for
    /// `key`, merge `style` into it (the new attributes win); otherwise
    /// store `style` as the initial rule for `key`.
    pub fn add(&mut self, key: &str, style: StyleDescription)
        requires
            old(self).wf(),
        ensures
            final(self).wf(),
            final(self)@ =~= old(self)@.insert(
                key@,
                if old(self)@.dom().contains(key@) {
                    spec_merge(old(self)@[key@], style)
                } else {
                    style
                },
            ),
    {
        let ghost s_old = self.entries@;
        match self.find(key) {
            Some(i) => {
                proof {
                    assert(contains_rule(s_old, key@));
                    let j = rule_index(s_old, key@);
                    assert(0 <= j < s_old.len() && s_old[j].key@ == key@);
                    assert(j == i as int);
                }
                let merged = {
                    let mut m = self.entries[i].style;
                    m.apply(&style);
                    m
                };
                self.entries[i].style = merged;
                proof {
                    let s_new = self.entries@;
                    assert(s_new[i as int].key@ == key@);
                    assert(forall|j: int|
                        0 <= j < s_new.len() && j != i as int ==> s_new[j] == s_old[j]);
                    assert(forall|j: int|
                        0 <= j < s_new.len() ==> #[trigger] s_new[j].key@ == s_old[j].key@);
                    assert forall|k: Seq<char>|
                        contains_rule(s_new, k) == contains_rule(s_old, k) by {
                        if contains_rule(s_new, k) {
                            let w = choose|w: int| 0 <= w < s_new.len() && s_new[w].key@ == k;
                            assert(s_old[w].key@ == k);
                        }
                        if contains_rule(s_old, k) {
                            let w = choose|w: int| 0 <= w < s_old.len() && s_old[w].key@ == k;
                            assert(s_new[w].key@ == k);
                        }
                    };
                    assert forall|k: Seq<char>| #[trigger]
                        rules_map(s_new).dom().contains(k) implies rules_map(s_new)[k]
                        == old(self)@.insert(key@, spec_merge(old(self)@[key@], style))[k] by {
                        let w = rule_index(s_new, k);
                        assert(0 <= w < s_new.len() && s_new[w].key@ == k);
                        let w_old = rule_index(s_old, k);
                        assert(0 <= w_old < s_old.len() && s_old[w_old].key@ == k);
                        assert(s_new[w_old].key@ == k);
                        assert(w == w_old);
                        if k == key@ {
                            assert(w == i as int);
                        } else {
                            assert(w != i as int);
                        }
                    };
                }
            },
            None => {
                let rule = StyleRule { key: key.to_owned(), style };
                self.entries.push(rule);
                proof {
                    let s_new = self.entries@;
                    let n = s_old.len() as int;
                    assert(s_new == s_old.push(rule));
                    assert(s_new[n].key@ == key@);
                    assert(forall|j: int| 0 <= j < n ==> s_new[j] == s_old[j]);
                    assert(!contains_rule(s_old, key@));
                    assert forall|j: int| 0 <= j < n implies #[trigger] s_old[j].key@ != key@ by {
                        if s_old[j].key@ == key@ {
                            assert(contains_rule(s_old, key@));
                        }
                    };
                    assert forall|k: Seq<char>| #[trigger]
                        rules_map(s_new).dom().contains(k) implies rules_map(s_new)[k]
                        == old(self)@.insert(key@, style)[k] by {
                        let w = rule_index(s_new, k);
                        assert(0 <= w < s_new.len() && s_new[w].key@ == k);
                        if k == key@ {
                            assert(w == n);
                        } else {
                            assert(w < n);
                            assert(contains_rule(s_old, k));
                            let w_old = rule_index(s_old, k);
                            assert(0 <= w_old < s_old.len() && s_old[w_old].key@ == k);
                            assert(s_new[w_old].key@ == k);
                            assert(w == w_old);
                        }
                    };
                    assert forall|k: Seq<char>|
                        contains_rule(s_old, k) || k == key@ implies contains_rule(s_new, k) by {
                        if contains_rule(s_old, k) {
                            let w = rule_index(s_old, k);
                            assert(s_new[w].key@ == k);
                        } else {
                            assert(s_new[n].key@ == k);
                        }
                    };
                }
            },
        }
    }
}

} // verus!

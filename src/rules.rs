use vstd::prelude::*;
use crate::config::CleanRule;
use crate::pattern::{pattern_compiles, pattern_matches, Pattern};

verus! {

/// A rule whose pattern compiled: the compiled pattern and the target key.
pub struct ActiveRule {
    pub pattern: Pattern,
    pub target: String,
}

impl View for ActiveRule {
    type V = (Seq<char>, Seq<char>);

    open spec fn view(&self) -> (Seq<char>, Seq<char>) {
        (self.pattern@, self.target@)
    }
}

/// The rules of a configuration, compiled once: those whose pattern compiled, in
/// their configured order, and one error message for each rule that was dropped.
pub struct RuleSet {
    pub active: Vec<ActiveRule>,
    pub errors: Vec<String>,
}

/// The (pattern, target) pairs of compiled rules.
pub open spec fn rule_views(active: Seq<ActiveRule>) -> Seq<(Seq<char>, Seq<char>)> {
    active.map_values(|a: ActiveRule| a@)
}

/// The rules that stay active: those whose pattern compiles, in order.
pub open spec fn active_rules_spec(rules: Seq<CleanRule>) -> Seq<(Seq<char>, Seq<char>)>
    decreases rules.len(),
{
    if rules.len() == 0 {
        seq![]
    } else {
        let prev = active_rules_spec(rules.drop_last());
        let last = rules.last();
        if pattern_compiles(last.pattern@) {
            prev.push((last.pattern@, last.target@))
        } else {
            prev
        }
    }
}

/// The patterns that do not compile, in order.
pub open spec fn invalid_patterns_spec(rules: Seq<CleanRule>) -> Seq<Seq<char>>
    decreases rules.len(),
{
    if rules.len() == 0 {
        seq![]
    } else {
        let prev = invalid_patterns_spec(rules.drop_last());
        let last = rules.last();
        if pattern_compiles(last.pattern@) {
            prev
        } else {
            prev.push(last.pattern@)
        }
    }
}

/// The message recorded for a pattern that does not compile.
pub open spec fn invalid_pattern_message(pattern: Seq<char>, reason: Seq<char>) -> Seq<char> {
    "Invalid regex pattern '"@ + pattern + "': "@ + reason
}

/// `msg` is the message recorded for `pattern`, whatever reason the engine gave.
pub open spec fn is_invalid_pattern_message(msg: Seq<char>, pattern: Seq<char>) -> bool {
    exists|reason: Seq<char>| msg == invalid_pattern_message(pattern, reason)
}

/// `k` is the first rule whose pattern matches `name`.
pub open spec fn first_match_at(rules: Seq<(Seq<char>, Seq<char>)>, name: Seq<char>, k: int) -> bool {
    &&& 0 <= k < rules.len()
    &&& pattern_matches(rules[k].0, name)
    &&& forall|j: int| 0 <= j < k ==> !pattern_matches(#[trigger] rules[j].0, name)
}

/// The rule selected for `name`: the first, in configured order, whose pattern matches.
pub open spec fn selected_rule(rules: Seq<(Seq<char>, Seq<char>)>, name: Seq<char>) -> Option<int> {
    if exists|k: int| first_match_at(rules, name, k) {
        Some(choose|k: int| first_match_at(rules, name, k))
    } else {
        None
    }
}

/// There is at most one first match.
pub proof fn lemma_first_match_unique(rules: Seq<(Seq<char>, Seq<char>)>, name: Seq<char>, i: int, k: int)
    requires
        first_match_at(rules, name, i),
        first_match_at(rules, name, k),
    ensures
        i == k,
{
    if i < k {
        assert(!pattern_matches(rules[i].0, name));
    } else if k < i {
        assert(!pattern_matches(rules[k].0, name));
    }
}

impl RuleSet {
    pub open spec fn rules_view(&self) -> Seq<(Seq<char>, Seq<char>)> {
        rule_views(self.active@)
    }

    /// Compiles each rule's pattern. A rule whose pattern does not compile is
    /// dropped and reported; the others keep their order.
    pub fn compile(rules: &Vec<CleanRule>) -> (r: RuleSet)
        ensures
            r.rules_view() == active_rules_spec(rules@),
            r.errors@.len() == invalid_patterns_spec(rules@).len(),
            forall|k: int|
                0 <= k < r.errors@.len() ==> is_invalid_pattern_message(
                    #[trigger] r.errors@[k]@,
                    invalid_patterns_spec(rules@)[k],
                ),
    {
        let mut active: Vec<ActiveRule> = Vec::new();
        let mut errors: Vec<String> = Vec::new();
        let ghost mut reasons: Seq<Seq<char>> = seq![];
        let mut i: usize = 0;
        while i < rules.len()
            invariant
                i <= rules@.len(),
                rule_views(active@) == active_rules_spec(rules@.take(i as int)),
                errors@.len() == invalid_patterns_spec(rules@.take(i as int)).len(),
                reasons.len() == errors@.len(),
                forall|k: int|
                    0 <= k < errors@.len() ==> #[trigger] errors@[k]@ == invalid_pattern_message(
                        invalid_patterns_spec(rules@.take(i as int))[k],
                        reasons[k],
                    ),
            decreases rules@.len() - i,
        {
            let rule = &rules[i];
            proof {
                assert(rules@.take(i as int + 1).drop_last() =~= rules@.take(i as int));
                assert(rules@.take(i as int + 1).last() == rules@[i as int]);
            }
            let ghost old_errors = errors@;
            match Pattern::compile(rule.pattern.as_str()) {
                Ok(p) => {
                    let a = ActiveRule { pattern: p, target: rule.target.clone() };
                    proof {
                        assert(rule_views(active@.push(a)) =~= rule_views(active@).push(a@));
                    }
                    active.push(a);
                },
                Err(reason) => {
                    let mut msg = String::from_str("Invalid regex pattern '");
                    msg.append(rule.pattern.as_str());
                    msg.append("': ");
                    msg.append(reason.as_str());
                    let ghost pats = invalid_patterns_spec(rules@.take(i as int + 1));
                    proof {
                        assert(pats == invalid_patterns_spec(rules@.take(i as int)).push(rule.pattern@));
                        reasons = reasons.push(reason@);
                    }
                    errors.push(msg);
                    proof {
                        assert forall|k: int| 0 <= k < errors@.len() implies
                            #[trigger] errors@[k]@ == invalid_pattern_message(pats[k], reasons[k]) by {
                            if k < old_errors.len() {
                                assert(errors@[k] == old_errors[k]);
                            }
                        }
                    }
                },
            }
            i += 1;
        }
        proof {
            assert(rules@.take(rules@.len() as int) =~= rules@);
        }
        let r = RuleSet { active, errors };
        proof {
            assert forall|k: int| 0 <= k < r.errors@.len() implies is_invalid_pattern_message(
                #[trigger] r.errors@[k]@, invalid_patterns_spec(rules@)[k]) by {
                assert(r.errors@[k]@ == invalid_pattern_message(invalid_patterns_spec(rules@)[k], reasons[k]));
            }
        }
        r
    }

    /// The index of the rule selected for `name`. Rules after the first match are not tried.
    pub fn select(&self, name: &str) -> (r: Option<usize>)
        ensures
            match r {
                Some(k) => selected_rule(self.rules_view(), name@) == Some(k as int),
                None => selected_rule(self.rules_view(), name@) is None,
            },
    {
        let ghost rules = self.rules_view();
        let mut i: usize = 0;
        while i < self.active.len()
            invariant
                rules == self.rules_view(),
                rules.len() == self.active@.len(),
                i <= rules.len(),
                forall|j: int| 0 <= j < i ==> !pattern_matches(#[trigger] rules[j].0, name@),
            decreases self.active@.len() - i,
        {
            if self.active[i].pattern.is_match(name) {
                proof {
                    assert(first_match_at(rules, name@, i as int));
                    let k = choose|k: int| first_match_at(rules, name@, k);
                    lemma_first_match_unique(rules, name@, i as int, k);
                }
                return Some(i);
            }
            i += 1;
        }
        None
    }
}

} // verus!

//! The rule-matching engine.
//!
//! A [`Rule`] binds an exact executable name, and optionally an owning
//! principal, to the scheduling fields it sets. [`Config::find_rules`]
//! returns the ordered subsequence of configured rules that apply to a
//! process; [`effective_settings`] folds those rules field-wise, later
//! rules winning on a field only when they set it.

use vstd::prelude::*;

use crate::policy::{Parameters, SchedulingPolicy};

verus! {

/// One configured scheduling rule.
pub struct Rule {
    /// The executable name the rule applies to, compared exactly and
    /// case-sensitively.
    pub match_name: String,
    /// The principal name the process must be owned by, or `None` for any
    /// owner.
    pub owner: Option<String>,
    /// The niceness the rule sets, if any.
    pub priority: Option<i32>,
    /// The scheduling policy and parameters the rule sets, if any.
    pub policy: Option<(SchedulingPolicy, Parameters)>,
}

impl Clone for Rule {
    /// An equal rule.
    fn clone(&self) -> (r: Self)
        ensures
            r == *self,
    {
        Rule {
            match_name: self.match_name.clone(),
            owner: match &self.owner {
                Some(name) => Some(name.clone()),
                None => None,
            },
            priority: self.priority,
            policy: self.policy,
        }
    }
}

/// One entry of the principal snapshot: a numeric user id and the
/// principal name it carries.
pub struct Principal {
    /// The numeric user id.
    pub uid: u32,
    /// The principal's name.
    pub name: String,
}

/// The user id a principal name resolves to against a snapshot: the id of
/// the first entry carrying that name, or `None` when no entry does.
pub open spec fn resolve_name_from(snapshot: Seq<Principal>, i: int, name: Seq<char>) -> Option<
    u32,
>
    decreases snapshot.len() - i,
{
    if i < 0 || i >= snapshot.len() {
        None
    } else if snapshot[i].name@ == name {
        Some(snapshot[i].uid)
    } else {
        resolve_name_from(snapshot, i + 1, name)
    }
}

/// The user id a principal name resolves to against a snapshot.
pub open spec fn resolve_name(snapshot: Seq<Principal>, name: Seq<char>) -> Option<u32> {
    resolve_name_from(snapshot, 0, name)
}

/// Looks a principal name up in the snapshot, yielding the user id of the
/// first entry with that name.
pub fn resolve(snapshot: &Vec<Principal>, name: &String) -> (r: Option<u32>)
    ensures
        r == resolve_name(snapshot@, name@),
{
    let mut i: usize = 0;
    while i < snapshot.len()
        invariant
            i <= snapshot@.len(),
            resolve_name_from(snapshot@, i as int, name@) == resolve_name(snapshot@, name@),
        decreases snapshot@.len() - i,
    {
        if snapshot[i].name == *name {
            return Some(snapshot[i].uid);
        }
        i = i + 1;
    }
    None
}

/// Whether a rule applies to a process: the executable names are equal,
/// and either the rule constrains no owner or its principal constraint
/// resolves against the snapshot to exactly the process's owner id.
pub open spec fn rule_matches(
    rule: Rule,
    name: Seq<char>,
    owner_uid: u32,
    snapshot: Seq<Principal>,
) -> bool {
    &&& rule.match_name@ == name
    &&& match rule.owner {
        None => true,
        Some(owner) => resolve_name(snapshot, owner@) == Some(owner_uid),
    }
}

/// The configured rule set, in declaration order, with the modification
/// time of the file it was loaded from.
pub struct Config {
    /// The rules, in declaration order.
    pub rules: Vec<Rule>,
    /// When the loaded file was last modified, in whole seconds, where the
    /// loader knew it.
    pub mtime: Option<i64>,
}

impl Config {
    /// The ordered subsequence of configured rules that apply to a process
    /// with executable name `name` owned by `owner_uid`, owner constraints
    /// resolved against `snapshot`.
    pub fn find_rules(&self, name: &String, owner_uid: u32, snapshot: &Vec<Principal>) -> (r: Vec<
        Rule,
    >)
        ensures
            r@ == self.rules@.filter(
                |rule: Rule| rule_matches(rule, name@, owner_uid, snapshot@),
            ),
    {
        let ghost pred = |rule: Rule| rule_matches(rule, name@, owner_uid, snapshot@);
        let mut r: Vec<Rule> = Vec::new();
        let mut i: usize = 0;
        while i < self.rules.len()
            invariant
                i <= self.rules@.len(),
                pred == (|rule: Rule| rule_matches(rule, name@, owner_uid, snapshot@)),
                r@ == self.rules@.take(i as int).filter(pred),
            decreases self.rules@.len() - i,
        {
            let rule = &self.rules[i];
            let name_ok = rule.match_name == *name;
            let owner_ok = match &rule.owner {
                None => true,
                Some(owner) => match resolve(snapshot, owner) {
                    Some(uid) => uid == owner_uid,
                    None => false,
                },
            };
            if name_ok && owner_ok {
                r.push(rule.clone());
            }
            proof {
                let prefix = self.rules@.take(i as int);
                assert(self.rules@.take(i + 1).drop_last() =~= prefix);
                assert(self.rules@.take(i + 1).last() == self.rules@[i as int]);
                reveal(Seq::filter);
            }
            i = i + 1;
        }
        proof {
            assert(self.rules@.take(self.rules@.len() as int) =~= self.rules@);
        }
        r
    }
}

/// The scheduling fields a sequence of applied rules leaves a process
/// with: each field independently carries the value of the last rule that
/// set it.
pub struct Settings {
    /// The niceness of the last rule that set one, if any did.
    pub priority: Option<i32>,
    /// The policy of the last rule that set one, if any did.
    pub policy: Option<(SchedulingPolicy, Parameters)>,
}

/// The niceness the last rule that sets one leaves behind.
pub open spec fn last_priority(rules: Seq<Rule>) -> Option<i32>
    decreases rules.len(),
{
    if rules.len() == 0 {
        None
    } else if rules.last().priority is Some {
        rules.last().priority
    } else {
        last_priority(rules.drop_last())
    }
}

/// The policy the last rule that sets one leaves behind.
pub open spec fn last_policy(rules: Seq<Rule>) -> Option<(SchedulingPolicy, Parameters)>
    decreases rules.len(),
{
    if rules.len() == 0 {
        None
    } else if rules.last().policy is Some {
        rules.last().policy
    } else {
        last_policy(rules.drop_last())
    }
}

/// Folds a sequence of rules, applied in order, into the settings they
/// leave behind. Each field (niceness, policy) is applied independently
/// and an unset field is a no-op, so a later rule overrides an earlier one
/// only for the fields it explicitly sets; an unset field never clobbers
/// an earlier rule's effect.
pub fn effective_settings(rules: &Vec<Rule>) -> (s: Settings)
    ensures
        s.priority == last_priority(rules@),
        s.policy == last_policy(rules@),
{
    let mut priority: Option<i32> = None;
    let mut policy: Option<(SchedulingPolicy, Parameters)> = None;
    let mut i: usize = 0;
    while i < rules.len()
        invariant
            i <= rules@.len(),
            priority == last_priority(rules@.take(i as int)),
            policy == last_policy(rules@.take(i as int)),
        decreases rules@.len() - i,
    {
        proof {
            assert(rules@.take(i + 1).drop_last() =~= rules@.take(i as int));
            assert(rules@.take(i + 1).last() == rules@[i as int]);
        }
        if let Some(n) = rules[i].priority {
            priority = Some(n);
        }
        if let Some(p) = rules[i].policy {
            policy = Some(p);
        }
        i = i + 1;
    }
    proof {
        assert(rules@.take(rules@.len() as int) =~= rules@);
    }
    Settings { priority, policy }
}

/// A rule overrides an earlier effect only on the fields it sets: applied
/// after any rules, a rule that sets no niceness leaves the niceness fold
/// unchanged, and one that sets a niceness makes it the fold's value —
/// and the same for the policy field. The two fields never affect each
/// other.
pub proof fn lemma_fields_independent(rules: Seq<Rule>, rule: Rule)
    ensures
        rule.priority is None ==> last_priority(rules.push(rule)) == last_priority(rules),
        rule.priority is Some ==> last_priority(rules.push(rule)) == rule.priority,
        rule.policy is None ==> last_policy(rules.push(rule)) == last_policy(rules),
        rule.policy is Some ==> last_policy(rules.push(rule)) == rule.policy,
{
    assert(rules.push(rule).drop_last() =~= rules);
    assert(rules.push(rule).last() == rule);
}

/// Whether the configuration should be reloaded: only when a modification
/// time was known at load and the file's current modification time is
/// strictly newer.
pub fn should_reload(loaded_mtime: Option<i64>, current_mtime: i64) -> (b: bool)
    ensures
        b == (loaded_mtime matches Some(t) && t < current_mtime),
{
    match loaded_mtime {
        Some(t) => t < current_mtime,
        None => false,
    }
}

} // verus!

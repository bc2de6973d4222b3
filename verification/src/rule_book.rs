//! The rules of one pane: the edits of the rule editor, the in-session trigger log
//! and the per-rule cooldown.

use vstd::prelude::*;

use std::collections::HashMap;

use crate::rules::{
    fresh_condition_spec, first_toast_from, set_paper_percent, set_toast_message, upsert_action,
    upsert_spec, with_compare_direction, with_cross_direction, with_paper_percent, with_threshold,
    CompareDirection, ConditionKind, CrossDirection, EvaluationMode, RuleAction, RuleCondition,
    RuleSpec,
};

verus! {

broadcast use vstd::std_specs::hash::group_hash_axioms;

/// The most entries the trigger log of a pane keeps.
pub const RULE_LOG_CAP: usize = 1000;

/// The most notifications a pane keeps.
pub const NOTIFICATION_CAP: usize = 200;

/// The last `cap` elements of `s` (all of them when there are fewer).
pub open spec fn keep_last<T>(s: Seq<T>, cap: nat) -> Seq<T> {
    if s.len() > cap {
        s.skip(s.len() - cap)
    } else {
        s
    }
}

/// Appends `x` to `v`, then drops the oldest elements beyond `cap`.
pub fn push_capped<T>(v: &mut Vec<T>, x: T, cap: usize)
    ensures
        final(v)@ == keep_last(old(v)@.push(x), cap as nat),
{
    v.push(x);
    if v.len() > cap {
        let drop = v.len() - cap;
        let tail = v.split_off(drop);
        *v = tail;
    }
}

/// One line of the trigger log.
#[derive(Debug, Clone)]
pub struct RuleLogEntry {
    /// Local wall-clock time of the firing, as HH:MM:SS.
    pub time_hms: String,
    pub rule_id: u128,
    pub rule_name: String,
    pub message: String,
}

/// The position of the first rule with identifier `id` at or after `i`.
pub open spec fn first_with_id(s: Seq<RuleSpec>, id: u128, i: int) -> Option<int>
    decreases s.len() - i,
{
    if i < 0 || i >= s.len() {
        None
    } else if s[i].id == id {
        Some(i)
    } else {
        first_with_id(s, id, i + 1)
    }
}

/// `s` without its rules with identifier `id`, in order.
pub open spec fn without_id(s: Seq<RuleSpec>, id: u128) -> Seq<RuleSpec>
    decreases s.len(),
{
    if s.len() == 0 {
        s
    } else if s.last().id == id {
        without_id(s.drop_last(), id)
    } else {
        without_id(s.drop_last(), id).push(s.last())
    }
}

/// `new` differs from `old` at most at position `i`.
pub open spec fn edited_at(old: Seq<RuleSpec>, new: Seq<RuleSpec>, i: int) -> bool {
    &&& new.len() == old.len()
    &&& 0 <= i < old.len()
    &&& forall|j: int| 0 <= j < old.len() && j != i ==> #[trigger] new[j] == old[j]
}

/// Rules `a` and `b` agree on every field but their actions.
pub open spec fn same_but_actions(a: RuleSpec, b: RuleSpec) -> bool {
    &&& a.id == b.id
    &&& a.name == b.name
    &&& a.enabled == b.enabled
    &&& a.evaluation == b.evaluation
    &&& a.condition == b.condition
    &&& a.cooldown_ms == b.cooldown_ms
}

/// Rules `a` and `b` agree on every field but their condition.
pub open spec fn same_but_condition(a: RuleSpec, b: RuleSpec) -> bool {
    &&& a.id == b.id
    &&& a.name == b.name
    &&& a.enabled == b.enabled
    &&& a.evaluation == b.evaluation
    &&& a.actions == b.actions
    &&& a.cooldown_ms == b.cooldown_ms
}

/// Whether `r` is a rule as the editor creates it.
pub open spec fn is_fresh_rule(r: RuleSpec) -> bool {
    &&& r.name@ == "New rule"@
    &&& r.enabled
    &&& r.evaluation == EvaluationMode::OnTick
    &&& r.condition == (RuleCondition::MovingAverageCross { direction: CrossDirection::CrossUp })
    &&& r.actions@.len() == 1
    &&& r.actions@[0] matches RuleAction::Toast { message } && message@ == "Rule triggered"@
    &&& r.cooldown_ms == 1000
    &&& crate::ids::is_v4_id(r.id)
}

/// Whether a rule with this cooldown, last fired as `last` says, may fire at `now`:
/// always without a cooldown or an earlier firing, otherwise once `cooldown_ms`
/// milliseconds have passed (no time passes when `now` is before the last firing).
pub open spec fn cooldown_open(last: Map<u128, u64>, id: u128, cooldown_ms: u64, now: u64) -> bool {
    cooldown_ms == 0 || !last.contains_key(id) || (if now >= last[id] {
        now - last[id]
    } else {
        0
    }) >= cooldown_ms
}

/// The rules of one pane, which rule card the editor has open, the trigger log and
/// when each rule last fired.
pub struct RuleBook {
    pub rules: Vec<RuleSpec>,
    pub rules_expanded: Option<u128>,
    pub rule_log: Vec<RuleLogEntry>,
    /// When each rule last fired, by rule identifier.
    pub last_fired_ms: HashMap<u128, u64>,
}

impl RuleBook {
    /// When each rule last fired (or was let through with no cooldown).
    pub open spec fn last_fired(&self) -> Map<u128, u64> {
        self.last_fired_ms@
    }

    /// A pane's rule book holding `rules`, with no card open, an empty log and no
    /// firing recorded.
    pub fn new(rules: Vec<RuleSpec>) -> (r: RuleBook)
        ensures
            r.rules == rules,
            r.rules_expanded is None,
            r.rule_log@.len() == 0,
            r.last_fired() == Map::<u128, u64>::empty(),
    {
        RuleBook {
            rules,
            rules_expanded: None,
            rule_log: Vec::new(),
            last_fired_ms: HashMap::new(),
        }
    }

    /// The position of the first rule with identifier `id`.
    pub fn position(&self, id: u128) -> (r: Option<usize>)
        ensures
            match r {
                Some(i) => first_with_id(self.rules@, id, 0) == Some(i as int),
                None => first_with_id(self.rules@, id, 0) is None,
            },
            r matches Some(i) ==> i < self.rules@.len() && self.rules@[i as int].id == id,
    {
        let n = self.rules.len();
        for i in 0..n
            invariant
                n == self.rules@.len(),
                first_with_id(self.rules@, id, 0) == first_with_id(self.rules@, id, i as int),
        {
            if self.rules[i].id == id {
                return Some(i);
            }
        }
        None
    }

    /// Adds a new rule at the end.
    pub fn add_rule(&mut self)
        ensures
            final(self).rules@.len() == old(self).rules@.len() + 1,
            final(self).rules@.drop_last() == old(self).rules@,
            is_fresh_rule(final(self).rules@.last()),
            final(self).rules_expanded == old(self).rules_expanded,
            final(self).rule_log == old(self).rule_log,
            final(self).last_fired() == old(self).last_fired(),
    {
        self.rules.push(RuleSpec::new_default());
        assert(self.rules@.drop_last() == old(self).rules@);
    }

    /// Adds a new rule at the end and opens its card; the caller then shows the
    /// rules editor.
    pub fn add_rule_and_open(&mut self)
        ensures
            final(self).rules@.len() == old(self).rules@.len() + 1,
            final(self).rules@.drop_last() == old(self).rules@,
            is_fresh_rule(final(self).rules@.last()),
            final(self).rules_expanded == Some(final(self).rules@.last().id),
            final(self).rule_log == old(self).rule_log,
            final(self).last_fired() == old(self).last_fired(),
    {
        let rule = RuleSpec::new_default();
        let id = rule.id;
        self.rules.push(rule);
        self.rules_expanded = Some(id);
        assert(self.rules@.drop_last() == old(self).rules@);
    }

    /// Deletes every rule with identifier `id`, and closes its card if it was open.
    pub fn delete_rule(&mut self, id: u128)
        ensures
            final(self).rules@ == without_id(old(self).rules@, id),
            final(self).rules_expanded == (if old(self).rules_expanded == Some(id) {
                None
            } else {
                old(self).rules_expanded
            }),
            final(self).rule_log == old(self).rule_log,
            final(self).last_fired() == old(self).last_fired(),
    {
        let ghost orig = self.rules@;
        let mut i: usize = 0;
        let ghost mut j: int = 0;
        while i < self.rules.len()
            invariant
                0 <= j <= orig.len(),
                i as int == without_id(orig.take(j), id).len(),
                self.rules@ == without_id(orig.take(j), id) + orig.skip(j),
                self.rules_expanded == old(self).rules_expanded,
                self.rule_log == old(self).rule_log,
                self.last_fired() == old(self).last_fired(),
            decreases orig.len() - j,
        {
            proof {
                assert(orig.skip(j).len() > 0);
                assert(self.rules@[i as int] == orig[j]);
                assert(orig.take(j + 1).drop_last() == orig.take(j));
                assert(orig.take(j + 1).last() == orig[j]);
                assert(orig.skip(j) == seq![orig[j]] + orig.skip(j + 1));
            }
            if self.rules[i].id == id {
                self.rules.remove(i);
                proof {
                    assert(self.rules@ == without_id(orig.take(j + 1), id) + orig.skip(j + 1));
                    j = j + 1;
                }
            } else {
                proof {
                    assert(without_id(orig.take(j + 1), id) == without_id(orig.take(j), id).push(
                        orig[j],
                    ));
                    assert(self.rules@ == without_id(orig.take(j + 1), id) + orig.skip(j + 1));
                    j = j + 1;
                }
                i = i + 1;
            }
        }
        proof {
            assert(orig.skip(j).len() == 0);
            assert(orig.take(j) == orig);
            assert(self.rules@ == without_id(orig, id));
        }
        if self.rules_expanded == Some(id) {
            self.rules_expanded = None;
        }
    }

    /// Opens the card of rule `id`, or closes it if it is the open one.
    pub fn toggle_rule_card(&mut self, id: u128)
        ensures
            final(self).rules_expanded == (if old(self).rules_expanded == Some(id) {
                None
            } else {
                Some(id)
            }),
            final(self).rules == old(self).rules,
            final(self).rule_log == old(self).rule_log,
            final(self).last_fired() == old(self).last_fired(),
    {
        self.rules_expanded = if self.rules_expanded == Some(id) {
            None
        } else {
            Some(id)
        };
    }

    /// Switches the first rule with identifier `id` on or off.
    pub fn set_rule_enabled(&mut self, id: u128, enabled: bool)
        ensures
            match first_with_id(old(self).rules@, id, 0) {
                Some(i) => {
                    &&& edited_at(old(self).rules@, final(self).rules@, i)
                    &&& final(self).rules@[i] == (RuleSpec { enabled, ..old(self).rules@[i] })
                },
                None => final(self).rules@ == old(self).rules@,
            },
            final(self).rules_expanded == old(self).rules_expanded,
            final(self).rule_log == old(self).rule_log,
            final(self).last_fired() == old(self).last_fired(),
    {
        if let Some(i) = self.position(id) {
            let r = &mut self.rules[i];
            r.enabled = enabled;
        }
    }

    /// Renames the first rule with identifier `id`.
    pub fn rename_rule(&mut self, id: u128, name: String)
        ensures
            match first_with_id(old(self).rules@, id, 0) {
                Some(i) => {
                    &&& edited_at(old(self).rules@, final(self).rules@, i)
                    &&& final(self).rules@[i] == (RuleSpec { name, ..old(self).rules@[i] })
                },
                None => final(self).rules@ == old(self).rules@,
            },
            final(self).rules_expanded == old(self).rules_expanded,
            final(self).rule_log == old(self).rule_log,
            final(self).last_fired() == old(self).last_fired(),
    {
        if let Some(i) = self.position(id) {
            let r = &mut self.rules[i];
            r.name = name;
        }
    }

    /// Sets how often the first rule with identifier `id` is evaluated.
    pub fn set_rule_evaluation(&mut self, id: u128, evaluation: EvaluationMode)
        ensures
            match first_with_id(old(self).rules@, id, 0) {
                Some(i) => {
                    &&& edited_at(old(self).rules@, final(self).rules@, i)
                    &&& final(self).rules@[i] == (RuleSpec { evaluation, ..old(self).rules@[i] })
                },
                None => final(self).rules@ == old(self).rules@,
            },
            final(self).rules_expanded == old(self).rules_expanded,
            final(self).rule_log == old(self).rule_log,
            final(self).last_fired() == old(self).last_fired(),
    {
        if let Some(i) = self.position(id) {
            let r = &mut self.rules[i];
            r.evaluation = evaluation;
        }
    }

    /// Switches the first rule with identifier `id` to a fresh condition of kind `k`.
    pub fn set_rule_condition_kind(&mut self, id: u128, k: ConditionKind)
        ensures
            match first_with_id(old(self).rules@, id, 0) {
                Some(i) => {
                    &&& edited_at(old(self).rules@, final(self).rules@, i)
                    &&& same_but_condition(final(self).rules@[i], old(self).rules@[i])
                    &&& final(self).rules@[i].condition == fresh_condition_spec(k)
                },
                None => final(self).rules@ == old(self).rules@,
            },
            final(self).rules_expanded == old(self).rules_expanded,
            final(self).rule_log == old(self).rule_log,
            final(self).last_fired() == old(self).last_fired(),
    {
        if let Some(i) = self.position(id) {
            let r = &mut self.rules[i];
            r.condition = RuleCondition::fresh(k);
        }
    }

    /// Sets the crossing direction of the first rule with identifier `id`, where its
    /// condition has one.
    pub fn set_rule_cross_direction(&mut self, id: u128, d: CrossDirection)
        ensures
            match first_with_id(old(self).rules@, id, 0) {
                Some(i) => {
                    &&& edited_at(old(self).rules@, final(self).rules@, i)
                    &&& same_but_condition(final(self).rules@[i], old(self).rules@[i])
                    &&& final(self).rules@[i].condition == with_cross_direction(
                        old(self).rules@[i].condition,
                        d,
                    )
                },
                None => final(self).rules@ == old(self).rules@,
            },
            final(self).rules_expanded == old(self).rules_expanded,
            final(self).rule_log == old(self).rule_log,
            final(self).last_fired() == old(self).last_fired(),
    {
        if let Some(i) = self.position(id) {
            let r = &mut self.rules[i];
            r.condition.set_cross_direction(d);
        }
    }

    /// Sets the comparison direction of the first rule with identifier `id`, where
    /// its condition has one.
    pub fn set_rule_compare_direction(&mut self, id: u128, d: CompareDirection)
        ensures
            match first_with_id(old(self).rules@, id, 0) {
                Some(i) => {
                    &&& edited_at(old(self).rules@, final(self).rules@, i)
                    &&& same_but_condition(final(self).rules@[i], old(self).rules@[i])
                    &&& final(self).rules@[i].condition == with_compare_direction(
                        old(self).rules@[i].condition,
                        d,
                    )
                },
                None => final(self).rules@ == old(self).rules@,
            },
            final(self).rules_expanded == old(self).rules_expanded,
            final(self).rule_log == old(self).rule_log,
            final(self).last_fired() == old(self).last_fired(),
    {
        if let Some(i) = self.position(id) {
            let r = &mut self.rules[i];
            r.condition.set_compare_direction(d);
        }
    }

    /// Sets the threshold (an `f32` bit pattern) of the first rule with identifier
    /// `id`, where its condition has one.
    pub fn set_rule_threshold(&mut self, id: u128, v: u32)
        ensures
            match first_with_id(old(self).rules@, id, 0) {
                Some(i) => {
                    &&& edited_at(old(self).rules@, final(self).rules@, i)
                    &&& same_but_condition(final(self).rules@[i], old(self).rules@[i])
                    &&& final(self).rules@[i].condition == with_threshold(
                        old(self).rules@[i].condition,
                        v,
                    )
                },
                None => final(self).rules@ == old(self).rules@,
            },
            final(self).rules_expanded == old(self).rules_expanded,
            final(self).rule_log == old(self).rule_log,
            final(self).last_fired() == old(self).last_fired(),
    {
        if let Some(i) = self.position(id) {
            let r = &mut self.rules[i];
            r.condition.set_threshold(v);
        }
    }

    /// Switches the kind of `action` on or off for the first rule with identifier
    /// `id` (see `upsert_action`).
    pub fn toggle_rule_action(&mut self, id: u128, action: RuleAction, enabled: bool)
        ensures
            match first_with_id(old(self).rules@, id, 0) {
                Some(i) => {
                    &&& edited_at(old(self).rules@, final(self).rules@, i)
                    &&& same_but_actions(final(self).rules@[i], old(self).rules@[i])
                    &&& final(self).rules@[i].actions@ == upsert_spec(
                        old(self).rules@[i].actions@,
                        action,
                        enabled,
                    )
                },
                None => final(self).rules@ == old(self).rules@,
            },
            final(self).rules_expanded == old(self).rules_expanded,
            final(self).rule_log == old(self).rule_log,
            final(self).last_fired() == old(self).last_fired(),
    {
        if let Some(i) = self.position(id) {
            upsert_action(&mut self.rules[i], action, enabled);
        }
    }

    /// Sets the toast message of the first rule with identifier `id` (see
    /// `set_toast_message`).
    pub fn set_rule_toast_message(&mut self, id: u128, msg: String)
        ensures
            match first_with_id(old(self).rules@, id, 0) {
                Some(i) => {
                    &&& edited_at(old(self).rules@, final(self).rules@, i)
                    &&& same_but_actions(final(self).rules@[i], old(self).rules@[i])
                    &&& final(self).rules@[i].actions@ == match first_toast_from(
                        old(self).rules@[i].actions@,
                        0,
                    ) {
                        Some(t) => old(self).rules@[i].actions@.update(
                            t,
                            RuleAction::Toast { message: msg },
                        ),
                        None => old(self).rules@[i].actions@.push(
                            RuleAction::Toast { message: msg },
                        ),
                    }
                },
                None => final(self).rules@ == old(self).rules@,
            },
            final(self).rules_expanded == old(self).rules_expanded,
            final(self).rule_log == old(self).rule_log,
            final(self).last_fired() == old(self).last_fired(),
    {
        if let Some(i) = self.position(id) {
            set_toast_message(&mut self.rules[i], msg);
        }
    }

    /// Sets the share of every paper trade of the first rule with identifier `id`.
    pub fn set_rule_paper_percent(&mut self, id: u128, pct: u32)
        ensures
            match first_with_id(old(self).rules@, id, 0) {
                Some(i) => {
                    &&& edited_at(old(self).rules@, final(self).rules@, i)
                    &&& same_but_actions(final(self).rules@[i], old(self).rules@[i])
                    &&& final(self).rules@[i].actions@ == with_paper_percent(
                        old(self).rules@[i].actions@,
                        pct,
                    )
                },
                None => final(self).rules@ == old(self).rules@,
            },
            final(self).rules_expanded == old(self).rules_expanded,
            final(self).rule_log == old(self).rule_log,
            final(self).last_fired() == old(self).last_fired(),
    {
        if let Some(i) = self.position(id) {
            set_paper_percent(&mut self.rules[i], pct);
        }
    }

    /// Empties the trigger log.
    pub fn clear_rule_log(&mut self)
        ensures
            final(self).rule_log@.len() == 0,
            final(self).rules == old(self).rules,
            final(self).rules_expanded == old(self).rules_expanded,
            final(self).last_fired() == old(self).last_fired(),
    {
        self.rule_log.clear();
    }

    /// Appends a log line for `rule`, stamped `time_hms`, keeping the newest
    /// `RULE_LOG_CAP` lines.
    pub fn push_rule_log_at(&mut self, time_hms: String, rule: &RuleSpec, message: String)
        ensures
            final(self).rule_log@ == keep_last(
                old(self).rule_log@.push(final(self).rule_log@.last()),
                RULE_LOG_CAP as nat,
            ),
            final(self).rule_log@.len() > 0,
            final(self).rule_log@.last().time_hms == time_hms,
            final(self).rule_log@.last().rule_id == rule.id,
            final(self).rule_log@.last().rule_name@ == rule.name@,
            final(self).rule_log@.last().message == message,
            final(self).rules == old(self).rules,
            final(self).rules_expanded == old(self).rules_expanded,
            final(self).last_fired() == old(self).last_fired(),
    {
        let entry = RuleLogEntry {
            time_hms,
            rule_id: rule.id,
            rule_name: rule.name.clone(),
            message,
        };
        let ghost e = entry;
        push_capped(&mut self.rule_log, entry, RULE_LOG_CAP);
        assert(self.rule_log@.last() == e);
    }

    /// Appends a log line for `rule`, stamped with the current local time, keeping
    /// the newest `RULE_LOG_CAP` lines.
    pub fn push_rule_log(&mut self, rule: &RuleSpec, message: String)
        ensures
            final(self).rule_log@ == keep_last(
                old(self).rule_log@.push(final(self).rule_log@.last()),
                RULE_LOG_CAP as nat,
            ),
            final(self).rule_log@.len() > 0,
            crate::clock::is_hms(final(self).rule_log@.last().time_hms@),
            final(self).rule_log@.last().rule_id == rule.id,
            final(self).rule_log@.last().rule_name@ == rule.name@,
            final(self).rule_log@.last().message == message,
            final(self).rules == old(self).rules,
            final(self).rules_expanded == old(self).rules_expanded,
            final(self).last_fired() == old(self).last_fired(),
    {
        let time_hms = crate::clock::local_time_hms();
        self.push_rule_log_at(time_hms, rule, message);
    }

    /// Whether `rule` may fire at `now_ms` under its cooldown. When it may, the
    /// firing is recorded; a rule without cooldown is always let through and
    /// recorded too.
    pub fn cooldown_allows(&mut self, rule: &RuleSpec, now_ms: u64) -> (r: bool)
        ensures
            r == cooldown_open(old(self).last_fired(), rule.id, rule.cooldown_ms, now_ms),
            final(self).last_fired() == (if r {
                old(self).last_fired().insert(rule.id, now_ms)
            } else {
                old(self).last_fired()
            }),
            final(self).rules == old(self).rules,
            final(self).rules_expanded == old(self).rules_expanded,
            final(self).rule_log == old(self).rule_log,
    {
        self.cooldown_allows_id(rule.id, rule.cooldown_ms, now_ms)
    }

    /// The cooldown check of `cooldown_allows`, for the rule with identifier `id`
    /// and cooldown `cooldown_ms`.
    pub fn cooldown_allows_id(&mut self, id: u128, cooldown_ms: u64, now_ms: u64) -> (r: bool)
        ensures
            r == cooldown_open(old(self).last_fired(), id, cooldown_ms, now_ms),
            final(self).last_fired() == (if r {
                old(self).last_fired().insert(id, now_ms)
            } else {
                old(self).last_fired()
            }),
            final(self).rules == old(self).rules,
            final(self).rules_expanded == old(self).rules_expanded,
            final(self).rule_log == old(self).rule_log,
    {
        if cooldown_ms == 0 {
            self.last_fired_ms.insert(id, now_ms);
            return true;
        }
        if let Some(last) = self.last_fired_ms.get(&id) {
            if now_ms.saturating_sub(*last) < cooldown_ms {
                return false;
            }
        }
        self.last_fired_ms.insert(id, now_ms);
        true
    }
}

/// The log and notification lists never hold more than their cap, and the element
/// pushed last is the newest one kept.
pub proof fn law_capped_push<T>(s: Seq<T>, x: T, cap: nat)
    requires
        cap > 0,
    ensures
        keep_last(s.push(x), cap).len() <= cap,
        keep_last(s.push(x), cap).last() == x,
        s.len() < cap ==> keep_last(s.push(x), cap) == s.push(x),
{
}

/// Once a rule with a cooldown has fired at `t`, it is refused at any time before
/// `t + cooldown_ms` (and from `t` on) and let through from `t + cooldown_ms` on.
pub proof fn law_cooldown(last: Map<u128, u64>, id: u128, cooldown_ms: u64, t: u64, later: u64)
    requires
        cooldown_ms > 0,
        t <= later,
    ensures
        cooldown_open(last.insert(id, t), id, cooldown_ms, later) == (later - t >= cooldown_ms),
{
}

/// After deleting the rules with identifier `id`, none is left, and every other
/// rule is kept.
pub proof fn law_delete_rule(s: Seq<RuleSpec>, id: u128)
    ensures
        forall|i: int| 0 <= i < without_id(s, id).len() ==> #[trigger] without_id(s, id)[i].id
            != id,
        forall|i: int| 0 <= i < s.len() && s[i].id != id ==> without_id(s, id).contains(#[trigger] s[i]),
    decreases s.len(),
{
    if s.len() > 0 {
        law_delete_rule(s.drop_last(), id);
        let w = without_id(s.drop_last(), id);
        if s.last().id != id {
            assert forall|i: int| 0 <= i < w.push(s.last()).len() implies #[trigger] w.push(
                s.last(),
            )[i].id != id by {
                if i < w.len() {
                    assert(w.push(s.last())[i] == w[i]);
                }
            }
        }
        assert forall|i: int| 0 <= i < s.len() && s[i].id != id implies without_id(s, id).contains(
            #[trigger] s[i],
        ) by {
            if i < s.len() - 1 {
                assert(s.drop_last()[i] == s[i]);
                let j = choose|j: int| 0 <= j < w.len() && w[j] == s.drop_last()[i];
                if s.last().id != id {
                    assert(w.push(s.last())[j] == w[j]);
                }
            } else {
                assert(w.push(s.last())[w.len() as int] == s.last());
            }
        }
    }
}

/// The most entries the trigger log shows.
pub const RULE_LOG_SHOWN: usize = 250;

/// The heading the trigger log shows over an entry: its time, two spaces and the
/// rule's name.
pub open spec fn entry_heading(e: RuleLogEntry) -> Seq<char> {
    e.time_hms@ + "  "@ + e.rule_name@
}

/// What the trigger log shows: the newest entries first, at most
/// `RULE_LOG_SHOWN` of them, each as its heading and its message.
pub fn log_view(log: &Vec<RuleLogEntry>) -> (r: Vec<(String, String)>)
    ensures
        r@.len() == (if log@.len() < RULE_LOG_SHOWN { log@.len() } else { RULE_LOG_SHOWN as nat }),
        forall|k: int|
            0 <= k < r@.len() ==> (#[trigger] r@[k]).0@ == entry_heading(log@[log@.len() - 1 - k])
                && r@[k].1@ == log@[log@.len() - 1 - k].message@,
{
    let n = log.len();
    let shown = if n < RULE_LOG_SHOWN {
        n
    } else {
        RULE_LOG_SHOWN
    };
    let mut out: Vec<(String, String)> = Vec::new();
    for k in 0..shown
        invariant
            n == log@.len(),
            shown <= n,
            out@.len() == k,
            forall|j: int|
                0 <= j < k ==> (#[trigger] out@[j]).0@ == entry_heading(log@[n - 1 - j]) && out@[j].1@
                    == log@[n - 1 - j].message@,
    {
        let e = &log[n - 1 - k];
        let mut heading = e.time_hms.clone();
        heading.append("  ");
        heading.append(e.rule_name.as_str());
        out.push((heading, e.message.clone()));
    }
    out
}

} // verus!

//! The firing of the rules an evaluation reported as triggered: which of them fire,
//! in order, and the log lines and notifications they leave once the application
//! has filled their paper trades.

use vstd::prelude::*;

use crate::rule_book::{
    cooldown_open, first_with_id, keep_last, push_capped, RuleBook, RuleLogEntry, RULE_LOG_CAP,
};
use crate::rules::{cross_direction_spec, CrossDirection, EvaluationMode, RuleSpec};
use crate::triggers::{
    begin_firing, header_part, header_part_spec, in_phase, joined, join_parts, log_part_spec,
    fill_note, notification_spec, notification_text, opt_chars, plan_spec, Phase, PlannedAction, PlannedStep,
};

verus! {

/// One rule that fired: its identifier, its name and the effects it plans.
pub struct Firing {
    pub rule_id: u128,
    pub rule_name: String,
    pub plan: Vec<PlannedAction>,
}

/// The position of the rule that fires when identifier `id` is reported: the first
/// rule with that identifier, if it is evaluated in phase `p` and its cooldown, as
/// `last` records it, lets it through at `now`.
pub open spec fn fire_index(rules: Seq<RuleSpec>, last: Map<u128, u64>, id: u128, p: Phase, now: u64) -> Option<int> {
    match first_with_id(rules, id, 0) {
        Some(i) => if in_phase(rules[i], p) && cooldown_open(last, rules[i].id, rules[i].cooldown_ms, now) {
            Some(i)
        } else {
            None
        },
        None => None,
    }
}

/// The firings that the reported identifiers `ids` cause, in order, from the cooldown
/// record `last`: the record afterwards, and the positions of the rules that fired.
pub open spec fn firings_spec(
    rules: Seq<RuleSpec>,
    last: Map<u128, u64>,
    ids: Seq<u128>,
    p: Phase,
    now: u64,
) -> (Map<u128, u64>, Seq<int>)
    decreases ids.len(),
{
    if ids.len() == 0 {
        (last, Seq::empty())
    } else {
        let prev = firings_spec(rules, last, ids.drop_last(), p, now);
        match fire_index(rules, prev.0, ids.last(), p, now) {
            Some(i) => (prev.0.insert(rules[i].id, now), prev.1.push(i)),
            None => prev,
        }
    }
}

/// The direction a rule's sound follows: its condition's, or upward for a condition
/// without one.
pub open spec fn sound_direction(r: RuleSpec) -> CrossDirection {
    match cross_direction_spec(r.condition) {
        Some(d) => d,
        None => CrossDirection::CrossUp,
    }
}

proof fn lemma_first_with_id(s: Seq<RuleSpec>, id: u128, i: int)
    requires
        0 <= i,
    ensures
        first_with_id(s, id, i) matches Some(j) ==> i <= j < s.len() && s[j].id == id,
    decreases s.len() - i,
{
    if i < s.len() && s[i].id != id {
        lemma_first_with_id(s, id, i + 1);
    }
}

/// `f` is the firing of `rule` in phase `p` on the pane showing `ticker`.
pub open spec fn is_firing_of(f: Firing, rule: RuleSpec, ticker: Seq<char>, p: Phase) -> bool {
    &&& f.rule_id == rule.id
    &&& f.rule_name@ == rule.name@
    &&& f.plan@.map_values(|a: PlannedAction| a@) == plan_spec(
        rule.actions@,
        rule.name@,
        ticker,
        sound_direction(rule),
        p,
    )
}

/// `fs` are the firings of the rules of `rules` at positions `idx`, in order.
pub open spec fn are_firings_of(
    fs: Seq<Firing>,
    rules: Seq<RuleSpec>,
    idx: Seq<int>,
    ticker: Seq<char>,
    p: Phase,
) -> bool {
    &&& fs.len() == idx.len()
    &&& forall|k: int| 0 <= k < fs.len() ==> 0 <= #[trigger] idx[k] < rules.len()
    &&& forall|k: int| 0 <= k < fs.len() ==> is_firing_of(#[trigger] fs[k], rules[idx[k]], ticker, p)
}

/// Fires, in order, the rules reported for the identifiers `ids` in phase `p` at
/// `now_ms` on the pane showing `ticker`: each identifier fires the first rule that
/// has it when that rule is evaluated in the phase and off cooldown, and its firing
/// is recorded; other identifiers do nothing. Returns one firing per rule that
/// fired, in order, with its plan of effects. The rules, the open card and the log
/// are left as they were.
pub fn fire_triggered(book: &mut RuleBook, ids: &Vec<u128>, p: Phase, now_ms: u64, ticker: &str) -> (r: Vec<Firing>)
    ensures
        final(book).rules == old(book).rules,
        final(book).rules_expanded == old(book).rules_expanded,
        final(book).rule_log == old(book).rule_log,
        final(book).last_fired() == firings_spec(old(book).rules@, old(book).last_fired(), ids@, p, now_ms).0,
        are_firings_of(
            r@,
            old(book).rules@,
            firings_spec(old(book).rules@, old(book).last_fired(), ids@, p, now_ms).1,
            ticker@,
            p,
        ),
{
    let ghost rules = book.rules@;
    let ghost last0 = book.last_fired();
    let mut out: Vec<Firing> = Vec::new();
    let n = ids.len();
    for j in 0..n
        invariant
            n == ids@.len(),
            book.rules == old(book).rules,
            book.rules_expanded == old(book).rules_expanded,
            book.rule_log == old(book).rule_log,
            rules == old(book).rules@,
            last0 == old(book).last_fired(),
            book.last_fired() == firings_spec(rules, last0, ids@.take(j as int), p, now_ms).0,
            are_firings_of(out@, rules, firings_spec(rules, last0, ids@.take(j as int), p, now_ms).1, ticker@, p),
    {
        let ghost prev = firings_spec(rules, last0, ids@.take(j as int), p, now_ms);
        let ghost prev_out = out@;
        proof {
            assert(ids@.take(j + 1).drop_last() == ids@.take(j as int));
            assert(ids@.take(j + 1).last() == ids@[j as int]);
            lemma_first_with_id(rules, ids@[j as int], 0);
        }
        let id = ids[j];
        match book.position(id) {
            Some(i) => {
                let fired = begin_firing(book, i, p, now_ms, ticker);
                match fired {
                    Some(plan) => {
                        let f = Firing {
                            rule_id: book.rules[i].id,
                            rule_name: book.rules[i].name.clone(),
                            plan,
                        };
                        out.push(f);
                        proof {
                            let fs = firings_spec(rules, last0, ids@.take(j + 1), p, now_ms);
                            assert(fs.1 == prev.1.push(i as int));
                            assert(is_firing_of(out@[prev_out.len() as int], rules[i as int], ticker@, p));
                            assert forall|k: int| 0 <= k < out@.len() implies is_firing_of(
                                #[trigger] out@[k],
                                rules[fs.1[k]],
                                ticker@,
                                p,
                            ) by {
                                if k < prev_out.len() {
                                    assert(out@[k] == prev_out[k]);
                                    assert(fs.1[k] == prev.1[k]);
                                }
                            }
                            assert forall|k: int| 0 <= k < out@.len() implies 0 <= #[trigger] fs.1[k] < rules.len() by {
                                if k < prev_out.len() {
                                    assert(fs.1[k] == prev.1[k]);
                                }
                            }
                        }
                    },
                    None => {},
                }
            },
            None => {},
        }
    }
    proof {
        assert(ids@.take(n as int) == ids@);
    }
    out
}

/// The characters of an optional text.
pub open spec fn opt_view(o: Option<String>) -> Option<Seq<char>> {
    match o {
        Some(t) => Some(t@),
        None => None,
    }
}

/// The fill descriptions of a firing's effects, as character sequences.
pub open spec fn fills_view(v: Vec<Option<String>>) -> Seq<Option<Seq<char>>> {
    v@.map_values(|o: Option<String>| opt_view(o))
}

/// A plan of effects as its views.
pub open spec fn plan_view(v: Vec<PlannedAction>) -> Seq<PlannedStep> {
    v@.map_values(|a: PlannedAction| a@)
}

/// The parts an effect list adds to a log line after its header, in order: each
/// effect's part (see `log_part_spec`), where the paper trade at position `k`
/// contributes the description of its fill, `fills[k]`, when it filled.
pub open spec fn step_parts(plan: Seq<PlannedStep>, fills: Seq<Option<Seq<char>>>) -> Seq<Seq<char>>
    decreases plan.len(),
{
    if plan.len() == 0 {
        Seq::empty()
    } else {
        let rest = step_parts(plan.drop_last(), fills);
        let part = match plan.last() {
            PlannedStep::PaperTrade { .. } => fills[plan.len() - 1],
            other => log_part_spec(other),
        };
        match part {
            Some(t) => rest.push(t),
            None => rest,
        }
    }
}

/// The message of the last toast among the effects.
pub open spec fn last_toast(plan: Seq<PlannedStep>) -> Option<Seq<char>>
    decreases plan.len(),
{
    if plan.len() == 0 {
        None
    } else {
        match plan.last() {
            PlannedStep::Toast { message } => Some(message),
            _ => last_toast(plan.drop_last()),
        }
    }
}

/// The description of the last paper trade among the effects that filled.
pub open spec fn last_fill(plan: Seq<PlannedStep>, fills: Seq<Option<Seq<char>>>) -> Option<Seq<char>>
    decreases plan.len(),
{
    if plan.len() == 0 {
        None
    } else {
        match plan.last() {
            PlannedStep::PaperTrade { .. } => match fills[plan.len() - 1] {
                Some(f) => Some(f),
                None => last_fill(plan.drop_last(), fills),
            },
            _ => last_fill(plan.drop_last(), fills),
        }
    }
}

/// The log line of a firing in phase `p`: its header, then the parts of its effects,
/// joined with ` | `.
pub open spec fn firing_line(p: Phase, plan: Seq<PlannedStep>, fills: Seq<Option<Seq<char>>>) -> Seq<char> {
    joined(seq![header_part_spec(p)] + step_parts(plan, fills), " | "@)
}

/// The notification a firing in phase `p` leaves (see `notification_spec`): its
/// last toast and its last fill, the fill marked ` (on close)` on a candle close.
pub open spec fn firing_note(
    name: Seq<char>,
    plan: Seq<PlannedStep>,
    fills: Seq<Option<Seq<char>>>,
    p: Phase,
) -> Option<Seq<char>> {
    notification_spec(
        name,
        last_toast(plan),
        match last_fill(plan, fills) {
            Some(f) => Some(f + match p {
                Phase::Tick => Seq::<char>::empty(),
                Phase::CandleClose => " (on close)"@,
            }),
            None => None,
        },
    )
}

/// The log line and the notification of the firing `f` in phase `p`, where `fills`
/// holds, at the position of each paper trade of its plan, the description of the
/// fill, if the trade filled.
pub fn firing_outcome(f: &Firing, fills: &Vec<Option<String>>, p: Phase) -> (r: (String, Option<String>))
    requires
        fills@.len() == f.plan@.len(),
    ensures
        r.0@ == firing_line(p, plan_view(f.plan), fills_view(*fills)),
        opt_view(r.1) == firing_note(f.rule_name@, plan_view(f.plan), fills_view(*fills), p),
{
    let ghost plan = plan_view(f.plan);
    let ghost fv = fills_view(*fills);
    let mut parts: Vec<String> = Vec::new();
    parts.push(header_part(p));
    let mut toast: Option<&str> = None;
    let mut fill: Option<&str> = None;
    let n = f.plan.len();
    for k in 0..n
        invariant
            n == f.plan@.len(),
            n == fills@.len(),
            plan == plan_view(f.plan),
            fv == fills_view(*fills),
            parts@.map_values(|s: String| s@) == seq![header_part_spec(p)] + step_parts(plan.take(k as int), fv),
            opt_chars(toast) == last_toast(plan.take(k as int)),
            opt_chars(fill) == last_fill(plan.take(k as int), fv),
    {
        let ghost before = parts@;
        proof {
            assert(plan.take(k + 1).drop_last() == plan.take(k as int));
            assert(plan.take(k + 1).last() == plan[k as int]);
            assert(plan[k as int] == f.plan@[k as int]@);
            assert(fv[k as int] == opt_view(fills@[k as int]));
        }
        match &f.plan[k] {
            PlannedAction::PaperTrade { .. } => {
                match &fills[k] {
                    Some(d) => {
                        parts.push(d.clone());
                        fill = Some(d.as_str());
                    },
                    None => {},
                }
            },
            PlannedAction::Toast { message } => {
                let part = f.plan[k].log_part();
                match part {
                    Some(t) => parts.push(t),
                    None => {},
                }
                toast = Some(message.as_str());
            },
            _ => {
                let part = f.plan[k].log_part();
                match part {
                    Some(t) => parts.push(t),
                    None => {},
                }
            },
        }
        proof {
            if parts@.len() > before.len() {
                assert(parts@.map_values(|s: String| s@) =~= before.map_values(|s: String| s@).push(
                    parts@.last()@,
                ));
            }
        }
    }
    proof {
        assert(plan.take(n as int) == plan);
    }
    let line = join_parts(&parts);
    let fill_text = match fill {
        Some(t) => Some(fill_note(t, p)),
        None => None,
    };
    let fill_ref = match &fill_text {
        Some(t) => Some(t.as_str()),
        None => None,
    };
    let note = notification_text(f.rule_name.as_str(), toast, fill_ref);
    (line, note)
}

/// A trigger log line as plain values: time, rule identifier, rule name, message.
pub open spec fn entry_view(e: RuleLogEntry) -> (Seq<char>, u128, Seq<char>, Seq<char>) {
    (e.time_hms@, e.rule_id, e.rule_name@, e.message@)
}

/// The trigger log as plain values.
pub open spec fn log_view(log: Seq<RuleLogEntry>) -> Seq<(Seq<char>, u128, Seq<char>, Seq<char>)> {
    log.map_values(|e: RuleLogEntry| entry_view(e))
}

/// The log lines that the firings `fs` leave in phase `p` when stamped `time`, with
/// `fills[j]` the fill descriptions of firing `j`.
pub open spec fn firing_lines(
    fs: Seq<Firing>,
    fills: Seq<Vec<Option<String>>>,
    p: Phase,
    time: Seq<char>,
) -> Seq<(Seq<char>, u128, Seq<char>, Seq<char>)> {
    Seq::new(
        fs.len(),
        |j: int| (time, fs[j].rule_id, fs[j].rule_name@, firing_line(p, plan_view(fs[j].plan), fills_view(fills[j]))),
    )
}

/// Each firing has one fill slot per effect.
pub open spec fn fills_fit(fs: Seq<Firing>, fills: Seq<Vec<Option<String>>>) -> bool {
    &&& fills.len() == fs.len()
    &&& forall|j: int| 0 <= j < fs.len() ==> (#[trigger] fills[j])@.len() == fs[j].plan@.len()
}

/// The log `log` after appending each of `lines` in turn, keeping the newest
/// `RULE_LOG_CAP` lines after each.
pub open spec fn appended_capped(
    log: Seq<(Seq<char>, u128, Seq<char>, Seq<char>)>,
    lines: Seq<(Seq<char>, u128, Seq<char>, Seq<char>)>,
) -> Seq<(Seq<char>, u128, Seq<char>, Seq<char>)>
    decreases lines.len(),
{
    if lines.len() == 0 {
        log
    } else {
        keep_last(appended_capped(log, lines.drop_last()).push(lines.last()), RULE_LOG_CAP as nat)
    }
}

proof fn lemma_log_view_keep_last(a: Seq<RuleLogEntry>, c: nat)
    ensures
        log_view(keep_last(a, c)) == keep_last(log_view(a), c),
{
    assert(log_view(keep_last(a, c)) =~= keep_last(log_view(a), c));
}

/// Writes the log lines of the firings `fires` in phase `p`, all stamped
/// `time_hms`, one per firing and in order, keeping the newest `RULE_LOG_CAP`
/// lines; `fills[j]` holds the fill descriptions of firing `j`, one slot per
/// effect. Returns the notification each firing leaves, in order. The rules, the
/// open card and the cooldown record are left as they were.
pub fn log_firings_at(
    book: &mut RuleBook,
    fires: &Vec<Firing>,
    fills: &Vec<Vec<Option<String>>>,
    p: Phase,
    time_hms: &str,
) -> (notes: Vec<Option<String>>)
    requires
        fills_fit(fires@, fills@),
    ensures
        log_view(final(book).rule_log@) == appended_capped(
            log_view(old(book).rule_log@),
            firing_lines(fires@, fills@, p, time_hms@),
        ),
        final(book).rules == old(book).rules,
        final(book).rules_expanded == old(book).rules_expanded,
        final(book).last_fired() == old(book).last_fired(),
        notes@.len() == fires@.len(),
        forall|j: int|
            0 <= j < fires@.len() ==> opt_view(#[trigger] notes@[j]) == firing_note(
                fires@[j].rule_name@,
                plan_view(fires@[j].plan),
                fills_view(fills@[j]),
                p,
            ),
{
    let ghost v0 = log_view(book.rule_log@);
    let ghost lines = firing_lines(fires@, fills@, p, time_hms@);
    let mut notes: Vec<Option<String>> = Vec::new();
    let n = fires.len();
    for j in 0..n
        invariant
            n == fires@.len(),
            fills_fit(fires@, fills@),
            lines == firing_lines(fires@, fills@, p, time_hms@),
            v0 == log_view(old(book).rule_log@),
            log_view(book.rule_log@) == appended_capped(v0, lines.take(j as int)),
            book.rules == old(book).rules,
            book.rules_expanded == old(book).rules_expanded,
            book.last_fired() == old(book).last_fired(),
            notes@.len() == j,
            forall|k: int|
                0 <= k < j ==> opt_view(#[trigger] notes@[k]) == firing_note(
                    fires@[k].rule_name@,
                    plan_view(fires@[k].plan),
                    fills_view(fills@[k]),
                    p,
                ),
    {
        let ghost before = book.rule_log@;
        assert(fills@[j as int]@.len() == fires@[j as int].plan@.len());
        let (line, note) = firing_outcome(&fires[j], &fills[j], p);
        let entry = RuleLogEntry {
            time_hms: String::from_str(time_hms),
            rule_id: fires[j].rule_id,
            rule_name: fires[j].rule_name.clone(),
            message: line,
        };
        let ghost ev = entry_view(entry);
        push_capped(&mut book.rule_log, entry, RULE_LOG_CAP);
        notes.push(note);
        proof {
            assert(ev == lines[j as int]);
            lemma_log_view_keep_last(before.push(entry), RULE_LOG_CAP as nat);
            assert(log_view(before.push(entry)) =~= log_view(before).push(ev));
            assert(lines.take(j + 1).drop_last() =~= lines.take(j as int));
        }
    }
    proof {
        assert(lines.take(n as int) =~= lines);
    }
    notes
}

/// Writes the log lines of the firings `fires` as `log_firings_at` does, stamped
/// with the current local time of day, and returns their notifications.
pub fn log_firings(
    book: &mut RuleBook,
    fires: &Vec<Firing>,
    fills: &Vec<Vec<Option<String>>>,
    p: Phase,
) -> (notes: Vec<Option<String>>)
    requires
        fills_fit(fires@, fills@),
    ensures
        exists|t: Seq<char>|
            crate::clock::is_hms(t) && log_view(final(book).rule_log@) == appended_capped(
                log_view(old(book).rule_log@),
                #[trigger] firing_lines(fires@, fills@, p, t),
            ),
        final(book).rules == old(book).rules,
        final(book).rules_expanded == old(book).rules_expanded,
        final(book).last_fired() == old(book).last_fired(),
        notes@.len() == fires@.len(),
        forall|j: int|
            0 <= j < fires@.len() ==> opt_view(#[trigger] notes@[j]) == firing_note(
                fires@[j].rule_name@,
                plan_view(fires@[j].plan),
                fills_view(fills@[j]),
                p,
            ),
{
    let time = crate::clock::local_time_hms();
    log_firings_at(book, fires, fills, p, time.as_str())
}

/// The firings of a round leave one log line each, in the order the rules fired:
/// line `k` names the `k`-th rule that fired.
pub proof fn law_one_line_per_firing(
    fires: Seq<Firing>,
    rules: Seq<RuleSpec>,
    idx: Seq<int>,
    ticker: Seq<char>,
    p: Phase,
    fills: Seq<Vec<Option<String>>>,
    time: Seq<char>,
)
    requires
        are_firings_of(fires, rules, idx, ticker, p),
    ensures
        firing_lines(fires, fills, p, time).len() == idx.len(),
        forall|k: int|
            0 <= k < idx.len() ==> (#[trigger] firing_lines(fires, fills, p, time)[k]).1 == rules[idx[k]].id
                && firing_lines(fires, fills, p, time)[k].2 == rules[idx[k]].name@,
{
    assert forall|k: int| 0 <= k < idx.len() implies (#[trigger] firing_lines(fires, fills, p, time)[k]).1
        == rules[idx[k]].id && firing_lines(fires, fills, p, time)[k].2 == rules[idx[k]].name@ by {
        assert(is_firing_of(fires[k], rules[idx[k]], ticker, p));
    }
}

/// The rule at position `r`, if any, has identifier `id`, is enabled, and has an
/// evaluation mode that covers phase `p`: `OnTick` or `Both` on ticks, `OnCandleClose`
/// or `Both` on candle closes.
pub open spec fn enabled_in_mode(rules: Seq<RuleSpec>, id: u128, p: Phase, r: Option<int>) -> bool {
    match r {
        Some(i) => {
            &&& 0 <= i < rules.len()
            &&& rules[i].id == id
            &&& rules[i].enabled
            &&& match p {
                Phase::Tick => rules[i].evaluation == EvaluationMode::OnTick || rules[i].evaluation
                    == EvaluationMode::Both,
                Phase::CandleClose => rules[i].evaluation == EvaluationMode::OnCandleClose
                    || rules[i].evaluation == EvaluationMode::Both,
            }
        },
        None => true,
    }
}

/// A rule fires only when it is enabled and its evaluation mode covers the phase.
/// So every rule that a round fires is enabled, and when no rule is enabled a
/// round fires nothing and leaves the cooldown record as it was.
pub proof fn law_only_enabled_rules_fire(
    rules: Seq<RuleSpec>,
    last: Map<u128, u64>,
    ids: Seq<u128>,
    p: Phase,
    now: u64,
)
    ensures
        forall|id: u128| enabled_in_mode(rules, id, p, #[trigger] fire_index(rules, last, id, p, now)),
        forall|k: int|
            0 <= k < firings_spec(rules, last, ids, p, now).1.len() ==> {
                let i = #[trigger] firings_spec(rules, last, ids, p, now).1[k];
                0 <= i < rules.len() && rules[i].enabled
            },
        (forall|k: int| 0 <= k < rules.len() ==> !(#[trigger] rules[k]).enabled) ==> firings_spec(
            rules,
            last,
            ids,
            p,
            now,
        ) == (last, Seq::<int>::empty()),
    decreases ids.len(),
{
    assert forall|id: u128| enabled_in_mode(rules, id, p, #[trigger] fire_index(rules, last, id, p, now)) by {
        lemma_first_with_id(rules, id, 0);
    }
    if ids.len() > 0 {
        let prev = firings_spec(rules, last, ids.drop_last(), p, now);
        law_only_enabled_rules_fire(rules, last, ids.drop_last(), p, now);
        lemma_first_with_id(rules, ids.last(), 0);
        let fs = firings_spec(rules, last, ids, p, now);
        assert forall|k: int| 0 <= k < fs.1.len() implies {
            let i = #[trigger] fs.1[k];
            0 <= i < rules.len() && rules[i].enabled
        } by {
            if k < prev.1.len() {
                assert(fs.1[k] == prev.1[k]);
            }
        }
        if forall|k: int| 0 <= k < rules.len() ==> !(#[trigger] rules[k]).enabled {
            assert(fire_index(rules, prev.0, ids.last(), p, now) is None);
        }
    }
}

} // verus!

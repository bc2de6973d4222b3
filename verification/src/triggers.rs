//! When rules are evaluated, and what a firing rule does: the plan of effects, the
//! texts it sends, the log line and the notification it leaves.
//!
//! Whether a condition holds is decided on `f32` chart data by the application; a
//! paper trade is likewise filled there. Everything around those two steps is here.

use vstd::prelude::*;

use crate::audio::SoundType;
use crate::rule_book::RuleBook;
use crate::rules::{
    cross_direction_spec, sound_for_direction, CrossDirection, EvaluationMode, RuleAction,
    RuleCondition, RuleSpec, Side,
};

verus! {

/// Milliseconds that must pass between two background tick evaluations of a pane.
pub const TICK_EVAL_INTERVAL_MS: u128 = 150;

/// Whether a firing comes from live trade updates or from a candle close.
#[derive(Debug, Clone, Copy, PartialEq, Eq, Structural)]
pub enum Phase {
    Tick,
    CandleClose,
}

/// Whether rule `r` is evaluated in phase `p`: it must be enabled and its mode must
/// cover the phase.
pub open spec fn in_phase(r: RuleSpec, p: Phase) -> bool {
    r.enabled && match p {
        Phase::Tick => r.evaluation.is_tick_mode(),
        Phase::CandleClose => r.evaluation.is_close_mode(),
    }
}

/// Whether rule `r` is evaluated in phase `p`.
pub fn rule_in_phase(r: &RuleSpec, p: Phase) -> (b: bool)
    ensures
        b == in_phase(*r, p),
{
    r.enabled && match p {
        Phase::Tick => r.evaluation.evaluates_on_tick(),
        Phase::CandleClose => r.evaluation.evaluates_on_close(),
    }
}

/// Whether some rule of the pane is evaluated on ticks.
pub fn wants_tick_eval(rules: &Vec<RuleSpec>) -> (b: bool)
    ensures
        b == exists|i: int| 0 <= i < rules@.len() && in_phase(#[trigger] rules@[i], Phase::Tick),
{
    let n = rules.len();
    for i in 0..n
        invariant
            n == rules@.len(),
            forall|j: int| 0 <= j < i ==> !in_phase(#[trigger] rules@[j], Phase::Tick),
    {
        if rule_in_phase(&rules[i], Phase::Tick) {
            return true;
        }
    }
    false
}

/// Whether a background tick evaluation is due: some rule wants it, a trade came in
/// since the last one, and at least `TICK_EVAL_INTERVAL_MS` have passed.
pub fn tick_eval_due(wants: bool, dirty: bool, elapsed_ms: u128) -> (b: bool)
    ensures
        b == (wants && dirty && elapsed_ms >= TICK_EVAL_INTERVAL_MS),
{
    wants && dirty && elapsed_ms >= TICK_EVAL_INTERVAL_MS
}

/// The rule-evaluation bookkeeping of a pane: whether a trade came in since the
/// last tick evaluation, when that evaluation was made (in milliseconds of a
/// monotonic clock), and the candle close waiting to be evaluated, of type `C`
/// (its time and `f32` close and volume, which the application holds).
pub struct TickState<C> {
    pub dirty: bool,
    pub last_eval_ms: u128,
    pub pending_close: Option<C>,
}

/// `a - b`, or 0 when `b` is later: the time elapsed from `b` to `a`.
pub open spec fn elapsed_spec(a: u128, b: u128) -> u128 {
    if a >= b {
        (a - b) as u128
    } else {
        0
    }
}

impl<C> TickState<C> {
    /// The bookkeeping of a new pane: clean, last evaluated at `now_ms`, no close
    /// waiting.
    pub fn new(now_ms: u128) -> (r: TickState<C>)
        ensures
            !r.dirty,
            r.last_eval_ms == now_ms,
            r.pending_close is None,
    {
        TickState { dirty: false, last_eval_ms: now_ms, pending_close: None }
    }

    /// A batch of trades came in: the next tick evaluation has something to look at.
    pub fn on_trades(&mut self)
        ensures
            final(self).dirty,
            final(self).last_eval_ms == old(self).last_eval_ms,
            final(self).pending_close == old(self).pending_close,
    {
        self.dirty = true;
    }

    /// A candle update came in: its close waits for evaluation, replacing any
    /// earlier one.
    pub fn on_candle(&mut self, close: C)
        ensures
            final(self).pending_close == Some(close),
            final(self).dirty == old(self).dirty,
            final(self).last_eval_ms == old(self).last_eval_ms,
    {
        self.pending_close = Some(close);
    }

    /// The bookkeeping step of a pane at each tick at `now_ms`, where `wants` says
    /// whether some rule is evaluated on ticks. A tick evaluation is scheduled when
    /// `tick_eval_due` says so, and then the pane is marked clean and its evaluation
    /// time set to `now_ms`; otherwise both stay. The waiting candle close is taken
    /// out and returned for evaluation either way. Returns whether to schedule the
    /// tick evaluation, and the close.
    pub fn tick_step(&mut self, wants: bool, now_ms: u128) -> (r: (bool, Option<C>))
        ensures
            r.0 == (wants && old(self).dirty && elapsed_spec(now_ms, old(self).last_eval_ms)
                >= TICK_EVAL_INTERVAL_MS),
            r.1 == old(self).pending_close,
            final(self).pending_close is None,
            final(self).dirty == (old(self).dirty && !r.0),
            final(self).last_eval_ms == (if r.0 {
                now_ms
            } else {
                old(self).last_eval_ms
            }),
    {
        let elapsed = if now_ms >= self.last_eval_ms {
            now_ms - self.last_eval_ms
        } else {
            0
        };
        let due = tick_eval_due(wants, self.dirty, elapsed);
        if due {
            self.dirty = false;
            self.last_eval_ms = now_ms;
        }
        let pending = self.pending_close.take();
        (due, pending)
    }
}

/// Whether the condition is computed from the close series (MA, RSI, MACD).
pub open spec fn needs_closes_spec(c: RuleCondition) -> bool {
    c is MovingAverageCross || c is RsiCrossLevel || c is MacdCrossSignal
}

/// Whether some rule (enabled or not) needs the close series for a tick evaluation.
pub fn needs_closes(rules: &Vec<RuleSpec>) -> (b: bool)
    ensures
        b == exists|i: int| 0 <= i < rules@.len() && needs_closes_spec(#[trigger] rules@[i].condition),
{
    let n = rules.len();
    for i in 0..n
        invariant
            n == rules@.len(),
            forall|j: int| 0 <= j < i ==> !needs_closes_spec(#[trigger] rules@[j].condition),
    {
        if matches!(
            rules[i].condition,
            RuleCondition::MovingAverageCross { .. } | RuleCondition::RsiCrossLevel { .. }
                | RuleCondition::MacdCrossSignal { .. }
        ) {
            return true;
        }
    }
    false
}

/// Whether some rule (enabled or not) needs the OHLCV series for a tick evaluation,
/// which only a VWAP crossing does.
pub fn needs_ohlcv(rules: &Vec<RuleSpec>) -> (b: bool)
    ensures
        b == exists|i: int| 0 <= i < rules@.len() && (#[trigger] rules@[i].condition is VwapCross),
{
    let n = rules.len();
    for i in 0..n
        invariant
            n == rules@.len(),
            forall|j: int| 0 <= j < i ==> !(#[trigger] rules@[j].condition is VwapCross),
    {
        if matches!(rules[i].condition, RuleCondition::VwapCross { .. }) {
            return true;
        }
    }
    false
}

/// One effect of a firing rule, as the application carries it out.
#[derive(Debug, Clone)]
pub enum PlannedAction {
    /// Show a toast with this message.
    Toast { message: String },
    /// Fill a paper trade of this side for this share (an `f32` bit pattern) of the
    /// balance, at the current price.
    PaperTrade { side: Side, percent_of_balance: u32 },
    /// Play this sound.
    PlaySound { sound: SoundType },
    /// Send this text to Telegram.
    Telegram { text: String },
    /// Send this text as a push notification.
    Push { text: String },
}

/// A planned effect, with its texts as character sequences.
pub enum PlannedStep {
    Toast { message: Seq<char> },
    PaperTrade { side: Side, percent_of_balance: u32 },
    PlaySound { sound: SoundType },
    Telegram { text: Seq<char> },
    Push { text: Seq<char> },
}

impl View for PlannedAction {
    type V = PlannedStep;

    open spec fn view(&self) -> PlannedStep {
        match self {
            PlannedAction::Toast { message } => PlannedStep::Toast { message: message@ },
            PlannedAction::PaperTrade { side, percent_of_balance } => PlannedStep::PaperTrade {
                side: *side,
                percent_of_balance: *percent_of_balance,
            },
            PlannedAction::PlaySound { sound } => PlannedStep::PlaySound { sound: *sound },
            PlannedAction::Telegram { text } => PlannedStep::Telegram { text: text@ },
            PlannedAction::Push { text } => PlannedStep::Push { text: text@ },
        }
    }
}

/// The text a rule sends to Telegram: `[Rule] <ticker>: <name>`, with ` (close)`
/// after it when it fired on a candle close.
pub open spec fn telegram_text_spec(ticker: Seq<char>, name: Seq<char>, p: Phase) -> Seq<char> {
    "[Rule] "@ + ticker + ": "@ + name + match p {
        Phase::Tick => Seq::<char>::empty(),
        Phase::CandleClose => " (close)"@,
    }
}

/// The text a rule sends as a push notification: `[Rule] <ticker>: <name>`, with
/// ` (tick)` or ` (close)` after it.
pub open spec fn push_text_spec(ticker: Seq<char>, name: Seq<char>, p: Phase) -> Seq<char> {
    "[Rule] "@ + ticker + ": "@ + name + match p {
        Phase::Tick => " (tick)"@,
        Phase::CandleClose => " (close)"@,
    }
}

/// The effect of one action of a firing rule; disabled sound, Telegram and push
/// actions have none.
pub open spec fn step_spec(
    a: RuleAction,
    name: Seq<char>,
    ticker: Seq<char>,
    dir: CrossDirection,
    p: Phase,
) -> Option<PlannedStep> {
    match a {
        RuleAction::Toast { message } => Some(PlannedStep::Toast { message: message@ }),
        RuleAction::PaperTrade { side, percent_of_balance } => Some(
            PlannedStep::PaperTrade { side, percent_of_balance },
        ),
        RuleAction::Sound { enabled } => if enabled {
            Some(
                PlannedStep::PlaySound {
                    sound: match dir {
                        CrossDirection::CrossUp => SoundType::Buy,
                        CrossDirection::CrossDown => SoundType::Sell,
                    },
                },
            )
        } else {
            None
        },
        RuleAction::Telegram { enabled } => if enabled {
            Some(PlannedStep::Telegram { text: telegram_text_spec(ticker, name, p) })
        } else {
            None
        },
        RuleAction::Push { enabled } => if enabled {
            Some(PlannedStep::Push { text: push_text_spec(ticker, name, p) })
        } else {
            None
        },
    }
}

/// The effects of the actions `acts` of a firing rule, in the order of the actions.
pub open spec fn plan_spec(
    acts: Seq<RuleAction>,
    name: Seq<char>,
    ticker: Seq<char>,
    dir: CrossDirection,
    p: Phase,
) -> Seq<PlannedStep>
    decreases acts.len(),
{
    if acts.len() == 0 {
        Seq::empty()
    } else {
        let rest = plan_spec(acts.drop_last(), name, ticker, dir, p);
        match step_spec(acts.last(), name, ticker, dir, p) {
            Some(s) => rest.push(s),
            None => rest,
        }
    }
}

/// Builds `[Rule] <ticker>: <name>`, followed by `suffix` if there is one.
fn rule_text(ticker: &str, name: &str, suffix: Option<&str>) -> (r: String)
    ensures
        r@ == "[Rule] "@ + ticker@ + ": "@ + name@ + match suffix {
            Some(x) => x@,
            None => Seq::<char>::empty(),
        },
{
    let mut t = String::from_str("[Rule] ");
    t.append(ticker);
    t.append(": ");
    t.append(name);
    if let Some(x) = suffix {
        t.append(x);
    } else {
        assert(t@ + Seq::<char>::empty() == t@);
    }
    t
}

/// The effects of `rule` firing in phase `p` on the pane showing `ticker`: one per
/// action, in order, except disabled sound, Telegram and push actions. The sound is
/// the buy sound for an upward crossing (or a condition without direction) and the
/// sell sound for a downward one.
pub fn plan_actions(rule: &RuleSpec, p: Phase, ticker: &str) -> (r: Vec<PlannedAction>)
    ensures
        r@.map_values(|a: PlannedAction| a@) == plan_spec(
            rule.actions@,
            rule.name@,
            ticker@,
            match cross_direction_spec(rule.condition) {
                Some(d) => d,
                None => CrossDirection::CrossUp,
            },
            p,
        ),
{
    let dir = rule.condition.trigger_direction();
    let ghost acts = rule.actions@;
    let ghost name = rule.name@;
    let mut out: Vec<PlannedAction> = Vec::new();
    let n = rule.actions.len();
    for i in 0..n
        invariant
            n == acts.len(),
            acts == rule.actions@,
            name == rule.name@,
            dir == match cross_direction_spec(rule.condition) {
                Some(d) => d,
                None => CrossDirection::CrossUp,
            },
            out@.map_values(|a: PlannedAction| a@) == plan_spec(acts.take(i as int), name, ticker@, dir, p),
    {
        let ghost before = out@;
        proof {
            assert(acts.take(i + 1).drop_last() == acts.take(i as int));
            assert(acts.take(i + 1).last() == acts[i as int]);
        }
        match &rule.actions[i] {
            RuleAction::Toast { message } => {
                out.push(PlannedAction::Toast { message: message.clone() });
            },
            RuleAction::PaperTrade { side, percent_of_balance } => {
                out.push(
                    PlannedAction::PaperTrade { side: *side, percent_of_balance: *percent_of_balance },
                );
            },
            RuleAction::Sound { enabled } => {
                if *enabled {
                    out.push(PlannedAction::PlaySound { sound: sound_for_direction(dir) });
                }
            },
            RuleAction::Telegram { enabled } => {
                if *enabled {
                    let suffix = match p {
                        Phase::Tick => None,
                        Phase::CandleClose => Some(" (close)"),
                    };
                    let text = rule_text(ticker, rule.name.as_str(), suffix);
                    out.push(PlannedAction::Telegram { text });
                }
            },
            RuleAction::Push { enabled } => {
                if *enabled {
                    let suffix = match p {
                        Phase::Tick => Some(" (tick)"),
                        Phase::CandleClose => Some(" (close)"),
                    };
                    let text = rule_text(ticker, rule.name.as_str(), suffix);
                    out.push(PlannedAction::Push { text });
                }
            },
        }
        proof {
            if out@.len() > before.len() {
                assert(out@.map_values(|a: PlannedAction| a@) =~= before.map_values(
                    |a: PlannedAction| a@,
                ).push(out@.last()@));
            }
        }
    }
    proof {
        assert(acts.take(n as int) == acts);
    }
    out
}

/// The first part of the log line of a firing in phase `p`.
pub open spec fn header_part_spec(p: Phase) -> Seq<char> {
    match p {
        Phase::Tick => "triggered (tick)"@,
        Phase::CandleClose => "triggered (candle close)"@,
    }
}

/// The first part of the log line of a firing in phase `p`.
pub fn header_part(p: Phase) -> (r: String)
    ensures
        r@ == header_part_spec(p),
{
    match p {
        Phase::Tick => String::from_str("triggered (tick)"),
        Phase::CandleClose => String::from_str("triggered (candle close)"),
    }
}

/// The part of the log line an effect contributes: `toast: <message>`, `sound`,
/// `telegram` or `push`. A paper trade contributes the description of its fill,
/// which only the application has; it has none here.
pub open spec fn log_part_spec(s: PlannedStep) -> Option<Seq<char>> {
    match s {
        PlannedStep::Toast { message } => Some("toast: "@ + message),
        PlannedStep::PaperTrade { .. } => None,
        PlannedStep::PlaySound { .. } => Some("sound"@),
        PlannedStep::Telegram { .. } => Some("telegram"@),
        PlannedStep::Push { .. } => Some("push"@),
    }
}

impl PlannedAction {
    /// The part of the log line this effect contributes (none for a paper trade).
    pub fn log_part(&self) -> (r: Option<String>)
        ensures
            match r {
                Some(t) => log_part_spec(self@) == Some(t@),
                None => log_part_spec(self@) is None,
            },
    {
        match self {
            PlannedAction::Toast { message } => {
                let mut t = String::from_str("toast: ");
                t.append(message.as_str());
                Some(t)
            },
            PlannedAction::PaperTrade { .. } => None,
            PlannedAction::PlaySound { .. } => Some(String::from_str("sound")),
            PlannedAction::Telegram { .. } => Some(String::from_str("telegram")),
            PlannedAction::Push { .. } => Some(String::from_str("push")),
        }
    }
}

/// The parts `s` joined with `sep` between consecutive ones.
pub open spec fn joined(s: Seq<Seq<char>>, sep: Seq<char>) -> Seq<char>
    decreases s.len(),
{
    if s.len() == 0 {
        Seq::empty()
    } else if s.len() == 1 {
        s[0]
    } else {
        joined(s.drop_last(), sep) + sep + s.last()
    }
}

/// The log line of a firing: its parts joined with ` | `.
pub fn join_parts(parts: &Vec<String>) -> (r: String)
    ensures
        r@ == joined(parts@.map_values(|s: String| s@), " | "@),
{
    let ghost views = parts@.map_values(|s: String| s@);
    let mut out = String::new();
    let n = parts.len();
    for i in 0..n
        invariant
            n == parts@.len(),
            views == parts@.map_values(|s: String| s@),
            out@ == joined(views.take(i as int), " | "@),
    {
        proof {
            assert(views.take(i + 1).drop_last() == views.take(i as int));
            assert(views.take(i + 1).last() == parts@[i as int]@);
        }
        if i > 0 {
            out.append(" | ");
        }
        out.append(parts[i].as_str());
        proof {
            if i == 0 {
                assert(views.take(1) =~= seq![parts@[0]@]);
            }
        }
    }
    proof {
        assert(views.take(n as int) == views);
    }
    out
}

/// The fill description of a paper trade as the notification shows it: with
/// ` (on close)` after it when the rule fired on a candle close.
pub fn fill_note(fill: &str, p: Phase) -> (r: String)
    ensures
        r@ == fill@ + match p {
            Phase::Tick => Seq::<char>::empty(),
            Phase::CandleClose => " (on close)"@,
        },
{
    let mut t = String::from_str(fill);
    match p {
        Phase::Tick => {},
        Phase::CandleClose => {
            t.append(" (on close)");
        },
    }
    t
}

/// The notification a firing leaves when it showed a toast or filled a paper
/// trade: `[Rule] <name>: <toast message or "Triggered">`, then ` | <fill>` when a
/// trade was filled.
pub open spec fn notification_spec(
    name: Seq<char>,
    toast: Option<Seq<char>>,
    fill: Option<Seq<char>>,
) -> Option<Seq<char>> {
    if toast is None && fill is None {
        None
    } else {
        let head = "[Rule] "@ + name + ": "@ + match toast {
            Some(t) => t,
            None => "Triggered"@,
        };
        Some(
            match fill {
                Some(f) => head + " | "@ + f,
                None => head,
            },
        )
    }
}

/// The characters of an optional text.
pub open spec fn opt_chars(o: Option<&str>) -> Option<Seq<char>> {
    match o {
        Some(t) => Some(t@),
        None => None,
    }
}

/// The notification a firing leaves (see `notification_spec`); none when it neither
/// showed a toast nor filled a trade.
pub fn notification_text(name: &str, toast: Option<&str>, fill: Option<&str>) -> (r: Option<String>)
    ensures
        match r {
            Some(t) => notification_spec(name@, opt_chars(toast), opt_chars(fill)) == Some(t@),
            None => notification_spec(name@, opt_chars(toast), opt_chars(fill)) is None,
        },
{
    if toast.is_none() && fill.is_none() {
        return None;
    }
    let mut msg = String::from_str("[Rule] ");
    msg.append(name);
    msg.append(": ");
    match toast {
        Some(t) => msg.append(t),
        None => msg.append("Triggered"),
    }
    if let Some(f) = fill {
        msg.append(" | ");
        msg.append(f);
    }
    Some(msg)
}

/// The ticker name a firing mentions: the pane's ticker, or `unknown` when the pane
/// has none.
pub fn ticker_label(ticker: Option<String>) -> (r: String)
    ensures
        r@ == match ticker {
            Some(t) => t@,
            None => "unknown"@,
        },
{
    match ticker {
        Some(t) => t,
        None => String::from_str("unknown"),
    }
}

/// Starts the firing of the rule at position `i` in phase `p` at `now_ms`: when the
/// rule is evaluated in that phase and its cooldown lets it through, the firing is
/// recorded and its effects are returned; otherwise nothing changes and `None` is
/// returned.
pub fn begin_firing(book: &mut RuleBook, i: usize, p: Phase, now_ms: u64, ticker: &str) -> (r: Option<Vec<PlannedAction>>)
    requires
        i < old(book).rules@.len(),
    ensures
        final(book).rules == old(book).rules,
        final(book).rules_expanded == old(book).rules_expanded,
        final(book).rule_log == old(book).rule_log,
        !in_phase(old(book).rules@[i as int], p) ==> r is None && final(book).last_fired()
            == old(book).last_fired(),
        in_phase(old(book).rules@[i as int], p) ==> {
            let rule = old(book).rules@[i as int];
            let open = crate::rule_book::cooldown_open(
                old(book).last_fired(),
                rule.id,
                rule.cooldown_ms,
                now_ms,
            );
            &&& r is Some == open
            &&& final(book).last_fired() == (if open {
                old(book).last_fired().insert(rule.id, now_ms)
            } else {
                old(book).last_fired()
            })
            &&& r matches Some(plan) ==> plan@.map_values(|a: PlannedAction| a@) == plan_spec(
                rule.actions@,
                rule.name@,
                ticker@,
                match cross_direction_spec(rule.condition) {
                    Some(d) => d,
                    None => CrossDirection::CrossUp,
                },
                p,
            )
        },
{
    if !rule_in_phase(&book.rules[i], p) {
        return None;
    }
    let id = book.rules[i].id;
    let cooldown_ms = book.rules[i].cooldown_ms;
    let allowed = book.cooldown_allows_id(id, cooldown_ms, now_ms);
    if !allowed {
        return None;
    }
    Some(plan_actions(&book.rules[i], p, ticker))
}

/// Starts the firing of the first rule with identifier `id`, as `begin_firing`
/// does for its position; nothing happens when no rule has that identifier.
pub fn begin_firing_id(book: &mut RuleBook, id: u128, p: Phase, now_ms: u64, ticker: &str) -> (r: Option<Vec<PlannedAction>>)
    ensures
        final(book).rules == old(book).rules,
        final(book).rules_expanded == old(book).rules_expanded,
        final(book).rule_log == old(book).rule_log,
        match crate::rule_book::first_with_id(old(book).rules@, id, 0) {
            None => r is None && final(book).last_fired() == old(book).last_fired(),
            Some(i) => {
                let rule = old(book).rules@[i];
                let open = in_phase(rule, p) && crate::rule_book::cooldown_open(
                    old(book).last_fired(),
                    rule.id,
                    rule.cooldown_ms,
                    now_ms,
                );
                &&& r is Some == open
                &&& final(book).last_fired() == (if open {
                    old(book).last_fired().insert(rule.id, now_ms)
                } else {
                    old(book).last_fired()
                })
                &&& r matches Some(plan) ==> plan@.map_values(|a: PlannedAction| a@) == plan_spec(
                    rule.actions@,
                    rule.name@,
                    ticker@,
                    match cross_direction_spec(rule.condition) {
                        Some(d) => d,
                        None => CrossDirection::CrossUp,
                    },
                    p,
                )
            },
        },
{
    match book.position(id) {
        Some(i) => begin_firing(book, i, p, now_ms, ticker),
        None => None,
    }
}

} // verus!

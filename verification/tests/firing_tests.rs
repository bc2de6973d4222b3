use flowsurface::adapter::{parse_rfc3339_ms, pick_datetime_ms};
use flowsurface::audio::SoundType;
use flowsurface::content::KlineIndicator;
use flowsurface::firing::{fire_triggered, firing_outcome, log_firings, log_firings_at, Firing};
use flowsurface::footprint::{nearest_bin, side_bin, KlineTrades};
use flowsurface::kline::NPoc;
use flowsurface::pane::search_indicators;
use flowsurface::rule_book::{RuleBook, RULE_LOG_CAP};
use flowsurface::rules::{CrossDirection, EvaluationMode, RuleAction, RuleCondition, RuleSpec, Side};
use flowsurface::streams::{update_overlay_streams, StreamPlan};
use flowsurface::adapter::Timeframe;
use flowsurface::triggers::{begin_firing_id, Phase, PlannedAction, TickState};

fn rule(id: u128, name: &str, mode: EvaluationMode, actions: Vec<RuleAction>, cooldown_ms: u64) -> RuleSpec {
    let mut r = RuleSpec::new_default();
    r.id = id;
    r.name = name.to_string();
    r.evaluation = mode;
    r.actions = actions;
    r.cooldown_ms = cooldown_ms;
    r.condition = RuleCondition::MovingAverageCross { direction: CrossDirection::CrossDown };
    r
}

fn toast(m: &str) -> RuleAction {
    RuleAction::Toast { message: m.to_string() }
}

#[test]
fn begin_firing_id_returns_the_rules_plan() {
    let mut book = RuleBook::new(vec![rule(
        7,
        "Dip",
        EvaluationMode::OnTick,
        vec![toast("hi"), RuleAction::Sound { enabled: true }, RuleAction::Push { enabled: true }],
        0,
    )]);
    let plan = begin_firing_id(&mut book, 7, Phase::Tick, 1_000, "EUR/USD").expect("fires");
    assert_eq!(plan.len(), 3);
    assert!(matches!(&plan[0], PlannedAction::Toast { message } if message == "hi"));
    assert!(matches!(plan[1], PlannedAction::PlaySound { sound: SoundType::Sell }));
    assert!(matches!(&plan[2], PlannedAction::Push { text } if text == "[Rule] EUR/USD: Dip (tick)"));
}

#[test]
fn fire_triggered_fires_in_order_and_honours_phase_and_cooldown() {
    let mut book = RuleBook::new(vec![
        rule(1, "A", EvaluationMode::OnTick, vec![toast("a")], 5_000),
        rule(2, "B", EvaluationMode::OnCandleClose, vec![toast("b")], 0),
        rule(3, "C", EvaluationMode::Both, vec![toast("c")], 0),
    ]);
    let fires = fire_triggered(&mut book, &vec![3, 2, 1, 9, 1], Phase::Tick, 10_000, "X");
    let ids: Vec<u128> = fires.iter().map(|f| f.rule_id).collect();
    assert_eq!(ids, vec![3, 1]);
    assert_eq!(fires[1].rule_name, "A");
    assert_eq!(book.last_fired_ms.get(&1), Some(&10_000));
    assert_eq!(book.last_fired_ms.get(&2), None);
    assert!(book.rule_log.is_empty());
    let again = fire_triggered(&mut book, &vec![1], Phase::Tick, 12_000, "X");
    assert!(again.is_empty());
    let later = fire_triggered(&mut book, &vec![1], Phase::Tick, 15_000, "X");
    assert_eq!(later.len(), 1);
}

#[test]
fn firing_outcome_builds_the_log_line_and_notification() {
    let f = Firing {
        rule_id: 4,
        rule_name: "Breakout".to_string(),
        plan: vec![
            PlannedAction::Toast { message: "up".to_string() },
            PlannedAction::PaperTrade { side: Side::Buy, percent_of_balance: 10.0f32.to_bits() },
            PlannedAction::PlaySound { sound: SoundType::Buy },
            PlannedAction::PaperTrade { side: Side::Sell, percent_of_balance: 5.0f32.to_bits() },
        ],
    };
    let fills = vec![None, Some("paper fill BUY 1".to_string()), None, None];
    let (line, note) = firing_outcome(&f, &fills, Phase::CandleClose);
    assert_eq!(line, "triggered (candle close) | toast: up | paper fill BUY 1 | sound");
    assert_eq!(note.as_deref(), Some("[Rule] Breakout: up | paper fill BUY 1 (on close)"));
    let (line, note) = firing_outcome(&f, &vec![None, None, None, None], Phase::Tick);
    assert_eq!(line, "triggered (tick) | toast: up | sound");
    assert_eq!(note.as_deref(), Some("[Rule] Breakout: up"));
}

#[test]
fn log_firings_writes_one_line_per_firing() {
    let mut book = RuleBook::new(vec![
        rule(1, "A", EvaluationMode::OnTick, vec![RuleAction::Sound { enabled: true }], 0),
        rule(2, "B", EvaluationMode::OnTick, vec![toast("b")], 0),
    ]);
    let fires = fire_triggered(&mut book, &vec![2, 1], Phase::Tick, 1, "X");
    let fills: Vec<Vec<Option<String>>> = fires.iter().map(|f| vec![None; f.plan.len()]).collect();
    let notes = log_firings_at(&mut book, &fires, &fills, Phase::Tick, "12:00:00");
    assert_eq!(book.rule_log.len(), 2);
    assert_eq!(book.rule_log[0].rule_id, 2);
    assert_eq!(book.rule_log[0].message, "triggered (tick) | toast: b");
    assert_eq!(book.rule_log[1].rule_name, "A");
    assert_eq!(book.rule_log[1].message, "triggered (tick) | sound");
    assert_eq!(book.rule_log[1].time_hms, "12:00:00");
    assert_eq!(notes, vec![Some("[Rule] B: b".to_string()), None]);
    let notes = log_firings(&mut book, &fires, &fills, Phase::Tick);
    assert_eq!(notes.len(), 2);
    assert_eq!(book.rule_log.len(), 4);
    assert_eq!(book.rule_log[3].time_hms.len(), 8);
    assert!(RULE_LOG_CAP >= 4);
}

#[test]
fn tick_step_schedules_and_takes_the_pending_close() {
    let mut t: TickState<u32> = TickState::new(0);
    let (due, close) = t.tick_step(true, 1_000);
    assert!(!due);
    assert_eq!(close, None);
    t.on_trades();
    t.on_candle(42);
    let (due, close) = t.tick_step(true, 100);
    assert!(!due);
    assert_eq!(close, Some(42));
    assert!(t.dirty);
    let (due, close) = t.tick_step(true, 150);
    assert!(due);
    assert_eq!(close, None);
    assert!(!t.dirty);
    assert_eq!(t.last_eval_ms, 150);
    t.on_trades();
    let (due, _) = t.tick_step(false, 10_000);
    assert!(!due);
}

#[test]
fn search_filters_by_trimmed_query_ignoring_case_and_excludes_enabled() {
    let all = vec![KlineIndicator::Volume, KlineIndicator::Rsi, KlineIndicator::StochRsi, KlineIndicator::Macd];
    let names: Vec<String> = vec!["Volume".into(), "RSI".into(), "Stoch RSI".into(), "MACD".into()];
    let enabled = vec![KlineIndicator::Rsi];
    let r = search_indicators(&all, &names, &enabled, "  rsi ");
    assert_eq!(r, vec![KlineIndicator::StochRsi]);
    let r = search_indicators(&all, &names, &enabled, "   ");
    assert_eq!(r, vec![KlineIndicator::Volume, KlineIndicator::StochRsi, KlineIndicator::Macd]);
    let r = search_indicators(&all, &names, &vec![], "Cd");
    assert_eq!(r, vec![KlineIndicator::Macd]);
    let r = search_indicators(&all, &names, &vec![], "zz");
    assert!(r.is_empty());
}

#[test]
fn bins_round_to_nearest_with_ties_up_and_by_side() {
    assert_eq!(nearest_bin(12, 10), 10);
    assert_eq!(nearest_bin(15, 10), 20);
    assert_eq!(nearest_bin(-15, 10), -10);
    assert_eq!(nearest_bin(-16, 10), -20);
    assert_eq!(side_bin(19, true, 10), 10);
    assert_eq!(side_bin(11, false, 10), 20);
    assert_eq!(side_bin(-11, true, 10), -20);
    assert_eq!(side_bin(-11, false, 10), -10);
    assert_eq!(side_bin(20, false, 10), 20);
}

#[test]
fn kline_trades_count_trades_per_bin() {
    let mut k = KlineTrades::new();
    assert_eq!(k.first_trade_t(), None);
    assert_eq!(k.last_trade_t(), None);
    k.add_trade_to_nearest_bin(101, false, 50, 5);
    k.add_trade_to_nearest_bin(99, true, 70, 5);
    k.add_trade_to_nearest_bin(113, false, 60, 5);
    let g = k.trades.get(&100).copied().expect("bin at 100");
    assert_eq!((g.buy_count, g.sell_count, g.first_time, g.last_time), (1, 1, 50, 70));
    assert_eq!(k.first_trade_t(), Some(50));
    assert_eq!(k.last_trade_t(), Some(70));
    k.add_trade_to_side_bin(113, true, 80, 5);
    assert_eq!(k.trades.get(&110).map(|g| g.sell_count), Some(1));
    k.record_poc(100, 3.0f32.to_bits());
    assert_eq!(k.poc_price(), Some(100));
    k.set_poc_status(NPoc::Filled { at: 90 });
    assert_eq!(k.poc.map(|p| p.status), Some(NPoc::Filled { at: 90 }));
    k.clear();
    assert!(k.trades.is_empty());
    assert_eq!(k.poc_price(), None);
    k.record_poc(5, 0);
    assert_eq!(k.poc_price(), None);
}

#[test]
fn overlay_streams_report_the_moved_stream() {
    let mut s = vec![
        StreamPlan::DepthAndTrades,
        StreamPlan::Kline { ticker: 0, timeframe: Timeframe::M1 },
        StreamPlan::Kline { ticker: 1, timeframe: Timeframe::M5 },
    ];
    let (changed, fetch) = update_overlay_streams(&mut s, Some(Timeframe::M5), true);
    assert!(changed);
    assert_eq!(fetch, Some(StreamPlan::Kline { ticker: 0, timeframe: Timeframe::M5 }));
    let (changed, fetch) = update_overlay_streams(&mut s, Some(Timeframe::M5), true);
    assert!(!changed);
    assert_eq!(fetch, None);
}

#[test]
fn times_read_rfc3339_first() {
    assert_eq!(pick_datetime_ms(Some(5), Some(9)), Some(5));
    assert_eq!(pick_datetime_ms(None, Some(9)), Some(9));
    assert_eq!(pick_datetime_ms(None, None), None);
    assert_eq!(parse_rfc3339_ms("1970-01-01T00:00:01Z"), Some(1000));
    assert_eq!(parse_rfc3339_ms("1970-01-01 00:00:01"), None);
}

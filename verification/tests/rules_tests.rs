use flowsurface::audio::SoundType;
use flowsurface::rule_book::{push_capped, RuleBook, RULE_LOG_CAP};
use flowsurface::rules::{
    has_action_kind, paper_percent_or_default, set_paper_percent, set_toast_message,
    sound_for_direction, threshold_label, toast_message_or_default, upsert_action,
    CompareDirection, ConditionKind, CrossDirection, EvaluationMode, RuleAction, RuleCondition,
    RuleSpec, Side, ADX_START_VALUE_BITS, RSI_START_LEVEL_BITS,
};
use flowsurface::triggers::{
    begin_firing, begin_firing_id, join_parts, notification_text, plan_actions, tick_eval_due, ticker_label,
    wants_tick_eval, Phase, PlannedAction,
};

fn rule_with(actions: Vec<RuleAction>) -> RuleSpec {
    let mut r = RuleSpec::new_default();
    r.actions = actions;
    r
}

#[test]
fn new_rule_has_editor_defaults() {
    let r = RuleSpec::new_default();
    assert_eq!(r.name, "New rule");
    assert!(r.enabled);
    assert_eq!(r.evaluation, EvaluationMode::OnTick);
    assert_eq!(r.condition, RuleCondition::MovingAverageCross { direction: CrossDirection::CrossUp });
    assert_eq!(r.actions, vec![RuleAction::Toast { message: "Rule triggered".to_string() }]);
    assert_eq!(r.cooldown_ms, 1000);
}

#[test]
fn new_rule_ids_are_version_four_uuids() {
    let a = RuleSpec::new_default();
    let b = RuleSpec::new_default();
    assert_eq!((a.id >> 76) & 0xf, 4);
    assert_eq!((a.id >> 62) & 0x3, 2);
    assert_ne!(a.id, b.id);
}

#[test]
fn evaluation_mode_phases_and_labels() {
    assert!(EvaluationMode::OnTick.evaluates_on_tick());
    assert!(!EvaluationMode::OnTick.evaluates_on_close());
    assert!(EvaluationMode::Both.evaluates_on_tick());
    assert!(EvaluationMode::Both.evaluates_on_close());
    assert!(!EvaluationMode::OnCandleClose.evaluates_on_tick());
    assert_eq!(EvaluationMode::default_mode(), EvaluationMode::OnTick);
    assert_eq!(EvaluationMode::OnCandleClose.label(), "On candle close");
    assert_eq!(CrossDirection::CrossDown.label(), "Cross down");
    assert_eq!(CompareDirection::Above.label(), "Above");
}

#[test]
fn condition_kind_labels() {
    assert_eq!(ConditionKind::MovingAverageCross.label(), "MA cross (Fast vs Slow)");
    assert_eq!(ConditionKind::DmiCross.label(), "DMI cross (+DI vs -DI)");
    assert_eq!(ConditionKind::AdxIs.label(), "ADX vs value");
    assert_eq!(ConditionKind::SupertrendLineCross.label(), "Price crosses Supertrend line");
}

#[test]
fn fresh_conditions_start_where_the_editor_starts_them() {
    assert_eq!(
        RuleCondition::fresh(ConditionKind::RsiCrossLevel),
        RuleCondition::RsiCrossLevel { level: RSI_START_LEVEL_BITS, direction: CrossDirection::CrossUp }
    );
    assert_eq!(f32::from_bits(RSI_START_LEVEL_BITS), 50.0);
    assert_eq!(f32::from_bits(ADX_START_VALUE_BITS), 20.0);
    assert_eq!(
        RuleCondition::fresh(ConditionKind::VolumeIs),
        RuleCondition::VolumeIs { value: 0, direction: CompareDirection::Above }
    );
    for k in [ConditionKind::PriceCrossLevel, ConditionKind::AdxIs, ConditionKind::DonchianBreakout] {
        assert_eq!(RuleCondition::fresh(k).kind(), k);
    }
}

#[test]
fn condition_edits_keep_the_kind() {
    let mut c = RuleCondition::PriceCrossLevel { level: 7, direction: CrossDirection::CrossUp };
    c.set_cross_direction(CrossDirection::CrossDown);
    assert_eq!(c, RuleCondition::PriceCrossLevel { level: 7, direction: CrossDirection::CrossDown });
    c.set_threshold(9);
    assert_eq!(c, RuleCondition::PriceCrossLevel { level: 9, direction: CrossDirection::CrossDown });
    c.set_compare_direction(CompareDirection::Below);
    assert_eq!(c.kind(), ConditionKind::PriceCrossLevel);
    assert_eq!(c.compare_direction(), None);
    let mut v = RuleCondition::VolumeIs { value: 1, direction: CompareDirection::Above };
    v.set_cross_direction(CrossDirection::CrossDown);
    assert_eq!(v, RuleCondition::VolumeIs { value: 1, direction: CompareDirection::Above });
    assert_eq!(v.trigger_direction(), CrossDirection::CrossUp);
}

#[test]
fn threshold_labels_and_sounds() {
    assert_eq!(threshold_label(ConditionKind::RsiCrossLevel), "RSI level");
    assert_eq!(threshold_label(ConditionKind::CandleCloseCrossLevel), "Level");
    assert_eq!(threshold_label(ConditionKind::VwapCross), "");
    assert_eq!(sound_for_direction(CrossDirection::CrossUp), SoundType::Buy);
    assert_eq!(sound_for_direction(CrossDirection::CrossDown), SoundType::Sell);
}

#[test]
fn action_toggle_adds_once_and_removes_all() {
    let mut r = rule_with(vec![]);
    upsert_action(&mut r, RuleAction::Sound { enabled: true }, true);
    upsert_action(&mut r, RuleAction::Sound { enabled: true }, true);
    assert_eq!(r.actions, vec![RuleAction::Sound { enabled: true }]);
    r.actions.push(RuleAction::Push { enabled: true });
    r.actions.push(RuleAction::Sound { enabled: false });
    upsert_action(&mut r, RuleAction::Sound { enabled: true }, false);
    assert_eq!(r.actions, vec![RuleAction::Push { enabled: true }]);
    assert!(!has_action_kind(&r.actions, 1));
    assert!(has_action_kind(&r.actions, 3));
}

#[test]
fn toast_and_paper_settings() {
    let mut r = rule_with(vec![]);
    assert_eq!(toast_message_or_default(&r.actions), "Rule triggered");
    set_toast_message(&mut r, "hi".to_string());
    assert_eq!(toast_message_or_default(&r.actions), "hi");
    assert_eq!(paper_percent_or_default(&r.actions), 25.0f32.to_bits());
    r.actions.push(RuleAction::PaperTrade { side: Side::Sell, percent_of_balance: 10.0f32.to_bits() });
    set_paper_percent(&mut r, 40.0f32.to_bits());
    assert_eq!(paper_percent_or_default(&r.actions), 40.0f32.to_bits());
}

#[test]
fn rule_book_editing() {
    let mut book = RuleBook::new(vec![]);
    book.add_rule();
    book.add_rule_and_open();
    assert_eq!(book.rules.len(), 2);
    let second = book.rules[1].id;
    assert_eq!(book.rules_expanded, Some(second));
    book.toggle_rule_card(second);
    assert_eq!(book.rules_expanded, None);
    book.rename_rule(second, "cross".to_string());
    book.set_rule_enabled(second, false);
    book.set_rule_condition_kind(second, ConditionKind::AdxIs);
    book.set_rule_compare_direction(second, CompareDirection::Below);
    let r = &book.rules[1];
    assert_eq!(r.name, "cross");
    assert!(!r.enabled);
    assert_eq!(r.condition, RuleCondition::AdxIs { value: ADX_START_VALUE_BITS, direction: CompareDirection::Below });
    book.toggle_rule_card(second);
    book.delete_rule(second);
    assert_eq!(book.rules.len(), 1);
    assert_eq!(book.rules_expanded, None);
    assert!(book.position(second).is_none());
}

#[test]
fn rule_log_is_capped_and_timestamped() {
    let mut book = RuleBook::new(vec![]);
    let rule = RuleSpec::new_default();
    for i in 0..(RULE_LOG_CAP + 5) {
        book.push_rule_log_at("12:00:00".to_string(), &rule, format!("m{i}"));
    }
    assert_eq!(book.rule_log.len(), RULE_LOG_CAP);
    assert_eq!(book.rule_log.last().unwrap().message, format!("m{}", RULE_LOG_CAP + 4));
    assert_eq!(book.rule_log[0].message, "m5");
    book.push_rule_log(&rule, "now".to_string());
    let t = &book.rule_log.last().unwrap().time_hms;
    assert_eq!(t.len(), 8);
    assert_eq!(&t[2..3], ":");
    assert_eq!(&t[5..6], ":");
    book.clear_rule_log();
    assert!(book.rule_log.is_empty());
}

#[test]
fn capped_push_keeps_the_newest() {
    let mut v = vec![1, 2, 3];
    push_capped(&mut v, 4, 3);
    assert_eq!(v, vec![2, 3, 4]);
    push_capped(&mut v, 5, 5);
    assert_eq!(v, vec![2, 3, 4, 5]);
}

#[test]
fn cooldown_lets_a_rule_through_once_per_period() {
    let mut book = RuleBook::new(vec![]);
    let mut rule = RuleSpec::new_default();
    rule.cooldown_ms = 1000;
    assert!(book.cooldown_allows(&rule, 5000));
    assert!(!book.cooldown_allows(&rule, 5999));
    assert!(!book.cooldown_allows(&rule, 4000));
    assert!(book.cooldown_allows(&rule, 6000));
    rule.cooldown_ms = 0;
    assert!(book.cooldown_allows(&rule, 6000));
    assert!(book.cooldown_allows(&rule, 6000));
}

#[test]
fn tick_evaluation_scheduling() {
    let mut a = RuleSpec::new_default();
    a.evaluation = EvaluationMode::OnCandleClose;
    assert!(!wants_tick_eval(&vec![a.clone()]));
    let b = RuleSpec::new_default();
    assert!(wants_tick_eval(&vec![a, b]));
    assert!(tick_eval_due(true, true, 150));
    assert!(!tick_eval_due(true, true, 149));
    assert!(!tick_eval_due(true, false, 1000));
}

#[test]
fn firing_plans_effects_in_action_order() {
    let mut r = rule_with(vec![
        RuleAction::Sound { enabled: true },
        RuleAction::Telegram { enabled: false },
        RuleAction::Push { enabled: true },
        RuleAction::Toast { message: "up".to_string() },
        RuleAction::Telegram { enabled: true },
    ]);
    r.name = "ma".to_string();
    r.condition = RuleCondition::MovingAverageCross { direction: CrossDirection::CrossDown };
    let plan = plan_actions(&r, Phase::CandleClose, "EURUSD");
    assert_eq!(plan.len(), 4);
    assert!(matches!(plan[0], PlannedAction::PlaySound { sound: SoundType::Sell }));
    match &plan[1] {
        PlannedAction::Push { text } => assert_eq!(text, "[Rule] EURUSD: ma (close)"),
        _ => panic!("push expected"),
    }
    match &plan[3] {
        PlannedAction::Telegram { text } => assert_eq!(text, "[Rule] EURUSD: ma (close)"),
        _ => panic!("telegram expected"),
    }
    let tick = plan_actions(&r, Phase::Tick, "EURUSD");
    match &tick[1] {
        PlannedAction::Push { text } => assert_eq!(text, "[Rule] EURUSD: ma (tick)"),
        _ => panic!("push expected"),
    }
    match &tick[3] {
        PlannedAction::Telegram { text } => assert_eq!(text, "[Rule] EURUSD: ma"),
        _ => panic!("telegram expected"),
    }
    let parts: Vec<String> = plan.iter().filter_map(|a| a.log_part()).collect();
    assert_eq!(join_parts(&parts), "sound | push | toast: up | telegram");
}

#[test]
fn begin_firing_respects_phase_and_cooldown() {
    let mut r = RuleSpec::new_default();
    r.evaluation = EvaluationMode::OnCandleClose;
    let mut book = RuleBook::new(vec![r]);
    assert!(begin_firing(&mut book, 0, Phase::Tick, 10_000, "X").is_none());
    assert!(begin_firing(&mut book, 0, Phase::CandleClose, 10_000, "X").is_some());
    assert!(begin_firing(&mut book, 0, Phase::CandleClose, 10_500, "X").is_none());
    assert!(begin_firing(&mut book, 0, Phase::CandleClose, 11_000, "X").is_some());
}

#[test]
fn notification_texts() {
    assert_eq!(notification_text("r", None, None), None);
    assert_eq!(notification_text("r", Some("hi"), None), Some("[Rule] r: hi".to_string()));
    assert_eq!(
        notification_text("r", None, Some("BUY 1")),
        Some("[Rule] r: Triggered | BUY 1".to_string())
    );
    assert_eq!(ticker_label(None), "unknown");
    assert_eq!(ticker_label(Some("BTCUSDT".to_string())), "BTCUSDT");
}

#[test]
fn firing_by_identifier() {
    let r = RuleSpec::new_default();
    let id = r.id;
    let mut book = RuleBook::new(vec![r]);
    assert!(begin_firing_id(&mut book, id ^ 1, Phase::Tick, 0, "X").is_none());
    let plan = begin_firing_id(&mut book, id, Phase::Tick, 0, "X").unwrap();
    assert_eq!(plan.len(), 1);
    assert!(begin_firing_id(&mut book, id, Phase::Tick, 999, "X").is_none());
    assert!(begin_firing_id(&mut book, id, Phase::CandleClose, 5000, "X").is_none());
}

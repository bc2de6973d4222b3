use flowsurface::pane::push_notification;
use flowsurface::rule_book::NOTIFICATION_CAP;
use flowsurface::audio::{should_play_sound, try_play_sound, StreamCfg, Threshold};
use flowsurface::pane::{category_shown, indicator_sections, reorderable, shows_enabled};
use flowsurface::rule_book::{log_view, RuleBook, RULE_LOG_SHOWN};
use flowsurface::rules::RuleSpec;
use flowsurface::audio::{sounds_for_burst, PlayHistory, PlayOutcome, PlayRecord, SoundType};
use flowsurface::content::{HeatmapIndicator, KlineIndicator};
use flowsurface::log::{Error, LogSize, MAX_LOG_FILE_SIZE};
use flowsurface::pane::{
    cut_trade_batch, delete_notification, heatmap_indicator_category, kline_indicator_category,
    stream_pair_kind, IndicatorBrowser, IndicatorCategory, IndicatorsSidebar, IndicatorsSource,
    InfoKind, SettingsColorsSection, Status, StreamPairKind,
};

#[test]
fn bursts_play_the_side_with_more_trades() {
    assert!(sounds_for_burst(&vec![false, true, false], 5).is_empty());
    assert_eq!(sounds_for_burst(&vec![false, false, true], 2), vec![SoundType::Buy]);
    assert_eq!(sounds_for_burst(&vec![true, true, false], 2), vec![SoundType::Sell]);
    assert_eq!(sounds_for_burst(&vec![true, false], 1), vec![SoundType::Buy, SoundType::Sell]);
    let heavy = vec![true; 9];
    assert_eq!(sounds_for_burst(&heavy, 2), vec![SoundType::HardSell]);
    let eight_buys = vec![false; 8];
    assert_eq!(sounds_for_burst(&eight_buys, 2), vec![SoundType::Buy]);
    let nine_buys = vec![false; 9];
    assert_eq!(sounds_for_burst(&nine_buys, 2), vec![SoundType::HardBuy]);
}

#[test]
fn sound_names_and_indices() {
    assert_eq!(SoundType::Buy.file_name(), "hard-typewriter-click.wav");
    assert_eq!(SoundType::HardSell.file_name(), "fall-on-foam-splash.wav");
    assert_eq!(SoundType::Sell.index(), 2);
}

#[test]
fn overlapping_plays_share_the_volume() {
    let mut rec = PlayRecord::new();
    assert_eq!(rec.register_play(1_000_000_000), 1);
    assert_eq!(rec.register_play(1_005_000_000), 2);
    assert_eq!(rec.register_play(1_009_000_000), 3);
    assert_eq!(rec.register_play(1_019_000_000), 1);
    assert_eq!(rec.register_play(1_000_000_000), 2);
}

#[test]
fn play_requests() {
    let mut h = PlayHistory::new();
    assert_eq!(h.play(SoundType::Buy, true, true, 0), Ok(PlayOutcome::Muted));
    assert_eq!(
        h.play(SoundType::HardBuy, false, false, 0),
        Err("Sound 'dry-pop-up.wav' not loaded".to_string())
    );
    assert_eq!(h.play(SoundType::Sell, false, true, 0), Ok(PlayOutcome::Play { overlap: 1 }));
    assert_eq!(h.play(SoundType::Sell, false, true, 1), Ok(PlayOutcome::Play { overlap: 2 }));
    assert_eq!(h.play(SoundType::Buy, false, true, 1), Ok(PlayOutcome::Play { overlap: 1 }));
    assert_eq!(h.records[2].overlap, 2);
}

#[test]
fn status_lines() {
    assert_eq!(Status::ready().text(), None);
    assert_eq!(Status::Loading(InfoKind::FetchingKlines).text(), Some("Fetching Klines...".to_string()));
    assert_eq!(
        Status::Loading(InfoKind::FetchingTrades(1250)).text(),
        Some("Fetching Trades... 1250 fetched".to_string())
    );
    assert_eq!(Status::Loading(InfoKind::FetchingTrades(0)).text(), Some("Fetching Trades... 0 fetched".to_string()));
    assert_eq!(Status::Stale("old".to_string()).text(), Some("old".to_string()));
}

#[test]
fn trade_batches_update_the_status() {
    let mut s = Status::Ready;
    s.record_trade_batch(100, false, true);
    assert_eq!(s, Status::Loading(InfoKind::FetchingTrades(100)));
    s.record_trade_batch(50, false, true);
    assert_eq!(s, Status::Loading(InfoKind::FetchingTrades(150)));
    s.record_trade_batch(10, true, false);
    assert_eq!(s, Status::Loading(InfoKind::FetchingTrades(160)));
    s.record_trade_batch(1, true, true);
    assert_eq!(s, Status::Ready);
}

#[test]
fn batches_are_cut_at_the_end_of_the_fetch() {
    assert_eq!(cut_trade_batch(&vec![1, 5, 9], 10), (vec![0, 1, 2], false));
    assert_eq!(cut_trade_batch(&vec![1, 12, 9, 15], 10), (vec![0, 2], true));
    assert_eq!(cut_trade_batch(&vec![], 10), (vec![], false));
    assert_eq!(cut_trade_batch(&vec![], 0), (vec![], true));
}

#[test]
fn notifications_are_deleted_by_position() {
    let mut v = vec!["a", "b", "c"];
    delete_notification(&mut v, 1);
    assert_eq!(v, vec!["a", "c"]);
    delete_notification(&mut v, 7);
    assert_eq!(v, vec!["a", "c"]);
}

#[test]
fn indicator_categories() {
    assert_eq!(kline_indicator_category(KlineIndicator::OpenInterest), IndicatorCategory::Derivatives);
    assert_eq!(kline_indicator_category(KlineIndicator::StochRsi), IndicatorCategory::Oscillators);
    assert_eq!(kline_indicator_category(KlineIndicator::DmiAdx), IndicatorCategory::Trend);
    assert_eq!(heatmap_indicator_category(HeatmapIndicator::Volume), IndicatorCategory::Volume);
    assert_eq!(IndicatorCategory::Volatility.label(), "Volatility");
}

#[test]
fn indicator_browser_selections() {
    let mut b = IndicatorBrowser::new();
    b.toggle_colors(SettingsColorsSection::Macd);
    b.toggle_colors(SettingsColorsSection::Rsi);
    assert_eq!(b.colors_expanded, vec![SettingsColorsSection::Macd, SettingsColorsSection::Rsi]);
    b.toggle_colors(SettingsColorsSection::Macd);
    assert_eq!(b.colors_expanded, vec![SettingsColorsSection::Rsi]);
    b.set_query("rsi".to_string());
    b.select_sidebar(IndicatorsSidebar::Oscillators);
    b.select_source(IndicatorsSource::Community);
    assert_eq!(b.query, "");
    assert_eq!(b.sidebar, IndicatorsSidebar::All);
    assert_eq!(b.source, IndicatorsSource::Community);
    assert_eq!(b.colors_expanded, vec![SettingsColorsSection::Rsi]);
}

#[test]
fn source_kinds_of_panes() {
    assert_eq!(stream_pair_kind(&vec![]), None);
    assert_eq!(stream_pair_kind(&vec![7, 7]), Some(StreamPairKind::SingleSource(7)));
    assert_eq!(
        stream_pair_kind(&vec![3, 1, 3, 2, 1]),
        Some(StreamPairKind::MultiSource(vec![3, 1, 2]))
    );
}

#[test]
fn log_file_cap() {
    let mut l = LogSize::opened(MAX_LOG_FILE_SIZE - 10);
    assert!(l.fits(10));
    assert!(!l.fits(11));
    l.record_written(10, 4);
    assert!(l.fits(6));
    assert!(!l.fits(7));
    assert!(!LogSize::opened(MAX_LOG_FILE_SIZE + 1).fits(0));
    assert!(!LogSize::opened(0).fits(u64::MAX));
    assert_eq!(MAX_LOG_FILE_SIZE, 50 * 1024 * 1024);
}

#[test]
fn log_errors_show_their_cause() {
    assert_eq!(Error::Io("denied".to_string()).message(), "denied");
    assert_eq!(Error::ParseLevel("bad level".to_string()).message(), "bad level");
}

#[test]
fn indicator_browser_sections() {
    let available = vec![KlineIndicator::Atr, KlineIndicator::Rsi, KlineIndicator::Volume, KlineIndicator::StochRsi];
    let all = indicator_sections(&available, IndicatorsSidebar::All);
    assert_eq!(
        all,
        vec![
            (IndicatorCategory::Volume, vec![KlineIndicator::Volume]),
            (IndicatorCategory::Oscillators, vec![KlineIndicator::Rsi, KlineIndicator::StochRsi]),
            (IndicatorCategory::Volatility, vec![KlineIndicator::Atr]),
        ]
    );
    assert_eq!(
        indicator_sections(&available, IndicatorsSidebar::Oscillators),
        vec![(IndicatorCategory::Oscillators, vec![KlineIndicator::Rsi, KlineIndicator::StochRsi])]
    );
    assert!(indicator_sections(&available, IndicatorsSidebar::Enabled).is_empty());
    assert!(indicator_sections(&available, IndicatorsSidebar::Trend).is_empty());
    assert!(!category_shown(IndicatorsSidebar::Overlays, IndicatorCategory::Volume));
    assert!(shows_enabled(IndicatorsSidebar::Enabled));
    assert!(!shows_enabled(IndicatorsSidebar::Volume));
    assert!(reorderable(true, 2));
    assert!(!reorderable(true, 1));
    assert!(!reorderable(false, 5));
}

#[test]
fn trigger_log_shows_newest_first() {
    let mut book = RuleBook::new(vec![]);
    let mut rule = RuleSpec::new_default();
    rule.name = "r1".to_string();
    book.push_rule_log_at("10:00:00".to_string(), &rule, "first".to_string());
    book.push_rule_log_at("10:00:05".to_string(), &rule, "second".to_string());
    let view = log_view(&book.rule_log);
    assert_eq!(view, vec![
        ("10:00:05  r1".to_string(), "second".to_string()),
        ("10:00:00  r1".to_string(), "first".to_string()),
    ]);
    for i in 0..300 {
        book.push_rule_log_at("11:00:00".to_string(), &rule, format!("{i}"));
    }
    let view = log_view(&book.rule_log);
    assert_eq!(view.len(), RULE_LOG_SHOWN);
    assert_eq!(view[0].1, "299");
}

#[test]
fn stream_sound_settings() {
    let on = StreamCfg { enabled: true, threshold: Threshold::Count(2) };
    let off = StreamCfg { enabled: false, threshold: Threshold::Count(2) };
    assert_eq!(should_play_sound(true, false, true, Some(on)), Some(on));
    assert_eq!(should_play_sound(true, true, true, Some(on)), None);
    assert_eq!(should_play_sound(false, false, true, Some(on)), None);
    assert_eq!(should_play_sound(true, false, false, Some(on)), None);
    assert_eq!(should_play_sound(true, false, true, Some(off)), None);
    assert_eq!(should_play_sound(true, false, true, None), None);
    assert_eq!(try_play_sound(on, &vec![true, true, false]), vec![SoundType::Sell]);
}

#[test]
fn notifications_are_capped() {
    let mut v: Vec<usize> = Vec::new();
    for i in 0..(NOTIFICATION_CAP + 3) {
        push_notification(&mut v, i);
    }
    assert_eq!(v.len(), 200);
    assert_eq!(v[0], 3);
    assert_eq!(*v.last().unwrap(), NOTIFICATION_CAP + 2);
}

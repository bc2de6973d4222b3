use flowsurface::streams::{set_candles_overlay, set_sync_to_candles};
use flowsurface::adapter::Timeframe;
use flowsurface::content::{ContentKind, HeatmapStudy, ProfileKind};
use flowsurface::kline::{
    ma_pair_from_kind, vwap_session_start, CandleSource, CandleStudy, ClusterKind, ClusterScaling, Config,
    FootprintStudy, KlineChartKind, MovingAverageKind, NPoc,
};
use flowsurface::streams::{
    by_basis_default, heatmap_sync_basis, plan_streams, resolve_heatmap_candle_tf,
    update_overlay_streams, Basis, CandleTimeframe, HeatmapCandleConfig, StreamPlan,
};
use flowsurface::study::{candle_study_catalog, selected_config, window_label, Action, Configurator, Message};

#[test]
fn study_labels() {
    let fast = CandleStudy::MovingAverageFast {
        kind: MovingAverageKind::EMA,
        period: 20,
        source: CandleSource::Close,
        color_rgb: [0, 0, 0],
    };
    assert_eq!(fast.label(), "Fast EMA(20)");
    let bb = CandleStudy::BollingerBands {
        period: 20,
        source: CandleSource::Close,
        stddev_x100: 205,
        mid_color_rgb: [0; 3],
        upper_color_rgb: [0; 3],
        lower_color_rgb: [0; 3],
    };
    assert_eq!(bb.label(), "Bollinger Bands (20, 2.05\u{3c3})");
    let st = CandleStudy::Supertrend { atr_period: 10, multiplier_x100: 300, up_color_rgb: [0; 3], down_color_rgb: [0; 3] };
    assert_eq!(st.label(), "Supertrend (ATR 10, x3.00)");
    let ichi = CandleStudy::Ichimoku {
        tenkan_period: 9,
        kijun_period: 26,
        senkou_period: 52,
        tenkan_color_rgb: [0; 3],
        kijun_color_rgb: [0; 3],
        span_a_color_rgb: [0; 3],
        span_b_color_rgb: [0; 3],
        lag_color_rgb: [0; 3],
    };
    assert_eq!(ichi.label(), "Ichimoku (9/26/52)");
    assert_eq!(ClusterKind::DeltaProfile.label(), "Delta Profile");
    assert_eq!(FootprintStudy::NPoC { lookback: 1 }.label(), "Naked Point of Control");
}

#[test]
fn hundredths_match_float_formatting() {
    for x in [0u16, 5, 99, 100, 150, 205, 1234, 65535] {
        let v = CandleStudy::VwapBands {
            source: CandleSource::Close,
            reset_daily_utc: false,
            band_stddev_x100: x,
            vwap_color_rgb: [0; 3],
            upper_color_rgb: [0; 3],
            lower_color_rgb: [0; 3],
        };
        let sd = x as f32 / 100.0;
        assert_eq!(v.label(), format!("VWAP ({sd:.2}\u{3c3})"));
    }
}

#[test]
fn catalog_lists_each_study_once() {
    let all = candle_study_catalog();
    assert_eq!(all.len(), 9);
    for (i, a) in all.iter().enumerate() {
        for (j, b) in all.iter().enumerate() {
            assert_eq!(a.is_same_type(b), i == j);
        }
    }
    assert_eq!(all[4].label(), "Supertrend (ATR 10, x3.00)");
    assert_eq!(all[7].label(), "Keltner Channels (EMA 20, ATR 14, x1.50)");
    assert_eq!(FootprintStudy::all().len(), 2);
    assert_eq!(ClusterKind::all(), [ClusterKind::BidAsk, ClusterKind::VolumeProfile, ClusterKind::DeltaProfile]);
}

#[test]
fn card_toggles() {
    let mut c: Configurator<FootprintStudy> = Configurator::new();
    let a = FootprintStudy::NPoC { lookback: 80 };
    let b = FootprintStudy::NPoC { lookback: 120 };
    assert!(c.update(Message::CardToggled(a)).is_none());
    assert_eq!(c.expanded_card, Some(a));
    assert!(c.is_expanded(&b));
    c.update(Message::CardToggled(b));
    assert_eq!(c.expanded_card, None);
    match c.update(Message::StudyToggled(a, true)) {
        Some(Action::ToggleStudy(s, on)) => {
            assert_eq!(s, a);
            assert!(on);
        }
        _ => panic!("toggle expected"),
    }
    assert!(matches!(c.update(Message::StudyValueChanged(b)), Some(Action::ConfigureStudy(_))));
    assert_eq!(c.expanded_card, None);
}

#[test]
fn selected_settings_are_the_first_of_the_variant() {
    let active = vec![
        FootprintStudy::Imbalance { threshold: 200, color_scale: None, ignore_zeros: true },
        FootprintStudy::NPoC { lookback: 40 },
        FootprintStudy::NPoC { lookback: 90 },
    ];
    assert_eq!(
        selected_config(&active, &FootprintStudy::NPoC { lookback: 80 }),
        Some(FootprintStudy::NPoC { lookback: 40 })
    );
    assert_eq!(selected_config(&active[..1].to_vec(), &FootprintStudy::NPoC { lookback: 80 }), None);
}

#[test]
fn profile_window_labels() {
    assert_eq!(window_label(30, 1000), "Window: 30 datapoints (30 seconds)");
    assert_eq!(window_label(120, 1000), "Window: 120 datapoints (2 minutes)");
    assert_eq!(window_label(130, 1000), "Window: 130 datapoints (2m 10s)");
    assert_eq!(window_label(5, 100), "Window: 5 datapoints (0 seconds)");
    let _ = HeatmapStudy::VolumeProfile(ProfileKind::VisibleRange);
}

#[test]
fn candle_overlay_timeframes() {
    let off = HeatmapCandleConfig { show_candles: false, candle_timeframe: Some(Timeframe::M1), sync_heatmap_to_candles: true };
    assert_eq!(resolve_heatmap_candle_tf(off, None), None);
    let set = HeatmapCandleConfig { show_candles: true, candle_timeframe: Some(Timeframe::M1), sync_heatmap_to_candles: true };
    assert_eq!(resolve_heatmap_candle_tf(set, None), Some(CandleTimeframe::Chosen(Timeframe::M1)));
    let auto = HeatmapCandleConfig { show_candles: true, candle_timeframe: None, sync_heatmap_to_candles: false };
    assert_eq!(
        resolve_heatmap_candle_tf(auto, Some(Basis::Time(Timeframe::MS500))),
        Some(CandleTimeframe::DefaultFor(Timeframe::MS500))
    );
    assert_eq!(resolve_heatmap_candle_tf(auto, Some(Basis::Tick(50))), Some(CandleTimeframe::DefaultFor(Timeframe::M5)));
    assert_eq!(heatmap_sync_basis(set, None, Some(Timeframe::M1)), Some(Basis::Time(Timeframe::M1)));
    assert_eq!(heatmap_sync_basis(set, Some(Basis::Time(Timeframe::M1)), Some(Timeframe::M1)), None);
    assert_eq!(heatmap_sync_basis(auto, None, Some(Timeframe::M1)), None);
}

#[test]
fn streams_per_content_kind() {
    assert_eq!(
        plan_streams(ContentKind::FootprintChart, None, None, 1),
        vec![StreamPlan::DepthAndTrades, StreamPlan::Kline { ticker: 0, timeframe: Timeframe::M5 }]
    );
    assert_eq!(
        plan_streams(ContentKind::CandlestickChart, Some(Basis::Tick(100)), None, 1),
        vec![StreamPlan::DepthAndTradesCoarse]
    );
    assert_eq!(
        plan_streams(ContentKind::CandlestickChart, None, None, 1),
        vec![StreamPlan::Kline { ticker: 0, timeframe: Timeframe::M15 }]
    );
    assert_eq!(
        plan_streams(ContentKind::HeatmapChart, Some(Basis::Time(Timeframe::MS100)), Some(Timeframe::M1), 1),
        vec![StreamPlan::DepthAndTrades, StreamPlan::Kline { ticker: 0, timeframe: Timeframe::M1 }]
    );
    assert_eq!(plan_streams(ContentKind::HeatmapChart, None, Some(Timeframe::M1), 1), vec![StreamPlan::DepthAndTrades]);
    assert_eq!(plan_streams(ContentKind::TimeAndSales, None, None, 1), vec![StreamPlan::DepthAndTradesDefaultPush]);
    assert_eq!(
        plan_streams(ContentKind::ComparisonChart, Some(Basis::Time(Timeframe::H1)), None, 3),
        vec![
            StreamPlan::Kline { ticker: 0, timeframe: Timeframe::H1 },
            StreamPlan::Kline { ticker: 1, timeframe: Timeframe::H1 },
            StreamPlan::Kline { ticker: 2, timeframe: Timeframe::H1 },
        ]
    );
}

#[test]
fn overlay_streams_follow_the_overlay() {
    let mut s = vec![StreamPlan::DepthAndTrades, StreamPlan::Kline { ticker: 0, timeframe: Timeframe::M1 }];
    let r = update_overlay_streams(&mut s, Some(Timeframe::M5), true);
    assert_eq!(r, (true, Some(StreamPlan::Kline { ticker: 0, timeframe: Timeframe::M5 })));
    assert_eq!(s[1], StreamPlan::Kline { ticker: 0, timeframe: Timeframe::M5 });
    assert_eq!(update_overlay_streams(&mut s, Some(Timeframe::M5), true), (false, None));
    assert_eq!(update_overlay_streams(&mut s, None, true), (true, None));
    assert_eq!(s, vec![StreamPlan::DepthAndTrades]);
    assert_eq!(update_overlay_streams(&mut s, None, true), (false, None));
    assert_eq!(update_overlay_streams(&mut s, Some(Timeframe::M1), false), (false, None));
    let r = update_overlay_streams(&mut s, Some(Timeframe::M1), true);
    assert_eq!(r, (true, Some(StreamPlan::Kline { ticker: 0, timeframe: Timeframe::M1 })));
    assert_eq!(s.len(), 2);
}

#[test]
fn basis_default_picks_the_branch() {
    let t = by_basis_default(None, Timeframe::M15, |tf| tf.to_milliseconds(), || 0);
    assert_eq!(t, 900_000);
    let k = by_basis_default(Some(Basis::Tick(10)), Timeframe::M15, |tf| tf.to_milliseconds(), || 7);
    assert_eq!(k, 7);
}

#[test]
fn kline_kinds_and_settings() {
    assert_eq!(Config::default().rsi_period, 14);
    assert_eq!(Config::default().macd_slow, 26);
    let mut p = NPoc::default_status();
    p.filled(42);
    assert_eq!(p, NPoc::Filled { at: 42 });
    p.unfilled();
    assert_eq!(p, NPoc::Naked);
    let kind = KlineChartKind::Footprint { clusters: ClusterKind::BidAsk, scaling: ClusterScaling::Hybrid { weight_bits: 0.2f32.to_bits() }, studies: vec![] };
    assert_eq!(kind.duplicate(), kind);
    assert_eq!(ma_pair_from_kind(&KlineChartKind::Candles), None);
}

#[test]
fn vwap_sessions_start_at_the_last_day() {
    let day = 86_400_000u64;
    let times = vec![day - 10, day, day + 5, 2 * day - 1];
    assert_eq!(vwap_session_start(&times, true), 1);
    assert_eq!(vwap_session_start(&times, false), 0);
    assert_eq!(vwap_session_start(&vec![day, day + 1], true), 0);
    assert_eq!(vwap_session_start(&vec![], true), 0);
    let back = vec![day, 0, day];
    assert_eq!(vwap_session_start(&back, true), 2);
}

#[test]
fn overlay_switches() {
    let cfg = HeatmapCandleConfig { show_candles: false, candle_timeframe: None, sync_heatmap_to_candles: false };
    let on = set_candles_overlay(cfg, true, Some(Timeframe::M1));
    assert_eq!(on, HeatmapCandleConfig { show_candles: true, candle_timeframe: Some(Timeframe::M1), sync_heatmap_to_candles: false });
    let off = set_candles_overlay(on, false, Some(Timeframe::M5));
    assert_eq!(off.candle_timeframe, Some(Timeframe::M1));
    assert!(!off.show_candles);
    let synced = set_sync_to_candles(cfg, true, None);
    assert_eq!(synced.candle_timeframe, Some(Timeframe::M5));
    assert!(synced.sync_heatmap_to_candles);
    let unsynced = set_sync_to_candles(cfg, false, Some(Timeframe::M1));
    assert_eq!(unsynced.candle_timeframe, None);
}

#[test]
fn decimal_renderings() {
    let mut s = String::from("n=");
    flowsurface::text::push_decimal(&mut s, 0);
    assert_eq!(s, "n=0");
    let mut t = String::new();
    flowsurface::text::push_decimal(&mut t, u64::MAX);
    assert_eq!(t, u64::MAX.to_string());
    let mut h = String::new();
    flowsurface::text::push_hundredths(&mut h, 7);
    assert_eq!(h, "0.07");
    let mut k = String::new();
    flowsurface::text::push_hundredths(&mut k, 123456);
    assert_eq!(k, "1234.56");
}

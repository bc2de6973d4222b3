use flowsurface::content::{kept_indicators, kline_kind_for, split_count};
use flowsurface::content::{sync_applies, VisualKind};
use flowsurface::content::{
    Autoscale, Content, ContentKind, DragEvent, HeatmapChart, HeatmapIndicator, HeatmapStudy,
    KlineChart, KlineIndicator, Panel, ProfileKind, Study, TickAction, UiIndicator, ViewConfig,
    VisualConfig,
};
use flowsurface::kline::{ClusterKind, ClusterScaling, Config, FootprintStudy, KlineChartKind};

fn built_kline(kind: KlineChartKind, indicators: Vec<KlineIndicator>) -> Content<u8> {
    Content::Kline {
        chart: Some(KlineChart { kind: kind.clone(), visual: Config::default(), last_update_ms: 1_000 }),
        indicators,
        layout: ViewConfig { splits: vec![], autoscale: Some(Autoscale::FitToVisible) },
        kind,
    }
}

fn built_heatmap(show_candles: bool) -> Content<u8> {
    Content::Heatmap {
        chart: Some(HeatmapChart {
            show_candles,
            visual: 0,
            studies: vec![],
            basis_interval_ms: Some(100),
            last_update_ms: 2_000,
        }),
        indicators: vec![HeatmapIndicator::Volume],
        layout: ViewConfig { splits: vec![], autoscale: Some(Autoscale::CenterLatest) },
        studies: vec![],
    }
}

fn indicators_of(c: &Content<u8>) -> Vec<KlineIndicator> {
    match c {
        Content::Kline { indicators, .. } => indicators.clone(),
        _ => panic!("kline pane expected"),
    }
}

#[test]
fn placeholders_match_their_kind() {
    let c: Content<u8> = Content::placeholder(ContentKind::FootprintChart);
    match &c {
        Content::Kline { chart, indicators, layout, kind } => {
            assert!(chart.is_none());
            assert_eq!(indicators, &vec![KlineIndicator::Volume]);
            assert!(layout.splits.is_empty());
            assert_eq!(layout.autoscale, Some(Autoscale::FitToVisible));
            assert_eq!(
                kind,
                &KlineChartKind::Footprint {
                    clusters: ClusterKind::BidAsk,
                    scaling: ClusterScaling::VisibleRange,
                    studies: vec![]
                }
            );
        }
        _ => panic!("kline pane expected"),
    }
    assert_eq!(c.kind(), ContentKind::FootprintChart);
    assert!(!c.initialized());
    let h: Content<u8> = Content::placeholder(ContentKind::CandlesHeatmapChart);
    assert_eq!(h.kind(), ContentKind::HeatmapChart);
    let s: Content<u8> = Content::placeholder(ContentKind::Starter);
    assert!(s.initialized());
    assert_eq!(s.kind(), ContentKind::Starter);
    assert_eq!(s.last_tick(), None);
    let l: Content<u8> = Content::placeholder(ContentKind::Ladder);
    assert!(matches!(l, Content::Ladder(None)));
}

#[test]
fn kind_reports_candles_heatmap_once_built_with_the_overlay() {
    assert_eq!(built_heatmap(true).kind(), ContentKind::CandlesHeatmapChart);
    assert_eq!(built_heatmap(false).kind(), ContentKind::HeatmapChart);
    let studied = built_kline(KlineChartKind::CandlesStudied { studies: vec![] }, vec![]);
    assert_eq!(studied.kind(), ContentKind::CandlestickChart);
}

#[test]
fn toggling_an_indicator_twice_restores_the_list() {
    let mut c = built_kline(KlineChartKind::Candles, vec![KlineIndicator::Volume]);
    c.toggle_indicator(UiIndicator::Kline(KlineIndicator::Rsi));
    assert_eq!(indicators_of(&c), vec![KlineIndicator::Volume, KlineIndicator::Rsi]);
    c.toggle_indicator(UiIndicator::Kline(KlineIndicator::Rsi));
    assert_eq!(indicators_of(&c), vec![KlineIndicator::Volume]);
}

#[test]
fn toggling_removes_every_copy() {
    let mut c = built_kline(
        KlineChartKind::Candles,
        vec![KlineIndicator::Macd, KlineIndicator::Volume, KlineIndicator::Macd],
    );
    c.toggle_indicator(UiIndicator::Kline(KlineIndicator::Macd));
    assert_eq!(indicators_of(&c), vec![KlineIndicator::Volume]);
}

#[test]
fn toggling_before_the_chart_is_built_changes_nothing() {
    let mut c: Content<u8> = Content::placeholder(ContentKind::CandlestickChart);
    c.toggle_indicator(UiIndicator::Kline(KlineIndicator::Atr));
    assert_eq!(indicators_of(&c), vec![KlineIndicator::Volume]);
}

#[test]
fn dropping_an_indicator_moves_it() {
    let mut c = built_kline(
        KlineChartKind::Candles,
        vec![KlineIndicator::Volume, KlineIndicator::Rsi, KlineIndicator::Atr],
    );
    c.reorder_indicators(&DragEvent::Dropped { index: 0, target_index: 2 });
    assert_eq!(
        indicators_of(&c),
        vec![KlineIndicator::Rsi, KlineIndicator::Atr, KlineIndicator::Volume]
    );
    c.reorder_indicators(&DragEvent::Picked { index: 1 });
    c.reorder_indicators(&DragEvent::Dropped { index: 5, target_index: 0 });
    assert_eq!(
        indicators_of(&c),
        vec![KlineIndicator::Rsi, KlineIndicator::Atr, KlineIndicator::Volume]
    );
}

#[test]
fn visual_settings_reach_only_their_pane_kind() {
    let mut c = built_kline(KlineChartKind::Candles, vec![]);
    let mut cfg = Config::default();
    cfg.rsi_period = 21;
    c.change_visual_config(VisualConfig::Kline(cfg));
    match &c {
        Content::Kline { chart: Some(k), .. } => assert_eq!(k.visual.rsi_period, 21),
        _ => panic!("built kline expected"),
    }
    let mut h = built_heatmap(false);
    h.change_visual_config(VisualConfig::Kline(Config::default()));
    assert_eq!(h.kind(), ContentKind::HeatmapChart);
    h.change_visual_config(VisualConfig::Heatmap { show_candles: true, rest: 3 });
    assert_eq!(h.kind(), ContentKind::CandlesHeatmapChart);
    let mut p: Content<u8> = Content::TimeAndSales(Some(Panel { config: 1, last_update_ms: 5 }));
    p.change_visual_config(VisualConfig::TimeAndSales(9));
    match &p {
        Content::TimeAndSales(Some(panel)) => assert_eq!(panel.config, 9),
        _ => panic!("panel expected"),
    }
}

#[test]
fn studies_follow_the_pane() {
    let fp = KlineChartKind::Footprint {
        clusters: ClusterKind::DeltaProfile,
        scaling: ClusterScaling::Datapoint,
        studies: vec![FootprintStudy::NPoC { lookback: 80 }],
    };
    let mut c = built_kline(fp, vec![]);
    assert_eq!(c.studies(), Some(Study::Footprint(vec![FootprintStudy::NPoC { lookback: 80 }])));
    let new_studies = vec![FootprintStudy::Imbalance { threshold: 300, color_scale: None, ignore_zeros: false }];
    c.update_studies(Study::Footprint(new_studies.clone()));
    assert_eq!(c.studies(), Some(Study::Footprint(new_studies.clone())));
    match c.chart_kind() {
        Some(KlineChartKind::Footprint { clusters, studies, .. }) => {
            assert_eq!(clusters, ClusterKind::DeltaProfile);
            assert_eq!(studies, new_studies);
        }
        _ => panic!("footprint kind expected"),
    }
    let candles = built_kline(KlineChartKind::Candles, vec![]);
    assert_eq!(candles.studies(), None);
    let mut h = built_heatmap(false);
    let vp = vec![HeatmapStudy::VolumeProfile(ProfileKind::FixedWindow(400))];
    h.update_studies(Study::Heatmap(vp.clone()));
    assert_eq!(h.studies(), Some(Study::Heatmap(vp)));
}

#[test]
fn tick_actions() {
    let c = built_kline(KlineChartKind::Candles, vec![]);
    assert_eq!(c.tick_action(1, 5_000), TickAction::ResolveStreams);
    assert_eq!(c.tick_action(0, 1_999), TickAction::Wait);
    assert_eq!(c.tick_action(0, 2_000), TickAction::Invalidate);
    assert_eq!(c.tick_action(0, 500), TickAction::Wait);
    let unbuilt: Content<u8> = Content::placeholder(ContentKind::Ladder);
    assert_eq!(unbuilt.tick_action(0, 0), TickAction::ResolveContent);
    let starter: Content<u8> = Content::Starter;
    assert_eq!(starter.update_interval(), None);
    assert_eq!(starter.tick_action(0, 99), TickAction::Wait);
    let ladder: Content<u8> = Content::Ladder(Some(Panel { config: 0, last_update_ms: 0 }));
    assert_eq!(ladder.update_interval(), Some(100));
    assert_eq!(built_heatmap(false).update_interval(), Some(100));
    assert_eq!(built_heatmap(false).last_tick(), Some(2_000));
}

#[test]
fn contents_compare_by_pane_kind() {
    let a = built_kline(KlineChartKind::Candles, vec![]);
    let b: Content<u8> = Content::placeholder(ContentKind::FootprintChart);
    assert!(a == b);
    assert!(a != built_heatmap(true));
    let cmp: Content<u8> = Content::Comparison(None);
    assert!(cmp != Content::Comparison(None));
    assert!(Content::<u8>::default() == Content::Starter);
}

#[test]
fn shared_visual_settings_apply_by_kind() {
    let k = built_kline(KlineChartKind::Candles, vec![]);
    assert!(sync_applies(Some(VisualKind::Kline), VisualKind::Kline, &k));
    assert!(!sync_applies(Some(VisualKind::Heatmap), VisualKind::Kline, &k));
    assert!(sync_applies(None, VisualKind::Kline, &k));
    assert!(!sync_applies(None, VisualKind::Heatmap, &k));
    let ladder: Content<u8> = Content::Ladder(None);
    assert!(!sync_applies(None, VisualKind::Ladder, &ladder));
    assert!(sync_applies(Some(VisualKind::Ladder), VisualKind::Ladder, &ladder));
    let cfg: VisualConfig<u8> = VisualConfig::TimeAndSales(1);
    assert_eq!(cfg.kind(), VisualKind::TimeAndSales);
}

#[test]
fn reordering_keeps_every_indicator() {
    let items = vec![KlineIndicator::Volume, KlineIndicator::Rsi, KlineIndicator::Atr, KlineIndicator::Rsi];
    for from in 0..5 {
        for to in 0..5 {
            let mut c = built_kline(KlineChartKind::Candles, items.clone());
            c.reorder_indicators(&DragEvent::Dropped { index: from, target_index: to });
            let mut after = indicators_of(&c);
            let mut before = items.clone();
            after.sort_by_key(|i| *i as u8);
            before.sort_by_key(|i| *i as u8);
            assert_eq!(after, before);
        }
    }
}

#[test]
fn new_kline_panes_keep_what_they_can() {
    let prev_fp = KlineChartKind::Footprint {
        clusters: ClusterKind::VolumeProfile,
        scaling: ClusterScaling::Datapoint,
        studies: vec![FootprintStudy::NPoC { lookback: 10 }],
    };
    assert_eq!(kline_kind_for(ContentKind::FootprintChart, Some(&prev_fp)), prev_fp);
    assert_eq!(
        kline_kind_for(ContentKind::FootprintChart, Some(&KlineChartKind::Candles)),
        KlineChartKind::Footprint { clusters: ClusterKind::BidAsk, scaling: ClusterScaling::VisibleRange, studies: vec![] }
    );
    assert_eq!(kline_kind_for(ContentKind::CandlestickChart, Some(&prev_fp)), KlineChartKind::Candles);
    let available = vec![KlineIndicator::Volume, KlineIndicator::Rsi];
    assert_eq!(kept_indicators(None, &available), vec![KlineIndicator::Volume]);
    let prev = vec![KlineIndicator::OpenInterest, KlineIndicator::Rsi, KlineIndicator::Volume];
    assert_eq!(kept_indicators(Some(&prev), &available), vec![KlineIndicator::Rsi, KlineIndicator::Volume]);
    assert_eq!(split_count(0), 1);
    assert_eq!(split_count(1), 1);
    assert_eq!(split_count(3), 3);
}

//! What a dashboard pane shows: the content kinds, the indicator and study
//! selections a pane keeps, and the edits made to them.
//!
//! A chart or panel is held here by what the pane logic reads of it: whether it
//! has been built, when it last updated, its visual settings and its studies.
//! `V` stands for the visual settings of the non-kline panes, which only drawing
//! reads.

use vstd::prelude::*;
use crate::adapter::Timeframe;
use crate::kline::{ClusterKind, ClusterScaling, Config, FootprintStudy, KlineChartKind, copied};

verus! {

/// What a pane can be set to show.
#[derive(Debug, Clone, Copy, PartialEq, Eq, Structural)]
pub enum ContentKind {
    Starter,
    HeatmapChart,
    FootprintChart,
    CandlestickChart,
    CandlesHeatmapChart,
    TimeAndSales,
    Ladder,
    ComparisonChart,
}

/// An indicator panel below a kline chart.
#[derive(Debug, Clone, Copy, PartialEq, Eq, Structural)]
pub enum KlineIndicator {
    Volume,
    OpenInterest,
    Rsi,
    Macd,
    Atr,
    StochRsi,
    DmiAdx,
}

/// An indicator panel below a heatmap chart.
#[derive(Debug, Clone, Copy, PartialEq, Eq, Structural)]
pub enum HeatmapIndicator {
    Volume,
}

/// An indicator as the indicator list offers it, tagged with its chart family.
#[derive(Debug, Clone, Copy, PartialEq, Eq, Structural)]
pub enum UiIndicator {
    Heatmap(HeatmapIndicator),
    Kline(KlineIndicator),
}

/// The window a heatmap volume profile is built over: a fixed number of
/// datapoints, or whatever is visible.
#[derive(Debug, Clone, Copy, PartialEq, Eq, Structural)]
pub enum ProfileKind {
    FixedWindow(usize),
    VisibleRange,
}

/// A study drawn over a heatmap chart.
#[derive(Debug, Clone, Copy, PartialEq, Eq, Structural)]
pub enum HeatmapStudy {
    VolumeProfile(ProfileKind),
}

/// How a chart keeps its price axis in view.
#[derive(Debug, Clone, Copy, PartialEq, Eq, Structural)]
pub enum Autoscale {
    CenterLatest,
    FitToVisible,
}

/// The split positions of a chart pane (bit patterns of `f32` fractions) and its
/// autoscale mode.
#[derive(Debug, Clone, PartialEq, Eq)]
pub struct ViewConfig {
    pub splits: Vec<u32>,
    pub autoscale: Option<Autoscale>,
}

/// The studies of a chart, tagged with the chart family they belong to.
#[derive(Debug, Clone, PartialEq, Eq)]
pub enum Study {
    Heatmap(Vec<HeatmapStudy>),
    Footprint(Vec<FootprintStudy>),
}

/// A built heatmap chart: whether it overlays candles, the rest of its visual
/// settings, its studies, the interval of its basis (none for tick bases) and
/// the time of its last update in milliseconds.
pub struct HeatmapChart<V> {
    pub show_candles: bool,
    pub visual: V,
    pub studies: Vec<HeatmapStudy>,
    pub basis_interval_ms: Option<u64>,
    pub last_update_ms: u64,
}

/// A built kline chart: its kind with its studies, the settings of its indicator
/// panels and the time of its last update in milliseconds.
pub struct KlineChart {
    pub kind: KlineChartKind,
    pub visual: Config,
    pub last_update_ms: u64,
}

/// A built panel (time and sales, ladder or comparison chart).
pub struct Panel<V> {
    pub config: V,
    pub last_update_ms: u64,
}

/// New visual settings for a pane.
pub enum VisualConfig<V> {
    Heatmap { show_candles: bool, rest: V },
    Kline(Config),
    TimeAndSales(V),
    Ladder(V),
    Comparison(V),
}

/// What a pane shows. A chart or panel is `None` until the pane's streams are
/// resolved and it is built.
pub enum Content<V> {
    Starter,
    Heatmap {
        chart: Option<HeatmapChart<V>>,
        indicators: Vec<HeatmapIndicator>,
        layout: ViewConfig,
        studies: Vec<HeatmapStudy>,
    },
    Kline {
        chart: Option<KlineChart>,
        indicators: Vec<KlineIndicator>,
        layout: ViewConfig,
        kind: KlineChartKind,
    },
    TimeAndSales(Option<Panel<V>>),
    Ladder(Option<Panel<V>>),
    Comparison(Option<Panel<V>>),
}

/// What an indicator panel is told when it may fetch history: the timeframe of
/// the chart, the time of its earliest visible candle, of its latest candle and
/// of the earliest candle worth prefetching (milliseconds).
#[derive(Debug, Clone, Copy, PartialEq, Eq, Structural)]
pub struct FetchCtx {
    pub timeframe: Timeframe,
    pub visible_earliest: u64,
    pub kline_latest: u64,
    pub prefetch_earliest: u64,
}

/// A drag in the indicator list: an item was picked up, dropped onto a position,
/// or the drag was canceled.
#[derive(Debug, Clone, Copy, PartialEq, Eq, Structural)]
pub enum DragEvent {
    Picked { index: usize },
    Dropped { index: usize, target_index: usize },
    Canceled { index: usize },
}

/// The test "differs from `x`".
pub open spec fn differs_from<T>(x: T) -> spec_fn(T) -> bool {
    |i: T| i != x
}

/// `s` with `x` removed wherever it occurs if it occurs, else with `x` appended.
pub open spec fn toggled<T>(s: Seq<T>, x: T) -> Seq<T> {
    if s.contains(x) {
        s.filter(differs_from(x))
    } else {
        s.push(x)
    }
}

/// `s` after a drop of the item at `index` onto `target_index`: the item leaves its
/// place and is inserted at the target; a drop outside the list, onto the item's
/// own place, or any other drag event leaves `s` as it is.
pub open spec fn reordered<T>(s: Seq<T>, e: DragEvent) -> Seq<T> {
    match e {
        DragEvent::Dropped { index, target_index } => {
            if index < s.len() && target_index < s.len() && index != target_index {
                s.remove(index as int).insert(target_index as int, s[index as int])
            } else {
                s
            }
        },
        _ => s,
    }
}

/// The layout a placeholder pane starts with.
pub open spec fn is_fresh_layout(l: ViewConfig, autoscale: Autoscale) -> bool {
    l.splits@.len() == 0 && l.autoscale == Some(autoscale)
}

/// `c` is the unbuilt pane that `kind` selects: a kline or heatmap pane with the
/// volume indicator, fresh layout and no studies, or an empty panel.
pub open spec fn is_placeholder<V>(c: Content<V>, kind: ContentKind) -> bool {
    match kind {
        ContentKind::Starter => c is Starter,
        ContentKind::CandlestickChart => match c {
            Content::Kline { chart, indicators, layout, kind } => chart is None && indicators@ == seq![
                KlineIndicator::Volume,
            ] && is_fresh_layout(layout, Autoscale::FitToVisible) && kind == KlineChartKind::Candles,
            _ => false,
        },
        ContentKind::FootprintChart => match c {
            Content::Kline { chart, indicators, layout, kind } => chart is None && indicators@ == seq![
                KlineIndicator::Volume,
            ] && is_fresh_layout(layout, Autoscale::FitToVisible) && (kind matches KlineChartKind::Footprint {
                clusters,
                scaling,
                studies,
            } && clusters == ClusterKind::BidAsk && scaling == ClusterScaling::VisibleRange
                && studies@.len() == 0),
            _ => false,
        },
        ContentKind::HeatmapChart | ContentKind::CandlesHeatmapChart => match c {
            Content::Heatmap { chart, indicators, layout, studies } => chart is None
                && indicators@ == seq![HeatmapIndicator::Volume] && studies@.len() == 0
                && is_fresh_layout(layout, Autoscale::CenterLatest),
            _ => false,
        },
        ContentKind::ComparisonChart => c matches Content::Comparison(p) && p is None,
        ContentKind::TimeAndSales => c matches Content::TimeAndSales(p) && p is None,
        ContentKind::Ladder => c matches Content::Ladder(p) && p is None,
    }
}

fn fresh_layout(autoscale: Autoscale) -> (r: ViewConfig)
    ensures
        is_fresh_layout(r, autoscale),
{
    ViewConfig { splits: Vec::new(), autoscale: Some(autoscale) }
}

fn one_kline_indicator(x: KlineIndicator) -> (r: Vec<KlineIndicator>)
    ensures
        r@ == seq![x],
{
    let mut v = Vec::new();
    v.push(x);
    v
}

fn one_heatmap_indicator(x: HeatmapIndicator) -> (r: Vec<HeatmapIndicator>)
    ensures
        r@ == seq![x],
{
    let mut v = Vec::new();
    v.push(x);
    v
}

/// Toggles `x` in an indicator list, as `toggled` describes.
fn toggle_kline_indicator(v: &mut Vec<KlineIndicator>, x: KlineIndicator)
    ensures
        final(v)@ == toggled(old(v)@, x),
{
    let mut found = false;
    for i in 0..v.len()
        invariant
            found == (exists|j: int| 0 <= j < i && v@[j] == x),
    {
        if v[i] == x {
            found = true;
        }
    }
    if found {
        let ghost pred = differs_from(x);
        let mut out: Vec<KlineIndicator> = Vec::new();
        for i in 0..v.len()
            invariant
                out@ == v@.take(i as int).filter(pred),
                pred == differs_from(x),
        {
            proof {
                reveal(Seq::filter);
                assert(v@.take(i + 1).drop_last() == v@.take(i as int));
            }
            if v[i] != x {
                out.push(v[i]);
            }
        }
        proof {
            assert(v@.take(v@.len() as int) == v@);
        }
        *v = out;
    } else {
        v.push(x);
    }
}

/// Toggles `x` in an indicator list, as `toggled` describes.
fn toggle_heatmap_indicator(v: &mut Vec<HeatmapIndicator>, x: HeatmapIndicator)
    ensures
        final(v)@ == toggled(old(v)@, x),
{
    let mut found = false;
    for i in 0..v.len()
        invariant
            found == (exists|j: int| 0 <= j < i && v@[j] == x),
    {
        if v[i] == x {
            found = true;
        }
    }
    if found {
        let ghost pred = differs_from(x);
        let mut out: Vec<HeatmapIndicator> = Vec::new();
        for i in 0..v.len()
            invariant
                out@ == v@.take(i as int).filter(pred),
                pred == differs_from(x),
        {
            proof {
                reveal(Seq::filter);
                assert(v@.take(i + 1).drop_last() == v@.take(i as int));
            }
            if v[i] != x {
                out.push(v[i]);
            }
        }
        proof {
            assert(v@.take(v@.len() as int) == v@);
        }
        *v = out;
    } else {
        v.push(x);
    }
}

/// Moves an item of `v` as a drop in the indicator list describes.
fn reorder_vec<T>(v: &mut Vec<T>, e: &DragEvent)
    ensures
        final(v)@ == reordered(old(v)@, *e),
{
    if let DragEvent::Dropped { index, target_index } = *e {
        if index < v.len() && target_index < v.len() && index != target_index {
            let item = v.remove(index);
            v.insert(target_index, item);
        }
    }
}

/// The kind a pane's content reports: a heatmap that overlays candles counts as a
/// candles-and-heatmap chart, a kline chart by its kind.
pub open spec fn kind_of<V>(c: Content<V>) -> ContentKind {
    match c {
        Content::Heatmap { chart, .. } => if chart matches Some(h) && h.show_candles {
            ContentKind::CandlesHeatmapChart
        } else {
            ContentKind::HeatmapChart
        },
        Content::Kline { kind, .. } => match kind {
            KlineChartKind::Footprint { .. } => ContentKind::FootprintChart,
            _ => ContentKind::CandlestickChart,
        },
        Content::TimeAndSales(_) => ContentKind::TimeAndSales,
        Content::Ladder(_) => ContentKind::Ladder,
        Content::Comparison(_) => ContentKind::ComparisonChart,
        Content::Starter => ContentKind::Starter,
    }
}

/// Whether the chart or panel of the content has been built; the starter pane
/// has nothing to build.
pub open spec fn is_initialized<V>(c: Content<V>) -> bool {
    match c {
        Content::Heatmap { chart, .. } => chart is Some,
        Content::Kline { chart, .. } => chart is Some,
        Content::TimeAndSales(p) => p is Some,
        Content::Ladder(p) => p is Some,
        Content::Comparison(p) => p is Some,
        Content::Starter => true,
    }
}

/// When the chart or panel last updated, if it has been built.
pub open spec fn last_tick_of<V>(c: Content<V>) -> Option<u64> {
    match c {
        Content::Heatmap { chart, .. } => match chart {
            Some(h) => Some(h.last_update_ms),
            None => None,
        },
        Content::Kline { chart, .. } => match chart {
            Some(k) => Some(k.last_update_ms),
            None => None,
        },
        Content::TimeAndSales(p) | Content::Ladder(p) | Content::Comparison(p) => match p {
            Some(p) => Some(p.last_update_ms),
            None => None,
        },
        Content::Starter => None,
    }
}

/// Whether `indicator` belongs to the chart family of the content.
pub open spec fn indicator_fits<V>(c: Content<V>, indicator: UiIndicator) -> bool {
    ||| (c is Heatmap && indicator is Heatmap)
    ||| (c is Kline && indicator is Kline)
}

/// How often the pane redraws, in milliseconds: kline and comparison charts every
/// second, ladders and time and sales every tenth of a second, heatmaps at the
/// interval of their basis once built; the starter pane never.
pub open spec fn update_interval_of<V>(c: Content<V>) -> Option<u64> {
    match c {
        Content::Kline { .. } | Content::Comparison(_) => Some(1000),
        Content::Heatmap { chart, .. } => match chart {
            Some(h) => h.basis_interval_ms,
            None => None,
        },
        Content::Ladder(_) | Content::TimeAndSales(_) => Some(100),
        Content::Starter => None,
    }
}

/// What a pane does on a tick of the window clock.
#[derive(Debug, Clone, Copy, PartialEq, Eq, Structural)]
pub enum TickAction {
    /// Streams are waiting to be resolved.
    ResolveStreams,
    /// The chart or panel is not built yet.
    ResolveContent,
    /// The chart or panel is due for a redraw.
    Invalidate,
    /// Nothing to do.
    Wait,
}

/// The action of a tick at `now_ms`, with `waiting_streams` streams waiting to be
/// resolved: resolving streams comes first, then building the content; a built
/// pane redraws when its update interval is positive and has elapsed since its
/// last update (at once if it never updated; a clock reading earlier than the
/// last update counts as no time elapsed).
pub open spec fn tick_action_spec<V>(c: Content<V>, waiting_streams: nat, now_ms: u64) -> TickAction {
    if waiting_streams > 0 {
        TickAction::ResolveStreams
    } else if !is_initialized(c) {
        TickAction::ResolveContent
    } else {
        match (update_interval_of(c), last_tick_of(c)) {
            (Some(interval), Some(prev)) => if interval > 0 && (if now_ms >= prev {
                now_ms - prev
            } else {
                0
            }) >= interval {
                TickAction::Invalidate
            } else {
                TickAction::Wait
            },
            (Some(interval), None) => if interval > 0 {
                TickAction::Invalidate
            } else {
                TickAction::Wait
            },
            (None, _) => TickAction::Wait,
        }
    }
}

impl<V> Content<V> {
    /// The unbuilt content of a pane switched to `kind`.
    pub fn placeholder(kind: ContentKind) -> (r: Content<V>)
        ensures
            is_placeholder(r, kind),
    {
        match kind {
            ContentKind::Starter => Content::Starter,
            ContentKind::CandlestickChart => Content::Kline {
                chart: None,
                indicators: one_kline_indicator(KlineIndicator::Volume),
                kind: KlineChartKind::Candles,
                layout: fresh_layout(Autoscale::FitToVisible),
            },
            ContentKind::FootprintChart => Content::Kline {
                chart: None,
                indicators: one_kline_indicator(KlineIndicator::Volume),
                kind: KlineChartKind::Footprint {
                    clusters: ClusterKind::default_kind(),
                    scaling: ClusterScaling::default_scaling(),
                    studies: Vec::new(),
                },
                layout: fresh_layout(Autoscale::FitToVisible),
            },
            ContentKind::HeatmapChart => Content::Heatmap {
                chart: None,
                indicators: one_heatmap_indicator(HeatmapIndicator::Volume),
                studies: Vec::new(),
                layout: fresh_layout(Autoscale::CenterLatest),
            },
            ContentKind::CandlesHeatmapChart => Content::Heatmap {
                chart: None,
                indicators: one_heatmap_indicator(HeatmapIndicator::Volume),
                studies: Vec::new(),
                layout: fresh_layout(Autoscale::CenterLatest),
            },
            ContentKind::ComparisonChart => Content::Comparison(None),
            ContentKind::TimeAndSales => Content::TimeAndSales(None),
            ContentKind::Ladder => Content::Ladder(None),
        }
    }

    /// When the chart or panel last updated, in milliseconds; none before it is
    /// built and for the starter pane.
    pub fn last_tick(&self) -> (r: Option<u64>)
        ensures
            r == last_tick_of(*self),
    {
        match self {
            Content::Heatmap { chart, .. } => match chart {
                Some(h) => Some(h.last_update_ms),
                None => None,
            },
            Content::Kline { chart, .. } => match chart {
                Some(k) => Some(k.last_update_ms),
                None => None,
            },
            Content::TimeAndSales(p) | Content::Ladder(p) | Content::Comparison(p) => match p {
                Some(p) => Some(p.last_update_ms),
                None => None,
            },
            Content::Starter => None,
        }
    }

    /// The kind of the built kline chart; none for other panes and before the
    /// chart is built.
    pub fn chart_kind(&self) -> (r: Option<KlineChartKind>)
        ensures
            match *self {
                Content::Kline { chart: Some(k), .. } => r matches Some(kind) && kind.same_as(k.kind),
                _ => r is None,
            },
    {
        match self {
            Content::Kline { chart: Some(k), .. } => Some(k.kind.duplicate()),
            _ => None,
        }
    }

    /// Turns an indicator on or off. Nothing changes before the chart is built.
    pub fn toggle_indicator(&mut self, indicator: UiIndicator)
        requires
            indicator_fits(*old(self), indicator),
        ensures
            match (*old(self), indicator) {
                (Content::Heatmap { chart, indicators, layout, studies }, UiIndicator::Heatmap(ind)) => {
                    if chart is None {
                        *final(self) == *old(self)
                    } else {
                        *final(self) matches Content::Heatmap {
                            chart: c2,
                            indicators: i2,
                            layout: l2,
                            studies: s2,
                        } && c2 == chart && l2 == layout && s2 == studies && i2@ == toggled(
                            indicators@,
                            ind,
                        )
                    }
                },
                (Content::Kline { chart, indicators, layout, kind }, UiIndicator::Kline(ind)) => {
                    if chart is None {
                        *final(self) == *old(self)
                    } else {
                        *final(self) matches Content::Kline {
                            chart: c2,
                            indicators: i2,
                            layout: l2,
                            kind: k2,
                        } && c2 == chart && l2 == layout && k2 == kind && i2@ == toggled(
                            indicators@,
                            ind,
                        )
                    }
                },
                _ => false,
            },
    {
        match self {
            Content::Heatmap { chart, indicators, .. } => {
                if chart.is_none() {
                    return ;
                }
                if let UiIndicator::Heatmap(ind) = indicator {
                    toggle_heatmap_indicator(indicators, ind);
                }
            },
            Content::Kline { chart, indicators, .. } => {
                if chart.is_none() {
                    return ;
                }
                if let UiIndicator::Kline(ind) = indicator {
                    toggle_kline_indicator(indicators, ind);
                }
            },
            _ => {},
        }
    }

    /// Applies a drag in the indicator list to the pane's indicators.
    pub fn reorder_indicators(&mut self, event: &DragEvent)
        requires
            *old(self) is Heatmap || *old(self) is Kline,
        ensures
            match *old(self) {
                Content::Heatmap { chart, indicators, layout, studies } => *final(self) matches Content::Heatmap {
                    chart: c2,
                    indicators: i2,
                    layout: l2,
                    studies: s2,
                } && c2 == chart && l2 == layout && s2 == studies && i2@ == reordered(
                    indicators@,
                    *event,
                ),
                Content::Kline { chart, indicators, layout, kind } => *final(self) matches Content::Kline {
                    chart: c2,
                    indicators: i2,
                    layout: l2,
                    kind: k2,
                } && c2 == chart && l2 == layout && k2 == kind && i2@ == reordered(
                    indicators@,
                    *event,
                ),
                _ => false,
            },
    {
        match self {
            Content::Heatmap { indicators, .. } => reorder_vec(indicators, event),
            Content::Kline { indicators, .. } => reorder_vec(indicators, event),
            _ => {},
        }
    }

    /// Applies new visual settings to the built chart or panel they are meant for;
    /// settings for another pane kind, or for a pane not built yet, change nothing.
    pub fn change_visual_config(&mut self, config: VisualConfig<V>)
        ensures
            match (*old(self), config) {
                (
                    Content::Heatmap { chart: Some(h), indicators, layout, studies },
                    VisualConfig::Heatmap { show_candles, rest },
                ) => *final(self) == (Content::<V>::Heatmap {
                    chart: Some(HeatmapChart { show_candles, visual: rest, ..h }),
                    indicators,
                    layout,
                    studies,
                }),
                (Content::Kline { chart: Some(k), indicators, layout, kind }, VisualConfig::Kline(cfg)) =>
                    *final(self) == (Content::<V>::Kline {
                    chart: Some(KlineChart { visual: cfg, ..k }),
                    indicators,
                    layout,
                    kind,
                }),
                (Content::TimeAndSales(Some(p)), VisualConfig::TimeAndSales(cfg)) => *final(self) == (
                Content::<V>::TimeAndSales(Some(Panel { config: cfg, ..p }))),
                (Content::Ladder(Some(p)), VisualConfig::Ladder(cfg)) => *final(self) == (Content::<V>::Ladder(
                    Some(Panel { config: cfg, ..p }),
                )),
                (Content::Comparison(Some(p)), VisualConfig::Comparison(cfg)) => *final(self) == (
                Content::<V>::Comparison(Some(Panel { config: cfg, ..p }))),
                _ => *final(self) == *old(self),
            },
    {
        match (self, config) {
            (Content::Heatmap { chart: Some(h), .. }, VisualConfig::Heatmap { show_candles, rest }) => {
                h.show_candles = show_candles;
                h.visual = rest;
            },
            (Content::Kline { chart: Some(k), .. }, VisualConfig::Kline(cfg)) => {
                k.visual = cfg;
            },
            (Content::TimeAndSales(Some(p)), VisualConfig::TimeAndSales(cfg)) => {
                p.config = cfg;
            },
            (Content::Ladder(Some(p)), VisualConfig::Ladder(cfg)) => {
                p.config = cfg;
            },
            (Content::Comparison(Some(p)), VisualConfig::Comparison(cfg)) => {
                p.config = cfg;
            },
            _ => {},
        }
    }

    /// The studies of the pane: a heatmap's, or a footprint chart's; none for other
    /// panes.
    pub fn studies(&self) -> (r: Option<Study>)
        ensures
            match *self {
                Content::Heatmap { studies, .. } => r matches Some(Study::Heatmap(s)) && s@ == studies@,
                Content::Kline { kind: KlineChartKind::Footprint { studies, .. }, .. } => r matches Some(
                    Study::Footprint(s),
                ) && s@ == studies@,
                _ => r is None,
            },
    {
        match self {
            Content::Heatmap { studies, .. } => Some(Study::Heatmap(copied(studies))),
            Content::Kline { kind, .. } => {
                if let KlineChartKind::Footprint { studies, .. } = kind {
                    Some(Study::Footprint(copied(studies)))
                } else {
                    None
                }
            },
            _ => None,
        }
    }

    /// Replaces the studies of the pane and of its chart: a heatmap's with heatmap
    /// studies, a footprint chart's with footprint studies. Studies of the other
    /// family, and panes of other kinds, change nothing. The chart must be built.
    pub fn update_studies(&mut self, studies: Study)
        requires
            (*old(self) is Heatmap && studies is Heatmap) ==> old(self)->Heatmap_chart is Some,
            (*old(self) is Kline && studies is Footprint) ==> old(self)->Kline_chart is Some,
        ensures
            match (*old(self), studies) {
                (
                    Content::Heatmap { chart: Some(h), indicators, layout, .. },
                    Study::Heatmap(new_studies),
                ) => *final(self) matches Content::Heatmap {
                    chart: Some(h2),
                    indicators: i2,
                    layout: l2,
                    studies: s2,
                } && i2 == indicators && l2 == layout && s2@ == new_studies@ && h2.studies@
                    == new_studies@ && h2.show_candles == h.show_candles && h2.visual == h.visual
                    && h2.basis_interval_ms == h.basis_interval_ms && h2.last_update_ms
                    == h.last_update_ms,
                (Content::Kline { chart: Some(k), indicators, layout, kind }, Study::Footprint(new_studies)) =>
                    *final(self) matches Content::Kline {
                    chart: Some(k2),
                    indicators: i2,
                    layout: l2,
                    kind: kind2,
                } && i2 == indicators && l2 == layout && k2.visual == k.visual && k2.last_update_ms
                    == k.last_update_ms && studies_replaced(k.kind, k2.kind, new_studies@)
                    && studies_replaced(kind, kind2, new_studies@),
                _ => *final(self) == *old(self),
            },
    {
        match (self, studies) {
            (Content::Heatmap { chart, studies: previous, .. }, Study::Heatmap(new_studies)) => {
                if let Some(h) = chart {
                    h.studies = copied(&new_studies);
                }
                *previous = new_studies;
            },
            (Content::Kline { chart, kind, .. }, Study::Footprint(new_studies)) => {
                if let Some(k) = chart {
                    k.kind.set_footprint_studies(copied(&new_studies));
                }
                kind.set_footprint_studies(new_studies);
            },
            _ => {},
        }
    }

    /// The kind of content the pane shows.
    pub fn kind(&self) -> (r: ContentKind)
        ensures
            r == kind_of(*self),
    {
        match self {
            Content::Heatmap { chart, .. } => {
                let show_candles = match chart {
                    Some(h) => h.show_candles,
                    None => false,
                };
                if show_candles {
                    ContentKind::CandlesHeatmapChart
                } else {
                    ContentKind::HeatmapChart
                }
            },
            Content::Kline { kind, .. } => match kind {
                KlineChartKind::Footprint { .. } => ContentKind::FootprintChart,
                KlineChartKind::Candles => ContentKind::CandlestickChart,
                KlineChartKind::CandlesStudied { .. } => ContentKind::CandlestickChart,
            },
            Content::TimeAndSales(_) => ContentKind::TimeAndSales,
            Content::Ladder(_) => ContentKind::Ladder,
            Content::Comparison(_) => ContentKind::ComparisonChart,
            Content::Starter => ContentKind::Starter,
        }
    }

    /// Whether the chart or panel has been built.
    pub fn initialized(&self) -> (r: bool)
        ensures
            r == is_initialized(*self),
    {
        match self {
            Content::Heatmap { chart, .. } => chart.is_some(),
            Content::Kline { chart, .. } => chart.is_some(),
            Content::TimeAndSales(p) => p.is_some(),
            Content::Ladder(p) => p.is_some(),
            Content::Comparison(p) => p.is_some(),
            Content::Starter => true,
        }
    }

    /// How often the pane redraws, in milliseconds.
    pub fn update_interval(&self) -> (r: Option<u64>)
        ensures
            r == update_interval_of(*self),
    {
        match self {
            Content::Kline { .. } | Content::Comparison(_) => Some(1000),
            Content::Heatmap { chart, .. } => match chart {
                Some(h) => h.basis_interval_ms,
                None => None,
            },
            Content::Ladder(_) | Content::TimeAndSales(_) => Some(100),
            Content::Starter => None,
        }
    }

    /// What the pane does on a tick at `now_ms` while `waiting_streams` of its
    /// streams wait to be resolved.
    pub fn tick_action(&self, waiting_streams: usize, now_ms: u64) -> (r: TickAction)
        ensures
            r == tick_action_spec(*self, waiting_streams as nat, now_ms),
    {
        if waiting_streams > 0 {
            return TickAction::ResolveStreams;
        }
        if !self.initialized() {
            return TickAction::ResolveContent;
        }
        match (self.update_interval(), self.last_tick()) {
            (Some(interval), Some(prev)) => {
                let elapsed = now_ms.saturating_sub(prev);
                if interval > 0 && elapsed >= interval {
                    TickAction::Invalidate
                } else {
                    TickAction::Wait
                }
            },
            (Some(interval), None) => {
                if interval > 0 {
                    TickAction::Invalidate
                } else {
                    TickAction::Wait
                }
            },
            (None, _) => TickAction::Wait,
        }
    }
}

/// `after` is `before` with its footprint studies replaced by `s` if it is a
/// footprint chart, and `before` unchanged otherwise.
pub open spec fn studies_replaced(before: KlineChartKind, after: KlineChartKind, s: Seq<FootprintStudy>) -> bool {
    match before {
        KlineChartKind::Footprint { clusters, scaling, .. } => after matches KlineChartKind::Footprint {
            clusters: c,
            scaling: sc,
            studies,
        } && c == clusters && sc == scaling && studies@ == s,
        _ => after == before,
    }
}

impl<V> Default for Content<V> {
    fn default() -> (r: Self)
        ensures
            r is Starter,
    {
        Content::Starter
    }
}

/// Two contents are equal when they are the same pane kind; comparison charts
/// never compare equal, not even to themselves.
pub open spec fn same_pane_kind<V>(a: Content<V>, b: Content<V>) -> bool {
    ||| (a is Starter && b is Starter)
    ||| (a is Heatmap && b is Heatmap)
    ||| (a is Kline && b is Kline)
    ||| (a is TimeAndSales && b is TimeAndSales)
    ||| (a is Ladder && b is Ladder)
}

impl<V> PartialEq for Content<V> {
    fn eq(&self, other: &Self) -> (r: bool) {
        match (self, other) {
            (Content::Starter, Content::Starter) => true,
            (Content::Heatmap { .. }, Content::Heatmap { .. }) => true,
            (Content::Kline { .. }, Content::Kline { .. }) => true,
            (Content::TimeAndSales(_), Content::TimeAndSales(_)) => true,
            (Content::Ladder(_), Content::Ladder(_)) => true,
            _ => false,
        }
    }
}

impl<V> vstd::std_specs::cmp::PartialEqSpecImpl for Content<V> {
    open spec fn obeys_eq_spec() -> bool {
        true
    }

    open spec fn eq_spec(&self, other: &Self) -> bool {
        same_pane_kind(*self, *other)
    }
}

proof fn lemma_filter_all_pass<T>(s: Seq<T>, x: T)
    requires
        !s.contains(x),
    ensures
        s.filter(differs_from(x)) == s,
    decreases s.len(),
{
    reveal(Seq::filter);
    if s.len() > 0 {
        assert(!s.drop_last().contains(x)) by {
            if s.drop_last().contains(x) {
                let j = choose|j: int| 0 <= j < s.drop_last().len() && s.drop_last()[j] == x;
                assert(s[j] == x);
            }
        }
        lemma_filter_all_pass(s.drop_last(), x);
        assert(s.last() != x) by {
            if s.last() == x {
                assert(s[s.len() - 1] == x);
            }
        }
        assert(s.drop_last().push(s.last()) =~= s);
    }
}

/// Turning an indicator on and then off again gives back the list it was turned
/// on in.
pub proof fn law_toggle_twice<T>(s: Seq<T>, x: T)
    requires
        !s.contains(x),
    ensures
        toggled(s, x) == s.push(x),
        toggled(toggled(s, x), x) == s,
{
    let p = s.push(x);
    assert(p.contains(x)) by {
        assert(p[s.len() as int] == x);
    }
    reveal(Seq::filter);
    assert(p.drop_last() =~= s);
    lemma_filter_all_pass(s, x);
}

/// A drag in the indicator list only reorders it: the same indicators stay, as
/// many times each.
pub proof fn law_reorder_keeps_items<T>(s: Seq<T>, e: DragEvent)
    ensures
        reordered(s, e).to_multiset() == s.to_multiset(),
        reordered(s, e).len() == s.len(),
{
    broadcast use vstd::seq_lib::group_to_multiset_ensures;
    match e {
        DragEvent::Dropped { index, target_index } => {
            if index < s.len() && target_index < s.len() && index != target_index {
                let item = s[index as int];
                let rest = s.remove(index as int);
                assert(rest.insert(target_index as int, item).to_multiset() == rest.to_multiset().insert(item));
                assert(rest.to_multiset() == s.to_multiset().remove(item));
                assert(s.to_multiset().count(item) > 0) by {
                    assert(s.contains(item));
                }
                assert(s.to_multiset().remove(item).insert(item) =~= s.to_multiset());
            }
        },
        _ => {},
    }
}

/// A pane switched to a kind shows that kind, except that a candles-and-heatmap
/// pane reports a plain heatmap until its chart is built with the overlay; only
/// the starter pane counts as built from the start.
pub proof fn law_placeholder_kind<V>(c: Content<V>, kind: ContentKind)
    requires
        is_placeholder(c, kind),
    ensures
        kind != ContentKind::CandlesHeatmapChart ==> kind_of(c) == kind,
        kind == ContentKind::CandlesHeatmapChart ==> kind_of(c) == ContentKind::HeatmapChart,
        is_initialized(c) == (kind == ContentKind::Starter),
        last_tick_of(c) is None,
{
}

/// Which kind of pane a visual setting is for.
#[derive(Debug, Clone, Copy, PartialEq, Eq, Structural)]
pub enum VisualKind {
    Heatmap,
    Kline,
    TimeAndSales,
    Ladder,
    Comparison,
}

/// Which kind of pane a visual setting is for.
pub open spec fn visual_kind_of<V>(cfg: VisualConfig<V>) -> VisualKind {
    match cfg {
        VisualConfig::Heatmap { .. } => VisualKind::Heatmap,
        VisualConfig::Kline(_) => VisualKind::Kline,
        VisualConfig::TimeAndSales(_) => VisualKind::TimeAndSales,
        VisualConfig::Ladder(_) => VisualKind::Ladder,
        VisualConfig::Comparison(_) => VisualKind::Comparison,
    }
}

impl<V> VisualConfig<V> {
    /// Which kind of pane the setting is for.
    pub fn kind(&self) -> (r: VisualKind)
        ensures
            r == visual_kind_of(*self),
    {
        match self {
            VisualConfig::Heatmap { .. } => VisualKind::Heatmap,
            VisualConfig::Kline(_) => VisualKind::Kline,
            VisualConfig::TimeAndSales(_) => VisualKind::TimeAndSales,
            VisualConfig::Ladder(_) => VisualKind::Ladder,
            VisualConfig::Comparison(_) => VisualKind::Comparison,
        }
    }
}

/// Whether visual settings of kind `cfg` shared from another pane apply to a pane
/// whose own settings are of kind `current` (none when it has none) and which
/// shows `content`: settings of the same kind apply; a pane without settings
/// takes kline, heatmap, time-and-sales and comparison settings when it shows
/// that kind of content (ladders take none).
pub fn sync_applies<V>(current: Option<VisualKind>, cfg: VisualKind, content: &Content<V>) -> (r: bool)
    ensures
        r == match current {
            Some(k) => k == cfg,
            None => (cfg == VisualKind::Kline && *content is Kline) || (cfg == VisualKind::Heatmap
                && *content is Heatmap) || (cfg == VisualKind::TimeAndSales && *content is TimeAndSales)
                || (cfg == VisualKind::Comparison && *content is Comparison),
        },
{
    match current {
        Some(k) => k == cfg,
        None => match (cfg, content) {
            (VisualKind::Kline, Content::Kline { .. }) => true,
            (VisualKind::Heatmap, Content::Heatmap { .. }) => true,
            (VisualKind::TimeAndSales, Content::TimeAndSales(_)) => true,
            (VisualKind::Comparison, Content::Comparison(_)) => true,
            _ => false,
        },
    }
}

/// The chart kind a kline pane gets when its content is set to `kind`: a
/// footprint pane keeps the footprint kind it had (clusters, scaling and
/// studies), else starts a plain footprint; a candlestick pane starts plain
/// candles.
pub fn kline_kind_for(kind: ContentKind, prev: Option<&KlineChartKind>) -> (r: KlineChartKind)
    requires
        kind == ContentKind::FootprintChart || kind == ContentKind::CandlestickChart,
    ensures
        kind == ContentKind::CandlestickChart ==> r == KlineChartKind::Candles,
        kind == ContentKind::FootprintChart ==> match prev {
            Some(p) if p is Footprint => r.same_as(*p),
            _ => r matches KlineChartKind::Footprint { clusters, scaling, studies } && clusters
                == ClusterKind::BidAsk && scaling == ClusterScaling::VisibleRange && studies@.len() == 0,
        },
{
    match kind {
        ContentKind::FootprintChart => match prev {
            Some(p) => match p {
                KlineChartKind::Footprint { .. } => p.duplicate(),
                _ => KlineChartKind::Footprint {
                    clusters: ClusterKind::default_kind(),
                    scaling: ClusterScaling::default_scaling(),
                    studies: Vec::new(),
                },
            },
            None => KlineChartKind::Footprint {
                clusters: ClusterKind::default_kind(),
                scaling: ClusterScaling::default_scaling(),
                studies: Vec::new(),
            },
        },
        _ => KlineChartKind::Candles,
    }
}

/// The indicators a kline pane keeps when its content is set anew: those it had
/// that the market offers, in order; the volume indicator for a new pane.
pub fn kept_indicators(prev: Option<&Vec<KlineIndicator>>, available: &Vec<KlineIndicator>) -> (r: Vec<KlineIndicator>)
    ensures
        match prev {
            Some(p) => r@ == p@.filter(|i: KlineIndicator| available@.contains(i)),
            None => r@ == seq![KlineIndicator::Volume],
        },
{
    match prev {
        None => one_kline_indicator(KlineIndicator::Volume),
        Some(p) => {
            let ghost pred = |i: KlineIndicator| available@.contains(i);
            let mut out: Vec<KlineIndicator> = Vec::new();
            for i in 0..p.len()
                invariant
                    pred == (|i: KlineIndicator| available@.contains(i)),
                    out@ == p@.take(i as int).filter(pred),
            {
                proof {
                    reveal(Seq::filter);
                    assert(p@.take(i + 1).drop_last() == p@.take(i as int));
                }
                let x = p[i];
                let mut found = false;
                for j in 0..available.len()
                    invariant
                        found == (exists|k: int| 0 <= k < j && available@[k] == x),
                {
                    if available[j] == x {
                        found = true;
                    }
                }
                if found {
                    out.push(x);
                }
            }
            proof {
                assert(p@.take(p@.len() as int) == p@);
            }
            out
        },
    }
}

/// How many splits a kline pane has with `indicators` indicator panels: the
/// main chart's, and one between each two panels.
pub fn split_count(indicators: usize) -> (r: usize)
    ensures
        r == (if indicators == 0 { 1 } else { indicators }),
{
    if indicators == 0 {
        1
    } else {
        1 + (indicators - 1)
    }
}

/// Ladder and time-and-sales panes redraw every 100 ms, charts of candles every
/// second: a built ladder or time-and-sales panel that last updated at `t` waits
/// while less than 100 ms have passed and redraws once they have; a built candle
/// or comparison chart does the same with 1000 ms.
pub proof fn law_redraw_intervals<V>(p: Panel<V>, now: u64)
    ensures
        forall|c: Content<V>| (c is Kline || c is Comparison) ==> #[trigger] update_interval_of(c) == Some(1000u64),
        forall|c: Content<V>| (c is Ladder || c is TimeAndSales) ==> #[trigger] update_interval_of(c) == Some(100u64),
        update_interval_of(Content::<V>::Ladder(Some(p))) == Some(100u64),
        update_interval_of(Content::<V>::TimeAndSales(Some(p))) == Some(100u64),
        update_interval_of(Content::<V>::Ladder(None)) == Some(100u64),
        update_interval_of(Content::<V>::TimeAndSales(None)) == Some(100u64),
        update_interval_of(Content::<V>::Comparison(Some(p))) == Some(1000u64),
        now >= p.last_update_ms + 100 ==> tick_action_spec(Content::<V>::Ladder(Some(p)), 0, now)
            == TickAction::Invalidate && tick_action_spec(Content::<V>::TimeAndSales(Some(p)), 0, now)
            == TickAction::Invalidate,
        p.last_update_ms <= now < p.last_update_ms + 100 ==> tick_action_spec(
            Content::<V>::Ladder(Some(p)),
            0,
            now,
        ) == TickAction::Wait && tick_action_spec(Content::<V>::TimeAndSales(Some(p)), 0, now)
            == TickAction::Wait,
        now >= p.last_update_ms + 1000 ==> tick_action_spec(Content::<V>::Comparison(Some(p)), 0, now)
            == TickAction::Invalidate,
        p.last_update_ms <= now < p.last_update_ms + 1000 ==> tick_action_spec(
            Content::<V>::Comparison(Some(p)),
            0,
            now,
        ) == TickAction::Wait,
{
}

} // verus!

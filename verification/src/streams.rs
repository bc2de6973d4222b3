//! Which market streams a pane subscribes to for what it shows, and how the
//! candle overlay of a heatmap picks its timeframe.

use vstd::prelude::*;
use crate::adapter::Timeframe;
use crate::content::ContentKind;

verus! {

/// What a chart's datapoints aggregate: a span of time, or a count of trades.
#[derive(Debug, Clone, Copy, PartialEq, Eq, Structural)]
pub enum Basis {
    Time(Timeframe),
    Tick(u16),
}

/// The basis in effect: the selected one, else time at `default_tf`.
pub open spec fn basis_or(basis: Option<Basis>, default_tf: Timeframe) -> Basis {
    match basis {
        Some(b) => b,
        None => Basis::Time(default_tf),
    }
}

/// Runs `on_time` with the timeframe of the basis in effect (the selected one,
/// else time at `default_tf`), or `on_tick` for a tick basis.
pub fn by_basis_default<T, F: FnOnce(Timeframe) -> T, G: FnOnce() -> T>(
    basis: Option<Basis>,
    default_tf: Timeframe,
    on_time: F,
    on_tick: G,
) -> (r: T)
    requires
        basis_or(basis, default_tf) matches Basis::Time(tf) ==> call_requires(on_time, (tf,)),
        basis_or(basis, default_tf) is Tick ==> call_requires(on_tick, ()),
    ensures
        basis_or(basis, default_tf) matches Basis::Time(tf) ==> call_ensures(on_time, (tf,), r),
        basis_or(basis, default_tf) is Tick ==> call_ensures(on_tick, (), r),
{
    let b = match basis {
        Some(b) => b,
        None => Basis::Time(default_tf),
    };
    match b {
        Basis::Time(tf) => on_time(tf),
        Basis::Tick(_) => on_tick(),
    }
}

/// The candle overlay settings of a heatmap.
#[derive(Debug, Clone, Copy, PartialEq, Eq, Structural)]
pub struct HeatmapCandleConfig {
    pub show_candles: bool,
    pub candle_timeframe: Option<Timeframe>,
    pub sync_heatmap_to_candles: bool,
}

/// The timeframe of a heatmap's candle overlay: the one set, or the default
/// candle timeframe of the heatmap's basis timeframe.
#[derive(Debug, Clone, Copy, PartialEq, Eq, Structural)]
pub enum CandleTimeframe {
    Chosen(Timeframe),
    DefaultFor(Timeframe),
}

/// The candle timeframe of a heatmap: none without the overlay; the one set if
/// there is one; else the default for the heatmap's time basis (five minutes
/// when the basis is not a time basis).
pub open spec fn candle_tf_spec(cfg: HeatmapCandleConfig, basis: Option<Basis>) -> Option<CandleTimeframe> {
    if !cfg.show_candles {
        None
    } else if cfg.candle_timeframe is Some {
        Some(CandleTimeframe::Chosen(cfg.candle_timeframe->0))
    } else {
        match basis {
            Some(Basis::Time(tf)) => Some(CandleTimeframe::DefaultFor(tf)),
            _ => Some(CandleTimeframe::DefaultFor(Timeframe::M5)),
        }
    }
}

/// The candle timeframe of a heatmap, as `candle_tf_spec` describes.
pub fn resolve_heatmap_candle_tf(cfg: HeatmapCandleConfig, basis: Option<Basis>) -> (r: Option<CandleTimeframe>)
    ensures
        r == candle_tf_spec(cfg, basis),
{
    if !cfg.show_candles {
        return None;
    }
    if let Some(tf) = cfg.candle_timeframe {
        return Some(CandleTimeframe::Chosen(tf));
    }
    let basis_tf = match basis {
        Some(Basis::Time(tf)) => tf,
        _ => Timeframe::M5,
    };
    Some(CandleTimeframe::DefaultFor(basis_tf))
}

/// The basis a heatmap synced to its candle overlay switches to: none when the
/// overlay or the sync is off, or when the basis is already the overlay's.
pub fn heatmap_sync_basis(cfg: HeatmapCandleConfig, selected: Option<Basis>, candle_tf: Option<Timeframe>) -> (r: Option<Basis>)
    ensures
        r == (if !cfg.sync_heatmap_to_candles || !cfg.show_candles || candle_tf is None {
            None
        } else if selected == Some(Basis::Time(candle_tf->0)) {
            None
        } else {
            Some(Basis::Time(candle_tf->0))
        }),
{
    if !cfg.sync_heatmap_to_candles || !cfg.show_candles {
        return None;
    }
    let tf = match candle_tf {
        Some(tf) => tf,
        None => {
            return None;
        },
    };
    if selected == Some(Basis::Time(tf)) {
        return None;
    }
    Some(Basis::Time(tf))
}

/// A stream a pane subscribes to.
#[derive(Debug, Clone, Copy, PartialEq, Eq, Structural)]
pub enum StreamPlan {
    /// Depth and trades of the pane's ticker.
    DepthAndTrades,
    /// Depth and trades at the exchange's default push frequency.
    DepthAndTradesDefaultPush,
    /// Depth and trades aggregated at fifty times the tick size.
    DepthAndTradesCoarse,
    /// Candles of the ticker at position `ticker` of the pane's tickers.
    Kline { ticker: usize, timeframe: Timeframe },
}

/// The streams a pane of kind `kind` subscribes to, with basis `basis` selected,
/// `candle_tf` the resolved timeframe of a heatmap's candle overlay (none without
/// one) and `ticker_count` tickers. A heatmap adds candles of its overlay when it
/// is on a time basis; a footprint chart adds candles on a time basis (five
/// minutes unless set); a candlestick chart streams candles on a time basis
/// (fifteen minutes unless set) and coarse depth on a tick basis; a comparison
/// chart streams candles of every ticker.
pub open spec fn streams_for(kind: ContentKind, basis: Option<Basis>, candle_tf: Option<Timeframe>, ticker_count: nat) -> Seq<StreamPlan> {
    match kind {
        ContentKind::HeatmapChart | ContentKind::CandlesHeatmapChart => {
            if basis matches Some(Basis::Time(_)) && candle_tf is Some {
                seq![
                    StreamPlan::DepthAndTrades,
                    StreamPlan::Kline { ticker: 0, timeframe: candle_tf->0 },
                ]
            } else {
                seq![StreamPlan::DepthAndTrades]
            }
        },
        ContentKind::FootprintChart => match basis_or(basis, Timeframe::M5) {
            Basis::Time(tf) => seq![StreamPlan::DepthAndTrades, StreamPlan::Kline { ticker: 0, timeframe: tf }],
            Basis::Tick(_) => seq![StreamPlan::DepthAndTrades],
        },
        ContentKind::CandlestickChart => match basis_or(basis, Timeframe::M15) {
            Basis::Time(tf) => seq![StreamPlan::Kline { ticker: 0, timeframe: tf }],
            Basis::Tick(_) => seq![StreamPlan::DepthAndTradesCoarse],
        },
        ContentKind::TimeAndSales => seq![StreamPlan::DepthAndTradesDefaultPush],
        ContentKind::Ladder => seq![StreamPlan::DepthAndTrades],
        ContentKind::ComparisonChart => match basis_or(basis, Timeframe::M15) {
            Basis::Time(tf) => Seq::new(ticker_count, |i: int| StreamPlan::Kline { ticker: i as usize, timeframe: tf }),
            Basis::Tick(_) => Seq::empty(),
        },
        ContentKind::Starter => Seq::empty(),
    }
}

fn kline_streams(count: usize, tf: Timeframe) -> (r: Vec<StreamPlan>)
    ensures
        r@ == Seq::new(count as nat, |i: int| StreamPlan::Kline { ticker: i as usize, timeframe: tf }),
{
    let mut v: Vec<StreamPlan> = Vec::new();
    for i in 0..count
        invariant
            v@ == Seq::new(i as nat, |k: int| StreamPlan::Kline { ticker: k as usize, timeframe: tf }),
    {
        v.push(StreamPlan::Kline { ticker: i, timeframe: tf });
        proof {
            assert(v@ =~= Seq::new((i + 1) as nat, |k: int| StreamPlan::Kline { ticker: k as usize, timeframe: tf }));
        }
    }
    v
}

/// The streams a pane subscribes to when its content is set, as `streams_for`
/// describes. A pane shows something (not the starter), has a ticker, and a
/// comparison chart is on a time basis.
pub fn plan_streams(kind: ContentKind, basis: Option<Basis>, candle_tf: Option<Timeframe>, ticker_count: usize) -> (r: Vec<StreamPlan>)
    requires
        kind != ContentKind::Starter,
        ticker_count >= 1,
        kind == ContentKind::ComparisonChart ==> basis_or(basis, Timeframe::M15) is Time,
    ensures
        r@ == streams_for(kind, basis, candle_tf, ticker_count as nat),
{
    let mut v: Vec<StreamPlan> = Vec::new();
    match kind {
        ContentKind::HeatmapChart | ContentKind::CandlesHeatmapChart => {
            v.push(StreamPlan::DepthAndTrades);
            if let Some(Basis::Time(_)) = basis {
                if let Some(k_tf) = candle_tf {
                    v.push(StreamPlan::Kline { ticker: 0, timeframe: k_tf });
                }
            }
        },
        ContentKind::FootprintChart => {
            v.push(StreamPlan::DepthAndTrades);
            let b = match basis {
                Some(b) => b,
                None => Basis::Time(Timeframe::M5),
            };
            if let Basis::Time(tf) = b {
                v.push(StreamPlan::Kline { ticker: 0, timeframe: tf });
            }
        },
        ContentKind::CandlestickChart => {
            let b = match basis {
                Some(b) => b,
                None => Basis::Time(Timeframe::M15),
            };
            match b {
                Basis::Time(tf) => v.push(StreamPlan::Kline { ticker: 0, timeframe: tf }),
                Basis::Tick(_) => v.push(StreamPlan::DepthAndTradesCoarse),
            }
        },
        ContentKind::TimeAndSales => v.push(StreamPlan::DepthAndTradesDefaultPush),
        ContentKind::Ladder => v.push(StreamPlan::DepthAndTrades),
        ContentKind::ComparisonChart => {
            let tf = match basis {
                Some(Basis::Time(tf)) => tf,
                Some(Basis::Tick(_)) => Timeframe::M15,
                None => Timeframe::M15,
            };
            v = kline_streams(ticker_count, tf);
        },
        ContentKind::Starter => {},
    }
    v
}

/// Whether `s` is a candle stream.
pub open spec fn is_kline(s: StreamPlan) -> bool {
    s is Kline
}

/// Whether `s` holds a candle stream.
pub open spec fn has_kline(s: Seq<StreamPlan>) -> bool
    decreases s.len(),
{
    s.len() > 0 && (is_kline(s.last()) || has_kline(s.drop_last()))
}

proof fn lemma_has_kline(s: Seq<StreamPlan>, k: int)
    requires
        0 <= k < s.len(),
        is_kline(s[k]),
    ensures
        has_kline(s),
    decreases s.len(),
{
    if k < s.len() - 1 {
        lemma_has_kline(s.drop_last(), k);
    }
}

/// Whether `s` holds a candle stream of a timeframe other than `tf`.
pub open spec fn has_kline_not_at(s: Seq<StreamPlan>, tf: Timeframe) -> bool
    decreases s.len(),
{
    s.len() > 0 && ((s.last() matches StreamPlan::Kline { timeframe, .. } && timeframe != tf)
        || has_kline_not_at(s.drop_last(), tf))
}

/// The last candle stream of `s` whose timeframe is not `tf`, moved to `tf`; none
/// when every candle stream of `s` is already at `tf`.
pub open spec fn last_moved_kline(s: Seq<StreamPlan>, tf: Timeframe) -> Option<StreamPlan>
    decreases s.len(),
{
    if s.len() == 0 {
        None
    } else {
        match s.last() {
            StreamPlan::Kline { ticker, timeframe } => if timeframe != tf {
                Some(StreamPlan::Kline { ticker, timeframe: tf })
            } else {
                last_moved_kline(s.drop_last(), tf)
            },
            _ => last_moved_kline(s.drop_last(), tf),
        }
    }
}

/// Brings the candle streams of a heatmap pane in line with its overlay timeframe
/// `desired` (none when the overlay is off). With an overlay, every candle stream
/// moves to its timeframe, or, without one, a candle stream of the base ticker is
/// added when the pane has one; without an overlay, candle streams are dropped.
/// Returns whether the streams changed, and the candle stream to fetch history for:
/// the last one that moved, or the one added.
pub fn update_overlay_streams(streams: &mut Vec<StreamPlan>, desired: Option<Timeframe>, has_base_ticker: bool) -> (r: (bool, Option<StreamPlan>))
    ensures
        desired is None ==> final(streams)@ == old(streams)@.filter(|s: StreamPlan| !is_kline(s)) && r.0
            == (final(streams)@.len() != old(streams)@.len()) && r.1 is None,
        desired is Some && has_kline(old(streams)@) ==> final(streams)@ == old(streams)@.map_values(
            |s: StreamPlan| retimed(s, desired->0),
        ) && r.0 == has_kline_not_at(old(streams)@, desired->0) && r.1 == last_moved_kline(
            old(streams)@,
            desired->0,
        ),
        desired is Some && !has_kline(old(streams)@) && has_base_ticker ==> final(streams)@ == old(
            streams,
        )@.push(StreamPlan::Kline { ticker: 0, timeframe: desired->0 }) && r == (
            true,
            Some(StreamPlan::Kline { ticker: 0, timeframe: desired->0 }),
        ),
        desired is Some && !has_kline(old(streams)@) && !has_base_ticker ==> final(streams)@ == old(
            streams,
        )@ && r == (false, None::<StreamPlan>),
{
    match desired {
        Some(tf) => {
            let mut found = false;
            let mut changed = false;
            let mut fetch: Option<StreamPlan> = None;
            let ghost before = streams@;
            let n = streams.len();
            for i in 0..n
                invariant
                    n == before.len(),
                    streams@.len() == n,
                    forall|k: int| 0 <= k < i ==> streams@[k] == retimed(before[k], tf),
                    forall|k: int| i <= k < n ==> streams@[k] == before[k],
                    found == has_kline(before.take(i as int)),
                    changed == has_kline_not_at(before.take(i as int), tf),
                    fetch == last_moved_kline(before.take(i as int), tf),
            {
                proof {
                    assert(before.take(i + 1).drop_last() == before.take(i as int));
                }
                let s = streams[i];
                if let StreamPlan::Kline { ticker, timeframe } = s {
                    found = true;
                    if timeframe != tf {
                        let moved = StreamPlan::Kline { ticker, timeframe: tf };
                        streams.set(i, moved);
                        changed = true;
                        fetch = Some(moved);
                    }
                }
                proof {
                    assert(streams@[i as int] == retimed(before[i as int], tf));
                }
            }
            proof {
                assert(before.take(n as int) == before);
            }
            if !found {
                proof {
                    assert forall|k: int| 0 <= k < n implies streams@[k] == before[k] by {
                        if is_kline(before[k]) {
                            lemma_has_kline(before, k);
                        }
                    }
                    assert(streams@ =~= before);
                }
                if has_base_ticker {
                    let stream = StreamPlan::Kline { ticker: 0, timeframe: tf };
                    streams.push(stream);
                    return (true, Some(stream));
                }
                return (false, None);
            }
            proof {
                assert(streams@ =~= before.map_values(|s: StreamPlan| retimed(s, tf)));
            }
            (changed, fetch)
        },
        None => {
            let before = streams.len();
            let mut kept: Vec<StreamPlan> = Vec::new();
            let ghost old_v = streams@;
            for i in 0..streams.len()
                invariant
                    old_v == streams@,
                    kept@ == old_v.take(i as int).filter(|s: StreamPlan| !is_kline(s)),
            {
                proof {
                    reveal(Seq::filter);
                    assert(old_v.take(i + 1).drop_last() == old_v.take(i as int));
                }
                if !matches!(streams[i], StreamPlan::Kline { .. }) {
                    kept.push(streams[i]);
                }
            }
            proof {
                assert(old_v.take(old_v.len() as int) == old_v);
            }
            *streams = kept;
            (streams.len() != before, None)
        },
    }
}

/// A candle stream moved to timeframe `tf`; other streams as they are.
pub open spec fn retimed(s: StreamPlan, tf: Timeframe) -> StreamPlan {
    match s {
        StreamPlan::Kline { ticker, .. } => StreamPlan::Kline { ticker, timeframe: tf },
        _ => s,
    }
}

/// Switches a heatmap's candle overlay on or off. Switching it on keeps the
/// overlay's timeframe, or takes `default_tf` (the default candle timeframe of a
/// time basis; none on a tick basis) when it has none.
pub fn set_candles_overlay(cfg: HeatmapCandleConfig, on: bool, default_tf: Option<Timeframe>) -> (r: HeatmapCandleConfig)
    ensures
        r.show_candles == on,
        r.sync_heatmap_to_candles == cfg.sync_heatmap_to_candles,
        r.candle_timeframe == (if on && cfg.candle_timeframe is None {
            default_tf
        } else {
            cfg.candle_timeframe
        }),
{
    let candle_timeframe = if on {
        match cfg.candle_timeframe {
            Some(tf) => Some(tf),
            None => default_tf,
        }
    } else {
        cfg.candle_timeframe
    };
    HeatmapCandleConfig { show_candles: on, candle_timeframe, sync_heatmap_to_candles: cfg.sync_heatmap_to_candles }
}

/// Switches the syncing of a heatmap's aggregation to its candle overlay on or
/// off. Switching it on keeps the overlay's timeframe, or takes `default_tf`, else
/// five minutes, when it has none.
pub fn set_sync_to_candles(cfg: HeatmapCandleConfig, on: bool, default_tf: Option<Timeframe>) -> (r: HeatmapCandleConfig)
    ensures
        r.show_candles == cfg.show_candles,
        r.sync_heatmap_to_candles == on,
        r.candle_timeframe == (if on && cfg.candle_timeframe is None {
            Some(
                match default_tf {
                    Some(tf) => tf,
                    None => Timeframe::M5,
                },
            )
        } else {
            cfg.candle_timeframe
        }),
{
    let fallback = match default_tf {
        Some(tf) => tf,
        None => Timeframe::M5,
    };
    let candle_timeframe = if on {
        match cfg.candle_timeframe {
            Some(tf) => Some(tf),
            None => Some(fallback),
        }
    } else {
        cfg.candle_timeframe
    };
    HeatmapCandleConfig { show_candles: cfg.show_candles, candle_timeframe, sync_heatmap_to_candles: on }
}

/// The candle streams of `s` are all at timeframe `tf`, and `s` holds the candles of
/// the pane's first ticker at `tf`.
pub open spec fn candles_at(s: Seq<StreamPlan>, tf: Timeframe) -> bool {
    &&& exists|i: int| 0 <= i < s.len() && s[i] == (StreamPlan::Kline { ticker: 0, timeframe: tf })
    &&& forall|i: int|
        0 <= i < s.len() ==> (#[trigger] s[i] matches StreamPlan::Kline { timeframe, .. } ==> timeframe == tf)
}

/// `s` holds no candle stream.
pub open spec fn no_candles(s: Seq<StreamPlan>) -> bool {
    forall|i: int| 0 <= i < s.len() ==> !(#[trigger] s[i] is Kline)
}

/// A chart that draws candles subscribes to candles at the timeframe of the time
/// basis selected for it: a candlestick chart, a footprint chart and a comparison
/// chart on `Time(tf)` stream the first ticker's candles at `tf`, and no candles
/// at any other timeframe.
pub proof fn law_candles_follow_time_basis(kind: ContentKind, tf: Timeframe, candle_tf: Option<Timeframe>, n: nat)
    requires
        kind == ContentKind::CandlestickChart || kind == ContentKind::FootprintChart || kind
            == ContentKind::ComparisonChart,
        n >= 1,
    ensures
        candles_at(streams_for(kind, Some(Basis::Time(tf)), candle_tf, n), tf),
{
    let s = streams_for(kind, Some(Basis::Time(tf)), candle_tf, n);
    if kind == ContentKind::CandlestickChart {
        assert(s[0] == (StreamPlan::Kline { ticker: 0, timeframe: tf }));
    } else if kind == ContentKind::FootprintChart {
        assert(s[1] == (StreamPlan::Kline { ticker: 0, timeframe: tf }));
    } else {
        assert(s[0] == (StreamPlan::Kline { ticker: 0, timeframe: tf }));
    }
}

/// With no basis selected, a candlestick chart streams candles every fifteen
/// minutes and a footprint chart every five.
pub proof fn law_default_candle_timeframes(candle_tf: Option<Timeframe>, n: nat)
    requires
        n >= 1,
    ensures
        candles_at(streams_for(ContentKind::CandlestickChart, None, candle_tf, n), Timeframe::M15),
        candles_at(streams_for(ContentKind::FootprintChart, None, candle_tf, n), Timeframe::M5),
{
    assert(streams_for(ContentKind::CandlestickChart, None, candle_tf, n)[0] == (StreamPlan::Kline {
        ticker: 0,
        timeframe: Timeframe::M15,
    }));
    assert(streams_for(ContentKind::FootprintChart, None, candle_tf, n)[1] == (StreamPlan::Kline {
        ticker: 0,
        timeframe: Timeframe::M5,
    }));
}

/// A pane on a tick basis streams no candles, whatever its content.
pub proof fn law_tick_basis_streams_no_candles(kind: ContentKind, t: u16, candle_tf: Option<Timeframe>, n: nat)
    ensures
        no_candles(streams_for(kind, Some(Basis::Tick(t)), candle_tf, n)),
{
}

/// A heatmap streams candles only for its overlay: at the overlay's timeframe
/// when it is on a time basis and has one, and none otherwise.
pub proof fn law_heatmap_candles_follow_overlay(kind: ContentKind, basis: Option<Basis>, candle_tf: Option<Timeframe>, n: nat)
    requires
        kind == ContentKind::HeatmapChart || kind == ContentKind::CandlesHeatmapChart,
    ensures
        (basis matches Some(Basis::Time(_)) && candle_tf is Some) ==> candles_at(
            streams_for(kind, basis, candle_tf, n),
            candle_tf->0,
        ),
        !(basis matches Some(Basis::Time(_)) && candle_tf is Some) ==> no_candles(
            streams_for(kind, basis, candle_tf, n),
        ),
{
    if basis matches Some(Basis::Time(_)) && candle_tf is Some {
        assert(streams_for(kind, basis, candle_tf, n)[1] == (StreamPlan::Kline {
            ticker: 0,
            timeframe: candle_tf->0,
        }));
    }
}

/// A comparison chart on a time basis streams the candles of each of its `n`
/// tickers, in ticker order, at the basis timeframe, and nothing else.
pub proof fn law_comparison_streams_every_ticker(tf: Timeframe, candle_tf: Option<Timeframe>, n: nat)
    ensures
        streams_for(ContentKind::ComparisonChart, Some(Basis::Time(tf)), candle_tf, n).len() == n,
        forall|j: int|
            0 <= j < n ==> #[trigger] streams_for(ContentKind::ComparisonChart, Some(Basis::Time(tf)), candle_tf, n)[j]
                == (StreamPlan::Kline { ticker: j as usize, timeframe: tf }),
{
}

} // verus!

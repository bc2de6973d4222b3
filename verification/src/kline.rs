//! Candle and footprint study settings of a kline pane, and the lookups that the
//! rule engine makes over the studies a pane has enabled.

use vstd::prelude::*;
use crate::text::{decimal, hundredths, push_decimal, push_hundredths};

verus! {

/// Which price of a candle feeds an overlay.
#[derive(Debug, Clone, Copy, PartialEq, Eq, Structural)]
pub enum CandleSource {
    Close,
}

impl CandleSource {
    pub fn default_source() -> (r: CandleSource)
        ensures
            r == CandleSource::Close,
    {
        CandleSource::Close
    }
}

/// Simple or exponential moving average.
#[derive(Debug, Clone, Copy, PartialEq, Eq, Structural)]
pub enum MovingAverageKind {
    SMA,
    EMA,
}

impl MovingAverageKind {
    pub fn default_kind() -> (r: MovingAverageKind)
        ensures
            r == MovingAverageKind::SMA,
    {
        MovingAverageKind::SMA
    }
}

/// An overlay drawn over a candlestick chart. Colors are RGB without alpha; the
/// `*_x100` fields hold a multiplier times one hundred (200 stands for 2.00).
#[derive(Debug, Clone, Copy, PartialEq, Eq)]
pub enum CandleStudy {
    MovingAverageFast { kind: MovingAverageKind, period: u16, source: CandleSource, color_rgb: [u8; 3] },
    MovingAverageSlow { kind: MovingAverageKind, period: u16, source: CandleSource, color_rgb: [u8; 3] },
    BollingerBands {
        period: u16,
        source: CandleSource,
        stddev_x100: u16,
        mid_color_rgb: [u8; 3],
        upper_color_rgb: [u8; 3],
        lower_color_rgb: [u8; 3],
    },
    VwapBands {
        source: CandleSource,
        reset_daily_utc: bool,
        band_stddev_x100: u16,
        vwap_color_rgb: [u8; 3],
        upper_color_rgb: [u8; 3],
        lower_color_rgb: [u8; 3],
    },
    Supertrend { atr_period: u16, multiplier_x100: u16, up_color_rgb: [u8; 3], down_color_rgb: [u8; 3] },
    EmaRibbon {
        min_period: u16,
        max_period: u16,
        step: u16,
        start_color_rgb: [u8; 3],
        end_color_rgb: [u8; 3],
    },
    DonchianChannels {
        period: u16,
        upper_color_rgb: [u8; 3],
        mid_color_rgb: [u8; 3],
        lower_color_rgb: [u8; 3],
    },
    KeltnerChannels {
        ema_period: u16,
        atr_period: u16,
        multiplier_x100: u16,
        mid_color_rgb: [u8; 3],
        upper_color_rgb: [u8; 3],
        lower_color_rgb: [u8; 3],
    },
    Ichimoku {
        tenkan_period: u16,
        kijun_period: u16,
        senkou_period: u16,
        tenkan_color_rgb: [u8; 3],
        kijun_color_rgb: [u8; 3],
        span_a_color_rgb: [u8; 3],
        span_b_color_rgb: [u8; 3],
        lag_color_rgb: [u8; 3],
    },
}

impl CandleStudy {
    /// The position of the variant in the declaration: two studies are of the same
    /// type exactly when these agree.
    pub open spec fn variant_index(self) -> nat {
        match self {
            CandleStudy::MovingAverageFast { .. } => 0,
            CandleStudy::MovingAverageSlow { .. } => 1,
            CandleStudy::BollingerBands { .. } => 2,
            CandleStudy::VwapBands { .. } => 3,
            CandleStudy::Supertrend { .. } => 4,
            CandleStudy::EmaRibbon { .. } => 5,
            CandleStudy::DonchianChannels { .. } => 6,
            CandleStudy::KeltnerChannels { .. } => 7,
            CandleStudy::Ichimoku { .. } => 8,
        }
    }

    pub fn variant_number(&self) -> (r: u8)
        ensures
            r as nat == self.variant_index(),
    {
        match self {
            CandleStudy::MovingAverageFast { .. } => 0,
            CandleStudy::MovingAverageSlow { .. } => 1,
            CandleStudy::BollingerBands { .. } => 2,
            CandleStudy::VwapBands { .. } => 3,
            CandleStudy::Supertrend { .. } => 4,
            CandleStudy::EmaRibbon { .. } => 5,
            CandleStudy::DonchianChannels { .. } => 6,
            CandleStudy::KeltnerChannels { .. } => 7,
            CandleStudy::Ichimoku { .. } => 8,
        }
    }

    /// Whether both studies are the same kind of overlay, whatever their settings.
    pub fn is_same_type(&self, other: &Self) -> (r: bool)
        ensures
            r == (self.variant_index() == other.variant_index()),
    {
        self.variant_number() == other.variant_number()
    }

    /// The label of the study in the settings list: its name and main settings,
    /// multipliers written with two decimals (`200` hundredths as `2.00`).
    pub open spec fn label_spec(self) -> Seq<char> {
        match self {
            CandleStudy::MovingAverageFast { kind, period, .. } => "Fast "@ + ma_name(kind) + "("@
                + decimal(period as nat) + ")"@,
            CandleStudy::MovingAverageSlow { kind, period, .. } => "Slow "@ + ma_name(kind) + "("@
                + decimal(period as nat) + ")"@,
            CandleStudy::BollingerBands { period, stddev_x100, .. } => "Bollinger Bands ("@ + decimal(
                period as nat,
            ) + ", "@ + hundredths(stddev_x100 as nat) + "\u{3c3})"@,
            CandleStudy::VwapBands { reset_daily_utc, band_stddev_x100, .. } => if reset_daily_utc {
                "VWAP (daily UTC, "@ + hundredths(band_stddev_x100 as nat) + "\u{3c3})"@
            } else {
                "VWAP ("@ + hundredths(band_stddev_x100 as nat) + "\u{3c3})"@
            },
            CandleStudy::Supertrend { atr_period, multiplier_x100, .. } => "Supertrend (ATR "@ + decimal(
                atr_period as nat,
            ) + ", x"@ + hundredths(multiplier_x100 as nat) + ")"@,
            CandleStudy::EmaRibbon { min_period, max_period, step, .. } => "EMA Ribbon ("@ + decimal(
                min_period as nat,
            ) + "-"@ + decimal(max_period as nat) + " step "@ + decimal(step as nat) + ")"@,
            CandleStudy::DonchianChannels { period, .. } => "Donchian Channels ("@ + decimal(
                period as nat,
            ) + ")"@,
            CandleStudy::KeltnerChannels { ema_period, atr_period, multiplier_x100, .. } =>
                "Keltner Channels (EMA "@ + decimal(ema_period as nat) + ", ATR "@ + decimal(
                atr_period as nat,
            ) + ", x"@ + hundredths(multiplier_x100 as nat) + ")"@,
            CandleStudy::Ichimoku { tenkan_period, kijun_period, senkou_period, .. } => "Ichimoku ("@
                + decimal(tenkan_period as nat) + "/"@ + decimal(kijun_period as nat) + "/"@ + decimal(
                senkou_period as nat,
            ) + ")"@,
        }
    }

    /// The label of the study in the settings list.
    pub fn label(&self) -> (r: String)
        ensures
            r@ == self.label_spec(),
    {
        match *self {
            CandleStudy::MovingAverageFast { kind, period, .. } => {
                let mut t = String::from_str("Fast ");
                t.append(ma_name_str(kind));
                t.append("(");
                push_decimal(&mut t, period as u64);
                t.append(")");
                t
            },
            CandleStudy::MovingAverageSlow { kind, period, .. } => {
                let mut t = String::from_str("Slow ");
                t.append(ma_name_str(kind));
                t.append("(");
                push_decimal(&mut t, period as u64);
                t.append(")");
                t
            },
            CandleStudy::BollingerBands { period, stddev_x100, .. } => {
                let mut t = String::from_str("Bollinger Bands (");
                push_decimal(&mut t, period as u64);
                t.append(", ");
                push_hundredths(&mut t, stddev_x100 as u64);
                t.append("\u{3c3})");
                t
            },
            CandleStudy::VwapBands { reset_daily_utc, band_stddev_x100, .. } => {
                let mut t = if reset_daily_utc {
                    String::from_str("VWAP (daily UTC, ")
                } else {
                    String::from_str("VWAP (")
                };
                push_hundredths(&mut t, band_stddev_x100 as u64);
                t.append("\u{3c3})");
                t
            },
            CandleStudy::Supertrend { atr_period, multiplier_x100, .. } => {
                let mut t = String::from_str("Supertrend (ATR ");
                push_decimal(&mut t, atr_period as u64);
                t.append(", x");
                push_hundredths(&mut t, multiplier_x100 as u64);
                t.append(")");
                t
            },
            CandleStudy::EmaRibbon { min_period, max_period, step, .. } => {
                let mut t = String::from_str("EMA Ribbon (");
                push_decimal(&mut t, min_period as u64);
                t.append("-");
                push_decimal(&mut t, max_period as u64);
                t.append(" step ");
                push_decimal(&mut t, step as u64);
                t.append(")");
                t
            },
            CandleStudy::DonchianChannels { period, .. } => {
                let mut t = String::from_str("Donchian Channels (");
                push_decimal(&mut t, period as u64);
                t.append(")");
                t
            },
            CandleStudy::KeltnerChannels { ema_period, atr_period, multiplier_x100, .. } => {
                let mut t = String::from_str("Keltner Channels (EMA ");
                push_decimal(&mut t, ema_period as u64);
                t.append(", ATR ");
                push_decimal(&mut t, atr_period as u64);
                t.append(", x");
                push_hundredths(&mut t, multiplier_x100 as u64);
                t.append(")");
                t
            },
            CandleStudy::Ichimoku { tenkan_period, kijun_period, senkou_period, .. } => {
                let mut t = String::from_str("Ichimoku (");
                push_decimal(&mut t, tenkan_period as u64);
                t.append("/");
                push_decimal(&mut t, kijun_period as u64);
                t.append("/");
                push_decimal(&mut t, senkou_period as u64);
                t.append(")");
                t
            },
        }
    }
}

/// The abbreviation of a moving-average kind.
pub open spec fn ma_name(kind: MovingAverageKind) -> Seq<char> {
    match kind {
        MovingAverageKind::SMA => "SMA"@,
        MovingAverageKind::EMA => "EMA"@,
    }
}

fn ma_name_str(kind: MovingAverageKind) -> (r: &'static str)
    ensures
        r@ == ma_name(kind),
{
    match kind {
        MovingAverageKind::SMA => "SMA",
        MovingAverageKind::EMA => "EMA",
    }
}

/// How a footprint chart draws its clusters.
#[derive(Debug, Copy, Clone, PartialEq, Eq, Structural)]
pub enum ClusterKind {
    BidAsk,
    VolumeProfile,
    DeltaProfile,
}

impl ClusterKind {
    pub fn default_kind() -> (r: ClusterKind)
        ensures
            r == ClusterKind::BidAsk,
    {
        ClusterKind::BidAsk
    }

    /// The name of the cluster kind in the settings list.
    pub fn label(&self) -> (r: &'static str)
        ensures
            r@ == match *self {
                ClusterKind::BidAsk => "Bid/Ask"@,
                ClusterKind::VolumeProfile => "Volume Profile"@,
                ClusterKind::DeltaProfile => "Delta Profile"@,
            },
    {
        match self {
            ClusterKind::BidAsk => "Bid/Ask",
            ClusterKind::VolumeProfile => "Volume Profile",
            ClusterKind::DeltaProfile => "Delta Profile",
        }
    }

    /// Every cluster kind, in the order the settings list shows them.
    pub fn all() -> (r: [ClusterKind; 3])
        ensures
            r@ == seq![ClusterKind::BidAsk, ClusterKind::VolumeProfile, ClusterKind::DeltaProfile],
    {
        [ClusterKind::BidAsk, ClusterKind::VolumeProfile, ClusterKind::DeltaProfile]
    }
}

/// How the cluster widths of a footprint chart are scaled. The blend weight of
/// `Hybrid` is held as the bit pattern of its `f32` value.
#[derive(Debug, Copy, Clone, PartialEq, Eq, Structural)]
pub enum ClusterScaling {
    VisibleRange,
    Hybrid { weight_bits: u32 },
    Datapoint,
}

impl ClusterScaling {
    pub fn default_scaling() -> (r: ClusterScaling)
        ensures
            r == ClusterScaling::VisibleRange,
    {
        ClusterScaling::VisibleRange
    }
}

/// A study drawn over a footprint chart.
#[derive(Debug, Clone, Copy, PartialEq, Eq, Structural)]
pub enum FootprintStudy {
    NPoC { lookback: usize },
    Imbalance { threshold: usize, color_scale: Option<usize>, ignore_zeros: bool },
}

impl FootprintStudy {
    pub open spec fn variant_index(self) -> nat {
        match self {
            FootprintStudy::NPoC { .. } => 0,
            FootprintStudy::Imbalance { .. } => 1,
        }
    }

    /// Whether both studies are the same kind of study, whatever their settings.
    pub fn is_same_type(&self, other: &Self) -> (r: bool)
        ensures
            r == (self.variant_index() == other.variant_index()),
    {
        match (self, other) {
            (FootprintStudy::NPoC { .. }, FootprintStudy::NPoC { .. }) => true,
            (FootprintStudy::Imbalance { .. }, FootprintStudy::Imbalance { .. }) => true,
            _ => false,
        }
    }

    /// The name of the study in the settings list.
    pub fn label(&self) -> (r: &'static str)
        ensures
            r@ == match *self {
                FootprintStudy::NPoC { .. } => "Naked Point of Control"@,
                FootprintStudy::Imbalance { .. } => "Imbalance"@,
            },
    {
        match self {
            FootprintStudy::NPoC { .. } => "Naked Point of Control",
            FootprintStudy::Imbalance { .. } => "Imbalance",
        }
    }

    /// The studies a footprint chart offers, with their default settings.
    pub fn all() -> (r: Vec<FootprintStudy>)
        ensures
            r@ == seq![
                FootprintStudy::NPoC { lookback: 80 },
                FootprintStudy::Imbalance {
                    threshold: 200,
                    color_scale: Some(400usize),
                    ignore_zeros: true,
                },
            ],
    {
        let mut v = Vec::new();
        v.push(FootprintStudy::NPoC { lookback: 80 });
        v.push(FootprintStudy::Imbalance { threshold: 200, color_scale: Some(400), ignore_zeros: true });
        v
    }
}

/// The state of a naked point of control.
#[derive(Debug, Clone, Copy, PartialEq, Eq, Structural)]
pub enum NPoc {
    Absent,
    Naked,
    Filled { at: u64 },
}

impl NPoc {
    pub fn default_status() -> (r: NPoc)
        ensures
            r == NPoc::Absent,
    {
        NPoc::Absent
    }

    /// Marks the point of control as filled at time `at`.
    pub fn filled(&mut self, at: u64)
        ensures
            *final(self) == (NPoc::Filled { at }),
    {
        *self = NPoc::Filled { at };
    }

    /// Marks the point of control as naked again.
    pub fn unfilled(&mut self)
        ensures
            *final(self) == NPoc::Naked,
    {
        *self = NPoc::Naked;
    }
}


/// The moving-average settings a pane reads off its fast or slow MA overlay.
#[derive(Debug, Clone, Copy, PartialEq, Eq, Structural)]
pub struct MaCfg {
    pub kind: MovingAverageKind,
    pub period: u16,
}

/// The VWAP overlay setting the rule engine needs.
#[derive(Debug, Clone, Copy, PartialEq, Eq, Structural)]
pub struct VwapCfg {
    pub reset_daily_utc: bool,
}

/// The Supertrend overlay settings the rule engine needs.
#[derive(Debug, Clone, Copy, PartialEq, Eq, Structural)]
pub struct SupertrendCfg {
    pub atr_period: u16,
    pub multiplier_x100: u16,
}

/// The Donchian overlay setting the rule engine needs.
#[derive(Debug, Clone, Copy, PartialEq, Eq, Structural)]
pub struct DonchianCfg {
    pub period: u16,
}

/// The Keltner overlay settings the rule engine needs.
#[derive(Debug, Clone, Copy, PartialEq, Eq, Structural)]
pub struct KeltnerCfg {
    pub ema_period: u16,
    pub atr_period: u16,
    pub multiplier_x100: u16,
}

/// The kind of a kline chart, with the studies enabled on it.
#[derive(Debug, Clone, PartialEq, Eq)]
pub enum KlineChartKind {
    Candles,
    CandlesStudied { studies: Vec<CandleStudy> },
    Footprint { clusters: ClusterKind, scaling: ClusterScaling, studies: Vec<FootprintStudy> },
}

impl KlineChartKind {
    pub fn default_kind() -> (r: KlineChartKind)
        ensures
            r == KlineChartKind::Candles,
    {
        KlineChartKind::Candles
    }

    /// The candle studies of the chart: none unless it is a studied candlestick chart.
    pub open spec fn candle_studies(self) -> Seq<CandleStudy> {
        match self {
            KlineChartKind::CandlesStudied { studies } => studies@,
            _ => Seq::empty(),
        }
    }

    /// Both kinds are the same variant with the same settings and the same studies
    /// in the same order.
    pub open spec fn same_as(self, other: Self) -> bool {
        match (self, other) {
            (KlineChartKind::Candles, KlineChartKind::Candles) => true,
            (
                KlineChartKind::CandlesStudied { studies: a },
                KlineChartKind::CandlesStudied { studies: b },
            ) => a@ == b@,
            (
                KlineChartKind::Footprint { clusters: c1, scaling: s1, studies: a },
                KlineChartKind::Footprint { clusters: c2, scaling: s2, studies: b },
            ) => c1 == c2 && s1 == s2 && a@ == b@,
            _ => false,
        }
    }

    /// A copy of the kind, studies included.
    pub fn duplicate(&self) -> (r: KlineChartKind)
        ensures
            r.same_as(*self),
    {
        match self {
            KlineChartKind::Candles => KlineChartKind::Candles,
            KlineChartKind::CandlesStudied { studies } => KlineChartKind::CandlesStudied {
                studies: copied(studies),
            },
            KlineChartKind::Footprint { clusters, scaling, studies } => KlineChartKind::Footprint {
                clusters: *clusters,
                scaling: *scaling,
                studies: copied(studies),
            },
        }
    }

    /// Replaces the footprint studies of a footprint chart; other kinds keep theirs.
    pub fn set_footprint_studies(&mut self, new_studies: Vec<FootprintStudy>)
        ensures
            match *old(self) {
                KlineChartKind::Footprint { clusters, scaling, .. } => *final(self) matches KlineChartKind::Footprint {
                    clusters: c,
                    scaling: s,
                    studies,
                } && c == clusters && s == scaling && studies@ == new_studies@,
                _ => *final(self) == *old(self),
            },
    {
        if let KlineChartKind::Footprint { studies, .. } = self {
            *studies = new_studies;
        }
    }
}

/// A copy of every element of `v`, in order.
pub fn copied<T: Copy>(v: &Vec<T>) -> (r: Vec<T>)
    ensures
        r@ == v@,
{
    let mut out: Vec<T> = Vec::new();
    for i in 0..v.len()
        invariant
            out@ == v@.take(i as int),
    {
        out.push(v[i]);
        proof {
            assert(v@.take(i + 1) == v@.take(i as int).push(v@[i as int]));
        }
    }
    proof {
        assert(v@.take(v@.len() as int) == v@);
    }
    out
}

/// The settings of the last fast moving average among `s`.
pub open spec fn last_fast_ma(s: Seq<CandleStudy>) -> Option<MaCfg>
    decreases s.len(),
{
    if s.len() == 0 {
        None
    } else {
        match s.last() {
            CandleStudy::MovingAverageFast { kind, period, .. } => Some(MaCfg { kind, period }),
            _ => last_fast_ma(s.drop_last()),
        }
    }
}

/// The settings of the last slow moving average among `s`.
pub open spec fn last_slow_ma(s: Seq<CandleStudy>) -> Option<MaCfg>
    decreases s.len(),
{
    if s.len() == 0 {
        None
    } else {
        match s.last() {
            CandleStudy::MovingAverageSlow { kind, period, .. } => Some(MaCfg { kind, period }),
            _ => last_slow_ma(s.drop_last()),
        }
    }
}

/// The pair of moving averages a crossing rule compares.
pub open spec fn ma_pair_spec(kind: KlineChartKind) -> Option<(MaCfg, MaCfg)> {
    match kind {
        KlineChartKind::CandlesStudied { studies } => match (
            last_fast_ma(studies@),
            last_slow_ma(studies@),
        ) {
            (Some(f), Some(s)) => Some((f, s)),
            _ => None,
        },
        _ => None,
    }
}

/// The fast and slow moving averages of a studied candlestick chart: for each, the
/// last one listed; `None` unless both are present.
pub fn ma_pair_from_kind(kind: &KlineChartKind) -> (r: Option<(MaCfg, MaCfg)>)
    ensures
        r == ma_pair_spec(*kind),
{
    let studies = match kind {
        KlineChartKind::CandlesStudied { studies } => studies,
        _ => {
            return None;
        },
    };
    let mut fast: Option<MaCfg> = None;
    let mut slow: Option<MaCfg> = None;
    let n = studies.len();
    for i in 0..n
        invariant
            n == studies@.len(),
            fast == last_fast_ma(studies@.take(i as int)),
            slow == last_slow_ma(studies@.take(i as int)),
    {
        assert(studies@.take(i + 1).drop_last() == studies@.take(i as int));
        match studies[i] {
            CandleStudy::MovingAverageFast { kind, period, .. } => {
                fast = Some(MaCfg { kind, period });
            },
            CandleStudy::MovingAverageSlow { kind, period, .. } => {
                slow = Some(MaCfg { kind, period });
            },
            _ => {},
        }
    }
    assert(studies@.take(n as int) == studies@);
    match (fast, slow) {
        (Some(f), Some(s)) => Some((f, s)),
        _ => None,
    }
}

/// The setting of the first VWAP overlay at or after position `i`.
pub open spec fn first_vwap_from(s: Seq<CandleStudy>, i: int) -> Option<VwapCfg>
    decreases s.len() - i,
{
    if i < 0 || i >= s.len() {
        None
    } else {
        match s[i] {
            CandleStudy::VwapBands { reset_daily_utc, .. } => Some(VwapCfg { reset_daily_utc }),
            _ => first_vwap_from(s, i + 1),
        }
    }
}

/// The settings of the first Supertrend overlay at or after position `i`.
pub open spec fn first_supertrend_from(s: Seq<CandleStudy>, i: int) -> Option<SupertrendCfg>
    decreases s.len() - i,
{
    if i < 0 || i >= s.len() {
        None
    } else {
        match s[i] {
            CandleStudy::Supertrend { atr_period, multiplier_x100, .. } => Some(
                SupertrendCfg { atr_period, multiplier_x100 },
            ),
            _ => first_supertrend_from(s, i + 1),
        }
    }
}

/// The setting of the first Donchian overlay at or after position `i`.
pub open spec fn first_donchian_from(s: Seq<CandleStudy>, i: int) -> Option<DonchianCfg>
    decreases s.len() - i,
{
    if i < 0 || i >= s.len() {
        None
    } else {
        match s[i] {
            CandleStudy::DonchianChannels { period, .. } => Some(DonchianCfg { period }),
            _ => first_donchian_from(s, i + 1),
        }
    }
}

/// The settings of the first Keltner overlay at or after position `i`.
pub open spec fn first_keltner_from(s: Seq<CandleStudy>, i: int) -> Option<KeltnerCfg>
    decreases s.len() - i,
{
    if i < 0 || i >= s.len() {
        None
    } else {
        match s[i] {
            CandleStudy::KeltnerChannels { ema_period, atr_period, multiplier_x100, .. } => Some(
                KeltnerCfg { ema_period, atr_period, multiplier_x100 },
            ),
            _ => first_keltner_from(s, i + 1),
        }
    }
}

/// The first VWAP overlay of a studied candlestick chart, if any.
pub fn vwap_cfg_from_kind(kind: &KlineChartKind) -> (r: Option<VwapCfg>)
    ensures
        r == first_vwap_from(kind.candle_studies(), 0),
{
    let studies = match kind {
        KlineChartKind::CandlesStudied { studies } => studies,
        _ => {
            return None;
        },
    };
    let n = studies.len();
    for i in 0..n
        invariant
            n == studies@.len(),
            kind.candle_studies() == studies@,
            first_vwap_from(studies@, 0) == first_vwap_from(studies@, i as int),
    {
        if let CandleStudy::VwapBands { reset_daily_utc, .. } = studies[i] {
            return Some(VwapCfg { reset_daily_utc });
        }
    }
    None
}

/// Whether the first VWAP overlay of the chart resets at the UTC day boundary;
/// `false` when there is none.
pub fn vwap_reset_note(kind: &KlineChartKind) -> (r: bool)
    ensures
        r == match first_vwap_from(kind.candle_studies(), 0) {
            Some(cfg) => cfg.reset_daily_utc,
            None => false,
        },
{
    match vwap_cfg_from_kind(kind) {
        Some(cfg) => cfg.reset_daily_utc,
        None => false,
    }
}

/// The first Supertrend overlay of a studied candlestick chart, if any.
pub fn supertrend_cfg_from_kind(kind: &KlineChartKind) -> (r: Option<SupertrendCfg>)
    ensures
        r == first_supertrend_from(kind.candle_studies(), 0),
{
    let studies = match kind {
        KlineChartKind::CandlesStudied { studies } => studies,
        _ => {
            return None;
        },
    };
    let n = studies.len();
    for i in 0..n
        invariant
            n == studies@.len(),
            kind.candle_studies() == studies@,
            first_supertrend_from(studies@, 0) == first_supertrend_from(studies@, i as int),
    {
        if let CandleStudy::Supertrend { atr_period, multiplier_x100, .. } = studies[i] {
            return Some(SupertrendCfg { atr_period, multiplier_x100 });
        }
    }
    None
}

/// The first Donchian overlay of a studied candlestick chart, if any.
pub fn donchian_cfg_from_kind(kind: &KlineChartKind) -> (r: Option<DonchianCfg>)
    ensures
        r == first_donchian_from(kind.candle_studies(), 0),
{
    let studies = match kind {
        KlineChartKind::CandlesStudied { studies } => studies,
        _ => {
            return None;
        },
    };
    let n = studies.len();
    for i in 0..n
        invariant
            n == studies@.len(),
            kind.candle_studies() == studies@,
            first_donchian_from(studies@, 0) == first_donchian_from(studies@, i as int),
    {
        if let CandleStudy::DonchianChannels { period, .. } = studies[i] {
            return Some(DonchianCfg { period });
        }
    }
    None
}

/// The first Keltner overlay of a studied candlestick chart, if any.
pub fn keltner_cfg_from_kind(kind: &KlineChartKind) -> (r: Option<KeltnerCfg>)
    ensures
        r == first_keltner_from(kind.candle_studies(), 0),
{
    let studies = match kind {
        KlineChartKind::CandlesStudied { studies } => studies,
        _ => {
            return None;
        },
    };
    let n = studies.len();
    for i in 0..n
        invariant
            n == studies@.len(),
            kind.candle_studies() == studies@,
            first_keltner_from(studies@, 0) == first_keltner_from(studies@, i as int),
    {
        if let CandleStudy::KeltnerChannels { ema_period, atr_period, multiplier_x100, .. } =
            studies[i] {
            return Some(KeltnerCfg { ema_period, atr_period, multiplier_x100 });
        }
    }
    None
}

/// Periods and line colors of the indicator panels below a kline chart.
#[derive(Debug, Copy, Clone, PartialEq)]
pub struct Config {
    pub rsi_period: u16,
    pub rsi_color_rgb: [u8; 3],
    pub macd_fast: u16,
    pub macd_slow: u16,
    pub macd_signal: u16,
    pub macd_color_rgb: [u8; 3],
    pub macd_signal_color_rgb: [u8; 3],
    pub atr_period: u16,
    pub atr_color_rgb: [u8; 3],
    pub stoch_rsi_rsi_period: u16,
    pub stoch_rsi_period: u16,
    pub stoch_rsi_k_smooth: u16,
    pub stoch_rsi_d_smooth: u16,
    pub stoch_rsi_k_color_rgb: [u8; 3],
    pub stoch_rsi_d_color_rgb: [u8; 3],
    pub dmi_period: u16,
    pub dmi_plus_color_rgb: [u8; 3],
    pub dmi_minus_color_rgb: [u8; 3],
    pub adx_color_rgb: [u8; 3],
}

/// An RGB color as a sequence of its three channels.
pub open spec fn rgb(r: u8, g: u8, b: u8) -> Seq<u8> {
    seq![r, g, b]
}

impl Config {
    /// The factory settings of the indicator panels.
    pub open spec fn is_factory(self) -> bool {
        &&& self.rsi_period == 14
        &&& self.rsi_color_rgb@ == rgb(0xB0, 0xB0, 0xB0)
        &&& self.macd_fast == 12
        &&& self.macd_slow == 26
        &&& self.macd_signal == 9
        &&& self.macd_color_rgb@ == rgb(0x4C, 0xA3, 0xFF)
        &&& self.macd_signal_color_rgb@ == rgb(0xFF, 0xC1, 0x4C)
        &&& self.atr_period == 14
        &&& self.atr_color_rgb@ == rgb(0xB0, 0xB0, 0xB0)
        &&& self.stoch_rsi_rsi_period == 14
        &&& self.stoch_rsi_period == 14
        &&& self.stoch_rsi_k_smooth == 3
        &&& self.stoch_rsi_d_smooth == 3
        &&& self.stoch_rsi_k_color_rgb@ == rgb(0x4C, 0xA3, 0xFF)
        &&& self.stoch_rsi_d_color_rgb@ == rgb(0xFF, 0xC1, 0x4C)
        &&& self.dmi_period == 14
        &&& self.dmi_plus_color_rgb@ == rgb(0x6E, 0xE7, 0xB7)
        &&& self.dmi_minus_color_rgb@ == rgb(0xFF, 0x9A, 0x9A)
        &&& self.adx_color_rgb@ == rgb(0xB0, 0xB0, 0xB0)
    }
}

impl Default for Config {
    fn default() -> (r: Self)
        ensures
            r.is_factory(),
    {
        Config {
            rsi_period: 14,
            rsi_color_rgb: [0xB0, 0xB0, 0xB0],
            macd_fast: 12,
            macd_slow: 26,
            macd_signal: 9,
            macd_color_rgb: [0x4C, 0xA3, 0xFF],
            macd_signal_color_rgb: [0xFF, 0xC1, 0x4C],
            atr_period: 14,
            atr_color_rgb: [0xB0, 0xB0, 0xB0],
            stoch_rsi_rsi_period: 14,
            stoch_rsi_period: 14,
            stoch_rsi_k_smooth: 3,
            stoch_rsi_d_smooth: 3,
            stoch_rsi_k_color_rgb: [0x4C, 0xA3, 0xFF],
            stoch_rsi_d_color_rgb: [0xFF, 0xC1, 0x4C],
            dmi_period: 14,
            dmi_plus_color_rgb: [0x6E, 0xE7, 0xB7],
            dmi_minus_color_rgb: [0xFF, 0x9A, 0x9A],
            adx_color_rgb: [0xB0, 0xB0, 0xB0],
        }
    }
}

/// Milliseconds in a day.
pub const DAY_MS: u64 = 86_400_000;

/// The position after the last of `times[..j]` that falls on another UTC day than
/// `day`; 0 when all of them fall on `day`.
pub open spec fn after_other_day(times: Seq<u64>, day: u64, j: int) -> int
    decreases j,
{
    if j <= 0 || j > times.len() {
        0
    } else if times[j - 1] / DAY_MS != day {
        j
    } else {
        after_other_day(times, day, j - 1)
    }
}

/// Where the VWAP of a series of candle times starts: at the first candle of the
/// last candle's UTC day when it resets daily, else at the first candle.
pub open spec fn vwap_start_spec(times: Seq<u64>, reset_daily_utc: bool) -> int {
    if !reset_daily_utc || times.len() == 0 {
        0
    } else {
        after_other_day(times, times.last() / DAY_MS, times.len() as int)
    }
}

/// Where the VWAP of a series of candle times starts, as `vwap_start_spec`
/// describes.
pub fn vwap_session_start(times: &Vec<u64>, reset_daily_utc: bool) -> (r: usize)
    ensures
        r as int == vwap_start_spec(times@, reset_daily_utc),
        r <= times@.len(),
{
    if !reset_daily_utc || times.len() == 0 {
        return 0;
    }
    let last_day = times[times.len() - 1] / DAY_MS;
    let mut j = times.len();
    while j > 0
        invariant
            j <= times@.len(),
            times@.len() > 0,
            reset_daily_utc,
            last_day == times@.last() / DAY_MS,
            after_other_day(times@, last_day, times@.len() as int) == after_other_day(times@, last_day, j as int),
        decreases j,
    {
        if times[j - 1] / DAY_MS != last_day {
            return j;
        }
        j = j - 1;
    }
    0
}

} // verus!

//! Alert rules of a candlestick pane: what a rule watches, what it does when it
//! fires, and the edits the rule editor makes to it.
//!
//! Thresholds and percentages are `f32` values in the application; here they are
//! held as their IEEE-754 bit patterns (`f32::to_bits`), which the rule logic only
//! stores, copies and compares for identity.

use vstd::prelude::*;

use crate::audio::SoundType;
use crate::ids::fresh_id;

verus! {

/// `0.0f32` as a bit pattern.
pub const LEVEL_ZERO_BITS: u32 = 0x0000_0000u32;

/// `50.0f32` as a bit pattern: the starting level of an RSI rule.
pub const RSI_START_LEVEL_BITS: u32 = 0x4248_0000u32;

/// `20.0f32` as a bit pattern: the starting value of an ADX rule.
pub const ADX_START_VALUE_BITS: u32 = 0x41A0_0000u32;

/// `25.0f32` as a bit pattern: the starting share of a paper trade, in percent.
pub const PAPER_START_PERCENT_BITS: u32 = 0x41C8_0000u32;

/// How often a rule is evaluated.
#[derive(Debug, Clone, Copy, PartialEq, Eq, Structural)]
pub enum EvaluationMode {
    /// On live trade updates.
    OnTick,
    /// When a candle closes.
    OnCandleClose,
    /// On both.
    Both,
}

impl EvaluationMode {
    pub fn default_mode() -> (r: EvaluationMode)
        ensures
            r == EvaluationMode::OnTick,
    {
        EvaluationMode::OnTick
    }

    pub open spec fn is_tick_mode(self) -> bool {
        self is OnTick || self is Both
    }

    pub open spec fn is_close_mode(self) -> bool {
        self is OnCandleClose || self is Both
    }

    /// Whether a rule in this mode is evaluated on live trade updates.
    pub fn evaluates_on_tick(&self) -> (r: bool)
        ensures
            r == self.is_tick_mode(),
    {
        matches!(self, EvaluationMode::OnTick | EvaluationMode::Both)
    }

    /// Whether a rule in this mode is evaluated when a candle closes.
    pub fn evaluates_on_close(&self) -> (r: bool)
        ensures
            r == self.is_close_mode(),
    {
        matches!(self, EvaluationMode::OnCandleClose | EvaluationMode::Both)
    }

    /// The name of the mode in the rule editor.
    pub fn label(&self) -> (r: &'static str)
        ensures
            r@ == match *self {
                EvaluationMode::OnTick => "On tick"@,
                EvaluationMode::OnCandleClose => "On candle close"@,
                EvaluationMode::Both => "Both"@,
            },
    {
        match self {
            EvaluationMode::OnTick => "On tick",
            EvaluationMode::OnCandleClose => "On candle close",
            EvaluationMode::Both => "Both",
        }
    }
}

/// The direction of a crossing.
#[derive(Debug, Clone, Copy, PartialEq, Eq, Structural)]
pub enum CrossDirection {
    CrossUp,
    CrossDown,
}

impl CrossDirection {
    /// The name of the direction in the rule editor.
    pub fn label(&self) -> (r: &'static str)
        ensures
            r@ == match *self {
                CrossDirection::CrossUp => "Cross up"@,
                CrossDirection::CrossDown => "Cross down"@,
            },
    {
        match self {
            CrossDirection::CrossUp => "Cross up",
            CrossDirection::CrossDown => "Cross down",
        }
    }
}

/// The direction of a threshold comparison.
#[derive(Debug, Clone, Copy, PartialEq, Eq, Structural)]
pub enum CompareDirection {
    Above,
    Below,
}

impl CompareDirection {
    /// The name of the direction in the rule editor.
    pub fn label(&self) -> (r: &'static str)
        ensures
            r@ == match *self {
                CompareDirection::Above => "Above"@,
                CompareDirection::Below => "Below"@,
            },
    {
        match self {
            CompareDirection::Above => "Above",
            CompareDirection::Below => "Below",
        }
    }
}

/// The side of a paper trade.
#[derive(Debug, Clone, Copy, PartialEq, Eq, Structural)]
pub enum Side {
    Buy,
    Sell,
}

/// What a rule watches. `level` and `value` are bit patterns of `f32` values.
#[derive(Debug, Clone, Copy, PartialEq, Eq, Structural)]
pub enum RuleCondition {
    /// The fast MA overlay crosses the slow one.
    MovingAverageCross { direction: CrossDirection },
    /// The last trade price crosses a fixed level.
    PriceCrossLevel { level: u32, direction: CrossDirection },
    /// A candle close crosses a fixed level.
    CandleCloseCrossLevel { level: u32, direction: CrossDirection },
    /// Candle volume against a fixed threshold.
    VolumeIs { value: u32, direction: CompareDirection },
    /// RSI crosses a fixed level.
    RsiCrossLevel { level: u32, direction: CrossDirection },
    /// MACD crosses its signal line.
    MacdCrossSignal { direction: CrossDirection },
    /// Price crosses the VWAP overlay.
    VwapCross { direction: CrossDirection },
    /// The Supertrend overlay flips direction.
    SupertrendFlip { direction: CrossDirection },
    /// Price crosses the Supertrend line.
    SupertrendLineCross { direction: CrossDirection },
    /// Close breaks out of the Donchian channel.
    DonchianBreakout { direction: CrossDirection },
    /// Close breaks out of the Keltner channel.
    KeltnerBreakout { direction: CrossDirection },
    /// +DI crosses -DI.
    DmiCross { direction: CrossDirection },
    /// ADX against a fixed threshold.
    AdxIs { value: u32, direction: CompareDirection },
}

/// The kind of a condition, as the rule editor lists it.
#[derive(Debug, Clone, Copy, PartialEq, Eq, Structural)]
pub enum ConditionKind {
    PriceCrossLevel,
    CandleCloseCrossLevel,
    VolumeIs,
    MovingAverageCross,
    RsiCrossLevel,
    MacdCrossSignal,
    VwapCross,
    SupertrendFlip,
    SupertrendLineCross,
    DonchianBreakout,
    KeltnerBreakout,
    DmiCross,
    AdxIs,
}

impl ConditionKind {
    /// The name of the condition kind in the rule editor.
    pub open spec fn label_spec(self) -> Seq<char> {
        match self {
            ConditionKind::PriceCrossLevel => "Price crosses level"@,
            ConditionKind::CandleCloseCrossLevel => "Candle close vs level"@,
            ConditionKind::VolumeIs => "Candle volume vs value"@,
            ConditionKind::MovingAverageCross => "MA cross (Fast vs Slow)"@,
            ConditionKind::RsiCrossLevel => "RSI crosses level"@,
            ConditionKind::MacdCrossSignal => "MACD crosses Signal"@,
            ConditionKind::VwapCross => "Price crosses VWAP"@,
            ConditionKind::SupertrendFlip => "Supertrend flips"@,
            ConditionKind::SupertrendLineCross => "Price crosses Supertrend line"@,
            ConditionKind::DonchianBreakout => "Donchian breakout"@,
            ConditionKind::KeltnerBreakout => "Keltner breakout"@,
            ConditionKind::DmiCross => "DMI cross (+DI vs -DI)"@,
            ConditionKind::AdxIs => "ADX vs value"@,
        }
    }

    /// The name of the condition kind in the rule editor.
    pub fn label(&self) -> (r: &'static str)
        ensures
            r@ == self.label_spec(),
    {
        match self {
            ConditionKind::PriceCrossLevel => "Price crosses level",
            ConditionKind::CandleCloseCrossLevel => "Candle close vs level",
            ConditionKind::VolumeIs => "Candle volume vs value",
            ConditionKind::MovingAverageCross => "MA cross (Fast vs Slow)",
            ConditionKind::RsiCrossLevel => "RSI crosses level",
            ConditionKind::MacdCrossSignal => "MACD crosses Signal",
            ConditionKind::VwapCross => "Price crosses VWAP",
            ConditionKind::SupertrendFlip => "Supertrend flips",
            ConditionKind::SupertrendLineCross => "Price crosses Supertrend line",
            ConditionKind::DonchianBreakout => "Donchian breakout",
            ConditionKind::KeltnerBreakout => "Keltner breakout",
            ConditionKind::DmiCross => "DMI cross (+DI vs -DI)",
            ConditionKind::AdxIs => "ADX vs value",
        }
    }
}

/// The kind of a condition.
pub open spec fn kind_of(c: RuleCondition) -> ConditionKind {
    match c {
        RuleCondition::PriceCrossLevel { .. } => ConditionKind::PriceCrossLevel,
        RuleCondition::CandleCloseCrossLevel { .. } => ConditionKind::CandleCloseCrossLevel,
        RuleCondition::VolumeIs { .. } => ConditionKind::VolumeIs,
        RuleCondition::MovingAverageCross { .. } => ConditionKind::MovingAverageCross,
        RuleCondition::RsiCrossLevel { .. } => ConditionKind::RsiCrossLevel,
        RuleCondition::MacdCrossSignal { .. } => ConditionKind::MacdCrossSignal,
        RuleCondition::VwapCross { .. } => ConditionKind::VwapCross,
        RuleCondition::SupertrendFlip { .. } => ConditionKind::SupertrendFlip,
        RuleCondition::SupertrendLineCross { .. } => ConditionKind::SupertrendLineCross,
        RuleCondition::DonchianBreakout { .. } => ConditionKind::DonchianBreakout,
        RuleCondition::KeltnerBreakout { .. } => ConditionKind::KeltnerBreakout,
        RuleCondition::DmiCross { .. } => ConditionKind::DmiCross,
        RuleCondition::AdxIs { .. } => ConditionKind::AdxIs,
    }
}

/// The condition a rule gets when the editor switches it to kind `k`: crossings
/// start upward, comparisons start at "above", levels at zero except RSI (50) and
/// ADX (20).
pub open spec fn fresh_condition_spec(k: ConditionKind) -> RuleCondition {
    let up = CrossDirection::CrossUp;
    match k {
        ConditionKind::PriceCrossLevel => RuleCondition::PriceCrossLevel {
            level: LEVEL_ZERO_BITS,
            direction: up,
        },
        ConditionKind::CandleCloseCrossLevel => RuleCondition::CandleCloseCrossLevel {
            level: LEVEL_ZERO_BITS,
            direction: up,
        },
        ConditionKind::VolumeIs => RuleCondition::VolumeIs {
            value: LEVEL_ZERO_BITS,
            direction: CompareDirection::Above,
        },
        ConditionKind::MovingAverageCross => RuleCondition::MovingAverageCross { direction: up },
        ConditionKind::RsiCrossLevel => RuleCondition::RsiCrossLevel {
            level: RSI_START_LEVEL_BITS,
            direction: up,
        },
        ConditionKind::MacdCrossSignal => RuleCondition::MacdCrossSignal { direction: up },
        ConditionKind::VwapCross => RuleCondition::VwapCross { direction: up },
        ConditionKind::SupertrendFlip => RuleCondition::SupertrendFlip { direction: up },
        ConditionKind::SupertrendLineCross => RuleCondition::SupertrendLineCross { direction: up },
        ConditionKind::DonchianBreakout => RuleCondition::DonchianBreakout { direction: up },
        ConditionKind::KeltnerBreakout => RuleCondition::KeltnerBreakout { direction: up },
        ConditionKind::DmiCross => RuleCondition::DmiCross { direction: up },
        ConditionKind::AdxIs => RuleCondition::AdxIs {
            value: ADX_START_VALUE_BITS,
            direction: CompareDirection::Above,
        },
    }
}

/// The crossing direction of a condition, for the kinds that have one.
pub open spec fn cross_direction_spec(c: RuleCondition) -> Option<CrossDirection> {
    match c {
        RuleCondition::PriceCrossLevel { direction, .. } => Some(direction),
        RuleCondition::CandleCloseCrossLevel { direction, .. } => Some(direction),
        RuleCondition::MovingAverageCross { direction } => Some(direction),
        RuleCondition::RsiCrossLevel { direction, .. } => Some(direction),
        RuleCondition::MacdCrossSignal { direction } => Some(direction),
        RuleCondition::VwapCross { direction } => Some(direction),
        RuleCondition::SupertrendFlip { direction } => Some(direction),
        RuleCondition::SupertrendLineCross { direction } => Some(direction),
        RuleCondition::DonchianBreakout { direction } => Some(direction),
        RuleCondition::KeltnerBreakout { direction } => Some(direction),
        RuleCondition::DmiCross { direction } => Some(direction),
        RuleCondition::VolumeIs { .. } => None,
        RuleCondition::AdxIs { .. } => None,
    }
}

/// The comparison direction of a condition, for the kinds that have one.
pub open spec fn compare_direction_spec(c: RuleCondition) -> Option<CompareDirection> {
    match c {
        RuleCondition::VolumeIs { direction, .. } => Some(direction),
        RuleCondition::AdxIs { direction, .. } => Some(direction),
        _ => None,
    }
}

/// The threshold of a condition (level or value), for the kinds that have one.
pub open spec fn threshold_spec(c: RuleCondition) -> Option<u32> {
    match c {
        RuleCondition::PriceCrossLevel { level, .. } => Some(level),
        RuleCondition::CandleCloseCrossLevel { level, .. } => Some(level),
        RuleCondition::RsiCrossLevel { level, .. } => Some(level),
        RuleCondition::VolumeIs { value, .. } => Some(value),
        RuleCondition::AdxIs { value, .. } => Some(value),
        _ => None,
    }
}

/// `c` with its crossing direction set to `d`; unchanged for kinds without one.
pub open spec fn with_cross_direction(c: RuleCondition, d: CrossDirection) -> RuleCondition {
    match c {
        RuleCondition::PriceCrossLevel { level, .. } => RuleCondition::PriceCrossLevel {
            level,
            direction: d,
        },
        RuleCondition::CandleCloseCrossLevel { level, .. } => RuleCondition::CandleCloseCrossLevel {
            level,
            direction: d,
        },
        RuleCondition::MovingAverageCross { .. } => RuleCondition::MovingAverageCross {
            direction: d,
        },
        RuleCondition::RsiCrossLevel { level, .. } => RuleCondition::RsiCrossLevel {
            level,
            direction: d,
        },
        RuleCondition::MacdCrossSignal { .. } => RuleCondition::MacdCrossSignal { direction: d },
        RuleCondition::VwapCross { .. } => RuleCondition::VwapCross { direction: d },
        RuleCondition::SupertrendFlip { .. } => RuleCondition::SupertrendFlip { direction: d },
        RuleCondition::SupertrendLineCross { .. } => RuleCondition::SupertrendLineCross {
            direction: d,
        },
        RuleCondition::DonchianBreakout { .. } => RuleCondition::DonchianBreakout { direction: d },
        RuleCondition::KeltnerBreakout { .. } => RuleCondition::KeltnerBreakout { direction: d },
        RuleCondition::DmiCross { .. } => RuleCondition::DmiCross { direction: d },
        _ => c,
    }
}

/// `c` with its comparison direction set to `d`; unchanged for kinds without one.
pub open spec fn with_compare_direction(c: RuleCondition, d: CompareDirection) -> RuleCondition {
    match c {
        RuleCondition::VolumeIs { value, .. } => RuleCondition::VolumeIs { value, direction: d },
        RuleCondition::AdxIs { value, .. } => RuleCondition::AdxIs { value, direction: d },
        _ => c,
    }
}

/// `c` with its threshold set to `v`; unchanged for kinds without one.
pub open spec fn with_threshold(c: RuleCondition, v: u32) -> RuleCondition {
    match c {
        RuleCondition::PriceCrossLevel { direction, .. } => RuleCondition::PriceCrossLevel {
            level: v,
            direction,
        },
        RuleCondition::CandleCloseCrossLevel { direction, .. } => RuleCondition::CandleCloseCrossLevel {
            level: v,
            direction,
        },
        RuleCondition::RsiCrossLevel { direction, .. } => RuleCondition::RsiCrossLevel {
            level: v,
            direction,
        },
        RuleCondition::VolumeIs { direction, .. } => RuleCondition::VolumeIs { value: v, direction },
        RuleCondition::AdxIs { direction, .. } => RuleCondition::AdxIs { value: v, direction },
        _ => c,
    }
}

impl RuleCondition {
    /// The kind the editor shows for this condition.
    pub fn kind(&self) -> (r: ConditionKind)
        ensures
            r == kind_of(*self),
    {
        match self {
            RuleCondition::PriceCrossLevel { .. } => ConditionKind::PriceCrossLevel,
            RuleCondition::CandleCloseCrossLevel { .. } => ConditionKind::CandleCloseCrossLevel,
            RuleCondition::VolumeIs { .. } => ConditionKind::VolumeIs,
            RuleCondition::MovingAverageCross { .. } => ConditionKind::MovingAverageCross,
            RuleCondition::RsiCrossLevel { .. } => ConditionKind::RsiCrossLevel,
            RuleCondition::MacdCrossSignal { .. } => ConditionKind::MacdCrossSignal,
            RuleCondition::VwapCross { .. } => ConditionKind::VwapCross,
            RuleCondition::SupertrendFlip { .. } => ConditionKind::SupertrendFlip,
            RuleCondition::SupertrendLineCross { .. } => ConditionKind::SupertrendLineCross,
            RuleCondition::DonchianBreakout { .. } => ConditionKind::DonchianBreakout,
            RuleCondition::KeltnerBreakout { .. } => ConditionKind::KeltnerBreakout,
            RuleCondition::DmiCross { .. } => ConditionKind::DmiCross,
            RuleCondition::AdxIs { .. } => ConditionKind::AdxIs,
        }
    }

    /// The condition a rule gets when the editor switches it to kind `k`.
    pub fn fresh(k: ConditionKind) -> (r: RuleCondition)
        ensures
            r == fresh_condition_spec(k),
    {
        let up = CrossDirection::CrossUp;
        match k {
            ConditionKind::PriceCrossLevel => RuleCondition::PriceCrossLevel {
                level: LEVEL_ZERO_BITS,
                direction: up,
            },
            ConditionKind::CandleCloseCrossLevel => RuleCondition::CandleCloseCrossLevel {
                level: LEVEL_ZERO_BITS,
                direction: up,
            },
            ConditionKind::VolumeIs => RuleCondition::VolumeIs {
                value: LEVEL_ZERO_BITS,
                direction: CompareDirection::Above,
            },
            ConditionKind::MovingAverageCross => RuleCondition::MovingAverageCross { direction: up },
            ConditionKind::RsiCrossLevel => RuleCondition::RsiCrossLevel {
                level: RSI_START_LEVEL_BITS,
                direction: up,
            },
            ConditionKind::MacdCrossSignal => RuleCondition::MacdCrossSignal { direction: up },
            ConditionKind::VwapCross => RuleCondition::VwapCross { direction: up },
            ConditionKind::SupertrendFlip => RuleCondition::SupertrendFlip { direction: up },
            ConditionKind::SupertrendLineCross => RuleCondition::SupertrendLineCross {
                direction: up,
            },
            ConditionKind::DonchianBreakout => RuleCondition::DonchianBreakout { direction: up },
            ConditionKind::KeltnerBreakout => RuleCondition::KeltnerBreakout { direction: up },
            ConditionKind::DmiCross => RuleCondition::DmiCross { direction: up },
            ConditionKind::AdxIs => RuleCondition::AdxIs {
                value: ADX_START_VALUE_BITS,
                direction: CompareDirection::Above,
            },
        }
    }

    /// The crossing direction, for the kinds that have one.
    pub fn cross_direction(&self) -> (r: Option<CrossDirection>)
        ensures
            r == cross_direction_spec(*self),
    {
        match *self {
            RuleCondition::PriceCrossLevel { direction, .. } => Some(direction),
            RuleCondition::CandleCloseCrossLevel { direction, .. } => Some(direction),
            RuleCondition::MovingAverageCross { direction } => Some(direction),
            RuleCondition::RsiCrossLevel { direction, .. } => Some(direction),
            RuleCondition::MacdCrossSignal { direction } => Some(direction),
            RuleCondition::VwapCross { direction } => Some(direction),
            RuleCondition::SupertrendFlip { direction } => Some(direction),
            RuleCondition::SupertrendLineCross { direction } => Some(direction),
            RuleCondition::DonchianBreakout { direction } => Some(direction),
            RuleCondition::KeltnerBreakout { direction } => Some(direction),
            RuleCondition::DmiCross { direction } => Some(direction),
            RuleCondition::VolumeIs { .. } => None,
            RuleCondition::AdxIs { .. } => None,
        }
    }

    /// The comparison direction, for the kinds that have one.
    pub fn compare_direction(&self) -> (r: Option<CompareDirection>)
        ensures
            r == compare_direction_spec(*self),
    {
        match *self {
            RuleCondition::VolumeIs { direction, .. } => Some(direction),
            RuleCondition::AdxIs { direction, .. } => Some(direction),
            _ => None,
        }
    }

    /// The threshold (level or value), for the kinds that have one.
    pub fn threshold(&self) -> (r: Option<u32>)
        ensures
            r == threshold_spec(*self),
    {
        match *self {
            RuleCondition::PriceCrossLevel { level, .. } => Some(level),
            RuleCondition::CandleCloseCrossLevel { level, .. } => Some(level),
            RuleCondition::RsiCrossLevel { level, .. } => Some(level),
            RuleCondition::VolumeIs { value, .. } => Some(value),
            RuleCondition::AdxIs { value, .. } => Some(value),
            _ => None,
        }
    }

    /// The direction that picks the alert sound when the rule fires: the crossing
    /// direction where there is one, upward otherwise.
    pub fn trigger_direction(&self) -> (r: CrossDirection)
        ensures
            r == match cross_direction_spec(*self) {
                Some(d) => d,
                None => CrossDirection::CrossUp,
            },
    {
        match self.cross_direction() {
            Some(d) => d,
            None => CrossDirection::CrossUp,
        }
    }

    /// Sets the crossing direction; kinds without one are left as they are.
    pub fn set_cross_direction(&mut self, d: CrossDirection)
        ensures
            *final(self) == with_cross_direction(*old(self), d),
    {
        *self = match *self {
            RuleCondition::PriceCrossLevel { level, .. } => RuleCondition::PriceCrossLevel {
                level,
                direction: d,
            },
            RuleCondition::CandleCloseCrossLevel { level, .. } => RuleCondition::CandleCloseCrossLevel {
                level,
                direction: d,
            },
            RuleCondition::MovingAverageCross { .. } => RuleCondition::MovingAverageCross {
                direction: d,
            },
            RuleCondition::RsiCrossLevel { level, .. } => RuleCondition::RsiCrossLevel {
                level,
                direction: d,
            },
            RuleCondition::MacdCrossSignal { .. } => RuleCondition::MacdCrossSignal { direction: d },
            RuleCondition::VwapCross { .. } => RuleCondition::VwapCross { direction: d },
            RuleCondition::SupertrendFlip { .. } => RuleCondition::SupertrendFlip { direction: d },
            RuleCondition::SupertrendLineCross { .. } => RuleCondition::SupertrendLineCross {
                direction: d,
            },
            RuleCondition::DonchianBreakout { .. } => RuleCondition::DonchianBreakout {
                direction: d,
            },
            RuleCondition::KeltnerBreakout { .. } => RuleCondition::KeltnerBreakout {
                direction: d,
            },
            RuleCondition::DmiCross { .. } => RuleCondition::DmiCross { direction: d },
            c => c,
        };
    }

    /// Sets the comparison direction; kinds without one are left as they are.
    pub fn set_compare_direction(&mut self, d: CompareDirection)
        ensures
            *final(self) == with_compare_direction(*old(self), d),
    {
        *self = match *self {
            RuleCondition::VolumeIs { value, .. } => RuleCondition::VolumeIs { value, direction: d },
            RuleCondition::AdxIs { value, .. } => RuleCondition::AdxIs { value, direction: d },
            c => c,
        };
    }

    /// Sets the threshold; kinds without one are left as they are.
    pub fn set_threshold(&mut self, v: u32)
        ensures
            *final(self) == with_threshold(*old(self), v),
    {
        *self = match *self {
            RuleCondition::PriceCrossLevel { direction, .. } => RuleCondition::PriceCrossLevel {
                level: v,
                direction,
            },
            RuleCondition::CandleCloseCrossLevel { direction, .. } => RuleCondition::CandleCloseCrossLevel {
                level: v,
                direction,
            },
            RuleCondition::RsiCrossLevel { direction, .. } => RuleCondition::RsiCrossLevel {
                level: v,
                direction,
            },
            RuleCondition::VolumeIs { direction, .. } => RuleCondition::VolumeIs {
                value: v,
                direction,
            },
            RuleCondition::AdxIs { direction, .. } => RuleCondition::AdxIs { value: v, direction },
            c => c,
        };
    }
}

/// The label of the threshold input of a condition kind; empty where the kind has
/// no threshold.
pub open spec fn threshold_label_spec(k: ConditionKind) -> Seq<char> {
    match k {
        ConditionKind::VolumeIs => "Value"@,
        ConditionKind::RsiCrossLevel => "RSI level"@,
        ConditionKind::AdxIs => "ADX value"@,
        ConditionKind::PriceCrossLevel | ConditionKind::CandleCloseCrossLevel => "Level"@,
        _ => ""@,
    }
}

/// The label of the threshold input of a condition kind; empty where the kind has
/// no threshold.
pub fn threshold_label(k: ConditionKind) -> (r: &'static str)
    ensures
        r@ == threshold_label_spec(k),
{
    match k {
        ConditionKind::VolumeIs => "Value",
        ConditionKind::RsiCrossLevel => "RSI level",
        ConditionKind::MovingAverageCross | ConditionKind::MacdCrossSignal => "",
        ConditionKind::VwapCross | ConditionKind::SupertrendFlip | ConditionKind::SupertrendLineCross
        | ConditionKind::DonchianBreakout | ConditionKind::KeltnerBreakout
        | ConditionKind::DmiCross => "",
        ConditionKind::AdxIs => "ADX value",
        _ => "Level",
    }
}

/// The sound a firing rule plays: the buy sound for an upward crossing, the sell
/// sound for a downward one.
pub fn sound_for_direction(d: CrossDirection) -> (r: SoundType)
    ensures
        r == match d {
            CrossDirection::CrossUp => SoundType::Buy,
            CrossDirection::CrossDown => SoundType::Sell,
        },
{
    match d {
        CrossDirection::CrossUp => SoundType::Buy,
        CrossDirection::CrossDown => SoundType::Sell,
    }
}

/// What a rule does when it fires. `percent_of_balance` is the bit pattern of an
/// `f32` percentage of the paper balance.
#[derive(Debug, Clone, PartialEq)]
pub enum RuleAction {
    Toast { message: String },
    Sound { enabled: bool },
    Telegram { enabled: bool },
    /// Push notification through ntfy.
    Push { enabled: bool },
    PaperTrade { side: Side, percent_of_balance: u32 },
}

impl RuleAction {
    /// The position of the variant in the declaration: two actions are of the same
    /// kind exactly when these agree.
    pub open spec fn variant_index(self) -> nat {
        match self {
            RuleAction::Toast { .. } => 0,
            RuleAction::Sound { .. } => 1,
            RuleAction::Telegram { .. } => 2,
            RuleAction::Push { .. } => 3,
            RuleAction::PaperTrade { .. } => 4,
        }
    }

    pub fn variant_number(&self) -> (r: u8)
        ensures
            r as nat == self.variant_index(),
    {
        match self {
            RuleAction::Toast { .. } => 0,
            RuleAction::Sound { .. } => 1,
            RuleAction::Telegram { .. } => 2,
            RuleAction::Push { .. } => 3,
            RuleAction::PaperTrade { .. } => 4,
        }
    }
}

/// A rule of a pane.
#[derive(Debug, Clone)]
pub struct RuleSpec {
    pub id: u128,
    pub name: String,
    pub enabled: bool,
    pub evaluation: EvaluationMode,
    pub condition: RuleCondition,
    pub actions: Vec<RuleAction>,
    /// Minimum time between two firings, in milliseconds; 0 disables the cooldown.
    pub cooldown_ms: u64,
}

impl RuleSpec {
    /// A new rule as the editor creates it: named "New rule", enabled, evaluated on
    /// tick, watching an upward MA cross, showing the toast "Rule triggered", with a
    /// one-second cooldown and a fresh random identifier.
    pub fn new_default() -> (r: RuleSpec)
        ensures
            r.name@ == "New rule"@,
            r.enabled,
            r.evaluation == EvaluationMode::OnTick,
            r.condition == (RuleCondition::MovingAverageCross { direction: CrossDirection::CrossUp }),
            r.actions@.len() == 1,
            r.actions@[0] matches RuleAction::Toast { message } && message@ == "Rule triggered"@,
            r.cooldown_ms == 1000,
            crate::ids::is_v4_id(r.id),
    {
        let mut actions = Vec::new();
        actions.push(RuleAction::Toast { message: String::from_str("Rule triggered") });
        RuleSpec {
            id: fresh_id(),
            name: String::from_str("New rule"),
            enabled: true,
            evaluation: EvaluationMode::OnTick,
            condition: RuleCondition::MovingAverageCross { direction: CrossDirection::CrossUp },
            actions,
            cooldown_ms: 1000,
        }
    }
}

/// Whether some action of `s` is of kind `k`.
pub open spec fn has_kind(s: Seq<RuleAction>, k: nat) -> bool {
    exists|i: int| 0 <= i < s.len() && #[trigger] s[i].variant_index() == k
}

/// `s` without its actions of kind `k`, in order.
pub open spec fn without_kind(s: Seq<RuleAction>, k: nat) -> Seq<RuleAction>
    decreases s.len(),
{
    if s.len() == 0 {
        s
    } else if s.last().variant_index() == k {
        without_kind(s.drop_last(), k)
    } else {
        without_kind(s.drop_last(), k).push(s.last())
    }
}

/// The actions after the editor switches the kind of `a` on (`enabled`) or off: on
/// adds `a` at the end unless an action of its kind is there; off removes every
/// action of its kind.
pub open spec fn upsert_spec(s: Seq<RuleAction>, a: RuleAction, enabled: bool) -> Seq<RuleAction> {
    let k = a.variant_index();
    if enabled {
        if has_kind(s, k) {
            s
        } else {
            s.push(a)
        }
    } else if has_kind(s, k) {
        without_kind(s, k)
    } else {
        s
    }
}

/// Whether `actions` holds an action of the kind numbered `k`.
pub fn has_action_kind(actions: &Vec<RuleAction>, k: u8) -> (r: bool)
    ensures
        r == has_kind(actions@, k as nat),
{
    let n = actions.len();
    for i in 0..n
        invariant
            n == actions@.len(),
            forall|j: int| 0 <= j < i ==> #[trigger] actions@[j].variant_index() != k as nat,
    {
        if actions[i].variant_number() == k {
            return true;
        }
    }
    false
}

/// Removes every action of kind `k`, keeping the others in order.
pub fn remove_action_kind(actions: &mut Vec<RuleAction>, k: u8)
    ensures
        final(actions)@ == without_kind(old(actions)@, k as nat),
{
    let ghost orig = actions@;
    let mut i: usize = 0;
    let ghost mut j: int = 0;
    while i < actions.len()
        invariant
            0 <= j <= orig.len(),
            i as int == without_kind(orig.take(j), k as nat).len(),
            actions@ == without_kind(orig.take(j), k as nat) + orig.skip(j),
        decreases orig.len() - j,
    {
        proof {
            assert(orig.skip(j).len() > 0);
            assert(actions@[i as int] == orig[j]);
            assert(orig.take(j + 1).drop_last() == orig.take(j));
            assert(orig.take(j + 1).last() == orig[j]);
        }
        if actions[i].variant_number() == k {
            actions.remove(i);
            proof {
                assert(orig.skip(j) == seq![orig[j]] + orig.skip(j + 1));
                assert(actions@ == without_kind(orig.take(j + 1), k as nat) + orig.skip(j + 1));
                j = j + 1;
            }
        } else {
            proof {
                assert(orig.skip(j) == seq![orig[j]] + orig.skip(j + 1));
                assert(without_kind(orig.take(j + 1), k as nat) == without_kind(
                    orig.take(j),
                    k as nat,
                ).push(orig[j]));
                assert(actions@ == without_kind(orig.take(j + 1), k as nat) + orig.skip(j + 1));
                j = j + 1;
            }
            i = i + 1;
        }
    }
    proof {
        assert(orig.skip(j).len() == 0);
        assert(j == orig.len());
        assert(orig.take(j) == orig);
        assert(actions@ == without_kind(orig, k as nat));
    }
}

/// Switches the kind of `action` on or off among the actions of `rule`: switched on,
/// `action` is appended unless an action of that kind is already there; switched
/// off, every action of that kind goes. Nothing else of the rule changes.
pub fn upsert_action(rule: &mut RuleSpec, action: RuleAction, enabled: bool)
    ensures
        final(rule).actions@ == upsert_spec(old(rule).actions@, action, enabled),
        final(rule).id == old(rule).id,
        final(rule).name == old(rule).name,
        final(rule).enabled == old(rule).enabled,
        final(rule).evaluation == old(rule).evaluation,
        final(rule).condition == old(rule).condition,
        final(rule).cooldown_ms == old(rule).cooldown_ms,
{
    let k = action.variant_number();
    let exists = has_action_kind(&rule.actions, k);
    if enabled && !exists {
        rule.actions.push(action);
    } else if !enabled && exists {
        remove_action_kind(&mut rule.actions, k);
    }
}

/// The position of the first toast at or after `i`.
pub open spec fn first_toast_from(s: Seq<RuleAction>, i: int) -> Option<int>
    decreases s.len() - i,
{
    if i < 0 || i >= s.len() {
        None
    } else if s[i] is Toast {
        Some(i)
    } else {
        first_toast_from(s, i + 1)
    }
}

/// The position of the first toast action, if any.
pub fn first_toast_position(actions: &Vec<RuleAction>) -> (r: Option<usize>)
    ensures
        match r {
            Some(i) => first_toast_from(actions@, 0) == Some(i as int),
            None => first_toast_from(actions@, 0) is None,
        },
        r matches Some(i) ==> i < actions@.len() && actions@[i as int] is Toast,
{
    let n = actions.len();
    for i in 0..n
        invariant
            n == actions@.len(),
            first_toast_from(actions@, 0) == first_toast_from(actions@, i as int),
    {
        if let RuleAction::Toast { .. } = &actions[i] {
            return Some(i);
        }
    }
    None
}

/// Sets the message of the first toast action of `rule`, adding a toast with that
/// message at the end when the rule has none. Nothing else of the rule changes.
pub fn set_toast_message(rule: &mut RuleSpec, msg: String)
    ensures
        final(rule).actions@ == match first_toast_from(old(rule).actions@, 0) {
            Some(i) => old(rule).actions@.update(i, RuleAction::Toast { message: msg }),
            None => old(rule).actions@.push(RuleAction::Toast { message: msg }),
        },
        final(rule).id == old(rule).id,
        final(rule).name == old(rule).name,
        final(rule).enabled == old(rule).enabled,
        final(rule).evaluation == old(rule).evaluation,
        final(rule).condition == old(rule).condition,
        final(rule).cooldown_ms == old(rule).cooldown_ms,
{
    match first_toast_position(&rule.actions) {
        Some(i) => {
            rule.actions.set(i, RuleAction::Toast { message: msg });
        },
        None => {
            rule.actions.push(RuleAction::Toast { message: msg });
        },
    }
}

/// `s` with the share of every paper-trade action set to `pct`.
pub open spec fn with_paper_percent(s: Seq<RuleAction>, pct: u32) -> Seq<RuleAction> {
    Seq::new(
        s.len(),
        |i: int|
            match s[i] {
                RuleAction::PaperTrade { side, .. } => RuleAction::PaperTrade {
                    side,
                    percent_of_balance: pct,
                },
                a => a,
            },
    )
}

/// Sets the share of every paper-trade action of `rule` to `pct` (an `f32` bit
/// pattern). Nothing else of the rule changes.
pub fn set_paper_percent(rule: &mut RuleSpec, pct: u32)
    ensures
        final(rule).actions@ == with_paper_percent(old(rule).actions@, pct),
        final(rule).id == old(rule).id,
        final(rule).name == old(rule).name,
        final(rule).enabled == old(rule).enabled,
        final(rule).evaluation == old(rule).evaluation,
        final(rule).condition == old(rule).condition,
        final(rule).cooldown_ms == old(rule).cooldown_ms,
{
    let ghost orig = rule.actions@;
    let n = rule.actions.len();
    for i in 0..n
        invariant
            n == orig.len(),
            rule.actions@.len() == n,
            forall|j: int| 0 <= j < i ==> #[trigger] rule.actions@[j] == with_paper_percent(orig, pct)[j],
            forall|j: int| i <= j < n ==> #[trigger] rule.actions@[j] == orig[j],
            rule.id == old(rule).id,
            rule.name == old(rule).name,
            rule.enabled == old(rule).enabled,
            rule.evaluation == old(rule).evaluation,
            rule.condition == old(rule).condition,
            rule.cooldown_ms == old(rule).cooldown_ms,
    {
        let side = match &rule.actions[i] {
            RuleAction::PaperTrade { side, .. } => Some(*side),
            _ => None,
        };
        if let Some(side) = side {
            rule.actions.set(i, RuleAction::PaperTrade { side, percent_of_balance: pct });
        }
    }
    assert(rule.actions@ == with_paper_percent(orig, pct));
}

/// Whether some action of `s` is an enabled sound (1), telegram (2) or push (3)
/// action, for `k` the kind's number.
pub open spec fn has_enabled(s: Seq<RuleAction>, k: nat) -> bool {
    exists|i: int|
        0 <= i < s.len() && match #[trigger] s[i] {
            RuleAction::Sound { enabled } => k == 1 && enabled,
            RuleAction::Telegram { enabled } => k == 2 && enabled,
            RuleAction::Push { enabled } => k == 3 && enabled,
            _ => false,
        }
}

/// Whether `actions` holds an enabled action of kind `k` (1 sound, 2 telegram,
/// 3 push); the editor shows that kind as switched on.
pub fn has_enabled_action(actions: &Vec<RuleAction>, k: u8) -> (r: bool)
    ensures
        r == has_enabled(actions@, k as nat),
{
    let n = actions.len();
    for i in 0..n
        invariant
            n == actions@.len(),
            forall|j: int|
                0 <= j < i ==> !match #[trigger] actions@[j] {
                    RuleAction::Sound { enabled } => k == 1 && enabled,
                    RuleAction::Telegram { enabled } => k == 2 && enabled,
                    RuleAction::Push { enabled } => k == 3 && enabled,
                    _ => false,
                },
    {
        let hit = match &actions[i] {
            RuleAction::Sound { enabled } => k == 1 && *enabled,
            RuleAction::Telegram { enabled } => k == 2 && *enabled,
            RuleAction::Push { enabled } => k == 3 && *enabled,
            _ => false,
        };
        if hit {
            return true;
        }
    }
    false
}

/// The message the editor shows for the rule's toast: that of the first toast
/// action, or "Rule triggered" when there is none.
pub fn toast_message_or_default(actions: &Vec<RuleAction>) -> (r: String)
    ensures
        r@ == match first_toast_from(actions@, 0) {
            Some(i) => match actions@[i] {
                RuleAction::Toast { message } => message@,
                _ => Seq::empty(),
            },
            None => "Rule triggered"@,
        },
{
    match first_toast_position(actions) {
        Some(i) => match &actions[i] {
            RuleAction::Toast { message } => message.clone(),
            _ => String::new(),
        },
        None => String::from_str("Rule triggered"),
    }
}

/// The share of the first paper-trade action at or after `i`.
pub open spec fn first_paper_percent_from(s: Seq<RuleAction>, i: int) -> Option<u32>
    decreases s.len() - i,
{
    if i < 0 || i >= s.len() {
        None
    } else {
        match s[i] {
            RuleAction::PaperTrade { percent_of_balance, .. } => Some(percent_of_balance),
            _ => first_paper_percent_from(s, i + 1),
        }
    }
}

/// The share the editor shows for the paper trade: that of the first paper-trade
/// action, or 25 percent when there is none.
pub fn paper_percent_or_default(actions: &Vec<RuleAction>) -> (r: u32)
    ensures
        r == match first_paper_percent_from(actions@, 0) {
            Some(p) => p,
            None => PAPER_START_PERCENT_BITS,
        },
{
    let n = actions.len();
    for i in 0..n
        invariant
            n == actions@.len(),
            first_paper_percent_from(actions@, 0) == first_paper_percent_from(actions@, i as int),
    {
        if let RuleAction::PaperTrade { percent_of_balance, .. } = &actions[i] {
            return *percent_of_balance;
        }
    }
    PAPER_START_PERCENT_BITS
}

/// After the editor removes an action kind, no action of that kind is left.
pub proof fn lemma_without_kind_has_none(s: Seq<RuleAction>, k: nat)
    ensures
        forall|i: int| 0 <= i < without_kind(s, k).len() ==> #[trigger] without_kind(s, k)[i]
            .variant_index() != k,
        !has_kind(without_kind(s, k), k),
    decreases s.len(),
{
    if s.len() > 0 {
        lemma_without_kind_has_none(s.drop_last(), k);
        let w = without_kind(s.drop_last(), k);
        if s.last().variant_index() != k {
            assert forall|i: int| 0 <= i < w.push(s.last()).len() implies #[trigger] w.push(
                s.last(),
            )[i].variant_index() != k by {
                if i < w.len() {
                    assert(w.push(s.last())[i] == w[i]);
                }
            }
        }
    }
}

/// Switching an action kind on in the editor leaves an action of that kind;
/// switching it off leaves none; and doing either twice is the same as doing it once.
pub proof fn law_action_toggle(s: Seq<RuleAction>, a: RuleAction, enabled: bool)
    ensures
        has_kind(upsert_spec(s, a, enabled), a.variant_index()) == enabled,
        upsert_spec(upsert_spec(s, a, enabled), a, enabled) == upsert_spec(s, a, enabled),
{
    let k = a.variant_index();
    lemma_without_kind_has_none(s, k);
    if enabled && !has_kind(s, k) {
        assert(s.push(a)[s.len() as int].variant_index() == k);
    }
}

/// Switching a rule to a fresh condition of kind `k` gives it kind `k`; setting a
/// direction or a threshold never changes the kind; a direction or threshold set
/// where the kind has one reads back as set.
pub proof fn law_condition_edits(c: RuleCondition, k: ConditionKind, d: CrossDirection, cd: CompareDirection, v: u32)
    ensures
        kind_of(fresh_condition_spec(k)) == k,
        kind_of(with_cross_direction(c, d)) == kind_of(c),
        kind_of(with_compare_direction(c, cd)) == kind_of(c),
        kind_of(with_threshold(c, v)) == kind_of(c),
        cross_direction_spec(with_cross_direction(c, d)) == (if cross_direction_spec(c) is Some {
            Some(d)
        } else {
            None::<CrossDirection>
        }),
        compare_direction_spec(with_compare_direction(c, cd)) == (if compare_direction_spec(
            c,
        ) is Some {
            Some(cd)
        } else {
            None::<CompareDirection>
        }),
        threshold_spec(with_threshold(c, v)) == (if threshold_spec(c) is Some {
            Some(v)
        } else {
            None::<u32>
        }),
{
}

} // verus!

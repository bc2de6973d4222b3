//! The study settings panel: which study card is expanded, what its messages
//! ask the chart to do, and the catalogs and labels it shows.

use vstd::prelude::*;
use crate::content::HeatmapStudy;
use crate::kline::{CandleSource, CandleStudy, FootprintStudy, MovingAverageKind, rgb};
use crate::text::{decimal, push_decimal};

verus! {

/// A study that the settings panel lists: studies of one variant are one card.
pub trait Study: Sized + Copy {
    /// The variant of the study; settings do not count.
    spec fn variant(&self) -> nat;

    /// Whether both studies are of the same variant.
    fn is_same_type(&self, other: &Self) -> (r: bool)
        ensures
            r == (self.variant() == other.variant()),
    ;
}

impl Study for CandleStudy {
    open spec fn variant(&self) -> nat {
        self.variant_index()
    }

    fn is_same_type(&self, other: &Self) -> (r: bool) {
        CandleStudy::is_same_type(self, other)
    }
}

impl Study for FootprintStudy {
    open spec fn variant(&self) -> nat {
        self.variant_index()
    }

    fn is_same_type(&self, other: &Self) -> (r: bool) {
        FootprintStudy::is_same_type(self, other)
    }
}

impl Study for HeatmapStudy {
    open spec fn variant(&self) -> nat {
        0
    }

    fn is_same_type(&self, other: &Self) -> (r: bool) {
        true
    }
}

/// A message of a study card.
#[derive(Debug, Clone, Copy)]
pub enum Message<S> {
    /// The card's settings button was pressed.
    CardToggled(S),
    /// The study's checkbox was set.
    StudyToggled(S, bool),
    /// A setting of the study changed.
    StudyValueChanged(S),
}

/// What a card message asks of the chart.
#[derive(Debug, Clone, Copy)]
pub enum Action<S> {
    ToggleStudy(S, bool),
    ConfigureStudy(S),
}

/// The study settings panel: at most one card is expanded at a time.
pub struct Configurator<S> {
    pub expanded_card: Option<S>,
}

impl<S: Study> Configurator<S> {
    /// No card expanded.
    pub fn new() -> (r: Configurator<S>)
        ensures
            r.expanded_card is None,
    {
        Configurator { expanded_card: None }
    }

    /// Whether the card of `study`'s variant is expanded.
    pub open spec fn shows(self, study: S) -> bool {
        card_shows(self.expanded_card, study)
    }

    /// Handles a card message. Pressing the settings button of the expanded card
    /// collapses it; pressing another card's expands that one. Checkbox and setting
    /// changes are handed on to the chart and leave the panel as it is.
    pub fn update(&mut self, message: Message<S>) -> (r: Option<Action<S>>)
        ensures
            match message {
                Message::CardToggled(study) => r is None && final(self).expanded_card == card_after(
                    old(self).expanded_card,
                    study,
                ),
                Message::StudyToggled(study, checked) => final(self).expanded_card == old(
                    self,
                ).expanded_card && (r matches Some(Action::ToggleStudy(s, c)) && s == study && c
                    == checked),
                Message::StudyValueChanged(study) => final(self).expanded_card == old(
                    self,
                ).expanded_card && (r matches Some(Action::ConfigureStudy(s)) && s == study),
            },
    {
        match message {
            Message::CardToggled(study) => {
                let should_collapse = match &self.expanded_card {
                    Some(expanded) => expanded.is_same_type(&study),
                    None => false,
                };
                if should_collapse {
                    self.expanded_card = None;
                } else {
                    self.expanded_card = Some(study);
                }
                None
            },
            Message::StudyToggled(study, checked) => Some(Action::ToggleStudy(study, checked)),
            Message::StudyValueChanged(study) => Some(Action::ConfigureStudy(study)),
        }
    }

    /// Whether the card of `study`'s variant is expanded.
    pub fn is_expanded(&self, study: &S) -> (r: bool)
        ensures
            r == self.shows(*study),
    {
        match &self.expanded_card {
            Some(expanded) => expanded.is_same_type(study),
            None => false,
        }
    }
}

/// Whether the expanded card `expanded` is the card of `study`'s variant.
pub open spec fn card_shows<S: Study>(expanded: Option<S>, study: S) -> bool {
    expanded matches Some(e) && e.variant() == study.variant()
}

/// The expanded card after the settings button of `study`'s card is pressed:
/// none if that card was expanded, else that card.
pub open spec fn card_after<S: Study>(expanded: Option<S>, study: S) -> Option<S> {
    if card_shows(expanded, study) {
        None
    } else {
        Some(study)
    }
}

/// The first active study of the variant of `study`.
pub open spec fn first_of_variant<S: Study>(active: Seq<S>, study: S, i: int) -> Option<S>
    decreases active.len() - i,
{
    if i < 0 || i >= active.len() {
        None
    } else if active[i].variant() == study.variant() {
        Some(active[i])
    } else {
        first_of_variant(active, study, i + 1)
    }
}

/// The settings of the active study of `study`'s variant, if one is active: the
/// card shows it checked and labels it with its own settings.
pub fn selected_config<S: Study>(active: &Vec<S>, study: &S) -> (r: Option<S>)
    ensures
        r == first_of_variant(active@, *study, 0),
{
    let mut i: usize = 0;
    while i < active.len()
        invariant
            i <= active@.len(),
            first_of_variant(active@, *study, 0) == first_of_variant(active@, *study, i as int),
        decreases active@.len() - i,
    {
        if active[i].is_same_type(study) {
            return Some(active[i]);
        }
        i = i + 1;
    }
    None
}

/// Pressing the settings button of a card that is not expanded, and then that of
/// the same card again (with whatever settings), leaves no card expanded; pressing
/// it once leaves exactly that card expanded.
pub proof fn law_card_toggle_twice<S: Study>(expanded: Option<S>, study: S, again: S)
    requires
        !card_shows(expanded, study),
        again.variant() == study.variant(),
    ensures
        card_after(expanded, study) == Some(study),
        card_after(card_after(expanded, study), again) is None,
{
}

/// `s` is the candle study the catalog lists at position `i`, with its default
/// settings.
pub open spec fn is_catalog_candle_study(s: CandleStudy, i: int) -> bool {
    if i == 0 {
        s matches CandleStudy::MovingAverageFast { kind, period, source, color_rgb } && kind
            == MovingAverageKind::SMA && period == 20 && source == CandleSource::Close
            && color_rgb@ == rgb(0x4C, 0xA3, 0xFF)
    } else if i == 1 {
        s matches CandleStudy::MovingAverageSlow { kind, period, source, color_rgb } && kind
            == MovingAverageKind::EMA && period == 50 && source == CandleSource::Close
            && color_rgb@ == rgb(0xFF, 0xC1, 0x4C)
    } else if i == 2 {
        s matches CandleStudy::BollingerBands {
            period,
            source,
            stddev_x100,
            mid_color_rgb,
            upper_color_rgb,
            lower_color_rgb,
        } && period == 20 && source == CandleSource::Close && stddev_x100 == 200 && mid_color_rgb@
            == rgb(0xB0, 0xB0, 0xB0) && upper_color_rgb@ == rgb(0x4C, 0xA3, 0xFF)
            && lower_color_rgb@ == rgb(0xFF, 0xC1, 0x4C)
    } else if i == 3 {
        s matches CandleStudy::VwapBands {
            source,
            reset_daily_utc,
            band_stddev_x100,
            vwap_color_rgb,
            upper_color_rgb,
            lower_color_rgb,
        } && source == CandleSource::Close && reset_daily_utc && band_stddev_x100 == 200
            && vwap_color_rgb@ == rgb(0xB0, 0xB0, 0xB0) && upper_color_rgb@ == rgb(0x4C, 0xA3, 0xFF)
            && lower_color_rgb@ == rgb(0xFF, 0xC1, 0x4C)
    } else if i == 4 {
        s matches CandleStudy::Supertrend { atr_period, multiplier_x100, up_color_rgb, down_color_rgb }
            && atr_period == 10 && multiplier_x100 == 300 && up_color_rgb@ == rgb(0x4C, 0xA3, 0xFF)
            && down_color_rgb@ == rgb(0xFF, 0x59, 0x59)
    } else if i == 5 {
        s matches CandleStudy::EmaRibbon {
            min_period,
            max_period,
            step,
            start_color_rgb,
            end_color_rgb,
        } && min_period == 10 && max_period == 100 && step == 5 && start_color_rgb@ == rgb(
            0x4C,
            0xA3,
            0xFF,
        ) && end_color_rgb@ == rgb(0xFF, 0xC1, 0x4C)
    } else if i == 6 {
        s matches CandleStudy::DonchianChannels {
            period,
            upper_color_rgb,
            mid_color_rgb,
            lower_color_rgb,
        } && period == 20 && upper_color_rgb@ == rgb(0x4C, 0xA3, 0xFF) && mid_color_rgb@ == rgb(
            0xB0,
            0xB0,
            0xB0,
        ) && lower_color_rgb@ == rgb(0xFF, 0xC1, 0x4C)
    } else if i == 7 {
        s matches CandleStudy::KeltnerChannels {
            ema_period,
            atr_period,
            multiplier_x100,
            mid_color_rgb,
            upper_color_rgb,
            lower_color_rgb,
        } && ema_period == 20 && atr_period == 14 && multiplier_x100 == 150 && mid_color_rgb@ == rgb(
            0xB0,
            0xB0,
            0xB0,
        ) && upper_color_rgb@ == rgb(0x4C, 0xA3, 0xFF) && lower_color_rgb@ == rgb(0xFF, 0xC1, 0x4C)
    } else if i == 8 {
        s matches CandleStudy::Ichimoku {
            tenkan_period,
            kijun_period,
            senkou_period,
            tenkan_color_rgb,
            kijun_color_rgb,
            span_a_color_rgb,
            span_b_color_rgb,
            lag_color_rgb,
        } && tenkan_period == 9 && kijun_period == 26 && senkou_period == 52 && tenkan_color_rgb@
            == rgb(0x4C, 0xA3, 0xFF) && kijun_color_rgb@ == rgb(0xFF, 0xC1, 0x4C) && span_a_color_rgb@
            == rgb(0x6E, 0xE7, 0xB7) && span_b_color_rgb@ == rgb(0xFF, 0x9A, 0x9A) && lag_color_rgb@
            == rgb(0xB0, 0xB0, 0xB0)
    } else {
        false
    }
}

/// The candle studies the settings panel offers, one per variant in declaration
/// order, with their default settings.
pub fn candle_study_catalog() -> (r: Vec<CandleStudy>)
    ensures
        r@.len() == 9,
        forall|i: int| 0 <= i < 9 ==> is_catalog_candle_study(#[trigger] r@[i], i),
{
    let mut v: Vec<CandleStudy> = Vec::new();
    v.push(
        CandleStudy::MovingAverageFast {
            kind: MovingAverageKind::SMA,
            period: 20,
            source: CandleSource::Close,
            color_rgb: [0x4C, 0xA3, 0xFF],
        },
    );
    v.push(
        CandleStudy::MovingAverageSlow {
            kind: MovingAverageKind::EMA,
            period: 50,
            source: CandleSource::Close,
            color_rgb: [0xFF, 0xC1, 0x4C],
        },
    );
    v.push(
        CandleStudy::BollingerBands {
            period: 20,
            source: CandleSource::Close,
            stddev_x100: 200,
            mid_color_rgb: [0xB0, 0xB0, 0xB0],
            upper_color_rgb: [0x4C, 0xA3, 0xFF],
            lower_color_rgb: [0xFF, 0xC1, 0x4C],
        },
    );
    v.push(
        CandleStudy::VwapBands {
            source: CandleSource::Close,
            reset_daily_utc: true,
            band_stddev_x100: 200,
            vwap_color_rgb: [0xB0, 0xB0, 0xB0],
            upper_color_rgb: [0x4C, 0xA3, 0xFF],
            lower_color_rgb: [0xFF, 0xC1, 0x4C],
        },
    );
    v.push(
        CandleStudy::Supertrend {
            atr_period: 10,
            multiplier_x100: 300,
            up_color_rgb: [0x4C, 0xA3, 0xFF],
            down_color_rgb: [0xFF, 0x59, 0x59],
        },
    );
    v.push(
        CandleStudy::EmaRibbon {
            min_period: 10,
            max_period: 100,
            step: 5,
            start_color_rgb: [0x4C, 0xA3, 0xFF],
            end_color_rgb: [0xFF, 0xC1, 0x4C],
        },
    );
    v.push(
        CandleStudy::DonchianChannels {
            period: 20,
            upper_color_rgb: [0x4C, 0xA3, 0xFF],
            mid_color_rgb: [0xB0, 0xB0, 0xB0],
            lower_color_rgb: [0xFF, 0xC1, 0x4C],
        },
    );
    v.push(
        CandleStudy::KeltnerChannels {
            ema_period: 20,
            atr_period: 14,
            multiplier_x100: 150,
            mid_color_rgb: [0xB0, 0xB0, 0xB0],
            upper_color_rgb: [0x4C, 0xA3, 0xFF],
            lower_color_rgb: [0xFF, 0xC1, 0x4C],
        },
    );
    v.push(
        CandleStudy::Ichimoku {
            tenkan_period: 9,
            kijun_period: 26,
            senkou_period: 52,
            tenkan_color_rgb: [0x4C, 0xA3, 0xFF],
            kijun_color_rgb: [0xFF, 0xC1, 0x4C],
            span_a_color_rgb: [0x6E, 0xE7, 0xB7],
            span_b_color_rgb: [0xFF, 0x9A, 0x9A],
            lag_color_rgb: [0xB0, 0xB0, 0xB0],
        },
    );
    v
}

/// How long a window of `seconds` reads: seconds below a minute, else whole
/// minutes, else minutes and seconds.
pub open spec fn duration_text(seconds: nat) -> Seq<char> {
    if seconds < 60 {
        decimal(seconds) + " seconds"@
    } else if seconds % 60 == 0 {
        decimal(seconds / 60) + " minutes"@
    } else {
        decimal(seconds / 60) + "m "@ + decimal(seconds % 60) + "s"@
    }
}

/// The line a fixed-window volume profile card shows: the window in datapoints
/// and, at `interval_ms` per datapoint, in time (whole seconds).
pub fn window_label(datapoints: usize, interval_ms: u64) -> (r: String)
    requires
        datapoints * interval_ms <= u64::MAX,
    ensures
        r@ == "Window: "@ + decimal(datapoints as nat) + " datapoints ("@ + duration_text(
            (datapoints * interval_ms / 1000) as nat,
        ) + ")"@,
{
    let secs = (datapoints as u64) * interval_ms / 1000;
    let mut t = String::from_str("Window: ");
    push_decimal(&mut t, datapoints as u64);
    t.append(" datapoints (");
    if secs < 60 {
        push_decimal(&mut t, secs);
        t.append(" seconds");
    } else if secs % 60 == 0 {
        push_decimal(&mut t, secs / 60);
        t.append(" minutes");
    } else {
        push_decimal(&mut t, secs / 60);
        t.append("m ");
        push_decimal(&mut t, secs % 60);
        t.append("s");
    }
    t.append(")");
    t
}

} // verus!

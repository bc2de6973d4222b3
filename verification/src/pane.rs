//! The state a dashboard pane keeps beside its content: its loading status,
//! its notification list and the indicator browser's selections.

use vstd::prelude::*;
use crate::content::{HeatmapIndicator, KlineIndicator};
use crate::rule_book::{keep_last, push_capped, NOTIFICATION_CAP};
use crate::text::{decimal, push_decimal};

verus! {

/// What a pane is fetching.
#[derive(Debug, Clone, Copy, PartialEq, Eq, Structural)]
pub enum InfoKind {
    FetchingKlines,
    FetchingTrades(usize),
    FetchingOI,
}

/// The loading status of a pane.
#[derive(Debug, Clone, PartialEq, Eq)]
pub enum Status {
    Ready,
    Loading(InfoKind),
    Stale(String),
}

impl Status {
    /// A pane is ready by default.
    pub fn ready() -> (r: Status)
        ensures
            r is Ready,
    {
        Status::Ready
    }

    /// The line the pane header shows for the status; none when ready.
    pub fn text(&self) -> (r: Option<String>)
        ensures
            match *self {
                Status::Ready => r is None,
                Status::Loading(InfoKind::FetchingKlines) => r matches Some(t) && t@
                    == "Fetching Klines..."@,
                Status::Loading(InfoKind::FetchingTrades(count)) => r matches Some(t) && t@
                    == "Fetching Trades... "@ + decimal(count as nat) + " fetched"@,
                Status::Loading(InfoKind::FetchingOI) => r matches Some(t) && t@
                    == "Fetching Open Interest..."@,
                Status::Stale(msg) => r matches Some(t) && t@ == msg@,
            },
    {
        match self {
            Status::Ready => None,
            Status::Loading(InfoKind::FetchingKlines) => Some(String::from_str("Fetching Klines...")),
            Status::Loading(InfoKind::FetchingTrades(count)) => {
                let mut t = String::from_str("Fetching Trades... ");
                push_decimal(&mut t, *count as u64);
                t.append(" fetched");
                Some(t)
            },
            Status::Loading(InfoKind::FetchingOI) => Some(String::from_str("Fetching Open Interest...")),
            Status::Stale(msg) => Some(msg.clone()),
        }
    }

    /// The status after a batch of `fetched` trades arrives: the running count of a
    /// trade fetch grows by the batch, any other status starts a count at the
    /// batch; once the last batch is in and the pane has a chart to take them, the
    /// pane is ready.
    pub fn record_trade_batch(&mut self, fetched: usize, last_batch: bool, has_chart: bool)
        requires
            *old(self) matches Status::Loading(InfoKind::FetchingTrades(count)) ==> count + fetched
                <= usize::MAX,
        ensures
            last_batch && has_chart ==> *final(self) is Ready,
            !(last_batch && has_chart) ==> match *old(self) {
                Status::Loading(InfoKind::FetchingTrades(count)) => *final(self) == Status::Loading(
                    InfoKind::FetchingTrades((count + fetched) as usize),
                ),
                _ => *final(self) == Status::Loading(InfoKind::FetchingTrades(fetched)),
            },
    {
        let next = match self {
            Status::Loading(InfoKind::FetchingTrades(count)) => *count + fetched,
            _ => fetched,
        };
        *self = Status::Loading(InfoKind::FetchingTrades(next));
        if last_batch && has_chart {
            *self = Status::Ready;
        }
    }
}

/// Which trades of a fetched batch are kept, and whether the batch completes the
/// fetch. `times` are the trade times in order and `until_time` is where the fetch
/// stops: while the batch ends before it, all trades are kept and more follow;
/// otherwise only the trades at or before it are kept and the fetch is done.
pub open spec fn kept_positions(times: Seq<u64>, until_time: u64) -> (Seq<int>, bool) {
    let last = if times.len() == 0 {
        0
    } else {
        times.last()
    };
    if last < until_time {
        (Seq::new(times.len(), |i: int| i), false)
    } else {
        (Seq::new(times.len(), |i: int| i).filter(|i: int| times[i] <= until_time), true)
    }
}

/// The positions of the trades of a fetched batch that are kept, and whether the
/// batch completes the fetch, as `kept_positions` describes.
pub fn cut_trade_batch(times: &Vec<u64>, until_time: u64) -> (r: (Vec<usize>, bool))
    ensures
        as_ints(r.0@) == kept_positions(times@, until_time).0,
        r.1 == kept_positions(times@, until_time).1,
{
    let n = times.len();
    let last: u64 = if n == 0 {
        0
    } else {
        times[n - 1]
    };
    let done = last >= until_time;
    let ghost all = Seq::new(n as nat, |i: int| i);
    let ghost keep = |i: int| times@[i] <= until_time;
    let mut out: Vec<usize> = Vec::new();
    for i in 0..n
        invariant
            n == times@.len(),
            all == Seq::new(n as nat, |i: int| i),
            keep == (|i: int| times@[i] <= until_time),
            !done ==> as_ints(out@) == all.take(i as int),
            done ==> as_ints(out@) == all.take(i as int).filter(keep),
    {
        proof {
            reveal(Seq::filter);
            assert(all.take(i + 1).drop_last() == all.take(i as int));
            assert(all.take(i + 1) == all.take(i as int).push(i as int));
        }
        if !done || times[i] <= until_time {
            let ghost prev = out@;
            out.push(i);
            proof {
                assert(as_ints(out@) =~= as_ints(prev).push(i as int));
            }
        }
    }
    proof {
        assert(all.take(n as int) == all);
    }
    (out, done)
}

/// The positions as integers.
pub open spec fn as_ints(s: Seq<usize>) -> Seq<int> {
    s.map_values(|k: usize| k as int)
}

/// Adds a notification to a pane, keeping the newest `NOTIFICATION_CAP`.
pub fn push_notification<T>(notifications: &mut Vec<T>, toast: T)
    ensures
        final(notifications)@ == keep_last(old(notifications)@.push(toast), NOTIFICATION_CAP as nat),
{
    push_capped(notifications, toast, NOTIFICATION_CAP);
}

/// Removes the notification at `index`; an index past the end changes nothing.
pub fn delete_notification<T>(notifications: &mut Vec<T>, index: usize)
    ensures
        index < old(notifications)@.len() ==> final(notifications)@ == old(notifications)@.remove(
            index as int,
        ),
        index >= old(notifications)@.len() ==> final(notifications)@ == old(notifications)@,
{
    if index < notifications.len() {
        notifications.remove(index);
    }
}

/// The centered modals whose size a pane remembers.
#[derive(Debug, Clone, Copy, PartialEq, Eq, Structural)]
pub enum CenteredModalKind {
    Rules,
    Indicators,
    RuleLog,
}

/// A color section of the indicator settings that can be expanded.
#[derive(Debug, Clone, Copy, PartialEq, Eq, Structural)]
pub enum SettingsColorsSection {
    Rsi,
    Macd,
    Atr,
    StochRsi,
    DmiAdx,
}

/// The category filter of the indicator browser.
#[derive(Debug, Clone, Copy, PartialEq, Eq, Structural)]
pub enum IndicatorsSidebar {
    Enabled,
    Volume,
    Derivatives,
    Oscillators,
    Trend,
    Volatility,
    Overlays,
    All,
}

/// Where the indicator browser lists indicators from.
#[derive(Debug, Clone, Copy, PartialEq, Eq, Structural)]
pub enum IndicatorsSource {
    BuiltIn,
    Community,
}

/// The category an indicator is listed under.
#[derive(Debug, Clone, Copy, PartialEq, Eq, Structural)]
pub enum IndicatorCategory {
    Enabled,
    Volume,
    Derivatives,
    Oscillators,
    Trend,
    Volatility,
}

impl IndicatorCategory {
    /// The name of the category in the indicator browser.
    pub fn label(&self) -> (r: &'static str)
        ensures
            r@ == match *self {
                IndicatorCategory::Enabled => "Enabled"@,
                IndicatorCategory::Volume => "Volume"@,
                IndicatorCategory::Derivatives => "Derivatives"@,
                IndicatorCategory::Oscillators => "Oscillators"@,
                IndicatorCategory::Trend => "Trend"@,
                IndicatorCategory::Volatility => "Volatility"@,
            },
    {
        match self {
            IndicatorCategory::Enabled => "Enabled",
            IndicatorCategory::Volume => "Volume",
            IndicatorCategory::Derivatives => "Derivatives",
            IndicatorCategory::Oscillators => "Oscillators",
            IndicatorCategory::Trend => "Trend",
            IndicatorCategory::Volatility => "Volatility",
        }
    }
}

/// The category of a kline indicator.
pub fn kline_indicator_category(ind: KlineIndicator) -> (r: IndicatorCategory)
    ensures
        r == match ind {
            KlineIndicator::Volume => IndicatorCategory::Volume,
            KlineIndicator::OpenInterest => IndicatorCategory::Derivatives,
            KlineIndicator::Rsi | KlineIndicator::StochRsi => IndicatorCategory::Oscillators,
            KlineIndicator::Macd | KlineIndicator::DmiAdx => IndicatorCategory::Trend,
            KlineIndicator::Atr => IndicatorCategory::Volatility,
        },
{
    match ind {
        KlineIndicator::Volume => IndicatorCategory::Volume,
        KlineIndicator::OpenInterest => IndicatorCategory::Derivatives,
        KlineIndicator::Rsi | KlineIndicator::StochRsi => IndicatorCategory::Oscillators,
        KlineIndicator::Macd | KlineIndicator::DmiAdx => IndicatorCategory::Trend,
        KlineIndicator::Atr => IndicatorCategory::Volatility,
    }
}

/// The category of a heatmap indicator: every one is a volume indicator.
pub fn heatmap_indicator_category(ind: HeatmapIndicator) -> (r: IndicatorCategory)
    ensures
        r == IndicatorCategory::Volume,
{
    IndicatorCategory::Volume
}

/// The selections of a pane's indicator browser and settings.
pub struct IndicatorBrowser {
    /// The color sections expanded, each at most once.
    pub colors_expanded: Vec<SettingsColorsSection>,
    pub query: String,
    pub sidebar: IndicatorsSidebar,
    pub source: IndicatorsSource,
}

impl IndicatorBrowser {
    /// The expanded color sections as a set.
    pub open spec fn expanded(self) -> Set<SettingsColorsSection> {
        self.colors_expanded@.to_set()
    }

    /// No section occurs twice among the expanded ones.
    pub open spec fn well_formed(self) -> bool {
        self.colors_expanded@.no_duplicates()
    }

    /// Nothing expanded, no query, all built-in indicators listed.
    pub fn new() -> (r: IndicatorBrowser)
        ensures
            r.well_formed(),
            r.expanded() == Set::<SettingsColorsSection>::empty(),
            r.query@ == Seq::<char>::empty(),
            r.sidebar == IndicatorsSidebar::All,
            r.source == IndicatorsSource::BuiltIn,
    {
        let r = IndicatorBrowser {
            colors_expanded: Vec::new(),
            query: String::new(),
            sidebar: IndicatorsSidebar::All,
            source: IndicatorsSource::BuiltIn,
        };
        proof {
            assert(r.colors_expanded@.to_set() =~= Set::<SettingsColorsSection>::empty());
        }
        r
    }

    /// Expands a collapsed color section, or collapses an expanded one.
    pub fn toggle_colors(&mut self, section: SettingsColorsSection)
        requires
            old(self).well_formed(),
        ensures
            final(self).well_formed(),
            old(self).expanded().contains(section) ==> final(self).expanded() == old(self).expanded().remove(
                section,
            ),
            !old(self).expanded().contains(section) ==> final(self).expanded() == old(
                self,
            ).expanded().insert(section),
            final(self).query == old(self).query,
            final(self).sidebar == old(self).sidebar,
            final(self).source == old(self).source,
    {
        let mut pos: Option<usize> = None;
        for i in 0..self.colors_expanded.len()
            invariant
                pos matches Some(p) ==> p < i && self.colors_expanded@[p as int] == section,
                pos is None ==> forall|j: int| 0 <= j < i ==> self.colors_expanded@[j] != section,
        {
            if pos.is_none() && self.colors_expanded[i] == section {
                pos = Some(i);
            }
        }
        let ghost before = self.colors_expanded@;
        match pos {
            Some(p) => {
                self.colors_expanded.remove(p);
                proof {
                    assert(self.colors_expanded@.to_set() =~= before.to_set().remove(section)) by {
                        assert forall|x: SettingsColorsSection| self.colors_expanded@.contains(x) <==> (
                        before.contains(x) && x != section) by {
                            if before.contains(x) && x != section {
                                let j = choose|j: int| 0 <= j < before.len() && before[j] == x;
                                if j < p {
                                    assert(self.colors_expanded@[j] == x);
                                } else {
                                    assert(self.colors_expanded@[j - 1] == x);
                                }
                            }
                            if self.colors_expanded@.contains(x) {
                                let j = choose|j: int|
                                    0 <= j < self.colors_expanded@.len() && self.colors_expanded@[j] == x;
                                if j < p {
                                    assert(before[j] == x);
                                } else {
                                    assert(before[j + 1] == x);
                                }
                            }
                        }
                    }
                }
            },
            None => {
                self.colors_expanded.push(section);
                proof {
                    assert forall|x: SettingsColorsSection| self.colors_expanded@.contains(x) <==> (
                    before.contains(x) || x == section) by {
                        if before.contains(x) {
                            let j = choose|j: int| 0 <= j < before.len() && before[j] == x;
                            assert(self.colors_expanded@[j] == x);
                        }
                        if x == section {
                            assert(self.colors_expanded@[before.len() as int] == x);
                        }
                        if self.colors_expanded@.contains(x) && x != section {
                            let j = choose|j: int|
                                0 <= j < self.colors_expanded@.len() && self.colors_expanded@[j] == x;
                            assert(before[j] == x);
                        }
                    }
                    assert(self.colors_expanded@.to_set() =~= before.to_set().insert(section));
                }
            },
        }
    }

    /// Sets the search query.
    pub fn set_query(&mut self, query: String)
        ensures
            final(self).query == query,
            final(self).colors_expanded == old(self).colors_expanded,
            final(self).sidebar == old(self).sidebar,
            final(self).source == old(self).source,
    {
        self.query = query;
    }

    /// Selects a category filter.
    pub fn select_sidebar(&mut self, sidebar: IndicatorsSidebar)
        ensures
            final(self).sidebar == sidebar,
            final(self).colors_expanded == old(self).colors_expanded,
            final(self).query == old(self).query,
            final(self).source == old(self).source,
    {
        self.sidebar = sidebar;
    }

    /// Switches the indicator source; the query and category filter reset.
    pub fn select_source(&mut self, source: IndicatorsSource)
        ensures
            final(self).source == source,
            final(self).query@ == Seq::<char>::empty(),
            final(self).sidebar == IndicatorsSidebar::All,
            final(self).colors_expanded == old(self).colors_expanded,
    {
        self.source = source;
        self.query = String::new();
        self.sidebar = IndicatorsSidebar::All;
    }
}

/// The distinct tickers of `s`, each where it first occurs.
pub open spec fn first_occurrences(s: Seq<u64>) -> Seq<u64>
    decreases s.len(),
{
    if s.len() == 0 {
        s
    } else {
        let d = first_occurrences(s.drop_last());
        if d.contains(s.last()) {
            d
        } else {
            d.push(s.last())
        }
    }
}

/// Whether a pane streams from one ticker or several; tickers are given by their
/// identifiers.
#[derive(Debug, Clone, PartialEq, Eq)]
pub enum StreamPairKind {
    SingleSource(u64),
    MultiSource(Vec<u64>),
}

/// The source kind of a pane whose ready streams come from `tickers` (one entry
/// per stream): none without streams, a single source when all streams share one
/// ticker, else the distinct tickers in the order they first occur.
pub fn stream_pair_kind(tickers: &Vec<u64>) -> (r: Option<StreamPairKind>)
    ensures
        first_occurrences(tickers@).len() == 0 ==> r is None,
        first_occurrences(tickers@).len() == 1 ==> r == Some(
            StreamPairKind::SingleSource(first_occurrences(tickers@)[0]),
        ),
        first_occurrences(tickers@).len() > 1 ==> (r matches Some(StreamPairKind::MultiSource(u)) && u@
            == first_occurrences(tickers@)),
{
    let mut unique: Vec<u64> = Vec::new();
    for i in 0..tickers.len()
        invariant
            unique@ == first_occurrences(tickers@.take(i as int)),
    {
        proof {
            assert(tickers@.take(i + 1).drop_last() == tickers@.take(i as int));
        }
        let t = tickers[i];
        let mut seen = false;
        for j in 0..unique.len()
            invariant
                seen == (exists|k: int| 0 <= k < j && unique@[k] == t),
        {
            if unique[j] == t {
                seen = true;
            }
        }
        if !seen {
            unique.push(t);
        }
    }
    proof {
        assert(tickers@.take(tickers@.len() as int) == tickers@);
    }
    if unique.len() == 0 {
        None
    } else if unique.len() == 1 {
        Some(StreamPairKind::SingleSource(unique[0]))
    } else {
        Some(StreamPairKind::MultiSource(unique))
    }
}

/// The tickers of a multi-source pane are distinct, and they are exactly the
/// tickers its streams come from.
pub proof fn law_first_occurrences(s: Seq<u64>)
    ensures
        first_occurrences(s).no_duplicates(),
        forall|t: u64| first_occurrences(s).contains(t) <==> s.contains(t),
    decreases s.len(),
{
    if s.len() > 0 {
        let d = first_occurrences(s.drop_last());
        law_first_occurrences(s.drop_last());
        assert forall|t: u64| first_occurrences(s).contains(t) <==> s.contains(t) by {
            assert(d.contains(t) <==> s.drop_last().contains(t));
            if s.contains(t) {
                let j = choose|j: int| 0 <= j < s.len() && s[j] == t;
                if j < s.len() - 1 {
                    assert(s.drop_last()[j] == t);
                    assert(d.contains(t));
                    if !d.contains(s.last()) {
                        let k = choose|k: int| 0 <= k < d.len() && d[k] == t;
                        assert(d.push(s.last())[k] == t);
                    }
                } else if !d.contains(s.last()) {
                    assert(d.push(s.last())[d.len() as int] == t);
                }
            }
            if first_occurrences(s).contains(t) {
                if d.contains(t) {
                    assert(s.drop_last().contains(t));
                    let j = choose|j: int| 0 <= j < s.drop_last().len() && s.drop_last()[j] == t;
                    assert(s[j] == t);
                } else {
                    if !d.contains(s.last()) {
                        let k = choose|k: int| 0 <= k < d.push(s.last()).len() && d.push(s.last())[k] == t;
                        if k < d.len() {
                            assert(d[k] == t);
                        }
                    }
                    assert(t == s.last());
                    assert(s[s.len() - 1] == t);
                }
            }
        }
    }
}

/// Whether the indicator browser shows the category `cat` under the filter
/// `sidebar`: every category under `All`, its own under a category filter, none
/// under `Enabled` and `Overlays`.
pub open spec fn category_shown_spec(sidebar: IndicatorsSidebar, cat: IndicatorCategory) -> bool {
    match sidebar {
        IndicatorsSidebar::All => true,
        IndicatorsSidebar::Enabled => false,
        IndicatorsSidebar::Volume => cat == IndicatorCategory::Volume,
        IndicatorsSidebar::Derivatives => cat == IndicatorCategory::Derivatives,
        IndicatorsSidebar::Oscillators => cat == IndicatorCategory::Oscillators,
        IndicatorsSidebar::Trend => cat == IndicatorCategory::Trend,
        IndicatorsSidebar::Volatility => cat == IndicatorCategory::Volatility,
        IndicatorsSidebar::Overlays => false,
    }
}

/// Whether the indicator browser shows the category `cat` under `sidebar`.
pub fn category_shown(sidebar: IndicatorsSidebar, cat: IndicatorCategory) -> (r: bool)
    ensures
        r == category_shown_spec(sidebar, cat),
{
    match sidebar {
        IndicatorsSidebar::All => true,
        IndicatorsSidebar::Enabled => false,
        IndicatorsSidebar::Volume => cat == IndicatorCategory::Volume,
        IndicatorsSidebar::Derivatives => cat == IndicatorCategory::Derivatives,
        IndicatorsSidebar::Oscillators => cat == IndicatorCategory::Oscillators,
        IndicatorsSidebar::Trend => cat == IndicatorCategory::Trend,
        IndicatorsSidebar::Volatility => cat == IndicatorCategory::Volatility,
        IndicatorsSidebar::Overlays => false,
    }
}

/// Whether the indicator browser shows the enabled indicators under `sidebar`:
/// under `All` and `Enabled` only.
pub fn shows_enabled(sidebar: IndicatorsSidebar) -> (r: bool)
    ensures
        r == (sidebar == IndicatorsSidebar::All || sidebar == IndicatorsSidebar::Enabled),
{
    matches!(sidebar, IndicatorsSidebar::All | IndicatorsSidebar::Enabled)
}

/// Whether the enabled indicators can be dragged into another order: on a kline
/// pane with at least two of them.
pub fn reorderable(allows_drag: bool, enabled_count: usize) -> (r: bool)
    ensures
        r == (allows_drag && enabled_count >= 2),
{
    allows_drag && enabled_count >= 2
}

/// The category of a kline indicator.
pub open spec fn kline_category_spec(ind: KlineIndicator) -> IndicatorCategory {
    match ind {
        KlineIndicator::Volume => IndicatorCategory::Volume,
        KlineIndicator::OpenInterest => IndicatorCategory::Derivatives,
        KlineIndicator::Rsi | KlineIndicator::StochRsi => IndicatorCategory::Oscillators,
        KlineIndicator::Macd | KlineIndicator::DmiAdx => IndicatorCategory::Trend,
        KlineIndicator::Atr => IndicatorCategory::Volatility,
    }
}

/// The categories indicators are listed under, in listing order.
pub open spec fn category_order() -> Seq<IndicatorCategory> {
    seq![
        IndicatorCategory::Volume,
        IndicatorCategory::Derivatives,
        IndicatorCategory::Oscillators,
        IndicatorCategory::Trend,
        IndicatorCategory::Volatility,
    ]
}

/// The indicators of `s` in category `cat`, in order.
pub open spec fn in_category(s: Seq<KlineIndicator>, cat: IndicatorCategory) -> Seq<KlineIndicator> {
    s.filter(|i: KlineIndicator| kline_category_spec(i) == cat)
}

/// The sections of available indicators the browser lists under `sidebar`: for
/// each category in listing order that the filter shows and that holds some of
/// `available`, the category and its indicators in order.
pub open spec fn sections_spec(available: Seq<KlineIndicator>, sidebar: IndicatorsSidebar) -> Seq<(IndicatorCategory, Seq<KlineIndicator>)> {
    category_order().filter(
        |c: IndicatorCategory| category_shown_spec(sidebar, c) && in_category(available, c).len() > 0,
    ).map_values(|c: IndicatorCategory| (c, in_category(available, c)))
}

fn indicators_in(available: &Vec<KlineIndicator>, cat: IndicatorCategory) -> (r: Vec<KlineIndicator>)
    ensures
        r@ == in_category(available@, cat),
{
    let ghost pred = |i: KlineIndicator| kline_category_spec(i) == cat;
    let mut out: Vec<KlineIndicator> = Vec::new();
    for i in 0..available.len()
        invariant
            pred == (|i: KlineIndicator| kline_category_spec(i) == cat),
            out@ == available@.take(i as int).filter(pred),
    {
        proof {
            reveal(Seq::filter);
            assert(available@.take(i + 1).drop_last() == available@.take(i as int));
        }
        if kline_indicator_category(available[i]) == cat {
            out.push(available[i]);
        }
    }
    proof {
        assert(available@.take(available@.len() as int) == available@);
    }
    out
}

/// A listed section: a category and its indicators.
pub open spec fn section_view(s: (IndicatorCategory, Vec<KlineIndicator>)) -> (IndicatorCategory, Seq<KlineIndicator>) {
    (s.0, s.1@)
}

/// The sections of available indicators the browser lists under `sidebar`, as
/// `sections_spec` describes.
pub fn indicator_sections(available: &Vec<KlineIndicator>, sidebar: IndicatorsSidebar) -> (r: Vec<(IndicatorCategory, Vec<KlineIndicator>)>)
    ensures
        r@.map_values(|s: (IndicatorCategory, Vec<KlineIndicator>)| section_view(s)) == sections_spec(
            available@,
            sidebar,
        ),
{
    let order = [
        IndicatorCategory::Volume,
        IndicatorCategory::Derivatives,
        IndicatorCategory::Oscillators,
        IndicatorCategory::Trend,
        IndicatorCategory::Volatility,
    ];
    let ghost keep = |c: IndicatorCategory| category_shown_spec(sidebar, c) && in_category(available@, c).len() > 0;
    let ghost sect = |c: IndicatorCategory| (c, in_category(available@, c));
    proof {
        assert(order@ == category_order());
    }
    let mut out: Vec<(IndicatorCategory, Vec<KlineIndicator>)> = Vec::new();
    for k in 0..5
        invariant
            order@ == category_order(),
            keep == (|c: IndicatorCategory| category_shown_spec(sidebar, c) && in_category(available@, c).len() > 0),
            sect == (|c: IndicatorCategory| (c, in_category(available@, c))),
            out@.map_values(|s: (IndicatorCategory, Vec<KlineIndicator>)| section_view(s)) == category_order().take(
                k as int,
            ).filter(keep).map_values(sect),
    {
        let cat = order[k];
        let ghost before = out@;
        proof {
            reveal(Seq::filter);
            assert(category_order().take(k + 1).drop_last() == category_order().take(k as int));
        }
        let inds = indicators_in(available, cat);
        if category_shown(sidebar, cat) && inds.len() > 0 {
            out.push((cat, inds));
            proof {
                assert(out@.map_values(|s: (IndicatorCategory, Vec<KlineIndicator>)| section_view(s)) =~= before.map_values(
                    |s: (IndicatorCategory, Vec<KlineIndicator>)| section_view(s),
                ).push(sect(cat)));
                assert(category_order().take(k as int).filter(keep).push(cat).map_values(sect)
                    =~= category_order().take(k as int).filter(keep).map_values(sect).push(sect(cat)));
            }
        }
    }
    proof {
        assert(category_order().take(5) == category_order());
    }
    out
}

/// Names what `str::to_lowercase` returns for a string.
pub uninterp spec fn lowercase(s: Seq<char>) -> Seq<char>;

/// Calls `str::to_lowercase`. Lowercase mapping follows Unicode's tables, which no
/// short statement covers; the result is named `lowercase` of the argument.
#[verifier::external_body]
fn to_lowercase(s: &str) -> (r: String)
    ensures
        r@ == lowercase(s@),
{
    s.to_lowercase()
}

/// `t` occurs in `s` as a run of consecutive characters.
pub open spec fn occurs_in(t: Seq<char>, s: Seq<char>) -> bool {
    exists|i: int| 0 <= i && i + t.len() <= s.len() && #[trigger] s.subrange(i, i + t.len()) == t
}

/// Whether `t` occurs in `s`.
fn occurs(t: &str, s: &str) -> (r: bool)
    ensures
        r == occurs_in(t@, s@),
{
    let n = s.unicode_len();
    let m = t.unicode_len();
    if m > n {
        proof {
            assert forall|i: int| 0 <= i && i + t@.len() <= s@.len() implies #[trigger] s@.subrange(i, i + t@.len()) != t@ by {}
        }
        return false;
    }
    let last = n - m;
    let mut i: usize = 0;
    loop
        invariant
            n == s@.len(),
            m == t@.len(),
            m <= n,
            last == n - m,
            i <= last,
            forall|k: int| 0 <= k < i ==> #[trigger] s@.subrange(k, k + m) != t@,
        ensures
            forall|k: int| 0 <= k <= last ==> #[trigger] s@.subrange(k, k + m) != t@,
        decreases last - i,
    {
        let mut j: usize = 0;
        let mut same = true;
        while j < m
            invariant
                n == s@.len(),
                m == t@.len(),
                i + m <= n,
                j <= m,
                same ==> forall|q: int| 0 <= q < j ==> s@[i + q] == t@[q],
                !same ==> s@.subrange(i as int, i + m) != t@,
            decreases m - j,
        {
            if s.get_char(i + j) != t.get_char(j) {
                if same {
                    assert(s@.subrange(i as int, i + m)[j as int] != t@[j as int]);
                }
                same = false;
            }
            j = j + 1;
        }
        if same {
            assert(s@.subrange(i as int, i + m) =~= t@);
            return true;
        }
        if i == last {
            break;
        }
        i = i + 1;
    }
    proof {
        assert forall|k: int| 0 <= k && k + t@.len() <= s@.len() implies #[trigger] s@.subrange(k, k + t@.len()) != t@ by {
            assert(k <= last);
        }
    }
    false
}

/// The search key of the browser's search text: trimmed and lower-cased.
pub open spec fn query_key(query: Seq<char>) -> Seq<char> {
    lowercase(crate::adapter::trimmed(query))
}

/// An indicator named `name` matches the search key `key` when the key is empty or
/// occurs in the lower-cased name.
pub open spec fn matches_key(name: Seq<char>, key: Seq<char>) -> bool {
    key.len() == 0 || occurs_in(key, lowercase(name))
}

/// The indicators of `inds`, in order, that are not in `exclude` and whose name
/// (`names[i]` for `inds[i]`) matches the search key `key`.
pub open spec fn searched(
    inds: Seq<KlineIndicator>,
    names: Seq<Seq<char>>,
    exclude: Seq<KlineIndicator>,
    key: Seq<char>,
) -> Seq<KlineIndicator>
    decreases inds.len(),
{
    if inds.len() == 0 {
        Seq::empty()
    } else {
        let rest = searched(inds.drop_last(), names, exclude, key);
        let i = inds.len() - 1;
        if !exclude.contains(inds[i]) && matches_key(names[i], key) {
            rest.push(inds[i])
        } else {
            rest
        }
    }
}

/// The indicators the browser lists for the search text `query`: those of `inds`,
/// in order, that are not in `exclude` and whose name matches the trimmed,
/// lower-cased query, ignoring case. `names[i]` is the name of `inds[i]`. The
/// available list is the market's indicators with the enabled ones excluded; the
/// enabled list is filtered the same way with nothing excluded.
pub fn search_indicators(
    inds: &Vec<KlineIndicator>,
    names: &Vec<String>,
    exclude: &Vec<KlineIndicator>,
    query: &str,
) -> (r: Vec<KlineIndicator>)
    requires
        names@.len() == inds@.len(),
    ensures
        r@ == searched(inds@, names@.map_values(|s: String| s@), exclude@, query_key(query@)),
{
    let key = to_lowercase(crate::adapter::trim(query));
    let ghost nv = names@.map_values(|s: String| s@);
    let mut out: Vec<KlineIndicator> = Vec::new();
    let n = inds.len();
    for i in 0..n
        invariant
            n == inds@.len(),
            n == names@.len(),
            nv == names@.map_values(|s: String| s@),
            key@ == query_key(query@),
            out@ == searched(inds@.take(i as int), nv, exclude@, key@),
    {
        proof {
            assert(inds@.take(i + 1).drop_last() == inds@.take(i as int));
            assert(inds@.take(i + 1)[i as int] == inds@[i as int]);
            assert(nv[i as int] == names@[i as int]@);
        }
        let ind = inds[i];
        let mut excluded = false;
        for k in 0..exclude.len()
            invariant
                excluded == exists|q: int| 0 <= q < k && exclude@[q] == ind,
        {
            if exclude[k] == ind {
                excluded = true;
            }
        }
        proof {
            assert(excluded == exclude@.contains(ind));
        }
        if !excluded {
            let matched = if key.unicode_len() == 0 {
                true
            } else {
                let lowered = to_lowercase(names[i].as_str());
                occurs(key.as_str(), lowered.as_str())
            };
            if matched {
                out.push(ind);
            }
        }
    }
    proof {
        assert(inds@.take(n as int) == inds@);
    }
    out
}

} // verus!

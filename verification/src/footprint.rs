//! The trades of one candle grouped into price bins, as a footprint chart shows
//! them: per bin, the first and last trade time and the number of buys and sells,
//! and the candle's point of control.
//!
//! Prices are integer multiples of the market's smallest price unit. The traded
//! quantities of a bin are `f32` sums, which the application keeps beside these
//! bins under the same keys; the point of control is chosen there from them.

use vstd::prelude::*;

use rustc_hash::FxHashMap;

use crate::kline::NPoc;

verus! {

#[verifier::external_type_specification]
#[verifier::external_body]
pub struct ExFxBuildHasher(rustc_hash::FxBuildHasher);

/// The trades of one price bin: when the first and the last of them happened, and
/// how many were buys and sells.
#[derive(Debug, Clone, Copy, PartialEq, Eq, Structural)]
pub struct GroupedTrades {
    pub first_time: u64,
    pub last_time: u64,
    pub buy_count: usize,
    pub sell_count: usize,
}

impl GroupedTrades {
    /// The bin of a single trade at `time`.
    pub fn new(is_sell: bool, time: u64) -> (r: GroupedTrades)
        ensures
            r == (GroupedTrades {
                first_time: time,
                last_time: time,
                buy_count: if is_sell { 0 } else { 1 },
                sell_count: if is_sell { 1 } else { 0 },
            }),
    {
        GroupedTrades {
            first_time: time,
            last_time: time,
            buy_count: if is_sell { 0 } else { 1 },
            sell_count: if is_sell { 1 } else { 0 },
        }
    }

    /// Counts one more trade at `time` on its side; the bin's last trade time
    /// becomes `time`.
    pub fn add_trade(&mut self, is_sell: bool, time: u64)
        requires
            is_sell ==> old(self).sell_count < usize::MAX,
            !is_sell ==> old(self).buy_count < usize::MAX,
        ensures
            *final(self) == added(*old(self), is_sell, time),
    {
        if is_sell {
            self.sell_count = self.sell_count + 1;
        } else {
            self.buy_count = self.buy_count + 1;
        }
        self.last_time = time;
    }
}

/// Bin `g` after one more trade at `time`.
pub open spec fn added(g: GroupedTrades, is_sell: bool, time: u64) -> GroupedTrades {
    GroupedTrades {
        first_time: g.first_time,
        last_time: time,
        buy_count: if is_sell { g.buy_count } else { (g.buy_count + 1) as usize },
        sell_count: if is_sell { (g.sell_count + 1) as usize } else { g.sell_count },
    }
}

/// The point of control of a candle: the bin price with the most traded quantity,
/// that quantity (an `f32` bit pattern) and whether later prices reached it.
#[derive(Debug, Clone, Copy, PartialEq, Eq, Structural)]
pub struct PointOfControl {
    pub price: i64,
    pub volume_bits: u32,
    pub status: NPoc,
}

/// Names the bins that the map `m` holds, by bin price.
pub uninterp spec fn trade_bins(m: FxHashMap<i64, GroupedTrades>) -> Map<i64, GroupedTrades>;

/// No bin at all.
pub open spec fn no_bins() -> Map<i64, GroupedTrades> {
    Map::empty()
}

/// Calls `FxHashMap::default`, a `HashMap` with the `FxBuildHasher`: it holds no
/// bin.
#[verifier::external_body]
fn empty_bins() -> (r: FxHashMap<i64, GroupedTrades>)
    ensures
        trade_bins(r) == no_bins(),
{
    FxHashMap::default()
}

/// Calls `HashMap::get` on the bins and copies the bin out: the bin at `price`, if
/// there is one.
#[verifier::external_body]
fn bin_at(m: &FxHashMap<i64, GroupedTrades>, price: i64) -> (r: Option<GroupedTrades>)
    ensures
        r == (if trade_bins(*m).contains_key(price) {
            Some(trade_bins(*m)[price])
        } else {
            None
        }),
{
    m.get(&price).copied()
}

/// Calls `HashMap::insert` on the bins: the bin at `price` becomes `g`, the others
/// stay.
#[verifier::external_body]
fn put_bin(m: &mut FxHashMap<i64, GroupedTrades>, price: i64, g: GroupedTrades)
    ensures
        trade_bins(*final(m)) == trade_bins(*old(m)).insert(price, g),
{
    m.insert(price, g);
}

/// Calls `HashMap::clear` on the bins: none is left.
#[verifier::external_body]
fn clear_bins(m: &mut FxHashMap<i64, GroupedTrades>)
    ensures
        trade_bins(*final(m)) == no_bins(),
{
    m.clear();
}

/// Calls `HashMap::values` on the bins and copies them into a list, in the map's
/// own order: every listed bin is one of the map's, and every bin of the map is
/// listed.
#[verifier::external_body]
fn bin_list(m: &FxHashMap<i64, GroupedTrades>) -> (r: Vec<GroupedTrades>)
    ensures
        forall|i: int|
            0 <= i < r@.len() ==> exists|k: i64| #[trigger] trade_bins(*m).contains_key(k) && trade_bins(*m)[k]
                == #[trigger] r@[i],
        forall|k: i64|
            #[trigger] trade_bins(*m).contains_key(k) ==> exists|i: int| 0 <= i < r@.len() && r@[i]
                == trade_bins(*m)[k],
{
    m.values().copied().collect()
}

/// The nearest multiple of `step` to `price`; exactly half a step rounds up.
pub open spec fn nearest_step(price: int, step: int) -> int {
    ((2 * price + step) / (2 * step)) * step
}

/// The multiple of `step` at or below `price` for a sell, at or above it for a buy.
pub open spec fn side_step(price: int, step: int, is_sell: bool) -> int {
    if is_sell {
        (price / step) * step
    } else {
        -((-price) / step) * step
    }
}

/// The earliest first trade time among the bins `m`; none without bins.
pub open spec fn is_earliest(m: Map<i64, GroupedTrades>, r: Option<u64>) -> bool {
    match r {
        None => m.dom() =~= Set::<i64>::empty(),
        Some(t) => (exists|k: i64| #[trigger] m.contains_key(k) && m[k].first_time == t) && forall|k: i64|
            #[trigger] m.contains_key(k) ==> t <= m[k].first_time,
    }
}

/// The latest last trade time among the bins `m`; none without bins.
pub open spec fn is_latest(m: Map<i64, GroupedTrades>, r: Option<u64>) -> bool {
    match r {
        None => m.dom() =~= Set::<i64>::empty(),
        Some(t) => (exists|k: i64| #[trigger] m.contains_key(k) && m[k].last_time == t) && forall|k: i64|
            #[trigger] m.contains_key(k) ==> m[k].last_time <= t,
    }
}

/// The bins `m` after a trade at `time` landed in the bin at `price`: a new bin
/// when there was none, otherwise that bin with the trade counted.
pub open spec fn with_trade(m: Map<i64, GroupedTrades>, price: i64, is_sell: bool, time: u64) -> Map<i64, GroupedTrades> {
    if m.contains_key(price) {
        m.insert(price, added(m[price], is_sell, time))
    } else {
        m.insert(
            price,
            GroupedTrades {
                first_time: time,
                last_time: time,
                buy_count: if is_sell { 0 } else { 1 },
                sell_count: if is_sell { 1 } else { 0 },
            },
        )
    }
}

/// A trade at `time` can be counted in the bin at `price` without a count
/// overflowing.
pub open spec fn countable(m: Map<i64, GroupedTrades>, price: i64, is_sell: bool) -> bool {
    m.contains_key(price) ==> (if is_sell {
        m[price].sell_count < usize::MAX
    } else {
        m[price].buy_count < usize::MAX
    })
}

proof fn lemma_floor_div(a: int, b: int)
    requires
        b > 0,
    ensures
        a >= 0 ==> 0 <= a / b <= a,
        a < 0 ==> a <= a / b < 0,
        (a / b) * b <= a < (a / b) * b + b,
{
    vstd::arithmetic::div_mod::lemma_fundamental_div_mod(a, b);
    assert((a / b) * b == b * (a / b)) by (nonlinear_arith);
    assert(a >= 0 ==> 0 <= a / b <= a) by (nonlinear_arith)
        requires
            b > 0,
            a == b * (a / b) + a % b,
            0 <= a % b < b,
    ;
    assert(a < 0 ==> a <= a / b < 0) by (nonlinear_arith)
        requires
            b > 0,
            a == b * (a / b) + a % b,
            0 <= a % b < b,
    ;
}

/// The bin price of a trade at `price` by side: the multiple of the price step
/// `step` at or below the price for a sell, at or above it for a buy.
pub fn side_bin(price: i64, is_sell: bool, step: i64) -> (r: i64)
    requires
        step > 0,
        i64::MIN <= side_step(price as int, step as int, is_sell) <= i64::MAX,
    ensures
        r == side_step(price as int, step as int, is_sell),
{
    let p = price as i128;
    let s = step as i128;
    proof {
        lemma_floor_div(p as int, s as int);
        lemma_floor_div(-p, s as int);
        let qq = (-(p as int)) / (s as int);
        assert((-qq) * (s as int) == -(qq * (s as int))) by (nonlinear_arith);
    }
    let bin = if is_sell {
        let q = p.checked_div_euclid(s).unwrap();
        q * s
    } else {
        let q = (-p).checked_div_euclid(s).unwrap();
        -(q * s)
    };
    bin as i64
}

/// The bin price of a trade at `price` whatever its side: the nearest multiple of
/// the price step `step`, exactly half a step rounding up.
pub fn nearest_bin(price: i64, step: i64) -> (r: i64)
    requires
        step > 0,
        i64::MIN <= nearest_step(price as int, step as int) <= i64::MAX,
    ensures
        r == nearest_step(price as int, step as int),
{
    let p = price as i128;
    let s = step as i128;
    proof {
        lemma_floor_div(2 * p + s, 2 * s);
    }
    let q = (2 * p + s).checked_div_euclid(2 * s).unwrap();
    let bin = q * s;
    bin as i64
}

/// A trade goes to the nearest multiple of the price step: the bin is a multiple of
/// `step`, less than half a step below the price or at most half a step above it,
/// so that a price exactly half way between two multiples goes to the higher one.
pub proof fn law_nearest_bin(price: int, step: int)
    requires
        step > 0,
    ensures
        nearest_step(price, step) % step == 0,
        2 * (price - nearest_step(price, step)) < step,
        2 * (nearest_step(price, step) - price) <= step,
{
    let q = (2 * price + step) / (2 * step);
    lemma_floor_div(2 * price + step, 2 * step);
    vstd::arithmetic::div_mod::lemma_mod_multiples_basic(q, step);
    assert(q * step == step * q) by (nonlinear_arith);
    assert(q * (2 * step) == 2 * (q * step)) by (nonlinear_arith);
}

/// A sell goes to the multiple of the price step at or below its price, a buy to
/// the one at or above it: the bin is a multiple of `step` within one step.
pub proof fn law_side_bin(price: int, step: int)
    requires
        step > 0,
    ensures
        side_step(price, step, true) % step == 0,
        side_step(price, step, true) <= price < side_step(price, step, true) + step,
        side_step(price, step, false) % step == 0,
        side_step(price, step, false) - step < price <= side_step(price, step, false),
{
    let q1 = price / step;
    let q2 = (-price) / step;
    lemma_floor_div(price, step);
    lemma_floor_div(-price, step);
    vstd::arithmetic::div_mod::lemma_mod_multiples_basic(q1, step);
    vstd::arithmetic::div_mod::lemma_mod_multiples_basic(-q2, step);
    assert(q1 * step == step * q1) by (nonlinear_arith);
    assert((-q2) * step == step * (-q2)) by (nonlinear_arith);
    assert((-q2) * step == -(q2 * step)) by (nonlinear_arith);
}

/// The trades of one candle by price bin, and its point of control.
pub struct KlineTrades {
    pub trades: FxHashMap<i64, GroupedTrades>,
    pub poc: Option<PointOfControl>,
}

impl KlineTrades {
    /// The bins by price.
    pub open spec fn bins(&self) -> Map<i64, GroupedTrades> {
        trade_bins(self.trades)
    }

    /// No trade and no point of control.
    pub fn new() -> (r: KlineTrades)
        ensures
            r.bins() == Map::<i64, GroupedTrades>::empty(),
            r.poc is None,
    {
        KlineTrades { trades: empty_bins(), poc: None }
    }

    /// The time of the earliest trade; none without trades.
    pub fn first_trade_t(&self) -> (r: Option<u64>)
        ensures
            is_earliest(self.bins(), r),
    {
        let list = bin_list(&self.trades);
        let mut best: Option<u64> = None;
        let mut at: usize = 0;
        for i in 0..list.len()
            invariant
                best is None <==> i == 0,
                best matches Some(t) ==> at < i && list@[at as int].first_time == t && forall|j: int|
                    0 <= j < i ==> t <= #[trigger] list@[j].first_time,
        {
            let t = list[i].first_time;
            match best {
                Some(b) => {
                    if t < b {
                        best = Some(t);
                        at = i;
                    }
                },
                None => {
                    best = Some(t);
                    at = i;
                },
            }
        }
        proof {
            let m = self.bins();
            match best {
                None => {
                    assert forall|k: i64| !m.contains_key(k) by {
                        if m.contains_key(k) {
                            let i = choose|i: int| 0 <= i < list@.len() && list@[i] == m[k];
                        }
                    }
                    assert(m.dom() =~= Set::<i64>::empty());
                },
                Some(t) => {
                    let k0 = choose|k: i64| #[trigger] m.contains_key(k) && m[k] == list@[at as int];
                    assert(m.contains_key(k0) && m[k0].first_time == t);
                    assert forall|k: i64| #[trigger] m.contains_key(k) implies t <= m[k].first_time by {
                        let i = choose|i: int| 0 <= i < list@.len() && list@[i] == m[k];
                        assert(t <= list@[i].first_time);
                    }
                },
            }
        }
        best
    }

    /// The time of the latest trade; none without trades.
    pub fn last_trade_t(&self) -> (r: Option<u64>)
        ensures
            is_latest(self.bins(), r),
    {
        let list = bin_list(&self.trades);
        let mut best: Option<u64> = None;
        let mut at: usize = 0;
        for i in 0..list.len()
            invariant
                best is None <==> i == 0,
                best matches Some(t) ==> at < i && list@[at as int].last_time == t && forall|j: int|
                    0 <= j < i ==> #[trigger] list@[j].last_time <= t,
        {
            let t = list[i].last_time;
            match best {
                Some(b) => {
                    if t > b {
                        best = Some(t);
                        at = i;
                    }
                },
                None => {
                    best = Some(t);
                    at = i;
                },
            }
        }
        proof {
            let m = self.bins();
            match best {
                None => {
                    assert forall|k: i64| !m.contains_key(k) by {
                        if m.contains_key(k) {
                            let i = choose|i: int| 0 <= i < list@.len() && list@[i] == m[k];
                        }
                    }
                    assert(m.dom() =~= Set::<i64>::empty());
                },
                Some(t) => {
                    let k0 = choose|k: i64| #[trigger] m.contains_key(k) && m[k] == list@[at as int];
                    assert(m.contains_key(k0) && m[k0].last_time == t);
                    assert forall|k: i64| #[trigger] m.contains_key(k) implies m[k].last_time <= t by {
                        let i = choose|i: int| 0 <= i < list@.len() && list@[i] == m[k];
                        assert(list@[i].last_time <= t);
                    }
                },
            }
        }
        best
    }

    fn add_to_bin(&mut self, bin: i64, is_sell: bool, time: u64)
        requires
            countable(old(self).bins(), bin, is_sell),
        ensures
            final(self).bins() == with_trade(old(self).bins(), bin, is_sell, time),
            final(self).poc == old(self).poc,
    {
        match bin_at(&self.trades, bin) {
            Some(g) => {
                let mut g = g;
                g.add_trade(is_sell, time);
                put_bin(&mut self.trades, bin, g);
            },
            None => {
                put_bin(&mut self.trades, bin, GroupedTrades::new(is_sell, time));
            },
        }
    }

    /// Counts a trade at `price` and `time` in the bin at the step multiple chosen
    /// by side: the multiple at or below the price for a sell, at or above it for a
    /// buy. `step` is the price step in price units.
    pub fn add_trade_to_side_bin(&mut self, price: i64, is_sell: bool, time: u64, step: i64)
        requires
            step > 0,
            i64::MIN <= side_step(price as int, step as int, is_sell) <= i64::MAX,
            countable(old(self).bins(), side_step(price as int, step as int, is_sell) as i64, is_sell),
        ensures
            final(self).bins() == with_trade(
                old(self).bins(),
                side_step(price as int, step as int, is_sell) as i64,
                is_sell,
                time,
            ),
            final(self).poc == old(self).poc,
    {
        let bin = side_bin(price, is_sell, step);
        self.add_to_bin(bin, is_sell, time);
    }

    /// Counts a trade at `price` and `time` in the bin at the nearest multiple of
    /// the price step `step`, whatever its side; exactly half a step rounds up.
    pub fn add_trade_to_nearest_bin(&mut self, price: i64, is_sell: bool, time: u64, step: i64)
        requires
            step > 0,
            i64::MIN <= nearest_step(price as int, step as int) <= i64::MAX,
            countable(old(self).bins(), nearest_step(price as int, step as int) as i64, is_sell),
        ensures
            final(self).bins() == with_trade(
                old(self).bins(),
                nearest_step(price as int, step as int) as i64,
                is_sell,
                time,
            ),
            final(self).poc == old(self).poc,
    {
        let bin = nearest_bin(price, step);
        self.add_to_bin(bin, is_sell, time);
    }

    /// Records the point of control the application chose from the bins'
    /// quantities: the bin price `price` with the traded quantity `volume_bits`
    /// (an `f32` bit pattern), not yet revisited. Without trades nothing changes.
    pub fn record_poc(&mut self, price: i64, volume_bits: u32)
        ensures
            final(self).bins() == old(self).bins(),
            final(self).poc == (if old(self).bins().dom() =~= Set::<i64>::empty() {
                old(self).poc
            } else {
                Some(PointOfControl { price, volume_bits, status: NPoc::Absent })
            }),
    {
        let list = bin_list(&self.trades);
        if list.len() == 0 {
            proof {
                let m = self.bins();
                assert forall|k: i64| !m.contains_key(k) by {
                    if m.contains_key(k) {
                        let i = choose|i: int| 0 <= i < list@.len() && list@[i] == m[k];
                    }
                }
                assert(m.dom() =~= Set::<i64>::empty());
            }
            return;
        }
        proof {
            let m = self.bins();
            let k = choose|k: i64| #[trigger] m.contains_key(k) && m[k] == list@[0];
            assert(m.dom().contains(k));
        }
        self.poc = Some(PointOfControl { price, volume_bits, status: NPoc::Absent });
    }

    /// Sets whether later prices reached the point of control; nothing changes
    /// without one.
    pub fn set_poc_status(&mut self, status: NPoc)
        ensures
            final(self).bins() == old(self).bins(),
            final(self).poc == (match old(self).poc {
                Some(p) => Some(PointOfControl { status, ..p }),
                None => None,
            }),
    {
        if let Some(p) = &mut self.poc {
            p.status = status;
        }
    }

    /// The price of the point of control, if there is one.
    pub fn poc_price(&self) -> (r: Option<i64>)
        ensures
            r == (match self.poc {
                Some(p) => Some(p.price),
                None => None,
            }),
    {
        match self.poc {
            Some(p) => Some(p.price),
            None => None,
        }
    }

    /// Drops every trade and the point of control.
    pub fn clear(&mut self)
        ensures
            final(self).bins() == Map::<i64, GroupedTrades>::empty(),
            final(self).poc is None,
    {
        clear_bins(&mut self.trades);
        self.poc = None;
    }
}

/// The number of buys (`sell` false) or sells (`sell` true) in the bin at `price`;
/// 0 without such a bin.
pub open spec fn side_count(m: Map<i64, GroupedTrades>, price: i64, sell: bool) -> int {
    if !m.contains_key(price) {
        0
    } else if sell {
        m[price].sell_count as int
    } else {
        m[price].buy_count as int
    }
}

/// Counting a trade raises the count of its own side in its bin by exactly one and
/// leaves the other side's count, and every other bin, as they were; the bin's last
/// trade time becomes the trade's, and its first trade time stays (or is the
/// trade's for a new bin).
pub proof fn law_trade_counted_once(m: Map<i64, GroupedTrades>, price: i64, is_sell: bool, time: u64)
    requires
        countable(m, price, is_sell),
    ensures
        with_trade(m, price, is_sell, time).contains_key(price),
        side_count(with_trade(m, price, is_sell, time), price, is_sell) == side_count(m, price, is_sell) + 1,
        side_count(with_trade(m, price, is_sell, time), price, !is_sell) == side_count(m, price, !is_sell),
        with_trade(m, price, is_sell, time)[price].buy_count + with_trade(m, price, is_sell, time)[price].sell_count
            == side_count(m, price, false) + side_count(m, price, true) + 1,
        with_trade(m, price, is_sell, time)[price].last_time == time,
        with_trade(m, price, is_sell, time)[price].first_time == (if m.contains_key(price) {
            m[price].first_time
        } else {
            time
        }),
        forall|k: i64| k != price ==> #[trigger] with_trade(m, price, is_sell, time).contains_key(k)
            == m.contains_key(k) && (m.contains_key(k) ==> with_trade(m, price, is_sell, time)[k] == m[k]),
{
}

} // verus!

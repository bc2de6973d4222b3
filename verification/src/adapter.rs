//! The forex feed adapters (OANDA and Twelve Data): which timeframes they serve,
//! how requests are planned, how a streamed body is cut into lines and how finer
//! candles are grouped into coarser ones.

use vstd::prelude::*;
use vstd::string::StrSliceExecFns;
use vstd::string::StringExecFns;
use vstd::utf8::{decode_utf8, encode_utf8, is_char_boundary};

verus! {

/// A candle interval.
#[derive(Debug, Clone, Copy, PartialEq, Eq, Structural)]
pub enum Timeframe {
    MS100,
    MS200,
    MS500,
    MS1000,
    M1,
    M3,
    M5,
    M15,
    M30,
    H1,
    H2,
    H4,
    H12,
    D1,
}

/// The length of a timeframe in milliseconds.
pub open spec fn timeframe_ms(tf: Timeframe) -> u64 {
    match tf {
        Timeframe::MS100 => 100,
        Timeframe::MS200 => 200,
        Timeframe::MS500 => 500,
        Timeframe::MS1000 => 1_000,
        Timeframe::M1 => 60_000,
        Timeframe::M3 => 180_000,
        Timeframe::M5 => 300_000,
        Timeframe::M15 => 900_000,
        Timeframe::M30 => 1_800_000,
        Timeframe::H1 => 3_600_000,
        Timeframe::H2 => 7_200_000,
        Timeframe::H4 => 14_400_000,
        Timeframe::H12 => 43_200_000,
        Timeframe::D1 => 86_400_000,
    }
}

impl Timeframe {
    /// The length of the timeframe in milliseconds.
    pub fn to_milliseconds(&self) -> (r: u64)
        ensures
            r == timeframe_ms(*self),
            r > 0,
    {
        match self {
            Timeframe::MS100 => 100,
            Timeframe::MS200 => 200,
            Timeframe::MS500 => 500,
            Timeframe::MS1000 => 1_000,
            Timeframe::M1 => 60_000,
            Timeframe::M3 => 180_000,
            Timeframe::M5 => 300_000,
            Timeframe::M15 => 900_000,
            Timeframe::M30 => 1_800_000,
            Timeframe::H1 => 3_600_000,
            Timeframe::H2 => 7_200_000,
            Timeframe::H4 => 14_400_000,
            Timeframe::H12 => 43_200_000,
            Timeframe::D1 => 86_400_000,
        }
    }
}

/// An error of a feed adapter.
#[derive(Debug, Clone)]
pub enum AdapterError {
    InvalidRequest(String),
    ParseError(String),
}

/// `e` is an invalid-request error with message `msg`.
pub open spec fn is_invalid_request(e: AdapterError, msg: Seq<char>) -> bool {
    match e {
        AdapterError::InvalidRequest(m) => m@ == msg,
        _ => false,
    }
}

/// The timeframes the forex adapters stream: one minute to one day.
pub open spec fn is_supported_spec(tf: Timeframe) -> bool {
    match tf {
        Timeframe::M1 | Timeframe::M3 | Timeframe::M5 | Timeframe::M15 | Timeframe::M30
        | Timeframe::H1 | Timeframe::H2 | Timeframe::H4 | Timeframe::H12 | Timeframe::D1 => true,
        _ => false,
    }
}

/// Whether the forex adapters stream candles of this timeframe.
pub fn is_supported_timeframe(tf: Timeframe) -> (r: bool)
    ensures
        r == is_supported_spec(tf),
{
    matches!(
        tf,
        Timeframe::M1 | Timeframe::M3 | Timeframe::M5 | Timeframe::M15 | Timeframe::M30
            | Timeframe::H1 | Timeframe::H2 | Timeframe::H4 | Timeframe::H12 | Timeframe::D1
    )
}

/// The OANDA granularity of a timeframe the API serves directly.
pub open spec fn oanda_granularity_spec(tf: Timeframe) -> Option<Seq<char>> {
    match tf {
        Timeframe::M1 => Some("M1"@),
        Timeframe::M5 => Some("M5"@),
        Timeframe::M15 => Some("M15"@),
        Timeframe::M30 => Some("M30"@),
        Timeframe::H1 => Some("H1"@),
        Timeframe::H2 => Some("H2"@),
        Timeframe::H4 => Some("H4"@),
        Timeframe::H12 => Some("H12"@),
        Timeframe::D1 => Some("D"@),
        _ => None,
    }
}

/// The OANDA candle granularity of a timeframe; an invalid-request error for the
/// timeframes OANDA does not serve directly.
pub fn timeframe_to_granularity(tf: Timeframe) -> (r: Result<&'static str, AdapterError>)
    ensures
        match r {
            Ok(g) => oanda_granularity_spec(tf) == Some(g@),
            Err(e) => oanda_granularity_spec(tf) is None && is_invalid_request(
                e,
                "Unsupported OANDA timeframe"@,
            ),
        },
{
    match tf {
        Timeframe::M1 => Ok("M1"),
        Timeframe::M5 => Ok("M5"),
        Timeframe::M15 => Ok("M15"),
        Timeframe::M30 => Ok("M30"),
        Timeframe::H1 => Ok("H1"),
        Timeframe::H2 => Ok("H2"),
        Timeframe::H4 => Ok("H4"),
        Timeframe::H12 => Ok("H12"),
        Timeframe::D1 => Ok("D"),
        _ => Err(AdapterError::InvalidRequest(String::from_str("Unsupported OANDA timeframe"))),
    }
}

/// The Twelve Data interval of a timeframe the API serves directly.
pub open spec fn twelvedata_interval_spec(tf: Timeframe) -> Option<Seq<char>> {
    match tf {
        Timeframe::M1 => Some("1min"@),
        Timeframe::M5 => Some("5min"@),
        Timeframe::M15 => Some("15min"@),
        Timeframe::M30 => Some("30min"@),
        Timeframe::H1 => Some("1h"@),
        Timeframe::H2 => Some("2h"@),
        Timeframe::H4 => Some("4h"@),
        Timeframe::H12 => Some("12h"@),
        Timeframe::D1 => Some("1day"@),
        _ => None,
    }
}

/// The Twelve Data interval of a timeframe; an invalid-request error for the
/// timeframes Twelve Data does not serve directly.
pub fn timeframe_to_interval(tf: Timeframe) -> (r: Result<&'static str, AdapterError>)
    ensures
        match r {
            Ok(g) => twelvedata_interval_spec(tf) == Some(g@),
            Err(e) => twelvedata_interval_spec(tf) is None && is_invalid_request(
                e,
                "Unsupported Twelve Data timeframe"@,
            ),
        },
{
    match tf {
        Timeframe::M1 => Ok("1min"),
        Timeframe::M5 => Ok("5min"),
        Timeframe::M15 => Ok("15min"),
        Timeframe::M30 => Ok("30min"),
        Timeframe::H1 => Ok("1h"),
        Timeframe::H2 => Ok("2h"),
        Timeframe::H4 => Ok("4h"),
        Timeframe::H12 => Ok("12h"),
        Timeframe::D1 => Ok("1day"),
        _ => Err(
            AdapterError::InvalidRequest(String::from_str("Unsupported Twelve Data timeframe")),
        ),
    }
}

/// What to request for candles of a timeframe: the provider's granularity, and
/// the interval to group the returned candles into when the provider serves the
/// timeframe only through a finer one (three minutes, built from one-minute
/// candles).
pub struct CandleRequestPlan {
    pub granularity: &'static str,
    pub aggregate_ms: Option<u64>,
}

/// The OANDA request plan for a timeframe.
pub fn oanda_request_plan(tf: Timeframe) -> (r: Result<CandleRequestPlan, AdapterError>)
    ensures
        tf == Timeframe::M3 ==> (r matches Ok(p) && p.granularity@ == "M1"@ && p.aggregate_ms
            == Some(180_000u64)),
        tf != Timeframe::M3 ==> match r {
            Ok(p) => oanda_granularity_spec(tf) == Some(p.granularity@) && p.aggregate_ms is None,
            Err(e) => oanda_granularity_spec(tf) is None && is_invalid_request(
                e,
                "Unsupported OANDA timeframe"@,
            ),
        },
{
    match tf {
        Timeframe::M3 => Ok(
            CandleRequestPlan { granularity: "M1", aggregate_ms: Some(Timeframe::M3.to_milliseconds()) },
        ),
        _ => match timeframe_to_granularity(tf) {
            Ok(g) => Ok(CandleRequestPlan { granularity: g, aggregate_ms: None }),
            Err(e) => Err(e),
        },
    }
}

/// The Twelve Data request plan for a timeframe.
pub fn twelvedata_request_plan(tf: Timeframe) -> (r: Result<CandleRequestPlan, AdapterError>)
    ensures
        tf == Timeframe::M3 ==> (r matches Ok(p) && p.granularity@ == "1min"@ && p.aggregate_ms
            == Some(180_000u64)),
        tf != Timeframe::M3 ==> match r {
            Ok(p) => twelvedata_interval_spec(tf) == Some(p.granularity@) && p.aggregate_ms is None,
            Err(e) => twelvedata_interval_spec(tf) is None && is_invalid_request(
                e,
                "Unsupported Twelve Data timeframe"@,
            ),
        },
{
    match tf {
        Timeframe::M3 => Ok(
            CandleRequestPlan {
                granularity: "1min",
                aggregate_ms: Some(Timeframe::M3.to_milliseconds()),
            },
        ),
        _ => match timeframe_to_interval(tf) {
            Ok(g) => Ok(CandleRequestPlan { granularity: g, aggregate_ms: None }),
            Err(e) => Err(e),
        },
    }
}

/// The start of the interval of length `interval_ms` that holds time `t`.
pub open spec fn bucket_of(t: u64, interval_ms: u64) -> u64 {
    ((t / interval_ms) * interval_ms) as u64
}

/// The start of the interval of length `interval_ms` that holds time `t`.
pub fn bucket_start(t: u64, interval_ms: u64) -> (r: u64)
    requires
        interval_ms > 0,
    ensures
        r == bucket_of(t, interval_ms),
        r <= t,
        t - r < interval_ms,
{
    let q = t / interval_ms;
    proof {
        vstd::arithmetic::div_mod::lemma_fundamental_div_mod(t as int, interval_ms as int);
        vstd::arithmetic::mul::lemma_mul_is_commutative(q as int, interval_ms as int);
    }
    assert(q * interval_ms <= t) by (nonlinear_arith)
        requires
            q == t / interval_ms,
            interval_ms > 0,
    ;
    q * interval_ms
}

/// A run of consecutive candles that fall into one coarser interval: positions
/// `first` (inclusive) to `end` (exclusive), starting at time `start`.
#[derive(Debug, Clone, Copy, PartialEq, Eq, Structural)]
pub struct CandleGroup {
    pub start: u64,
    pub first: usize,
    pub end: usize,
}

/// `groups` cuts the candles with times `times` into maximal runs of consecutive
/// candles with the same interval start: the runs cover every position in order,
/// each run's candles all start their interval at the run's start, and neighbouring
/// runs have different starts.
pub open spec fn is_run_partition(times: Seq<u64>, interval_ms: u64, groups: Seq<CandleGroup>) -> bool {
    &&& (times.len() == 0) == (groups.len() == 0)
    &&& groups.len() > 0 ==> groups[0].first == 0 && groups.last().end == times.len()
    &&& forall|k: int|
        0 <= k < groups.len() ==> #[trigger] groups[k].first < groups[k].end && groups[k].end
            <= times.len()
    &&& forall|k: int| 1 <= k < groups.len() ==> #[trigger] groups[k].first == groups[k - 1].end
    &&& forall|k: int, j: int|
        0 <= k < groups.len() && groups[k].first <= j < groups[k].end ==> bucket_of(
            #[trigger] times[j],
            interval_ms,
        ) == #[trigger] groups[k].start
    &&& forall|k: int| 1 <= k < groups.len() ==> #[trigger] groups[k].start != groups[k - 1].start
}

/// Cuts candles, given by their times, into maximal runs of consecutive candles in
/// the same interval of length `interval_ms`; each run becomes one coarser candle.
pub fn group_into_intervals(times: &Vec<u64>, interval_ms: u64) -> (r: Vec<CandleGroup>)
    requires
        interval_ms > 0,
    ensures
        is_run_partition(times@, interval_ms, r@),
{
    let mut out: Vec<CandleGroup> = Vec::new();
    let n = times.len();
    for i in 0..n
        invariant
            n == times@.len(),
            interval_ms > 0,
            is_run_partition(times@.take(i as int), interval_ms, out@),
    {
        let b = bucket_start(times[i], interval_ms);
        let len = out.len();
        let ghost prev = out@;
        if len > 0 && out[len - 1].start == b {
            let g = out[len - 1];
            out.set(len - 1, CandleGroup { start: g.start, first: g.first, end: i + 1 });
            proof {
                let t1 = times@.take(i + 1);
                assert forall|k: int, j: int|
                    0 <= k < out@.len() && out@[k].first <= j < out@[k].end implies bucket_of(
                    #[trigger] t1[j],
                    interval_ms,
                ) == #[trigger] out@[k].start by {
                    if j < i {
                        assert(t1[j] == times@.take(i as int)[j]);
                    }
                }
                assert forall|k: int| 1 <= k < out@.len() implies #[trigger] out@[k].first
                    == out@[k - 1].end by {
                    assert(out@[k - 1] == prev[k - 1]);
                }
            }
        } else {
            out.push(CandleGroup { start: b, first: i, end: i + 1 });
            proof {
                let t1 = times@.take(i + 1);
                assert forall|k: int, j: int|
                    0 <= k < out@.len() && out@[k].first <= j < out@[k].end implies bucket_of(
                    #[trigger] t1[j],
                    interval_ms,
                ) == #[trigger] out@[k].start by {
                    if j < i {
                        assert(t1[j] == times@.take(i as int)[j]);
                        assert(out@[k] == prev[k]);
                    }
                }
                assert forall|k: int| 1 <= k < out@.len() implies #[trigger] out@[k].first
                    == out@[k - 1].end by {
                    if k < out@.len() - 1 {
                        assert(out@[k] == prev[k]);
                    }
                    assert(out@[k - 1] == prev[k - 1]);
                }
                assert forall|k: int| 1 <= k < out@.len() implies #[trigger] out@[k].start
                    != out@[k - 1].start by {
                    assert(out@[k - 1] == prev[k - 1]);
                    if k < out@.len() - 1 {
                        assert(out@[k] == prev[k]);
                    }
                }
            }
        }
    }
    proof {
        assert(times@.take(n as int) == times@);
    }
    out
}

/// The pieces of `s` between newline bytes, in order; the last piece is what
/// follows the last newline (all of `s` when it has none).
pub open spec fn pieces(s: Seq<u8>) -> Seq<Seq<u8>>
    decreases s.len(),
{
    if s.len() == 0 {
        seq![Seq::<u8>::empty()]
    } else {
        let p = pieces(s.drop_last());
        if s.last() == 10u8 {
            p.push(Seq::<u8>::empty())
        } else {
            p.update(p.len() - 1, p.last().push(s.last()))
        }
    }
}

/// A line without one trailing carriage return.
pub open spec fn strip_cr(l: Seq<u8>) -> Seq<u8> {
    if l.len() > 0 && l.last() == 13u8 {
        l.drop_last()
    } else {
        l
    }
}

/// The lines of complete pieces, carriage returns stripped and empty lines left
/// out.
pub open spec fn frame_lines(ps: Seq<Seq<u8>>) -> Seq<Seq<u8>>
    decreases ps.len(),
{
    if ps.len() == 0 {
        Seq::empty()
    } else {
        let prev = frame_lines(ps.drop_last());
        let l = strip_cr(ps.last());
        if l.len() == 0 {
            prev
        } else {
            prev.push(l)
        }
    }
}

/// The byte sequences of a list of lines.
pub open spec fn line_views(v: Seq<Vec<u8>>) -> Seq<Seq<u8>> {
    v.map_values(|l: Vec<u8>| l@)
}

proof fn lemma_pieces_nonempty(s: Seq<u8>)
    ensures
        pieces(s).len() >= 1,
    decreases s.len(),
{
    if s.len() > 0 {
        lemma_pieces_nonempty(s.drop_last());
    }
}

/// Appends a chunk of a streamed body to the bytes held back so far and cuts off
/// every complete line: the lines come back in order, without their newline and
/// one carriage return before it, empty ones left out; the bytes after the last
/// newline stay held back for the next chunk.
pub fn take_lines(buffer: &mut Vec<u8>, chunk: &[u8]) -> (r: Vec<Vec<u8>>)
    requires
        old(buffer)@.len() + chunk@.len() <= usize::MAX,
    ensures
        final(buffer)@ == pieces(old(buffer)@ + chunk@).last(),
        line_views(r@) == frame_lines(pieces(old(buffer)@ + chunk@).drop_last()),
{
    let ghost data = old(buffer)@ + chunk@;
    let blen = buffer.len();
    let total = blen + chunk.len();
    let mut cur: Vec<u8> = Vec::new();
    let mut out: Vec<Vec<u8>> = Vec::new();
    let ghost mut done: Seq<Seq<u8>> = Seq::empty();
    let mut i: usize = 0;
    while i < total
        invariant
            blen == old(buffer)@.len(),
            buffer@ == old(buffer)@,
            total == data.len(),
            data == old(buffer)@ + chunk@,
            i <= total,
            pieces(data.take(i as int)) == done.push(cur@),
            line_views(out@) == frame_lines(done),
        decreases total - i,
    {
        let b = if i < blen {
            buffer[i]
        } else {
            chunk[i - blen]
        };
        assert(b == data[i as int]);
        assert(data.take(i + 1).drop_last() == data.take(i as int));
        if b == 10u8 {
            let mut line = cur;
            if line.len() > 0 && line[line.len() - 1] == 13u8 {
                line.pop();
            }
            let ghost prev_out = out@;
            proof {
                assert(line@ == strip_cr(done.push(cur@).last()));
                assert(done.push(cur@).drop_last() == done);
            }
            if line.len() > 0 {
                out.push(line);
                proof {
                    assert(line_views(out@) =~= line_views(prev_out).push(line@));
                }
            }
            proof {
                done = done.push(cur@);
            }
            cur = Vec::new();
            proof {
                assert(pieces(data.take(i + 1)) == done.push(cur@));
            }
        } else {
            let ghost old_cur = cur@;
            cur.push(b);
            proof {
                assert(done.push(old_cur).update(done.len() as int, old_cur.push(b)) =~= done.push(cur@));
            }
        }
        i = i + 1;
    }
    proof {
        assert(data.take(total as int) == data);
        assert(pieces(data).drop_last() == done);
    }
    *buffer = cur;
    out
}

/// Whether `c` has the Unicode White_Space property.
pub open spec fn is_white_space(c: char) -> bool {
    let u = c as u32;
    ||| (0x09 <= u && u <= 0x0d)
    ||| u == 0x20
    ||| u == 0x85
    ||| u == 0xa0
    ||| u == 0x1680
    ||| (0x2000 <= u && u <= 0x200a)
    ||| u == 0x2028
    ||| u == 0x2029
    ||| u == 0x202f
    ||| u == 0x205f
    ||| u == 0x3000
}

fn white_space(c: char) -> (r: bool)
    ensures
        r == is_white_space(c),
{
    let u = c as u32;
    (0x09 <= u && u <= 0x0d) || u == 0x20 || u == 0x85 || u == 0xa0 || u == 0x1680 || (0x2000 <= u
        && u <= 0x200a) || u == 0x2028 || u == 0x2029 || u == 0x202f || u == 0x205f || u == 0x3000
}

/// The position of the first character at or after `i` that is not white space
/// (the length when there is none).
pub open spec fn lead_end(s: Seq<char>, i: int) -> int
    decreases s.len() - i,
{
    if i >= s.len() || i < 0 {
        s.len() as int
    } else if is_white_space(s[i]) {
        lead_end(s, i + 1)
    } else {
        i
    }
}

/// The position after the last character before `j` that is not white space (0
/// when there is none).
pub open spec fn trail_start(s: Seq<char>, j: int) -> int
    decreases j,
{
    if j <= 0 || j > s.len() {
        0
    } else if is_white_space(s[j - 1]) {
        trail_start(s, j - 1)
    } else {
        j
    }
}

/// `s` without leading and trailing white space.
pub open spec fn trimmed(s: Seq<char>) -> Seq<char> {
    let a = lead_end(s, 0);
    if a >= s.len() {
        Seq::empty()
    } else {
        s.subrange(a, trail_start(s, s.len() as int))
    }
}

/// `s` without leading and trailing white space.
pub fn trim(s: &str) -> (r: &str)
    ensures
        r@ == trimmed(s@),
{
    let n = s.unicode_len();
    let mut a: usize = 0;
    while a < n && white_space(s.get_char(a))
        invariant
            n == s@.len(),
            a <= n,
            lead_end(s@, 0) == lead_end(s@, a as int),
        decreases n - a,
    {
        a = a + 1;
    }
    if a >= n {
        return s.substring_char(0, 0);
    }
    assert(lead_end(s@, 0) == a);
    let mut b: usize = n;
    while b > a && white_space(s.get_char(b - 1))
        invariant
            n == s@.len(),
            a < b <= n,
            trail_start(s@, n as int) == trail_start(s@, b as int),
            !is_white_space(s@[a as int]),
        decreases b,
    {
        b = b - 1;
    }
    assert(trail_start(s@, b as int) == b);
    s.substring_char(a, b)
}

/// Names what `str::to_uppercase` returns for a string.
pub uninterp spec fn uppercase(s: Seq<char>) -> Seq<char>;

/// Calls `str::to_uppercase`. Uppercase mapping follows Unicode's tables, which
/// no short statement covers; the result is named `uppercase` of the argument.
#[verifier::external_body]
fn to_uppercase(s: &str) -> (r: String)
    ensures
        r@ == uppercase(s@),
{
    s.to_uppercase()
}

/// `s` with every `_` turned into `/`.
pub open spec fn underscores_to_slashes(s: Seq<char>) -> Seq<char> {
    s.map_values(|c: char| if c == '_' { '/' } else { c })
}

/// Whether splitting `s` after its third byte is defined: it is wherever the
/// split is not needed, and else exactly when the third byte ends a character.
pub open spec fn split_defined(s: Seq<char>) -> bool {
    (s.contains('/') || s.contains('_') || encode_utf8(s).len() != 6)
        || is_char_boundary(encode_utf8(s), 3)
}

/// The forex pair name an uppercased, trimmed symbol stands for: as it is when it
/// has a `/`; with `_` turned into `/`; a six-byte name split into base and quote
/// after its third byte; anything else as it is.
pub open spec fn pair_name(s: Seq<char>) -> Seq<char> {
    if s.contains('/') {
        s
    } else if s.contains('_') {
        underscores_to_slashes(s)
    } else if encode_utf8(s).len() == 6 {
        decode_utf8(encode_utf8(s).subrange(0, 3)) + "/"@ + decode_utf8(encode_utf8(s).subrange(3, 6))
    } else {
        s
    }
}

fn contains_char(s: &str, c: char) -> (r: bool)
    ensures
        r == s@.contains(c),
{
    let n = s.unicode_len();
    for i in 0..n
        invariant
            n == s@.len(),
            forall|j: int| 0 <= j < i ==> s@[j] != c,
    {
        if s.get_char(i) == c {
            assert(s@[i as int] == c);
            return true;
        }
    }
    false
}

fn replace_underscores(s: &str) -> (r: String)
    ensures
        r@ == underscores_to_slashes(s@),
{
    let n = s.unicode_len();
    let mut out = String::new();
    for i in 0..n
        invariant
            n == s@.len(),
            out@ == underscores_to_slashes(s@.take(i as int)),
    {
        let c = s.get_char(i);
        proof {
            reveal_strlit("/");
            assert("/"@ =~= seq!['/']);
        }
        if c == '_' {
            out.append("/");
        } else {
            out.append(s.substring_char(i, i + 1));
        }
        proof {
            assert(s@.subrange(i as int, i + 1) == seq![c]);
            assert(underscores_to_slashes(s@.take(i + 1)) =~= underscores_to_slashes(s@.take(i as int))
                .push(if c == '_' { '/' } else { c }));
        }
    }
    proof {
        assert(s@.take(n as int) == s@);
    }
    out
}

/// The pair name of an uppercased, trimmed symbol, as `pair_name` describes.
pub fn pair_name_of(s: &str) -> (r: String)
    requires
        split_defined(s@),
    ensures
        r@ == pair_name(s@),
{
    if contains_char(s, '/') {
        return String::from_str(s);
    }
    if contains_char(s, '_') {
        return replace_underscores(s);
    }
    if s.as_bytes().len() == 6 {
        let (base, quote) = s.split_at(3);
        proof {
            vstd::utf8::encode_utf8_decode_utf8(base@);
            vstd::utf8::encode_utf8_decode_utf8(quote@);
        }
        let mut out = String::from_str(base);
        out.append("/");
        out.append(quote);
        return out;
    }
    String::from_str(s)
}

/// The forex pair name a configured symbol stands for: trimmed, uppercased and
/// written as `BASE/QUOTE`, as `pair_name` describes. The split of a six-byte name
/// must fall between characters.
pub fn normalize_symbol(symbol: &str) -> (r: String)
    requires
        split_defined(uppercase(trimmed(symbol@))),
    ensures
        r@ == pair_name(uppercase(trimmed(symbol@))),
{
    let upper = to_uppercase(trim(symbol));
    pair_name_of(upper.as_str())
}

/// The pair name of a configured symbol, or none when its uppercased name is six
/// bytes long without `/` or `_` and its third byte falls inside a character.
pub fn try_normalize_symbol(symbol: &str) -> (r: Option<String>)
    ensures
        r is None <==> !split_defined(uppercase(trimmed(symbol@))),
        r matches Some(n) ==> n@ == pair_name(uppercase(trimmed(symbol@))),
{
    let upper = to_uppercase(trim(symbol));
    let u = upper.as_str();
    if !contains_char(u, '/') && !contains_char(u, '_') && u.as_bytes().len() == 6 && !u.is_char_boundary(3) {
        return None;
    }
    Some(normalize_symbol(symbol))
}

/// One step of `pieces`: the pieces after byte `c` is appended.
pub open spec fn pieces_step(p: Seq<Seq<u8>>, c: u8) -> Seq<Seq<u8>> {
    if c == 10u8 {
        p.push(Seq::<u8>::empty())
    } else {
        p.update(p.len() - 1, p.last().push(c))
    }
}

proof fn lemma_pieces_append(a: Seq<u8>, b: Seq<u8>)
    ensures
        pieces(a + b) == pieces(a).drop_last() + pieces(pieces(a).last() + b),
    decreases b.len(),
{
    lemma_pieces_nonempty(a);
    if b.len() == 0 {
        assert(a + b =~= a);
        assert(pieces(a).last() + b =~= pieces(a).last());
        let l = pieces(a).last();
        lemma_pieces_no_newline(a);
        assert(!pieces(a)[pieces(a).len() - 1].contains(10u8));
        lemma_pieces_single(l);
        assert(pieces(a) =~= pieces(a).drop_last() + seq![l]);
    } else {
        let b0 = b.drop_last();
        let c = b.last();
        lemma_pieces_append(a, b0);
        let d = pieces(a).drop_last();
        let l = pieces(a).last();
        let q = pieces(l + b0);
        lemma_pieces_nonempty(l + b0);
        assert((a + b).drop_last() =~= a + b0);
        assert((l + b).drop_last() =~= l + b0);
        assert((a + b).last() == c);
        assert((l + b).last() == c);
        assert(pieces(a + b) == pieces_step(d + q, c));
        assert(pieces(l + b) == pieces_step(q, c));
        assert(pieces_step(d + q, c) =~= d + pieces_step(q, c));
    }
}

proof fn lemma_pieces_single(l: Seq<u8>)
    requires
        !l.contains(10u8),
    ensures
        pieces(l) == seq![l],
    decreases l.len(),
{
    if l.len() > 0 {
        assert(!l.drop_last().contains(10u8)) by {
            if l.drop_last().contains(10u8) {
                let j = choose|j: int| 0 <= j < l.drop_last().len() && l.drop_last()[j] == 10u8;
                assert(l[j] == 10u8);
            }
        }
        lemma_pieces_single(l.drop_last());
        assert(l.last() != 10u8) by {
            if l.last() == 10u8 {
                assert(l[l.len() - 1] == 10u8);
            }
        }
        assert(l.drop_last().push(l.last()) =~= l);
        assert(seq![l.drop_last()].update(0, l.drop_last().push(l.last())) =~= seq![l]);
    } else {
        assert(l =~= Seq::<u8>::empty());
    }
}

proof fn lemma_pieces_no_newline(s: Seq<u8>)
    ensures
        forall|k: int| 0 <= k < pieces(s).len() ==> !(#[trigger] pieces(s)[k]).contains(10u8),
    decreases s.len(),
{
    if s.len() > 0 {
        let p = pieces(s.drop_last());
        lemma_pieces_no_newline(s.drop_last());
        lemma_pieces_nonempty(s.drop_last());
        if s.last() != 10u8 {
            assert forall|k: int| 0 <= k < pieces(s).len() implies !(#[trigger] pieces(s)[k]).contains(
                10u8,
            ) by {
                if k == p.len() - 1 {
                    let l = p.last();
                    assert(!l.contains(10u8));
                    if l.push(s.last()).contains(10u8) {
                        let j = choose|j: int| 0 <= j < l.push(s.last()).len() && l.push(s.last())[j] == 10u8;
                        if j < l.len() {
                            assert(l[j] == 10u8);
                        }
                    }
                } else {
                    assert(pieces(s)[k] == p[k]);
                }
            }
        } else {
            assert forall|k: int| 0 <= k < pieces(s).len() implies !(#[trigger] pieces(s)[k]).contains(
                10u8,
            ) by {
                if k < p.len() {
                    assert(pieces(s)[k] == p[k]);
                }
            }
        }
    }
}

proof fn lemma_frame_lines_append(x: Seq<Seq<u8>>, y: Seq<Seq<u8>>)
    ensures
        frame_lines(x + y) == frame_lines(x) + frame_lines(y),
    decreases y.len(),
{
    if y.len() == 0 {
        assert(x + y =~= x);
        assert(frame_lines(x) + frame_lines(y) =~= frame_lines(x));
    } else {
        lemma_frame_lines_append(x, y.drop_last());
        assert((x + y).drop_last() =~= x + y.drop_last());
        assert((x + y).last() == y.last());
    }
}

/// Feeding a streamed body in two chunks cuts the same lines as feeding it in
/// one: the lines of the first chunk followed by those of the held-back bytes and
/// the second chunk are the lines of both chunks together, and the same bytes are
/// held back after.
pub proof fn law_chunking(held: Seq<u8>, a: Seq<u8>, b: Seq<u8>)
    ensures
        ({
            let first = pieces(held + a);
            let second = pieces(first.last() + b);
            let whole = pieces(held + a + b);
            &&& frame_lines(first.drop_last()) + frame_lines(second.drop_last()) == frame_lines(
                whole.drop_last(),
            )
            &&& second.last() == whole.last()
        }),
{
    let first = pieces(held + a);
    let l = first.last();
    let second = pieces(l + b);
    lemma_pieces_append(held + a, b);
    lemma_pieces_nonempty(held + a);
    lemma_pieces_nonempty(l + b);
    let whole = pieces(held + a + b);
    assert(whole == first.drop_last() + second);
    assert(whole.drop_last() =~= first.drop_last() + second.drop_last());
    assert(whole.last() == second.last());
    lemma_frame_lines_append(first.drop_last(), second.drop_last());
}

/// No line cut from a body holds a newline, and neither do the bytes held back.
pub proof fn law_lines_have_no_newline(data: Seq<u8>)
    ensures
        forall|k: int|
            0 <= k < frame_lines(pieces(data).drop_last()).len() ==> !(#[trigger] frame_lines(
                pieces(data).drop_last(),
            )[k]).contains(10u8),
        !pieces(data).last().contains(10u8),
{
    lemma_pieces_no_newline(data);
    lemma_pieces_nonempty(data);
    lemma_frame_lines_clean(pieces(data).drop_last());
}

proof fn lemma_frame_lines_clean(ps: Seq<Seq<u8>>)
    requires
        forall|k: int| 0 <= k < ps.len() ==> !(#[trigger] ps[k]).contains(10u8),
    ensures
        forall|k: int|
            0 <= k < frame_lines(ps).len() ==> !(#[trigger] frame_lines(ps)[k]).contains(10u8),
    decreases ps.len(),
{
    if ps.len() > 0 {
        assert forall|k: int| 0 <= k < ps.drop_last().len() implies !(#[trigger] ps.drop_last()[k]).contains(
            10u8,
        ) by {
            assert(ps.drop_last()[k] == ps[k]);
        }
        lemma_frame_lines_clean(ps.drop_last());
        let l = ps.last();
        assert(!l.contains(10u8)) by {
            assert(l == ps[ps.len() - 1]);
        }
        let sl = strip_cr(l);
        assert(!sl.contains(10u8)) by {
            if sl.contains(10u8) {
                let j = choose|j: int| 0 <= j < sl.len() && sl[j] == 10u8;
                assert(l[j] == 10u8);
            }
        }
        let prev = frame_lines(ps.drop_last());
        assert forall|k: int| 0 <= k < frame_lines(ps).len() implies !(#[trigger] frame_lines(ps)[k]).contains(
            10u8,
        ) by {
            if k < prev.len() {
                assert(frame_lines(ps)[k] == prev[k]);
            } else {
                assert(frame_lines(ps)[k] == sl);
            }
        }
    }
}

/// Writing a pair name again changes nothing.
pub proof fn law_pair_name_idempotent(s: Seq<char>)
    ensures
        pair_name(pair_name(s)) == pair_name(s),
{
    if s.contains('/') {
    } else if s.contains('_') {
        let j = choose|j: int| 0 <= j < s.len() && s[j] == '_';
        assert(underscores_to_slashes(s)[j] == '/');
        assert(underscores_to_slashes(s).contains('/'));
    } else if encode_utf8(s).len() == 6 {
        let r = pair_name(s);
        let left = decode_utf8(encode_utf8(s).subrange(0, 3));
        let right = decode_utf8(encode_utf8(s).subrange(3, 6));
        reveal_strlit("/");
        assert("/"@ =~= seq!['/']);
        assert(r =~= left + seq!['/'] + right);
        assert(r[left.len() as int] == '/');
        assert(r.contains('/'));
    }
}

/// Names the instant, in milliseconds since the Unix epoch, that
/// `chrono::DateTime::parse_from_rfc3339` reads from `s`; none when it refuses `s`.
pub uninterp spec fn rfc3339_millis(s: Seq<char>) -> Option<i64>;

/// Names the instant, in milliseconds since the Unix epoch, of the date and time
/// that `chrono::NaiveDateTime::parse_from_str` reads from `s` with format `fmt`,
/// taken as UTC; none when it refuses `s`.
pub uninterp spec fn naive_utc_millis(s: Seq<char>, fmt: Seq<char>) -> Option<i64>;

/// Calls `chrono::DateTime::parse_from_rfc3339` and reads the result with
/// `timestamp_millis`. Both are functions of `s` alone (no local time zone is
/// consulted); the result is named `rfc3339_millis` of `s`.
#[verifier::external_body]
fn parse_rfc3339_millis(s: &str) -> (r: Option<i64>)
    ensures
        r == rfc3339_millis(s@),
{
    match chrono::DateTime::parse_from_rfc3339(s) {
        Ok(dt) => Some(dt.timestamp_millis()),
        Err(_) => None,
    }
}

/// Calls `chrono::NaiveDateTime::parse_from_str` and reads the result as UTC with
/// `timestamp_millis`; a function of `s` and `fmt` alone, named `naive_utc_millis`.
#[verifier::external_body]
fn parse_naive_utc_millis(s: &str, fmt: &str) -> (r: Option<i64>)
    ensures
        r == naive_utc_millis(s@, fmt@),
{
    match chrono::NaiveDateTime::parse_from_str(s, fmt) {
        Ok(dt) => Some(chrono::DateTime::<chrono::Utc>::from_naive_utc_and_offset(dt, chrono::Utc).timestamp_millis()),
        Err(_) => None,
    }
}

/// The time an OANDA message gives in RFC 3339, in milliseconds since the Unix
/// epoch (the signed instant taken as its 64-bit pattern); none when it does not
/// read as RFC 3339.
pub fn parse_rfc3339_ms(value: &str) -> (r: Option<u64>)
    ensures
        r == match rfc3339_millis(value@) {
            Some(m) => Some(m as u64),
            None => None,
        },
{
    match parse_rfc3339_millis(value) {
        Some(m) => Some(m as u64),
        None => None,
    }
}

/// The format of the plain date-times the candle endpoints return.
pub open spec fn plain_datetime_format() -> Seq<char> {
    "%Y-%m-%d %H:%M:%S"@
}

/// The time a candle endpoint gives, chosen from its two readings: the RFC 3339
/// reading when there is one, else the plain UTC reading; none when neither read
/// it. The signed instant is taken as its 64-bit pattern.
pub open spec fn pick_datetime_spec(rfc: Option<i64>, plain: Option<i64>) -> Option<u64> {
    match rfc {
        Some(m) => Some(m as u64),
        None => match plain {
            Some(m) => Some(m as u64),
            None => None,
        },
    }
}

/// The time a candle endpoint gives as text, in milliseconds: read as RFC 3339,
/// else as a plain UTC date and time; none when neither reads it.
pub open spec fn datetime_ms_spec(s: Seq<char>) -> Option<u64> {
    pick_datetime_spec(rfc3339_millis(s), naive_utc_millis(s, plain_datetime_format()))
}

/// Chooses between the RFC 3339 reading and the plain reading of a time, as
/// `pick_datetime_spec` describes.
pub fn pick_datetime_ms(rfc: Option<i64>, plain: Option<i64>) -> (r: Option<u64>)
    ensures
        r == pick_datetime_spec(rfc, plain),
{
    match rfc {
        Some(m) => Some(m as u64),
        None => match plain {
            Some(m) => Some(m as u64),
            None => None,
        },
    }
}

/// The time a candle endpoint gives as text, as `datetime_ms_spec` describes. The
/// plain reading is only tried when the RFC 3339 reading fails.
pub fn parse_datetime_ms(value: &str) -> (r: Option<u64>)
    ensures
        r == datetime_ms_spec(value@),
{
    let rfc = parse_rfc3339_millis(value);
    if rfc.is_some() {
        return pick_datetime_ms(rfc, None);
    }
    let fmt = "%Y-%m-%d %H:%M:%S";
    let plain = parse_naive_utc_millis(value, fmt);
    pick_datetime_ms(rfc, plain)
}

/// The code of `c` in ASCII lower case.
pub open spec fn lower_code(c: char) -> u32 {
    let u = c as u32;
    if 65 <= u && u <= 90 {
        (u + 32) as u32
    } else {
        u
    }
}

/// `env` equals `word` once its ASCII capitals are lowered.
pub open spec fn equals_ignoring_ascii_case(env: Seq<char>, word: Seq<char>) -> bool {
    env.len() == word.len() && forall|j: int| 0 <= j < env.len() ==> lower_code(#[trigger] env[j]) == word[j] as u32
}

/// Whether the OANDA environment setting selects the live hosts: `live` or
/// `fxtrade`, in any ASCII case; anything else selects the practice hosts.
pub open spec fn is_live_env_spec(env: Seq<char>) -> bool {
    equals_ignoring_ascii_case(env, "live"@) || equals_ignoring_ascii_case(env, "fxtrade"@)
}

fn equals_lowered(env: &str, word: &str) -> (r: bool)
    ensures
        r == equals_ignoring_ascii_case(env@, word@),
{
    let n = env.unicode_len();
    let m = word.unicode_len();
    if n != m {
        return false;
    }
    for i in 0..n
        invariant
            n == env@.len(),
            n == word@.len(),
            forall|j: int| 0 <= j < i ==> lower_code(#[trigger] env@[j]) == word@[j] as u32,
    {
        let u = env.get_char(i) as u32;
        let lowered = if 65 <= u && u <= 90 {
            u + 32
        } else {
            u
        };
        if lowered != word.get_char(i) as u32 {
            return false;
        }
    }
    true
}

/// Whether the OANDA environment setting selects the live hosts.
pub fn is_live_env(env: &str) -> (r: bool)
    ensures
        r == is_live_env_spec(env@),
{
    equals_lowered(env, "live") || equals_lowered(env, "fxtrade")
}

} // verus!

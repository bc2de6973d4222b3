//! Alert sounds: which sound a burst of trades plays, and how overlapping plays
//! of one sound share the volume.

use vstd::prelude::*;

verus! {

/// One of the four alert sounds.
#[derive(Debug, Clone, Copy, PartialEq, Eq, Structural)]
pub enum SoundType {
    Buy,
    HardBuy,
    Sell,
    HardSell,
}

/// A burst of trades plays the hard variant of a sound when its count exceeds
/// the threshold this many times over.
pub const HARD_THRESHOLD: usize = 4;

/// Plays of one sound closer together than this (in nanoseconds) overlap.
pub const OVERLAP_THRESHOLD_NS: u64 = 10_000_000;

impl SoundType {
    /// The position of the sound in the sound table.
    pub open spec fn index_spec(self) -> nat {
        match self {
            SoundType::Buy => 0,
            SoundType::HardBuy => 1,
            SoundType::Sell => 2,
            SoundType::HardSell => 3,
        }
    }

    /// The position of the sound in the sound table.
    pub fn index(&self) -> (r: usize)
        ensures
            r as nat == self.index_spec(),
            r < 4,
    {
        match self {
            SoundType::Buy => 0,
            SoundType::HardBuy => 1,
            SoundType::Sell => 2,
            SoundType::HardSell => 3,
        }
    }

    /// The name of the sound's file, which is also how the sound is named to users.
    pub open spec fn file_name_spec(self) -> Seq<char> {
        match self {
            SoundType::Buy => "hard-typewriter-click.wav"@,
            SoundType::HardBuy => "dry-pop-up.wav"@,
            SoundType::Sell => "hard-typewriter-hit.wav"@,
            SoundType::HardSell => "fall-on-foam-splash.wav"@,
        }
    }

    /// The name of the sound's file.
    pub fn file_name(&self) -> (r: &'static str)
        ensures
            r@ == self.file_name_spec(),
    {
        match self {
            SoundType::Buy => "hard-typewriter-click.wav",
            SoundType::HardBuy => "dry-pop-up.wav",
            SoundType::Sell => "hard-typewriter-hit.wav",
            SoundType::HardSell => "fall-on-foam-splash.wav",
        }
    }
}

/// How many of `sides` are sells (`true`).
pub open spec fn sell_count(sides: Seq<bool>) -> nat
    decreases sides.len(),
{
    if sides.len() == 0 {
        0
    } else {
        sell_count(sides.drop_last()) + if sides.last() {
            1nat
        } else {
            0nat
        }
    }
}

/// The sound a side plays for a burst of `count` trades at threshold `threshold`.
pub open spec fn sound_for(count: nat, is_sell: bool, threshold: nat) -> SoundType {
    if count > threshold * HARD_THRESHOLD {
        if is_sell {
            SoundType::HardSell
        } else {
            SoundType::HardBuy
        }
    } else if is_sell {
        SoundType::Sell
    } else {
        SoundType::Buy
    }
}

/// The sounds a burst of trades plays, in order, given which trades are sells:
/// nothing while both sides stay below the threshold; else the sound of the side
/// with more trades, or on a tie the buy sound and then the sell sound.
pub open spec fn burst_sounds(sides: Seq<bool>, threshold: nat) -> Seq<SoundType> {
    let sells = sell_count(sides);
    let buys = (sides.len() - sells) as nat;
    if buys < threshold && sells < threshold {
        seq![]
    } else if buys > sells {
        seq![sound_for(buys, false, threshold)]
    } else if buys < sells {
        seq![sound_for(sells, true, threshold)]
    } else {
        seq![sound_for(buys, false, threshold), sound_for(sells, true, threshold)]
    }
}

fn pick_sound(count: usize, is_sell: bool, threshold: usize) -> (r: SoundType)
    requires
        threshold * HARD_THRESHOLD <= usize::MAX,
    ensures
        r == sound_for(count as nat, is_sell, threshold as nat),
{
    if count > threshold * HARD_THRESHOLD {
        if is_sell {
            SoundType::HardSell
        } else {
            SoundType::HardBuy
        }
    } else if is_sell {
        SoundType::Sell
    } else {
        SoundType::Buy
    }
}

/// The sounds a burst of trades plays under a count threshold; `sides` tells for
/// each trade whether it was a sell.
pub fn sounds_for_burst(sides: &Vec<bool>, threshold: usize) -> (r: Vec<SoundType>)
    requires
        threshold * HARD_THRESHOLD <= usize::MAX,
    ensures
        r@ == burst_sounds(sides@, threshold as nat),
{
    let mut sells: usize = 0;
    for i in 0..sides.len()
        invariant
            sells == sell_count(sides@.take(i as int)),
            sells <= i,
    {
        proof {
            assert(sides@.take(i + 1).drop_last() == sides@.take(i as int));
        }
        if sides[i] {
            sells = sells + 1;
        }
    }
    proof {
        assert(sides@.take(sides@.len() as int) == sides@);
    }
    let buys = sides.len() - sells;
    let mut out: Vec<SoundType> = Vec::new();
    if buys < threshold && sells < threshold {
        return out;
    }
    if buys > sells {
        out.push(pick_sound(buys, false, threshold));
    } else if buys < sells {
        out.push(pick_sound(sells, true, threshold));
    } else {
        out.push(pick_sound(buys, false, threshold));
        out.push(pick_sound(sells, true, threshold));
    }
    out
}

/// When a sound last started (nanoseconds on a monotonic clock) and how many of
/// its plays overlap so far.
#[derive(Debug, Clone, Copy, PartialEq, Eq, Structural)]
pub struct PlayRecord {
    pub last_ns: Option<u64>,
    pub overlap: usize,
}

/// The record after a play at `now_ns`: a play within the overlap threshold of
/// the previous one counts one more overlapping play, any other starts a new run
/// of one (a clock reading before the previous play counts as no time elapsed).
pub open spec fn after_play(rec: PlayRecord, now_ns: u64) -> PlayRecord {
    match rec.last_ns {
        Some(last) => if (if now_ns >= last {
            now_ns - last
        } else {
            0
        }) < OVERLAP_THRESHOLD_NS {
            PlayRecord { last_ns: Some(now_ns), overlap: (rec.overlap + 1) as usize }
        } else {
            PlayRecord { last_ns: Some(now_ns), overlap: 1 }
        },
        None => PlayRecord { last_ns: Some(now_ns), overlap: 1 },
    }
}

impl PlayRecord {
    /// A sound never played.
    pub fn new() -> (r: PlayRecord)
        ensures
            r.last_ns is None,
            r.overlap == 0,
    {
        PlayRecord { last_ns: None, overlap: 0 }
    }

    /// Records a play at `now_ns` and returns how many plays now overlap; the
    /// play's volume is the base volume divided by that count.
    pub fn register_play(&mut self, now_ns: u64) -> (r: usize)
        requires
            old(self).overlap < usize::MAX,
        ensures
            *final(self) == after_play(*old(self), now_ns),
            r == final(self).overlap,
            r >= 1,
    {
        match self.last_ns {
            Some(last) => {
                if now_ns.saturating_sub(last) < OVERLAP_THRESHOLD_NS {
                    self.overlap = self.overlap + 1;
                } else {
                    self.overlap = 1;
                }
            },
            None => {
                self.overlap = 1;
            },
        }
        self.last_ns = Some(now_ns);
        self.overlap
    }
}

/// The play history of the four sounds, indexed by `SoundType::index`.
pub struct PlayHistory {
    pub records: [PlayRecord; 4],
}

/// The error of a play request for a sound whose samples are not loaded.
pub open spec fn not_loaded_message(sound: SoundType) -> Seq<char> {
    "Sound '"@ + sound.file_name_spec() + "' not loaded"@
}

/// What a request to play a sound comes to.
#[derive(Debug, Clone, PartialEq, Eq)]
pub enum PlayOutcome {
    /// Sound is muted: nothing plays.
    Muted,
    /// The sound plays at the base volume divided by this count of overlapping plays.
    Play { overlap: usize },
}

impl PlayHistory {
    /// No sound played yet.
    pub fn new() -> (r: PlayHistory)
        ensures
            forall|i: int| 0 <= i < 4 ==> (#[trigger] r.records@[i]).last_ns is None && r.records@[i].overlap == 0,
    {
        PlayHistory { records: [PlayRecord::new(), PlayRecord::new(), PlayRecord::new(), PlayRecord::new()] }
    }

    /// A request to play `sound` at `now_ns`: nothing when muted; an error naming
    /// the sound when its samples are not loaded; else the play is recorded and
    /// its overlap count returned. Only a recorded play changes the history, and
    /// only the played sound's record.
    pub fn play(&mut self, sound: SoundType, muted: bool, loaded: bool, now_ns: u64) -> (r: Result<PlayOutcome, String>)
        requires
            old(self).records@[sound.index_spec() as int].overlap < usize::MAX,
        ensures
            muted ==> (r matches Ok(o) && o is Muted),
            (!muted && !loaded) ==> (r matches Err(m) && m@ == not_loaded_message(sound)),
            (muted || !loaded) ==> final(self).records@ == old(self).records@,
            (!muted && loaded) ==> final(self).records@ == old(self).records@.update(
                sound.index_spec() as int,
                after_play(old(self).records@[sound.index_spec() as int], now_ns),
            ),
            (!muted && loaded) ==> (r matches Ok(o) && (o matches PlayOutcome::Play { overlap } && overlap
                == final(self).records@[sound.index_spec() as int].overlap)),
    {
        if muted {
            return Ok(PlayOutcome::Muted);
        }
        if !loaded {
            let mut m = String::from_str("Sound '");
            m.append(sound.file_name());
            m.append("' not loaded");
            return Err(m);
        }
        let i = sound.index();
        let mut rec = self.records[i];
        let overlap = rec.register_play(now_ns);
        self.records.set(i, rec);
        Ok(PlayOutcome::Play { overlap })
    }
}

/// When a stream's trades sound: once a burst reaches a count of trades, or a
/// quantity (the bit pattern of an `f32`).
#[derive(Debug, Clone, Copy, PartialEq, Eq, Structural)]
pub enum Threshold {
    Count(usize),
    Qty(u32),
}

/// The sound settings of one stream.
#[derive(Debug, Clone, Copy, PartialEq, Eq, Structural)]
pub struct StreamCfg {
    pub enabled: bool,
    pub threshold: Threshold,
}

/// The settings a burst of a stream's trades sounds with: none without an audio
/// output, while muted, for streams other than depth-and-trades streams, and for
/// streams without enabled settings (`cfg` is the stream's settings, if any).
pub fn should_play_sound(has_output: bool, muted: bool, is_trade_stream: bool, cfg: Option<StreamCfg>) -> (r: Option<StreamCfg>)
    ensures
        r == (if has_output && !muted && is_trade_stream && (cfg matches Some(c) && c.enabled) {
            cfg
        } else {
            None
        }),
{
    if !has_output || muted || !is_trade_stream {
        return None;
    }
    match cfg {
        Some(c) => {
            if c.enabled {
                Some(c)
            } else {
                None
            }
        },
        None => None,
    }
}

/// The sounds a burst of trades plays under a stream's settings, as
/// `burst_sounds` describes for its count threshold; `sides` tells for each trade
/// whether it was a sell. Quantity thresholds are not supported.
pub fn try_play_sound(cfg: StreamCfg, sides: &Vec<bool>) -> (r: Vec<SoundType>)
    requires
        cfg.threshold is Count,
        cfg.threshold->Count_0 * HARD_THRESHOLD <= usize::MAX,
    ensures
        r@ == burst_sounds(sides@, cfg.threshold->Count_0 as nat),
{
    match cfg.threshold {
        Threshold::Count(v) => sounds_for_burst(sides, v),
        Threshold::Qty(_) => Vec::new(),
    }
}

/// The buys of a burst.
pub open spec fn buys_of(sides: Seq<bool>) -> Seq<bool> {
    sides.filter(|b: bool| !b)
}

/// The sells of a burst.
pub open spec fn sells_of(sides: Seq<bool>) -> Seq<bool> {
    sides.filter(|b: bool| b)
}

proof fn lemma_side_counts(sides: Seq<bool>)
    ensures
        sell_count(sides) == sells_of(sides).len(),
        sides.len() - sell_count(sides) == buys_of(sides).len(),
    decreases sides.len(),
{
    reveal(Seq::filter);
    if sides.len() > 0 {
        lemma_side_counts(sides.drop_last());
    }
}

/// A burst plays nothing while both its buys and its sells stay below the count
/// threshold. Once a side reaches it, the side with more trades plays its sound
/// (the hard one beyond `HARD_THRESHOLD` times the threshold); on a tie both sides
/// play, the buy sound first.
pub proof fn law_burst_threshold(sides: Seq<bool>, threshold: nat)
    ensures
        buys_of(sides).len() < threshold && sells_of(sides).len() < threshold ==> burst_sounds(
            sides,
            threshold,
        ).len() == 0,
        buys_of(sides).len() >= threshold && buys_of(sides).len() > sells_of(sides).len() ==> burst_sounds(
            sides,
            threshold,
        ) == seq![
            if buys_of(sides).len() > threshold * HARD_THRESHOLD {
                SoundType::HardBuy
            } else {
                SoundType::Buy
            },
        ],
        sells_of(sides).len() >= threshold && sells_of(sides).len() > buys_of(sides).len() ==> burst_sounds(
            sides,
            threshold,
        ) == seq![
            if sells_of(sides).len() > threshold * HARD_THRESHOLD {
                SoundType::HardSell
            } else {
                SoundType::Sell
            },
        ],
        buys_of(sides).len() >= threshold && buys_of(sides).len() == sells_of(sides).len() ==> burst_sounds(
            sides,
            threshold,
        ) == seq![
            if buys_of(sides).len() > threshold * HARD_THRESHOLD {
                SoundType::HardBuy
            } else {
                SoundType::Buy
            },
            if sells_of(sides).len() > threshold * HARD_THRESHOLD {
                SoundType::HardSell
            } else {
                SoundType::Sell
            },
        ],
{
    lemma_side_counts(sides);
}

} // verus!

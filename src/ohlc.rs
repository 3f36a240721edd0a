use vstd::prelude::*;

use crate::price_info::PriceInfo;

verus! {

/// Length in seconds of the candles that samples are folded into.
pub const CANDLE_SECONDS: u64 = 60;

/// Open-High-Low-Close prices of one time bucket, at four decimal places.
///
/// `start` is the Unix second at which the bucket opens, a multiple of
/// `duration` (seconds). A `start` of zero marks a candle that was never
/// opened.
#[derive(Clone, Copy, Debug, PartialEq, Eq, Structural)]
pub struct Ohlc {
    pub start: u64,
    pub open: u64,
    pub high: u64,
    pub low: u64,
    pub close: u64,
    pub duration: u32,
}

/// The first second of the minute that holds `t`.
pub open spec fn bucket_of(t: u64) -> u64 {
    (t - t % CANDLE_SECONDS) as u64
}

/// The candle after a sample at second `t` with rate `r`: a fresh candle when
/// the sample opens a new minute, else the same one with the rate taken in.
pub open spec fn ingested(o: Ohlc, t: u64, r: u64) -> Ohlc {
    if bucket_of(t) != o.start {
        Ohlc { start: bucket_of(t), open: r, high: r, low: r, close: r, duration: 60 }
    } else {
        Ohlc {
            high: if o.high < r {
                r
            } else {
                o.high
            },
            low: if o.low > r {
                r
            } else {
                o.low
            },
            close: r,
            ..o
        }
    }
}

/// The finished candle that a sample at second `t` hands on: the current one,
/// when the sample opens a new minute and the current one was ever opened.
pub open spec fn emitted(o: Ohlc, t: u64) -> Option<Ohlc> {
    if bucket_of(t) != o.start && o.start != 0 {
        Some(o)
    } else {
        None
    }
}

impl Ohlc {
    /// Prices are ordered and the bucket is aligned to its duration.
    pub open spec fn wf(self) -> bool {
        &&& self.low <= self.open <= self.high
        &&& self.low <= self.close <= self.high
        &&& self.duration > 0
        &&& self.start % (self.duration as u64) == 0
    }

    /// A candle that is being built: unopened, or a well-formed minute candle.
    pub open spec fn is_building(self) -> bool {
        self.start != 0 ==> self.wf() && self.duration == 60
    }

    /// Takes one sample into the candle being built and returns the finished
    /// candle that is to be handed on, if the sample opened a new minute.
    ///
    /// A sample without a rate changes nothing.
    pub fn ingest(&mut self, info: &PriceInfo) -> (r: Option<Ohlc>)
        requires
            old(self).is_building(),
            info.rate is Some ==> info.decimal == 4,
        ensures
            final(self).is_building(),
            info.rate is None ==> *final(self) == *old(self) && r is None,
            info.rate is Some ==> *final(self) == ingested(
                *old(self),
                info.timestamp,
                info.rate->Some_0,
            ) && r == emitted(*old(self), info.timestamp),
            info.rate is Some ==> final(self).start == bucket_of(info.timestamp),
            r matches Some(c) ==> c.wf() && c.start != 0 && c.start % (c.duration as u64) == 0,
    {
        let rate = match info.rate {
            Some(v) => v,
            None => return None,
        };
        let bucket = info.timestamp - info.timestamp % CANDLE_SECONDS;
        if bucket != self.start {
            let prev = *self;
            *self = Ohlc { start: bucket, open: rate, high: rate, low: rate, close: rate, duration: 60 };
            assert(bucket % 60 == 0);
            if prev.start != 0 {
                Some(prev)
            } else {
                None
            }
        } else {
            if self.high < rate {
                self.high = rate;
            }
            if self.low > rate {
                self.low = rate;
            }
            self.close = rate;
            None
        }
    }
}

impl Default for Ohlc {
    /// The candle that was never opened.
    fn default() -> (r: Ohlc)
        ensures
            r == (Ohlc { start: 0, open: 0, high: 0, low: 0, close: 0, duration: 0 }),
    {
        Ohlc { start: 0, open: 0, high: 0, low: 0, close: 0, duration: 0 }
    }
}

/// The candle after each of `samples` (second, rate) in turn.
pub open spec fn ingested_all(o: Ohlc, samples: Seq<(u64, u64)>) -> Ohlc
    decreases samples.len(),
{
    if samples.len() == 0 {
        o
    } else {
        let s = samples.last();
        ingested(ingested_all(o, samples.drop_last()), s.0, s.1)
    }
}

pub open spec fn max_rate(samples: Seq<(u64, u64)>) -> u64
    decreases samples.len(),
{
    if samples.len() <= 1 {
        samples[0].1
    } else {
        let m = max_rate(samples.drop_last());
        if m < samples.last().1 {
            samples.last().1
        } else {
            m
        }
    }
}

pub open spec fn min_rate(samples: Seq<(u64, u64)>) -> u64
    decreases samples.len(),
{
    if samples.len() <= 1 {
        samples[0].1
    } else {
        let m = min_rate(samples.drop_last());
        if m > samples.last().1 {
            samples.last().1
        } else {
            m
        }
    }
}

/// Samples that all fall in one minute, other than the minute of the candle
/// being built, make a candle whose open is the first rate, close the last,
/// high the largest and low the smallest; the first sample of a later minute
/// then hands on exactly that candle.
pub proof fn lemma_one_minute_candle(o: Ohlc, samples: Seq<(u64, u64)>, later: u64)
    requires
        samples.len() > 0,
        bucket_of(samples[0].0) != o.start,
        forall|i: int| 0 <= i < samples.len() ==> bucket_of(#[trigger] samples[i].0) == bucket_of(samples[0].0),
        bucket_of(later) != bucket_of(samples[0].0),
        bucket_of(samples[0].0) != 0,
    ensures
        ingested_all(o, samples) == (Ohlc {
            start: bucket_of(samples[0].0),
            open: samples[0].1,
            high: max_rate(samples),
            low: min_rate(samples),
            close: samples.last().1,
            duration: 60,
        }),
        emitted(ingested_all(o, samples), later) == Some(ingested_all(o, samples)),
    decreases samples.len(),
{
    if samples.len() > 1 {
        let rest = samples.drop_last();
        assert(rest[0] == samples[0]);
        assert forall|i: int| 0 <= i < rest.len() implies bucket_of(#[trigger] rest[i].0) == bucket_of(rest[0].0) by {
            assert(rest[i] == samples[i]);
        }
        lemma_one_minute_candle(o, rest, later);
        assert(bucket_of(samples.last().0) == bucket_of(samples[0].0));
        assert(samples.last() == samples[samples.len() - 1]);
    } else {
        assert(samples.drop_last().len() == 0);
        assert(ingested_all(o, samples.drop_last()) == o);
        assert(samples.last() == samples[0]);
    }
}

} // verus!

//! The aggregating stage: folds samples into minute candles, hands finished
//! candles to storage and publishes the candle being built for display.

use std::sync::Arc;

use vstd::prelude::*;

use crate::atomic_swap::AtomicSwap;
use crate::channel::try_send;
use crate::ohlc::{
    emitted,
    ingested,
    Ohlc,
};
use crate::price_info::PriceInfo;

verus! {

/// What one sample led the aggregating stage to do.
#[derive(Clone, Copy, Debug, PartialEq, Eq, Structural)]
pub enum Step {
    /// The sample carried no rate and was skipped.
    Skipped,
    /// The sample went into the candle being built.
    Taken,
    /// The sample opened a new minute and the finished candle was queued.
    Handed,
    /// The sample opened a new minute; the finished candle was dropped because
    /// the storage queue was full or closed.
    Dropped,
}

/// The aggregating stage's ends: samples in, finished candles out, and the
/// display slot.
pub struct OhlcCalc {
    pub rx: tokio::sync::mpsc::Receiver<PriceInfo>,
    pub tx_storage: tokio::sync::mpsc::Sender<Ohlc>,
    pub terminal: Arc<AtomicSwap<Option<Ohlc>>>,
}

impl OhlcCalc {
    pub fn new(
        rx: tokio::sync::mpsc::Receiver<PriceInfo>,
        tx_storage: tokio::sync::mpsc::Sender<Ohlc>,
        terminal: Arc<AtomicSwap<Option<Ohlc>>>,
    ) -> (r: Self)
        ensures
            r.rx == rx,
            r.tx_storage == tx_storage,
            r.terminal == terminal,
    {
        OhlcCalc { rx, tx_storage, terminal }
    }

    /// Handles one received sample: folds it into `ohlc`, queues the finished
    /// candle without waiting when a new minute opens, and publishes the
    /// candle being built.
    pub fn process(&self, ohlc: &mut Ohlc, info: &PriceInfo) -> (r: Step)
        requires
            old(ohlc).is_building(),
            info.rate is Some ==> info.decimal == 4,
        ensures
            final(ohlc).is_building(),
            info.rate is None <==> r == Step::Skipped,
            info.rate is None ==> *final(ohlc) == *old(ohlc),
            info.rate is Some ==> *final(ohlc) == ingested(*old(ohlc), info.timestamp, info.rate->Some_0),
            info.rate is Some ==> (emitted(*old(ohlc), info.timestamp) is None <==> r == Step::Taken),
            r == Step::Handed || r == Step::Dropped ==> info.rate is Some && emitted(
                *old(ohlc),
                info.timestamp,
            ) is Some,
    {
        let out = ohlc.ingest(info);
        if info.rate.is_none() {
            return Step::Skipped;
        }
        let step = match out {
            Some(done) => if try_send(&self.tx_storage, done) {
                Step::Handed
            } else {
                Step::Dropped
            },
            None => Step::Taken,
        };
        let _old = self.terminal.swap(Box::new(Some(*ohlc)));
        step
    }
}

} // verus!

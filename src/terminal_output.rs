//! The display stage: once a second it takes the freshest candle from the
//! snapshot slot and shows it.

use std::sync::Arc;

use vstd::prelude::*;

use crate::atomic_swap::AtomicSwap;
use crate::ohlc::Ohlc;

verus! {

/// Milliseconds between two refreshes of the display.
pub const REFRESH_MILLIS: u64 = 1000;

/// The candle shown after taking `taken` from the slot: a new candle replaces
/// the one shown, an empty slot keeps it.
pub open spec fn shown_after(taken: Option<Ohlc>, shown: Option<Ohlc>) -> Option<Ohlc> {
    if taken is Some {
        taken
    } else {
        shown
    }
}

/// What is rendered of the shown candle: nothing for none, nor for one that
/// was never opened.
pub open spec fn rendered(shown: Option<Ohlc>) -> Option<Ohlc> {
    match shown {
        Some(c) => if c.start != 0 {
            Some(c)
        } else {
            None
        },
        None => None,
    }
}

/// Updates the shown candle with what was taken from the slot and returns the
/// candle to render, if any.
pub fn display_select(taken: Option<Ohlc>, shown: &mut Option<Ohlc>) -> (r: Option<Ohlc>)
    ensures
        *final(shown) == shown_after(taken, *old(shown)),
        r == rendered(*final(shown)),
{
    if taken.is_some() {
        *shown = taken;
    }
    match *shown {
        Some(c) => if c.start != 0 {
            Some(c)
        } else {
            None
        },
        None => None,
    }
}

pub struct TerminalOutput {
    pub terminal: Arc<AtomicSwap<Option<Ohlc>>>,
}

impl TerminalOutput {
    pub fn new(terminal: Arc<AtomicSwap<Option<Ohlc>>>) -> (r: Self)
        ensures
            r.terminal == terminal,
    {
        TerminalOutput { terminal }
    }

    /// One refresh: empties the slot into the shown candle and returns the
    /// candle to render. A candle is shown once per publish, so a stalled
    /// producer leaves the last one shown rather than a stale copy re-read.
    pub fn refresh(&self, shown: &mut Option<Ohlc>) -> (r: Option<Ohlc>)
        ensures
            *final(shown) == *old(shown) || (*final(shown)) is Some,
            r == rendered(*final(shown)),
    {
        let taken = self.terminal.swap(Box::new(None));
        display_select(*taken, shown)
    }
}

} // verus!

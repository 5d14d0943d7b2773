//! The pin capabilities the driver consumes: a fallible digital output
//! line and a fallible digital input line.
//!
//! Each capability carries an abstract history — the levels driven on an
//! output line, the levels sampled from an input line — so that the
//! driver's contracts can state exactly which waveform one call produces.

use vstd::prelude::*;

verus! {

/// A fallible digital output line.
///
/// `levels()` is the history of levels successfully driven on the line,
/// oldest first, `true` for high. A successful call appends exactly the
/// level it drove; after a failed call nothing is promised of the history
/// (the line may or may not have toggled before the fault).
pub trait OutputPin {
    /// Error raised by the pin layer; the driver never interprets it,
    /// only propagates it.
    type Error;

    /// The levels driven on this line so far, oldest first. The default
    /// is the empty history: an implementation that records its levels
    /// overrides it, one that only forwards to hardware leaves it be.
    open spec fn levels(&self) -> Seq<bool> {
        Seq::empty()
    }

    /// Drives the line low.
    fn set_low(&mut self) -> (r: Result<(), Self::Error>)
        ensures
            r is Ok ==> final(self).levels() == old(self).levels().push(false),
    ;

    /// Drives the line high.
    fn set_high(&mut self) -> (r: Result<(), Self::Error>)
        ensures
            r is Ok ==> final(self).levels() == old(self).levels().push(true),
    ;
}

/// A fallible digital input line.
///
/// `reads()` is the history of levels sampled from the line, oldest first.
/// Each sample is a fresh observation of the outside world: nothing
/// relates one read to the next, only that a successful call appends the
/// value it returned.
pub trait InputPin {
    /// Error raised by the pin layer; the driver never interprets it,
    /// only propagates it.
    type Error;

    /// The levels sampled from this line so far, oldest first. The
    /// default is the empty history: an implementation that records its
    /// samples overrides it, one that only forwards to hardware leaves
    /// it be.
    open spec fn reads(&self) -> Seq<bool> {
        Seq::empty()
    }

    /// Samples the line; `Ok(true)` means the line is high.
    fn is_high(&mut self) -> (r: Result<bool, Self::Error>)
        ensures
            r is Ok ==> final(self).reads() == old(self).reads().push(r->Ok_0),
    ;
}

} // verus!

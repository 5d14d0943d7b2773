//! In-memory pin implementations for exercising the driver without
//! hardware: a recording output line and a scripted input line, each able
//! to raise a fault on a chosen operation.

use vstd::prelude::*;

use crate::pins::InputPin;
use crate::pins::OutputPin;

verus! {

/// The fault a simulated pin raises; the driver propagates it unchanged.
#[derive(Debug, Clone, Copy, PartialEq, Eq)]
pub struct SimFault;

/// A recording digital output line: every level successfully driven is
/// appended to an in-memory log. The line can be told to fail exactly one
/// operation, by its 0-based position in the sequence of `set_low` and
/// `set_high` calls; every other operation succeeds.
pub struct SimOutputPin {
    log: Vec<bool>,
    ops: u64,
    fail_at_op: Option<u64>,
}

impl SimOutputPin {
    /// A line that never fails, with an empty log.
    pub fn new() -> (r: Self)
        ensures
            r.levels() == Seq::<bool>::empty(),
    {
        let r = SimOutputPin { log: Vec::new(), ops: 0, fail_at_op: None };
        proof {
            assert(r.log@ =~= Seq::<bool>::empty());
        }
        r
    }

    /// A line whose operation number `op` (0-based) fails; all others
    /// succeed. The log starts empty.
    pub fn failing_at(op: u64) -> (r: Self)
        ensures
            r.levels() == Seq::<bool>::empty(),
    {
        let r = SimOutputPin { log: Vec::new(), ops: 0, fail_at_op: Some(op) };
        proof {
            assert(r.log@ =~= Seq::<bool>::empty());
        }
        r
    }

    /// The levels driven on the line so far, oldest first.
    pub fn log(&self) -> (r: &Vec<bool>)
        ensures
            r@ == self.levels(),
    {
        &self.log
    }

    /// Counts this call's operation number and says whether it is the one
    /// scheduled to fail. The log is not touched.
    fn advance_op(&mut self) -> (fail: bool)
        ensures
            final(self).log@ == old(self).log@,
    {
        let fail = match self.fail_at_op {
            Some(n) => n == self.ops,
            None => false,
        };
        if self.ops < u64::MAX {
            self.ops = self.ops + 1;
        }
        fail
    }
}

impl OutputPin for SimOutputPin {
    type Error = SimFault;

    closed spec fn levels(&self) -> Seq<bool> {
        self.log@
    }

    fn set_low(&mut self) -> (r: Result<(), SimFault>) {
        if self.advance_op() {
            Err(SimFault)
        } else {
            self.log.push(false);
            Ok(())
        }
    }

    fn set_high(&mut self) -> (r: Result<(), SimFault>) {
        if self.advance_op() {
            Err(SimFault)
        } else {
            self.log.push(true);
            Ok(())
        }
    }
}

/// A scripted digital input line: each sample returns the next value of
/// the script, in order, and a sample past the end of the script fails.
pub struct SimInputPin {
    script: Vec<bool>,
    pos: usize,
}

impl SimInputPin {
    /// A line that answers with `script`, one value per sample, oldest
    /// first, and fails once the script is exhausted.
    pub fn with_script(script: Vec<bool>) -> (r: Self)
        ensures
            r.reads() == Seq::<bool>::empty(),
    {
        let r = SimInputPin { script, pos: 0 };
        proof {
            assert(r.script@.take(0) =~= Seq::<bool>::empty());
        }
        r
    }
}

impl InputPin for SimInputPin {
    type Error = SimFault;

    closed spec fn reads(&self) -> Seq<bool> {
        self.script@.take(self.pos as int)
    }

    fn is_high(&mut self) -> (r: Result<bool, SimFault>) {
        if self.pos < self.script.len() {
            let v = self.script[self.pos];
            self.pos = self.pos + 1;
            proof {
                assert(self.script@.take(self.pos as int) =~= old(self).script@.take(
                    old(self).pos as int,
                ).push(v));
            }
            Ok(v)
        } else {
            Err(SimFault)
        }
    }
}

} // verus!

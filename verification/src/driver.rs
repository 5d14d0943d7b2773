//! The operator-box driver: a 16-bit output mirror and the shift-and-latch
//! protocol that commits it to the two register chains while sampling the
//! eight button inputs.

use vstd::prelude::*;

use crate::display::spec_segment_pattern;
use crate::display::SegmentDisplay;
use crate::pins::InputPin;
use crate::pins::OutputPin;

verus! {

/// The waveform that `n` clock pulses drive on the clock line: each pulse
/// is low then high, so the sequence has `2 * n` entries, low on even
/// positions and high on odd ones.
pub open spec fn clock_pulses(n: nat) -> Seq<bool> {
    Seq::new(2 * n, |i: int| i % 2 == 1)
}

/// The output state after the seven segment levels of `display` are
/// written into slots 8 through 14: slots 0 through 7 (chain A) and the
/// reserved slot 15 keep their old values.
pub open spec fn spec_with_display(s: Seq<bool>, display: SegmentDisplay) -> Seq<bool> {
    s.take(8) + spec_segment_pattern(display) + s.skip(15)
}

/// Driver for the operator box.
///
/// Owns the three control lines (clock, latch, serial data out), the
/// serial data-in line, and a 16-slot mirror of the desired output state:
/// slots 0 through 7 drive chain A's indicators, slots 8 through 14 the
/// seven display segments, and slot 15 is reserved (chain B is eight bits
/// wide but only seven segments exist).
pub struct OpBox<I: InputPin, O: OutputPin> {
    clk_pin: O,
    latch_pin: O,
    output_pin: O,
    input_pin: I,
    state_out: [bool; 16],
}

impl<E, I: InputPin<Error = E>, O: OutputPin<Error = E>> OpBox<I, O> {
    /// The in-memory mirror of the 16 desired output bits.
    pub closed spec fn state(self) -> Seq<bool> {
        self.state_out@
    }

    /// The levels driven on the clock line so far.
    pub closed spec fn clock_levels(self) -> Seq<bool> {
        self.clk_pin.levels()
    }

    /// The levels driven on the latch line so far.
    pub closed spec fn latch_levels(self) -> Seq<bool> {
        self.latch_pin.levels()
    }

    /// The levels driven on the serial data-out line so far.
    pub closed spec fn data_levels(self) -> Seq<bool> {
        self.output_pin.levels()
    }

    /// The levels sampled from the serial data-in line so far.
    pub closed spec fn input_reads(self) -> Seq<bool> {
        self.input_pin.reads()
    }

    /// The output mirror always holds exactly 16 slots.
    pub proof fn lemma_state_len(self)
        ensures
            self.state().len() == 16,
    {
    }

    /// Exactly one successful shift-and-latch cycle happened between `pre`
    /// and `post`: the latch line went low then high once, the clock line
    /// pulsed low-then-high exactly 16 times, the 16 state bits were
    /// driven on the data line in ascending slot order (slot 0 first), and
    /// exactly 8 fresh samples were taken from the data-in line.
    pub open spec fn transmitted(pre: Self, post: Self) -> bool {
        &&& post.latch_levels() == pre.latch_levels() + seq![false, true]
        &&& post.clock_levels() == pre.clock_levels() + clock_pulses(16)
        &&& post.data_levels() == pre.data_levels() + post.state()
        &&& post.input_reads().len() == pre.input_reads().len() + 8
        &&& post.input_reads().take(pre.input_reads().len() as int) == pre.input_reads()
    }

    /// Creates a new driver with the given pins and commits an all-off
    /// baseline to the hardware with exactly one shift-and-latch cycle.
    /// Any pin fault during that cycle aborts construction and is returned
    /// unchanged; no driver value is handed out then.
    pub fn new(clk_pin: O, latch_pin: O, output_pin: O, input_pin: I) -> (r: Result<Self, E>)
        ensures
            r is Ok ==> {
                let d = r->Ok_0;
                &&& d.state() == Seq::new(16, |j: int| false)
                &&& d.latch_levels() == latch_pin.levels() + seq![false, true]
                &&& d.clock_levels() == clk_pin.levels() + clock_pulses(16)
                &&& d.data_levels() == output_pin.levels() + d.state()
                &&& d.input_reads().len() == input_pin.reads().len() + 8
                &&& d.input_reads().take(input_pin.reads().len() as int) == input_pin.reads()
            },
    {
        let mut driver = Self {
            clk_pin,
            latch_pin,
            output_pin,
            input_pin,
            state_out: [false; 16],
        };
        proof {
            assert(driver.state_out@ =~= Seq::new(16, |j: int| false));
        }

        match driver.set_get_shift_registers() {
            Ok(_) => Ok(driver),
            Err(e) => Err(e),
        }
    }

    /// Writes `state` to slot `idx` of the output mirror, then re-transmits
    /// and re-latches all 16 bits. The mirror keeps the new value even when
    /// the cycle fails: the desired state is committed before the transfer
    /// begins and is not rolled back.
    fn set_slot(&mut self, idx: usize, state: bool) -> (r: Result<(), E>)
        requires
            idx < 16,
        ensures
            final(self).state() == old(self).state().update(idx as int, state),
            r is Ok ==> Self::transmitted(*old(self), *final(self)),
    {
        self.state_out[idx] = state;
        match self.set_get_shift_registers() {
            Ok(_) => Ok(()),
            Err(e) => Err(e),
        }
    }

    /// Sets indicator 1 (chain A, slot 0), then re-transmits all 16 bits.
    pub fn set_d1(&mut self, state: bool) -> (r: Result<(), E>)
        ensures
            final(self).state() == old(self).state().update(0, state),
            r is Ok ==> Self::transmitted(*old(self), *final(self)),
    {
        self.set_slot(0, state)
    }

    /// Sets indicator 2 (chain A, slot 1), then re-transmits all 16 bits.
    pub fn set_d2(&mut self, state: bool) -> (r: Result<(), E>)
        ensures
            final(self).state() == old(self).state().update(1, state),
            r is Ok ==> Self::transmitted(*old(self), *final(self)),
    {
        self.set_slot(1, state)
    }

    /// Sets indicator 3 (chain A, slot 2), then re-transmits all 16 bits.
    pub fn set_d3(&mut self, state: bool) -> (r: Result<(), E>)
        ensures
            final(self).state() == old(self).state().update(2, state),
            r is Ok ==> Self::transmitted(*old(self), *final(self)),
    {
        self.set_slot(2, state)
    }

    /// Sets indicator 4 (chain A, slot 3), then re-transmits all 16 bits.
    pub fn set_d4(&mut self, state: bool) -> (r: Result<(), E>)
        ensures
            final(self).state() == old(self).state().update(3, state),
            r is Ok ==> Self::transmitted(*old(self), *final(self)),
    {
        self.set_slot(3, state)
    }

    /// Sets indicator 5 (chain A, slot 4), then re-transmits all 16 bits.
    pub fn set_d5(&mut self, state: bool) -> (r: Result<(), E>)
        ensures
            final(self).state() == old(self).state().update(4, state),
            r is Ok ==> Self::transmitted(*old(self), *final(self)),
    {
        self.set_slot(4, state)
    }

    /// Sets indicator 6 (chain A, slot 5), then re-transmits all 16 bits.
    pub fn set_d6(&mut self, state: bool) -> (r: Result<(), E>)
        ensures
            final(self).state() == old(self).state().update(5, state),
            r is Ok ==> Self::transmitted(*old(self), *final(self)),
    {
        self.set_slot(5, state)
    }

    /// Sets indicator 7 (chain A, slot 6), then re-transmits all 16 bits.
    pub fn set_d7(&mut self, state: bool) -> (r: Result<(), E>)
        ensures
            final(self).state() == old(self).state().update(6, state),
            r is Ok ==> Self::transmitted(*old(self), *final(self)),
    {
        self.set_slot(6, state)
    }

    /// Sets indicator 8 (chain A, slot 7), then re-transmits all 16 bits.
    pub fn set_d8(&mut self, state: bool) -> (r: Result<(), E>)
        ensures
            final(self).state() == old(self).state().update(7, state),
            r is Ok ==> Self::transmitted(*old(self), *final(self)),
    {
        self.set_slot(7, state)
    }

    /// Sets the reserved ninth indicator slot (chain B, slot 8), then
    /// re-transmits all 16 bits. Slot 8 is shared with the display's first
    /// segment, so the next display write overwrites it.
    pub fn set_d9(&mut self, state: bool) -> (r: Result<(), E>)
        ensures
            final(self).state() == old(self).state().update(8, state),
            r is Ok ==> Self::transmitted(*old(self), *final(self)),
    {
        self.set_slot(8, state)
    }

    /// Resolves `display` to its seven segment levels, writes them into
    /// slots 8 through 14 (slot 15 stays reserved), then re-transmits all
    /// 16 bits. As with the indicator setters, the mirror keeps the new
    /// pattern even when the cycle fails.
    pub fn set_segment_display(&mut self, display: SegmentDisplay) -> (r: Result<(), E>)
        ensures
            final(self).state() == spec_with_display(old(self).state(), display),
            r is Ok ==> Self::transmitted(*old(self), *final(self)),
    {
        let display_state = display.segment_pattern();

        self.state_out[8] = display_state[0];
        self.state_out[9] = display_state[1];
        self.state_out[10] = display_state[2];
        self.state_out[11] = display_state[3];
        self.state_out[12] = display_state[4];
        self.state_out[13] = display_state[5];
        self.state_out[14] = display_state[6];
        proof {
            assert(self.state_out@ =~= spec_with_display(old(self).state_out@, display));
        }

        match self.set_get_shift_registers() {
            Ok(_) => Ok(()),
            Err(e) => Err(e),
        }
    }

    /// Performs one shift-and-latch cycle — re-transmitting the unchanged
    /// output mirror — and returns the freshly sampled value of button
    /// `idx`. The mirror is never altered by a read.
    fn get_button(&mut self, idx: usize) -> (r: Result<bool, E>)
        requires
            idx < 8,
        ensures
            final(self).state() == old(self).state(),
            r is Ok ==> Self::transmitted(*old(self), *final(self)),
            r is Ok ==> r->Ok_0 == final(self).input_reads()[
                old(self).input_reads().len() as int + idx
            ],
    {
        match self.set_get_shift_registers() {
            Ok(inputs) => Ok(inputs[idx]),
            Err(e) => Err(e),
        }
    }

    /// Reads button 1; the cycle it runs re-transmits the current outputs.
    pub fn get_s1(&mut self) -> (r: Result<bool, E>)
        ensures
            final(self).state() == old(self).state(),
            r is Ok ==> Self::transmitted(*old(self), *final(self)),
            r is Ok ==> r->Ok_0 == final(self).input_reads()[
                old(self).input_reads().len() as int + 0
            ],
    {
        self.get_button(0)
    }

    /// Reads button 2; the cycle it runs re-transmits the current outputs.
    pub fn get_s2(&mut self) -> (r: Result<bool, E>)
        ensures
            final(self).state() == old(self).state(),
            r is Ok ==> Self::transmitted(*old(self), *final(self)),
            r is Ok ==> r->Ok_0 == final(self).input_reads()[
                old(self).input_reads().len() as int + 1
            ],
    {
        self.get_button(1)
    }

    /// Reads button 3; the cycle it runs re-transmits the current outputs.
    pub fn get_s3(&mut self) -> (r: Result<bool, E>)
        ensures
            final(self).state() == old(self).state(),
            r is Ok ==> Self::transmitted(*old(self), *final(self)),
            r is Ok ==> r->Ok_0 == final(self).input_reads()[
                old(self).input_reads().len() as int + 2
            ],
    {
        self.get_button(2)
    }

    /// Reads button 4; the cycle it runs re-transmits the current outputs.
    pub fn get_s4(&mut self) -> (r: Result<bool, E>)
        ensures
            final(self).state() == old(self).state(),
            r is Ok ==> Self::transmitted(*old(self), *final(self)),
            r is Ok ==> r->Ok_0 == final(self).input_reads()[
                old(self).input_reads().len() as int + 3
            ],
    {
        self.get_button(3)
    }

    /// Reads button 5; the cycle it runs re-transmits the current outputs.
    pub fn get_s5(&mut self) -> (r: Result<bool, E>)
        ensures
            final(self).state() == old(self).state(),
            r is Ok ==> Self::transmitted(*old(self), *final(self)),
            r is Ok ==> r->Ok_0 == final(self).input_reads()[
                old(self).input_reads().len() as int + 4
            ],
    {
        self.get_button(4)
    }

    /// Reads button 6; the cycle it runs re-transmits the current outputs.
    pub fn get_s6(&mut self) -> (r: Result<bool, E>)
        ensures
            final(self).state() == old(self).state(),
            r is Ok ==> Self::transmitted(*old(self), *final(self)),
            r is Ok ==> r->Ok_0 == final(self).input_reads()[
                old(self).input_reads().len() as int + 5
            ],
    {
        self.get_button(5)
    }

    /// Reads button 7; the cycle it runs re-transmits the current outputs.
    pub fn get_s7(&mut self) -> (r: Result<bool, E>)
        ensures
            final(self).state() == old(self).state(),
            r is Ok ==> Self::transmitted(*old(self), *final(self)),
            r is Ok ==> r->Ok_0 == final(self).input_reads()[
                old(self).input_reads().len() as int + 6
            ],
    {
        self.get_button(6)
    }

    /// Reads button 8; the cycle it runs re-transmits the current outputs.
    pub fn get_s8(&mut self) -> (r: Result<bool, E>)
        ensures
            final(self).state() == old(self).state(),
            r is Ok ==> Self::transmitted(*old(self), *final(self)),
            r is Ok ==> r->Ok_0 == final(self).input_reads()[
                old(self).input_reads().len() as int + 7
            ],
    {
        self.get_button(7)
    }

    /// Releases the pin handles in the order they were given to `new`:
    /// clock, latch, serial data out, serial data in.
    pub fn release(self) -> (r: (O, O, O, I))
        ensures
            r.0.levels() == self.clock_levels(),
            r.1.levels() == self.latch_levels(),
            r.2.levels() == self.data_levels(),
            r.3.reads() == self.input_reads(),
    {
        (self.clk_pin, self.latch_pin, self.output_pin, self.input_pin)
    }

    /// One shift-and-latch cycle: drives the latch low, clocks the 16
    /// state bits out in ascending slot order — sampling the data-in line
    /// after each of the first 8 rising edges — then drives the latch high
    /// to commit both chains. The first pin fault aborts the cycle and is
    /// returned; the in-memory state is never touched either way.
    #[verifier::loop_isolation(false)]
    fn set_get_shift_registers(&mut self) -> (r: Result<Vec<bool>, E>)
        ensures
            final(self).state() == old(self).state(),
            r is Ok ==> Self::transmitted(*old(self), *final(self)),
            r is Ok ==> r->Ok_0@ == final(self).input_reads().skip(
                old(self).input_reads().len() as int,
            ),
    {
        self.latch_pin.set_low()?;

        let mut inputs: Vec<bool> = Vec::new();

        let mut i: usize = 0;
        while i < 8
            invariant
                i <= 8,
                self.state_out@ == old(self).state_out@,
                self.latch_pin.levels() == old(self).latch_pin.levels().push(false),
                self.clk_pin.levels() == old(self).clk_pin.levels() + clock_pulses(i as nat),
                self.output_pin.levels() == old(self).output_pin.levels() + old(
                    self,
                ).state_out@.take(i as int),
                inputs@.len() == i,
                self.input_pin.reads() == old(self).input_pin.reads() + inputs@,
            decreases 8 - i,
        {
            self.clk_pin.set_low()?;
            if self.state_out[i] {
                self.output_pin.set_high()?;
            } else {
                self.output_pin.set_low()?;
            }
            self.clk_pin.set_high()?;
            let b = self.input_pin.is_high()?;
            inputs.push(b);
            proof {
                assert(self.clk_pin.levels() =~= old(self).clk_pin.levels() + clock_pulses(
                    (i + 1) as nat,
                ));
                assert(self.output_pin.levels() =~= old(self).output_pin.levels() + old(
                    self,
                ).state_out@.take(i + 1));
            }
            i = i + 1;
        }

        while i < 16
            invariant
                8 <= i <= 16,
                self.state_out@ == old(self).state_out@,
                self.latch_pin.levels() == old(self).latch_pin.levels().push(false),
                self.clk_pin.levels() == old(self).clk_pin.levels() + clock_pulses(i as nat),
                self.output_pin.levels() == old(self).output_pin.levels() + old(
                    self,
                ).state_out@.take(i as int),
                inputs@.len() == 8,
                self.input_pin.reads() == old(self).input_pin.reads() + inputs@,
            decreases 16 - i,
        {
            self.clk_pin.set_low()?;
            if self.state_out[i] {
                self.output_pin.set_high()?;
            } else {
                self.output_pin.set_low()?;
            }
            self.clk_pin.set_high()?;
            proof {
                assert(self.clk_pin.levels() =~= old(self).clk_pin.levels() + clock_pulses(
                    (i + 1) as nat,
                ));
                assert(self.output_pin.levels() =~= old(self).output_pin.levels() + old(
                    self,
                ).state_out@.take(i + 1));
            }
            i = i + 1;
        }

        self.latch_pin.set_high()?;

        proof {
            assert(self.latch_pin.levels() =~= old(self).latch_pin.levels() + seq![false, true]);
            assert(old(self).state_out@.take(16) =~= self.state_out@);
            assert(self.input_pin.reads().take(old(self).input_pin.reads().len() as int)
                =~= old(self).input_pin.reads());
            assert(inputs@ =~= self.input_pin.reads().skip(
                old(self).input_pin.reads().len() as int,
            ));
        }
        Ok(inputs)
    }
}

} // verus!

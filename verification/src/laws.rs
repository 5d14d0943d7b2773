//! Laws of the driver, stated over the same spec functions its contracts
//! use: last-write-wins for the output mirror, the shape of one cycle's
//! clock waveform, and the loopback round trip of chain A.

use vstd::prelude::*;

use crate::driver::clock_pulses;
use crate::driver::OpBox;
use crate::pins::InputPin;
use crate::pins::OutputPin;

verus! {

/// The output mirror after the writes in `writes` are applied to `s0` in
/// order, each write setting slot `.0` to value `.1` — exactly what a run
/// of indicator-setter calls does to the mirror.
pub open spec fn apply_writes(s0: Seq<bool>, writes: Seq<(int, bool)>) -> Seq<bool>
    decreases writes.len(),
{
    if writes.len() == 0 {
        s0
    } else {
        apply_writes(s0, writes.drop_last()).update(writes.last().0, writes.last().1)
    }
}

/// The position in `writes` of the last write that touches slot `k`, or
/// `-1` when none does.
pub open spec fn last_write_to(writes: Seq<(int, bool)>, k: int) -> int
    decreases writes.len(),
{
    if writes.len() == 0 {
        -1
    } else if writes.last().0 == k {
        writes.len() - 1
    } else {
        last_write_to(writes.drop_last(), k)
    }
}

/// One more write: the mirror after `writes` and then `(k, v)` is the
/// mirror after `writes` with slot `k` updated — the very shape of each
/// setter's contract, so a run of setter calls applies its writes in
/// call order.
pub proof fn lemma_apply_writes_push(s0: Seq<bool>, writes: Seq<(int, bool)>, k: int, v: bool)
    ensures
        apply_writes(s0, writes.push((k, v))) == apply_writes(s0, writes).update(k, v),
{
    assert(writes.push((k, v)).drop_last() =~= writes);
}

/// Last write wins: after any sequence of in-range slot writes, the mirror
/// keeps its length, a slot that was touched holds the value of the last
/// write that touched it, and an untouched slot holds its original value.
pub proof fn lemma_last_write_wins(s0: Seq<bool>, writes: Seq<(int, bool)>, k: int)
    requires
        0 <= k < s0.len(),
        forall|i: int| 0 <= i < writes.len() ==> 0 <= (#[trigger] writes[i]).0 < s0.len(),
    ensures
        apply_writes(s0, writes).len() == s0.len(),
        last_write_to(writes, k) >= 0 ==> {
            &&& 0 <= last_write_to(writes, k) < writes.len()
            &&& writes[last_write_to(writes, k)].0 == k
            &&& apply_writes(s0, writes)[k] == writes[last_write_to(writes, k)].1
        },
        last_write_to(writes, k) < 0 ==> apply_writes(s0, writes)[k] == s0[k],
        last_write_to(writes, k) < 0 ==> forall|i: int|
            0 <= i < writes.len() ==> (#[trigger] writes[i]).0 != k,
    decreases writes.len(),
{
    if writes.len() > 0 {
        lemma_last_write_wins(s0, writes.drop_last(), k);
        if writes.last().0 != k {
            let lw = last_write_to(writes.drop_last(), k);
            if lw >= 0 {
                assert(writes[lw] == writes.drop_last()[lw]);
            } else {
                assert forall|i: int| 0 <= i < writes.len() implies (#[trigger] writes[i]).0
                    != k by {
                    if i < writes.len() - 1 {
                        assert(writes[i] == writes.drop_last()[i]);
                    }
                }
            }
        }
    }
}

/// One cycle pulses the clock low-then-high exactly `n` times: the
/// waveform has `2 * n` edges, low on even positions and high on odd
/// ones, so each of the `n` pulses is one low edge followed by one high
/// edge, in order. A shift-and-latch cycle drives `clock_pulses(16)`.
pub proof fn lemma_clock_waveform(n: nat)
    ensures
        clock_pulses(n).len() == 2 * n,
        forall|p: int|
            0 <= p < n ==> !clock_pulses(n)[#[trigger] (2 * p)] && clock_pulses(n)[2 * p + 1],
{
    assert forall|p: int| 0 <= p < n implies !clock_pulses(n)[#[trigger] (2 * p)]
        && clock_pulses(n)[2 * p + 1] by {
        assert((2 * p) % 2 == 0);
        assert((2 * p + 1) % 2 == 1);
    }
}

/// Loopback round trip for chain A: during one cycle the driver samples
/// the data-in line once after each of the first eight rising clock edges,
/// right after driving that slot's bit on the data-out line. So if the
/// data-out line is wired back to the sampler — the cycle's i-th sample
/// seeing the cycle's i-th driven bit — the cycle's input sample
/// reproduces slots 0 through 7 of the output state exactly, in order.
pub proof fn lemma_loopback_round_trip<E, I: InputPin<Error = E>, O: OutputPin<Error = E>>(
    pre: OpBox<I, O>,
    post: OpBox<I, O>,
    sample: Seq<bool>,
)
    requires
        OpBox::transmitted(pre, post),
        sample == post.input_reads().skip(pre.input_reads().len() as int),
        forall|i: int|
            0 <= i < 8 ==> post.input_reads()[#[trigger] (pre.input_reads().len() + i)]
                == post.data_levels()[pre.data_levels().len() + i],
    ensures
        sample == post.state().take(8),
{
    post.lemma_state_len();
    assert(sample.len() == 8);
    assert forall|i: int| 0 <= i < 8 implies sample[i] == post.state().take(8)[i] by {
        assert(post.input_reads()[pre.input_reads().len() as int + i] == sample[i]);
        assert(post.data_levels()[pre.data_levels().len() as int + i] == post.state()[i]);
    }
    assert(sample =~= post.state().take(8));
}

} // verus!

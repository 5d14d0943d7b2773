//! Fault injection: a pin-layer failure aborts the running cycle, surfaces
//! unchanged, and never rolls back the in-memory output state.

use opbox::OpBox;
use opbox::SimFault;
use opbox::SimInputPin;
use opbox::SimOutputPin;

#[test]
fn clock_fault_aborts_a_getter_cycle() {
    // The initial cycle uses clock operations 0..32; the getter's cycle
    // starts at 32. Its 5th of 16 clock toggles begins at operation
    // 32 + 2 * 4 = 40: fail exactly there.
    let clk = SimOutputPin::failing_at(40);
    let latch = SimOutputPin::new();
    let dout = SimOutputPin::new();
    let din = SimInputPin::with_script(vec![false; 3 * 8]);

    let mut driver = OpBox::new(clk, latch, dout, din).unwrap();
    assert_eq!(driver.get_s1(), Err(SimFault));

    // The aborted cycle drove only the four bits before the fault; the
    // next successful cycle re-transmits the unchanged all-off state.
    driver.get_s2().unwrap();
    let (clk, latch, dout, _din) = driver.release();
    assert_eq!(dout.log().len(), 16 + 4 + 16);
    assert_eq!(dout.log()[20..], vec![false; 16][..]);
    // 32 edges, then 4 pulses and the failed low edge, then 32 edges.
    assert_eq!(clk.log().len(), 32 + 8 + 32);
    // The aborted cycle opened the latch window but never closed it.
    assert_eq!(*latch.log(), vec![false, true, false, false, true]);
}

#[test]
fn setter_fault_keeps_the_written_state() {
    let clk = SimOutputPin::failing_at(40);
    let latch = SimOutputPin::new();
    let dout = SimOutputPin::new();
    let din = SimInputPin::with_script(vec![false; 3 * 8]);

    let mut driver = OpBox::new(clk, latch, dout, din).unwrap();
    // The write lands in memory before the cycle runs and is not rolled
    // back when the cycle fails.
    assert_eq!(driver.set_d1(true), Err(SimFault));
    driver.set_d2(true).unwrap();

    let (_clk, _latch, dout, _din) = driver.release();
    let log = dout.log();
    let last = &log[log.len() - 16..];
    let mut expected = vec![false; 16];
    expected[0] = true;
    expected[1] = true;
    assert_eq!(last, &expected[..]);
}

#[test]
fn latch_fault_fails_before_anything_is_driven() {
    // Latch operations: two per cycle, so operation 2 is the low edge
    // that would open the second cycle.
    let clk = SimOutputPin::new();
    let latch = SimOutputPin::failing_at(2);
    let dout = SimOutputPin::new();
    let din = SimInputPin::with_script(vec![false; 2 * 8]);

    let mut driver = OpBox::new(clk, latch, dout, din).unwrap();
    assert_eq!(driver.get_s1(), Err(SimFault));

    let (clk, _latch, dout, _din) = driver.release();
    assert_eq!(dout.log().len(), 16);
    assert_eq!(clk.log().len(), 32);
}

#[test]
fn data_fault_surfaces_from_a_setter() {
    // Data-line operations: 16 per cycle; fail the first bit of the
    // second cycle.
    let clk = SimOutputPin::new();
    let latch = SimOutputPin::new();
    let dout = SimOutputPin::failing_at(16);
    let din = SimInputPin::with_script(vec![false; 2 * 8]);

    let mut driver = OpBox::new(clk, latch, dout, din).unwrap();
    assert_eq!(driver.set_d3(true), Err(SimFault));
}

#[test]
fn construction_fault_surfaces_unchanged() {
    let clk = SimOutputPin::failing_at(0);
    let latch = SimOutputPin::new();
    let dout = SimOutputPin::new();
    let din = SimInputPin::with_script(vec![false; 8]);

    assert_eq!(OpBox::new(clk, latch, dout, din).err(), Some(SimFault));
}

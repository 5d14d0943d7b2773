//! The shift-and-latch waveforms: what construction, the indicator
//! setters and the button getters drive on each line.

use opbox::OpBox;
use opbox::SimInputPin;
use opbox::SimOutputPin;

/// The clock waveform of `n` full cycles: 16 low-then-high pulses each.
fn expected_clock(n: usize) -> Vec<bool> {
    let mut v = Vec::new();
    for _ in 0..n * 16 {
        v.push(false);
        v.push(true);
    }
    v
}

fn script(cycles: usize, sample: [bool; 8]) -> Vec<bool> {
    let mut v = Vec::new();
    for _ in 0..cycles {
        v.extend_from_slice(&sample);
    }
    v
}

#[test]
fn new_runs_one_cycle_and_clears_state() {
    let clk = SimOutputPin::new();
    let latch = SimOutputPin::new();
    let dout = SimOutputPin::new();
    let din = SimInputPin::with_script(script(1, [false; 8]));

    let driver = OpBox::new(clk, latch, dout, din).unwrap();
    let (clk, latch, dout, _din) = driver.release();

    assert_eq!(*latch.log(), vec![false, true]);
    assert_eq!(*clk.log(), expected_clock(1));
    assert_eq!(*dout.log(), vec![false; 16]);
}

#[test]
fn new_fails_when_a_sample_fails() {
    let clk = SimOutputPin::new();
    let latch = SimOutputPin::new();
    let dout = SimOutputPin::new();
    // Only 3 of the 8 samples the initial cycle needs are available.
    let din = SimInputPin::with_script(vec![false, false, false]);

    assert!(OpBox::new(clk, latch, dout, din).is_err());
}

#[test]
fn setter_retransmits_all_sixteen_bits() {
    let clk = SimOutputPin::new();
    let latch = SimOutputPin::new();
    let dout = SimOutputPin::new();
    let din = SimInputPin::with_script(script(2, [false; 8]));

    let mut driver = OpBox::new(clk, latch, dout, din).unwrap();
    driver.set_d1(true).unwrap();
    let (clk, latch, dout, _din) = driver.release();

    let mut expected = vec![false; 16];
    expected.push(true);
    expected.extend_from_slice(&[false; 15]);
    assert_eq!(*dout.log(), expected);
    assert_eq!(*clk.log(), expected_clock(2));
    assert_eq!(*latch.log(), vec![false, true, false, true]);
}

#[test]
fn last_write_to_a_slot_wins() {
    let clk = SimOutputPin::new();
    let latch = SimOutputPin::new();
    let dout = SimOutputPin::new();
    let din = SimInputPin::with_script(script(5, [false; 8]));

    let mut driver = OpBox::new(clk, latch, dout, din).unwrap();
    driver.set_d1(true).unwrap();
    driver.set_d2(true).unwrap();
    driver.set_d1(false).unwrap();
    driver.set_d8(true).unwrap();
    let (_clk, _latch, dout, _din) = driver.release();

    // The last cycle transmits the mirror with d1 back off, d2 and d8 on.
    let last = &dout.log()[4 * 16..];
    let mut expected = vec![false; 16];
    expected[1] = true;
    expected[7] = true;
    assert_eq!(last, &expected[..]);
}

#[test]
fn ninth_setter_writes_the_shared_slot() {
    let clk = SimOutputPin::new();
    let latch = SimOutputPin::new();
    let dout = SimOutputPin::new();
    let din = SimInputPin::with_script(script(2, [false; 8]));

    let mut driver = OpBox::new(clk, latch, dout, din).unwrap();
    driver.set_d9(true).unwrap();
    let (_clk, _latch, dout, _din) = driver.release();

    let last = &dout.log()[16..];
    let mut expected = vec![false; 16];
    expected[8] = true;
    assert_eq!(last, &expected[..]);
}

#[test]
fn getters_return_their_button_bit() {
    let sample = [true, false, false, true, false, true, true, false];
    let clk = SimOutputPin::new();
    let latch = SimOutputPin::new();
    let dout = SimOutputPin::new();
    let din = SimInputPin::with_script(script(9, sample));

    let mut driver = OpBox::new(clk, latch, dout, din).unwrap();
    assert_eq!(driver.get_s1().unwrap(), sample[0]);
    assert_eq!(driver.get_s2().unwrap(), sample[1]);
    assert_eq!(driver.get_s3().unwrap(), sample[2]);
    assert_eq!(driver.get_s4().unwrap(), sample[3]);
    assert_eq!(driver.get_s5().unwrap(), sample[4]);
    assert_eq!(driver.get_s6().unwrap(), sample[5]);
    assert_eq!(driver.get_s7().unwrap(), sample[6]);
    assert_eq!(driver.get_s8().unwrap(), sample[7]);
}

#[test]
fn getter_retransmits_outputs_unchanged() {
    let clk = SimOutputPin::new();
    let latch = SimOutputPin::new();
    let dout = SimOutputPin::new();
    let din = SimInputPin::with_script(script(3, [true; 8]));

    let mut driver = OpBox::new(clk, latch, dout, din).unwrap();
    driver.set_d2(true).unwrap();
    driver.get_s1().unwrap();
    let (clk, latch, dout, _din) = driver.release();

    // The getter's cycle re-drives the same 16 bits the setter committed.
    assert_eq!(dout.log().len(), 3 * 16);
    assert_eq!(dout.log()[32..], dout.log()[16..32]);
    assert_eq!(*clk.log(), expected_clock(3));
    assert_eq!(*latch.log(), vec![false, true, false, true, false, true]);
}

//! Driver for a printer operator box: a panel of indicator lights, push
//! buttons and one seven-segment display, multiplexed onto four
//! microcontroller pins through two daisy-chained 8-bit shift registers.
//!
//! The driver keeps a 16-bit mirror of the desired output state and, on
//! every setter or getter call, serializes all 16 bits onto the chain while
//! sampling 8 bits of button input, then latches the result to the
//! register outputs.

pub mod display;
pub mod driver;
pub mod laws;
pub mod pins;
pub mod sim;

pub use display::SegmentDisplay;
pub use driver::OpBox;
pub use pins::InputPin;
pub use pins::OutputPin;
pub use sim::SimFault;
pub use sim::SimInputPin;
pub use sim::SimOutputPin;

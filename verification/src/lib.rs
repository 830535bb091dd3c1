//! Wake/sleep cycle firmware core, modeled over a simulated register bank.
//!
//! The library verifies the three core components of a periodically waking,
//! battery-powered device: the RTC alarm scheduler that owns the calendar
//! clock and the alarm match registers, the power-mode controller that
//! sequences the transition into the deepest halt state, and the wake state
//! machine that classifies every boot as a cold start or an alarm wake and
//! drives the other two. Hardware registers are represented as plain data so
//! that register sequences (write-protection unlock order, mask bits, the
//! flush-before-halt ordering) are stated and proved, and so that a driver or
//! a test can run the same sequences against the model.

pub mod alarm;
pub mod datetime;
pub mod device;
pub mod machine;
pub mod power;
pub mod rtc;

//! Supervision and rotation-measurement logic of an onboard vehicle computer.
//!
//! The hardware (watchdog registers, the reset-surviving crash region, edge
//! inputs, the clock and the scheduler) is driven by the firmware binary; this
//! library decides what to do with the values it reads.
pub mod values;
pub mod physics;
pub mod watchdog;
pub mod crash;
pub mod boot;
pub mod rotation;

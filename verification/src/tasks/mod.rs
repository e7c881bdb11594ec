//! Decisions of the firmware tasks.

pub mod blinky;
pub mod bxcan;
pub mod pictrans;
pub mod rxbuf;

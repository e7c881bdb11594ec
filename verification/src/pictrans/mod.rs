//! Payloads of the image transmission link.

/// 0x0302 - Custom to Robot
pub mod custom;

/// 0x0304 - Remote Control
pub mod remote;

pub use custom::Custom2Robot;
pub use remote::RemoteControl;

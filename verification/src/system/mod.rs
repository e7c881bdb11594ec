//! Device health monitoring and system mode.

pub mod devices;
pub mod heartbeat;
pub mod status;

pub use devices::{Device, Display, Health, Watch};
pub use heartbeat::HeartBeat;
pub use status::{SysMode, SysStatus};

pub mod health;

//! CAN bus motor protocols.

pub mod dajiang;
pub mod damiao;
pub mod feedback;

pub use dajiang::{DjiCtrl, DjiMotor};
pub use damiao::{DaMiaoCtrl, DaMiaoMotor, DaMiaoState};

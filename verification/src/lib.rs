//! Framing and payload codecs for the DJI RoboMaster referee link.
use vstd::prelude::*;

pub mod bytes;
pub mod cell;
pub mod crc;
pub mod error;
pub mod frame;
pub mod gentrans;
pub mod motor;
pub mod msger;
pub mod pictrans;
pub mod system;
pub mod tasks;
pub mod ui;

pub use crc::{calc_dji16, calc_dji8};
pub use error::Error;
pub use frame::{DjiValidator, Marshaler, RawFrame, Validator};
pub use msger::Messager;

verus! {
} // verus!

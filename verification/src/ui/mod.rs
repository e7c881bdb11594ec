//! Client user interface commands sent by the robot.

pub mod common;

pub mod delete_layer;
pub mod draw_figure;

pub use common::{AsCommand, Command, Interaction};

//! Dispatch of the frames that the first CAN bus receives: feedback of the
//! watched DJI motor is stored, everything else is logged.
use vstd::prelude::*;

use crate::motor::dajiang::{dji_feedback, spec_dji_feedback};

verus! {

/// Identifier of a received CAN frame.
#[derive(Debug, Clone, Copy, PartialEq, Eq)]
pub enum CanId {
    /// An 11-bit standard identifier.
    Standard(u16),
    /// A 29-bit extended identifier.
    Extended(u32),
}

/// What the receiver does with a frame.
#[derive(Debug, Clone, Copy, PartialEq, Eq)]
pub enum CanRxAction {
    /// Store this feedback value for the motor.
    Feedback(u64),
    /// The frame has the motor's identifier but carries no feedback: warn.
    BadFeedback,
    /// Any other frame: log it.
    Log,
}

/// The action for a frame with identifier `id` and data `data`, when the
/// watched motor sends its feedback with standard identifier `motor_id`.
pub open spec fn spec_can1_action(id: CanId, data: Seq<u8>, motor_id: u16) -> CanRxAction {
    match id {
        CanId::Standard(raw) => if raw == motor_id {
            match spec_dji_feedback(data) {
                Some(v) => CanRxAction::Feedback(v),
                None => CanRxAction::BadFeedback,
            }
        } else {
            CanRxAction::Log
        },
        CanId::Extended(_) => CanRxAction::Log,
    }
}

/// Decide what to do with a frame received on the first CAN bus.
pub fn can1_action(id: CanId, data: &[u8], motor_id: u16) -> (r: CanRxAction)
    ensures
        r == spec_can1_action(id, data@, motor_id),
{
    match id {
        CanId::Standard(raw) => {
            if raw == motor_id {
                match dji_feedback(data) {
                    Some(v) => CanRxAction::Feedback(v),
                    None => CanRxAction::BadFeedback,
                }
            } else {
                CanRxAction::Log
            }
        },
        CanId::Extended(_) => CanRxAction::Log,
    }
}

} // verus!

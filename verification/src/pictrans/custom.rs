//! 0x0302 - Custom controller to robot.
use vstd::prelude::*;

verus! {

/// Custom robot controller to the controlled robot: at most 30 bytes, sent
/// at 30Hz. Its payload layout is not defined yet.
#[derive(Debug)]
pub struct Custom2Robot {}

impl Custom2Robot {
    /// Command ID of this payload.
    pub const CMD_ID: u16 = 0x0302;
}

} // verus!

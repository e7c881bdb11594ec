//! DJI M3508 / GM6020 motor control.
use vstd::prelude::*;

use crate::bytes::{i16_bits, i16_from_bits, i16_of_bits, i16_to_bits, le_value};
use crate::motor::feedback::{fb_be16, fb_byte, lemma_fb_shifts, lemma_swap16, read_feedback, FEEDBACK_LEN};

verus! {

/// A standard CAN data frame: its 11-bit identifier and its data bytes.
#[derive(Debug, Clone, PartialEq, Eq)]
pub struct CanFrame {
    pub id: u16,
    pub data: Vec<u8>,
}

/// Largest standard (11-bit) CAN identifier.
pub const MAX_STANDARD_ID: u16 = 0x7FF;

/// Big-endian two's complement bytes of an `i16`.
pub open spec fn be_i16(v: i16) -> Seq<u8> {
    seq![(i16_bits(v) / 256) as u8, (i16_bits(v) % 256) as u8]
}

pub(crate) fn i16_to_be(v: i16) -> (r: [u8; 2])
    ensures
        r@ == be_i16(v),
{
    let u = i16_to_bits(v);
    let r = [(u / 256) as u8, (u % 256) as u8];
    assert(r@ =~= be_i16(v));
    r
}

/// The feedback value that a DJI motor frame with data `data` carries: its
/// eight bytes read little endian; none for data of another length.
pub open spec fn spec_dji_feedback(data: Seq<u8>) -> Option<u64> {
    if data.len() != FEEDBACK_LEN {
        None
    } else {
        Some(le_value(data) as u64)
    }
}

/// Read the feedback value of a DJI motor frame.
pub fn dji_feedback(data: &[u8]) -> (r: Option<u64>)
    ensures
        r == spec_dji_feedback(data@),
{
    if data.len() != FEEDBACK_LEN {
        return None;
    }
    Some(read_feedback(data))
}

/// Feedback of a DJI M3508 or GM6020 motor, kept as the raw feedback value.
///
/// The frame holds, big endian: the rotor position in data bytes 0 and 1
/// (8192 steps per turn), the speed in RPM in bytes 2 and 3, the torque
/// current in bytes 4 and 5, and the temperature in byte 6.
pub trait DjiMotor {
    /// Motor master ID: the identifier of its feedback frames.
    const MSTID: u16;

    /// The raw feedback that `get_raw` returns. Each motor type states its
    /// own; left unstated, nothing can be proved of its feedback.
    closed spec fn spec_raw(&self) -> u64 {
        arbitrary()
    }

    /// Get the raw 64-bit data from the motor.
    fn get_raw(&self) -> (r: u64)
        ensures
            r == self.spec_raw(),
    ;

    /// Rotor position, in 1/8192 of a turn.
    fn pos_raw(&self) -> (r: u16)
        ensures
            r == fb_be16(self.spec_raw(), 0),
    {
        let raw = self.get_raw();
        let pos = (raw & 0xFFFF) as u16;
        assert(raw & 0xFFFF == (raw >> 0u64) & 0xFFFF) by (bit_vector);
        proof {
            lemma_fb_shifts(raw);
            assert(raw >> 0u64 == raw) by (bit_vector);
            lemma_swap16(raw, 0, fb_byte(raw, 0), fb_byte(raw, 1));
        }
        (pos << 8) | (pos >> 8)
    }

    /// Rotor speed in RPM.
    fn vel_raw(&self) -> (r: i16)
        ensures
            r == i16_of_bits(fb_be16(self.spec_raw(), 2)),
    {
        let raw = self.get_raw();
        let vel = ((raw >> 16) & 0xFFFF) as u16;
        proof {
            lemma_fb_shifts(raw);
            lemma_swap16(raw, 16, fb_byte(raw, 2), fb_byte(raw, 3));
        }
        i16_from_bits((vel << 8) | (vel >> 8))
    }

    /// Torque current, in 1/16384 of 20 A.
    fn tor_raw(&self) -> (r: i16)
        ensures
            r == i16_of_bits(fb_be16(self.spec_raw(), 4)),
    {
        let raw = self.get_raw();
        let tor = ((raw >> 32) & 0xFFFF) as u16;
        proof {
            lemma_fb_shifts(raw);
            lemma_swap16(raw, 32, fb_byte(raw, 4), fb_byte(raw, 5));
        }
        i16_from_bits((tor << 8) | (tor >> 8))
    }

    /// Temperature in Celsius.
    fn temp(&self) -> (r: u8)
        ensures
            r == fb_byte(self.spec_raw(), 6),
    {
        let raw = self.get_raw();
        proof {
            lemma_fb_shifts(raw);
        }
        ((raw >> 48) & 0xFF) as u8
    }
}

/// Current control of a group of four DJI motors.
pub trait DjiCtrl {
    /// Control command ID.
    const CANID: u16;

    /// The frame that sets the currents of motors A, B, C and D (IDs 1 to 4,
    /// or 5 to 8), each big endian.
    fn set_cur(current: (i16, i16, i16, i16)) -> (r: CanFrame)
        requires
            Self::CANID <= MAX_STANDARD_ID,
        ensures
            r.id == Self::CANID,
            r.data@ == be_i16(current.0) + be_i16(current.1) + be_i16(current.2) + be_i16(
                current.3,
            ),
    {
        let crt_1 = i16_to_be(current.0);
        let crt_2 = i16_to_be(current.1);
        let crt_3 = i16_to_be(current.2);
        let crt_4 = i16_to_be(current.3);
        let data = vec![crt_1[0], crt_1[1], crt_2[0], crt_2[1], crt_3[0], crt_3[1], crt_4[0], crt_4[1]];
        assert(data@ =~= be_i16(current.0) + be_i16(current.1) + be_i16(current.2) + be_i16(
            current.3,
        ));
        CanFrame { id: Self::CANID, data }
    }
}

} // verus!

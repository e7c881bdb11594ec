//! DaMiao motor feedback decoding and control frames.
use vstd::prelude::*;

use crate::bytes::{le32, le_value, push_le};
use crate::motor::dajiang::{CanFrame, MAX_STANDARD_ID};
use crate::motor::feedback::{fb_be16, fb_byte, lemma_fb_shifts, lemma_swap16, read_feedback, FEEDBACK_LEN};

verus! {

/// State that a DaMiao motor reports in its feedback.
#[derive(Debug, Clone, Copy, PartialEq, Eq)]
pub enum DaMiaoState {
    /// Code 0x0.
    Disabled,
    /// Code 0x1.
    Enabled,
    /// Code 0x8.
    OverVoltage,
    /// Code 0x9.
    UnderVoltage,
    /// Code 0xA.
    OverCurrent,
    /// Code 0xB.
    OverTempMOS,
    /// Code 0xC.
    OverTempROT,
    /// Code 0xD.
    ConnectionLost,
    /// Code 0xE.
    OverLoad,
    /// Any other code; the ID must be in 0~15.
    IncorrectID,
}

impl DaMiaoState {
    /// The state that the four-bit code `err` stands for.
    pub open spec fn spec_from_code(err: u8) -> DaMiaoState {
        if err == 0x0 {
            DaMiaoState::Disabled
        } else if err == 0x1 {
            DaMiaoState::Enabled
        } else if err == 0x8 {
            DaMiaoState::OverVoltage
        } else if err == 0x9 {
            DaMiaoState::UnderVoltage
        } else if err == 0xA {
            DaMiaoState::OverCurrent
        } else if err == 0xB {
            DaMiaoState::OverTempMOS
        } else if err == 0xC {
            DaMiaoState::OverTempROT
        } else if err == 0xD {
            DaMiaoState::ConnectionLost
        } else if err == 0xE {
            DaMiaoState::OverLoad
        } else {
            DaMiaoState::IncorrectID
        }
    }
}

/// The DaMiao state code table: 0x0 disabled, 0x1 enabled, 0x8 over voltage,
/// 0x9 under voltage, 0xA over current, 0xB MOS over temperature, 0xC rotor
/// over temperature, 0xD connection lost, 0xE overload; every other code
/// reads as an incorrect ID. Each state comes from exactly one code.
pub proof fn lemma_damiao_state_codes(c: u8)
    ensures
        (DaMiaoState::spec_from_code(c) == DaMiaoState::Disabled) == (c == 0x0),
        (DaMiaoState::spec_from_code(c) == DaMiaoState::Enabled) == (c == 0x1),
        (DaMiaoState::spec_from_code(c) == DaMiaoState::OverVoltage) == (c == 0x8),
        (DaMiaoState::spec_from_code(c) == DaMiaoState::UnderVoltage) == (c == 0x9),
        (DaMiaoState::spec_from_code(c) == DaMiaoState::OverCurrent) == (c == 0xA),
        (DaMiaoState::spec_from_code(c) == DaMiaoState::OverTempMOS) == (c == 0xB),
        (DaMiaoState::spec_from_code(c) == DaMiaoState::OverTempROT) == (c == 0xC),
        (DaMiaoState::spec_from_code(c) == DaMiaoState::ConnectionLost) == (c == 0xD),
        (DaMiaoState::spec_from_code(c) == DaMiaoState::OverLoad) == (c == 0xE),
        (DaMiaoState::spec_from_code(c) == DaMiaoState::IncorrectID) == !(c <= 0x1 || 0x8 <= c
            <= 0xE),
{
}

/// The state a DaMiao motor reports is named by the high nibble of data byte
/// 0 of its feedback frame: for feedback read from `data`, a high nibble of
/// 0x8 is over voltage and 0x9 under voltage, and so on through the table.
pub proof fn lemma_damiao_state_of_frame(data: Seq<u8>)
    requires
        spec_damiao_feedback(data) is Some,
    ensures
        fb_byte(spec_damiao_feedback(data)->0, 0) / 16 == data[0] / 16,
        data[0] / 16 == 0x8 ==> DaMiaoState::spec_from_code(
            fb_byte(spec_damiao_feedback(data)->0, 0) / 16,
        ) == DaMiaoState::OverVoltage,
        data[0] / 16 == 0x9 ==> DaMiaoState::spec_from_code(
            fb_byte(spec_damiao_feedback(data)->0, 0) / 16,
        ) == DaMiaoState::UnderVoltage,
        fb_byte(spec_damiao_feedback(data)->0, 0) % 16 == data[0] % 16,
{
    crate::motor::feedback::lemma_feedback_bytes(data, 0);
}

/// The feedback value that a DaMiao motor frame with data `data` carries:
/// its eight bytes read little endian; none for data of another length, or
/// for data whose bytes 1 and 2 are `0x00` and `0x55`.
pub open spec fn spec_damiao_feedback(data: Seq<u8>) -> Option<u64> {
    if data.len() != FEEDBACK_LEN || (data[1] == 0x00 && data[2] == 0x55) {
        None
    } else {
        Some(le_value(data) as u64)
    }
}

/// Read the feedback value of a DaMiao motor frame.
pub fn damiao_feedback(data: &[u8]) -> (r: Option<u64>)
    ensures
        r == spec_damiao_feedback(data@),
{
    if data.len() != FEEDBACK_LEN || (data[1] == 0x00 && data[2] == 0x55) {
        return None;
    }
    Some(read_feedback(data))
}

proof fn lemma_nibbles(raw: u64, b0: u8)
    by (bit_vector)
    requires
        b0 == (raw & 0xFF) as u8,
    ensures
        (raw & 0xF) as u8 == b0 % 16,
        ((raw >> 4u64) & 0x0F) as u8 == b0 / 16,
{
}

proof fn lemma_vel_tor(raw: u64, b3: u8, b4: u8, b5: u8)
    by (bit_vector)
    requires
        b3 == ((raw >> 24u64) & 0xFF) as u8,
        b4 == ((raw >> 32u64) & 0xFF) as u8,
        b5 == ((raw >> 40u64) & 0xFF) as u8,
    ensures
        ((((raw >> 24u64) & 0xF0FF) as u16 & 0xFF) << 4u16) | ((((raw >> 24u64) & 0xF0FF) as u16
            >> 12u16) & 0x0F) == (b3 * 16 + b4 / 16) as u16,
        ((((raw >> 32u64) & 0xFF0F) as u16 >> 8u16) & 0xFF) | ((((raw >> 32u64) & 0xFF0F) as u16
            & 0x0F) << 8u16) == ((b4 % 16) * 256 + b5) as u16,
{
}

/// Feedback of a DaMiao motor, kept as the raw feedback value.
///
/// The frame holds the CAN ID in the low and the state in the high nibble of
/// data byte 0, the position (16 bits, big endian) in bytes 1 and 2, the
/// velocity (12 bits) in byte 3 and the high nibble of byte 4, the torque
/// (12 bits) in the low nibble of byte 4 and byte 5, and the MOS and rotor
/// temperatures in bytes 6 and 7.
pub trait DaMiaoMotor {
    /// The raw feedback that `get_raw` returns. Each motor type states its
    /// own; left unstated, nothing can be proved of its feedback.
    closed spec fn spec_raw(&self) -> u64 {
        arbitrary()
    }

    /// Get the raw 64-bit data from the motor.
    fn get_raw(&self) -> (r: u64)
        ensures
            r == self.spec_raw(),
    ;

    /// CAN ID of the motor (0~15): the low nibble of data byte 0.
    fn id(&self) -> (r: u8)
        ensures
            r == fb_byte(self.spec_raw(), 0) % 16,
    {
        let raw = self.get_raw();
        proof {
            lemma_fb_shifts(raw);
            lemma_nibbles(raw, fb_byte(raw, 0));
        }
        (raw & 0xF) as u8
    }

    /// Motor error status: the high nibble of data byte 0.
    fn sta(&self) -> (r: DaMiaoState)
        ensures
            r == DaMiaoState::spec_from_code(fb_byte(self.spec_raw(), 0) / 16),
    {
        let raw = self.get_raw();
        proof {
            lemma_fb_shifts(raw);
            lemma_nibbles(raw, fb_byte(raw, 0));
        }
        let err = ((raw >> 4) & 0x0F) as u8;
        match err {
            0x0 => DaMiaoState::Disabled,
            0x1 => DaMiaoState::Enabled,
            0x8 => DaMiaoState::OverVoltage,
            0x9 => DaMiaoState::UnderVoltage,
            0xA => DaMiaoState::OverCurrent,
            0xB => DaMiaoState::OverTempMOS,
            0xC => DaMiaoState::OverTempROT,
            0xD => DaMiaoState::ConnectionLost,
            0xE => DaMiaoState::OverLoad,
            _ => DaMiaoState::IncorrectID,
        }
    }

    /// Position: 0 to 65535 over `-P_MAX..P_MAX`.
    fn pos_raw(&self) -> (r: u16)
        ensures
            r == fb_be16(self.spec_raw(), 1),
    {
        let raw = self.get_raw();
        let pos = ((raw >> 8) & 0xFFFF) as u16;
        proof {
            lemma_fb_shifts(raw);
            lemma_swap16(raw, 8, fb_byte(raw, 1), fb_byte(raw, 2));
        }
        (pos << 8) | (pos >> 8)
    }

    /// Velocity: 0 to 4095 over `-V_MAX..V_MAX`.
    fn vel_raw(&self) -> (r: u16)
        ensures
            r == fb_byte(self.spec_raw(), 3) * 16 + fb_byte(self.spec_raw(), 4) / 16,
    {
        let raw = self.get_raw();
        proof {
            lemma_fb_shifts(raw);
            lemma_vel_tor(raw, fb_byte(raw, 3), fb_byte(raw, 4), fb_byte(raw, 5));
        }
        let vel = ((raw >> 24) & 0xF0FF) as u16;
        (vel & 0xFF) << 4 | (vel >> 12) & 0x0F
    }

    /// Torque: 0 to 4095 over `-T_MAX..T_MAX`.
    fn tor_raw(&self) -> (r: u16)
        ensures
            r == (fb_byte(self.spec_raw(), 4) % 16) * 256 + fb_byte(self.spec_raw(), 5),
    {
        let raw = self.get_raw();
        proof {
            lemma_fb_shifts(raw);
            lemma_vel_tor(raw, fb_byte(raw, 3), fb_byte(raw, 4), fb_byte(raw, 5));
        }
        let tor = ((raw >> 32) & 0xFF0F) as u16;
        (tor >> 8) & 0xFF | (tor & 0x0F) << 8
    }

    /// MOS temperature in Celsius.
    fn temp_mos(&self) -> (r: u8)
        ensures
            r == fb_byte(self.spec_raw(), 6),
    {
        let raw = self.get_raw();
        proof {
            lemma_fb_shifts(raw);
        }
        ((raw >> 48) & 0xFF) as u8
    }

    /// Rotor temperature in Celsius.
    fn temp_rot(&self) -> (r: u8)
        ensures
            r == fb_byte(self.spec_raw(), 7),
    {
        let raw = self.get_raw();
        proof {
            lemma_fb_shifts(raw);
        }
        ((raw >> 56) & 0xFF) as u8
    }
}

/// Offset of the position-velocity mode identifier from the CAN ID.
pub const PV_MODE_OFFSET: u16 = 0x100;

/// Identifier of the feedback request broadcast.
pub const BROADCAST_ID: u16 = 0x7FF;

/// Seven `0xFF` bytes followed by `last`: the data of a mode command.
pub open spec fn mode_command(last: u8) -> Seq<u8> {
    seq![0xFFu8, 0xFFu8, 0xFFu8, 0xFFu8, 0xFFu8, 0xFFu8, 0xFFu8, last]
}

fn mode_frame(id: u16, last: u8) -> (r: CanFrame)
    ensures
        r.id == id,
        r.data@ == mode_command(last),
{
    let data = vec![0xFFu8, 0xFFu8, 0xFFu8, 0xFFu8, 0xFFu8, 0xFFu8, 0xFFu8, last];
    assert(data@ =~= mode_command(last));
    CanFrame { id, data }
}

/// Control frames of a DaMiao motor with CAN ID `CANID`.
pub trait DaMiaoCtrl {
    /// Motor CAN ID.
    const CANID: u16;

    /// Request the motor's feedback.
    fn get_fb(&self) -> (r: CanFrame)
        ensures
            r.id == BROADCAST_ID,
            r.data@ == seq![(Self::CANID & 0xFF) as u8, ((Self::CANID >> 8u16) & 0x7) as u8, 0xCCu8, 0u8],
    {
        let canid_l = (Self::CANID & 0xFF) as u8;
        let canid_h = ((Self::CANID >> 8) & 0x7) as u8;
        let data = vec![canid_l, canid_h, 0xCC, 0];
        assert(data@ =~= seq![(Self::CANID & 0xFF) as u8, ((Self::CANID >> 8u16) & 0x7) as u8, 0xCCu8, 0u8]);
        CanFrame { id: BROADCAST_ID, data }
    }

    /// Enable the motor in position-velocity mode.
    fn enable(&self) -> (r: CanFrame)
        requires
            Self::CANID + PV_MODE_OFFSET <= MAX_STANDARD_ID,
        ensures
            r.id == PV_MODE_OFFSET + Self::CANID,
            r.data@ == mode_command(0xFC),
    {
        mode_frame(PV_MODE_OFFSET + Self::CANID, 0xFC)
    }

    /// Disable the motor in position-velocity mode.
    fn disable(&self) -> (r: CanFrame)
        requires
            Self::CANID + PV_MODE_OFFSET <= MAX_STANDARD_ID,
        ensures
            r.id == PV_MODE_OFFSET + Self::CANID,
            r.data@ == mode_command(0xFD),
    {
        mode_frame(PV_MODE_OFFSET + Self::CANID, 0xFD)
    }

    /// Clear the error in position-velocity mode.
    fn clr_err(&self) -> (r: CanFrame)
        requires
            Self::CANID + PV_MODE_OFFSET <= MAX_STANDARD_ID,
        ensures
            r.id == PV_MODE_OFFSET + Self::CANID,
            r.data@ == mode_command(0xFB),
    {
        mode_frame(PV_MODE_OFFSET + Self::CANID, 0xFB)
    }

    /// Enable the motor in torque mode.
    fn enable_torque(&self) -> (r: CanFrame)
        requires
            Self::CANID <= MAX_STANDARD_ID,
        ensures
            r.id == Self::CANID,
            r.data@ == mode_command(0xFC),
    {
        mode_frame(Self::CANID, 0xFC)
    }

    /// Disable the motor in torque mode.
    fn disable_torque(&self) -> (r: CanFrame)
        requires
            Self::CANID <= MAX_STANDARD_ID,
        ensures
            r.id == Self::CANID,
            r.data@ == mode_command(0xFD),
    {
        mode_frame(Self::CANID, 0xFD)
    }

    /// Clear the error in torque mode.
    fn clr_err_torque(&self) -> (r: CanFrame)
        requires
            Self::CANID <= MAX_STANDARD_ID,
        ensures
            r.id == Self::CANID,
            r.data@ == mode_command(0xFB),
    {
        mode_frame(Self::CANID, 0xFB)
    }

    /// Set position and velocity: the four little-endian bytes of the
    /// position set point followed by those of the speed.
    fn set_pv_bits(&self, pos: u32, vel: u32) -> (r: CanFrame)
        requires
            Self::CANID + PV_MODE_OFFSET <= MAX_STANDARD_ID,
        ensures
            r.id == PV_MODE_OFFSET + Self::CANID,
            r.data@ == le32(pos) + le32(vel),
    {
        let mut data: Vec<u8> = Vec::new();
        push_le(&mut data, pos as u64, 4);
        push_le(&mut data, vel as u64, 4);
        CanFrame { id: PV_MODE_OFFSET + Self::CANID, data }
    }

    /// Set the torque, given in 12 bits over `-T_MAX..T_MAX`: the command
    /// bytes, then the torque big endian in the last one and a half bytes.
    fn set_torque_raw(&self, t: u16) -> (r: CanFrame)
        requires
            Self::CANID <= MAX_STANDARD_ID,
        ensures
            r.id == Self::CANID,
            r.data@ == seq![0x7Fu8, 0xFFu8, 0x7Fu8, 0xF0u8, 0x00u8, 0x00u8, ((t / 256) % 16) as u8, (t % 256) as u8],
    {
        let masked = t & 0xFFF;
        let hi = ((masked >> 8) & 0xF) as u8;
        let lo = (masked & 0xFF) as u8;
        assert(hi == ((t / 256) % 16) as u8 && lo == (t % 256) as u8) by (bit_vector)
            requires
                hi == (((t & 0xFFF) >> 8u16) & 0xF) as u8,
                lo == ((t & 0xFFF) & 0xFF) as u8,
        ;
        let data = vec![0x7F, 0xFF, 0x7F, 0xF0, 0x00, 0x00, hi, lo];
        assert(data@ =~= seq![0x7Fu8, 0xFFu8, 0x7Fu8, 0xF0u8, 0x00u8, 0x00u8, ((t / 256) % 16) as u8, (t % 256) as u8]);
        CanFrame { id: Self::CANID, data }
    }
}

} // verus!

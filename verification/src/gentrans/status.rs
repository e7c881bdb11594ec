//! 0x0201 - Robot status (main control module to robot).
use vstd::prelude::*;

use crate::bytes::{le16, le_value, lemma_le16_field, lemma_le_canonical, put_le, read_le};
use crate::error::Error;
use crate::frame::Marshaler;

verus! {

/// Payload size in bytes.
pub const SIZE: usize = 13;

/// Main Ctrl Module to Robot
#[derive(Debug, Clone, Copy, PartialEq, Eq)]
pub struct RobotStatus {
    pub robot_id: u8,
    pub robot_level: u8,
    pub current_hp: u16,
    pub maximum_hp: u16,
    pub heat_colling_down: u16,
    pub shooter_heat_limit: u16,
    pub chassis_power_limit: u16,
    pub power_output: u8,
}

impl RobotStatus {
    /// The payload bytes of `self`.
    pub open spec fn spec_encode(self) -> Seq<u8> {
        seq![self.robot_id] + seq![self.robot_level] + le16(self.current_hp) + le16(self.maximum_hp) + le16(self.heat_colling_down) + le16(self.shooter_heat_limit) + le16(self.chassis_power_limit) + seq![self.power_output]
    }

    /// The value that a payload of `SIZE` bytes decodes to.
    pub open spec fn spec_decode(raw: Seq<u8>) -> RobotStatus {
        RobotStatus {
            robot_id: raw[0],
            robot_level: raw[1],
            current_hp: le_value(raw.subrange(2, 4)) as u16,
            maximum_hp: le_value(raw.subrange(4, 6)) as u16,
            heat_colling_down: le_value(raw.subrange(6, 8)) as u16,
            shooter_heat_limit: le_value(raw.subrange(8, 10)) as u16,
            chassis_power_limit: le_value(raw.subrange(10, 12)) as u16,
            power_output: raw[12],
        }
    }

    pub fn robot_id(&self) -> (r: u8)
        ensures
            r == self.robot_id,
    {
        self.robot_id
    }

    pub fn robot_level(&self) -> (r: u8)
        ensures
            r == self.robot_level,
    {
        self.robot_level
    }

    pub fn current_hp(&self) -> (r: u16)
        ensures
            r == self.current_hp,
    {
        self.current_hp
    }

    pub fn maximum_hp(&self) -> (r: u16)
        ensures
            r == self.maximum_hp,
    {
        self.maximum_hp
    }

    pub fn heat_colling_down(&self) -> (r: u16)
        ensures
            r == self.heat_colling_down,
    {
        self.heat_colling_down
    }

    pub fn shooter_heat_limit(&self) -> (r: u16)
        ensures
            r == self.shooter_heat_limit,
    {
        self.shooter_heat_limit
    }

    pub fn chassis_power_limit(&self) -> (r: u16)
        ensures
            r == self.chassis_power_limit,
    {
        self.chassis_power_limit
    }

    /// Whether the gimbal power output is on (bit 0).
    pub fn gimbal_power_output(&self) -> (r: bool)
        ensures
            r == (self.power_output & 1u8 != 0u8),
    {
        self.power_output & 1u8 != 0u8
    }

    /// Whether the chassis power output is on (bit 1).
    pub fn chassis_power_output(&self) -> (r: bool)
        ensures
            r == (self.power_output & 2u8 != 0u8),
    {
        self.power_output & 2u8 != 0u8
    }

    /// Whether the shooter power output is on (bit 2).
    pub fn shooter_power_output(&self) -> (r: bool)
        ensures
            r == (self.power_output & 4u8 != 0u8),
    {
        self.power_output & 4u8 != 0u8
    }

    /// Decoding the encoding gives the value back, and every payload that
    /// decodes is the encoding of what it decodes to.
    pub proof fn lemma_codec(self, raw: Seq<u8>)
        ensures
            Self::spec_unmarshal(self.spec_encode()) == Ok::<RobotStatus, Error>(self),
            Self::spec_unmarshal(raw) matches Ok(v) ==> v.spec_encode() == raw,
    {
        let e = self.spec_encode();
        lemma_le16_field(self.current_hp);
        assert(e.subrange(2, 4) =~= le16(self.current_hp));
        lemma_le16_field(self.maximum_hp);
        assert(e.subrange(4, 6) =~= le16(self.maximum_hp));
        lemma_le16_field(self.heat_colling_down);
        assert(e.subrange(6, 8) =~= le16(self.heat_colling_down));
        lemma_le16_field(self.shooter_heat_limit);
        assert(e.subrange(8, 10) =~= le16(self.shooter_heat_limit));
        lemma_le16_field(self.chassis_power_limit);
        assert(e.subrange(10, 12) =~= le16(self.chassis_power_limit));
        assert(Self::spec_decode(e) == self);
        if raw.len() == SIZE {
            lemma_le_canonical(raw.subrange(2, 4));
            lemma_le_canonical(raw.subrange(4, 6));
            lemma_le_canonical(raw.subrange(6, 8));
            lemma_le_canonical(raw.subrange(8, 10));
            lemma_le_canonical(raw.subrange(10, 12));
            assert(Self::spec_decode(raw).spec_encode() =~= raw);
        }
    }
}

impl Marshaler for RobotStatus {
    const CMD_ID: u16 = 0x0201;

    open spec fn spec_marshal(&self, dst_len: nat) -> Result<Seq<u8>, Error> {
        if dst_len < SIZE {
            Err(Error::BufferTooSmall { need: SIZE })
        } else {
            Ok(self.spec_encode())
        }
    }

    open spec fn spec_unmarshal(raw: Seq<u8>) -> Result<RobotStatus, Error> {
        if raw.len() != SIZE {
            Err(Error::InvalidDataLength { expected: SIZE })
        } else {
            Ok(Self::spec_decode(raw))
        }
    }

    fn marshal(&self, dst: &mut [u8]) -> (r: Result<usize, Error>) {
        if dst.len() < SIZE {
            return Err(Error::BufferTooSmall { need: SIZE });
        }
        let ghost d0 = dst@;
        proof {
            lemma_le16_field(self.current_hp);
            lemma_le16_field(self.maximum_hp);
            lemma_le16_field(self.heat_colling_down);
            lemma_le16_field(self.shooter_heat_limit);
            lemma_le16_field(self.chassis_power_limit);
        }
        dst[0] = self.robot_id;
        assert(dst@ =~= seq![self.robot_id] + d0.skip(1));
        dst[1] = self.robot_level;
        assert(dst@ =~= seq![self.robot_id] + seq![self.robot_level] + d0.skip(2));
        put_le(dst, 2, self.current_hp as u64, 2);
        assert(dst@ =~= seq![self.robot_id] + seq![self.robot_level] + le16(self.current_hp) + d0.skip(4));
        put_le(dst, 4, self.maximum_hp as u64, 2);
        assert(dst@ =~= seq![self.robot_id] + seq![self.robot_level] + le16(self.current_hp) + le16(self.maximum_hp) + d0.skip(6));
        put_le(dst, 6, self.heat_colling_down as u64, 2);
        assert(dst@ =~= seq![self.robot_id] + seq![self.robot_level] + le16(self.current_hp) + le16(self.maximum_hp) + le16(self.heat_colling_down) + d0.skip(8));
        put_le(dst, 8, self.shooter_heat_limit as u64, 2);
        assert(dst@ =~= seq![self.robot_id] + seq![self.robot_level] + le16(self.current_hp) + le16(self.maximum_hp) + le16(self.heat_colling_down) + le16(self.shooter_heat_limit) + d0.skip(10));
        put_le(dst, 10, self.chassis_power_limit as u64, 2);
        assert(dst@ =~= seq![self.robot_id] + seq![self.robot_level] + le16(self.current_hp) + le16(self.maximum_hp) + le16(self.heat_colling_down) + le16(self.shooter_heat_limit) + le16(self.chassis_power_limit) + d0.skip(12));
        dst[12] = self.power_output;
        assert(dst@ =~= seq![self.robot_id] + seq![self.robot_level] + le16(self.current_hp) + le16(self.maximum_hp) + le16(self.heat_colling_down) + le16(self.shooter_heat_limit) + le16(self.chassis_power_limit) + seq![self.power_output] + d0.skip(13));
        Ok(SIZE)
    }

    fn unmarshal(raw: &[u8]) -> (r: Result<RobotStatus, Error>) {
        if raw.len() != SIZE {
            return Err(Error::InvalidDataLength { expected: SIZE });
        }
        Ok(RobotStatus {
            robot_id: raw[0],
            robot_level: raw[1],
            current_hp: read_le(raw, 2, 2) as u16,
            maximum_hp: read_le(raw, 4, 2) as u16,
            heat_colling_down: read_le(raw, 6, 2) as u16,
            shooter_heat_limit: read_le(raw, 8, 2) as u16,
            chassis_power_limit: read_le(raw, 10, 2) as u16,
            power_output: raw[12],
        })
    }
}

} // verus!

//! 0x0204 - Robot buff data (server to robot).
use vstd::prelude::*;

use crate::bytes::{le16, le_value, lemma_le16_field, lemma_le_canonical, put_le, read_le};
use crate::error::Error;
use crate::frame::Marshaler;

verus! {

/// Payload size in bytes.
pub const SIZE: usize = 8;

/// Server to Robot
#[derive(Debug, Clone, Copy, PartialEq, Eq)]
pub struct RobotBuff {
    pub recovery_rate: u8,
    pub colling_value: u16,
    pub defence_rate: u8,
    pub vulnerablity_rate: u8,
    pub attack_rate: u16,
    pub remain_energy: u8,
}

impl RobotBuff {
    /// The payload bytes of `self`.
    pub open spec fn spec_encode(self) -> Seq<u8> {
        seq![self.recovery_rate] + le16(self.colling_value) + seq![
            self.defence_rate,
            self.vulnerablity_rate,
        ] + le16(self.attack_rate) + seq![self.remain_energy]
    }

    /// The value that a payload of `SIZE` bytes decodes to.
    pub open spec fn spec_decode(raw: Seq<u8>) -> RobotBuff {
        RobotBuff {
            recovery_rate: raw[0],
            colling_value: le_value(raw.subrange(1, 3)) as u16,
            defence_rate: raw[3],
            vulnerablity_rate: raw[4],
            attack_rate: le_value(raw.subrange(5, 7)) as u16,
            remain_energy: raw[7],
        }
    }

    pub fn recovery_rate(&self) -> (r: u8)
        ensures
            r == self.recovery_rate,
    {
        self.recovery_rate
    }

    pub fn colling_value(&self) -> (r: u16)
        ensures
            r == self.colling_value,
    {
        self.colling_value
    }

    pub fn defence_rate(&self) -> (r: u8)
        ensures
            r == self.defence_rate,
    {
        self.defence_rate
    }

    pub fn vulnerablity_rate(&self) -> (r: u8)
        ensures
            r == self.vulnerablity_rate,
    {
        self.vulnerablity_rate
    }

    pub fn attack_rate(&self) -> (r: u16)
        ensures
            r == self.attack_rate,
    {
        self.attack_rate
    }

    pub fn remain_energy(&self) -> (r: u8)
        ensures
            r == self.remain_energy,
    {
        self.remain_energy
    }

    /// Decoding the encoding gives the value back, and every payload that
    /// decodes is the encoding of what it decodes to.
    pub proof fn lemma_codec(self, raw: Seq<u8>)
        ensures
            Self::spec_unmarshal(self.spec_encode()) == Ok::<RobotBuff, Error>(self),
            Self::spec_unmarshal(raw) matches Ok(v) ==> v.spec_encode() == raw,
    {
        let e = self.spec_encode();
        lemma_le16_field(self.colling_value);
        lemma_le16_field(self.attack_rate);
        assert(e.subrange(1, 3) =~= le16(self.colling_value));
        assert(e.subrange(5, 7) =~= le16(self.attack_rate));
        assert(Self::spec_decode(e) == self);
        if raw.len() == SIZE {
            lemma_le_canonical(raw.subrange(1, 3));
            lemma_le_canonical(raw.subrange(5, 7));
            assert(Self::spec_decode(raw).spec_encode() =~= raw);
        }
    }
}

impl Marshaler for RobotBuff {
    const CMD_ID: u16 = 0x0204;

    open spec fn spec_marshal(&self, dst_len: nat) -> Result<Seq<u8>, Error> {
        if dst_len < SIZE {
            Err(Error::BufferTooSmall { need: SIZE })
        } else {
            Ok(self.spec_encode())
        }
    }

    open spec fn spec_unmarshal(raw: Seq<u8>) -> Result<RobotBuff, Error> {
        if raw.len() != SIZE {
            Err(Error::InvalidDataLength { expected: SIZE })
        } else {
            Ok(Self::spec_decode(raw))
        }
    }

    fn marshal(&self, dst: &mut [u8]) -> (r: Result<usize, Error>) {
        if dst.len() < SIZE {
            return Err(Error::BufferTooSmall { need: SIZE });
        }
        let ghost d0 = dst@;
        proof {
            lemma_le16_field(self.colling_value);
            lemma_le16_field(self.attack_rate);
        }
        dst[0] = self.recovery_rate;
        put_le(dst, 1, self.colling_value as u64, 2);
        assert(dst@ =~= seq![self.recovery_rate] + le16(self.colling_value) + d0.skip(3));
        dst[3] = self.defence_rate;
        dst[4] = self.vulnerablity_rate;
        put_le(dst, 5, self.attack_rate as u64, 2);
        assert(dst@ =~= seq![self.recovery_rate] + le16(self.colling_value) + seq![
            self.defence_rate,
            self.vulnerablity_rate,
        ] + le16(self.attack_rate) + d0.skip(7));
        dst[7] = self.remain_energy;
        assert(dst@ =~= self.spec_encode() + d0.skip(SIZE as int));
        Ok(SIZE)
    }

    fn unmarshal(raw: &[u8]) -> (r: Result<RobotBuff, Error>) {
        if raw.len() != SIZE {
            return Err(Error::InvalidDataLength { expected: SIZE });
        }
        Ok(RobotBuff {
            recovery_rate: raw[0],
            colling_value: read_le(raw, 1, 2) as u16,
            defence_rate: raw[3],
            vulnerablity_rate: raw[4],
            attack_rate: read_le(raw, 5, 2) as u16,
            remain_energy: raw[7],
        })
    }
}

} // verus!

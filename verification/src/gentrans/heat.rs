//! 0x0202 - Power and heat data (main control module to robot).
use vstd::prelude::*;

use crate::bytes::{le16, le32, le_value, lemma_le16_field, lemma_le32_field, lemma_le_canonical, put_le, read_le};
use crate::error::Error;
use crate::frame::Marshaler;

verus! {

/// Payload size in bytes.
pub const SIZE: usize = 14;

/// Main Ctrl Module to Robot
#[derive(Debug, Clone, Copy, PartialEq, Eq)]
pub struct PowerHeat {
    pub _reserved_1: u16,
    pub _reserved_2: u16,
    pub _reserved_3: u32,
    pub buffer_energy: u16,
    pub shooter_heat_17mm: u16,
    pub shooter_heat_42mm: u16,
}

impl PowerHeat {
    /// The payload bytes of `self`.
    pub open spec fn spec_encode(self) -> Seq<u8> {
        le16(self._reserved_1) + le16(self._reserved_2) + le32(self._reserved_3) + le16(self.buffer_energy) + le16(self.shooter_heat_17mm) + le16(self.shooter_heat_42mm)
    }

    /// The value that a payload of `SIZE` bytes decodes to.
    pub open spec fn spec_decode(raw: Seq<u8>) -> PowerHeat {
        PowerHeat {
            _reserved_1: le_value(raw.subrange(0, 2)) as u16,
            _reserved_2: le_value(raw.subrange(2, 4)) as u16,
            _reserved_3: le_value(raw.subrange(4, 8)) as u32,
            buffer_energy: le_value(raw.subrange(8, 10)) as u16,
            shooter_heat_17mm: le_value(raw.subrange(10, 12)) as u16,
            shooter_heat_42mm: le_value(raw.subrange(12, 14)) as u16,
        }
    }

    pub fn buffer_energy(&self) -> (r: u16)
        ensures
            r == self.buffer_energy,
    {
        self.buffer_energy
    }

    pub fn shooter_heat_17mm(&self) -> (r: u16)
        ensures
            r == self.shooter_heat_17mm,
    {
        self.shooter_heat_17mm
    }

    pub fn shooter_heat_42mm(&self) -> (r: u16)
        ensures
            r == self.shooter_heat_42mm,
    {
        self.shooter_heat_42mm
    }

    /// Decoding the encoding gives the value back, and every payload that
    /// decodes is the encoding of what it decodes to.
    pub proof fn lemma_codec(self, raw: Seq<u8>)
        ensures
            Self::spec_unmarshal(self.spec_encode()) == Ok::<PowerHeat, Error>(self),
            Self::spec_unmarshal(raw) matches Ok(v) ==> v.spec_encode() == raw,
    {
        let e = self.spec_encode();
        lemma_le16_field(self._reserved_1);
        assert(e.subrange(0, 2) =~= le16(self._reserved_1));
        lemma_le16_field(self._reserved_2);
        assert(e.subrange(2, 4) =~= le16(self._reserved_2));
        lemma_le32_field(self._reserved_3);
        assert(e.subrange(4, 8) =~= le32(self._reserved_3));
        lemma_le16_field(self.buffer_energy);
        assert(e.subrange(8, 10) =~= le16(self.buffer_energy));
        lemma_le16_field(self.shooter_heat_17mm);
        assert(e.subrange(10, 12) =~= le16(self.shooter_heat_17mm));
        lemma_le16_field(self.shooter_heat_42mm);
        assert(e.subrange(12, 14) =~= le16(self.shooter_heat_42mm));
        assert(Self::spec_decode(e) == self);
        if raw.len() == SIZE {
            lemma_le_canonical(raw.subrange(0, 2));
            lemma_le_canonical(raw.subrange(2, 4));
            lemma_le_canonical(raw.subrange(4, 8));
            lemma_le_canonical(raw.subrange(8, 10));
            lemma_le_canonical(raw.subrange(10, 12));
            lemma_le_canonical(raw.subrange(12, 14));
            assert(Self::spec_decode(raw).spec_encode() =~= raw);
        }
    }
}

impl Marshaler for PowerHeat {
    const CMD_ID: u16 = 0x0202;

    open spec fn spec_marshal(&self, dst_len: nat) -> Result<Seq<u8>, Error> {
        if dst_len < SIZE {
            Err(Error::BufferTooSmall { need: SIZE })
        } else {
            Ok(self.spec_encode())
        }
    }

    open spec fn spec_unmarshal(raw: Seq<u8>) -> Result<PowerHeat, Error> {
        if raw.len() != SIZE {
            Err(Error::InvalidDataLength { expected: SIZE })
        } else {
            Ok(Self::spec_decode(raw))
        }
    }

    fn marshal(&self, dst: &mut [u8]) -> (r: Result<usize, Error>) {
        if dst.len() < SIZE {
            return Err(Error::BufferTooSmall { need: SIZE });
        }
        let ghost d0 = dst@;
        proof {
            lemma_le16_field(self._reserved_1);
            lemma_le16_field(self._reserved_2);
            lemma_le32_field(self._reserved_3);
            lemma_le16_field(self.buffer_energy);
            lemma_le16_field(self.shooter_heat_17mm);
            lemma_le16_field(self.shooter_heat_42mm);
        }
        put_le(dst, 0, self._reserved_1 as u64, 2);
        assert(dst@ =~= le16(self._reserved_1) + d0.skip(2));
        put_le(dst, 2, self._reserved_2 as u64, 2);
        assert(dst@ =~= le16(self._reserved_1) + le16(self._reserved_2) + d0.skip(4));
        put_le(dst, 4, self._reserved_3 as u64, 4);
        assert(dst@ =~= le16(self._reserved_1) + le16(self._reserved_2) + le32(self._reserved_3) + d0.skip(8));
        put_le(dst, 8, self.buffer_energy as u64, 2);
        assert(dst@ =~= le16(self._reserved_1) + le16(self._reserved_2) + le32(self._reserved_3) + le16(self.buffer_energy) + d0.skip(10));
        put_le(dst, 10, self.shooter_heat_17mm as u64, 2);
        assert(dst@ =~= le16(self._reserved_1) + le16(self._reserved_2) + le32(self._reserved_3) + le16(self.buffer_energy) + le16(self.shooter_heat_17mm) + d0.skip(12));
        put_le(dst, 12, self.shooter_heat_42mm as u64, 2);
        assert(dst@ =~= le16(self._reserved_1) + le16(self._reserved_2) + le32(self._reserved_3) + le16(self.buffer_energy) + le16(self.shooter_heat_17mm) + le16(self.shooter_heat_42mm) + d0.skip(14));
        Ok(SIZE)
    }

    fn unmarshal(raw: &[u8]) -> (r: Result<PowerHeat, Error>) {
        if raw.len() != SIZE {
            return Err(Error::InvalidDataLength { expected: SIZE });
        }
        Ok(PowerHeat {
            _reserved_1: read_le(raw, 0, 2) as u16,
            _reserved_2: read_le(raw, 2, 2) as u16,
            _reserved_3: read_le(raw, 4, 4) as u32,
            buffer_energy: read_le(raw, 8, 2) as u16,
            shooter_heat_17mm: read_le(raw, 10, 2) as u16,
            shooter_heat_42mm: read_le(raw, 12, 2) as u16,
        })
    }
}

} // verus!

//! 0x0203 - Robot position (main control module to robot). The coordinates and the angle are IEEE-754 single precision values, kept here as their bit patterns.
use vstd::prelude::*;

use crate::bytes::{le32, le_value, lemma_le32_field, lemma_le_canonical, put_le, read_le};
use crate::error::Error;
use crate::frame::Marshaler;

verus! {

/// Payload size in bytes.
pub const SIZE: usize = 12;

/// Main Ctrl Module to Robot
#[derive(Debug, Clone, Copy, PartialEq, Eq)]
pub struct RobotPos {
    pub x: u32,
    pub y: u32,
    pub z: u32,
}

impl RobotPos {
    /// The payload bytes of `self`.
    pub open spec fn spec_encode(self) -> Seq<u8> {
        le32(self.x) + le32(self.y) + le32(self.z)
    }

    /// The value that a payload of `SIZE` bytes decodes to.
    pub open spec fn spec_decode(raw: Seq<u8>) -> RobotPos {
        RobotPos {
            x: le_value(raw.subrange(0, 4)) as u32,
            y: le_value(raw.subrange(4, 8)) as u32,
            z: le_value(raw.subrange(8, 12)) as u32,
        }
    }

    pub fn pos_x_bits(&self) -> (r: u32)
        ensures
            r == self.x,
    {
        self.x
    }

    pub fn pos_y_bits(&self) -> (r: u32)
        ensures
            r == self.y,
    {
        self.y
    }

    pub fn angle_bits(&self) -> (r: u32)
        ensures
            r == self.z,
    {
        self.z
    }

    /// Decoding the encoding gives the value back, and every payload that
    /// decodes is the encoding of what it decodes to.
    pub proof fn lemma_codec(self, raw: Seq<u8>)
        ensures
            Self::spec_unmarshal(self.spec_encode()) == Ok::<RobotPos, Error>(self),
            Self::spec_unmarshal(raw) matches Ok(v) ==> v.spec_encode() == raw,
    {
        let e = self.spec_encode();
        lemma_le32_field(self.x);
        assert(e.subrange(0, 4) =~= le32(self.x));
        lemma_le32_field(self.y);
        assert(e.subrange(4, 8) =~= le32(self.y));
        lemma_le32_field(self.z);
        assert(e.subrange(8, 12) =~= le32(self.z));
        assert(Self::spec_decode(e) == self);
        if raw.len() == SIZE {
            lemma_le_canonical(raw.subrange(0, 4));
            lemma_le_canonical(raw.subrange(4, 8));
            lemma_le_canonical(raw.subrange(8, 12));
            assert(Self::spec_decode(raw).spec_encode() =~= raw);
        }
    }
}

impl Marshaler for RobotPos {
    const CMD_ID: u16 = 0x0203;

    open spec fn spec_marshal(&self, dst_len: nat) -> Result<Seq<u8>, Error> {
        if dst_len < SIZE {
            Err(Error::BufferTooSmall { need: SIZE })
        } else {
            Ok(self.spec_encode())
        }
    }

    open spec fn spec_unmarshal(raw: Seq<u8>) -> Result<RobotPos, Error> {
        if raw.len() != SIZE {
            Err(Error::InvalidDataLength { expected: SIZE })
        } else {
            Ok(Self::spec_decode(raw))
        }
    }

    fn marshal(&self, dst: &mut [u8]) -> (r: Result<usize, Error>) {
        if dst.len() < SIZE {
            return Err(Error::BufferTooSmall { need: SIZE });
        }
        let ghost d0 = dst@;
        proof {
            lemma_le32_field(self.x);
            lemma_le32_field(self.y);
            lemma_le32_field(self.z);
        }
        put_le(dst, 0, self.x as u64, 4);
        assert(dst@ =~= le32(self.x) + d0.skip(4));
        put_le(dst, 4, self.y as u64, 4);
        assert(dst@ =~= le32(self.x) + le32(self.y) + d0.skip(8));
        put_le(dst, 8, self.z as u64, 4);
        assert(dst@ =~= le32(self.x) + le32(self.y) + le32(self.z) + d0.skip(12));
        Ok(SIZE)
    }

    fn unmarshal(raw: &[u8]) -> (r: Result<RobotPos, Error>) {
        if raw.len() != SIZE {
            return Err(Error::InvalidDataLength { expected: SIZE });
        }
        Ok(RobotPos {
            x: read_le(raw, 0, 4) as u32,
            y: read_le(raw, 4, 4) as u32,
            z: read_le(raw, 8, 4) as u32,
        })
    }
}

} // verus!

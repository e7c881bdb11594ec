//! 0x0003 - Robot health points (server to robot).
use vstd::prelude::*;

use crate::bytes::{le16, le_value, lemma_le16_field, lemma_le_canonical, put_le, read_le};
use crate::error::Error;
use crate::frame::Marshaler;

verus! {

/// Payload size in bytes.
pub const SIZE: usize = 16;

/// Server to Robot
#[derive(Debug, Clone, Copy, PartialEq, Eq)]
pub struct GameRobotHP {
    pub ally_1: u16,
    pub ally_2: u16,
    pub ally_3: u16,
    pub ally_4: u16,
    pub _reserved: u16,
    pub ally_7: u16,
    pub ally_outpost: u16,
    pub ally_base: u16,
}

impl GameRobotHP {
    /// The payload bytes of `self`.
    pub open spec fn spec_encode(self) -> Seq<u8> {
        le16(self.ally_1) + le16(self.ally_2) + le16(self.ally_3) + le16(self.ally_4) + le16(self._reserved) + le16(self.ally_7) + le16(self.ally_outpost) + le16(self.ally_base)
    }

    /// The value that a payload of `SIZE` bytes decodes to.
    pub open spec fn spec_decode(raw: Seq<u8>) -> GameRobotHP {
        GameRobotHP {
            ally_1: le_value(raw.subrange(0, 2)) as u16,
            ally_2: le_value(raw.subrange(2, 4)) as u16,
            ally_3: le_value(raw.subrange(4, 6)) as u16,
            ally_4: le_value(raw.subrange(6, 8)) as u16,
            _reserved: le_value(raw.subrange(8, 10)) as u16,
            ally_7: le_value(raw.subrange(10, 12)) as u16,
            ally_outpost: le_value(raw.subrange(12, 14)) as u16,
            ally_base: le_value(raw.subrange(14, 16)) as u16,
        }
    }

    pub fn get_ally1_hp(&self) -> (r: u16)
        ensures
            r == self.ally_1,
    {
        self.ally_1
    }

    pub fn get_ally2_hp(&self) -> (r: u16)
        ensures
            r == self.ally_2,
    {
        self.ally_2
    }

    pub fn get_ally3_hp(&self) -> (r: u16)
        ensures
            r == self.ally_3,
    {
        self.ally_3
    }

    pub fn get_ally4_hp(&self) -> (r: u16)
        ensures
            r == self.ally_4,
    {
        self.ally_4
    }

    pub fn get_ally7_hp(&self) -> (r: u16)
        ensures
            r == self.ally_7,
    {
        self.ally_7
    }

    pub fn get_outpost_hp(&self) -> (r: u16)
        ensures
            r == self.ally_outpost,
    {
        self.ally_outpost
    }

    pub fn get_base_hp(&self) -> (r: u16)
        ensures
            r == self.ally_base,
    {
        self.ally_base
    }

    /// Decoding the encoding gives the value back, and every payload that
    /// decodes is the encoding of what it decodes to.
    pub proof fn lemma_codec(self, raw: Seq<u8>)
        ensures
            Self::spec_unmarshal(self.spec_encode()) == Ok::<GameRobotHP, Error>(self),
            Self::spec_unmarshal(raw) matches Ok(v) ==> v.spec_encode() == raw,
    {
        let e = self.spec_encode();
        lemma_le16_field(self.ally_1);
        assert(e.subrange(0, 2) =~= le16(self.ally_1));
        lemma_le16_field(self.ally_2);
        assert(e.subrange(2, 4) =~= le16(self.ally_2));
        lemma_le16_field(self.ally_3);
        assert(e.subrange(4, 6) =~= le16(self.ally_3));
        lemma_le16_field(self.ally_4);
        assert(e.subrange(6, 8) =~= le16(self.ally_4));
        lemma_le16_field(self._reserved);
        assert(e.subrange(8, 10) =~= le16(self._reserved));
        lemma_le16_field(self.ally_7);
        assert(e.subrange(10, 12) =~= le16(self.ally_7));
        lemma_le16_field(self.ally_outpost);
        assert(e.subrange(12, 14) =~= le16(self.ally_outpost));
        lemma_le16_field(self.ally_base);
        assert(e.subrange(14, 16) =~= le16(self.ally_base));
        assert(Self::spec_decode(e) == self);
        if raw.len() == SIZE {
            lemma_le_canonical(raw.subrange(0, 2));
            lemma_le_canonical(raw.subrange(2, 4));
            lemma_le_canonical(raw.subrange(4, 6));
            lemma_le_canonical(raw.subrange(6, 8));
            lemma_le_canonical(raw.subrange(8, 10));
            lemma_le_canonical(raw.subrange(10, 12));
            lemma_le_canonical(raw.subrange(12, 14));
            lemma_le_canonical(raw.subrange(14, 16));
            assert(Self::spec_decode(raw).spec_encode() =~= raw);
        }
    }
}

impl Marshaler for GameRobotHP {
    const CMD_ID: u16 = 0x0003;

    open spec fn spec_marshal(&self, dst_len: nat) -> Result<Seq<u8>, Error> {
        if dst_len < SIZE {
            Err(Error::BufferTooSmall { need: (SIZE - dst_len) as usize })
        } else {
            Ok(self.spec_encode())
        }
    }

    open spec fn spec_unmarshal(raw: Seq<u8>) -> Result<GameRobotHP, Error> {
        if raw.len() != SIZE {
            Err(Error::InvalidDataLength { expected: SIZE })
        } else {
            Ok(Self::spec_decode(raw))
        }
    }

    fn marshal(&self, dst: &mut [u8]) -> (r: Result<usize, Error>) {
        if dst.len() < SIZE {
            return Err(Error::BufferTooSmall { need: SIZE - dst.len() });
        }
        let ghost d0 = dst@;
        proof {
            lemma_le16_field(self.ally_1);
            lemma_le16_field(self.ally_2);
            lemma_le16_field(self.ally_3);
            lemma_le16_field(self.ally_4);
            lemma_le16_field(self._reserved);
            lemma_le16_field(self.ally_7);
            lemma_le16_field(self.ally_outpost);
            lemma_le16_field(self.ally_base);
        }
        put_le(dst, 0, self.ally_1 as u64, 2);
        assert(dst@ =~= le16(self.ally_1) + d0.skip(2));
        put_le(dst, 2, self.ally_2 as u64, 2);
        assert(dst@ =~= le16(self.ally_1) + le16(self.ally_2) + d0.skip(4));
        put_le(dst, 4, self.ally_3 as u64, 2);
        assert(dst@ =~= le16(self.ally_1) + le16(self.ally_2) + le16(self.ally_3) + d0.skip(6));
        put_le(dst, 6, self.ally_4 as u64, 2);
        assert(dst@ =~= le16(self.ally_1) + le16(self.ally_2) + le16(self.ally_3) + le16(self.ally_4) + d0.skip(8));
        put_le(dst, 8, self._reserved as u64, 2);
        assert(dst@ =~= le16(self.ally_1) + le16(self.ally_2) + le16(self.ally_3) + le16(self.ally_4) + le16(self._reserved) + d0.skip(10));
        put_le(dst, 10, self.ally_7 as u64, 2);
        assert(dst@ =~= le16(self.ally_1) + le16(self.ally_2) + le16(self.ally_3) + le16(self.ally_4) + le16(self._reserved) + le16(self.ally_7) + d0.skip(12));
        put_le(dst, 12, self.ally_outpost as u64, 2);
        assert(dst@ =~= le16(self.ally_1) + le16(self.ally_2) + le16(self.ally_3) + le16(self.ally_4) + le16(self._reserved) + le16(self.ally_7) + le16(self.ally_outpost) + d0.skip(14));
        put_le(dst, 14, self.ally_base as u64, 2);
        assert(dst@ =~= le16(self.ally_1) + le16(self.ally_2) + le16(self.ally_3) + le16(self.ally_4) + le16(self._reserved) + le16(self.ally_7) + le16(self.ally_outpost) + le16(self.ally_base) + d0.skip(16));
        Ok(SIZE)
    }

    fn unmarshal(raw: &[u8]) -> (r: Result<GameRobotHP, Error>) {
        if raw.len() != SIZE {
            return Err(Error::InvalidDataLength { expected: SIZE });
        }
        Ok(GameRobotHP {
            ally_1: read_le(raw, 0, 2) as u16,
            ally_2: read_le(raw, 2, 2) as u16,
            ally_3: read_le(raw, 4, 2) as u16,
            ally_4: read_le(raw, 6, 2) as u16,
            _reserved: read_le(raw, 8, 2) as u16,
            ally_7: read_le(raw, 10, 2) as u16,
            ally_outpost: read_le(raw, 12, 2) as u16,
            ally_base: read_le(raw, 14, 2) as u16,
        })
    }
}

} // verus!

//! 0x0101 - Game event (server to robot).
use vstd::prelude::*;

use crate::bytes::{le32, le_value, lemma_le32_field, lemma_le_canonical, put_le, read_le};
use crate::error::Error;
use crate::frame::Marshaler;

verus! {

/// Payload size in bytes.
pub const SIZE: usize = 4;

/// Server to Robot
#[derive(Debug, Clone, Copy, PartialEq, Eq)]
pub struct GameEvent {
    pub event_data: u32,
}

impl GameEvent {
    /// The payload bytes of `self`.
    pub open spec fn spec_encode(self) -> Seq<u8> {
        le32(self.event_data)
    }

    /// The value that a payload of `SIZE` bytes decodes to.
    pub open spec fn spec_decode(raw: Seq<u8>) -> GameEvent {
        GameEvent {
            event_data: le_value(raw.subrange(0, 4)) as u32,
        }
    }

    pub fn event_data(&self) -> (r: u32)
        ensures
            r == self.event_data,
    {
        self.event_data
    }

    /// Decoding the encoding gives the value back, and every payload that
    /// decodes is the encoding of what it decodes to.
    pub proof fn lemma_codec(self, raw: Seq<u8>)
        ensures
            Self::spec_unmarshal(self.spec_encode()) == Ok::<GameEvent, Error>(self),
            Self::spec_unmarshal(raw) matches Ok(v) ==> v.spec_encode() == raw,
    {
        let e = self.spec_encode();
        lemma_le32_field(self.event_data);
        assert(e.subrange(0, 4) =~= le32(self.event_data));
        assert(Self::spec_decode(e) == self);
        if raw.len() == SIZE {
            lemma_le_canonical(raw.subrange(0, 4));
            assert(Self::spec_decode(raw).spec_encode() =~= raw);
        }
    }
}

impl Marshaler for GameEvent {
    const CMD_ID: u16 = 0x0101;

    open spec fn spec_marshal(&self, dst_len: nat) -> Result<Seq<u8>, Error> {
        if dst_len < SIZE {
            Err(Error::BufferTooSmall { need: SIZE })
        } else {
            Ok(self.spec_encode())
        }
    }

    open spec fn spec_unmarshal(raw: Seq<u8>) -> Result<GameEvent, Error> {
        if raw.len() != SIZE {
            Err(Error::InvalidDataLength { expected: SIZE })
        } else {
            Ok(Self::spec_decode(raw))
        }
    }

    fn marshal(&self, dst: &mut [u8]) -> (r: Result<usize, Error>) {
        if dst.len() < SIZE {
            return Err(Error::BufferTooSmall { need: SIZE });
        }
        let ghost d0 = dst@;
        proof {
            lemma_le32_field(self.event_data);
        }
        put_le(dst, 0, self.event_data as u64, 4);
        assert(dst@ =~= le32(self.event_data) + d0.skip(4));
        Ok(SIZE)
    }

    fn unmarshal(raw: &[u8]) -> (r: Result<GameEvent, Error>) {
        if raw.len() != SIZE {
            return Err(Error::InvalidDataLength { expected: SIZE });
        }
        Ok(GameEvent {
            event_data: read_le(raw, 0, 4) as u32,
        })
    }
}

} // verus!

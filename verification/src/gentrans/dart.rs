//! 0x0105 - Dart information (server to robot).
use vstd::prelude::*;

use crate::bytes::{le16, le_value, lemma_le16_field, lemma_le_canonical, put_le, read_le};
use crate::error::Error;
use crate::frame::Marshaler;

verus! {

/// Payload size in bytes.
pub const SIZE: usize = 3;

/// Server to Robot
#[derive(Debug, Clone, Copy, PartialEq, Eq)]
pub struct DartInfo {
    pub remaining_time: u8,
    pub dart_info: u16,
}

impl DartInfo {
    /// The payload bytes of `self`.
    pub open spec fn spec_encode(self) -> Seq<u8> {
        seq![self.remaining_time] + le16(self.dart_info)
    }

    /// The value that a payload of `SIZE` bytes decodes to.
    pub open spec fn spec_decode(raw: Seq<u8>) -> DartInfo {
        DartInfo {
            remaining_time: raw[0],
            dart_info: le_value(raw.subrange(1, 3)) as u16,
        }
    }

    pub fn remaining_time(&self) -> (r: u8)
        ensures
            r == self.remaining_time,
    {
        self.remaining_time
    }

    pub fn dart_info(&self) -> (r: u16)
        ensures
            r == self.dart_info,
    {
        self.dart_info
    }

    /// Decoding the encoding gives the value back, and every payload that
    /// decodes is the encoding of what it decodes to.
    pub proof fn lemma_codec(self, raw: Seq<u8>)
        ensures
            Self::spec_unmarshal(self.spec_encode()) == Ok::<DartInfo, Error>(self),
            Self::spec_unmarshal(raw) matches Ok(v) ==> v.spec_encode() == raw,
    {
        let e = self.spec_encode();
        lemma_le16_field(self.dart_info);
        assert(e.subrange(1, 3) =~= le16(self.dart_info));
        assert(Self::spec_decode(e) == self);
        if raw.len() == SIZE {
            lemma_le_canonical(raw.subrange(1, 3));
            assert(Self::spec_decode(raw).spec_encode() =~= raw);
        }
    }
}

impl Marshaler for DartInfo {
    const CMD_ID: u16 = 0x0105;

    open spec fn spec_marshal(&self, dst_len: nat) -> Result<Seq<u8>, Error> {
        if dst_len < SIZE {
            Err(Error::BufferTooSmall { need: SIZE })
        } else {
            Ok(self.spec_encode())
        }
    }

    open spec fn spec_unmarshal(raw: Seq<u8>) -> Result<DartInfo, Error> {
        if raw.len() != SIZE {
            Err(Error::InvalidDataLength { expected: SIZE })
        } else {
            Ok(Self::spec_decode(raw))
        }
    }

    fn marshal(&self, dst: &mut [u8]) -> (r: Result<usize, Error>) {
        if dst.len() < SIZE {
            return Err(Error::BufferTooSmall { need: SIZE });
        }
        let ghost d0 = dst@;
        proof {
            lemma_le16_field(self.dart_info);
        }
        dst[0] = self.remaining_time;
        assert(dst@ =~= seq![self.remaining_time] + d0.skip(1));
        put_le(dst, 1, self.dart_info as u64, 2);
        assert(dst@ =~= seq![self.remaining_time] + le16(self.dart_info) + d0.skip(3));
        Ok(SIZE)
    }

    fn unmarshal(raw: &[u8]) -> (r: Result<DartInfo, Error>) {
        if raw.len() != SIZE {
            return Err(Error::InvalidDataLength { expected: SIZE });
        }
        Ok(DartInfo {
            remaining_time: raw[0],
            dart_info: read_le(raw, 1, 2) as u16,
        })
    }
}

} // verus!

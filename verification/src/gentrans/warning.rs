//! 0x0104 - Referee warning (server to robot).
use vstd::prelude::*;

use crate::bytes::copy_prefix;
use crate::error::Error;
use crate::frame::Marshaler;

verus! {

/// Payload size in bytes.
pub const SIZE: usize = 3;

/// Penalty level of a warning.
#[derive(Debug, Clone, Copy, PartialEq, Eq)]
pub enum Level {
    /// Code 1.
    YellowCardBoth,
    /// Code 2.
    YellowCard,
    /// Code 3.
    RedCard,
    /// Code 4.
    Loss,
}

impl Level {
    /// The wire code of the level.
    pub open spec fn spec_code(self) -> u8 {
        match self {
            Level::YellowCardBoth => 1,
            Level::YellowCard => 2,
            Level::RedCard => 3,
            Level::Loss => 4,
        }
    }

    /// The level with wire code `c`, if any.
    pub open spec fn spec_from_code(c: u8) -> Option<Level> {
        if c == 1 {
            Some(Level::YellowCardBoth)
        } else if c == 2 {
            Some(Level::YellowCard)
        } else if c == 3 {
            Some(Level::RedCard)
        } else if c == 4 {
            Some(Level::Loss)
        } else {
            None
        }
    }

    /// The wire code of the level.
    pub fn code(&self) -> (r: u8)
        ensures
            r == self.spec_code(),
    {
        match self {
            Level::YellowCardBoth => 1,
            Level::YellowCard => 2,
            Level::RedCard => 3,
            Level::Loss => 4,
        }
    }
}

/// Server to Robot
#[derive(Debug, Clone, Copy, PartialEq, Eq)]
pub struct RefereeWarning {
    pub level: Level,
    pub robot_id: u8,
    pub count: u8,
}

impl RefereeWarning {
    /// The payload bytes: level code, robot ID, count.
    pub open spec fn spec_encode(self) -> Seq<u8> {
        seq![self.level.spec_code(), self.robot_id, self.count]
    }

    pub fn level(&self) -> (r: Level)
        ensures
            r == self.level,
    {
        self.level
    }

    pub fn robot_id(&self) -> (r: u8)
        ensures
            r == self.robot_id,
    {
        self.robot_id
    }

    pub fn count(&self) -> (r: u8)
        ensures
            r == self.count,
    {
        self.count
    }

    /// Decoding the encoding gives the value back, and every payload that
    /// decodes is the encoding of what it decodes to.
    pub proof fn lemma_codec(self, raw: Seq<u8>)
        ensures
            Self::spec_unmarshal(self.spec_encode()) == Ok::<RefereeWarning, Error>(self),
            Self::spec_unmarshal(raw) matches Ok(v) ==> v.spec_encode() == raw,
    {
        if raw.len() == SIZE {
            assert(raw =~= seq![raw[0], raw[1], raw[2]]);
        }
    }
}

/// The penalty codes of the protocol: yellow card for both 1, yellow card 2,
/// red card 3, loss 4. A warning payload starts with the level's code and
/// decodes to the level with that code; any other first byte is refused.
pub proof fn lemma_level_codes(w: RefereeWarning, raw: Seq<u8>)
    ensures
        Level::YellowCardBoth.spec_code() == 1,
        Level::YellowCard.spec_code() == 2,
        Level::RedCard.spec_code() == 3,
        Level::Loss.spec_code() == 4,
        w.spec_encode()[0] == w.level.spec_code(),
        RefereeWarning::spec_unmarshal(raw) matches Ok(v) ==> v.level.spec_code() == raw[0],
        raw.len() == SIZE && !(1 <= raw[0] <= 4) ==> RefereeWarning::spec_unmarshal(raw) is Err,
{
}

impl Marshaler for RefereeWarning {
    const CMD_ID: u16 = 0x0104;

    open spec fn spec_marshal(&self, dst_len: nat) -> Result<Seq<u8>, Error> {
        if dst_len < SIZE {
            Err(Error::BufferTooSmall { need: SIZE })
        } else {
            Ok(self.spec_encode())
        }
    }

    open spec fn spec_unmarshal(raw: Seq<u8>) -> Result<RefereeWarning, Error> {
        if raw.len() != SIZE {
            Err(Error::InvalidDataLength { expected: SIZE })
        } else {
            match Level::spec_from_code(raw[0]) {
                Some(level) => Ok(RefereeWarning { level, robot_id: raw[1], count: raw[2] }),
                None => Err(Error::DecodeError { at: 0 }),
            }
        }
    }

    fn marshal(&self, dst: &mut [u8]) -> (r: Result<usize, Error>) {
        if dst.len() < SIZE {
            return Err(Error::BufferTooSmall { need: SIZE });
        }
        let out: [u8; 3] = [self.level.code(), self.robot_id, self.count];
        assert(out@ =~= self.spec_encode());
        copy_prefix(dst, &out);
        Ok(SIZE)
    }

    fn unmarshal(raw: &[u8]) -> (r: Result<RefereeWarning, Error>) {
        if raw.len() != SIZE {
            return Err(Error::InvalidDataLength { expected: SIZE });
        }
        let level = match raw[0] {
            1 => Level::YellowCardBoth,
            2 => Level::YellowCard,
            3 => Level::RedCard,
            4 => Level::Loss,
            _ => {
                return Err(Error::DecodeError { at: 0 });
            },
        };
        Ok(RefereeWarning { level, robot_id: raw[1], count: raw[2] })
    }
}

} // verus!

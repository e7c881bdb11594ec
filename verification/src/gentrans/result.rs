//! 0x0002 - Game result (server to robot).
use vstd::prelude::*;

use crate::bytes::copy_prefix;
use crate::error::Error;
use crate::frame::Marshaler;

verus! {

/// Payload size in bytes.
pub const SIZE: usize = 1;

/// Winner of a game.
#[derive(Debug, Clone, Copy, PartialEq, Eq)]
pub enum Winner {
    /// Code 0.
    Draw,
    /// Code 1.
    Red,
    /// Code 2.
    Blue,
}

impl Winner {
    /// The wire code of the winner.
    pub open spec fn spec_code(self) -> u8 {
        match self {
            Winner::Draw => 0,
            Winner::Red => 1,
            Winner::Blue => 2,
        }
    }

    /// The winner with wire code `c`, if any.
    pub open spec fn spec_from_code(c: u8) -> Option<Winner> {
        if c == 0 {
            Some(Winner::Draw)
        } else if c == 1 {
            Some(Winner::Red)
        } else if c == 2 {
            Some(Winner::Blue)
        } else {
            None
        }
    }

    /// The wire code of the winner.
    pub fn code(&self) -> (r: u8)
        ensures
            r == self.spec_code(),
    {
        match self {
            Winner::Draw => 0,
            Winner::Red => 1,
            Winner::Blue => 2,
        }
    }
}

/// Server to Robot
#[derive(Debug, Clone, Copy, PartialEq, Eq)]
pub struct GameResult {
    pub winner: Winner,
}

impl GameResult {
    /// The payload byte: the winner's code.
    pub open spec fn spec_encode(self) -> Seq<u8> {
        seq![self.winner.spec_code()]
    }

    pub fn winner(&self) -> (r: Winner)
        ensures
            r == self.winner,
    {
        self.winner
    }

    /// Decoding the encoding gives the value back, and every payload that
    /// decodes is the encoding of what it decodes to.
    pub proof fn lemma_codec(self, raw: Seq<u8>)
        ensures
            Self::spec_unmarshal(self.spec_encode()) == Ok::<GameResult, Error>(self),
            Self::spec_unmarshal(raw) matches Ok(v) ==> v.spec_encode() == raw,
    {
        if raw.len() == SIZE {
            assert(raw =~= seq![raw[0]]);
        }
    }
}

/// The winner codes of the protocol: draw 0, red 1, blue 2. A game result
/// payload is the winner's code, and decodes to the winner with that code;
/// any other byte is refused.
pub proof fn lemma_winner_codes(r: GameResult, raw: Seq<u8>)
    ensures
        Winner::Draw.spec_code() == 0,
        Winner::Red.spec_code() == 1,
        Winner::Blue.spec_code() == 2,
        r.spec_encode() == seq![r.winner.spec_code()],
        GameResult::spec_unmarshal(raw) matches Ok(v) ==> v.winner.spec_code() == raw[0],
        raw.len() == SIZE && raw[0] > 2 ==> GameResult::spec_unmarshal(raw) is Err,
{
}

impl Marshaler for GameResult {
    const CMD_ID: u16 = 0x0002;

    open spec fn spec_marshal(&self, dst_len: nat) -> Result<Seq<u8>, Error> {
        if dst_len < SIZE {
            Err(Error::BufferTooSmall { need: SIZE })
        } else {
            Ok(self.spec_encode())
        }
    }

    open spec fn spec_unmarshal(raw: Seq<u8>) -> Result<GameResult, Error> {
        if raw.len() != SIZE {
            Err(Error::InvalidDataLength { expected: SIZE })
        } else {
            match Winner::spec_from_code(raw[0]) {
                Some(winner) => Ok(GameResult { winner }),
                None => Err(Error::DecodeError { at: 0 }),
            }
        }
    }

    fn marshal(&self, dst: &mut [u8]) -> (r: Result<usize, Error>) {
        if dst.len() < SIZE {
            return Err(Error::BufferTooSmall { need: SIZE });
        }
        let out: [u8; 1] = [self.winner.code()];
        assert(out@ =~= self.spec_encode());
        copy_prefix(dst, &out);
        Ok(SIZE)
    }

    fn unmarshal(raw: &[u8]) -> (r: Result<GameResult, Error>) {
        if raw.len() != SIZE {
            return Err(Error::InvalidDataLength { expected: SIZE });
        }
        let winner = match raw[0] {
            0 => Winner::Draw,
            1 => Winner::Red,
            2 => Winner::Blue,
            _ => {
                return Err(Error::DecodeError { at: 0 });
            },
        };
        Ok(GameResult { winner })
    }
}

} // verus!

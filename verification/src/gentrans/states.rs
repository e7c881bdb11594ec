//! 0x0001 - Game status (server to robot).
use vstd::prelude::*;

use crate::bytes::{
    le16, le64, le_value, lemma_le16_field, lemma_le64_field, lemma_le_canonical, put_le, read_le,
};
use crate::error::Error;
use crate::frame::Marshaler;

verus! {

/// Payload size in bytes.
pub const SIZE: usize = 11;

/// Kind of competition.
#[derive(Debug, Clone, Copy, PartialEq, Eq)]
pub enum GameType {
    /// Code 1.
    RMUC,
    /// Code 2.
    RMUT,
    /// Code 3.
    RMUA,
    /// Code 4.
    RMUL3V3,
    /// Code 5.
    RMUL1V1,
}

impl GameType {
    /// The wire code of the game type.
    pub open spec fn spec_code(self) -> u8 {
        match self {
            GameType::RMUC => 1,
            GameType::RMUT => 2,
            GameType::RMUA => 3,
            GameType::RMUL3V3 => 4,
            GameType::RMUL1V1 => 5,
        }
    }

    /// The game type with wire code `c`, if any.
    pub open spec fn spec_from_code(c: u8) -> Option<GameType> {
        if c == 1 {
            Some(GameType::RMUC)
        } else if c == 2 {
            Some(GameType::RMUT)
        } else if c == 3 {
            Some(GameType::RMUA)
        } else if c == 4 {
            Some(GameType::RMUL3V3)
        } else if c == 5 {
            Some(GameType::RMUL1V1)
        } else {
            None
        }
    }

    /// The wire code of the game type.
    pub fn code(&self) -> (r: u8)
        ensures
            r == self.spec_code(),
    {
        match self {
            GameType::RMUC => 1,
            GameType::RMUT => 2,
            GameType::RMUA => 3,
            GameType::RMUL3V3 => 4,
            GameType::RMUL1V1 => 5,
        }
    }
}

/// Stage of the current game.
#[derive(Debug, Clone, Copy, PartialEq, Eq)]
pub enum GameProgress {
    /// Code 0.
    NotStarted,
    /// Code 1.
    PrePared,
    /// Code 2.
    SelfCheck,
    /// Code 3.
    CountDown5s,
    /// Code 4.
    InProgress,
    /// Code 5.
    Calculating,
}

impl GameProgress {
    /// The wire code of the stage.
    pub open spec fn spec_code(self) -> u8 {
        match self {
            GameProgress::NotStarted => 0,
            GameProgress::PrePared => 1,
            GameProgress::SelfCheck => 2,
            GameProgress::CountDown5s => 3,
            GameProgress::InProgress => 4,
            GameProgress::Calculating => 5,
        }
    }

    /// The stage with wire code `c`, if any.
    pub open spec fn spec_from_code(c: u8) -> Option<GameProgress> {
        if c == 0 {
            Some(GameProgress::NotStarted)
        } else if c == 1 {
            Some(GameProgress::PrePared)
        } else if c == 2 {
            Some(GameProgress::SelfCheck)
        } else if c == 3 {
            Some(GameProgress::CountDown5s)
        } else if c == 4 {
            Some(GameProgress::InProgress)
        } else if c == 5 {
            Some(GameProgress::Calculating)
        } else {
            None
        }
    }

    /// The wire code of the stage.
    pub fn code(&self) -> (r: u8)
        ensures
            r == self.spec_code(),
    {
        match self {
            GameProgress::NotStarted => 0,
            GameProgress::PrePared => 1,
            GameProgress::SelfCheck => 2,
            GameProgress::CountDown5s => 3,
            GameProgress::InProgress => 4,
            GameProgress::Calculating => 5,
        }
    }
}

/// Server to Robot
#[derive(Debug, Clone, Copy, PartialEq, Eq)]
pub struct GameStatus {
    pub game_type: GameType,
    pub game_progress: GameProgress,
    pub remaining_time_s: u16,
    pub unix_timestamp: u64,
}

/// The first payload byte: game type in the low nibble, progress in the high one.
pub open spec fn status_byte(game_type: u8, progress: u8) -> u8 {
    ((game_type & 0xFu8) | ((progress & 0xFu8) << 4u8)) as u8
}

impl GameStatus {
    /// The payload bytes of `self`.
    pub open spec fn spec_encode(self) -> Seq<u8> {
        seq![status_byte(self.game_type.spec_code(), self.game_progress.spec_code())] + le16(
            self.remaining_time_s,
        ) + le64(self.unix_timestamp)
    }

    pub fn game_type(&self) -> (r: GameType)
        ensures
            r == self.game_type,
    {
        self.game_type
    }

    pub fn game_progress(&self) -> (r: GameProgress)
        ensures
            r == self.game_progress,
    {
        self.game_progress
    }

    pub fn remaining_time_s(&self) -> (r: u16)
        ensures
            r == self.remaining_time_s,
    {
        self.remaining_time_s
    }

    pub fn unix_timestamp(&self) -> (r: u64)
        ensures
            r == self.unix_timestamp,
    {
        self.unix_timestamp
    }

    /// Decoding the encoding gives the value back, and every payload that
    /// decodes is the encoding of what it decodes to.
    pub proof fn lemma_codec(self, raw: Seq<u8>)
        ensures
            Self::spec_unmarshal(self.spec_encode()) == Ok::<GameStatus, Error>(self),
            Self::spec_unmarshal(raw) matches Ok(v) ==> v.spec_encode() == raw,
    {
        let e = self.spec_encode();
        let t = self.game_type.spec_code();
        let p = self.game_progress.spec_code();
        let b = status_byte(t, p);
        assert(t < 16 && p < 16 ==> b & 0xFu8 == t && (b >> 4u8) & 0xFu8 == p) by (bit_vector)
            requires
                b == ((t & 0xFu8) | ((p & 0xFu8) << 4u8)),
        ;
        lemma_le16_field(self.remaining_time_s);
        lemma_le64_field(self.unix_timestamp);
        assert(e.subrange(1, 3) =~= le16(self.remaining_time_s));
        assert(e.subrange(3, 11) =~= le64(self.unix_timestamp));
        if raw.len() == SIZE {
            let x = raw[0];
            assert(status_byte(x & 0xFu8, (x >> 4u8) & 0xFu8) == x) by (bit_vector);
            lemma_le_canonical(raw.subrange(1, 3));
            lemma_le_canonical(raw.subrange(3, 11));
            if let Ok(v) = Self::spec_unmarshal(raw) {
                assert(v.spec_encode() =~= raw);
            }
        }
    }
}

/// The protocol's code tables: game types RMUC 1, RMUT 2, RMUA 3, RMUL 3v3 4
/// and RMUL 1v1 5; stages not started 0, prepared 1, self check 2, 5 s count
/// down 3, in progress 4 and calculating 5. A payload that decodes has the
/// game type's code in the low nibble of its first byte and the stage's code
/// in the high nibble (so a low nibble of 1 is RMUC), and every other nibble
/// value is refused; encoding puts the codes back there.
pub proof fn lemma_status_codes(s: GameStatus, raw: Seq<u8>)
    ensures
        GameType::RMUC.spec_code() == 1,
        GameType::RMUT.spec_code() == 2,
        GameType::RMUA.spec_code() == 3,
        GameType::RMUL3V3.spec_code() == 4,
        GameType::RMUL1V1.spec_code() == 5,
        GameProgress::NotStarted.spec_code() == 0,
        GameProgress::PrePared.spec_code() == 1,
        GameProgress::SelfCheck.spec_code() == 2,
        GameProgress::CountDown5s.spec_code() == 3,
        GameProgress::InProgress.spec_code() == 4,
        GameProgress::Calculating.spec_code() == 5,
        GameStatus::spec_unmarshal(raw) matches Ok(v) ==> v.game_type.spec_code() == raw[0] % 16
            && v.game_progress.spec_code() == raw[0] / 16,
        GameStatus::spec_unmarshal(raw) matches Ok(v) ==> (raw[0] % 16 == 1 <==> v.game_type
            == GameType::RMUC),
        raw.len() == SIZE && !(1 <= raw[0] % 16 <= 5 && raw[0] / 16 <= 5) ==> GameStatus::spec_unmarshal(raw) is Err,
        s.spec_encode()[0] == s.game_type.spec_code() + 16 * s.game_progress.spec_code(),
{
    if raw.len() == SIZE {
        let x = raw[0];
        assert(x & 0xFu8 == x % 16 && (x >> 4u8) & 0xFu8 == x / 16) by (bit_vector);
    }
    let t = s.game_type.spec_code();
    let p = s.game_progress.spec_code();
    assert(t < 16 && p < 16 ==> ((t & 0xFu8) | ((p & 0xFu8) << 4u8)) == t + 16 * p) by (bit_vector);
}

impl Marshaler for GameStatus {
    const CMD_ID: u16 = 0x0001;

    open spec fn spec_marshal(&self, dst_len: nat) -> Result<Seq<u8>, Error> {
        if dst_len < SIZE {
            Err(Error::BufferTooSmall { need: (SIZE - dst_len) as usize })
        } else {
            Ok(self.spec_encode())
        }
    }

    open spec fn spec_unmarshal(raw: Seq<u8>) -> Result<GameStatus, Error> {
        if raw.len() != SIZE {
            Err(Error::InvalidDataLength { expected: SIZE })
        } else {
            match GameType::spec_from_code(raw[0] & 0xFu8) {
                None => Err(Error::DecodeError { at: 0 }),
                Some(game_type) => match GameProgress::spec_from_code((raw[0] >> 4u8) & 0xFu8) {
                    None => Err(Error::DecodeError { at: 0 }),
                    Some(game_progress) => Ok(
                        GameStatus {
                            game_type,
                            game_progress,
                            remaining_time_s: le_value(raw.subrange(1, 3)) as u16,
                            unix_timestamp: le_value(raw.subrange(3, 11)) as u64,
                        },
                    ),
                },
            }
        }
    }

    fn marshal(&self, dst: &mut [u8]) -> (r: Result<usize, Error>) {
        if dst.len() < SIZE {
            return Err(Error::BufferTooSmall { need: SIZE - dst.len() });
        }
        let ghost d0 = dst@;
        proof {
            lemma_le16_field(self.remaining_time_s);
            lemma_le64_field(self.unix_timestamp);
        }
        dst[0] = (self.game_type.code() & 0xF) | ((self.game_progress.code() & 0xF) << 4u8);
        put_le(dst, 1, self.remaining_time_s as u64, 2);
        put_le(dst, 3, self.unix_timestamp, 8);
        assert(dst@ =~= self.spec_encode() + d0.skip(SIZE as int));
        Ok(SIZE)
    }

    fn unmarshal(raw: &[u8]) -> (r: Result<GameStatus, Error>) {
        if raw.len() != SIZE {
            return Err(Error::InvalidDataLength { expected: SIZE });
        }
        let game_type = match raw[0] & 0xF {
            1 => GameType::RMUC,
            2 => GameType::RMUT,
            3 => GameType::RMUA,
            4 => GameType::RMUL3V3,
            5 => GameType::RMUL1V1,
            _ => {
                return Err(Error::DecodeError { at: 0 });
            },
        };
        let game_progress = match (raw[0] >> 4u8) & 0xF {
            0 => GameProgress::NotStarted,
            1 => GameProgress::PrePared,
            2 => GameProgress::SelfCheck,
            3 => GameProgress::CountDown5s,
            4 => GameProgress::InProgress,
            5 => GameProgress::Calculating,
            _ => {
                return Err(Error::DecodeError { at: 0 });
            },
        };
        let remaining_time_s = read_le(raw, 1, 2) as u16;
        let unix_timestamp = read_le(raw, 3, 8);
        Ok(GameStatus { game_type, game_progress, remaining_time_s, unix_timestamp })
    }
}

} // verus!

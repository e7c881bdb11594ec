//! 0x0301 - Robot interaction data (robot to client): sub-command ID,
//! sender, receiver and the sub-command's data.
use vstd::prelude::*;

use crate::bytes::{copy_at, le16, le_value, lemma_le16_field, lemma_le_canonical, put_le, read_le};
use crate::error::Error;
use crate::frame::Marshaler;

verus! {

/// Largest data part that an interaction may carry.
pub const MAX_DATA: usize = 112;

/// Size of the sub-command ID, sender and receiver fields.
pub const INTERACTION_HEAD: usize = 6;

/// Sub-command of an interaction.
#[derive(Debug, Clone, Copy, PartialEq, Eq)]
pub enum Command {
    /// Code 0x0100.
    DeleteLayer,
    /// Code 0x0101.
    DrawOneFigure,
    /// Code 0x0102.
    DrawTwoFigures,
    /// Code 0x0103.
    DrawFiveFigures,
    /// Code 0x0104.
    DrawSevenFigures,
    /// Code 0x0110.
    DrawCharacter,
}

impl Command {
    /// The wire code of the sub-command.
    pub open spec fn spec_code(self) -> u16 {
        match self {
            Command::DeleteLayer => 0x0100,
            Command::DrawOneFigure => 0x0101,
            Command::DrawTwoFigures => 0x0102,
            Command::DrawFiveFigures => 0x0103,
            Command::DrawSevenFigures => 0x0104,
            Command::DrawCharacter => 0x0110,
        }
    }

    /// The sub-command with wire code `c`, if any.
    pub open spec fn spec_from_code(c: u16) -> Option<Command> {
        if c == 0x0100 {
            Some(Command::DeleteLayer)
        } else if c == 0x0101 {
            Some(Command::DrawOneFigure)
        } else if c == 0x0102 {
            Some(Command::DrawTwoFigures)
        } else if c == 0x0103 {
            Some(Command::DrawFiveFigures)
        } else if c == 0x0104 {
            Some(Command::DrawSevenFigures)
        } else if c == 0x0110 {
            Some(Command::DrawCharacter)
        } else {
            None
        }
    }

    /// The wire code of the sub-command.
    pub fn code(&self) -> (r: u16)
        ensures
            r == self.spec_code(),
    {
        match self {
            Command::DeleteLayer => 0x0100,
            Command::DrawOneFigure => 0x0101,
            Command::DrawTwoFigures => 0x0102,
            Command::DrawFiveFigures => 0x0103,
            Command::DrawSevenFigures => 0x0104,
            Command::DrawCharacter => 0x0110,
        }
    }
}

/// The sub-command code table of the client UI protocol: delete layer
/// 0x0100, draw one figure 0x0101, two figures 0x0102, five figures 0x0103,
/// seven figures 0x0104, draw a character 0x0110; each code names exactly one
/// sub-command and every other code none.
pub proof fn lemma_command_codes(c: u16)
    ensures
        Command::DeleteLayer.spec_code() == 0x0100,
        Command::DrawOneFigure.spec_code() == 0x0101,
        Command::DrawTwoFigures.spec_code() == 0x0102,
        Command::DrawFiveFigures.spec_code() == 0x0103,
        Command::DrawSevenFigures.spec_code() == 0x0104,
        Command::DrawCharacter.spec_code() == 0x0110,
        Command::spec_from_code(c) matches Some(cmd) ==> cmd.spec_code() == c,
        Command::spec_from_code(c) is None <==> !(0x0100 <= c <= 0x0104 || c == 0x0110),
{
}

/// An operation that an interaction carries: its sub-command and its `N`
/// data bytes.
pub trait AsCommand<const N: usize> {
    /// The sub-command that `as_command` returns.
    spec fn spec_command(&self) -> Command;

    /// The data bytes that `as_data` returns.
    spec fn spec_data(&self) -> Seq<u8>;

    fn as_command(&self) -> (r: Command)
        ensures
            r == self.spec_command(),
    ;

    fn as_data(&self) -> (r: [u8; N])
        ensures
            r@ == self.spec_data(),
    ;
}

/// Robot to Client
#[derive(Debug, Clone, Copy, PartialEq, Eq)]
pub struct Interaction<const N: usize> {
    pub cmd_id: Command,
    pub sender: u16,
    pub receiver: u16,
    pub data: [u8; N],
}

/// The payload length of an interaction with `n` data bytes.
pub open spec fn interaction_len(n: usize) -> usize {
    (n + INTERACTION_HEAD) as usize
}

/// Data lengths whose payload length does not fit in a `usize`; no array of
/// such a length can exist.
pub open spec fn oversized(n: usize) -> bool {
    n > usize::MAX - INTERACTION_HEAD
}

impl<const N: usize> Interaction<N> {
    /// Build an interaction from its sender, its receiver and an operation.
    pub fn new<A: AsCommand<N>>(sender: u16, receiver: u16, option: A) -> (r: Self)
        ensures
            r.cmd_id == option.spec_command(),
            r.sender == sender,
            r.receiver == receiver,
            r.data@ == option.spec_data(),
    {
        let cmd_id = option.as_command();
        let data = option.as_data();
        Self { cmd_id, sender, receiver, data }
    }

    /// The payload bytes of `self`.
    pub open spec fn spec_encode(self) -> Seq<u8> {
        le16(self.cmd_id.spec_code()) + le16(self.sender) + le16(self.receiver) + self.data@
    }

    /// Decoding the encoding gives the value back, and every payload that
    /// decodes is the encoding of what it decodes to.
    pub proof fn lemma_codec(self, raw: Seq<u8>)
        requires
            !oversized(N),
        ensures
            Self::spec_unmarshal(self.spec_encode()) == Ok::<Interaction<N>, Error>(self),
            Self::spec_unmarshal(raw) matches Ok(v) ==> v.spec_encode() == raw,
    {
        let e = self.spec_encode();
        lemma_le16_field(self.cmd_id.spec_code());
        lemma_le16_field(self.sender);
        lemma_le16_field(self.receiver);
        assert(e.subrange(0, 2) =~= le16(self.cmd_id.spec_code()));
        assert(e.subrange(2, 4) =~= le16(self.sender));
        assert(e.subrange(4, 6) =~= le16(self.receiver));
        assert(e.subrange(6, 6 + N as int) =~= self.data@);
        assert(exists|a: [u8; N]| a@ == e.subrange(6, e.len() as int)) by {
            assert(self.data@ == e.subrange(6, e.len() as int));
        }
        let c: [u8; N] = array_with(e.subrange(6, e.len() as int));
        assert(c =~= self.data);
        if let Ok(v) = Self::spec_unmarshal(raw) {
            let sub = raw.subrange(6, raw.len() as int);
            lemma_array_with::<N>(sub);
            lemma_le_canonical(raw.subrange(0, 2));
            lemma_le_canonical(raw.subrange(2, 4));
            lemma_le_canonical(raw.subrange(4, 6));
            assert(v.spec_encode() =~= raw);
        }
    }
}

/// An interaction payload starts with its sub-command's code, little endian:
/// encoding writes it there, and a payload decodes to the sub-command whose
/// code its first two bytes hold.
pub proof fn lemma_interaction_command<const N: usize>(i: Interaction<N>, raw: Seq<u8>)
    ensures
        i.spec_encode().subrange(0, 2) == le16(i.cmd_id.spec_code()),
        Interaction::<N>::spec_unmarshal(raw) matches Ok(v) ==> v.cmd_id.spec_code() == le_value(
            raw.subrange(0, 2),
        ),
{
    lemma_le16_field(i.cmd_id.spec_code());
    assert(i.spec_encode().subrange(0, 2) =~= le16(i.cmd_id.spec_code()));
    if let Ok(v) = Interaction::<N>::spec_unmarshal(raw) {
        lemma_le_canonical(raw.subrange(0, 2));
        crate::bytes::lemma_pow256_facts();
    }
}

impl<const N: usize> Marshaler for Interaction<N> {
    const CMD_ID: u16 = 0x0301;

    open spec fn spec_marshal(&self, dst_len: nat) -> Result<Seq<u8>, Error> {
        if oversized(N) {
            Err(Error::InputTooLarge { max: MAX_DATA })
        } else if dst_len < interaction_len(N) {
            Err(Error::BufferTooSmall { need: interaction_len(N) })
        } else if N > MAX_DATA {
            Err(Error::InputTooLarge { max: MAX_DATA })
        } else {
            Ok(self.spec_encode())
        }
    }

    open spec fn spec_unmarshal(raw: Seq<u8>) -> Result<Interaction<N>, Error> {
        if oversized(N) {
            Err(Error::InputTooLarge { max: MAX_DATA })
        } else if raw.len() != interaction_len(N) {
            Err(
                Error::InvalidDataLength {
                    expected: vstd::wrapping::usize_specs::wrapping_sub(
                        interaction_len(N),
                        raw.len() as usize,
                    ),
                },
            )
        } else {
            match Command::spec_from_code(le_value(raw.subrange(0, 2)) as u16) {
                None => Err(Error::DecodeError { at: 1 }),
                Some(cmd_id) => Ok(
                    Interaction {
                        cmd_id,
                        sender: le_value(raw.subrange(2, 4)) as u16,
                        receiver: le_value(raw.subrange(4, 6)) as u16,
                        data: array_with(raw.subrange(6, raw.len() as int)),
                    },
                ),
            }
        }
    }

    fn marshal(&self, dst: &mut [u8]) -> (r: Result<usize, Error>) {
        if N > usize::MAX - INTERACTION_HEAD {
            return Err(Error::InputTooLarge { max: MAX_DATA });
        }
        let need = N + INTERACTION_HEAD;
        if dst.len() < need {
            return Err(Error::BufferTooSmall { need });
        }
        if N > MAX_DATA {
            return Err(Error::InputTooLarge { max: MAX_DATA });
        }
        let ghost d0 = dst@;
        proof {
            lemma_le16_field(self.cmd_id.spec_code());
            lemma_le16_field(self.sender);
            lemma_le16_field(self.receiver);
        }
        put_le(dst, 0, self.cmd_id.code() as u64, 2);
        put_le(dst, 2, self.sender as u64, 2);
        assert(dst@ =~= le16(self.cmd_id.spec_code()) + le16(self.sender) + d0.skip(4));
        put_le(dst, 4, self.receiver as u64, 2);
        assert(dst@ =~= le16(self.cmd_id.spec_code()) + le16(self.sender) + le16(self.receiver) + d0.skip(6));
        copy_at(dst, INTERACTION_HEAD, &self.data);
        assert(dst@ =~= self.spec_encode() + d0.skip(N + INTERACTION_HEAD));
        Ok(N + INTERACTION_HEAD)
    }

    fn unmarshal(raw: &[u8]) -> (r: Result<Interaction<N>, Error>) {
        if N > usize::MAX - INTERACTION_HEAD {
            return Err(Error::InputTooLarge { max: MAX_DATA });
        }
        let len = N + INTERACTION_HEAD;
        if raw.len() != len {
            return Err(Error::InvalidDataLength { expected: len.wrapping_sub(raw.len()) });
        }
        let cmd_id = match read_le(raw, 0, 2) as u16 {
            0x0100 => Command::DeleteLayer,
            0x0101 => Command::DrawOneFigure,
            0x0102 => Command::DrawTwoFigures,
            0x0103 => Command::DrawFiveFigures,
            0x0104 => Command::DrawSevenFigures,
            0x0110 => Command::DrawCharacter,
            _ => {
                return Err(Error::DecodeError { at: 1 });
            },
        };
        let sender = read_le(raw, 2, 2) as u16;
        let receiver = read_le(raw, 4, 2) as u16;
        let data: [u8; N] = array_from(vstd::slice::slice_subrange(raw, INTERACTION_HEAD, raw.len()));
        proof {
            let sub = raw@.subrange(6, raw@.len() as int);
            assert(exists|a: [u8; N]| a@ == sub) by {
                assert(data@ == sub);
            }
            let c: [u8; N] = array_with(sub);
            assert(c@ == sub);
            assert(c =~= data);
        }
        Ok(Interaction { cmd_id, sender, receiver, data })
    }
}

/// The array whose elements are `s`, when `s` has `N` elements.
pub open spec fn array_with<const N: usize>(s: Seq<u8>) -> [u8; N] {
    choose|a: [u8; N]| a@ == s
}

spec fn array_prefix<const N: usize>(s: Seq<u8>, k: nat) -> [u8; N]
    decreases k,
{
    if k == 0 {
        vstd::array::spec_array_fill_for_copy_type::<u8, N>(0u8)
    } else {
        vstd::array::spec_array_update(array_prefix::<N>(s, (k - 1) as nat), k - 1, s[k - 1])
    }
}

proof fn lemma_array_prefix<const N: usize>(s: Seq<u8>, k: nat)
    requires
        k <= N,
        s.len() == N,
    ensures
        array_prefix::<N>(s, k)@.len() == N,
        forall|i: int| 0 <= i < k ==> array_prefix::<N>(s, k)@[i] == s[i],
    decreases k,
{
    broadcast use vstd::array::group_array_axioms;
    if k > 0 {
        lemma_array_prefix::<N>(s, (k - 1) as nat);
    } else {
        let a = vstd::array::spec_array_fill_for_copy_type::<u8, N>(0u8);
        assert(a@.len() == N);
    }
}

/// Every sequence of `N` bytes is the view of an array.
pub(crate) proof fn lemma_array_with<const N: usize>(s: Seq<u8>)
    requires
        s.len() == N,
    ensures
        array_with::<N>(s)@ == s,
{
    lemma_array_prefix::<N>(s, N as nat);
    let a = array_prefix::<N>(s, N as nat);
    assert(a@ =~= s);
}

pub(crate) fn array_from<const N: usize>(s: &[u8]) -> (r: [u8; N])
    requires
        s@.len() == N,
    ensures
        r@ == s@,
{
    let mut data = [0u8; N];
    let mut i: usize = 0;
    while i < N
        invariant
            i <= N,
            s@.len() == N,
            data@.len() == N,
            forall|j: int| 0 <= j < i ==> data@[j] == s@[j],
        decreases N - i,
    {
        data[i] = s[i];
        i = i + 1;
    }
    assert(data@ =~= s@);
    data
}

} // verus!

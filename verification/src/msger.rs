//! Frame packing and unpacking.
//!
//! ```text
//! +--------+--------+--------+--------+--------+---------+--------+
//! |  SOF   |  LEN   |  SEQ   |  CRC8  | CMD_ID |  DATA   | CRC16  |
//! +--------+--------+--------+--------+--------+---------+--------+
//! | 1 byte | 2 byte | 1 byte | 1 byte | 2 byte | N bytes | 2 byte |
//! +--------+--------+--------+--------+--------+---------+--------+
//! ```
//!
//! `LEN`, `CMD_ID` and `CRC16` are little endian. `CRC8` covers the four
//! bytes before it, `CRC16` everything before it.
use core::marker::PhantomData;
use vstd::prelude::*;

use crate::bytes::{copy_prefix, le16, le_bytes, le_value, lemma_le_value_of_bytes, lemma_pow256_facts};
use crate::error::Error;
use crate::frame::{Marshaler, RawFrame, Validator};

verus! {

/// Start of frame byte.
pub const SOF: u8 = 0xA5;

/// Size of the frame header (SOF + length + sequence + CRC8).
pub const HEAD_SIZE: usize = 5;

/// Size of the command ID field.
pub const CMDID_SIZE: usize = 2;

/// Size of the tail CRC field.
pub const TAIL_SIZE: usize = 2;

/// Largest payload that the length field can describe.
pub const MAX_PAYLOAD: usize = 0xFFFF;

/// The five header bytes of a frame with a payload of `len` bytes.
pub open spec fn frame_header<V: Validator>(len: u16, seq: u8) -> Seq<u8> {
    let h = seq![SOF] + le16(len) + seq![seq];
    h.push(V::spec_crc8(h))
}

/// Header, command ID and payload: the bytes that the tail CRC covers.
pub open spec fn frame_body<V: Validator>(cmd_id: u16, seq: u8, payload: Seq<u8>) -> Seq<u8> {
    frame_header::<V>(payload.len() as u16, seq) + le16(cmd_id) + payload
}

/// The complete frame that carries `payload`.
pub open spec fn frame_bytes<V: Validator>(cmd_id: u16, seq: u8, payload: Seq<u8>) -> Seq<u8> {
    let body = frame_body::<V>(cmd_id, seq, payload);
    body + le16(V::spec_crc16(body))
}

/// The sequence number that follows `seq`.
pub open spec fn next_sequence(seq: u8) -> u8 {
    if seq == 255 {
        0
    } else {
        (seq + 1) as u8
    }
}

/// What `pack` produces for `msg` with sequence number `seq` into a
/// destination of `dst_len` bytes: the frame bytes, or the error.
pub open spec fn spec_pack<V: Validator, M: Marshaler>(msg: M, seq: u8, dst_len: nat) -> Result<Seq<u8>, Error> {
    if dst_len < HEAD_SIZE + CMDID_SIZE {
        Err(Error::BufferTooSmall { need: (HEAD_SIZE + CMDID_SIZE) as usize })
    } else {
        match msg.spec_marshal((dst_len - HEAD_SIZE - CMDID_SIZE) as nat) {
            Err(e) => Err(e),
            Ok(payload) => if payload.len() > MAX_PAYLOAD {
                Err(Error::InputTooLarge { max: MAX_PAYLOAD })
            } else if dst_len < payload.len() + HEAD_SIZE + CMDID_SIZE + TAIL_SIZE {
                Err(Error::BufferTooSmall {
                    need: (payload.len() + HEAD_SIZE + CMDID_SIZE + TAIL_SIZE - dst_len) as usize,
                })
            } else {
                Ok(frame_bytes::<V>(M::CMD_ID, seq, payload))
            },
        }
    }
}

/// The sequence number after `k` successful packs from `seq`.
pub open spec fn sequence_after(seq: u8, k: nat) -> u8
    decreases k,
{
    if k == 0 {
        seq
    } else {
        next_sequence(sequence_after(seq, (k - 1) as nat))
    }
}

/// A `Messager` created with sequence number `seq` writes `(seq + k) mod 256`
/// as the sequence byte (byte 3) of the frame of its `k + 1`-th successful
/// pack, whatever failed packs come between: each success advances the
/// number by one, wrapping from 255 to 0, and each failure leaves it.
pub proof fn lemma_sequence_wraps<V: Validator>(seq: u8, k: nat, cmd_id: u16, payload: Seq<u8>)
    ensures
        sequence_after(seq, k) == (seq + k) % 256,
        frame_bytes::<V>(cmd_id, sequence_after(seq, k), payload)[3] == (seq + k) % 256,
    decreases k,
{
    if k > 0 {
        lemma_sequence_wraps::<V>(seq, (k - 1) as nat, cmd_id, payload);
    }
    lemma_le16(payload.len() as u16);
}

/// What a failed `pack` of `msg` leaves in a destination that held `dst`:
/// the destination as it was, except that once the payload was marshaled,
/// it stands after the seven bytes of header and command ID, which are
/// still as they were.
pub open spec fn spec_pack_residue<M: Marshaler>(msg: M, dst: Seq<u8>) -> Seq<u8> {
    if dst.len() < HEAD_SIZE + CMDID_SIZE {
        dst
    } else {
        match msg.spec_marshal((dst.len() - HEAD_SIZE - CMDID_SIZE) as nat) {
            Ok(payload) => dst.take((HEAD_SIZE + CMDID_SIZE) as int) + payload + dst.skip(
                HEAD_SIZE + CMDID_SIZE + payload.len(),
            ),
            Err(_) => dst,
        }
    }
}

/// `i` is the position of the first start-of-frame byte of `s`.
pub open spec fn is_first_sof(s: Seq<u8>, i: int) -> bool {
    &&& 0 <= i < s.len()
    &&& s[i] == SOF
    &&& forall|j: int| 0 <= j < i ==> s[j] != SOF
}

/// The payload length that the header at the start of `s` announces.
pub open spec fn announced_len(s: Seq<u8>) -> nat {
    le_value(s.subrange(1, 3))
}

/// What `unpack` returns for `src`: command ID, sequence number, payload and
/// the number of bytes consumed; or the error.
pub open spec fn spec_unpack<V: Validator>(src: Seq<u8>) -> Result<(u16, u8, Seq<u8>, nat), Error> {
    if !(src.len() > 0 && src[0] == SOF) {
        if exists|i: int| #[trigger] is_first_sof(src, i) {
            Err(Error::ReSync { skip: (choose|i: int| is_first_sof(src, i)) as usize })
        } else {
            Err(Error::MissingHeader { skip: src.len() as usize })
        }
    } else if src.len() < HEAD_SIZE {
        Err(Error::UnexpectedEnd { read: src.len() as usize })
    } else if V::spec_crc8(src.take(4)) != src[4] {
        Err(Error::InvalidChecksum { at: HEAD_SIZE })
    } else {
        let len = announced_len(src);
        if src.len() < len + HEAD_SIZE + CMDID_SIZE + TAIL_SIZE {
            Err(Error::UnexpectedEnd { read: src.len() as usize })
        } else if V::spec_crc16(src.take(len + HEAD_SIZE + CMDID_SIZE)) != le_value(
            src.subrange(len + HEAD_SIZE + CMDID_SIZE, len + HEAD_SIZE + CMDID_SIZE + TAIL_SIZE),
        ) {
            Err(Error::InvalidChecksum { at: (len + HEAD_SIZE + CMDID_SIZE + TAIL_SIZE) as usize })
        } else {
            Ok(
                (
                    le_value(src.subrange(5, 7)) as u16,
                    src[3],
                    src.subrange(HEAD_SIZE + CMDID_SIZE, len + HEAD_SIZE + CMDID_SIZE),
                    (len + HEAD_SIZE + CMDID_SIZE + TAIL_SIZE) as nat,
                ),
            )
        }
    }
}

proof fn lemma_le16(v: u16)
    ensures
        le16(v) == seq![(v % 256) as u8, (v / 256) as u8],
{
    reveal_with_fuel(le_bytes, 3);
    assert((v / 256) / 256 == 0);
    assert(le16(v) =~= seq![(v % 256) as u8, (v / 256) as u8]);
}

proof fn lemma_le_value2(a: u8, b: u8)
    ensures
        le_value(seq![a, b]) == a + 256 * b,
{
    reveal_with_fuel(le_value, 3);
    assert(seq![a, b].drop_first() =~= seq![b]);
    assert(seq![b].drop_first() =~= Seq::<u8>::empty());
}

proof fn lemma_first_sof_exists(s: Seq<u8>, i: int)
    requires
        0 <= i < s.len(),
        s[i] == SOF,
    ensures
        exists|k: int| #[trigger] is_first_sof(s, k),
    decreases i,
{
    if exists|j: int| 0 <= j < i && s[j] == SOF {
        let j = choose|j: int| 0 <= j < i && s[j] == SOF;
        lemma_first_sof_exists(s, j);
    } else {
        assert(is_first_sof(s, i));
    }
}

/// A frame built from a payload of at most `MAX_PAYLOAD` bytes unpacks to
/// that command ID, sequence number and payload, and takes exactly its own
/// length, whatever bytes follow it.
pub proof fn lemma_unpack_frame_bytes<V: Validator>(cmd_id: u16, seq: u8, payload: Seq<u8>, rest: Seq<u8>)
    requires
        payload.len() <= MAX_PAYLOAD,
    ensures
        spec_unpack::<V>(frame_bytes::<V>(cmd_id, seq, payload) + rest) == Ok::<
            (u16, u8, Seq<u8>, nat),
            Error,
        >((cmd_id, seq, payload, (payload.len() + HEAD_SIZE + CMDID_SIZE + TAIL_SIZE) as nat)),
{
    let len = payload.len() as int;
    let len16 = len as u16;
    let h4 = seq![SOF] + le16(len16) + seq![seq];
    let body = frame_body::<V>(cmd_id, seq, payload);
    let crc16 = V::spec_crc16(body);
    let frame = frame_bytes::<V>(cmd_id, seq, payload);
    let s = frame + rest;
    lemma_le16(len16);
    lemma_le16(cmd_id);
    lemma_le16(crc16);
    lemma_pow256_facts();
    assert(frame.len() == len + 9);
    assert(s[0] == SOF);
    assert(s.take(4) =~= h4);
    assert(s.subrange(1, 3) =~= le16(len16));
    lemma_le_value_of_bytes(len16 as nat, 2);
    assert(announced_len(s) == len);
    assert(s.take(len + 7) =~= body);
    assert(s.subrange(len + 7, len + 9) =~= le16(crc16));
    lemma_le_value_of_bytes(crc16 as nat, 2);
    assert(s.subrange(5, 7) =~= le16(cmd_id));
    lemma_le_value_of_bytes(cmd_id as nat, 2);
    assert(s.subrange(7, len + 7) =~= payload);
}

/// What `pack` writes, `unpack` reads back: the command ID of the message
/// type, the sequence number the frame was packed with, the marshaled payload,
/// and the whole frame as consumed length.
pub proof fn lemma_pack_unpack<V: Validator, M: Marshaler>(msg: M, seq: u8, dst_len: nat, rest: Seq<u8>)
    ensures
        spec_pack::<V, M>(msg, seq, dst_len) matches Ok(frame) ==> {
            let payload = msg.spec_marshal((dst_len - HEAD_SIZE - CMDID_SIZE) as nat)->Ok_0;
            spec_unpack::<V>(frame + rest) == Ok::<(u16, u8, Seq<u8>, nat), Error>(
                (M::CMD_ID, seq, payload, frame.len()),
            )
        },
{
    if let Ok(frame) = spec_pack::<V, M>(msg, seq, dst_len) {
        let payload = msg.spec_marshal((dst_len - HEAD_SIZE - CMDID_SIZE) as nat)->Ok_0;
        lemma_unpack_frame_bytes::<V>(M::CMD_ID, seq, payload, rest);
        lemma_le16(payload.len() as u16);
        lemma_le16(M::CMD_ID);
        lemma_le16(V::spec_crc16(frame_body::<V>(M::CMD_ID, seq, payload)));
    }
}

/// `unpack` never consumes or asks to skip more bytes than it was given; a
/// resynchronisation points at the next start-of-frame marker past the
/// first byte, and a missing header means that the input holds no marker.
pub proof fn lemma_unpack_skip<V: Validator>(src: Seq<u8>)
    requires
        src.len() <= usize::MAX,
    ensures
        spec_unpack::<V>(src) matches Ok((_, _, _, n)) ==> n <= src.len(),
        spec_unpack::<V>(src) matches Err(e) ==> e.spec_skip() <= src.len(),
        spec_unpack::<V>(src) matches Err(Error::ReSync { skip }) ==> 0 < skip < src.len()
            && src[skip as int] == SOF,
        spec_unpack::<V>(src) matches Err(Error::MissingHeader { skip }) ==> skip == src.len()
            && forall|i: int| 0 <= i < src.len() ==> src[i] != SOF,
{
    if !(src.len() > 0 && src[0] == SOF) {
        if exists|i: int| #[trigger] is_first_sof(src, i) {
            let k = choose|i: int| is_first_sof(src, i);
            assert(is_first_sof(src, k));
        } else {
            assert forall|i: int| 0 <= i < src.len() implies src[i] != SOF by {
                if src[i] == SOF {
                    lemma_first_sof_exists(src, i);
                }
            }
        }
    }
}

fn set_pair(dst: &mut [u8], at: usize, a: u8, b: u8)
    requires
        at + 2 <= old(dst)@.len(),
    ensures
        final(dst)@ == old(dst)@.take(at as int) + seq![a, b] + old(dst)@.skip(at + 2),
{
    dst[at] = a;
    dst[at + 1] = b;
    assert(dst@ =~= old(dst)@.take(at as int) + seq![a, b] + old(dst)@.skip(at + 2));
}

/// Frame encoder and decoder.
///
/// Generic over a `Validator`, so that different CRC implementations can be
/// used with the same framing logic. The sequence number is incremented
/// (wrapping) on each successful call to `pack`.
#[derive(Debug)]
pub struct Messager<V: Validator> {
    /// Current frame sequence number.
    sequence: u8,
    /// Marker for the validator type.
    _marker: PhantomData<V>,
}

impl<V: Validator> View for Messager<V> {
    /// The sequence number of the next packed frame.
    type V = u8;

    closed spec fn view(&self) -> u8 {
        self.sequence
    }
}

impl<V: Validator> Messager<V> {
    /// Create a new `Messager` with the given initial sequence number.
    pub fn new(seq: u8) -> (r: Self)
        ensures
            r@ == seq,
    {
        Self { sequence: seq, _marker: PhantomData }
    }

    /// Pack a message into a binary frame written at the start of `dst`.
    ///
    /// On success, returns the total number of bytes written and advances the
    /// sequence number.
    pub fn pack<M: Marshaler>(&mut self, msg: &M, dst: &mut [u8]) -> (r: Result<usize, Error>)
        ensures
            final(dst)@.len() == old(dst)@.len(),
            match spec_pack::<V, M>(*msg, old(self)@, old(dst)@.len()) {
                Ok(frame) => {
                    &&& r matches Ok(n) && n == frame.len()
                    &&& final(dst)@ == frame + old(dst)@.skip(frame.len() as int)
                    &&& final(self)@ == next_sequence(old(self)@)
                },
                Err(e) => {
                    &&& r == Err::<usize, Error>(e)
                    &&& final(self)@ == old(self)@
                    &&& final(dst)@ == spec_pack_residue(*msg, old(dst)@)
                },
            },
    {
        let payload_offset = HEAD_SIZE + CMDID_SIZE;
        if dst.len() < payload_offset {
            return Err(Error::BufferTooSmall { need: payload_offset });
        }
        let ghost d0 = dst@;
        let marshaled: Result<usize, Error>;
        {
            let (head, rest) = dst.split_at_mut(payload_offset);
            marshaled = msg.marshal(rest);
        }
        let size: usize = match marshaled {
            Ok(n) => n,
            Err(e) => {
                assert(dst@ =~= d0);
                return Err(e);
            },
        };
        let ghost payload = msg.spec_marshal((d0.len() - payload_offset) as nat)->Ok_0;
        assert(dst@ =~= d0.take(7) + payload + d0.skip(7 + payload.len() as int));

        if size > MAX_PAYLOAD {
            return Err(Error::InputTooLarge { max: MAX_PAYLOAD });
        }
        let total = HEAD_SIZE + CMDID_SIZE + size + TAIL_SIZE;
        if dst.len() < total {
            return Err(Error::BufferTooSmall { need: total - dst.len() });
        }
        let cmd_id = M::CMD_ID;
        let sequence = self.sequence;
        let len16 = size as u16;
        let h4: [u8; 4] = [SOF, (len16 % 256) as u8, (len16 / 256) as u8, sequence];
        let crc8 = V::calculate_crc8(&h4);
        let hdr: [u8; 7] = [
            SOF,
            (len16 % 256) as u8,
            (len16 / 256) as u8,
            sequence,
            crc8,
            (cmd_id % 256) as u8,
            (cmd_id / 256) as u8,
        ];
        let ghost da = dst@;
        copy_prefix(dst, &hdr);
        let ghost header = frame_header::<V>(len16, sequence);
        let ghost body = frame_body::<V>(cmd_id, sequence, payload);
        proof {
            lemma_le16(len16);
            lemma_le16(cmd_id);
            assert(h4@ =~= seq![SOF] + le16(len16) + seq![sequence]);
            assert(hdr@ =~= header + le16(cmd_id));
            assert(dst@ =~= body + d0.skip(total - 2));
        }
        let cursor = payload_offset + size;
        let crc16 = V::calculate_crc16(vstd::slice::slice_subrange(&*dst, 0, cursor));
        assert(dst@.subrange(0, cursor as int) =~= body);
        let ghost db = dst@;
        set_pair(dst, cursor, (crc16 % 256) as u8, (crc16 / 256) as u8);
        self.sequence = self.sequence.wrapping_add(1);
        proof {
            lemma_le16(crc16);
            let frame = frame_bytes::<V>(cmd_id, sequence, payload);
            assert(frame =~= body + seq![(crc16 % 256) as u8, (crc16 / 256) as u8]);
            assert(db.take(cursor as int) =~= body);
            assert(db.skip(total as int) =~= d0.skip(total as int));
            assert(dst@ =~= frame + d0.skip(frame.len() as int));
        }
        Ok(total)
    }

    /// Unpack one frame from the start of `src`.
    ///
    /// Checks the start-of-frame marker, the header CRC8, the length and the
    /// frame CRC16. On success, returns the frame and the number of bytes it
    /// takes in `src`.
    pub fn unpack<'t>(&self, src: &'t [u8]) -> (r: Result<(RawFrame<'t>, usize), Error>)
        ensures
            match spec_unpack::<V>(src@) {
                Ok((cmd_id, seq, payload, n)) => r matches Ok((f, m)) && f@ == (cmd_id, seq, payload)
                    && m == n,
                Err(e) => r == Err::<(RawFrame<'t>, usize), Error>(e),
            },
    {
        let len = src.len();
        if !(len > 0 && src[0] == SOF) {
            let mut i: usize = 0;
            while i < len
                invariant
                    len == src@.len(),
                    !(len > 0 && src@[0] == SOF),
                    i <= len,
                    forall|j: int| 0 <= j < i ==> src@[j] != SOF,
                decreases len - i,
            {
                if src[i] == SOF {
                    proof {
                        assert(is_first_sof(src@, i as int));
                        assert(exists|k: int| #[trigger] is_first_sof(src@, k));
                        let k = choose|k: int| is_first_sof(src@, k);
                        assert(k == i as int);
                    }
                    return Err(Error::ReSync { skip: i });
                }
                i = i + 1;
            }
            assert(!exists|k: int| is_first_sof(src@, k));
            return Err(Error::MissingHeader { skip: len });
        }
        if len < HEAD_SIZE {
            return Err(Error::UnexpectedEnd { read: len });
        }
        let crc8 = V::calculate_crc8(vstd::slice::slice_subrange(src, 0, 4));
        if crc8 != src[4] {
            assert(src@.subrange(0, 4) =~= src@.take(4));
            return Err(Error::InvalidChecksum { at: HEAD_SIZE });
        }
        let length: usize = src[1] as usize + (src[2] as usize) * 256;
        proof {
            lemma_le_value2(src@[1], src@[2]);
            assert(src@.subrange(1, 3) =~= seq![src@[1], src@[2]]);
            assert(src@.subrange(0, 4) =~= src@.take(4));
        }
        let end = length + HEAD_SIZE + CMDID_SIZE;
        if len < end + TAIL_SIZE {
            return Err(Error::UnexpectedEnd { read: len });
        }
        let crc16 = V::calculate_crc16(vstd::slice::slice_subrange(src, 0, end));
        let tail: u16 = src[end] as u16 + (src[end + 1] as u16) * 256;
        proof {
            lemma_le_value2(src@[end as int], src@[end + 1]);
            assert(src@.subrange(end as int, end + 2) =~= seq![src@[end as int], src@[end + 1]]);
            assert(src@.subrange(0, end as int) =~= src@.take(end as int));
        }
        if crc16 != tail {
            return Err(Error::InvalidChecksum { at: end + TAIL_SIZE });
        }
        let cmd_id: u16 = src[5] as u16 + (src[6] as u16) * 256;
        proof {
            lemma_le_value2(src@[5], src@[6]);
            assert(src@.subrange(5, 7) =~= seq![src@[5], src@[6]]);
        }
        let payload = vstd::slice::slice_subrange(src, HEAD_SIZE + CMDID_SIZE, end);
        Ok((RawFrame::new(cmd_id, src[3], payload), end + TAIL_SIZE))
    }
}

} // verus!

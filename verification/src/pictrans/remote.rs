//! 0x0304 - Remote control from the keyboard and mouse (to the controlled robot).
use vstd::prelude::*;

use crate::bytes::{
    i16_bits, i16_from_bits, i16_of_bits, i16_to_bits, le16, le_value, lemma_le16_field,
    lemma_le_canonical, put_le, read_le,
};
use crate::error::Error;
use crate::frame::Marshaler;

verus! {

/// Payload size in bytes.
pub const SIZE: usize = 12;

/// Keyboard to Controlled Robot, sent at 30Hz.
#[derive(Debug, Clone, Copy, PartialEq, Eq)]
pub struct RemoteControl {
    pub mouse_x: i16,
    pub mouse_y: i16,
    pub mouse_z: i16,
    pub left_button: bool,
    pub right_button: bool,
    /// One bit per key, `W` in bit 0 up to `B` in bit 15.
    pub keyboard_v: u16,
    pub _reserved: u16,
}

/// The wire byte of a button state.
pub open spec fn button_byte(pressed: bool) -> u8 {
    if pressed {
        1
    } else {
        0
    }
}

impl RemoteControl {
    /// The payload bytes of `self`.
    pub open spec fn spec_encode(self) -> Seq<u8> {
        le16(i16_bits(self.mouse_x)) + le16(i16_bits(self.mouse_y)) + le16(i16_bits(self.mouse_z))
            + seq![button_byte(self.left_button), button_byte(self.right_button)] + le16(
            self.keyboard_v,
        ) + le16(self._reserved)
    }

    /// The value that a payload of `SIZE` bytes decodes to.
    pub open spec fn spec_decode(raw: Seq<u8>) -> RemoteControl {
        RemoteControl {
            mouse_x: i16_of_bits(le_value(raw.subrange(0, 2)) as u16),
            mouse_y: i16_of_bits(le_value(raw.subrange(2, 4)) as u16),
            mouse_z: i16_of_bits(le_value(raw.subrange(4, 6)) as u16),
            left_button: raw[6] != 0,
            right_button: raw[7] != 0,
            keyboard_v: le_value(raw.subrange(8, 10)) as u16,
            _reserved: le_value(raw.subrange(10, 12)) as u16,
        }
    }

    pub fn mouse_vx(&self) -> (r: i16)
        ensures
            r == self.mouse_x,
    {
        self.mouse_x
    }

    pub fn mouse_vy(&self) -> (r: i16)
        ensures
            r == self.mouse_y,
    {
        self.mouse_y
    }

    pub fn mouse_vz(&self) -> (r: i16)
        ensures
            r == self.mouse_z,
    {
        self.mouse_z
    }

    pub fn left_button_pressed(&self) -> (r: bool)
        ensures
            r == self.left_button,
    {
        self.left_button
    }

    pub fn right_button_pressed(&self) -> (r: bool)
        ensures
            r == self.right_button,
    {
        self.right_button
    }

    /// Whether key `W` is pressed (bit 0).
    pub fn keyboard_w(&self) -> (r: bool)
        ensures
            r == (self.keyboard_v & 0x0001u16 != 0u16),
    {
        self.keyboard_v & 0x0001u16 != 0u16
    }

    /// Whether key `S` is pressed (bit 1).
    pub fn keyboard_s(&self) -> (r: bool)
        ensures
            r == (self.keyboard_v & 0x0002u16 != 0u16),
    {
        self.keyboard_v & 0x0002u16 != 0u16
    }

    /// Whether key `A` is pressed (bit 2).
    pub fn keyboard_a(&self) -> (r: bool)
        ensures
            r == (self.keyboard_v & 0x0004u16 != 0u16),
    {
        self.keyboard_v & 0x0004u16 != 0u16
    }

    /// Whether key `D` is pressed (bit 3).
    pub fn keyboard_d(&self) -> (r: bool)
        ensures
            r == (self.keyboard_v & 0x0008u16 != 0u16),
    {
        self.keyboard_v & 0x0008u16 != 0u16
    }

    /// Whether key `shift` is pressed (bit 4).
    pub fn keyboard_shift(&self) -> (r: bool)
        ensures
            r == (self.keyboard_v & 0x0010u16 != 0u16),
    {
        self.keyboard_v & 0x0010u16 != 0u16
    }

    /// Whether key `ctrl` is pressed (bit 5).
    pub fn keyboard_ctrl(&self) -> (r: bool)
        ensures
            r == (self.keyboard_v & 0x0020u16 != 0u16),
    {
        self.keyboard_v & 0x0020u16 != 0u16
    }

    /// Whether key `Q` is pressed (bit 6).
    pub fn keyboard_q(&self) -> (r: bool)
        ensures
            r == (self.keyboard_v & 0x0040u16 != 0u16),
    {
        self.keyboard_v & 0x0040u16 != 0u16
    }

    /// Whether key `E` is pressed (bit 7).
    pub fn keyboard_e(&self) -> (r: bool)
        ensures
            r == (self.keyboard_v & 0x0080u16 != 0u16),
    {
        self.keyboard_v & 0x0080u16 != 0u16
    }

    /// Whether key `R` is pressed (bit 8).
    pub fn keyboard_r(&self) -> (r: bool)
        ensures
            r == (self.keyboard_v & 0x0100u16 != 0u16),
    {
        self.keyboard_v & 0x0100u16 != 0u16
    }

    /// Whether key `F` is pressed (bit 9).
    pub fn keyboard_f(&self) -> (r: bool)
        ensures
            r == (self.keyboard_v & 0x0200u16 != 0u16),
    {
        self.keyboard_v & 0x0200u16 != 0u16
    }

    /// Whether key `G` is pressed (bit 10).
    pub fn keyboard_g(&self) -> (r: bool)
        ensures
            r == (self.keyboard_v & 0x0400u16 != 0u16),
    {
        self.keyboard_v & 0x0400u16 != 0u16
    }

    /// Whether key `Z` is pressed (bit 11).
    pub fn keyboard_z(&self) -> (r: bool)
        ensures
            r == (self.keyboard_v & 0x0800u16 != 0u16),
    {
        self.keyboard_v & 0x0800u16 != 0u16
    }

    /// Whether key `X` is pressed (bit 12).
    pub fn keyboard_x(&self) -> (r: bool)
        ensures
            r == (self.keyboard_v & 0x1000u16 != 0u16),
    {
        self.keyboard_v & 0x1000u16 != 0u16
    }

    /// Whether key `C` is pressed (bit 13).
    pub fn keyboard_c(&self) -> (r: bool)
        ensures
            r == (self.keyboard_v & 0x2000u16 != 0u16),
    {
        self.keyboard_v & 0x2000u16 != 0u16
    }

    /// Whether key `V` is pressed (bit 14).
    pub fn keyboard_v(&self) -> (r: bool)
        ensures
            r == (self.keyboard_v & 0x4000u16 != 0u16),
    {
        self.keyboard_v & 0x4000u16 != 0u16
    }

    /// Whether key `B` is pressed (bit 15).
    pub fn keyboard_b(&self) -> (r: bool)
        ensures
            r == (self.keyboard_v & 0x8000u16 != 0u16),
    {
        self.keyboard_v & 0x8000u16 != 0u16
    }

    /// Decoding the encoding gives the value back, and every payload that
    /// decodes, with button bytes 0 or 1, is the encoding of what it decodes to.
    pub proof fn lemma_codec(self, raw: Seq<u8>)
        ensures
            Self::spec_unmarshal(self.spec_encode()) == Ok::<RemoteControl, Error>(self),
            raw.len() == SIZE && raw[6] <= 1 && raw[7] <= 1 ==> Self::spec_decode(raw).spec_encode()
                == raw,
    {
        let e = self.spec_encode();
        lemma_le16_field(i16_bits(self.mouse_x));
        lemma_le16_field(i16_bits(self.mouse_y));
        lemma_le16_field(i16_bits(self.mouse_z));
        lemma_le16_field(self.keyboard_v);
        lemma_le16_field(self._reserved);
        assert(e.subrange(0, 2) =~= le16(i16_bits(self.mouse_x)));
        assert(e.subrange(2, 4) =~= le16(i16_bits(self.mouse_y)));
        assert(e.subrange(4, 6) =~= le16(i16_bits(self.mouse_z)));
        assert(e.subrange(8, 10) =~= le16(self.keyboard_v));
        assert(e.subrange(10, 12) =~= le16(self._reserved));
        assert(Self::spec_decode(e) == self);
        if raw.len() == SIZE && raw[6] <= 1 && raw[7] <= 1 {
            lemma_le_canonical(raw.subrange(0, 2));
            lemma_le_canonical(raw.subrange(2, 4));
            lemma_le_canonical(raw.subrange(4, 6));
            lemma_le_canonical(raw.subrange(8, 10));
            lemma_le_canonical(raw.subrange(10, 12));
            assert(Self::spec_decode(raw).spec_encode() =~= raw);
        }
    }
}

impl Marshaler for RemoteControl {
    const CMD_ID: u16 = 0x0304;

    open spec fn spec_marshal(&self, dst_len: nat) -> Result<Seq<u8>, Error> {
        if dst_len < SIZE {
            Err(Error::BufferTooSmall { need: (SIZE - dst_len) as usize })
        } else {
            Ok(self.spec_encode())
        }
    }

    open spec fn spec_unmarshal(raw: Seq<u8>) -> Result<RemoteControl, Error> {
        if raw.len() != SIZE {
            Err(Error::InvalidDataLength { expected: SIZE })
        } else {
            Ok(Self::spec_decode(raw))
        }
    }

    fn marshal(&self, dst: &mut [u8]) -> (r: Result<usize, Error>) {
        if dst.len() < SIZE {
            return Err(Error::BufferTooSmall { need: SIZE - dst.len() });
        }
        let ghost d0 = dst@;
        proof {
            lemma_le16_field(i16_bits(self.mouse_x));
            lemma_le16_field(i16_bits(self.mouse_y));
            lemma_le16_field(i16_bits(self.mouse_z));
            lemma_le16_field(self.keyboard_v);
            lemma_le16_field(self._reserved);
        }
        put_le(dst, 0, i16_to_bits(self.mouse_x) as u64, 2);
        put_le(dst, 2, i16_to_bits(self.mouse_y) as u64, 2);
        assert(dst@ =~= le16(i16_bits(self.mouse_x)) + le16(i16_bits(self.mouse_y)) + d0.skip(4));
        put_le(dst, 4, i16_to_bits(self.mouse_z) as u64, 2);
        assert(dst@ =~= le16(i16_bits(self.mouse_x)) + le16(i16_bits(self.mouse_y)) + le16(i16_bits(self.mouse_z)) + d0.skip(6));
        dst[6] = if self.left_button { 1 } else { 0 };
        dst[7] = if self.right_button { 1 } else { 0 };
        put_le(dst, 8, self.keyboard_v as u64, 2);
        assert(dst@ =~= le16(i16_bits(self.mouse_x)) + le16(i16_bits(self.mouse_y)) + le16(i16_bits(self.mouse_z))
            + seq![button_byte(self.left_button), button_byte(self.right_button)] + le16(self.keyboard_v) + d0.skip(10));
        put_le(dst, 10, self._reserved as u64, 2);
        assert(dst@ =~= self.spec_encode() + d0.skip(SIZE as int));
        Ok(SIZE)
    }

    fn unmarshal(raw: &[u8]) -> (r: Result<RemoteControl, Error>) {
        if raw.len() != SIZE {
            return Err(Error::InvalidDataLength { expected: SIZE });
        }
        Ok(RemoteControl {
            mouse_x: i16_from_bits(read_le(raw, 0, 2) as u16),
            mouse_y: i16_from_bits(read_le(raw, 2, 2) as u16),
            mouse_z: i16_from_bits(read_le(raw, 4, 2) as u16),
            left_button: raw[6] != 0,
            right_button: raw[7] != 0,
            keyboard_v: read_le(raw, 8, 2) as u16,
            _reserved: read_le(raw, 10, 2) as u16,
        })
    }
}

} // verus!

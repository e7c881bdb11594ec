//! DJI-compatible checksums.
//!
//! - CRC8: reflected polynomial `0x8C` (Dallas/Maxim), initial value `0xFF`,
//!   no final xor. Guards the frame header.
//! - CRC16: reflected polynomial `0x8408` (CCITT), initial value `0xFFFF`,
//!   no final xor. Guards the whole frame.
//!
//! Both are defined bit by bit: each input byte is xored into the low byte of
//! the register, which is then shifted right eight times, xoring in the
//! polynomial whenever a one bit falls out.
use vstd::prelude::*;

verus! {

/// Initial value of the CRC8 register.
pub const CRC8_INIT: u8 = 0xFF;

/// Initial value of the CRC16 register.
pub const CRC16_INIT: u16 = 0xFFFF;

/// One shift of the CRC8 register.
pub open spec fn crc8_shift(c: u8) -> u8 {
    if c & 1u8 == 1u8 {
        (c >> 1u8) ^ 0x8Cu8
    } else {
        c >> 1u8
    }
}

/// `n` shifts of the CRC8 register.
pub open spec fn crc8_shifts(c: u8, n: nat) -> u8
    decreases n,
{
    if n == 0 {
        c
    } else {
        crc8_shift(crc8_shifts(c, (n - 1) as nat))
    }
}

/// The CRC8 register after absorbing the byte `b`.
pub open spec fn crc8_byte(c: u8, b: u8) -> u8 {
    crc8_shifts(c ^ b, 8)
}

/// The CRC8 register after absorbing the bytes of `s`, starting from `init`.
pub open spec fn crc8_from(init: u8, s: Seq<u8>) -> u8
    decreases s.len(),
{
    if s.len() == 0 {
        init
    } else {
        crc8_byte(crc8_from(init, s.drop_last()), s.last())
    }
}

/// The DJI CRC8 of `s`.
pub open spec fn spec_dji_crc8(s: Seq<u8>) -> u8 {
    crc8_from(CRC8_INIT, s)
}

/// One shift of the CRC16 register.
pub open spec fn crc16_shift(c: u16) -> u16 {
    if c & 1u16 == 1u16 {
        (c >> 1u16) ^ 0x8408u16
    } else {
        c >> 1u16
    }
}

/// `n` shifts of the CRC16 register.
pub open spec fn crc16_shifts(c: u16, n: nat) -> u16
    decreases n,
{
    if n == 0 {
        c
    } else {
        crc16_shift(crc16_shifts(c, (n - 1) as nat))
    }
}

/// The CRC16 register after absorbing the byte `b`.
pub open spec fn crc16_byte(c: u16, b: u8) -> u16 {
    crc16_shifts(c ^ (b as u16), 8)
}

/// The CRC16 register after absorbing the bytes of `s`, starting from `init`.
pub open spec fn crc16_from(init: u16, s: Seq<u8>) -> u16
    decreases s.len(),
{
    if s.len() == 0 {
        init
    } else {
        crc16_byte(crc16_from(init, s.drop_last()), s.last())
    }
}

/// The DJI CRC16 of `s`.
pub open spec fn spec_dji_crc16(s: Seq<u8>) -> u16 {
    crc16_from(CRC16_INIT, s)
}

fn crc8_update(c: u8, b: u8) -> (r: u8)
    ensures
        r == crc8_byte(c, b),
{
    let mut x: u8 = c ^ b;
    let mut i: usize = 0;
    while i < 8
        invariant
            i <= 8,
            x == crc8_shifts(c ^ b, i as nat),
        decreases 8 - i,
    {
        if x & 1u8 == 1u8 {
            x = (x >> 1u8) ^ 0x8Cu8;
        } else {
            x = x >> 1u8;
        }
        i = i + 1;
    }
    x
}

fn crc16_update(c: u16, b: u8) -> (r: u16)
    ensures
        r == crc16_byte(c, b),
{
    let mut x: u16 = c ^ (b as u16);
    let mut i: usize = 0;
    while i < 8
        invariant
            i <= 8,
            x == crc16_shifts(c ^ (b as u16), i as nat),
        decreases 8 - i,
    {
        if x & 1u16 == 1u16 {
            x = (x >> 1u16) ^ 0x8408u16;
        } else {
            x = x >> 1u16;
        }
        i = i + 1;
    }
    x
}

/// Compute the DJI CRC8 of `data`.
pub fn calc_dji8(data: &[u8]) -> (r: u8)
    ensures
        r == spec_dji_crc8(data@),
{
    let mut crc: u8 = CRC8_INIT;
    let mut i: usize = 0;
    while i < data.len()
        invariant
            i <= data@.len(),
            crc == crc8_from(CRC8_INIT, data@.take(i as int)),
        decreases data@.len() - i,
    {
        assert(data@.take(i + 1).drop_last() =~= data@.take(i as int));
        crc = crc8_update(crc, data[i]);
        i = i + 1;
    }
    assert(data@.take(data@.len() as int) =~= data@);
    crc
}

/// Compute the DJI CRC16 of `data`.
pub fn calc_dji16(data: &[u8]) -> (r: u16)
    ensures
        r == spec_dji_crc16(data@),
{
    let mut crc: u16 = CRC16_INIT;
    let mut i: usize = 0;
    while i < data.len()
        invariant
            i <= data@.len(),
            crc == crc16_from(CRC16_INIT, data@.take(i as int)),
        decreases data@.len() - i,
    {
        assert(data@.take(i + 1).drop_last() =~= data@.take(i as int));
        crc = crc16_update(crc, data[i]);
        i = i + 1;
    }
    assert(data@.take(data@.len() as int) =~= data@);
    crc
}

} // verus!

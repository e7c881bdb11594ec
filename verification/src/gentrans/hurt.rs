//! 0x0206 - Robot hurt data (main control module to robot).
use vstd::prelude::*;

use crate::bytes::copy_prefix;
use crate::error::Error;
use crate::frame::Marshaler;

verus! {

/// Payload size in bytes.
pub const SIZE: usize = 1;

/// Why health points were deducted.
#[derive(Debug, Clone, Copy, PartialEq, Eq)]
pub enum Reason {
    /// Code 0.
    HitByProjectile,
    /// Code 1.
    ModuleOffline,
    /// Code 5.
    StruckByImpact,
}

impl Reason {
    /// The wire code of the reason.
    pub open spec fn spec_code(self) -> u8 {
        match self {
            Reason::HitByProjectile => 0,
            Reason::ModuleOffline => 1,
            Reason::StruckByImpact => 5,
        }
    }

    /// The reason with wire code `c`, if any.
    pub open spec fn spec_from_code(c: u8) -> Option<Reason> {
        if c == 0 {
            Some(Reason::HitByProjectile)
        } else if c == 1 {
            Some(Reason::ModuleOffline)
        } else if c == 5 {
            Some(Reason::StruckByImpact)
        } else {
            None
        }
    }

    /// The wire code of the reason.
    pub fn code(&self) -> (r: u8)
        ensures
            r == self.spec_code(),
    {
        match self {
            Reason::HitByProjectile => 0,
            Reason::ModuleOffline => 1,
            Reason::StruckByImpact => 5,
        }
    }
}

/// Main Ctrl Module to Robot
#[derive(Debug, Clone, Copy, PartialEq, Eq)]
pub struct HurtData {
    /// Armor plate that was hit; four bits on the wire.
    pub armor_id: u8,
    pub deduction_reason: Reason,
}

impl HurtData {
    /// The payload byte: armor ID in the low nibble, reason code in the high one.
    pub open spec fn spec_encode(self) -> Seq<u8> {
        seq![((self.armor_id & 0xFu8) | ((self.deduction_reason.spec_code() & 0xFu8) << 4u8)) as u8]
    }

    pub fn armor_id(&self) -> (r: u8)
        ensures
            r == self.armor_id,
    {
        self.armor_id
    }

    pub fn deduction_reason(&self) -> (r: Reason)
        ensures
            r == self.deduction_reason,
    {
        self.deduction_reason
    }

    /// Decoding the encoding gives the value back when the armor ID fits in
    /// its four bits, and every payload that decodes is the encoding of what
    /// it decodes to.
    pub proof fn lemma_codec(self, raw: Seq<u8>)
        ensures
            self.armor_id < 16 ==> Self::spec_unmarshal(self.spec_encode()) == Ok::<HurtData, Error>(
                self,
            ),
            Self::spec_unmarshal(raw) matches Ok(v) ==> v.spec_encode() == raw,
    {
        let a = self.armor_id;
        let c = self.deduction_reason.spec_code();
        let b = ((a & 0xFu8) | ((c & 0xFu8) << 4u8)) as u8;
        assert(a < 16 && c < 16 ==> b & 0x0Fu8 == a && (b >> 4u8) & 0xFu8 == c) by (bit_vector)
            requires
                b == ((a & 0xFu8) | ((c & 0xFu8) << 4u8)),
        ;
        if raw.len() == SIZE {
            let x = raw[0];
            assert(((x & 0x0Fu8) & 0xFu8) | ((((x >> 4u8) & 0xFu8) & 0xFu8) << 4u8) == x) by (bit_vector);
            assert(raw =~= seq![raw[0]]);
        }
    }
}

/// The deduction reason codes of the protocol: hit by a projectile 0, module
/// offline 1, struck by an impact 5. A hurt payload holds the armor ID in the
/// low nibble and the reason's code in the high nibble of its byte; any other
/// reason code is refused.
pub proof fn lemma_reason_codes(h: HurtData, raw: Seq<u8>)
    ensures
        Reason::HitByProjectile.spec_code() == 0,
        Reason::ModuleOffline.spec_code() == 1,
        Reason::StruckByImpact.spec_code() == 5,
        h.armor_id < 16 ==> h.spec_encode()[0] == h.armor_id + 16 * h.deduction_reason.spec_code(),
        HurtData::spec_unmarshal(raw) matches Ok(v) ==> v.armor_id == raw[0] % 16
            && v.deduction_reason.spec_code() == raw[0] / 16,
        raw.len() == SIZE && !(raw[0] / 16 <= 1 || raw[0] / 16 == 5) ==> HurtData::spec_unmarshal(raw) is Err,
{
    if raw.len() == SIZE {
        let x = raw[0];
        assert(x & 0x0Fu8 == x % 16 && (x >> 4u8) & 0xFu8 == x / 16) by (bit_vector);
    }
    let a = h.armor_id;
    let c = h.deduction_reason.spec_code();
    assert(a < 16 && c < 16 ==> ((a & 0xFu8) | ((c & 0xFu8) << 4u8)) == a + 16 * c) by (bit_vector);
}

impl Marshaler for HurtData {
    const CMD_ID: u16 = 0x0206;

    open spec fn spec_marshal(&self, dst_len: nat) -> Result<Seq<u8>, Error> {
        if dst_len < SIZE {
            Err(Error::BufferTooSmall { need: SIZE })
        } else {
            Ok(self.spec_encode())
        }
    }

    open spec fn spec_unmarshal(raw: Seq<u8>) -> Result<HurtData, Error> {
        if raw.len() != SIZE {
            Err(Error::InvalidDataLength { expected: SIZE })
        } else {
            match Reason::spec_from_code((raw[0] >> 4u8) & 0xFu8) {
                Some(reason) => Ok(HurtData { armor_id: raw[0] & 0x0Fu8, deduction_reason: reason }),
                None => Err(Error::DecodeError { at: 0 }),
            }
        }
    }

    fn marshal(&self, dst: &mut [u8]) -> (r: Result<usize, Error>) {
        if dst.len() < SIZE {
            return Err(Error::BufferTooSmall { need: SIZE });
        }
        let b: u8 = (self.armor_id & 0xF) | ((self.deduction_reason.code() & 0xF) << 4u8);
        let out: [u8; 1] = [b];
        assert(out@ =~= self.spec_encode());
        copy_prefix(dst, &out);
        Ok(SIZE)
    }

    fn unmarshal(raw: &[u8]) -> (r: Result<HurtData, Error>) {
        if raw.len() != SIZE {
            return Err(Error::InvalidDataLength { expected: SIZE });
        }
        let armor_id = raw[0] & 0x0F;
        let deduction_reason = match (raw[0] >> 4u8) & 0xF {
            0 => Reason::HitByProjectile,
            1 => Reason::ModuleOffline,
            5 => Reason::StruckByImpact,
            _ => {
                return Err(Error::DecodeError { at: 0 });
            },
        };
        Ok(HurtData { armor_id, deduction_reason })
    }
}

} // verus!

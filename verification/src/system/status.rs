//! System mode: the state the firmware reports (booting, running normally,
//! or failed), kept as its bit pattern.
use vstd::prelude::*;

verus! {

/// System mode.
#[derive(Debug, Clone, Copy, PartialEq, Eq)]
pub enum SysMode {
    /// Bits -1; also what any unknown bit pattern reads as.
    Error,
    /// Bits 0.
    Boot,
    /// Bits 1.
    Normal,
}

/// Storage of the current system mode, as the mode's bit pattern.
#[derive(Debug)]
pub struct SysStatus {
    bits: i8,
}

impl View for SysStatus {
    /// The stored bit pattern.
    type V = i8;

    closed spec fn view(&self) -> i8 {
        self.bits
    }
}

impl SysStatus {
    /// Storage that holds `SysMode::Boot`.
    pub fn new() -> (r: Self)
        ensures
            r@ == SysMode::Boot.spec_bits(),
    {
        SysStatus { bits: 0 }
    }

    /// Storage that holds the bit pattern `bits`.
    pub fn from_bits(bits: i8) -> (r: Self)
        ensures
            r@ == bits,
    {
        SysStatus { bits }
    }

    /// The stored bit pattern.
    pub fn bits(&self) -> (r: i8)
        ensures
            r == self@,
    {
        self.bits
    }
}

impl SysMode {
    /// The bit pattern of the mode.
    pub open spec fn spec_bits(self) -> i8 {
        match self {
            SysMode::Error => -1i8,
            SysMode::Boot => 0,
            SysMode::Normal => 1,
        }
    }

    /// The mode that the bit pattern `bits` stands for; unknown patterns are
    /// `Error`.
    pub open spec fn spec_from_bits(bits: i8) -> SysMode {
        if bits == 0 {
            SysMode::Boot
        } else if bits == 1 {
            SysMode::Normal
        } else {
            SysMode::Error
        }
    }

    /// The bit pattern of the mode.
    pub fn into_bits(self) -> (r: i8)
        ensures
            r == self.spec_bits(),
    {
        match self {
            SysMode::Error => -1i8,
            SysMode::Boot => 0,
            SysMode::Normal => 1,
        }
    }

    /// The mode that the bit pattern `bits` stands for; unknown patterns are
    /// `Error`.
    pub fn from_bits(bits: i8) -> (r: SysMode)
        ensures
            r == SysMode::spec_from_bits(bits),
    {
        match bits {
            0 => SysMode::Boot,
            1 => SysMode::Normal,
            _ => SysMode::Error,
        }
    }

    /// Retrieve the current system mode.
    pub fn get(status: &SysStatus) -> (r: SysMode)
        ensures
            r == SysMode::spec_from_bits(status@),
    {
        SysMode::from_bits(status.bits)
    }

    /// Set the current system mode to `self`.
    pub fn set(self, status: &mut SysStatus)
        ensures
            final(status)@ == self.spec_bits(),
    {
        status.bits = self.into_bits();
    }
}

/// The mode bit patterns: error -1, boot 0, normal 1; any other pattern
/// reads as error.
pub proof fn lemma_mode_bits(bits: i8)
    ensures
        SysMode::Error.spec_bits() == -1,
        SysMode::Boot.spec_bits() == 0,
        SysMode::Normal.spec_bits() == 1,
        (SysMode::spec_from_bits(bits) == SysMode::Boot) == (bits == 0),
        (SysMode::spec_from_bits(bits) == SysMode::Normal) == (bits == 1),
{
}

/// Reading the mode back after setting it gives the mode that was set.
pub proof fn lemma_set_get(mode: SysMode)
    ensures
        SysMode::spec_from_bits(mode.spec_bits()) == mode,
{
}

} // verus!

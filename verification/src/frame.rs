//! Frame-related core abstractions: checksum validators, payload
//! marshaling, and the view of a decoded frame.
use vstd::prelude::*;

use crate::crc::{calc_dji16, calc_dji8, spec_dji_crc16, spec_dji_crc8};
use crate::error::Error;

verus! {

/// CRC validator abstraction for the frame protocol.
///
/// CRC8 guards the frame header, CRC16 the header, command ID and payload.
pub trait Validator {
    /// The CRC8 that `calculate_crc8` computes.
    spec fn spec_crc8(raw: Seq<u8>) -> u8;

    /// The CRC16 that `calculate_crc16` computes.
    spec fn spec_crc16(raw: Seq<u8>) -> u16;

    /// Calculate CRC8 over the given raw bytes.
    fn calculate_crc8(raw: &[u8]) -> (r: u8)
        ensures
            r == Self::spec_crc8(raw@),
    ;

    /// Calculate CRC16 over the given raw bytes.
    fn calculate_crc16(raw: &[u8]) -> (r: u16)
        ensures
            r == Self::spec_crc16(raw@),
    ;
}

/// DJI protocol CRC validator.
pub struct DjiValidator;

impl Validator for DjiValidator {
    open spec fn spec_crc8(raw: Seq<u8>) -> u8 {
        spec_dji_crc8(raw)
    }

    open spec fn spec_crc16(raw: Seq<u8>) -> u16 {
        spec_dji_crc16(raw)
    }

    fn calculate_crc8(raw: &[u8]) -> (r: u8) {
        calc_dji8(raw)
    }

    fn calculate_crc16(raw: &[u8]) -> (r: u16) {
        calc_dji16(raw)
    }
}

/// Payload marshaling interface.
///
/// Each payload type corresponds to exactly one command ID. `marshal` writes
/// the payload at the start of the destination and returns the number of
/// bytes written; `unmarshal` decodes a payload that holds exactly the
/// payload bytes (no header, command ID or CRC).
pub trait Marshaler: Sized {
    /// Command ID associated with this payload type.
    const CMD_ID: u16;

    /// What `marshal` does into a destination of `dst_len` bytes: the bytes it
    /// writes at the start of the destination, or the error it returns.
    /// Each payload type states its own; left unstated, nothing can be proved
    /// of its `marshal`.
    closed spec fn spec_marshal(&self, dst_len: nat) -> Result<Seq<u8>, Error> {
        arbitrary()
    }

    /// What `unmarshal` returns for the payload bytes `raw`. Each payload type
    /// states its own; left unstated, nothing can be proved of its
    /// `unmarshal`.
    closed spec fn spec_unmarshal(raw: Seq<u8>) -> Result<Self, Error> {
        arbitrary()
    }

    /// Serialize the payload into the destination buffer.
    ///
    /// Returns the number of bytes written; the bytes after them are left as
    /// they were, and on an error nothing is written.
    fn marshal(&self, dst: &mut [u8]) -> (r: Result<usize, Error>)
        ensures
            match self.spec_marshal(old(dst)@.len()) {
                Ok(bytes) => {
                    &&& r matches Ok(n) && n == bytes.len()
                    &&& bytes.len() <= old(dst)@.len()
                    &&& final(dst)@ == bytes + old(dst)@.skip(bytes.len() as int)
                },
                Err(e) => r == Err::<usize, Error>(e) && final(dst)@ == old(dst)@,
            },
    ;

    /// Deserialize a payload from raw bytes.
    fn unmarshal(raw: &[u8]) -> (r: Result<Self, Error>)
        ensures
            r == Self::spec_unmarshal(raw@),
    ;
}

/// A validated but undecoded frame: its command ID, its sequence number and
/// its payload, borrowed from the input buffer.
#[derive(Debug)]
pub struct RawFrame<'t> {
    /// Command ID of the frame.
    pub(crate) cmd_id: u16,
    /// Sequence number of the frame.
    pub(crate) sequence: u8,
    /// Raw payload bytes.
    pub(crate) payload: &'t [u8],
}

impl<'t> View for RawFrame<'t> {
    /// Command ID, sequence number and payload bytes.
    type V = (u16, u8, Seq<u8>);

    closed spec fn view(&self) -> (u16, u8, Seq<u8>) {
        (self.cmd_id, self.sequence, self.payload@)
    }
}

impl<'t> RawFrame<'t> {
    pub(crate) fn new(cmd_id: u16, sequence: u8, payload: &'t [u8]) -> (r: RawFrame<'t>)
        ensures
            r@ == (cmd_id, sequence, payload@),
    {
        RawFrame { cmd_id, sequence, payload }
    }

    /// Get the command ID of this frame.
    pub fn cmd_id(&self) -> (r: u16)
        ensures
            r == self@.0,
    {
        self.cmd_id
    }

    /// Get the sequence number of this frame.
    pub fn sequence(&self) -> (r: u8)
        ensures
            r == self@.1,
    {
        self.sequence
    }

    /// Get the raw payload bytes, without framing, command ID or CRC.
    pub fn payload(&self) -> (r: &'t [u8])
        ensures
            r@ == self@.2,
    {
        self.payload
    }
}

} // verus!

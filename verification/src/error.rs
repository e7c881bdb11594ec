//! Errors of frame packing, unpacking and payload codecs.
use vstd::prelude::*;

verus! {

/// Errors of packet processing.
///
/// Variants that name a position carry it as a byte count:
/// - `ReSync`: `skip` is the index where a start-of-frame marker was found.
/// - `MissingHeader`: `skip` is the number of bytes scanned (the whole input).
/// - `UnexpectedEnd`: `read` is the length of the incomplete input.
/// - `InvalidChecksum`: `at` is the offset just after the failing checksum.
/// - `DecodeError`: `at` is the offset where payload decoding failed.
#[derive(Debug, Clone, Copy, PartialEq, Eq)]
pub enum Error {
    /// Provided buffer is too small to complete the operation.
    BufferTooSmall { need: usize },
    /// The payload size exceeds the maximum allowed limit.
    InputTooLarge { max: usize },
    /// Encountered an unexpected end of input during parsing.
    UnexpectedEnd { read: usize },
    /// The input stream requires resynchronization.
    ReSync { skip: usize },
    /// Expected message header not found at the current position.
    MissingHeader { skip: usize },
    /// Checksum validation failed for the data.
    InvalidChecksum { at: usize },
    /// Failed to parse the payload or a field within the message.
    DecodeError { at: usize },
    /// Failed to encode the message.
    EncodeError { inner: usize },
    /// The data length is invalid.
    InvalidDataLength { expected: usize },
}

impl Error {
    /// The number of input bytes that a stream reader should drop after this error.
    pub open spec fn spec_skip(self) -> usize {
        match self {
            Error::BufferTooSmall { .. } => 0,
            Error::InputTooLarge { .. } => 0,
            Error::UnexpectedEnd { .. } => 0,
            Error::ReSync { skip } => skip,
            Error::MissingHeader { skip } => skip,
            Error::InvalidChecksum { .. } => 1,
            Error::DecodeError { at } => at,
            Error::EncodeError { .. } => 0,
            Error::InvalidDataLength { .. } => 0,
        }
    }

    /// Get the skip position associated with the error.
    pub fn skip(&self) -> (r: usize)
        ensures
            r == self.spec_skip(),
    {
        match self {
            Error::BufferTooSmall { .. } => 0,
            Error::InputTooLarge { .. } => 0,
            Error::UnexpectedEnd { .. } => 0,
            Error::ReSync { skip } => *skip,
            Error::MissingHeader { skip } => *skip,
            Error::InvalidChecksum { .. } => 1,
            Error::DecodeError { at } => *at,
            Error::EncodeError { .. } => 0,
            Error::InvalidDataLength { .. } => 0,
        }
    }
}

/// The decimal digits of `n`, most significant first.
pub open spec fn decimal(n: nat) -> Seq<char>
    decreases n,
{
    if n < 10 {
        seq![digit_char(n)]
    } else {
        decimal(n / 10) + seq![digit_char(n % 10)]
    }
}

/// The character of the decimal digit `d`.
pub open spec fn digit_char(d: nat) -> char {
    if d == 0 {
        '0'
    } else if d == 1 {
        '1'
    } else if d == 2 {
        '2'
    } else if d == 3 {
        '3'
    } else if d == 4 {
        '4'
    } else if d == 5 {
        '5'
    } else if d == 6 {
        '6'
    } else if d == 7 {
        '7'
    } else if d == 8 {
        '8'
    } else {
        '9'
    }
}

fn digit_str(d: usize) -> (r: &'static str)
    requires
        d < 10,
    ensures
        r@ == seq![digit_char(d as nat)],
{
    let r = if d == 0 {
        proof { reveal_strlit("0"); }
        "0"
    } else if d == 1 {
        proof { reveal_strlit("1"); }
        "1"
    } else if d == 2 {
        proof { reveal_strlit("2"); }
        "2"
    } else if d == 3 {
        proof { reveal_strlit("3"); }
        "3"
    } else if d == 4 {
        proof { reveal_strlit("4"); }
        "4"
    } else if d == 5 {
        proof { reveal_strlit("5"); }
        "5"
    } else if d == 6 {
        proof { reveal_strlit("6"); }
        "6"
    } else if d == 7 {
        proof { reveal_strlit("7"); }
        "7"
    } else if d == 8 {
        proof { reveal_strlit("8"); }
        "8"
    } else {
        proof { reveal_strlit("9"); }
        "9"
    };
    assert(r@ =~= seq![digit_char(d as nat)]);
    r
}

fn append_decimal(s: &mut String, n: usize)
    ensures
        final(s)@ == old(s)@ + decimal(n as nat),
    decreases n,
{
    if n >= 10 {
        append_decimal(s, n / 10);
    }
    s.append(digit_str(n % 10));
    assert(s@ =~= old(s)@ + decimal(n as nat));
}

fn message_with(prefix: &str, n: usize, suffix: &str) -> (r: String)
    ensures
        r@ == prefix@ + decimal(n as nat) + suffix@,
{
    let mut s = String::from_str(prefix);
    append_decimal(&mut s, n);
    s.append(suffix);
    s
}

impl Error {
    /// The human readable description of the error.
    pub open spec fn spec_message(self) -> Seq<char> {
        match self {
            Error::BufferTooSmall { need } => "Insufficient buffer, need "@ + decimal(need as nat)
                + " bytes at least"@,
            Error::InputTooLarge { max } => "Input size exceeds maximum allowed size of "@
                + decimal(max as nat) + " bytes"@,
            Error::UnexpectedEnd { read } => "Unexpected end of data at offset "@ + decimal(
                read as nat,
            ) + ""@,
            Error::ReSync { skip } => "Stream requires resynchronization, skipped "@ + decimal(
                skip as nat,
            ) + " bytes"@,
            Error::MissingHeader { skip } => "Missing header at offset "@ + decimal(skip as nat)
                + ""@,
            Error::InvalidChecksum { at } => "Invalid checksum at offset "@ + decimal(at as nat)
                + ""@,
            Error::DecodeError { at } => "Failed to parse payload at offset "@ + decimal(at as nat)
                + ""@,
            Error::EncodeError { inner } => "Failed to encode message: "@ + decimal(inner as nat)
                + ""@,
            Error::InvalidDataLength { expected } => "Invalid data length, expected "@ + decimal(
                expected as nat,
            ) + " bytes"@,
        }
    }

    /// The human readable description of the error.
    pub fn message(&self) -> (r: String)
        ensures
            r@ == self.spec_message(),
    {
        match self {
            Error::BufferTooSmall { need } => message_with(
                "Insufficient buffer, need ",
                *need,
                " bytes at least",
            ),
            Error::InputTooLarge { max } => message_with(
                "Input size exceeds maximum allowed size of ",
                *max,
                " bytes",
            ),
            Error::UnexpectedEnd { read } => message_with(
                "Unexpected end of data at offset ",
                *read,
                "",
            ),
            Error::ReSync { skip } => message_with(
                "Stream requires resynchronization, skipped ",
                *skip,
                " bytes",
            ),
            Error::MissingHeader { skip } => message_with("Missing header at offset ", *skip, ""),
            Error::InvalidChecksum { at } => message_with("Invalid checksum at offset ", *at, ""),
            Error::DecodeError { at } => message_with(
                "Failed to parse payload at offset ",
                *at,
                "",
            ),
            Error::EncodeError { inner } => message_with("Failed to encode message: ", *inner, ""),
            Error::InvalidDataLength { expected } => message_with(
                "Invalid data length, expected ",
                *expected,
                " bytes",
            ),
        }
    }
}

} // verus!

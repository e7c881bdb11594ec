//! The fixed-capacity byte buffer that the image transmission receiver
//! fills: a `heapless::Vec` of 128 bytes, which no allocation backs.
use vstd::prelude::*;

verus! {

/// Bytes that a receive buffer holds at most.
pub const RX_CAPACITY: usize = 128;

/// A receive buffer of at most `RX_CAPACITY` bytes: a `heapless::Vec<u8, 128>`,
/// whose layout Verus does not read. What it holds is `rx_bytes`, and only
/// the functions below, whose contracts follow `heapless`'s source, touch it.
#[verifier::external_body]
pub struct RxBytes {
    buf: heapless::Vec<u8, 128>,
}

/// The bytes that the receive buffer `b` holds, in order.
pub uninterp spec fn rx_bytes(b: RxBytes) -> Seq<u8>;

/// `heapless::Vec::new`: an empty vector.
#[verifier::external_body]
pub(crate) fn rx_new() -> (r: RxBytes)
    ensures
        rx_bytes(r) == Seq::<u8>::empty(),
{
    RxBytes { buf: heapless::Vec::new() }
}

/// `heapless::Vec::extend_from_slice`: appends `s` when the result fits into
/// the capacity, and otherwise leaves the vector as it was and fails.
#[verifier::external_body]
pub(crate) fn rx_extend(b: &mut RxBytes, s: &[u8]) -> (r: bool)
    ensures
        r == (rx_bytes(*old(b)).len() + s@.len() <= RX_CAPACITY),
        r ==> rx_bytes(*final(b)) == rx_bytes(*old(b)) + s@,
        !r ==> rx_bytes(*final(b)) == rx_bytes(*old(b)),
{
    b.buf.extend_from_slice(s).is_ok()
}

/// `heapless::Vec::clear`: removes every byte.
#[verifier::external_body]
pub(crate) fn rx_clear(b: &mut RxBytes)
    ensures
        rx_bytes(*final(b)) == Seq::<u8>::empty(),
{
    b.buf.clear()
}

/// `heapless::Vec::as_slice`: the bytes held.
#[verifier::external_body]
pub(crate) fn rx_as_slice(b: &RxBytes) -> (r: &[u8])
    ensures
        r@ == rx_bytes(*b),
{
    b.buf.as_slice()
}

/// `heapless::Vec::drain` over the first `n` bytes, with the drained bytes
/// dropped: the bytes after them move to the front.
#[verifier::external_body]
pub(crate) fn rx_drain_front(b: &mut RxBytes, n: usize)
    requires
        n <= rx_bytes(*old(b)).len(),
    ensures
        rx_bytes(*final(b)) == rx_bytes(*old(b)).skip(n as int),
{
    b.buf.drain(..n);
}

impl RxBytes {
    /// An empty buffer.
    pub fn new() -> (r: RxBytes)
        ensures
            rx_bytes(r) == Seq::<u8>::empty(),
    {
        rx_new()
    }

    /// A buffer that holds `s`; none when `s` does not fit.
    pub fn from_slice(s: &[u8]) -> (r: Option<RxBytes>)
        ensures
            r is Some <==> s@.len() <= RX_CAPACITY,
            r matches Some(b) ==> rx_bytes(b) == s@,
    {
        let mut b = rx_new();
        if rx_extend(&mut b, s) {
            assert(rx_bytes(b) =~= s@);
            Some(b)
        } else {
            None
        }
    }

    /// The bytes held.
    pub fn as_slice(&self) -> (r: &[u8])
        ensures
            r@ == rx_bytes(*self),
    {
        rx_as_slice(self)
    }
}

} // verus!

//! Reception of custom controller data over the image transmission link:
//! received bytes accumulate in a bounded buffer, and each complete frame is
//! taken off its front.
use vstd::prelude::*;

use crate::bytes::copy_prefix;
use crate::error::Error;
use crate::frame::{DjiValidator, Marshaler};
use crate::msger::{
    frame_bytes, lemma_pack_unpack, lemma_unpack_frame_bytes, lemma_unpack_skip, spec_pack, spec_unpack,
    Messager, CMDID_SIZE, HEAD_SIZE,
    MAX_PAYLOAD, TAIL_SIZE,
};
use crate::tasks::rxbuf::{rx_as_slice, rx_bytes, rx_clear, rx_drain_front, rx_extend, rx_new, RxBytes, RX_CAPACITY};

verus! {

/// Payload size of the custom controller data.
pub const CUSTOM_SIZE: usize = 5;

/// Data of the custom robot controller.
#[derive(Debug, Clone, Copy, PartialEq, Eq)]
pub struct CustomRobotData<const N: usize> {
    pub data: [u8; N],
}

impl<const N: usize> CustomRobotData<N> {
    /// Decoding the bytes of the data gives it back, and every payload that
    /// decodes is the bytes of what it decodes to.
    pub proof fn lemma_codec(self, raw: Seq<u8>)
        ensures
            Self::spec_unmarshal(self.data@) == Ok::<CustomRobotData<N>, Error>(self),
            Self::spec_unmarshal(raw) matches Ok(v) ==> v.data@ == raw,
    {
        crate::ui::common::lemma_array_with::<N>(self.data@);
        assert(crate::ui::common::array_with::<N>(self.data@) =~= self.data);
        if raw.len() == N {
            crate::ui::common::lemma_array_with::<N>(raw);
        }
    }
}

impl<const N: usize> Marshaler for CustomRobotData<N> {
    const CMD_ID: u16 = 0x0302;

    open spec fn spec_marshal(&self, dst_len: nat) -> Result<Seq<u8>, Error> {
        if dst_len < N {
            Err(Error::BufferTooSmall { need: (N - dst_len) as usize })
        } else {
            Ok(self.data@)
        }
    }

    open spec fn spec_unmarshal(raw: Seq<u8>) -> Result<CustomRobotData<N>, Error> {
        if raw.len() != N {
            Err(Error::InvalidDataLength { expected: N })
        } else {
            Ok(CustomRobotData { data: crate::ui::common::array_with(raw) })
        }
    }

    fn marshal(&self, dst: &mut [u8]) -> (r: Result<usize, Error>) {
        if dst.len() < N {
            return Err(Error::BufferTooSmall { need: N - dst.len() });
        }
        copy_prefix(dst, &self.data);
        Ok(N)
    }

    fn unmarshal(raw: &[u8]) -> (r: Result<CustomRobotData<N>, Error>) {
        if raw.len() != N {
            return Err(Error::InvalidDataLength { expected: N });
        }
        let data: [u8; N] = crate::ui::common::array_from(raw);
        proof {
            crate::ui::common::lemma_array_with::<N>(raw@);
            assert(crate::ui::common::array_with::<N>(raw@) =~= data);
        }
        Ok(CustomRobotData { data })
    }
}

/// What decoding a frame with command ID `cmd_id` and payload `payload`
/// gives: the controller data when the frame carries it and its payload
/// decodes.
pub open spec fn spec_custom_message<const R: usize>(cmd_id: u16, payload: Seq<u8>) -> Option<
    CustomRobotData<R>,
> {
    if cmd_id == 0x0302 {
        match CustomRobotData::<R>::spec_unmarshal(payload) {
            Ok(v) => Some(v),
            Err(_) => None,
        }
    } else {
        None
    }
}

/// Take one frame off the front of `src` and decode the controller data it
/// carries. A frame that does not unpack is dropped as far as its error's
/// skip count says.
pub fn data_process<const R: usize>(src: &mut RxBytes) -> (r: Option<CustomRobotData<R>>)
    ensures
        match spec_unpack::<DjiValidator>(rx_bytes(*old(src))) {
            Ok((cmd_id, _, payload, n)) => rx_bytes(*final(src)) == rx_bytes(*old(src)).skip(n as int)
                && r == spec_custom_message::<R>(cmd_id, payload),
            Err(e) => rx_bytes(*final(src)) == rx_bytes(*old(src)).skip(e.spec_skip() as int) && r is None,
        },
{
    let msger: Messager<DjiValidator> = Messager::new(0);
    let (msg, consumed) = {
        let bytes = rx_as_slice(src);
        let _len = bytes.len();
        proof {
            lemma_unpack_skip::<DjiValidator>(bytes@);
        }
        match msger.unpack(bytes) {
            Ok((x, size)) => {
                let id = x.cmd_id();
                let msg = if id == CustomRobotData::<R>::CMD_ID {
                    match CustomRobotData::<R>::unmarshal(x.payload()) {
                        Ok(v) => Some(v),
                        Err(_) => None,
                    }
                } else {
                    None
                };
                (msg, size)
            },
            Err(e) => (None, e.skip()),
        }
    };
    rx_drain_front(src, consumed);
    msg
}

/// A frame that carries controller data, followed by any bytes, unpacks to
/// that data and takes exactly the frame's length off the front.
pub proof fn lemma_receive_frame<const R: usize>(d: CustomRobotData<R>, seq: u8, rest: Seq<u8>)
    requires
        R <= MAX_PAYLOAD,
    ensures
        spec_unpack::<DjiValidator>(frame_bytes::<DjiValidator>(0x0302, seq, d.data@) + rest) matches Ok(
            (cmd_id, _, payload, n),
        ) && spec_custom_message::<R>(cmd_id, payload) == Some(d) && n == R + HEAD_SIZE
            + CMDID_SIZE + TAIL_SIZE,
{
    lemma_unpack_frame_bytes::<DjiValidator>(0x0302, seq, d.data@, rest);
    d.lemma_codec(d.data@);
}

/// Only frames with command ID 0x0302 carry controller data: decoding a frame
/// of any other command gives none, and controller data that comes out is
/// the frame's payload byte for byte. So a frame that `pack` built from a
/// message of another type (keyboard and mouse data, say) is consumed
/// without giving controller data.
pub proof fn lemma_only_custom_frames<const R: usize, M: Marshaler>(
    cmd_id: u16,
    payload: Seq<u8>,
    msg: M,
    seq: u8,
    dst_len: nat,
    rest: Seq<u8>,
)
    ensures
        cmd_id != 0x0302 ==> spec_custom_message::<R>(cmd_id, payload) is None,
        spec_custom_message::<R>(cmd_id, payload) matches Some(d) ==> cmd_id == 0x0302 && d.data@
            == payload,
        M::CMD_ID != 0x0302 ==> (spec_pack::<DjiValidator, M>(msg, seq, dst_len) matches Ok(frame)
            ==> spec_unpack::<DjiValidator>(frame + rest) matches Ok((c, _, p, n)) && n
            == frame.len() && spec_custom_message::<R>(c, p) is None),
{
    if let Ok(d) = CustomRobotData::<R>::spec_unmarshal(payload) {
        d.lemma_codec(payload);
    }
    lemma_pack_unpack::<DjiValidator, M>(msg, seq, dst_len, rest);
}

/// What became of a received chunk.
#[derive(Debug)]
pub enum RxEvent {
    /// The chunk was empty: nothing was received.
    Idle,
    /// The chunk did not fit into the buffer, which was cleared.
    Overflow,
    /// The chunk was appended, and one frame was taken off the buffer with
    /// this result.
    Processed(Option<CustomRobotData<CUSTOM_SIZE>>),
}

/// Receive buffer of the image transmission link.
pub struct PicTransRx {
    data: RxBytes,
}

impl View for PicTransRx {
    /// The buffered bytes.
    type V = Seq<u8>;

    closed spec fn view(&self) -> Seq<u8> {
        rx_bytes(self.data)
    }
}

impl PicTransRx {
    #[verifier::type_invariant]
    spec fn within_capacity(self) -> bool {
        rx_bytes(self.data).len() <= RX_CAPACITY
    }

    /// An empty receive buffer.
    pub fn new() -> (r: Self)
        ensures
            r@ == Seq::<u8>::empty(),
    {
        PicTransRx { data: rx_new() }
    }

    /// The buffered bytes.
    pub fn buffered(&self) -> (r: &[u8])
        ensures
            r@ == self@,
    {
        rx_as_slice(&self.data)
    }

    /// Handle a chunk of received bytes: an empty chunk changes nothing;
    /// when the chunk does not fit into the buffer, clear the buffer;
    /// otherwise append it and take one frame off the front.
    pub fn on_chunk(&mut self, chunk: &[u8]) -> (r: RxEvent)
        ensures
            final(self)@.len() <= RX_CAPACITY,
            chunk@.len() == 0 ==> r is Idle && final(self)@ == old(self)@,
            chunk@.len() > 0 && old(self)@.len() + chunk@.len() > RX_CAPACITY ==> r is Overflow
                && final(self)@ == Seq::<u8>::empty(),
            chunk@.len() > 0 && old(self)@.len() + chunk@.len() <= RX_CAPACITY ==> {
                let buf = old(self)@ + chunk@;
                match spec_unpack::<DjiValidator>(buf) {
                    Ok((cmd_id, _, payload, n)) => final(self)@ == buf.skip(n as int) && r
                        == RxEvent::Processed(spec_custom_message::<CUSTOM_SIZE>(cmd_id, payload)),
                    Err(e) => final(self)@ == buf.skip(e.spec_skip() as int) && r
                        == RxEvent::Processed(None),
                }
            },
    {
        proof {
            use_type_invariant(&*self);
        }
        if chunk.len() == 0 {
            return RxEvent::Idle;
        }
        let mut taken = PicTransRx::new();
        std::mem::swap(&mut taken, self);
        let PicTransRx { mut data } = taken;
        if !rx_extend(&mut data, chunk) {
            rx_clear(&mut data);
            *self = PicTransRx { data };
            return RxEvent::Overflow;
        }
        proof {
            lemma_unpack_skip::<DjiValidator>(rx_bytes(data));
        }
        let msg = data_process::<CUSTOM_SIZE>(&mut data);
        *self = PicTransRx { data };
        RxEvent::Processed(msg)
    }
}

} // verus!

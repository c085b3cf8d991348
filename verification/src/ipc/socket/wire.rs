//! Length-delimited framing.
//!
//! Frame layout: `[u32 length little-endian][payload]`, with the payload at most
//! [`MAX_FRAME_LEN`] bytes long.

use vstd::bytes::{
    lemma_auto_spec_u32_to_from_le_bytes, spec_u32_from_le_bytes, spec_u32_to_le_bytes, u32_from_le_bytes,
    u32_to_le_bytes,
};
use vstd::prelude::*;
use vstd::slice::{slice_subrange, slice_to_vec};

verus! {

/// Upper bound on a single payload, guards against a bogus length prefix.
pub const MAX_FRAME_LEN: u32 = 8 * 1024 * 1024;

/// Size of the length prefix in front of every payload.
pub const LEN_PREFIX_SIZE: usize = 4;

/// Why bytes could not be framed or unframed.
#[derive(Debug, Clone, Copy, PartialEq, Eq, Structural)]
pub enum WireError {
    /// The payload is longer than a `u32` length prefix can say.
    LengthOverflow { payload_len: usize },
    /// The payload, or the length a prefix announces, exceeds [`MAX_FRAME_LEN`].
    FrameTooLarge { len: u32 },
    /// The stream ended inside a frame, with this many bytes of it read.
    UnexpectedEof { buffered: usize },
}

/// The bytes of the frame that carries `payload`.
pub open spec fn frame_bytes(payload: Seq<u8>) -> Seq<u8> {
    spec_u32_to_le_bytes(payload.len() as u32) + payload
}

/// The payload length announced by the prefix at the start of `buf`.
pub open spec fn declared_len(buf: Seq<u8>) -> u32 {
    spec_u32_from_le_bytes(buf.subrange(0, LEN_PREFIX_SIZE as int))
}

/// `buf` starts with a prefix that announces more than [`MAX_FRAME_LEN`] bytes.
pub open spec fn frame_oversized(buf: Seq<u8>) -> bool {
    buf.len() >= LEN_PREFIX_SIZE && declared_len(buf) > MAX_FRAME_LEN
}

/// Number of bytes of the frame at the start of `buf`, prefix included.
pub open spec fn frame_size(buf: Seq<u8>) -> int {
    LEN_PREFIX_SIZE + declared_len(buf)
}

/// `buf` starts with a whole frame of an admissible length.
pub open spec fn frame_complete(buf: Seq<u8>) -> bool {
    &&& buf.len() >= LEN_PREFIX_SIZE
    &&& declared_len(buf) <= MAX_FRAME_LEN
    &&& buf.len() >= frame_size(buf)
}

/// The payload of the frame at the start of `buf`.
pub open spec fn frame_payload(buf: Seq<u8>) -> Seq<u8> {
    buf.subrange(LEN_PREFIX_SIZE as int, frame_size(buf))
}

/// The bytes of the frames that carry `payloads`, one after the other.
pub open spec fn frames_bytes(payloads: Seq<Seq<u8>>) -> Seq<u8>
    decreases payloads.len(),
{
    if payloads.len() == 0 {
        Seq::empty()
    } else {
        frame_bytes(payloads[0]) + frames_bytes(payloads.drop_first())
    }
}

/// A frame reads back as what it carries: the bytes of the frame of `payload`,
/// followed by anything, start with a whole admissible frame whose payload is
/// `payload`, and taking that frame off leaves exactly what followed.
pub proof fn lemma_frame_roundtrip(payload: Seq<u8>, rest: Seq<u8>)
    requires
        payload.len() <= MAX_FRAME_LEN,
    ensures
        ({
            let buf = frame_bytes(payload) + rest;
            &&& !frame_oversized(buf)
            &&& frame_complete(buf)
            &&& declared_len(buf) == payload.len()
            &&& frame_size(buf) == frame_bytes(payload).len()
            &&& frame_payload(buf) == payload
            &&& buf.subrange(frame_size(buf), buf.len() as int) == rest
        }),
{
    lemma_auto_spec_u32_to_from_le_bytes();
    let prefix = spec_u32_to_le_bytes(payload.len() as u32);
    let buf = frame_bytes(payload) + rest;
    assert(prefix.len() == 4);
    assert(buf.subrange(0, 4) =~= prefix);
    assert(spec_u32_from_le_bytes(prefix) == payload.len() as u32);
    assert(frame_payload(buf) =~= payload);
    assert(buf.subrange(frame_size(buf), buf.len() as int) =~= rest);
}

/// Nothing is lost or made up when a frame is taken off: a buffer that starts with
/// a whole admissible frame is exactly the frame of that frame's payload followed
/// by what remains.
pub proof fn lemma_frame_reencodes(buf: Seq<u8>)
    requires
        frame_complete(buf),
    ensures
        buf == frame_bytes(frame_payload(buf)) + buf.subrange(frame_size(buf), buf.len() as int),
{
    lemma_auto_spec_u32_to_from_le_bytes();
    let prefix = buf.subrange(0, LEN_PREFIX_SIZE as int);
    let payload = frame_payload(buf);
    assert(payload.len() == declared_len(buf));
    assert(spec_u32_to_le_bytes(spec_u32_from_le_bytes(prefix)) == prefix);
    assert(spec_u32_to_le_bytes(payload.len() as u32) == prefix);
    assert(buf =~= prefix + payload + buf.subrange(frame_size(buf), buf.len() as int));
}

/// A frame cut short is never taken for a frame: every proper prefix of the
/// bytes of an admissible frame reads as incomplete, neither whole nor refused.
pub proof fn lemma_partial_frame_incomplete(payload: Seq<u8>, cut: int)
    requires
        payload.len() <= MAX_FRAME_LEN,
        0 <= cut < frame_bytes(payload).len(),
    ensures
        !frame_oversized(frame_bytes(payload).subrange(0, cut)),
        !frame_complete(frame_bytes(payload).subrange(0, cut)),
{
    lemma_auto_spec_u32_to_from_le_bytes();
    let whole = frame_bytes(payload);
    let part = whole.subrange(0, cut);
    let prefix = spec_u32_to_le_bytes(payload.len() as u32);
    assert(prefix.len() == 4);
    if cut >= 4 {
        assert(part.subrange(0, 4) =~= prefix);
        assert(declared_len(part) == payload.len());
    }
}

/// Frames written one after another read back in the same order: the bytes of a
/// sequence of admissible frames start with the frame of the first payload, and
/// taking it off leaves the bytes of the remaining frames. No bytes remain once
/// every frame is taken.
pub proof fn lemma_frames_in_order(payloads: Seq<Seq<u8>>)
    requires
        forall|i: int| 0 <= i < payloads.len() ==> (#[trigger] payloads[i]).len() <= MAX_FRAME_LEN,
    ensures
        payloads.len() == 0 ==> frames_bytes(payloads).len() == 0,
        payloads.len() > 0 ==> ({
            let buf = frames_bytes(payloads);
            &&& frame_complete(buf)
            &&& frame_payload(buf) == payloads[0]
            &&& buf.subrange(frame_size(buf), buf.len() as int) == frames_bytes(payloads.drop_first())
        }),
{
    if payloads.len() > 0 {
        assert(payloads[0].len() <= MAX_FRAME_LEN);
        lemma_frame_roundtrip(payloads[0], frames_bytes(payloads.drop_first()));
    }
}

/// How many more bytes complete the frame at the front of `buf`: the rest of the
/// length prefix, then the rest of the payload it announces; zero once a whole
/// frame is there or the prefix is refused.
pub open spec fn bytes_needed(buf: Seq<u8>) -> int {
    if buf.len() < LEN_PREFIX_SIZE {
        LEN_PREFIX_SIZE - buf.len()
    } else if frame_oversized(buf) || frame_complete(buf) {
        0
    } else {
        frame_size(buf) - buf.len()
    }
}

/// Reading exactly what is needed never reads past a frame: while only part of
/// the frame of `payload` is held, some bytes are still needed, and no more than
/// the rest of that frame.
pub proof fn lemma_needed_stays_within_frame(payload: Seq<u8>, cut: int)
    requires
        payload.len() <= MAX_FRAME_LEN,
        0 <= cut < frame_bytes(payload).len(),
    ensures
        0 < bytes_needed(frame_bytes(payload).subrange(0, cut)) <= frame_bytes(payload).len() - cut,
{
    lemma_partial_frame_incomplete(payload, cut);
    lemma_auto_spec_u32_to_from_le_bytes();
    let whole = frame_bytes(payload);
    let part = whole.subrange(0, cut);
    let prefix = spec_u32_to_le_bytes(payload.len() as u32);
    assert(prefix.len() == 4);
    if cut >= 4 {
        assert(part.subrange(0, 4) =~= prefix);
        assert(declared_len(part) == payload.len());
    }
}

/// Wraps `payload` in one frame: its length as four little-endian bytes, then the
/// payload. Refused when the length does not fit the prefix or exceeds
/// [`MAX_FRAME_LEN`].
pub fn encode_frame(payload: &[u8]) -> (r: Result<Vec<u8>, WireError>)
    ensures
        payload@.len() > u32::MAX ==> r == Err::<Vec<u8>, WireError>(WireError::LengthOverflow { payload_len: payload@.len() as usize }),
        MAX_FRAME_LEN < payload@.len() <= u32::MAX ==> r == Err::<Vec<u8>, WireError>(
            WireError::FrameTooLarge { len: payload@.len() as u32 },
        ),
        payload@.len() <= MAX_FRAME_LEN ==> (r matches Ok(bytes) && bytes@ == frame_bytes(payload@)),
{
    let n = payload.len();
    if n > 0xffff_ffffusize {
        return Err(WireError::LengthOverflow { payload_len: n });
    }
    let len = n as u32;
    if len > MAX_FRAME_LEN {
        return Err(WireError::FrameTooLarge { len });
    }
    let mut bytes = u32_to_le_bytes(len);
    let mut body = slice_to_vec(payload);
    bytes.append(&mut body);
    Ok(bytes)
}

/// What the front of a byte buffer holds.
#[derive(Debug)]
pub enum Decoded {
    /// Not yet a whole frame: more bytes are needed.
    Incomplete,
    /// A whole frame: its payload, and how many bytes it took, prefix included.
    Frame { payload: Vec<u8>, consumed: usize },
}

/// Reads the frame at the front of `buf`, if it is all there. A prefix that
/// announces more than [`MAX_FRAME_LEN`] bytes is refused as soon as it is read.
pub fn decode_frame(buf: &[u8]) -> (r: Result<Decoded, WireError>)
    ensures
        frame_oversized(buf@) ==> r == Err::<Decoded, WireError>(WireError::FrameTooLarge { len: declared_len(buf@) }),
        frame_complete(buf@) ==> (r matches Ok(Decoded::Frame { payload, consumed })
            && payload@ == frame_payload(buf@) && consumed == frame_size(buf@)),
        !frame_oversized(buf@) && !frame_complete(buf@) ==> r matches Ok(Decoded::Incomplete),
{
    if buf.len() < LEN_PREFIX_SIZE {
        return Ok(Decoded::Incomplete);
    }
    let len = u32_from_le_bytes(slice_subrange(buf, 0, LEN_PREFIX_SIZE));
    if len > MAX_FRAME_LEN {
        return Err(WireError::FrameTooLarge { len });
    }
    let total = LEN_PREFIX_SIZE + len as usize;
    if buf.len() < total {
        Ok(Decoded::Incomplete)
    } else {
        let payload = slice_to_vec(slice_subrange(buf, LEN_PREFIX_SIZE, total));
        Ok(Decoded::Frame { payload, consumed: total })
    }
}

/// The bytes read from a stream and not yet handed out as frames.
pub struct FrameDecoder {
    buffered: Vec<u8>,
}

impl View for FrameDecoder {
    type V = Seq<u8>;

    closed spec fn view(&self) -> Seq<u8> {
        self.buffered@
    }
}

impl FrameDecoder {
    /// A decoder that holds no bytes.
    pub fn new() -> (d: Self)
        ensures
            d@ == Seq::<u8>::empty(),
    {
        FrameDecoder { buffered: Vec::new() }
    }

    /// Adds bytes read from the stream behind those already held.
    pub fn extend(&mut self, bytes: &[u8])
        ensures
            final(self)@ == old(self)@ + bytes@,
    {
        let mut more = slice_to_vec(bytes);
        self.buffered.append(&mut more);
    }

    /// Number of bytes held.
    pub fn buffered_len(&self) -> (n: usize)
        ensures
            n == self@.len(),
    {
        self.buffered.len()
    }

    /// Hands out the payload of the frame at the front of the held bytes and drops
    /// that frame; `Ok(None)` while the frame is not all there. A prefix that
    /// announces more than [`MAX_FRAME_LEN`] bytes is refused, and nothing is dropped.
    pub fn next_frame(&mut self) -> (r: Result<Option<Vec<u8>>, WireError>)
        ensures
            frame_oversized(old(self)@) ==> r == Err::<Option<Vec<u8>>, WireError>(
                WireError::FrameTooLarge { len: declared_len(old(self)@) },
            ) && final(self)@ == old(self)@,
            frame_complete(old(self)@) ==> (r matches Ok(Some(payload))
                && payload@ == frame_payload(old(self)@)
                && final(self)@ == old(self)@.subrange(frame_size(old(self)@), old(self)@.len() as int)),
            !frame_oversized(old(self)@) && !frame_complete(old(self)@) ==> (r matches Ok(None)
                && final(self)@ == old(self)@),
    {
        match decode_frame(self.buffered.as_slice()) {
            Err(e) => Err(e),
            Ok(Decoded::Incomplete) => Ok(None),
            Ok(Decoded::Frame { payload, consumed }) => {
                let rest = self.buffered.split_off(consumed);
                self.buffered = rest;
                Ok(Some(payload))
            },
        }
    }

    /// How many more bytes complete the frame at the front of the held bytes:
    /// the rest of the length prefix, then the rest of the payload it announces.
    /// Zero once a whole frame is held, or once the prefix is refused.
    pub fn needed(&self) -> (n: usize)
        ensures
            n == bytes_needed(self@),
    {
        let held = self.buffered.len();
        if held < LEN_PREFIX_SIZE {
            return LEN_PREFIX_SIZE - held;
        }
        let len = u32_from_le_bytes(slice_subrange(self.buffered.as_slice(), 0, LEN_PREFIX_SIZE));
        if len > MAX_FRAME_LEN {
            return 0;
        }
        let total = LEN_PREFIX_SIZE + len as usize;
        if held >= total {
            0
        } else {
            total - held
        }
    }

    /// The stream has ended: fine on a frame boundary, an error when it ended
    /// inside a frame.
    pub fn finish(&self) -> (r: Result<(), WireError>)
        ensures
            self@.len() == 0 ==> r is Ok,
            self@.len() > 0 ==> r == Err::<(), WireError>(WireError::UnexpectedEof { buffered: self@.len() as usize }),
    {
        if self.buffered.len() == 0 {
            Ok(())
        } else {
            Err(WireError::UnexpectedEof { buffered: self.buffered.len() })
        }
    }
}

} // verus!

//! Length-delimited framing: every frame is a four-byte big-endian length
//! followed by that many payload bytes.

use bytes::BytesMut;
use tokio_util::codec::{Decoder, Encoder, LengthDelimitedCodec};
use vstd::prelude::*;

verus! {

/// The largest payload that the codec accepts in either direction.
pub const MAX_FRAME_LEN: usize = 8388608;

/// The length head of a frame: `n` as four big-endian bytes.
pub open spec fn be32(n: u32) -> Seq<u8> {
    seq![(n >> 24u32) as u8, (n >> 16u32) as u8, (n >> 8u32) as u8, n as u8]
}

/// The length that the first four bytes of `b` announce.
pub open spec fn be32_value(b: Seq<u8>) -> u32
    recommends
        b.len() >= 4,
{
    ((b[0] as u32) << 24u32) | ((b[1] as u32) << 16u32) | ((b[2] as u32) << 8u32) | (b[3] as u32)
}

/// The bytes that carry `payload` as one frame.
pub open spec fn framed(payload: Seq<u8>) -> Seq<u8> {
    be32(payload.len() as u32) + payload
}

/// What the front of a receive buffer holds.
pub enum FrameSplit {
    /// Not yet a whole frame.
    Incomplete,
    /// A head that announces more than the largest payload.
    Oversized,
    /// A whole frame, and the bytes after it.
    Frame { payload: Seq<u8>, rest: Seq<u8> },
}

/// Splits a whole frame off the front of `buf`, if there is one.
pub open spec fn split_frame(buf: Seq<u8>) -> FrameSplit {
    if buf.len() < 4 {
        FrameSplit::Incomplete
    } else {
        let n = be32_value(buf) as int;
        if n > MAX_FRAME_LEN {
            FrameSplit::Oversized
        } else if buf.len() < 4 + n {
            FrameSplit::Incomplete
        } else {
            FrameSplit::Frame { payload: buf.subrange(4, 4 + n), rest: buf.subrange(4 + n, buf.len() as int) }
        }
    }
}

/// Why the byte stream could not be framed.
#[derive(Clone, Copy, Debug, PartialEq, Eq, Structural)]
pub enum FrameError {
    /// A payload, sent or announced, over the largest frame length.
    Oversized,
    /// The stream ended inside a frame.
    Truncated,
}

#[verifier::external_type_specification]
#[verifier::external_body]
pub struct ExIoError(std::io::Error);

/// Relies on tokio-util's `LengthDelimitedCodec` (default settings) as an
/// `Encoder<&[u8]>`: it refuses a payload over 8 MiB, and otherwise writes
/// the payload's length as four big-endian bytes, then the payload.
#[verifier::external_body]
fn codec_encode(payload: &[u8]) -> (r: Result<Vec<u8>, std::io::Error>)
    ensures
        r.is_ok() == (payload@.len() <= MAX_FRAME_LEN),
        r matches Ok(v) ==> v@ == framed(payload@),
{
    let mut codec = LengthDelimitedCodec::new();
    let mut dst = BytesMut::new();
    match codec.encode(payload, &mut dst) {
        Ok(()) => Ok(dst.to_vec()),
        Err(e) => Err(e),
    }
}

/// Relies on tokio-util's `LengthDelimitedCodec` (default settings, fresh
/// state) as a `Decoder`: it waits for four head bytes, refuses a length over
/// 8 MiB, waits for the whole payload, then splits it off the buffer.
#[verifier::external_body]
fn codec_decode(buf: &[u8]) -> (r: Result<Option<(Vec<u8>, Vec<u8>)>, std::io::Error>)
    ensures
        r.is_err() == (split_frame(buf@) is Oversized),
        r matches Ok(None) <==> split_frame(buf@) is Incomplete,
        r matches Ok(Some(pair)) ==> split_frame(buf@) == (FrameSplit::Frame {
            payload: pair.0@,
            rest: pair.1@,
        }),
{
    let mut codec = LengthDelimitedCodec::new();
    let mut src = BytesMut::from(buf);
    match codec.decode(&mut src) {
        Ok(Some(frame)) => Ok(Some((frame.to_vec(), src.to_vec()))),
        Ok(None) => Ok(None),
        Err(e) => Err(e),
    }
}

/// Frames one payload for sending.
pub fn encode_frame(payload: &[u8]) -> (r: Result<Vec<u8>, FrameError>)
    ensures
        payload@.len() <= MAX_FRAME_LEN ==> (r matches Ok(v) && v@ == framed(payload@)),
        payload@.len() > MAX_FRAME_LEN ==> r == Err::<Vec<u8>, FrameError>(FrameError::Oversized),
{
    match codec_encode(payload) {
        Ok(v) => Ok(v),
        Err(_) => Err(FrameError::Oversized),
    }
}

/// Collects received bytes and hands out whole frames.
pub struct FrameReader {
    buf: Vec<u8>,
}

impl FrameReader {
    /// The bytes received and not yet handed out.
    pub closed spec fn pending(&self) -> Seq<u8> {
        self.buf@
    }

    /// A reader with nothing received.
    pub fn new() -> (r: FrameReader)
        ensures
            r.pending() == Seq::<u8>::empty(),
    {
        FrameReader { buf: Vec::new() }
    }

    /// Appends bytes received from the stream.
    pub fn push(&mut self, data: &[u8])
        ensures
            final(self).pending() == old(self).pending() + data@,
    {
        let mut i: usize = 0;
        while i < data.len()
            invariant
                i <= data@.len(),
                self.buf@ == old(self).buf@ + data@.subrange(0, i as int),
            decreases data@.len() - i,
        {
            self.buf.push(data[i]);
            i = i + 1;
            assert(data@.subrange(0, i as int) == data@.subrange(0, i - 1) + seq![data@[i - 1]]);
        }
        assert(data@.subrange(0, data@.len() as int) == data@);
    }

    /// Takes the next whole frame off the front of what was received:
    /// `Ok(None)` until one is complete, an error for an oversized head.
    pub fn next_frame(&mut self) -> (r: Result<Option<Vec<u8>>, FrameError>)
        ensures
            match split_frame(old(self).pending()) {
                FrameSplit::Incomplete => r matches Ok(None) && final(self).pending() == old(
                    self,
                ).pending(),
                FrameSplit::Oversized => r == Err::<Option<Vec<u8>>, FrameError>(
                    FrameError::Oversized,
                ) && final(self).pending() == old(self).pending(),
                FrameSplit::Frame { payload, rest } => r matches Ok(Some(p)) && p@ == payload
                    && final(self).pending() == rest,
            },
    {
        match codec_decode(self.buf.as_slice()) {
            Ok(Some(pair)) => {
                self.buf = pair.1;
                Ok(Some(pair.0))
            },
            Ok(None) => Ok(None),
            Err(_) => Err(FrameError::Oversized),
        }
    }

    /// Called when the stream has ended: a clean end leaves nothing pending,
    /// anything else is a truncated frame.
    pub fn finish(&self) -> (r: Result<(), FrameError>)
        ensures
            r.is_ok() == (self.pending().len() == 0),
            r.is_err() ==> r == Err::<(), FrameError>(FrameError::Truncated),
    {
        if self.buf.len() == 0 {
            Ok(())
        } else {
            Err(FrameError::Truncated)
        }
    }
}

/// A framed payload, followed by any bytes, splits back into that payload
/// and those bytes.
pub proof fn frame_round_trip(payload: Seq<u8>, rest: Seq<u8>)
    requires
        payload.len() <= MAX_FRAME_LEN,
    ensures
        split_frame(framed(payload) + rest) == (FrameSplit::Frame { payload, rest }),
{
    let n = payload.len() as u32;
    let buf = framed(payload) + rest;
    assert(((((n >> 24u32) as u8) as u32) << 24u32) | ((((n >> 16u32) as u8) as u32) << 16u32) | ((((n >> 8u32) as u8) as u32) << 8u32) | ((n as u8) as u32) == n) by (bit_vector);
    assert(buf.subrange(0, 4) == be32(n));
    assert(be32_value(buf) == n);
    assert(buf.subrange(4, 4 + n) == payload);
    assert(buf.subrange(4 + n, buf.len() as int) == rest);
}

} // verus!

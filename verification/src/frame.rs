//! Framing: every message on the channel is a two-byte big-endian length
//! followed by that many bytes of payload. The empty frame tells the worker
//! to shut down.
use vstd::prelude::*;

verus! {

/// Largest payload, in bytes, that a request frame may carry.
pub const MAX_PAYLOAD: usize = 65533;

/// Number of bytes of the length prefix.
pub const HEADER_LEN: usize = 2;

/// The length prefix of a payload of `len` bytes.
pub open spec fn spec_header(len: nat) -> Seq<u8> {
    seq![(len / 256) as u8, (len % 256) as u8]
}

/// The payload length that a length prefix announces.
pub open spec fn spec_payload_len(hi: u8, lo: u8) -> nat {
    (hi as nat) * 256 + (lo as nat)
}

/// A payload with its length prefix in front.
pub open spec fn spec_frame(payload: Seq<u8>) -> Seq<u8> {
    spec_header(payload.len()) + payload
}

/// The frame that asks the worker to terminate: length zero, no payload.
pub open spec fn spec_shutdown_frame() -> Seq<u8> {
    seq![0u8, 0u8]
}

/// The length prefix for a payload of `len` bytes.
pub fn header(len: usize) -> (h: [u8; 2])
    requires
        len <= 0xffff,
    ensures
        h@ == spec_header(len as nat),
{
    let hi: u8 = ((len >> 8) & 0xff) as u8;
    let lo: u8 = (len & 0xff) as u8;
    assert(((len >> 8) & 0xff) == len / 256 && (len & 0xff) == len % 256) by (bit_vector)
        requires
            len <= 0xffff,
    ;
    let h: [u8; 2] = [hi, lo];
    assert(h@ =~= spec_header(len as nat));
    h
}

/// The payload length announced by a length prefix.
pub fn payload_len(h: &[u8; 2]) -> (len: usize)
    ensures
        len == spec_payload_len(h@[0], h@[1]),
        len <= 0xffff,
{
    let hi: usize = h[0] as usize;
    let lo: usize = h[1] as usize;
    assert((hi << 8) == hi * 256) by (bit_vector)
        requires
            hi < 256,
    ;
    (hi << 8) + lo
}

/// Puts the length prefix in front of `payload`.
pub fn frame(payload: Vec<u8>) -> (framed: Vec<u8>)
    requires
        payload.len() <= MAX_PAYLOAD,
    ensures
        framed@ == spec_frame(payload@),
{
    let h = header(payload.len());
    let ghost body = payload@;
    let mut data = payload;
    data.insert(0, h[0]);
    data.insert(1, h[1]);
    assert(data@ =~= spec_frame(body));
    data
}

/// Frames `payload` if it fits: a payload longer than [`MAX_PAYLOAD`] is
/// refused, never shortened.
pub fn try_frame(payload: Vec<u8>) -> (framed: Option<Vec<u8>>)
    ensures
        framed is Some <==> payload.len() <= MAX_PAYLOAD,
        framed is Some ==> framed->Some_0@ == spec_frame(payload@),
{
    if payload.len() > MAX_PAYLOAD {
        None
    } else {
        Some(frame(payload))
    }
}

/// The frame that asks the worker to terminate.
pub fn shutdown_frame() -> (framed: [u8; 2])
    ensures
        framed@ == spec_shutdown_frame(),
        framed@ == spec_frame(Seq::<u8>::empty()),
{
    let framed: [u8; 2] = [0u8; 2];
    assert(framed@ =~= spec_shutdown_frame());
    assert(spec_frame(Seq::<u8>::empty()) =~= spec_shutdown_frame());
    framed
}

/// What the reader gets back from a frame is what the writer put in: the
/// prefix announces the payload's length, the payload follows it unchanged,
/// and the whole frame fits in sixteen bits of length.
pub proof fn lemma_frame_reads_back(payload: Seq<u8>)
    requires
        payload.len() <= MAX_PAYLOAD,
    ensures
        spec_frame(payload).len() == payload.len() + HEADER_LEN,
        spec_frame(payload).len() <= 0xffff,
        spec_payload_len(spec_frame(payload)[0], spec_frame(payload)[1]) == payload.len(),
        spec_frame(payload).subrange(HEADER_LEN as int, spec_frame(payload).len() as int)
            == payload,
{
    let f = spec_frame(payload);
    assert(f.subrange(2, f.len() as int) =~= payload);
}

/// Only the empty payload frames to the shutdown signal.
pub proof fn lemma_shutdown_is_empty_frame(payload: Seq<u8>)
    requires
        payload.len() <= MAX_PAYLOAD,
    ensures
        spec_frame(payload) == spec_shutdown_frame() <==> payload.len() == 0,
{
    if payload.len() == 0 {
        assert(spec_frame(payload) =~= spec_shutdown_frame());
    } else {
        assert(spec_frame(payload).len() != spec_shutdown_frame().len());
    }
}

/// A length prefix reads back as the length it was written for.
pub proof fn lemma_header_reads_back(len: nat)
    requires
        len <= 0xffff,
    ensures
        spec_header(len).len() == HEADER_LEN,
        spec_payload_len(spec_header(len)[0], spec_header(len)[1]) == len,
{
}

} // verus!

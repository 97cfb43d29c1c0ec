//! Wire codec: a frame is a 3-byte header followed by the raw payload.
//!
//! The header holds the kind byte and the payload length in little-endian
//! order. There is no checksum and no escaping; a buffer shorter than a whole
//! frame is "need more data", never a message.

use crate::msgs::Sk8brdMsg;
use crate::msgs::Sk8brdMsgs;
use crate::msgs::MAX_PAYLOAD_LEN;
use crate::msgs::MSG_HDR_SIZE;
use vstd::assert_seqs_equal;
use vstd::prelude::*;

verus! {

/// Payload length declared by the two little-endian length bytes.
pub open spec fn spec_msg_len(lo: u8, hi: u8) -> nat {
    (lo + 256 * hi) as nat
}

/// The three header bytes for a kind byte and a payload length.
pub open spec fn header_bytes(kind: u8, len: nat) -> Seq<u8> {
    seq![kind, (len % 256) as u8, (len / 256) as u8]
}

/// The full wire image of one message: header, then the payload unchanged.
pub open spec fn frame_bytes(kind: u8, payload: Seq<u8>) -> Seq<u8> {
    header_bytes(kind, payload.len()) + payload
}

/// What a buffer decodes to: the first whole frame it holds, or nothing when
/// it is still short of one.
pub open spec fn spec_decode(buf: Seq<u8>) -> Option<(u8, Seq<u8>)> {
    if buf.len() < MSG_HDR_SIZE {
        None
    } else {
        let len = spec_msg_len(buf[1], buf[2]);
        if buf.len() < MSG_HDR_SIZE + len {
            None
        } else {
            Some((buf[0], buf.subrange(MSG_HDR_SIZE as int, MSG_HDR_SIZE + len)))
        }
    }
}

/// Reads the fixed-size header out of the first three received bytes.
pub fn parse_recv_msg(buf: &[u8]) -> (msg: Sk8brdMsg)
    requires
        buf@.len() >= MSG_HDR_SIZE,
    ensures
        msg.kind == buf@[0],
        msg.len == spec_msg_len(buf@[1], buf@[2]),
{
    Sk8brdMsg { kind: buf[0], len: buf[1] as u16 + 256 * (buf[2] as u16) }
}

/// Encodes one message as a standalone byte vector: header then payload.
pub fn encode_msg(kind: &Sk8brdMsgs, payload: &[u8]) -> (r: Vec<u8>)
    requires
        payload@.len() <= MAX_PAYLOAD_LEN,
    ensures
        r@ == frame_bytes(kind.spec_id(), payload@),
{
    let len = payload.len();
    let mut out: Vec<u8> = Vec::new();
    out.push(kind.id());
    out.push((len % 256) as u8);
    out.push((len / 256) as u8);
    assert(out@ =~= header_bytes(kind.spec_id(), payload@.len()));
    let mut i: usize = 0;
    while i < payload.len()
        invariant
            i <= payload@.len(),
            payload@.len() <= MAX_PAYLOAD_LEN,
            out@ == header_bytes(kind.spec_id(), payload@.len()) + payload@.take(i as int),
        decreases payload@.len() - i,
    {
        out.push(payload[i]);
        i += 1;
        assert(payload@.take(i as int) =~= payload@.take(i - 1) + seq![payload@[i - 1]]);
    }
    assert(payload@.take(payload@.len() as int) =~= payload@);
    out
}

/// What feeding a byte buffer to the decoder produced.
#[derive(Debug)]
pub enum DecodeOutcome {
    /// The buffer stops short of a whole frame; no message yet.
    NeedMore,
    /// One whole frame: its raw kind byte, its payload, and how many bytes of
    /// the buffer it occupied.
    Frame { kind: u8, payload: Vec<u8>, consumed: usize },
}

/// Decodes the first whole frame of a buffer, or reports that more bytes are
/// needed. A short buffer is never an error and never a spurious message.
pub fn try_decode(buf: &[u8]) -> (r: DecodeOutcome)
    ensures
        match r {
            DecodeOutcome::NeedMore => spec_decode(buf@) is None,
            DecodeOutcome::Frame { kind, payload, consumed } => {
                &&& spec_decode(buf@) == Some((kind, payload@))
                &&& consumed == MSG_HDR_SIZE + payload@.len()
                &&& consumed <= buf@.len()
            },
        },
{
    if buf.len() < MSG_HDR_SIZE {
        return DecodeOutcome::NeedMore;
    }
    let msg = parse_recv_msg(buf);
    let len = msg.len as usize;
    if buf.len() - MSG_HDR_SIZE < len {
        return DecodeOutcome::NeedMore;
    }
    let mut payload: Vec<u8> = Vec::new();
    let mut i: usize = 0;
    while i < len
        invariant
            i <= len,
            len <= MAX_PAYLOAD_LEN,
            MSG_HDR_SIZE + len <= buf@.len(),
            payload@ == buf@.subrange(MSG_HDR_SIZE as int, MSG_HDR_SIZE + i),
        decreases len - i,
    {
        payload.push(buf[MSG_HDR_SIZE + i]);
        i += 1;
        assert(buf@.subrange(MSG_HDR_SIZE as int, MSG_HDR_SIZE + i) =~= buf@.subrange(
            MSG_HDR_SIZE as int,
            MSG_HDR_SIZE + i - 1,
        ) + seq![buf@[MSG_HDR_SIZE + i - 1]]);
    }
    DecodeOutcome::Frame { kind: msg.kind, payload, consumed: MSG_HDR_SIZE + len }
}

/// Framing round trip: a frame built from any kind byte and any payload that
/// fits the length field decodes back to exactly that kind and payload, and
/// occupies the whole buffer, leaving no residual bytes.
pub proof fn lemma_frame_round_trip(kind: u8, payload: Seq<u8>)
    requires
        payload.len() <= MAX_PAYLOAD_LEN,
    ensures
        frame_bytes(kind, payload).len() == MSG_HDR_SIZE + payload.len(),
        spec_decode(frame_bytes(kind, payload)) == Some((kind, payload)),
{
    let f = frame_bytes(kind, payload);
    let len = payload.len();
    assert(spec_msg_len(f[1], f[2]) == len) by {
        assert((len % 256) + 256 * (len / 256) == len) by (nonlinear_arith);
    };
    assert_seqs_equal!(f.subrange(MSG_HDR_SIZE as int, MSG_HDR_SIZE + len as int), payload);
}

/// Partial-frame tolerance: a buffer shorter than the header can never decode
/// to a message, whatever its bytes hold.
pub proof fn lemma_short_buffer_needs_more(buf: Seq<u8>)
    requires
        buf.len() < MSG_HDR_SIZE,
    ensures
        spec_decode(buf) is None,
{
}

/// How the protocol stream ended.
#[derive(Debug, PartialEq, Eq, Structural)]
pub enum StreamEnd {
    /// The stream ended on a frame boundary: a clean end.
    CleanEnd,
    /// The stream ended with part of a frame still pending: the peer and
    /// this client have lost framing, which is fatal for the run.
    MidFrameDesync,
}

/// Classifies an end-of-stream by the bytes still waiting for the rest of
/// their frame: any pending byte at that point can never complete.
pub fn classify_stream_end(pending: usize) -> (r: StreamEnd)
    ensures
        r is CleanEnd <==> pending == 0,
{
    if pending == 0 {
        StreamEnd::CleanEnd
    } else {
        StreamEnd::MidFrameDesync
    }
}

} // verus!

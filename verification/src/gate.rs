//! The write gate: the single serialization point for outbound messages.
//!
//! Senders submit complete messages here. Each submission appends a full
//! frame — header first, payload right behind it — to the transcript in a
//! single move. The transcript is exactly the byte sequence the
//! transport sees, so no two messages' bytes ever interleave. The caller that
//! owns the underlying sink drains the transcript and writes the drained
//! bytes out in one piece.

use crate::codec::encode_msg;
use crate::codec::frame_bytes;
use crate::msgs::Sk8brdMsgs;
use crate::msgs::MAX_PAYLOAD_LEN;
use vstd::assert_seqs_equal;
use vstd::prelude::*;

verus! {

/// Serializes all outbound message sends against one shared sink.
pub struct WriteGate {
    sent: Vec<u8>,
}

impl WriteGate {
    /// Every byte handed to the transport so far, in order, and not yet
    /// drained by the sink's owner.
    pub closed spec fn transcript(self) -> Seq<u8> {
        self.sent@
    }

    /// A gate that has sent nothing yet.
    pub fn new() -> (r: WriteGate)
        ensures
            r.transcript() == Seq::<u8>::empty(),
    {
        WriteGate { sent: Vec::new() }
    }

    /// Hands the accumulated bytes over to the owner of the real sink and
    /// empties the transcript. Whole messages only ever leave together.
    pub fn drain(&mut self) -> (r: Vec<u8>)
        ensures
            r@ == old(self).transcript(),
            final(self).transcript() == Seq::<u8>::empty(),
    {
        let mut out: Vec<u8> = Vec::new();
        core::mem::swap(&mut out, &mut self.sent);
        out
    }
}

/// Sends one message: header then payload, as one contiguous block of the
/// gate's transcript.
pub fn send_msg(gate: &mut WriteGate, kind: Sk8brdMsgs, buf: &[u8])
    requires
        buf@.len() <= MAX_PAYLOAD_LEN,
    ensures
        final(gate).transcript() == old(gate).transcript() + frame_bytes(kind.spec_id(), buf@),
{
    let mut frame = encode_msg(&kind, buf);
    let ghost before = gate.sent@;
    gate.sent.append(&mut frame);
    assert(gate.sent@ =~= before + frame_bytes(kind.spec_id(), buf@));
}

/// Sends a bare acknowledgment: the given kind with an empty payload.
pub fn send_ack(gate: &mut WriteGate, kind: Sk8brdMsgs)
    ensures
        final(gate).transcript() == old(gate).transcript() + frame_bytes(
            kind.spec_id(),
            Seq::<u8>::empty(),
        ),
{
    let empty: [u8; 0] = [];
    send_msg(gate, kind, &empty);
    assert(empty@ =~= Seq::<u8>::empty());
}

/// Forwards console bytes to the remote board.
pub fn send_console(gate: &mut WriteGate, buf: &[u8])
    requires
        buf@.len() <= MAX_PAYLOAD_LEN,
    ensures
        final(gate).transcript() == old(gate).transcript() + frame_bytes(
            Sk8brdMsgs::MsgConsole.spec_id(),
            buf@,
        ),
{
    send_msg(gate, Sk8brdMsgs::MsgConsole, buf)
}

/// Sends a serial-line break signal to the board's console UART.
pub fn send_break(gate: &mut WriteGate)
    ensures
        final(gate).transcript() == old(gate).transcript() + frame_bytes(
            Sk8brdMsgs::MsgSendBreak.spec_id(),
            Seq::<u8>::empty(),
        ),
{
    send_ack(gate, Sk8brdMsgs::MsgSendBreak)
}

/// Asks the farm for a board by name.
pub fn select_brd(gate: &mut WriteGate, name: &[u8])
    requires
        name@.len() <= MAX_PAYLOAD_LEN,
    ensures
        final(gate).transcript() == old(gate).transcript() + frame_bytes(
            Sk8brdMsgs::MsgSelectBoard.spec_id(),
            name@,
        ),
{
    send_msg(gate, Sk8brdMsgs::MsgSelectBoard, name)
}

/// Turns the board's USB bus power on or off.
pub fn send_vbus_ctrl(gate: &mut WriteGate, en: bool)
    ensures
        final(gate).transcript() == old(gate).transcript() + frame_bytes(
            if en {
                Sk8brdMsgs::MsgVbusOn.spec_id()
            } else {
                Sk8brdMsgs::MsgVbusOff.spec_id()
            },
            Seq::<u8>::empty(),
        ),
{
    send_ack(
        gate,
        if en {
            Sk8brdMsgs::MsgVbusOn
        } else {
            Sk8brdMsgs::MsgVbusOff
        },
    )
}

/// Two consecutive submissions occupy two disjoint, contiguous, adjacent
/// ranges of the transcript: the earlier frame sits complete before the
/// later frame begins, so neither can split the other.
pub proof fn lemma_write_atomicity(before: Seq<u8>, ka: u8, pa: Seq<u8>, kb: u8, pb: Seq<u8>)
    ensures
        ({
            let fa = frame_bytes(ka, pa);
            let fb = frame_bytes(kb, pb);
            let t = before + fa + fb;
            &&& t.subrange(before.len() as int, (before.len() + fa.len()) as int) == fa
            &&& t.subrange((before.len() + fa.len()) as int, t.len() as int) == fb
            &&& t.len() == before.len() + fa.len() + fb.len()
        }),
{
    let fa = frame_bytes(ka, pa);
    let fb = frame_bytes(kb, pb);
    let t = before + fa + fb;
    assert_seqs_equal!(t.subrange(before.len() as int, (before.len() + fa.len()) as int), fa);
    assert_seqs_equal!(t.subrange((before.len() + fa.len()) as int, t.len() as int), fb);
}

} // verus!

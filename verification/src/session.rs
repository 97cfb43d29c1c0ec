//! The session state machine.
//!
//! One session drives one run against the farm: pick a board (or just list
//! them), power it on, relay its console, hand a boot image to fastboot when
//! the board asks for one, and power the board off again on the way out.
//! The dispatch methods interpret one decoded message at a time and describe
//! every send they make through the write gate; printing and logging are
//! handed back as actions for the caller to render.
//!
//! The protocol is tolerant by design: an unknown kind byte and a
//! recognized-but-unsupported kind are reported as actions and the session
//! keeps running; neither ends the dispatch loop.

use crate::codec::frame_bytes;
use crate::flag::CancelFlag;
use crate::gate::select_brd;
use crate::gate::send_ack;
use crate::gate::WriteGate;
use crate::msgs::Sk8brdMsgs;
use crate::msgs::MAX_PAYLOAD_LEN;
use crate::transfer::chunk_frames;
use crate::transfer::num_chunks;
use crate::transfer::send_image;
use crate::transfer::transfer_frames;
use crate::transfer::TransferOutcome;
use vstd::prelude::*;

verus! {

/// Where a session stands in its life.
#[derive(Debug, PartialEq, Eq, Structural, Clone, Copy)]
pub enum SessionState {
    /// The remote session is not established yet.
    Connecting,
    /// A board list was requested; replies are being printed.
    DeviceDiscovery,
    /// A board was requested; its acknowledgment is awaited.
    BoardSelection,
    /// The board is selected and live: console, power and fastboot traffic.
    Active,
    /// An image transfer to the board is in flight.
    Flashing,
    /// The goodbye power-off has been sent; only closing remains.
    ShuttingDown,
    /// The session is over.
    Closed,
}

/// The follow-up work an incoming message leaves to the caller.
#[derive(Debug, PartialEq)]
pub enum SessionAction {
    /// Recognized and accepted silently.
    Ignored,
    /// Echo these console bytes to the operator.
    PrintConsole(Vec<u8>),
    /// Print this status text (a board list or board info).
    PrintText(Vec<u8>),
    /// A power-on acknowledgment arrived: refresh the idle timer.
    ResetTimer,
    /// The board asked for the image and a transfer ran; how it ended.
    Transferred(TransferOutcome),
    /// The board list is complete: a list-only dispatch loop stops here.
    EndOfList,
    /// A valid kind this client does not implement: log it, keep running.
    Unimplemented(u8),
    /// A kind byte outside the protocol: log it, keep running.
    UnknownKind(u8),
}

/// One run against the farm.
pub struct Session {
    /// Where the session stands.
    pub state: SessionState,
    /// The requested board name; empty means list-only.
    pub board: Vec<u8>,
    /// Whether console traffic is echoed to the operator.
    pub verbose: bool,
}

/// The board name and the verbosity choice never change within a run.
pub open spec fn same_config(a: Session, b: Session) -> bool {
    &&& a.board == b.board
    &&& a.verbose == b.verbose
}

impl Session {
    /// Whether this run only lists boards: no board name was supplied.
    pub open spec fn spec_list_only(self) -> bool {
        self.board@.len() == 0
    }

    /// A session for the given board name (empty for list-only), not yet
    /// connected.
    pub fn new(board: Vec<u8>, verbose: bool) -> (r: Session)
        ensures
            r.state is Connecting,
            r.board == board,
            r.verbose == verbose,
    {
        Session { state: SessionState::Connecting, board, verbose }
    }

    /// The remote program is running: ask for the board list when no board
    /// name was supplied, else ask for the board by name.
    pub fn start(&mut self, gate: &mut WriteGate)
        requires
            old(self).state is Connecting,
            old(self).board@.len() <= MAX_PAYLOAD_LEN,
        ensures
            same_config(*old(self), *final(self)),
            old(self).spec_list_only() ==> (final(self).state is DeviceDiscovery && final(gate).transcript() == old(gate).transcript() + frame_bytes(
                Sk8brdMsgs::MsgListDevices.spec_id(),
                Seq::empty(),
            )),
            !old(self).spec_list_only() ==> (final(self).state is BoardSelection && final(gate).transcript() == old(gate).transcript() + frame_bytes(
                Sk8brdMsgs::MsgSelectBoard.spec_id(),
                old(self).board@,
            )),
    {
        if self.board.len() == 0 {
            send_ack(gate, Sk8brdMsgs::MsgListDevices);
            self.state = SessionState::DeviceDiscovery;
        } else {
            select_brd(gate, self.board.as_slice());
            self.state = SessionState::BoardSelection;
        }
    }

    /// Dispatches one decoded message: the raw kind byte and its payload.
    ///
    /// A select-board acknowledgment is answered with a power-on request and
    /// makes the session active. A fastboot-present notice with a non-zero
    /// first byte streams the boot image (cancellable through the shared
    /// flag); everything else only produces an action for the caller — the
    /// session never ends on an unknown or unsupported kind.
    pub fn handle_msg(
        &mut self,
        gate: &mut WriteGate,
        image: &[u8],
        quit: &CancelFlag,
        kind: u8,
        payload: &[u8],
    ) -> (act: SessionAction)
        requires
            old(self).state is DeviceDiscovery || old(self).state is BoardSelection || old(self).state is Active,
        ensures
            same_config(*old(self), *final(self)),
            kind != Sk8brdMsgs::MsgSelectBoard.spec_id() ==> final(self).state == old(self).state,
            !(1 <= kind <= 16) ==> (act matches SessionAction::UnknownKind(b) && b == kind && final(gate).transcript() == old(gate).transcript()),
            kind == Sk8brdMsgs::MsgSelectBoard.spec_id() ==> (act is Ignored && final(self).state
                is Active && final(gate).transcript() == old(gate).transcript() + frame_bytes(
                Sk8brdMsgs::MsgPowerOn.spec_id(),
                Seq::empty(),
            )),
            kind == Sk8brdMsgs::MsgConsole.spec_id() ==> (final(gate).transcript() == old(gate).transcript() && (old(self).verbose ==> (act matches SessionAction::PrintConsole(p)
                && p@ == payload@)) && (!old(self).verbose ==> act is Ignored)),
            kind == Sk8brdMsgs::MsgPowerOn.spec_id() ==> (act is ResetTimer && final(gate).transcript() == old(gate).transcript()),
            kind == Sk8brdMsgs::MsgFastbootPresent.spec_id() ==> {
                &&& (payload@.len() > 0 && payload@[0] != 0) ==> {
                    &&& act matches SessionAction::Transferred(outcome)
                    &&& (outcome is Completed ==> final(gate).transcript() == old(gate).transcript() + transfer_frames(image@))
                    &&& (outcome is Cancelled ==> exists|k: nat|
                        k < num_chunks(image@.len()) && final(gate).transcript() == old(gate).transcript() + #[trigger] chunk_frames(image@, k))
                }
                &&& !(payload@.len() > 0 && payload@[0] != 0) ==> (act is Ignored && final(gate).transcript() == old(gate).transcript())
            },
            kind == Sk8brdMsgs::MsgListDevices.spec_id() ==> (final(gate).transcript() == old(gate).transcript() && (payload@.len() == 0 ==> act is EndOfList) && (payload@.len() > 0
                ==> (act matches SessionAction::PrintText(p) && p@ == payload@))),
            kind == Sk8brdMsgs::MsgBoardInfo.spec_id() ==> (final(gate).transcript() == old(gate).transcript() && (payload@.len() == 0 ==> act is Ignored) && (payload@.len() > 0 ==> (
            act matches SessionAction::PrintText(p) && p@ == payload@))),
            (kind == Sk8brdMsgs::MsgPowerOff.spec_id() || kind
                == Sk8brdMsgs::MsgFastbootDownload.spec_id() || kind
                == Sk8brdMsgs::MsgVbusOn.spec_id() || kind == Sk8brdMsgs::MsgVbusOff.spec_id()
                || kind == Sk8brdMsgs::MsgFastbootContinue.spec_id()) ==> (act is Ignored && final(gate).transcript() == old(gate).transcript()),
            (kind == Sk8brdMsgs::MsgHardReset.spec_id() || kind
                == Sk8brdMsgs::MsgFastbootBoot.spec_id() || kind
                == Sk8brdMsgs::MsgStatusUpdate.spec_id() || kind
                == Sk8brdMsgs::MsgFastbootReboot.spec_id() || kind
                == Sk8brdMsgs::MsgSendBreak.spec_id()) ==> (act matches
                SessionAction::Unimplemented(b) && b == kind && final(gate).transcript() == old(gate).transcript()),
    {
        match Sk8brdMsgs::try_from(kind) {
            Err(b) => SessionAction::UnknownKind(b),
            Ok(Sk8brdMsgs::MsgSelectBoard) => {
                send_ack(gate, Sk8brdMsgs::MsgPowerOn);
                self.state = SessionState::Active;
                SessionAction::Ignored
            },
            Ok(Sk8brdMsgs::MsgConsole) => {
                if self.verbose {
                    SessionAction::PrintConsole(slice_to_vec_u8(payload))
                } else {
                    SessionAction::Ignored
                }
            },
            Ok(Sk8brdMsgs::MsgPowerOn) => SessionAction::ResetTimer,
            Ok(Sk8brdMsgs::MsgFastbootPresent) => {
                if payload.len() > 0 && payload[0] != 0 {
                    let resume = self.state;
                    self.state = SessionState::Flashing;
                    let outcome = send_image(gate, image, quit);
                    self.state = resume;
                    SessionAction::Transferred(outcome)
                } else {
                    SessionAction::Ignored
                }
            },
            Ok(Sk8brdMsgs::MsgListDevices) => {
                if payload.len() == 0 {
                    SessionAction::EndOfList
                } else {
                    SessionAction::PrintText(slice_to_vec_u8(payload))
                }
            },
            Ok(Sk8brdMsgs::MsgBoardInfo) => {
                if payload.len() == 0 {
                    SessionAction::Ignored
                } else {
                    SessionAction::PrintText(slice_to_vec_u8(payload))
                }
            },
            Ok(Sk8brdMsgs::MsgPowerOff) => SessionAction::Ignored,
            Ok(Sk8brdMsgs::MsgFastbootDownload) => SessionAction::Ignored,
            Ok(Sk8brdMsgs::MsgVbusOn) => SessionAction::Ignored,
            Ok(Sk8brdMsgs::MsgVbusOff) => SessionAction::Ignored,
            Ok(Sk8brdMsgs::MsgFastbootContinue) => SessionAction::Ignored,
            Ok(Sk8brdMsgs::MsgHardReset) => SessionAction::Unimplemented(kind),
            Ok(Sk8brdMsgs::MsgFastbootBoot) => SessionAction::Unimplemented(kind),
            Ok(Sk8brdMsgs::MsgStatusUpdate) => SessionAction::Unimplemented(kind),
            Ok(Sk8brdMsgs::MsgFastbootReboot) => SessionAction::Unimplemented(kind),
            Ok(Sk8brdMsgs::MsgSendBreak) => SessionAction::Unimplemented(kind),
        }
    }

    /// Begins shutdown: sends the goodbye power-off, at most once per run.
    /// Calling this again — say, when both a quit keystroke and the end of
    /// discovery race to shut down — changes nothing and sends nothing.
    pub fn end_session(&mut self, gate: &mut WriteGate)
        ensures
            same_config(*old(self), *final(self)),
            (old(self).state is ShuttingDown || old(self).state is Closed) ==> (final(self).state
                == old(self).state && final(gate).transcript() == old(gate).transcript()),
            !(old(self).state is ShuttingDown || old(self).state is Closed) ==> (final(self).state
                is ShuttingDown && final(gate).transcript() == old(gate).transcript()
                + frame_bytes(Sk8brdMsgs::MsgPowerOff.spec_id(), Seq::empty())),
    {
        match self.state {
            SessionState::ShuttingDown => (),
            SessionState::Closed => (),
            _ => {
                send_ack(gate, Sk8brdMsgs::MsgPowerOff);
                self.state = SessionState::ShuttingDown;
            },
        }
    }

    /// The remote session is gone; the run is over.
    pub fn close(&mut self)
        requires
            old(self).state is ShuttingDown,
        ensures
            same_config(*old(self), *final(self)),
            final(self).state is Closed,
    {
        self.state = SessionState::Closed;
    }
}

/// Requesting the board list needs no local bookkeeping: the names arrive as
/// the payload of a list-devices message and are printed as they come.
pub fn list_boards() {
}

/// Copies a payload slice into an owned vector, byte for byte.
fn slice_to_vec_u8(s: &[u8]) -> (r: Vec<u8>)
    ensures
        r@ == s@,
{
    let mut out: Vec<u8> = Vec::new();
    let mut i: usize = 0;
    while i < s.len()
        invariant
            i <= s@.len(),
            out@ == s@.take(i as int),
        decreases s@.len() - i,
    {
        out.push(s[i]);
        i += 1;
        assert(s@.take(i as int) =~= s@.take(i - 1) + seq![s@[i - 1]]);
    }
    assert(s@.take(s@.len() as int) =~= s@);
    out
}

} // verus!

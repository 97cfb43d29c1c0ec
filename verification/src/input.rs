//! The interactive input handler: keystrokes become protocol sends.
//!
//! One reserved control byte (Ctrl-A) arms an escape prefix instead of being
//! forwarded. The next byte is then a local command — send the control byte
//! literally, break, power, bus power, quit — and the prefix disarms whether
//! or not the byte named a command. Every other byte outside escape mode is
//! forwarded to the board as a one-byte `Console` message.

use crate::codec::frame_bytes;
use crate::flag::CancelFlag;
use crate::gate::send_ack;
use crate::gate::send_break;
use crate::gate::send_console;
use crate::gate::WriteGate;
use crate::msgs::Sk8brdMsgs;
use vstd::prelude::*;

verus! {

/// The reserved escape-prefix byte: Ctrl-A.
pub const ESCAPE_BYTE: u8 = 1;

/// Whether the escape prefix is armed after one keystroke.
pub open spec fn keypress_next_special(special: bool, c: u8) -> bool {
    if special {
        false
    } else {
        c == ESCAPE_BYTE
    }
}

/// The bytes one keystroke sends through the write gate.
pub open spec fn keypress_frames(special: bool, c: u8) -> Seq<u8> {
    if special {
        if c == 97 {  // 'a': forward the control byte itself
            frame_bytes(Sk8brdMsgs::MsgConsole.spec_id(), seq![ESCAPE_BYTE])
        } else if c == 66 {  // 'B'
            frame_bytes(Sk8brdMsgs::MsgSendBreak.spec_id(), Seq::empty())
        } else if c == 80 {  // 'P'
            frame_bytes(Sk8brdMsgs::MsgPowerOn.spec_id(), Seq::empty())
        } else if c == 112 {  // 'p'
            frame_bytes(Sk8brdMsgs::MsgPowerOff.spec_id(), Seq::empty())
        } else if c == 86 {  // 'V'
            frame_bytes(Sk8brdMsgs::MsgVbusOn.spec_id(), Seq::empty())
        } else if c == 118 {  // 'v'
            frame_bytes(Sk8brdMsgs::MsgVbusOff.spec_id(), Seq::empty())
        } else {  // 'q' only sets the flag; everything else is a no-op
            Seq::empty()
        }
    } else {
        if c == ESCAPE_BYTE {
            Seq::empty()
        } else {
            frame_bytes(Sk8brdMsgs::MsgConsole.spec_id(), seq![c])
        }
    }
}

/// Handles one keystroke: forwards it as console input, or — after the
/// escape prefix — runs the local command it names. The quit command sets
/// the shared cancellation flag and sends nothing.
pub fn handle_keypress(c: u8, quit: &CancelFlag, special: &mut bool, gate: &mut WriteGate)
    ensures
        *final(special) == keypress_next_special(*old(special), c),
        final(gate).transcript() == old(gate).transcript() + keypress_frames(*old(special), c),
{
    if *special {
        *special = false;
        match c {
            97 => {
                let one: [u8; 1] = [ESCAPE_BYTE];
                send_console(gate, &one);
                assert(one@ =~= seq![ESCAPE_BYTE]);
            },
            66 => send_break(gate),
            80 => send_ack(gate, Sk8brdMsgs::MsgPowerOn),
            112 => send_ack(gate, Sk8brdMsgs::MsgPowerOff),
            113 => quit.set(),  // 'q'
            86 => send_ack(gate, Sk8brdMsgs::MsgVbusOn),
            118 => send_ack(gate, Sk8brdMsgs::MsgVbusOff),
            _ => (),
        }
        if c != 97 && c != 66 && c != 80 && c != 112 && c != 86 && c != 118 {
            assert(gate.transcript() =~= old(gate).transcript() + keypress_frames(
                *old(special),
                c,
            ));
        }
    } else {
        if c == ESCAPE_BYTE {
            *special = true;
            assert(gate.transcript() =~= old(gate).transcript() + keypress_frames(
                *old(special),
                c,
            ));
        } else {
            let one: [u8; 1] = [c];
            send_console(gate, &one);
            assert(one@ =~= seq![c]);
        }
    }
}

} // verus!

//! Message kinds and the decoded wire header.

use vstd::prelude::*;

verus! {

/// Size in bytes of a wire header: one kind byte and two length bytes.
pub const MSG_HDR_SIZE: usize = 3;

/// Largest payload a header can describe: the length field is 16 bits wide.
pub const MAX_PAYLOAD_LEN: usize = 65535;

/// The closed set of message kinds the farm protocol knows, with wire
/// identifiers 1 through 16 in declaration order.
#[derive(Debug, PartialEq, Eq, Structural)]
pub enum Sk8brdMsgs {
    MsgSelectBoard,
    MsgConsole,
    MsgHardReset,
    MsgPowerOn,
    MsgPowerOff,
    MsgFastbootPresent,
    MsgFastbootDownload,
    MsgFastbootBoot,
    MsgStatusUpdate,
    MsgVbusOn,
    MsgVbusOff,
    MsgFastbootReboot,
    MsgSendBreak,
    MsgListDevices,
    MsgBoardInfo,
    MsgFastbootContinue,
}

impl Sk8brdMsgs {
    /// Wire identifier of this message kind.
    pub open spec fn spec_id(self) -> u8 {
        match self {
            Sk8brdMsgs::MsgSelectBoard => 1,
            Sk8brdMsgs::MsgConsole => 2,
            Sk8brdMsgs::MsgHardReset => 3,
            Sk8brdMsgs::MsgPowerOn => 4,
            Sk8brdMsgs::MsgPowerOff => 5,
            Sk8brdMsgs::MsgFastbootPresent => 6,
            Sk8brdMsgs::MsgFastbootDownload => 7,
            Sk8brdMsgs::MsgFastbootBoot => 8,
            Sk8brdMsgs::MsgStatusUpdate => 9,
            Sk8brdMsgs::MsgVbusOn => 10,
            Sk8brdMsgs::MsgVbusOff => 11,
            Sk8brdMsgs::MsgFastbootReboot => 12,
            Sk8brdMsgs::MsgSendBreak => 13,
            Sk8brdMsgs::MsgListDevices => 14,
            Sk8brdMsgs::MsgBoardInfo => 15,
            Sk8brdMsgs::MsgFastbootContinue => 16,
        }
    }

    /// The byte that stands for this kind on the wire.
    pub fn id(&self) -> (r: u8)
        ensures
            r == self.spec_id(),
    {
        match self {
            Sk8brdMsgs::MsgSelectBoard => 1,
            Sk8brdMsgs::MsgConsole => 2,
            Sk8brdMsgs::MsgHardReset => 3,
            Sk8brdMsgs::MsgPowerOn => 4,
            Sk8brdMsgs::MsgPowerOff => 5,
            Sk8brdMsgs::MsgFastbootPresent => 6,
            Sk8brdMsgs::MsgFastbootDownload => 7,
            Sk8brdMsgs::MsgFastbootBoot => 8,
            Sk8brdMsgs::MsgStatusUpdate => 9,
            Sk8brdMsgs::MsgVbusOn => 10,
            Sk8brdMsgs::MsgVbusOff => 11,
            Sk8brdMsgs::MsgFastbootReboot => 12,
            Sk8brdMsgs::MsgSendBreak => 13,
            Sk8brdMsgs::MsgListDevices => 14,
            Sk8brdMsgs::MsgBoardInfo => 15,
            Sk8brdMsgs::MsgFastbootContinue => 16,
        }
    }

    /// Decodes a kind byte. An identifier outside 1 through 16 is not a
    /// protocol failure: it comes back as the distinguished unknown-kind
    /// outcome carrying the raw byte.
    pub fn try_from(value: u8) -> (r: Result<Sk8brdMsgs, u8>)
        ensures
            1 <= value <= 16 ==> (r matches Ok(m) && m.spec_id() == value),
            !(1 <= value <= 16) ==> (r matches Err(b) && b == value),
    {
        match value {
            1 => Ok(Sk8brdMsgs::MsgSelectBoard),
            2 => Ok(Sk8brdMsgs::MsgConsole),
            3 => Ok(Sk8brdMsgs::MsgHardReset),
            4 => Ok(Sk8brdMsgs::MsgPowerOn),
            5 => Ok(Sk8brdMsgs::MsgPowerOff),
            6 => Ok(Sk8brdMsgs::MsgFastbootPresent),
            7 => Ok(Sk8brdMsgs::MsgFastbootDownload),
            8 => Ok(Sk8brdMsgs::MsgFastbootBoot),
            9 => Ok(Sk8brdMsgs::MsgStatusUpdate),
            10 => Ok(Sk8brdMsgs::MsgVbusOn),
            11 => Ok(Sk8brdMsgs::MsgVbusOff),
            12 => Ok(Sk8brdMsgs::MsgFastbootReboot),
            13 => Ok(Sk8brdMsgs::MsgSendBreak),
            14 => Ok(Sk8brdMsgs::MsgListDevices),
            15 => Ok(Sk8brdMsgs::MsgBoardInfo),
            16 => Ok(Sk8brdMsgs::MsgFastbootContinue),
            _ => Err(value),
        }
    }
}

/// A decoded wire header: the raw kind byte and the declared payload length.
#[derive(Copy, Clone, Debug)]
pub struct Sk8brdMsg {
    pub kind: u8,
    pub len: u16,
}

} // verus!

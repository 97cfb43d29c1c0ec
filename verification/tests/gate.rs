use sk8brd::codec::encode_msg;
use sk8brd::gate::{
    select_brd, send_ack, send_break, send_console, send_msg, send_vbus_ctrl, WriteGate,
};
use sk8brd::msgs::Sk8brdMsgs;

#[test]
fn send_msg_appends_header_then_payload() {
    let mut gate = WriteGate::new();
    send_msg(&mut gate, Sk8brdMsgs::MsgConsole, b"hi");
    assert_eq!(gate.drain(), vec![2u8, 2, 0, b'h', b'i']);
}

#[test]
fn messages_stay_contiguous() {
    // Message A then message B: the transcript is exactly A's frame followed
    // by B's frame; no byte of one sits inside the other.
    let mut gate = WriteGate::new();
    send_msg(&mut gate, Sk8brdMsgs::MsgConsole, b"aaaa");
    send_msg(&mut gate, Sk8brdMsgs::MsgFastbootDownload, b"bb");
    let transcript = gate.drain();
    let frame_a = encode_msg(&Sk8brdMsgs::MsgConsole, b"aaaa");
    let frame_b = encode_msg(&Sk8brdMsgs::MsgFastbootDownload, b"bb");
    let mut expected = frame_a.clone();
    expected.extend_from_slice(&frame_b);
    assert_eq!(transcript, expected);
    assert_eq!(&transcript[..frame_a.len()], frame_a.as_slice());
    assert_eq!(&transcript[frame_a.len()..], frame_b.as_slice());
}

#[test]
fn ack_is_a_bare_header() {
    let mut gate = WriteGate::new();
    send_ack(&mut gate, Sk8brdMsgs::MsgPowerOff);
    assert_eq!(gate.drain(), vec![5u8, 0, 0]);
}

#[test]
fn select_board_sends_the_name() {
    let mut gate = WriteGate::new();
    select_brd(&mut gate, b"qcs405");
    assert_eq!(gate.drain(), encode_msg(&Sk8brdMsgs::MsgSelectBoard, b"qcs405"));
}

#[test]
fn vbus_control_picks_on_or_off() {
    let mut gate = WriteGate::new();
    send_vbus_ctrl(&mut gate, true);
    assert_eq!(gate.drain(), vec![10u8, 0, 0]);
    send_vbus_ctrl(&mut gate, false);
    assert_eq!(gate.drain(), vec![11u8, 0, 0]);
}

#[test]
fn break_and_console_helpers() {
    let mut gate = WriteGate::new();
    send_break(&mut gate);
    assert_eq!(gate.drain(), vec![13u8, 0, 0]);
    send_console(&mut gate, b"x");
    assert_eq!(gate.drain(), vec![2u8, 1, 0, b'x']);
}

#[test]
fn drain_empties_the_gate() {
    let mut gate = WriteGate::new();
    send_ack(&mut gate, Sk8brdMsgs::MsgPowerOn);
    assert!(!gate.drain().is_empty());
    assert!(gate.drain().is_empty());
}

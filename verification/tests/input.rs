use sk8brd::flag::CancelFlag;
use sk8brd::gate::WriteGate;
use sk8brd::input::{handle_keypress, ESCAPE_BYTE};

#[test]
fn plain_bytes_are_forwarded_as_console() {
    let mut gate = WriteGate::new();
    let quit = CancelFlag::new();
    let mut special = false;
    handle_keypress(b'x', &quit, &mut special, &mut gate);
    assert!(!special);
    assert_eq!(gate.drain(), vec![2u8, 1, 0, b'x']);
    assert!(!quit.is_set());
}

#[test]
fn escape_byte_arms_and_is_not_forwarded() {
    let mut gate = WriteGate::new();
    let quit = CancelFlag::new();
    let mut special = false;
    handle_keypress(ESCAPE_BYTE, &quit, &mut special, &mut gate);
    assert!(special);
    assert!(gate.drain().is_empty());
}

#[test]
fn escaped_a_sends_the_control_byte_itself() {
    let mut gate = WriteGate::new();
    let quit = CancelFlag::new();
    let mut special = true;
    handle_keypress(b'a', &quit, &mut special, &mut gate);
    assert!(!special);
    assert_eq!(gate.drain(), vec![2u8, 1, 0, 1]);
}

#[test]
fn escaped_commands_send_their_messages() {
    let cases: [(u8, u8); 5] = [(b'B', 13), (b'P', 4), (b'p', 5), (b'V', 10), (b'v', 11)];
    for (key, kind) in cases {
        let mut gate = WriteGate::new();
        let quit = CancelFlag::new();
        let mut special = true;
        handle_keypress(key, &quit, &mut special, &mut gate);
        assert!(!special);
        assert_eq!(gate.drain(), vec![kind, 0, 0]);
        assert!(!quit.is_set());
    }
}

#[test]
fn escaped_quit_sets_the_flag_and_sends_nothing() {
    let mut gate = WriteGate::new();
    let quit = CancelFlag::new();
    let mut special = true;
    handle_keypress(b'q', &quit, &mut special, &mut gate);
    assert!(!special);
    assert!(gate.drain().is_empty());
    assert!(quit.is_set());
}

#[test]
fn plain_q_is_console_data_not_quit() {
    let mut gate = WriteGate::new();
    let quit = CancelFlag::new();
    let mut special = false;
    handle_keypress(b'q', &quit, &mut special, &mut gate);
    assert_eq!(gate.drain(), vec![2u8, 1, 0, b'q']);
    assert!(!quit.is_set());
}

#[test]
fn unknown_escape_command_disarms_and_does_nothing() {
    let mut gate = WriteGate::new();
    let quit = CancelFlag::new();
    let mut special = true;
    handle_keypress(b'Z', &quit, &mut special, &mut gate);
    assert!(!special);
    assert!(gate.drain().is_empty());
    assert!(!quit.is_set());
}

#[test]
fn escape_clears_even_for_the_reserved_slot() {
    // 's' is reserved but unassigned: a no-op that still disarms the prefix.
    let mut gate = WriteGate::new();
    let quit = CancelFlag::new();
    let mut special = true;
    handle_keypress(b's', &quit, &mut special, &mut gate);
    assert!(!special);
    assert!(gate.drain().is_empty());
}

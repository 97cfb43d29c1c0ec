use sk8brd::flag::CancelFlag;
use sk8brd::gate::WriteGate;
use sk8brd::transfer::{
    send_image, transfer_step, TransferOutcome, TransferProgress, TransferStep, CHUNK_SIZE,
};
use sk8brd::codec::{try_decode, DecodeOutcome};

/// Splits a transcript into its messages: (kind byte, payload) pairs.
fn decode_all(mut bytes: &[u8]) -> Vec<(u8, Vec<u8>)> {
    let mut out = Vec::new();
    while !bytes.is_empty() {
        match try_decode(bytes) {
            DecodeOutcome::Frame {
                kind,
                payload,
                consumed,
            } => {
                out.push((kind, payload));
                bytes = &bytes[consumed..];
            }
            DecodeOutcome::NeedMore => panic!("transcript must hold whole frames"),
        }
    }
    out
}

fn image_of(n: usize) -> Vec<u8> {
    (0..n).map(|i| (i % 251) as u8).collect()
}

#[test]
fn full_transfer_counts_and_reassembles() {
    // 5000 bytes: ceil(5000/2048) = 3 data chunks, plus the sentinel.
    let image = image_of(5000);
    let mut gate = WriteGate::new();
    let quit = CancelFlag::new();
    assert_eq!(send_image(&mut gate, &image, &quit), TransferOutcome::Completed);
    let msgs = decode_all(&gate.drain());
    assert_eq!(msgs.len(), 3 + 1);
    for (kind, _) in &msgs {
        assert_eq!(*kind, 7);
    }
    assert!(msgs.last().unwrap().1.is_empty());
    let data: Vec<u8> = msgs[..msgs.len() - 1]
        .iter()
        .flat_map(|(_, p)| p.iter().copied())
        .collect();
    assert_eq!(data, image);
    assert_eq!(msgs[0].1.len(), CHUNK_SIZE);
    assert_eq!(msgs[2].1.len(), 5000 - 2 * CHUNK_SIZE);
}

#[test]
fn empty_image_sends_only_the_sentinel() {
    let mut gate = WriteGate::new();
    let quit = CancelFlag::new();
    assert_eq!(send_image(&mut gate, &[], &quit), TransferOutcome::Completed);
    let msgs = decode_all(&gate.drain());
    assert_eq!(msgs.len(), 1);
    assert_eq!(msgs[0].0, 7);
    assert!(msgs[0].1.is_empty());
}

#[test]
fn whole_chunk_multiple_has_no_short_tail() {
    let image = image_of(2 * CHUNK_SIZE);
    let mut gate = WriteGate::new();
    let quit = CancelFlag::new();
    assert_eq!(send_image(&mut gate, &image, &quit), TransferOutcome::Completed);
    let msgs = decode_all(&gate.drain());
    assert_eq!(msgs.len(), 2 + 1);
    assert_eq!(msgs[0].1.len(), CHUNK_SIZE);
    assert_eq!(msgs[1].1.len(), CHUNK_SIZE);
    assert!(msgs[2].1.is_empty());
}

#[test]
fn cancellation_before_the_first_chunk_sends_nothing() {
    let image = image_of(5000);
    let mut gate = WriteGate::new();
    let quit = CancelFlag::new();
    quit.set();
    assert_eq!(send_image(&mut gate, &image, &quit), TransferOutcome::Cancelled);
    assert!(gate.drain().is_empty());
}

#[test]
fn cancellation_mid_transfer_stops_without_sentinel() {
    let image = image_of(3 * CHUNK_SIZE);
    let mut gate = WriteGate::new();
    let mut st = TransferProgress::new();
    assert!(matches!(
        transfer_step(&mut gate, &image, &mut st, false),
        TransferStep::Chunk { .. }
    ));
    assert!(matches!(
        transfer_step(&mut gate, &image, &mut st, true),
        TransferStep::Stopped
    ));
    let msgs = decode_all(&gate.drain());
    assert_eq!(msgs.len(), 1);
    assert_eq!(msgs[0].1.len(), CHUNK_SIZE);
}

#[test]
fn progress_reports_each_percentage_once_increasing() {
    // 10240 bytes = 5 chunks; the percentage before chunk i is 20 * i.
    let image = image_of(5 * CHUNK_SIZE);
    let mut gate = WriteGate::new();
    let mut st = TransferProgress::new();
    let mut reports = Vec::new();
    loop {
        match transfer_step(&mut gate, &image, &mut st, false) {
            TransferStep::Chunk { percent: Some(p) } => reports.push(p),
            TransferStep::Chunk { percent: None } => (),
            TransferStep::Finished => break,
            TransferStep::Stopped => panic!("nothing cancels this transfer"),
        }
    }
    assert_eq!(reports, vec![20, 40, 60, 80]);
    for pair in reports.windows(2) {
        assert!(pair[0] < pair[1]);
    }
}

#[test]
fn tiny_image_reports_no_progress() {
    // One chunk: the only percentage computed is 0, which never differs
    // from the initial value, so nothing is reported.
    let image = image_of(100);
    let mut gate = WriteGate::new();
    let mut st = TransferProgress::new();
    match transfer_step(&mut gate, &image, &mut st, false) {
        TransferStep::Chunk { percent } => assert_eq!(percent, None),
        _ => panic!("one data chunk expected"),
    }
    assert!(matches!(
        transfer_step(&mut gate, &image, &mut st, false),
        TransferStep::Finished
    ));
}

use sk8brd::demux::{ChannelEvent, Demux};

/// Reads a stream to its end: collects data until a zero-length delivery.
fn drain_stream(stream: &mut sk8brd::demux::DemuxedStream) -> Vec<u8> {
    let mut out = Vec::new();
    loop {
        match stream.read(4096) {
            Some(data) if data.is_empty() => break,
            Some(mut data) => out.append(&mut data),
            None => break,
        }
    }
    out
}

#[test]
fn interleaved_tags_split_into_two_streams() {
    // Tagged chunks [primary:"AB", extended:"xy", primary:"CD"] then the end
    // marker: the protocol stream yields "ABCD" and then a zero-length
    // delivery; the status stream yields "xy".
    let mut demux = Demux::new();
    assert_eq!(demux.push_event(ChannelEvent::Data { data: b"AB".to_vec() }), None);
    assert_eq!(
        demux.push_event(ChannelEvent::ExtendedData { ext: 1, data: b"xy".to_vec() }),
        None
    );
    assert_eq!(demux.push_event(ChannelEvent::Data { data: b"CD".to_vec() }), None);
    assert_eq!(demux.push_event(ChannelEvent::Eof), None);

    let mut protocol = Vec::new();
    loop {
        match demux.protocol.read(4096) {
            Some(data) if data.is_empty() => break,
            Some(mut data) => protocol.append(&mut data),
            None => panic!("the protocol stream must end in the EOF sentinel"),
        }
    }
    assert_eq!(protocol, b"ABCD".to_vec());

    assert_eq!(drain_stream(&mut demux.status), b"xy".to_vec());
}

#[test]
fn surprise_extension_tags_are_dropped_and_reported() {
    let mut demux = Demux::new();
    assert_eq!(
        demux.push_event(ChannelEvent::ExtendedData { ext: 7, data: b"noise".to_vec() }),
        Some(7)
    );
    assert_eq!(demux.push_event(ChannelEvent::Eof), None);
    assert_eq!(drain_stream(&mut demux.status), Vec::<u8>::new());
}

#[test]
fn short_reads_keep_leftover_bytes() {
    let mut demux = Demux::new();
    demux.push_event(ChannelEvent::Data { data: b"ABCD".to_vec() });
    assert_eq!(demux.protocol.read(2), Some(b"AB".to_vec()));
    assert_eq!(demux.protocol.read(1), Some(b"C".to_vec()));
    assert_eq!(demux.protocol.read(1), Some(b"D".to_vec()));
    assert_eq!(demux.protocol.read(1), None);
}

#[test]
fn one_read_opens_at_most_one_chunk() {
    let mut demux = Demux::new();
    demux.push_event(ChannelEvent::Data { data: b"AB".to_vec() });
    demux.push_event(ChannelEvent::Data { data: b"CD".to_vec() });
    // A request for more than one chunk holds still gets only that chunk.
    assert_eq!(demux.protocol.read(10), Some(b"AB".to_vec()));
    assert_eq!(demux.protocol.read(10), Some(b"CD".to_vec()));
}

#[test]
fn empty_open_stream_has_no_data_yet() {
    let mut demux = Demux::new();
    assert_eq!(demux.protocol.read(1), None);
    assert_eq!(demux.status.read(1), None);
}

#[test]
fn closed_channel_reads_as_end_of_stream() {
    let mut demux = Demux::new();
    demux.push_event(ChannelEvent::Closed);
    assert_eq!(demux.protocol.read(1), Some(Vec::new()));
    assert_eq!(demux.status.read(1), Some(Vec::new()));
}

#[test]
fn eof_sentinel_follows_pending_data() {
    let mut demux = Demux::new();
    demux.push_event(ChannelEvent::Data { data: b"tail".to_vec() });
    demux.push_event(ChannelEvent::Eof);
    assert_eq!(demux.protocol.read(100), Some(b"tail".to_vec()));
    assert_eq!(demux.protocol.read(100), Some(Vec::new()));
}

#[test]
fn uninteresting_channel_messages_change_nothing() {
    let mut demux = Demux::new();
    assert_eq!(demux.push_event(ChannelEvent::Other), None);
    assert_eq!(demux.protocol.read(1), None);
}

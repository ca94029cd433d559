use secure_chat::frame::{read_frame, write_frame, FrameReader, ReadEvent, ReadStep};

#[test]
fn frame_is_start_payload_end() {
    assert_eq!(write_frame(b"abc"), vec![2, b'a', b'b', b'c', 3]);
    assert_eq!(write_frame(b""), vec![2, 3]);
}

#[test]
fn frame_reads_back() {
    let payload = b"{\"p_type\":\"Login\",\"data\":\"x\"}".to_vec();
    let frame = write_frame(&payload);
    assert_eq!(read_frame(&frame).ok(), Some(payload));
}

#[test]
fn frame_with_end_marker_inside_is_cut_short() {
    let payload = vec![b'a', b'b', 3, b'c', b'd'];
    let frame = write_frame(&payload);
    assert_eq!(read_frame(&frame).ok(), Some(vec![b'a', b'b']));
}

#[test]
fn frame_without_start_marker_is_bad() {
    let fault = read_frame(&[b'x', b'y', 3]).err().expect("no frame");
    assert_eq!(fault.message, "Bad Packet");
}

#[test]
fn frame_from_empty_stream_fails() {
    let fault = read_frame(&[]).err().expect("no frame");
    assert_eq!(fault.message, "failed to fill whole buffer");
}

#[test]
fn frame_from_stream_that_ends_early_is_refused() {
    let fault = read_frame(&[2, b'a', b'b']).err().expect("no frame");
    assert_eq!(fault.message, "failed to fill whole buffer");
    let fault = read_frame(&[2]).err().expect("no frame");
    assert_eq!(fault.message, "failed to fill whole buffer");
    let whole = b"{\"p_type\":\"Ok\",\"data\":\"hi\"}";
    let mut stream = vec![2];
    stream.extend_from_slice(whole);
    assert!(read_frame(&stream).is_err());
    stream.push(3);
    assert_eq!(read_frame(&stream).ok(), Some(whole.to_vec()));
}

#[test]
fn reader_refuses_a_stream_that_ends_inside_a_frame() {
    let mut reader = FrameReader::new();
    for byte in [2u8, b'h', b'i'] {
        reader = match reader.accept(ReadEvent::Byte(byte)) {
            ReadStep::More(next) => next,
            _ => panic!("expected to read on"),
        };
    }
    match reader.accept(ReadEvent::Closed) {
        ReadStep::Fault(fault) => assert_eq!(fault.message, "failed to fill whole buffer"),
        _ => panic!("expected a fault"),
    }
}

#[test]
fn reader_hands_on_stream_errors() {
    let reader = FrameReader::new();
    match reader.accept(ReadEvent::Failed(String::from("connection reset"))) {
        ReadStep::Fault(fault) => assert_eq!(fault.message, "connection reset"),
        _ => panic!("expected a fault"),
    }
}

#[test]
fn reader_takes_a_frame_byte_by_byte() {
    let mut reader = FrameReader::new();
    assert!(reader.pending().is_empty());
    for byte in [2u8, b'h', b'i'] {
        reader = match reader.accept(ReadEvent::Byte(byte)) {
            ReadStep::More(next) => next,
            _ => panic!("expected to read on"),
        };
    }
    assert_eq!(reader.pending(), b"hi");
    match reader.accept(ReadEvent::Byte(3)) {
        ReadStep::Frame(payload) => assert_eq!(payload, b"hi".to_vec()),
        _ => panic!("expected a frame"),
    }
}

#[test]
fn reader_keeps_a_second_start_marker() {
    assert_eq!(read_frame(&[2, 2, b'a', 3, b'z']).ok(), Some(vec![2, b'a']));
}

#[test]
fn reader_refuses_a_wrong_first_byte() {
    match FrameReader::new().accept(ReadEvent::Byte(3)) {
        ReadStep::Fault(fault) => assert_eq!(fault.message, "Bad Packet"),
        _ => panic!("expected a fault"),
    }
    match FrameReader::new().accept(ReadEvent::Closed) {
        ReadStep::Fault(fault) => assert_eq!(fault.message, "failed to fill whole buffer"),
        _ => panic!("expected a fault"),
    }
}

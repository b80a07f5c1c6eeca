use watchfs::frame::extract_frame;
use watchfs::frame::frame_payload;
use watchfs::frame::try_frame_payload;

#[test]
fn frame_has_length_prefix_then_payload() {
    let payload = vec![9u8];
    let frame = frame_payload(&payload);
    assert_eq!(frame, vec![0, 1, 9]);
    let long = vec![7u8; 300];
    let frame = frame_payload(&long);
    assert_eq!(frame.len(), 302);
    assert_eq!(&frame[..2], &[1, 44]);
    assert_eq!(&frame[2..], &long[..]);
}

#[test]
fn frame_round_trip_including_empty() {
    for payload in [Vec::new(), vec![0u8], b"hello".to_vec(), vec![255u8; 65535]] {
        let frame = frame_payload(&payload);
        let (read_back, consumed) = extract_frame(&frame).expect("complete frame");
        assert_eq!(read_back, payload);
        assert_eq!(consumed, frame.len());
    }
}

#[test]
fn frame_round_trip_with_trailing_bytes() {
    let payload = b"abc".to_vec();
    let mut stream = frame_payload(&payload);
    stream.extend_from_slice(&[0, 1, 99]);
    let (read_back, consumed) = extract_frame(&stream).expect("complete frame");
    assert_eq!(read_back, payload);
    assert_eq!(consumed, 5);
    let rest = stream[consumed..].to_vec();
    let (second, consumed) = extract_frame(&rest).expect("second frame");
    assert_eq!(second, vec![99]);
    assert_eq!(consumed, 3);
}

#[test]
fn oversized_payload_is_rejected_before_any_write() {
    let too_long = vec![0u8; 65536];
    assert!(try_frame_payload(&too_long).is_none());
    let just_fits = vec![0u8; 65535];
    assert!(try_frame_payload(&just_fits).is_some());
}

#[test]
fn incomplete_frame_is_never_handed_out() {
    assert!(extract_frame(&Vec::new()).is_none());
    assert!(extract_frame(&vec![0]).is_none());
    // header announces 4 payload bytes, only 2 have arrived
    assert!(extract_frame(&vec![0, 4, 1, 2]).is_none());
    // zero-length payload is complete as soon as the header is
    let (payload, consumed) = extract_frame(&vec![0, 0]).expect("empty frame");
    assert!(payload.is_empty());
    assert_eq!(consumed, 2);
}

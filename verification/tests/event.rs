use watchfs::errors::ErrorKind;
use watchfs::event::decode_event;
use watchfs::event::encode_event;
use watchfs::event::event_well_formed;
use watchfs::event::Action;
use watchfs::event::ChangeEvent;

#[test]
fn event_round_trip_every_action() {
    let path_actions = [
        Action::NoticeWrite,
        Action::NoticeRemove,
        Action::Create,
        Action::Write,
        Action::Chmod,
        Action::Remove,
    ];
    for action in path_actions {
        let e = ChangeEvent::with_path(action, b"/tmp/watched/foo.txt".to_vec());
        assert_eq!(decode_event(&encode_event(&e)), Ok(e));
    }
    let rename = ChangeEvent::rename(b"/tmp/a".to_vec(), b"/tmp/b".to_vec());
    assert_eq!(decode_event(&encode_event(&rename)), Ok(rename.clone()));
    let rescan = ChangeEvent::rescan();
    assert_eq!(decode_event(&encode_event(&rescan)), Ok(rescan));
    let with_path = ChangeEvent::error(b"permission denied".to_vec(), Some(b"/tmp/a".to_vec()));
    assert_eq!(decode_event(&encode_event(&with_path)), Ok(with_path.clone()));
    let without_path = ChangeEvent::error(b"queue overflowed".to_vec(), None);
    assert_eq!(decode_event(&encode_event(&without_path)), Ok(without_path.clone()));
}

#[test]
fn event_wire_form_is_exactly_the_schema() {
    let e = ChangeEvent::with_path(Action::Create, b"/a".to_vec());
    // tag, then path present with its 16-bit length, then two absent fields
    assert_eq!(encode_event(&e), vec![2, 1, 0, 2, b'/', b'a', 0, 0]);
    let r = ChangeEvent::rescan();
    assert_eq!(encode_event(&r), vec![7, 0, 0, 0]);
    let rn = ChangeEvent::rename(b"x".to_vec(), b"y".to_vec());
    assert_eq!(encode_event(&rn), vec![6, 1, 0, 1, b'x', 1, 0, 1, b'y', 0]);
}

#[test]
fn event_round_trip_empty_and_long_fields() {
    let empty = ChangeEvent::with_path(Action::Write, Vec::new());
    assert_eq!(decode_event(&encode_event(&empty)), Ok(empty));
    let longest = ChangeEvent::with_path(Action::Write, vec![b'p'; 65535]);
    assert_eq!(decode_event(&encode_event(&longest)), Ok(longest));
}

#[test]
fn malformed_event_payloads_are_rejected() {
    // empty payload
    assert_eq!(decode_event(&Vec::new()), Err(ErrorKind::MalformedEvent));
    // unknown action tag
    assert_eq!(decode_event(&vec![9, 0, 0, 0]), Err(ErrorKind::MalformedEvent));
    // bad presence byte
    assert_eq!(decode_event(&vec![2, 2, 0, 0]), Err(ErrorKind::MalformedEvent));
    // field announces five bytes, two arrive
    assert_eq!(decode_event(&vec![2, 1, 0, 5, 1, 2]), Err(ErrorKind::MalformedEvent));
    // trailing garbage after a complete event
    assert_eq!(decode_event(&vec![7, 0, 0, 0, 0]), Err(ErrorKind::MalformedEvent));
    // truncated: fields missing entirely
    assert_eq!(decode_event(&vec![2, 0]), Err(ErrorKind::MalformedEvent));
}

#[test]
fn ill_shaped_events_are_rejected() {
    // a create must name a path
    assert_eq!(decode_event(&vec![2, 0, 0, 0]), Err(ErrorKind::MalformedEvent));
    // a rescan must not
    assert_eq!(decode_event(&vec![7, 1, 0, 1, b'/', 0, 0]), Err(ErrorKind::MalformedEvent));
    // only a rename carries a secondary path
    assert_eq!(decode_event(&vec![2, 1, 0, 1, b'/', 1, 0, 1, b'x', 0]), Err(ErrorKind::MalformedEvent));
    // only an error carries a message
    assert_eq!(decode_event(&vec![2, 1, 0, 1, b'/', 0, 1, 0, 1, b'm']), Err(ErrorKind::MalformedEvent));
    // a rename without its destination is ill-shaped, not a rename
    let bad = ChangeEvent {
        action: Action::Rename,
        path: Some(b"/tmp/a".to_vec()),
        secondary_path: None,
        error_message: None,
    };
    assert!(!event_well_formed(&bad));
    let good = ChangeEvent::rename(b"/tmp/a".to_vec(), b"/tmp/b".to_vec());
    assert!(event_well_formed(&good));
}

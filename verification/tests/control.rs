use watchfs::control::check_for_stop;
use watchfs::control::decode_command;
use watchfs::control::encode_command;
use watchfs::control::Command;
use watchfs::errors::ErrorKind;

#[test]
fn command_round_trip() {
    for stop in [true, false] {
        let c = Command { stop };
        assert_eq!(decode_command(&encode_command(&c)), Ok(c));
    }
    assert_eq!(encode_command(&Command { stop: true }), vec![1]);
    assert_eq!(encode_command(&Command { stop: false }), vec![0]);
}

#[test]
fn stop_frame_stops_and_others_do_not() {
    let stop = encode_command(&Command { stop: true });
    assert!(check_for_stop(&stop));
    let keep_going = encode_command(&Command { stop: false });
    assert!(!check_for_stop(&keep_going));
}

#[test]
fn malformed_command_is_a_no_op() {
    for payload in [Vec::new(), vec![2], vec![7], vec![0, 0], vec![1, 1], b"stop".to_vec()] {
        assert_eq!(decode_command(&payload), Err(ErrorKind::MalformedCommand));
        assert!(!check_for_stop(&payload));
    }
}

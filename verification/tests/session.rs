use watchfs::control::encode_command;
use watchfs::control::Command;
use watchfs::errors::ErrorKind;
use watchfs::event::encode_event;
use watchfs::event::Action;
use watchfs::event::ChangeEvent;
use watchfs::frame::frame_payload;
use watchfs::session::ready_frame;
use watchfs::session::Session;
use watchfs::session::SessionAction;
use watchfs::session::SessionInput;
use watchfs::session::SessionState;
use watchfs::session::step;

fn stop_frame() -> Vec<u8> {
    encode_command(&Command { stop: true })
}

fn streaming_session() -> Session {
    let mut session = Session::new();
    assert_eq!(session.handle(SessionInput::Connected), SessionAction::Subscribe);
    assert_eq!(session.state, SessionState::Subscribing);
    let action = session.handle(SessionInput::Subscribed);
    assert_eq!(action, SessionAction::SendFrame(ready_frame()));
    assert_eq!(session.state, SessionState::Streaming);
    session
}

#[test]
fn handshake_is_the_ready_frame() {
    // two length bytes, then the UTF-8 bytes of "ready"
    assert_eq!(ready_frame(), vec![0, 5, b'r', b'e', b'a', b'd', b'y']);
}

#[test]
fn create_event_streams_as_one_frame() {
    // a non-recursive subscription observing one created file
    let mut session = streaming_session();
    let event = ChangeEvent::with_path(Action::Create, b"/tmp/watched/foo.txt".to_vec());
    let action = session.handle(SessionInput::WatchEvent(event.clone()));
    let expected = frame_payload(&encode_event(&event));
    assert_eq!(action, SessionAction::SendFrame(expected));
    assert_eq!(session.state, SessionState::Streaming);
}

#[test]
fn stop_terminates_and_releases_the_watch() {
    let mut session = streaming_session();
    let action = session.handle(SessionInput::ControlFrame(stop_frame()));
    assert_eq!(action, SessionAction::ReleaseWatch);
    assert_eq!(session.state, SessionState::Draining);
    assert_eq!(session.handle(SessionInput::Drained), SessionAction::Idle);
    assert_eq!(session.state, SessionState::Terminated);
    assert!(session.is_finished());
}

#[test]
fn missing_path_fails_without_a_handshake() {
    let mut session = Session::new();
    let first = session.handle(SessionInput::Connected);
    assert!(!matches!(first, SessionAction::SendFrame(_)));
    let second = session.handle(SessionInput::SubscribeFailedMissing);
    assert!(!matches!(second, SessionAction::SendFrame(_)));
    assert_eq!(session.state, SessionState::Failed(ErrorKind::PathNotFound));
    assert!(session.is_finished());
}

#[test]
fn second_stop_while_draining_is_a_no_op() {
    let mut session = streaming_session();
    assert_eq!(
        session.handle(SessionInput::ControlFrame(stop_frame())),
        SessionAction::ReleaseWatch
    );
    assert_eq!(session.state, SessionState::Draining);
    assert_eq!(session.handle(SessionInput::ControlFrame(stop_frame())), SessionAction::Idle);
    assert_eq!(session.state, SessionState::Draining);
    assert_eq!(session.handle(SessionInput::Drained), SessionAction::Idle);
    assert_eq!(session.state, SessionState::Terminated);
}

#[test]
fn non_stop_and_malformed_control_frames_keep_streaming() {
    let mut session = streaming_session();
    let keep_going = encode_command(&Command { stop: false });
    assert_eq!(session.handle(SessionInput::ControlFrame(keep_going)), SessionAction::Idle);
    assert_eq!(session.state, SessionState::Streaming);
    assert_eq!(session.handle(SessionInput::ControlFrame(vec![9, 9])), SessionAction::Idle);
    assert_eq!(session.state, SessionState::Streaming);
    assert_eq!(session.handle(SessionInput::Tick), SessionAction::Idle);
    assert_eq!(session.state, SessionState::Streaming);
}

#[test]
fn peer_closing_is_an_implicit_stop() {
    let mut session = streaming_session();
    assert_eq!(session.handle(SessionInput::PeerClosed), SessionAction::ReleaseWatch);
    assert_eq!(session.state, SessionState::Draining);
    session.handle(SessionInput::Drained);
    assert_eq!(session.state, SessionState::Terminated);
}

#[test]
fn fatal_faults_fail_the_session() {
    let (state, action) = step(SessionState::Connecting, SessionInput::ConnectFailed);
    assert_eq!((state, action), (SessionState::Failed(ErrorKind::IoError), SessionAction::Idle));
    let (state, _) = step(SessionState::Subscribing, SessionInput::SubscribeFailedOther);
    assert_eq!(state, SessionState::Failed(ErrorKind::WatchSetupError));
    let (state, _) = step(SessionState::Streaming, SessionInput::WatcherFailed);
    assert_eq!(state, SessionState::Failed(ErrorKind::WatcherFatal));
    let (state, _) = step(SessionState::Streaming, SessionInput::TransportFailed);
    assert_eq!(state, SessionState::Failed(ErrorKind::IoError));
}

#[test]
fn final_states_absorb_every_input() {
    for terminal in [SessionState::Terminated, SessionState::Failed(ErrorKind::WatcherFatal)] {
        let (state, action) = step(terminal, SessionInput::ControlFrame(stop_frame()));
        assert_eq!((state, action), (terminal, SessionAction::Idle));
        let (state, action) = step(terminal, SessionInput::Connected);
        assert_eq!((state, action), (terminal, SessionAction::Idle));
    }
}

//! The session lifecycle state machine.
//!
//! A session moves through connecting, subscribing, streaming,
//! draining and the final states while an outside loop owns the
//! connection and the watch subscription. Every decision is made here:
//! the loop reports what it observed as a `SessionInput`, and `step`
//! answers with the next state and the one action to perform. The loop
//! serializes all outbound frames through the actions it is handed, so
//! no write ever interleaves with another mid-frame.

use vstd::prelude::*;
use crate::control::check_for_stop;
use crate::control::spec_decode_command;
use crate::errors::ErrorKind;
use crate::event::ChangeEvent;
use crate::event::encodable;
use crate::event::encode_event;
use crate::event::spec_encode;
use crate::event::wf;
use crate::frame::MAX_PAYLOAD;
use crate::frame::frame_payload;
use crate::frame::spec_frame;
use crate::frame::try_frame_payload;

verus! {

/// Where a session stands in its lifecycle; `Terminated` and `Failed`
/// are final.
#[derive(Clone, Copy, Debug, PartialEq, Eq, Structural)]
pub enum SessionState {
    Connecting,
    Subscribing,
    Streaming,
    Draining,
    Terminated,
    Failed(ErrorKind),
}

/// What the session loop observed and reports to the state machine.
#[derive(Clone, Debug, PartialEq, Eq)]
pub enum SessionInput {
    /// The outbound connection is established.
    Connected,
    /// The outbound connection could not be established.
    ConnectFailed,
    /// The watch subscription is live.
    Subscribed,
    /// The subscription failed because the watched path does not exist.
    SubscribeFailedMissing,
    /// The subscription failed for any other reason.
    SubscribeFailedOther,
    /// The watcher delivered one change event.
    WatchEvent(ChangeEvent),
    /// The watch mechanism broke down unrecoverably.
    WatcherFailed,
    /// One inbound frame arrived with this payload.
    ControlFrame(Vec<u8>),
    /// The peer closed the stream cleanly.
    PeerClosed,
    /// The transport failed hard in either direction.
    TransportFailed,
    /// Every queued outbound frame has been flushed.
    Drained,
    /// A bounded wait elapsed with nothing to observe.
    Tick,
}

/// What the session loop must do next.
#[derive(Clone, Debug, PartialEq, Eq)]
pub enum SessionAction {
    /// Set up the watch subscription.
    Subscribe,
    /// Write these frame bytes to the connection, as one logical write.
    SendFrame(Vec<u8>),
    /// Release the watch subscription and flush queued frames.
    ReleaseWatch,
    /// Nothing to do.
    Idle,
}

/// The UTF-8 bytes of the handshake payload, the word `ready`.
pub open spec fn spec_ready_payload() -> Seq<u8> {
    seq![114u8, 101u8, 97u8, 100u8, 121u8]
}

/// The handshake frame announcing a live subscription.
pub fn ready_frame() -> (r: Vec<u8>)
    ensures
        r@ == spec_frame(spec_ready_payload()),
{
    let mut p: Vec<u8> = Vec::new();
    p.push(114);
    p.push(101);
    p.push(97);
    p.push(100);
    p.push(121);
    proof {
        assert(p@ =~= spec_ready_payload());
    }
    frame_payload(&p)
}

/// Whether this payload is a stop command.
pub open spec fn spec_is_stop(p: Seq<u8>) -> bool {
    spec_decode_command(p) matches Some(c) && c.stop
}

/// The state one input moves the session to.
///
/// A stop command, like the peer closing the stream, drains the
/// session; a malformed control frame is discarded and changes
/// nothing; an input that a state cannot observe leaves it unchanged;
/// the final states absorb everything.
pub open spec fn spec_next_state(s: SessionState, i: SessionInput) -> SessionState {
    match s {
        SessionState::Connecting => match i {
            SessionInput::Connected => SessionState::Subscribing,
            SessionInput::ConnectFailed => SessionState::Failed(ErrorKind::IoError),
            SessionInput::TransportFailed => SessionState::Failed(ErrorKind::IoError),
            _ => s,
        },
        SessionState::Subscribing => match i {
            SessionInput::Subscribed => SessionState::Streaming,
            SessionInput::SubscribeFailedMissing => SessionState::Failed(ErrorKind::PathNotFound),
            SessionInput::SubscribeFailedOther => SessionState::Failed(
                ErrorKind::WatchSetupError,
            ),
            SessionInput::PeerClosed => SessionState::Draining,
            SessionInput::TransportFailed => SessionState::Failed(ErrorKind::IoError),
            _ => s,
        },
        SessionState::Streaming => match i {
            SessionInput::WatchEvent(e) => if spec_encode(e@).len() <= MAX_PAYLOAD {
                s
            } else {
                SessionState::Failed(ErrorKind::MalformedEvent)
            },
            SessionInput::ControlFrame(p) => if spec_is_stop(p@) {
                SessionState::Draining
            } else {
                s
            },
            SessionInput::PeerClosed => SessionState::Draining,
            SessionInput::WatcherFailed => SessionState::Failed(ErrorKind::WatcherFatal),
            SessionInput::TransportFailed => SessionState::Failed(ErrorKind::IoError),
            _ => s,
        },
        SessionState::Draining => match i {
            SessionInput::Drained => SessionState::Terminated,
            SessionInput::TransportFailed => SessionState::Failed(ErrorKind::IoError),
            _ => s,
        },
        SessionState::Terminated => s,
        SessionState::Failed(_) => s,
    }
}

/// Whether this step emits a frame: only the handshake on a live
/// subscription, or an event frame while streaming.
pub open spec fn spec_emits(s: SessionState, i: SessionInput) -> bool {
    ||| (s == SessionState::Subscribing && i == SessionInput::Subscribed)
    ||| ({
        &&& s == SessionState::Streaming
        &&& i matches SessionInput::WatchEvent(e)
        &&& spec_encode(e@).len() <= MAX_PAYLOAD
    })
}

/// The bytes of the frame this step emits, when it emits one.
pub open spec fn spec_emitted_frame(s: SessionState, i: SessionInput) -> Seq<u8>
    recommends
        spec_emits(s, i),
{
    if s == SessionState::Subscribing {
        spec_frame(spec_ready_payload())
    } else {
        match i {
            SessionInput::WatchEvent(e) => spec_frame(spec_encode(e@)),
            _ => Seq::empty(),
        }
    }
}

/// Whether this step sets up the watch subscription.
pub open spec fn spec_subscribes(s: SessionState, i: SessionInput) -> bool {
    s == SessionState::Connecting && i == SessionInput::Connected
}

/// Whether this step releases the subscription: exactly when the
/// session enters the draining state.
pub open spec fn spec_releases(s: SessionState, i: SessionInput) -> bool {
    spec_next_state(s, i) is Draining && !(s is Draining)
}

/// One decision of the session loop.
///
/// The next state is `spec_next_state`; the action is pinned down by
/// the remaining clauses: a frame goes out exactly when this step
/// emits one and carries exactly the emitted bytes, the subscription
/// is set up exactly once on connection, released exactly on entering
/// the draining state, and otherwise the loop stays idle.
pub fn step(s: SessionState, i: SessionInput) -> (r: (SessionState, SessionAction))
    requires
        i matches SessionInput::WatchEvent(e) ==> wf(e@) && encodable(e@),
    ensures
        r.0 == spec_next_state(s, i),
        r.1 matches SessionAction::SendFrame(f) ==> spec_emits(s, i) && f@ == spec_emitted_frame(
            s,
            i,
        ),
        spec_emits(s, i) ==> (r.1 matches SessionAction::SendFrame(f) && f@
            == spec_emitted_frame(s, i)),
        r.1 == SessionAction::Subscribe <==> spec_subscribes(s, i),
        r.1 == SessionAction::ReleaseWatch <==> spec_releases(s, i),
        !spec_emits(s, i) && !spec_subscribes(s, i) && !spec_releases(s, i) ==> r.1
            == SessionAction::Idle,
{
    match s {
        SessionState::Connecting => match i {
            SessionInput::Connected => (SessionState::Subscribing, SessionAction::Subscribe),
            SessionInput::ConnectFailed => (
                SessionState::Failed(ErrorKind::IoError),
                SessionAction::Idle,
            ),
            SessionInput::TransportFailed => (
                SessionState::Failed(ErrorKind::IoError),
                SessionAction::Idle,
            ),
            _ => (s, SessionAction::Idle),
        },
        SessionState::Subscribing => match i {
            SessionInput::Subscribed => (
                SessionState::Streaming,
                SessionAction::SendFrame(ready_frame()),
            ),
            SessionInput::SubscribeFailedMissing => (
                SessionState::Failed(ErrorKind::PathNotFound),
                SessionAction::Idle,
            ),
            SessionInput::SubscribeFailedOther => (
                SessionState::Failed(ErrorKind::WatchSetupError),
                SessionAction::Idle,
            ),
            SessionInput::PeerClosed => (SessionState::Draining, SessionAction::ReleaseWatch),
            SessionInput::TransportFailed => (
                SessionState::Failed(ErrorKind::IoError),
                SessionAction::Idle,
            ),
            _ => (s, SessionAction::Idle),
        },
        SessionState::Streaming => match i {
            SessionInput::WatchEvent(e) => {
                let encoded = encode_event(&e);
                match try_frame_payload(&encoded) {
                    Some(f) => (SessionState::Streaming, SessionAction::SendFrame(f)),
                    None => (
                        SessionState::Failed(ErrorKind::MalformedEvent),
                        SessionAction::Idle,
                    ),
                }
            },
            SessionInput::ControlFrame(p) => {
                if check_for_stop(&p) {
                    (SessionState::Draining, SessionAction::ReleaseWatch)
                } else {
                    (SessionState::Streaming, SessionAction::Idle)
                }
            },
            SessionInput::PeerClosed => (SessionState::Draining, SessionAction::ReleaseWatch),
            SessionInput::WatcherFailed => (
                SessionState::Failed(ErrorKind::WatcherFatal),
                SessionAction::Idle,
            ),
            SessionInput::TransportFailed => (
                SessionState::Failed(ErrorKind::IoError),
                SessionAction::Idle,
            ),
            _ => (s, SessionAction::Idle),
        },
        SessionState::Draining => match i {
            SessionInput::Drained => (SessionState::Terminated, SessionAction::Idle),
            SessionInput::TransportFailed => (
                SessionState::Failed(ErrorKind::IoError),
                SessionAction::Idle,
            ),
            _ => (s, SessionAction::Idle),
        },
        SessionState::Terminated => (s, SessionAction::Idle),
        SessionState::Failed(_) => (s, SessionAction::Idle),
    }
}

/// The state one session loop owns, from creation until the loop
/// returns.
#[derive(Clone, Debug, PartialEq, Eq)]
pub struct Session {
    pub state: SessionState,
}

impl Session {
    /// A fresh session, about to establish its connection.
    pub fn new() -> (r: Session)
        ensures
            r.state == SessionState::Connecting,
    {
        Session { state: SessionState::Connecting }
    }

    /// Whether the session has reached a final state.
    pub fn is_finished(&self) -> (r: bool)
        ensures
            r == (self.state is Terminated || self.state is Failed),
    {
        match self.state {
            SessionState::Terminated => true,
            SessionState::Failed(_) => true,
            _ => false,
        }
    }

    /// Feeds one observed input through `step` and keeps the new
    /// state; returns the action the loop must perform.
    pub fn handle(&mut self, i: SessionInput) -> (a: SessionAction)
        requires
            i matches SessionInput::WatchEvent(e) ==> wf(e@) && encodable(e@),
        ensures
            final(self).state == spec_next_state(old(self).state, i),
            a matches SessionAction::SendFrame(f) ==> spec_emits(old(self).state, i) && f@
                == spec_emitted_frame(old(self).state, i),
            spec_emits(old(self).state, i) ==> (a matches SessionAction::SendFrame(f) && f@
                == spec_emitted_frame(old(self).state, i)),
            a == SessionAction::Subscribe <==> spec_subscribes(old(self).state, i),
            a == SessionAction::ReleaseWatch <==> spec_releases(old(self).state, i),
    {
        let (next, action) = step(self.state, i);
        self.state = next;
        action
    }
}

/// Stop is idempotent: a further stop command, or any other control
/// frame, observed while the session is already draining changes
/// nothing — the state stays draining, nothing is sent, nothing is
/// released again.
pub proof fn lemma_second_stop_is_noop(p: Vec<u8>)
    ensures
        spec_next_state(SessionState::Draining, SessionInput::ControlFrame(p))
            == SessionState::Draining,
        !spec_emits(SessionState::Draining, SessionInput::ControlFrame(p)),
        !spec_releases(SessionState::Draining, SessionInput::ControlFrame(p)),
        !spec_subscribes(SessionState::Draining, SessionInput::ControlFrame(p)),
{
}

/// The final states absorb every input without any further action.
pub proof fn lemma_final_states_absorb(s: SessionState, i: SessionInput)
    requires
        s is Terminated || s is Failed,
    ensures
        spec_next_state(s, i) == s,
        !spec_emits(s, i),
        !spec_releases(s, i),
        !spec_subscribes(s, i),
{
}

/// The state a session reaches after a whole sequence of observed
/// inputs.
pub open spec fn spec_run(s: SessionState, inputs: Seq<SessionInput>) -> SessionState
    decreases inputs.len(),
{
    if inputs.len() == 0 {
        s
    } else {
        spec_run(spec_next_state(s, inputs[0]), inputs.subrange(1, inputs.len() as int))
    }
}

/// A session that has reached a final state stays there for good:
/// whatever else is observed, no run of further inputs moves it — so
/// after a failure nothing is ever subscribed, released or sent again.
pub proof fn lemma_runs_end_at_final_states(s: SessionState, inputs: Seq<SessionInput>)
    requires
        s is Terminated || s is Failed,
    ensures
        spec_run(s, inputs) == s,
    decreases inputs.len(),
{
    if inputs.len() > 0 {
        lemma_final_states_absorb(s, inputs[0]);
        lemma_runs_end_at_final_states(s, inputs.subrange(1, inputs.len() as int));
    }
}

/// A frame leaves the session only as the handshake on a live
/// subscription or as an event frame while streaming; in particular a
/// session that failed to subscribe never sends the handshake.
pub proof fn lemma_emission_states(s: SessionState, i: SessionInput)
    ensures
        spec_emits(s, i) ==> (s == SessionState::Subscribing && i == SessionInput::Subscribed) || (
        s == SessionState::Streaming && i matches SessionInput::WatchEvent(_)),
{
}

/// A stop command observed while streaming drains the session in that
/// very step, releasing the subscription at once.
pub proof fn lemma_stop_received_drains(p: Vec<u8>)
    requires
        spec_is_stop(p@),
    ensures
        spec_next_state(SessionState::Streaming, SessionInput::ControlFrame(p))
            == SessionState::Draining,
        spec_releases(SessionState::Streaming, SessionInput::ControlFrame(p)),
{
}

} // verus!

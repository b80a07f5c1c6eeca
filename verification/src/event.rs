//! The event model: an in-memory filesystem change and its wire form.
//!
//! An event is one action tag plus the fields meaningful for that tag;
//! paths and error text travel as UTF-8 bytes. The wire form is a
//! single compact binary schema: the action tag byte, then each
//! optional field as a presence byte followed, when present, by a
//! 16-bit big-endian length and the field's bytes.

use vstd::prelude::*;
use crate::errors::ErrorKind;
use crate::wire::lemma_u16_value_round_trip;
use crate::wire::spec_u16_from_bytes;
use crate::wire::spec_u16_to_bytes;
use crate::wire::u16_to_array_of_u8;
use crate::wire::u8_array_to_u16;

verus! {

/// Longest field the wire form can carry: its length must fit 16 bits.
pub const MAX_FIELD_LEN: usize = 65535;

/// What one filesystem notification reports: a closed tag set.
#[derive(Clone, Copy, Debug, PartialEq, Eq, Structural)]
pub enum Action {
    NoticeWrite,
    NoticeRemove,
    Create,
    Write,
    Chmod,
    Remove,
    Rename,
    Rescan,
    Error,
}

/// One filesystem change.
///
/// `path` is absent only for `Rescan`, and for `Error` when the
/// underlying cause carries no path; `secondary_path` is the rename
/// destination and present only for `Rename`; `error_message` is
/// present only for `Error`.
#[derive(Clone, Debug, PartialEq, Eq)]
pub struct ChangeEvent {
    pub action: Action,
    pub path: Option<Vec<u8>>,
    pub secondary_path: Option<Vec<u8>>,
    pub error_message: Option<Vec<u8>>,
}

/// The mathematical model of a change event.
pub struct ChangeEventView {
    pub action: Action,
    pub path: Option<Seq<u8>>,
    pub secondary_path: Option<Seq<u8>>,
    pub error_message: Option<Seq<u8>>,
}

/// The model of an optional byte field.
pub open spec fn opt_bytes_view(o: Option<Vec<u8>>) -> Option<Seq<u8>> {
    match o {
        Some(b) => Some(b@),
        None => None,
    }
}

impl View for ChangeEvent {
    type V = ChangeEventView;

    open spec fn view(&self) -> ChangeEventView {
        ChangeEventView {
            action: self.action,
            path: opt_bytes_view(self.path),
            secondary_path: opt_bytes_view(self.secondary_path),
            error_message: opt_bytes_view(self.error_message),
        }
    }
}

/// The event invariant: exactly the fields meaningful for the action
/// tag are present, never placeholders for the others.
pub open spec fn wf(e: ChangeEventView) -> bool {
    &&& e.action == Action::Rescan ==> e.path is None
    &&& e.action != Action::Rescan && e.action != Action::Error ==> e.path is Some
    &&& (e.secondary_path is Some <==> e.action == Action::Rename)
    &&& (e.error_message is Some <==> e.action == Action::Error)
}

/// Every present field fits the 16-bit length its encoding carries.
pub open spec fn encodable(e: ChangeEventView) -> bool {
    &&& (e.path matches Some(b) ==> b.len() <= MAX_FIELD_LEN)
    &&& (e.secondary_path matches Some(b) ==> b.len() <= MAX_FIELD_LEN)
    &&& (e.error_message matches Some(b) ==> b.len() <= MAX_FIELD_LEN)
}

/// The tag byte of each action.
pub open spec fn spec_tag(a: Action) -> u8 {
    match a {
        Action::NoticeWrite => 0,
        Action::NoticeRemove => 1,
        Action::Create => 2,
        Action::Write => 3,
        Action::Chmod => 4,
        Action::Remove => 5,
        Action::Rename => 6,
        Action::Rescan => 7,
        Action::Error => 8,
    }
}

/// The action a tag byte names, if it names one.
pub open spec fn spec_action_of_tag(t: u8) -> Option<Action> {
    if t == 0 {
        Some(Action::NoticeWrite)
    } else if t == 1 {
        Some(Action::NoticeRemove)
    } else if t == 2 {
        Some(Action::Create)
    } else if t == 3 {
        Some(Action::Write)
    } else if t == 4 {
        Some(Action::Chmod)
    } else if t == 5 {
        Some(Action::Remove)
    } else if t == 6 {
        Some(Action::Rename)
    } else if t == 7 {
        Some(Action::Rescan)
    } else if t == 8 {
        Some(Action::Error)
    } else {
        None
    }
}

/// Each action is named by its own tag.
pub proof fn lemma_tag_round_trip(a: Action)
    ensures
        spec_action_of_tag(spec_tag(a)) == Some(a),
{
}

/// The wire form of one optional field: a presence byte, then for a
/// present field its big-endian 16-bit length and its bytes.
pub open spec fn spec_field(f: Option<Seq<u8>>) -> Seq<u8>
    recommends
        f matches Some(b) ==> b.len() <= MAX_FIELD_LEN,
{
    match f {
        None => seq![0u8],
        Some(b) => seq![1u8] + spec_u16_to_bytes(b.len() as u16) + b,
    }
}

/// The wire form of a whole event: tag byte, then the three fields in
/// fixed order.
pub open spec fn spec_encode(e: ChangeEventView) -> Seq<u8>
    recommends
        encodable(e),
{
    seq![spec_tag(e.action)] + spec_field(e.path) + spec_field(e.secondary_path) + spec_field(
        e.error_message,
    )
}

/// The exec tag byte of an action.
fn tag_of_action(a: Action) -> (t: u8)
    ensures
        t == spec_tag(a),
{
    match a {
        Action::NoticeWrite => 0,
        Action::NoticeRemove => 1,
        Action::Create => 2,
        Action::Write => 3,
        Action::Chmod => 4,
        Action::Remove => 5,
        Action::Rename => 6,
        Action::Rescan => 7,
        Action::Error => 8,
    }
}

/// The exec action named by a tag byte.
fn action_of_tag(t: u8) -> (r: Option<Action>)
    ensures
        r == spec_action_of_tag(t),
{
    match t {
        0 => Some(Action::NoticeWrite),
        1 => Some(Action::NoticeRemove),
        2 => Some(Action::Create),
        3 => Some(Action::Write),
        4 => Some(Action::Chmod),
        5 => Some(Action::Remove),
        6 => Some(Action::Rename),
        7 => Some(Action::Rescan),
        8 => Some(Action::Error),
        _ => None,
    }
}

/// Appends the wire form of one optional field.
fn push_field(out: &mut Vec<u8>, f: &Option<Vec<u8>>)
    requires
        f matches Some(b) ==> b@.len() <= MAX_FIELD_LEN,
    ensures
        final(out)@ == old(out)@ + spec_field(opt_bytes_view(*f)),
{
    match f {
        None => {
            out.push(0);
            proof {
                assert(out@ =~= old(out)@ + spec_field(opt_bytes_view(*f)));
            }
        },
        Some(b) => {
            out.push(1);
            let len_bytes = u16_to_array_of_u8(b.len() as u16);
            out.push(len_bytes[0]);
            out.push(len_bytes[1]);
            let ghost before = out@;
            let mut i: usize = 0;
            while i < b.len()
                invariant
                    i <= b@.len(),
                    out@ == before + b@.subrange(0, i as int),
                decreases b@.len() - i,
            {
                out.push(b[i]);
                i = i + 1;
                proof {
                    assert(out@ =~= before + b@.subrange(0, i as int));
                }
            }
            proof {
                assert(b@.subrange(0, b@.len() as int) =~= b@);
                assert(out@ =~= old(out)@ + spec_field(opt_bytes_view(*f)));
            }
        },
    }
}

/// Produces the wire form of `e`.
pub fn encode_event(e: &ChangeEvent) -> (r: Vec<u8>)
    requires
        encodable(e@),
    ensures
        r@ == spec_encode(e@),
{
    let mut r: Vec<u8> = Vec::new();
    r.push(tag_of_action(e.action));
    push_field(&mut r, &e.path);
    push_field(&mut r, &e.secondary_path);
    push_field(&mut r, &e.error_message);
    proof {
        assert(r@ =~= spec_encode(e@));
    }
    r
}

impl ChangeEvent {
    /// An event that carries only its path: any action but rename,
    /// rescan and error.
    pub fn with_path(action: Action, path: Vec<u8>) -> (r: ChangeEvent)
        requires
            action != Action::Rename && action != Action::Rescan && action != Action::Error,
            path@.len() <= MAX_FIELD_LEN,
        ensures
            r@.action == action,
            r@.path == Some(path@),
            r@.secondary_path is None,
            r@.error_message is None,
            wf(r@) && encodable(r@),
    {
        ChangeEvent { action, path: Some(path), secondary_path: None, error_message: None }
    }

    /// A rename, from its source path to its destination.
    pub fn rename(source: Vec<u8>, destination: Vec<u8>) -> (r: ChangeEvent)
        requires
            source@.len() <= MAX_FIELD_LEN,
            destination@.len() <= MAX_FIELD_LEN,
        ensures
            r@.action == Action::Rename,
            r@.path == Some(source@),
            r@.secondary_path == Some(destination@),
            r@.error_message is None,
            wf(r@) && encodable(r@),
    {
        ChangeEvent {
            action: Action::Rename,
            path: Some(source),
            secondary_path: Some(destination),
            error_message: None,
        }
    }

    /// A rescan notice, which names no path.
    pub fn rescan() -> (r: ChangeEvent)
        ensures
            r@.action == Action::Rescan,
            r@.path is None,
            r@.secondary_path is None,
            r@.error_message is None,
            wf(r@) && encodable(r@),
    {
        ChangeEvent {
            action: Action::Rescan,
            path: None,
            secondary_path: None,
            error_message: None,
        }
    }

    /// A watcher failure degraded to an event, with the path the
    /// underlying cause names, if it names one.
    pub fn error(message: Vec<u8>, path: Option<Vec<u8>>) -> (r: ChangeEvent)
        requires
            message@.len() <= MAX_FIELD_LEN,
            path matches Some(b) ==> b@.len() <= MAX_FIELD_LEN,
        ensures
            r@.action == Action::Error,
            r@.path == opt_bytes_view(path),
            r@.secondary_path is None,
            r@.error_message == Some(message@),
            wf(r@) && encodable(r@),
    {
        ChangeEvent {
            action: Action::Error,
            path,
            secondary_path: None,
            error_message: Some(message),
        }
    }
}

/// Reads one optional field off the wire at `pos`: the field and the
/// position just past it, or nothing on a bad presence byte or a
/// truncated field.
pub open spec fn spec_parse_field(b: Seq<u8>, pos: int) -> Option<(Option<Seq<u8>>, int)> {
    if 0 <= pos < b.len() {
        if b[pos] == 0 {
            Some((None, pos + 1))
        } else if b[pos] == 1 {
            if pos + 3 <= b.len() {
                let n = spec_u16_from_bytes(b[pos + 1], b[pos + 2]) as int;
                if pos + 3 + n <= b.len() {
                    Some((Some(b.subrange(pos + 3, pos + 3 + n)), pos + 3 + n))
                } else {
                    None
                }
            } else {
                None
            }
        } else {
            None
        }
    } else {
        None
    }
}

/// The event a payload holds, if it holds one: a known tag byte, the
/// three fields in order, nothing left over, and the event invariant
/// satisfied.
pub open spec fn spec_decode(b: Seq<u8>) -> Option<ChangeEventView> {
    if b.len() < 1 {
        None
    } else {
        match spec_action_of_tag(b[0]) {
            None => None,
            Some(a) => match spec_parse_field(b, 1) {
                None => None,
                Some((p, i)) => match spec_parse_field(b, i) {
                    None => None,
                    Some((s, j)) => match spec_parse_field(b, j) {
                        None => None,
                        Some((m, k)) => if k == b.len() {
                            let e = ChangeEventView {
                                action: a,
                                path: p,
                                secondary_path: s,
                                error_message: m,
                            };
                            if wf(e) {
                                Some(e)
                            } else {
                                None
                            }
                        } else {
                            None
                        },
                    },
                },
            },
        }
    }
}

/// A field read off the wire fits the 16-bit length that announced it,
/// and parsing always moves forward within the payload.
pub proof fn lemma_parse_field_bounds(b: Seq<u8>, pos: int)
    ensures
        spec_parse_field(b, pos) matches Some(r) ==> ({
            &&& pos < r.1 <= b.len()
            &&& (r.0 matches Some(x) ==> x.len() <= MAX_FIELD_LEN)
        }),
{
}

/// A decoded event is well formed and can be encoded again.
pub proof fn lemma_decode_well_formed(b: Seq<u8>)
    ensures
        spec_decode(b) matches Some(e) ==> wf(e) && encodable(e),
{
    if spec_decode(b) is Some {
        lemma_parse_field_bounds(b, 1);
        let i = spec_parse_field(b, 1)->Some_0.1;
        lemma_parse_field_bounds(b, i);
        let j = spec_parse_field(b, i)->Some_0.1;
        lemma_parse_field_bounds(b, j);
    }
}

/// Exec check of the event invariant.
pub fn event_well_formed(e: &ChangeEvent) -> (r: bool)
    ensures
        r == wf(e@),
{
    let path_ok = match e.action {
        Action::Rescan => e.path.is_none(),
        Action::Error => true,
        _ => e.path.is_some(),
    };
    let secondary_ok = if e.action == Action::Rename {
        e.secondary_path.is_some()
    } else {
        e.secondary_path.is_none()
    };
    let message_ok = if e.action == Action::Error {
        e.error_message.is_some()
    } else {
        e.error_message.is_none()
    };
    path_ok && secondary_ok && message_ok
}

/// Exec read of one optional field at `pos`.
fn parse_field(b: &Vec<u8>, pos: usize) -> (r: Option<(Option<Vec<u8>>, usize)>)
    ensures
        match r {
            Some(t) => ({
                &&& spec_parse_field(b@, pos as int) matches Some(s) && opt_bytes_view(t.0)
                    == s.0 && t.1 == s.1
            }),
            None => spec_parse_field(b@, pos as int) is None,
        },
{
    if pos >= b.len() {
        return None;
    }
    let marker = b[pos];
    if marker == 0 {
        return Some((None, pos + 1));
    }
    if marker != 1 {
        return None;
    }
    if b.len() - pos < 3 {
        return None;
    }
    let prefix: [u8; 2] = [b[pos + 1], b[pos + 2]];
    let n = u8_array_to_u16(&prefix) as usize;
    if b.len() - (pos + 3) < n {
        return None;
    }
    let end: usize = pos + 3 + n;
    let mut field: Vec<u8> = Vec::new();
    let mut idx: usize = pos + 3;
    while idx < end
        invariant
            pos + 3 <= idx <= end,
            end <= b@.len(),
            field@ == b@.subrange(pos + 3, idx as int),
        decreases end - idx,
    {
        field.push(b[idx]);
        idx = idx + 1;
        proof {
            assert(field@ =~= b@.subrange(pos + 3, idx as int));
        }
    }
    Some((Some(field), end))
}

/// Reads an event back from its wire form; any payload that is not the
/// exact wire form of a well-formed event is malformed.
pub fn decode_event(b: &Vec<u8>) -> (r: Result<ChangeEvent, ErrorKind>)
    ensures
        match r {
            Ok(ev) => spec_decode(b@) == Some(ev@) && wf(ev@) && encodable(ev@),
            Err(k) => spec_decode(b@) is None && k == ErrorKind::MalformedEvent,
        },
{
    proof {
        lemma_decode_well_formed(b@);
    }
    if b.len() < 1 {
        return Err(ErrorKind::MalformedEvent);
    }
    let action = match action_of_tag(b[0]) {
        Some(a) => a,
        None => {
            return Err(ErrorKind::MalformedEvent);
        },
    };
    let (path, i) = match parse_field(b, 1) {
        Some(t) => t,
        None => {
            return Err(ErrorKind::MalformedEvent);
        },
    };
    let (secondary_path, j) = match parse_field(b, i) {
        Some(t) => t,
        None => {
            return Err(ErrorKind::MalformedEvent);
        },
    };
    let (error_message, k) = match parse_field(b, j) {
        Some(t) => t,
        None => {
            return Err(ErrorKind::MalformedEvent);
        },
    };
    if k != b.len() {
        return Err(ErrorKind::MalformedEvent);
    }
    let ev = ChangeEvent { action, path, secondary_path, error_message };
    if event_well_formed(&ev) {
        Ok(ev)
    } else {
        Err(ErrorKind::MalformedEvent)
    }
}

/// The wire form of a field parses back to that field, wherever it
/// stands in the payload and whatever follows it.
proof fn lemma_parse_field_of_encoding(b: Seq<u8>, pos: int, f: Option<Seq<u8>>)
    requires
        0 <= pos,
        pos + spec_field(f).len() <= b.len(),
        b.subrange(pos, pos + spec_field(f).len() as int) == spec_field(f),
        f matches Some(x) ==> x.len() <= MAX_FIELD_LEN,
    ensures
        spec_parse_field(b, pos) == Some((f, pos + spec_field(f).len() as int)),
{
    let fl = spec_field(f);
    assert(b[pos] == b.subrange(pos, pos + fl.len() as int)[0]);
    match f {
        None => {
            assert(b[pos] == 0);
        },
        Some(x) => {
            assert(fl.len() == 3 + x.len());
            assert(b[pos] == 1);
            assert(b[pos + 1] == b.subrange(pos, pos + fl.len() as int)[1]);
            assert(b[pos + 2] == b.subrange(pos, pos + fl.len() as int)[2]);
            assert(fl[1] == spec_u16_to_bytes(x.len() as u16)[0]);
            assert(fl[2] == spec_u16_to_bytes(x.len() as u16)[1]);
            lemma_u16_value_round_trip(x.len() as u16);
            assert(spec_u16_from_bytes(b[pos + 1], b[pos + 2]) == x.len() as u16);
            assert forall|q: int| 0 <= q < x.len() implies b.subrange(
                pos + 3,
                pos + 3 + x.len() as int,
            )[q] == x[q] by {
                assert(b[pos + 3 + q] == b.subrange(pos, pos + fl.len() as int)[3 + q]);
                assert(fl[3 + q] == x[q]);
            }
            assert(b.subrange(pos + 3, pos + 3 + x.len() as int) =~= x);
        },
    }
}

/// Event round trip: every well-formed, encodable event is read back
/// from its own wire form unchanged.
pub proof fn lemma_event_round_trip(e: ChangeEventView)
    requires
        wf(e),
        encodable(e),
    ensures
        spec_decode(spec_encode(e)) == Some(e),
{
    let b = spec_encode(e);
    let t = seq![spec_tag(e.action)];
    let f1 = spec_field(e.path);
    let f2 = spec_field(e.secondary_path);
    let f3 = spec_field(e.error_message);
    let p1 = 1int;
    let p2 = p1 + f1.len() as int;
    let p3 = p2 + f2.len() as int;
    let p4 = p3 + f3.len() as int;
    assert(b.len() == p4);
    assert(b[0] == spec_tag(e.action));
    lemma_tag_round_trip(e.action);
    assert(b.subrange(p1, p2) =~= f1);
    lemma_parse_field_of_encoding(b, p1, e.path);
    assert(b.subrange(p2, p3) =~= f2);
    lemma_parse_field_of_encoding(b, p2, e.secondary_path);
    assert(b.subrange(p3, p4) =~= f3);
    lemma_parse_field_of_encoding(b, p3, e.error_message);
}

} // verus!

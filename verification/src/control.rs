//! The control channel: inbound frames decoded as commands.
//!
//! A command is a tagged record of one byte; today it carries only the
//! stop flag, and the framing leaves room for further signals. A frame
//! that does not decode as a command is discarded as a no-op, so one
//! corrupt control message cannot abort a healthy session.

use vstd::prelude::*;
use crate::errors::ErrorKind;

verus! {

/// An in-band control command.
#[derive(Clone, Copy, Debug, PartialEq, Eq, Structural)]
pub struct Command {
    pub stop: bool,
}

/// The one-byte wire form of a command.
pub open spec fn spec_encode_command(c: Command) -> Seq<u8> {
    seq![if c.stop { 1u8 } else { 0u8 }]
}

/// The command a payload holds, if it holds one: exactly one byte, and
/// that byte a known tag.
pub open spec fn spec_decode_command(b: Seq<u8>) -> Option<Command> {
    if b.len() == 1 && b[0] <= 1 {
        Some(Command { stop: b[0] == 1 })
    } else {
        None
    }
}

/// Produces the payload bytes that carry `c`.
pub fn encode_command(c: &Command) -> (r: Vec<u8>)
    ensures
        r@ == spec_encode_command(*c),
{
    let mut r: Vec<u8> = Vec::new();
    if c.stop {
        r.push(1);
    } else {
        r.push(0);
    }
    proof {
        assert(r@ =~= spec_encode_command(*c));
    }
    r
}

/// Reads a command out of a frame payload; any payload that is not the
/// wire form of a command is malformed.
pub fn decode_command(payload: &Vec<u8>) -> (r: Result<Command, ErrorKind>)
    ensures
        match r {
            Ok(c) => spec_decode_command(payload@) == Some(c),
            Err(k) => spec_decode_command(payload@) is None && k == ErrorKind::MalformedCommand,
        },
{
    if payload.len() == 1 && payload[0] <= 1 {
        Ok(Command { stop: payload[0] == 1 })
    } else {
        Err(ErrorKind::MalformedCommand)
    }
}

/// True exactly when the payload decodes to a command whose stop flag
/// is set; a well-formed non-stop command and a malformed payload both
/// leave the session running.
pub fn check_for_stop(payload: &Vec<u8>) -> (r: bool)
    ensures
        r == (spec_decode_command(payload@) matches Some(c) && c.stop),
{
    match decode_command(payload) {
        Ok(c) => c.stop,
        Err(_) => false,
    }
}

/// Command round trip: every command is read back from its own wire
/// form unchanged.
pub proof fn lemma_command_round_trip(c: Command)
    ensures
        spec_decode_command(spec_encode_command(c)) == Some(c),
{
}

} // verus!

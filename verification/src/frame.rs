//! Length-prefixed framing: a frame is a 2-byte big-endian length
//! followed by exactly that many payload bytes.
//!
//! Writing a frame means producing its bytes; reading one means taking
//! the earliest complete frame off the bytes received so far. The
//! transport that moves the bytes lives outside this crate.

use vstd::prelude::*;
use crate::wire::lemma_u16_value_round_trip;
use crate::wire::spec_u16_from_bytes;
use crate::wire::spec_u16_to_bytes;
use crate::wire::u16_to_array_of_u8;
use crate::wire::u8_array_to_u16;

verus! {

/// Largest payload a frame can carry: its length must fit in 16 bits.
pub const MAX_PAYLOAD: usize = 65535;

/// The bytes of a frame carrying `p`: big-endian length, then `p`.
pub open spec fn spec_frame(p: Seq<u8>) -> Seq<u8>
    recommends
        p.len() <= MAX_PAYLOAD,
{
    spec_u16_to_bytes(p.len() as u16) + p
}

/// What a frame read yields from the bytes received so far: the payload
/// and the number of bytes consumed, or nothing while the length prefix
/// or the payload is still incomplete.
pub open spec fn spec_extract_frame(buf: Seq<u8>) -> Option<(Seq<u8>, int)> {
    if buf.len() < 2 {
        None
    } else {
        let n = spec_u16_from_bytes(buf[0], buf[1]) as int;
        if buf.len() < 2 + n {
            None
        } else {
            Some((buf.subrange(2, 2 + n), 2 + n))
        }
    }
}

/// Builds the frame that carries `payload`.
pub fn frame_payload(payload: &Vec<u8>) -> (r: Vec<u8>)
    requires
        payload@.len() <= MAX_PAYLOAD,
    ensures
        r@ == spec_frame(payload@),
{
    let len_bytes = u16_to_array_of_u8(payload.len() as u16);
    let mut r: Vec<u8> = Vec::new();
    r.push(len_bytes[0]);
    r.push(len_bytes[1]);
    proof {
        assert(r@ =~= spec_u16_to_bytes(payload@.len() as u16) + payload@.subrange(0, 0));
    }
    let mut i: usize = 0;
    while i < payload.len()
        invariant
            i <= payload@.len(),
            payload@.len() <= MAX_PAYLOAD,
            r@ == spec_u16_to_bytes(payload@.len() as u16) + payload@.subrange(0, i as int),
        decreases payload@.len() - i,
    {
        r.push(payload[i]);
        i = i + 1;
        proof {
            assert(r@ =~= spec_u16_to_bytes(payload@.len() as u16)
                + payload@.subrange(0, i as int));
        }
    }
    proof {
        assert(payload@.subrange(0, payload@.len() as int) =~= payload@);
    }
    r
}

/// Builds the frame that carries `payload`, unless the payload is too
/// long for a 16-bit length prefix; an oversized payload is rejected
/// here, before any byte of it reaches the transport.
pub fn try_frame_payload(payload: &Vec<u8>) -> (r: Option<Vec<u8>>)
    ensures
        payload@.len() <= MAX_PAYLOAD ==> (r matches Some(f) && f@ == spec_frame(payload@)),
        payload@.len() > MAX_PAYLOAD ==> r is None,
{
    if payload.len() <= MAX_PAYLOAD {
        Some(frame_payload(payload))
    } else {
        None
    }
}

/// Takes the earliest complete frame off the received bytes, returning
/// its payload and how many bytes the frame occupied; returns nothing
/// while the frame is still incomplete, so a truncated payload can
/// never be handed out.
pub fn extract_frame(buf: &Vec<u8>) -> (r: Option<(Vec<u8>, usize)>)
    ensures
        match r {
            Some(f) => ({
                &&& spec_extract_frame(buf@) matches Some(s) && f.0@ == s.0 && f.1 == s.1
            }),
            None => spec_extract_frame(buf@) is None,
        },
{
    if buf.len() < 2 {
        return None;
    }
    let prefix: [u8; 2] = [buf[0], buf[1]];
    let n = u8_array_to_u16(&prefix) as usize;
    if buf.len() < 2 + n {
        return None;
    }
    let mut payload: Vec<u8> = Vec::new();
    let mut i: usize = 0;
    while i < n
        invariant
            i <= n,
            n <= MAX_PAYLOAD,
            2 + n <= buf@.len(),
            payload@ == buf@.subrange(2, 2 + i as int),
        decreases n - i,
    {
        payload.push(buf[2 + i]);
        i = i + 1;
        proof {
            assert(payload@ =~= buf@.subrange(2, 2 + i as int));
        }
    }
    Some((payload, 2 + n))
}

/// Framing round trip: a frame built from any payload of admissible
/// length, however many bytes follow it on the stream, is read back as
/// exactly that payload, consuming exactly the frame's own bytes.
pub proof fn lemma_frame_round_trip(p: Seq<u8>, rest: Seq<u8>)
    requires
        p.len() <= MAX_PAYLOAD,
    ensures
        spec_extract_frame(spec_frame(p) + rest) matches Some(f) && f.0 == p && f.1 == 2
            + p.len(),
{
    let buf = spec_frame(p) + rest;
    lemma_u16_value_round_trip(p.len() as u16);
    assert(buf[0] == spec_u16_to_bytes(p.len() as u16)[0]);
    assert(buf[1] == spec_u16_to_bytes(p.len() as u16)[1]);
    assert(spec_u16_from_bytes(buf[0], buf[1]) == p.len() as u16);
    assert(buf.subrange(2, 2 + p.len() as int) =~= p);
}

} // verus!

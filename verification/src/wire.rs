//! Big-endian conversion between a 16-bit length and its two wire bytes.

use vstd::prelude::*;

verus! {

/// The two bytes of a 16-bit value on the wire, most significant first.
pub open spec fn spec_u16_to_bytes(n: u16) -> Seq<u8> {
    seq![((n >> 8) & 0xff) as u8, (n & 0xff) as u8]
}

/// The 16-bit value held by two wire bytes, most significant first.
pub open spec fn spec_u16_from_bytes(b0: u8, b1: u8) -> u16 {
    (((b0 as u16) << 8) + (b1 as u16)) as u16
}

pub fn u16_to_array_of_u8(n: u16) -> (r: [u8; 2])
    ensures
        r@ == spec_u16_to_bytes(n),
{
    let b1 = ((n >> 8) & 0xff) as u8;
    let b2 = (n & 0xff) as u8;
    let r = [b1, b2];
    proof {
        assert(r@ =~= spec_u16_to_bytes(n));
    }
    r
}

pub fn u8_array_to_u16(array: &[u8; 2]) -> (r: u16)
    ensures
        r == spec_u16_from_bytes(array[0], array[1]),
{
    let b0 = array[0];
    let b1 = array[1];
    proof {
        assert(((b0 as u16) << 8) + (b1 as u16) <= 0xffff) by (bit_vector);
    }
    ((b0 as u16) << 8) + (b1 as u16)
}

/// A value split into its wire bytes is read back unchanged.
pub proof fn lemma_u16_value_round_trip(n: u16)
    ensures
        spec_u16_from_bytes(spec_u16_to_bytes(n)[0], spec_u16_to_bytes(n)[1]) == n,
{
    assert((((((n >> 8) & 0xff) as u8) as u16) << 8) + (((n & 0xff) as u8) as u16) == n)
        by (bit_vector);
}

} // verus!

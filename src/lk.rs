//! Helpers for kernel exploits: freelist pointer arithmetic and qword
//! packing.
use vstd::prelude::*;
use crate::util::{pack_u64_spec, unpack_u64_spec};

pub mod freelist;
pub mod uarch;
pub mod spray;

verus! {

/// The low bytes of `b` folded into a `u64`, first `i` of them.
pub open spec fn folded(b: Seq<u8>, i: nat) -> u64
    decreases i,
{
    if i == 0 {
        0
    } else {
        folded(b, (i - 1) as nat) | ((b[i - 1] as u64) << (8 * (i - 1)) as u64)
    }
}

/// Reads a `u64` from exactly eight little-endian bytes.
pub fn un64(bytevec: &[u8]) -> (r: u64)
    requires
        bytevec@.len() == 8,
    ensures
        r == unpack_u64_spec(bytevec@),
{
    let mut val: u64 = 0;
    let mut i: usize = 0;
    while i < 8
        invariant
            0 <= i <= 8,
            bytevec@.len() == 8,
            val == folded(bytevec@, i as nat),
        decreases 8 - i,
    {
        val = val | ((bytevec[i] as u64) << (i * 8) as u64);
        i = i + 1;
    }
    let ghost b = bytevec@;
    assert(folded(b, 8) == unpack_u64_spec(b)) by {
        reveal_with_fuel(folded, 9);
        let (b0, b1, b2, b3) = (b[0] as u64, b[1] as u64, b[2] as u64, b[3] as u64);
        let (b4, b5, b6, b7) = (b[4] as u64, b[5] as u64, b[6] as u64, b[7] as u64);
        assert(0u64 | b0 == b0) by (bit_vector);
        assert(b0 << 0u64 == b0) by (bit_vector);
    }
    val
}

/// The eight little-endian bytes of `val`.
pub fn p64(val: u64) -> (r: Vec<u8>)
    ensures
        r@ == pack_u64_spec(val),
{
    let mut bytevec: Vec<u8> = vec![0u8; 8];
    let mut i: usize = 0;
    while i < 8
        invariant
            0 <= i <= 8,
            bytevec@.len() == 8,
            forall|j: int| 0 <= j < i ==> bytevec@[j] == (val >> (8 * j) as u64) as u8,
        decreases 8 - i,
    {
        bytevec.set(i, (val >> (i * 8) as u64) as u8);
        i = i + 1;
    }
    assert(bytevec@ =~= pack_u64_spec(val)) by {
        assert(bytevec@[0] == (val >> 0u64) as u8);
        assert(val >> 0u64 == val) by (bit_vector);
        assert(bytevec@[1] == (val >> 8u64) as u8);
        assert(bytevec@[2] == (val >> 16u64) as u8);
        assert(bytevec@[3] == (val >> 24u64) as u8);
        assert(bytevec@[4] == (val >> 32u64) as u8);
        assert(bytevec@[5] == (val >> 40u64) as u8);
        assert(bytevec@[6] == (val >> 48u64) as u8);
        assert(bytevec@[7] == (val >> 56u64) as u8);
    }
    bytevec
}

} // verus!

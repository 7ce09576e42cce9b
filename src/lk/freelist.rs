//! Helpers for kernels built with CONFIG_SLAB_FREELIST_HARDENED: a freelist
//! pointer is stored as `target ^ cookie ^ swab(addr)`.
use vstd::prelude::*;
use crate::util::{p64, pack_u64_spec, u64, unpack_u64_spec};

verus! {

/// `v` with its byte order reversed.
pub open spec fn swab_spec(v: u64) -> u64 {
    unpack_u64_spec(pack_u64_spec(v).reverse())
}

/// Reverses the byte order of `val`.
pub fn swab(val: u64) -> (r: u64)
    ensures
        r == swab_spec(val),
{
    let b = p64(val);
    let rev = vec![b[7], b[6], b[5], b[4], b[3], b[2], b[1], b[0]];
    assert(rev@ =~= b@.reverse());
    u64(rev.as_slice())
}

/// The target of a leaked freelist pointer, given its address and the slab
/// cookie.
pub fn deob_freelist_ptr_target(leaked: u64, slab_cookie: u64, addr: u64) -> (r: u64)
    ensures
        r == leaked ^ slab_cookie ^ swab_spec(addr),
{
    leaked ^ slab_cookie ^ swab(addr)
}

/// The address of a leaked freelist pointer, given its target and the slab
/// cookie.
pub fn deob_freelist_ptr_addr(leaked: u64, slab_cookie: u64, target: u64) -> (r: u64)
    ensures
        r == swab_spec(leaked ^ slab_cookie ^ target),
{
    swab(leaked ^ slab_cookie ^ target)
}

/// The slab cookie, given the target and the address of a leaked freelist
/// pointer.
pub fn calc_freelist_cookie(leaked: u64, addr: u64, target: u64) -> (r: u64)
    ensures
        r == leaked ^ swab_spec(addr) ^ target,
{
    leaked ^ swab(addr) ^ target
}

} // verus!

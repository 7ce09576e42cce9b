use vstd::prelude::*;

verus! {

/// `(p >> 12) ^ p` followed by the same step at 24 bits: recovers a
/// pointer that was mangled with a storage address on its own page.
pub open spec fn demangle_spec(p: u64) -> u64 {
    let middle = (p >> 12u64) ^ p;
    (middle >> 24u64) ^ middle
}

/// The glibc `PROTECT_PTR` of `ptr` stored at `pos`.
pub open spec fn mangle_spec(pos: u64, ptr: u64) -> u64 {
    (pos >> 12u64) ^ ptr
}

/// Decrypts a leaked safe-linking protected pointer, assuming the next
/// pointer lies on the same page as the chunk that holds it.
pub fn sl_demangle(ptr: u64) -> (r: u64)
    ensures
        r == demangle_spec(ptr),
{
    let pos = ptr >> 12;
    let middle = pos ^ ptr;
    (middle >> 24) ^ middle
}

/// Safe-linking mangling of the pointer `ptr` stored at address `pos`.
pub fn sl_mangle(pos: u64, ptr: u64) -> (r: u64)
    ensures
        r == mangle_spec(pos, ptr),
{
    (pos >> 12) ^ ptr
}

/// Demangling undoes mangling whenever the stored pointer and its storage
/// address share a 4 KiB page and the pointer fits in 48 bits, as user-space
/// addresses do.
pub proof fn lemma_demangle_mangle(pos: u64, ptr: u64)
    requires
        pos >> 12u64 == ptr >> 12u64,
        ptr >> 48u64 == 0,
    ensures
        demangle_spec(mangle_spec(pos, ptr)) == ptr,
{
    assert(pos >> 12u64 == ptr >> 12u64 && ptr >> 48u64 == 0 ==> ({
        let m = (pos >> 12u64) ^ ptr;
        let middle = (m >> 12u64) ^ m;
        (middle >> 24u64) ^ middle
    }) == ptr) by (bit_vector);
}

} // verus!

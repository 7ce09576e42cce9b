//! Little-endian packing and unpacking of fixed-width integers.
use vstd::prelude::*;

verus! {

/// Error of a checked unpack.
#[derive(Debug)]
pub enum Error {
    UnpackError(String),
}

/// The little-endian bytes of a 64-bit value.
pub open spec fn pack_u64_spec(v: u64) -> Seq<u8> {
    seq![
        v as u8,
        (v >> 8u64) as u8,
        (v >> 16u64) as u8,
        (v >> 24u64) as u8,
        (v >> 32u64) as u8,
        (v >> 40u64) as u8,
        (v >> 48u64) as u8,
        (v >> 56u64) as u8,
    ]
}

/// The little-endian bytes of a 32-bit value.
pub open spec fn pack_u32_spec(v: u32) -> Seq<u8> {
    seq![v as u8, (v >> 8u32) as u8, (v >> 16u32) as u8, (v >> 24u32) as u8]
}

/// The little-endian bytes of a 16-bit value.
pub open spec fn pack_u16_spec(v: u16) -> Seq<u8> {
    seq![v as u8, (v >> 8u16) as u8]
}

/// The single byte of an 8-bit value.
pub open spec fn pack_u8_spec(v: u8) -> Seq<u8> {
    seq![v]
}

/// The 64-bit value whose little-endian bytes lead `b`.
pub open spec fn unpack_u64_spec(b: Seq<u8>) -> u64
    recommends
        b.len() >= 8,
{
    (b[0] as u64) | ((b[1] as u64) << 8u64) | ((b[2] as u64) << 16u64) | ((b[3] as u64)
        << 24u64) | ((b[4] as u64) << 32u64) | ((b[5] as u64) << 40u64) | ((b[6] as u64)
        << 48u64) | ((b[7] as u64) << 56u64)
}

/// The 32-bit value whose little-endian bytes lead `b`.
pub open spec fn unpack_u32_spec(b: Seq<u8>) -> u32
    recommends
        b.len() >= 4,
{
    (b[0] as u32) | ((b[1] as u32) << 8u32) | ((b[2] as u32) << 16u32) | ((b[3] as u32)
        << 24u32)
}

/// The 16-bit value whose little-endian bytes lead `b`.
pub open spec fn unpack_u16_spec(b: Seq<u8>) -> u16
    recommends
        b.len() >= 2,
{
    (b[0] as u16) | ((b[1] as u16) << 8u16)
}

/// The first byte of `b`.
pub open spec fn unpack_u8_spec(b: Seq<u8>) -> u8
    recommends
        b.len() >= 1,
{
    b[0]
}

/// Reads a `u64` from the first eight bytes.
pub fn u64(bytevec: &[u8]) -> (r: u64)
    requires
        bytevec@.len() >= 8,
    ensures
        r == unpack_u64_spec(bytevec@),
{
    (bytevec[0] as u64) | ((bytevec[1] as u64) << 8) | ((bytevec[2] as u64) << 16) | ((
    bytevec[3] as u64) << 24) | ((bytevec[4] as u64) << 32) | ((bytevec[5] as u64) << 40) | ((
    bytevec[6] as u64) << 48) | ((bytevec[7] as u64) << 56)
}

/// Reads a `u32` from the first four bytes.
pub fn u32(bytevec: &[u8]) -> (r: u32)
    requires
        bytevec@.len() >= 4,
    ensures
        r == unpack_u32_spec(bytevec@),
{
    (bytevec[0] as u32) | ((bytevec[1] as u32) << 8) | ((bytevec[2] as u32) << 16) | ((
    bytevec[3] as u32) << 24)
}

/// Reads a `u16` from the first two bytes.
pub fn u16(bytevec: &[u8]) -> (r: u16)
    requires
        bytevec@.len() >= 2,
    ensures
        r == unpack_u16_spec(bytevec@),
{
    (bytevec[0] as u16) | ((bytevec[1] as u16) << 8)
}

/// Reads a `u8` from the first byte.
pub fn u8(bytevec: &[u8]) -> (r: u8)
    requires
        bytevec@.len() >= 1,
    ensures
        r == unpack_u8_spec(bytevec@),
{
    bytevec[0]
}

/// Reads a `u64` from exactly eight bytes.
pub fn u64_chk(bytevec: &[u8]) -> (r: Result<u64, Error>)
    ensures
        r.is_ok() <==> bytevec@.len() == 8,
        r matches Ok(v) ==> v == unpack_u64_spec(bytevec@),
        r matches Err(Error::UnpackError(m)) ==> m@ == "Expected slice of len 8!"@,
{
    if bytevec.len() != 8 {
        return Err(Error::UnpackError("Expected slice of len 8!".to_owned()));
    }
    Ok(u64(bytevec))
}

/// Reads a `u32` from exactly four bytes.
pub fn u32_chk(bytevec: &[u8]) -> (r: Result<u32, Error>)
    ensures
        r.is_ok() <==> bytevec@.len() == 4,
        r matches Ok(v) ==> v == unpack_u32_spec(bytevec@),
        r matches Err(Error::UnpackError(m)) ==> m@ == "Expected slice of len 4!"@,
{
    if bytevec.len() != 4 {
        return Err(Error::UnpackError("Expected slice of len 4!".to_owned()));
    }
    Ok(u32(bytevec))
}

/// Reads a `u16` from exactly two bytes.
pub fn u16_chk(bytevec: &[u8]) -> (r: Result<u16, Error>)
    ensures
        r.is_ok() <==> bytevec@.len() == 2,
        r matches Ok(v) ==> v == unpack_u16_spec(bytevec@),
        r matches Err(Error::UnpackError(m)) ==> m@ == "Expected slice of len 2!"@,
{
    if bytevec.len() != 2 {
        return Err(Error::UnpackError("Expected slice of len 2!".to_owned()));
    }
    Ok(u16(bytevec))
}

/// Reads a `u8` from exactly one byte.
pub fn u8_chk(bytevec: &[u8]) -> (r: Result<u8, Error>)
    ensures
        r.is_ok() <==> bytevec@.len() == 1,
        r matches Ok(v) ==> v == unpack_u8_spec(bytevec@),
        r matches Err(Error::UnpackError(m)) ==> m@ == "Expected slice of len 1!"@,
{
    if bytevec.len() != 1 {
        return Err(Error::UnpackError("Expected slice of len 1!".to_owned()));
    }
    Ok(u8(bytevec))
}

/// The eight little-endian bytes of `val`.
pub fn p64(val: u64) -> (r: Vec<u8>)
    ensures
        r@ == pack_u64_spec(val),
{
    let r = vec![
        val as u8,
        (val >> 8) as u8,
        (val >> 16) as u8,
        (val >> 24) as u8,
        (val >> 32) as u8,
        (val >> 40) as u8,
        (val >> 48) as u8,
        (val >> 56) as u8,
    ];
    assert(r@ =~= pack_u64_spec(val));
    r
}

/// The four little-endian bytes of `val`.
pub fn p32(val: u32) -> (r: Vec<u8>)
    ensures
        r@ == pack_u32_spec(val),
{
    let r = vec![val as u8, (val >> 8) as u8, (val >> 16) as u8, (val >> 24) as u8];
    assert(r@ =~= pack_u32_spec(val));
    r
}

/// The two little-endian bytes of `val`.
pub fn p16(val: u16) -> (r: Vec<u8>)
    ensures
        r@ == pack_u16_spec(val),
{
    let r = vec![val as u8, (val >> 8) as u8];
    assert(r@ =~= pack_u16_spec(val));
    r
}

/// The single byte of `val`.
pub fn p8(val: u8) -> (r: Vec<u8>)
    ensures
        r@ == pack_u8_spec(val),
{
    let r = vec![val];
    assert(r@ =~= pack_u8_spec(val));
    r
}

/// Unpacking the packed bytes of a `u64` gives the value back.
pub proof fn lemma_unpack_pack_u64(v: u64)
    ensures
        unpack_u64_spec(pack_u64_spec(v)) == v,
{
    assert(((v as u8) as u64) | ((((v >> 8u64) as u8) as u64) << 8u64) | ((((v >> 16u64) as u8)
        as u64) << 16u64) | ((((v >> 24u64) as u8) as u64) << 24u64) | ((((v >> 32u64) as u8)
        as u64) << 32u64) | ((((v >> 40u64) as u8) as u64) << 40u64) | ((((v >> 48u64) as u8)
        as u64) << 48u64) | ((((v >> 56u64) as u8) as u64) << 56u64) == v) by (bit_vector);
}

/// Unpacking the packed bytes of a `u32` gives the value back.
pub proof fn lemma_unpack_pack_u32(v: u32)
    ensures
        unpack_u32_spec(pack_u32_spec(v)) == v,
{
    assert(((v as u8) as u32) | ((((v >> 8u32) as u8) as u32) << 8u32) | ((((v >> 16u32) as u8)
        as u32) << 16u32) | ((((v >> 24u32) as u8) as u32) << 24u32) == v) by (bit_vector);
}

/// Unpacking the packed bytes of a `u16` gives the value back.
pub proof fn lemma_unpack_pack_u16(v: u16)
    ensures
        unpack_u16_spec(pack_u16_spec(v)) == v,
{
    assert(((v as u8) as u16) | ((((v >> 8u16) as u8) as u16) << 8u16) == v) by (bit_vector);
}

/// Unpacking the packed byte of a `u8` gives the value back.
pub proof fn lemma_unpack_pack_u8(v: u8)
    ensures
        unpack_u8_spec(pack_u8_spec(v)) == v,
{
}

} // verus!

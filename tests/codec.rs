use prawn::util;
use prawn::util::Error;

#[test]
fn pack_unpack() {
    let packed = util::p64(0xdeadbeefcafebeef);
    let unpacked = util::u64(&packed);
    assert!(unpacked == 0xdeadbeefcafebeef);
}

#[test]
fn pack_bytes_are_little_endian() {
    assert_eq!(util::p64(0x0102030405060708), vec![8, 7, 6, 5, 4, 3, 2, 1]);
    assert_eq!(util::p32(0xdeadbeef), vec![0xef, 0xbe, 0xad, 0xde]);
    assert_eq!(util::p16(0x1234), vec![0x34, 0x12]);
    assert_eq!(util::p8(0x7f), vec![0x7f]);
}

#[test]
fn unpack_reads_leading_bytes() {
    let bytes = [0x78, 0x56, 0x34, 0x12, 0xff, 0xee, 0xdd, 0xcc, 0x99];
    assert_eq!(util::u64(&bytes), 0xccddeeff12345678);
    assert_eq!(util::u32(&bytes), 0x12345678);
    assert_eq!(util::u16(&bytes), 0x5678);
    assert_eq!(util::u8(&bytes), 0x78);
}

#[test]
fn round_trip_every_width() {
    for v in [0u64, 1, 0x8000_0000_0000_0000, u64::MAX, 0x0123_4567_89ab_cdef] {
        assert_eq!(util::u64(&util::p64(v)), v);
        assert_eq!(util::u64_chk(&util::p64(v)).unwrap(), v);
    }
    for v in [0u32, 1, u32::MAX, 0x89ab_cdef] {
        assert_eq!(util::u32(&util::p32(v)), v);
        assert_eq!(util::u32_chk(&util::p32(v)).unwrap(), v);
    }
    for v in [0u16, 1, u16::MAX, 0xbeef] {
        assert_eq!(util::u16(&util::p16(v)), v);
        assert_eq!(util::u16_chk(&util::p16(v)).unwrap(), v);
    }
    for v in [0u8, 1, u8::MAX] {
        assert_eq!(util::u8(&util::p8(v)), v);
        assert_eq!(util::u8_chk(&util::p8(v)).unwrap(), v);
    }
}

fn message(e: Error) -> String {
    match e {
        Error::UnpackError(m) => m,
    }
}

#[test]
fn checked_unpack_rejects_other_lengths() {
    let nine = [0u8; 9];
    assert_eq!(message(util::u64_chk(&nine[..7]).unwrap_err()), "Expected slice of len 8!");
    assert_eq!(message(util::u64_chk(&nine).unwrap_err()), "Expected slice of len 8!");
    assert_eq!(message(util::u32_chk(&nine[..3]).unwrap_err()), "Expected slice of len 4!");
    assert_eq!(message(util::u32_chk(&nine[..5]).unwrap_err()), "Expected slice of len 4!");
    assert_eq!(message(util::u16_chk(&nine[..1]).unwrap_err()), "Expected slice of len 2!");
    assert_eq!(message(util::u16_chk(&nine[..3]).unwrap_err()), "Expected slice of len 2!");
    assert_eq!(message(util::u8_chk(&nine[..0]).unwrap_err()), "Expected slice of len 1!");
    assert_eq!(message(util::u8_chk(&nine[..2]).unwrap_err()), "Expected slice of len 1!");
    assert!(util::u64_chk(&[]).is_err());
}

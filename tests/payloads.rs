use prawn::fmtstr::{
    fmtstr_payload, fmtstr_payload_fits, fmtstr_payload_nodollar, fmtstr_payload_nodollar_fits,
    FmtWrite, SizedWrite,
};
use prawn::fsop::FileStruct;
use prawn::heap::{sl_demangle, sl_mangle};
use prawn::util;

#[test]
fn fmtstr_dollar_single_short() {
    let writes = vec![FmtWrite { addr: 0x404040, value: SizedWrite::Short(0x1234) }];
    let p = fmtstr_payload(6, writes, 0).unwrap();
    let mut expected = b"%4660c%9$hn".to_vec();
    expected.resize(24, 0x41);
    expected.extend_from_slice(&util::p64(0x404040));
    assert_eq!(p, expected);
    assert!(p.starts_with(b"%4660c%9$hn"));
    assert_eq!(p.len() % 8, 0);
    assert!(p.ends_with(&util::p64(0x404040)));
}

#[test]
fn fmtstr_dollar_three_widths() {
    let writes = vec![
        FmtWrite { addr: 0x404040, value: SizedWrite::Byte(0x41) },
        FmtWrite { addr: 0x404041, value: SizedWrite::Short(0x4242) },
        FmtWrite { addr: 0x404050, value: SizedWrite::Int(0xdeadbeef) },
    ];
    let p = fmtstr_payload(6, writes, 3).unwrap();
    let expected: &[u8] = b"%62c%15$hhnAAAAA%16892c%16$hnAAA%3735911594c%17$nAAAAAAAAAAAAAAAAAAAAAAA@@@\x00\x00\x00\x00\x00A@@\x00\x00\x00\x00\x00P@@\x00\x00\x00\x00\x00";
    assert_eq!(p, expected.to_vec());
}

#[test]
fn fmtstr_dollar_no_writes() {
    assert_eq!(fmtstr_payload(6, vec![], 0).unwrap(), Vec::<u8>::new());
}

#[test]
fn fmtstr_nodollar_single_short() {
    let writes = vec![FmtWrite { addr: 0x404040, value: SizedWrite::Short(0x1234) }];
    let p = fmtstr_payload_nodollar(6, writes, 0).unwrap();
    let expected: &[u8] = b"%c%c%c%c%c%c%c%c%c%c%c%c%c%cAAAA%4642c%hnAAAAAAAAAAAAAAA@@@\x00\x00\x00\x00\x00";
    assert_eq!(p, expected.to_vec());
}

#[test]
fn fmtstr_nodollar_two_bytes() {
    let writes = vec![
        FmtWrite { addr: 0x601000, value: SizedWrite::Byte(0x10) },
        FmtWrite { addr: 0x601001, value: SizedWrite::Byte(0x05) },
    ];
    let p = fmtstr_payload_nodollar(2, writes, 0).unwrap();
    let expected: &[u8] = b"%c%c%c%c%c%c%c%c%cAAAAAA%1c%hhnAAAAAAAAA%236c%hhnAAAAAAAAAAAAAAA\x00\x10`\x00\x00\x00\x00\x00AAAAAAAA\x01\x10`\x00\x00\x00\x00\x00";
    assert_eq!(p, expected.to_vec());
}

#[test]
fn sized_write_parts() {
    assert_eq!(SizedWrite::Byte(0xab).mask(), 0xff);
    assert_eq!(SizedWrite::Short(0xabcd).mask(), 0xffff);
    assert_eq!(SizedWrite::Int(7).mask(), 0xffff_ffff);
    assert_eq!(SizedWrite::Byte(0xab).size_spec(), "hh");
    assert_eq!(SizedWrite::Short(0xabcd).size_spec(), "h");
    assert_eq!(SizedWrite::Int(7).size_spec(), "");
    assert_eq!(SizedWrite::Short(0xabcd).val(), 0xabcd);
    assert_eq!(SizedWrite::Int(0xdeadbeef).val(), 0xdeadbeef);
}

#[test]
fn safelink_mangle_formula() {
    assert_eq!(sl_mangle(0x555555600010, 0x7ffff7e00000), 0x7ffaa2b55600);
    assert_eq!(sl_demangle(0x7ffffa355e10), 0x7ff805b50540);
}

#[test]
fn safelink_same_page_round_trip() {
    let pos = 0x55555555a2a0;
    let ptr = 0x55555555a2c0;
    let m = sl_mangle(pos, ptr);
    assert_eq!(m, 0x55500000f79a);
    assert_eq!(sl_demangle(m), ptr);
}

#[test]
fn fsop_read_preset() {
    let mut fs = FileStruct::default();
    fs._flags = 0x7;
    let out = fs.read(0xdead0000, 0x100);
    assert_eq!(fs._IO_buf_base, 0xdead0000);
    assert_eq!(fs._IO_buf_end, 0xdead0100);
    assert_eq!(fs._fileno, 0);
    assert_eq!(fs._flags, 0x3);
    assert_eq!(out.len(), 116);
    assert_eq!(util::u64(&out[56..64]), 0xdead0000);
    assert_eq!(util::u64(&out[64..72]), 0xdead0100);
    assert_eq!(util::u32(&out[0..4]), 0x3);
    assert_eq!(util::u32(&out[112..116]), 0);
}

#[test]
fn fsop_read_from_default() {
    let out = FileStruct::default().read(0xdead0000, 0x100);
    let mut expected = vec![0u8; 116];
    expected[56..64].copy_from_slice(&util::p64(0xdead0000));
    expected[64..72].copy_from_slice(&util::p64(0xdead0100));
    assert_eq!(out, expected);
}

#[test]
fn fsop_write_preset() {
    let mut fs = FileStruct::default();
    fs._flags = 0xfbad_2088u32 as i32;
    let out = fs.write(0x404000, 0x40);
    assert_eq!(fs._flags, 0xfbad_2880u32 as i32);
    assert_eq!(fs._IO_write_base, 0x404000);
    assert_eq!(fs._IO_write_ptr, 0x404040);
    assert_eq!(fs._IO_read_end, 0x404000);
    assert_eq!(fs._fileno, 1);
    assert_eq!(out.len(), 116);
    assert_eq!(util::u32(&out[0..4]), 0xfbad_2880);
    assert_eq!(util::u64(&out[16..24]), 0x404000);
    assert_eq!(util::u64(&out[32..40]), 0x404000);
    assert_eq!(util::u64(&out[40..48]), 0x404040);
    assert_eq!(util::u32(&out[112..116]), 1);
}

#[test]
fn fsop_cfh_presets() {
    let mut fs = FileStruct::default();
    fs._flags = 0x1234;
    let out = fs.cfh_write(0x4a0000, 0x7f00_0000_2228, 0x41414141);
    assert_eq!(out.len(), 224);
    assert_eq!(fs._flags, 0);
    assert_eq!(fs._lock, 0x4a00c4);
    assert_eq!(fs._wide_data, 0x4a0000 - 0xe0 + 0x10);
    assert_eq!(fs._IO_read_end, 0x4a0000 - 0x68 + 0x18);
    assert_eq!(fs._IO_read_base, 0x41414141);
    assert_eq!(fs.vtable, 0x7f00_0000_2208);
    assert_eq!(util::u64(&out[136..144]), 0x4a00c4);
    assert_eq!(util::u64(&out[160..168]), 0x4a0000 - 0xe0 + 0x10);
    assert_eq!(util::u64(&out[16..24]), 0x4a0000 - 0x68 + 0x18);
    assert_eq!(util::u64(&out[24..32]), 0x41414141);
    assert_eq!(util::u64(&out[216..224]), 0x7f00_0000_2208);
    assert_eq!(&out[196..216], &[0u8; 20]);

    let mut fs = FileStruct::default();
    let out = fs.cfh_read(0x4a0000, 0x7f00_0000_2228, 0x41414141);
    assert_eq!(fs.vtable, 0x7f00_0000_2200);
    assert_eq!(util::u64(&out[216..224]), 0x7f00_0000_2200);
}

#[test]
fn fsop_layout_offsets() {
    let mut fs = FileStruct::default();
    fs._flags2 = 0x11223344;
    fs._old_offset = 0x5566;
    fs._cur_column = 0x7788;
    fs._vtable_offset = -1;
    fs._shortbuf = 0x99;
    fs._mode = -1;
    fs._unused2[0] = 0xaa;
    fs.__pad5 = 0xbb;
    let out = fs.as_bytes();
    assert_eq!(out.len(), 224);
    assert_eq!(util::u32(&out[116..120]), 0x11223344);
    assert_eq!(util::u64(&out[120..128]), 0x5566);
    assert_eq!(util::u16(&out[128..130]), 0x7788);
    assert_eq!(out[130], 0xff);
    assert_eq!(out[131], 0x99);
    assert_eq!(util::u64(&out[184..192]), 0xbb);
    assert_eq!(util::u32(&out[192..196]), 0xffff_ffff);
    assert_eq!(out[196], 0xaa);
}

#[test]
fn fmtstr_fits_checks() {
    let one = vec![FmtWrite { addr: 0x404040, value: SizedWrite::Short(0x1234) }];
    assert!(fmtstr_payload_fits(6, &one, 0));
    assert!(fmtstr_payload_nodollar_fits(6, &one, 0));
    assert!(fmtstr_payload_fits(usize::MAX, &vec![], 0));
    assert!(!fmtstr_payload_fits(100_000, &one, 0));
    assert!(!fmtstr_payload_nodollar_fits(100_000, &one, 0));
    let wide = vec![FmtWrite { addr: 0, value: SizedWrite::Int(999_999) }];
    assert!(fmtstr_payload_fits(99_990, &wide, 0));
    assert!(!fmtstr_payload_fits(99_999, &wide, 0));
    assert!(!fmtstr_payload_nodollar_fits(usize::MAX / 2, &vec![], 0));
}

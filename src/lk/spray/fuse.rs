//! A one-file FUSE filesystem whose reads call back into the exploit: the
//! root directory (inode 1) holds the regular file `pwn` (inode 2).
use vstd::prelude::*;

verus! {

/// Called when the kernel reads the file.
pub trait FuseReadHandler {
    fn on_read(&mut self);
}

/// The filesystem, with the handler its reads call.
pub struct FuseFS<T: FuseReadHandler> {
    pub handler: T,
}

/// The inode of the root directory.
pub const ROOT_INO: u64 = 1;

/// The inode of the file `pwn`.
pub const FILE_INO: u64 = 2;

/// The size of the file, and of every read of it.
pub const FILE_SIZE: usize = 4096;

/// The kind of an inode.
#[derive(Clone, Copy, Debug, PartialEq, Eq, Structural)]
pub enum FileKind {
    Directory,
    RegularFile,
}

/// The bytes of the name `pwn`.
pub open spec fn file_name() -> Seq<u8> {
    seq![112u8, 119u8, 110u8]
}

/// The inode that `name` names in the directory `parent`, if any.
pub fn lookup_ino(parent: u64, name: &[u8]) -> (r: Option<u64>)
    ensures
        r == if parent == ROOT_INO && name@ == file_name() {
            Some(FILE_INO)
        } else {
            None::<u64>
        },
{
    if parent == ROOT_INO && name.len() == 3 && name[0] == 112 && name[1] == 119 && name[2] == 110 {
        assert(name@ =~= file_name());
        Some(FILE_INO)
    } else {
        None
    }
}

/// The kind of an inode of the filesystem, if it has one.
pub fn kind_of(ino: u64) -> (r: Option<FileKind>)
    ensures
        r == if ino == ROOT_INO {
            Some(FileKind::Directory)
        } else if ino == FILE_INO {
            Some(FileKind::RegularFile)
        } else {
            None::<FileKind>
        },
{
    if ino == ROOT_INO {
        Some(FileKind::Directory)
    } else if ino == FILE_INO {
        Some(FileKind::RegularFile)
    } else {
        None
    }
}

/// One entry of a directory listing: inode, kind, offset of the next entry,
/// and name.
pub struct DirEntry {
    pub ino: u64,
    pub kind: FileKind,
    pub next: i64,
    pub name: Vec<u8>,
}

/// The root directory's entries `.`, `..` and `pwn`, as
/// (inode, kind, name).
pub open spec fn root_entries() -> Seq<(u64, FileKind, Seq<u8>)> {
    seq![
        (ROOT_INO, FileKind::Directory, seq![46u8]),
        (ROOT_INO, FileKind::Directory, seq![46u8, 46u8]),
        (FILE_INO, FileKind::RegularFile, file_name()),
    ]
}

/// The listing of the directory `ino` from entry `offset` on: none for an
/// inode that is not a directory, and nothing past the end (a negative
/// offset, read as an unsigned one, is past the end).
pub fn dir_entries(ino: u64, offset: i64) -> (r: Option<Vec<DirEntry>>)
    ensures
        ino != ROOT_INO <==> r is None,
        r matches Some(v) ==> {
            let start: int = if offset < 0 { 3 } else if offset > 3 { 3 } else { offset as int };
            &&& v@.len() == 3 - start
            &&& forall|i: int| 0 <= i < v@.len() ==> {
                &&& (#[trigger] v@[i]).ino == root_entries()[start + i].0
                &&& v@[i].kind == root_entries()[start + i].1
                &&& v@[i].name@ == root_entries()[start + i].2
                &&& v@[i].next == start + i + 1
            }
        },
{
    if ino != ROOT_INO {
        return None;
    }
    let start: usize = if offset < 0 {
        3
    } else if offset > 3 {
        3
    } else {
        offset as usize
    };
    let mut out: Vec<DirEntry> = Vec::new();
    let mut i: usize = start;
    while i < 3
        invariant
            start <= i <= 3,
            out@.len() == i - start,
            forall|j: int| 0 <= j < out@.len() ==> {
                &&& (#[trigger] out@[j]).ino == root_entries()[start + j].0
                &&& out@[j].kind == root_entries()[start + j].1
                &&& out@[j].name@ == root_entries()[start + j].2
                &&& out@[j].next == start + j + 1
            },
        decreases 3 - i,
    {
        let entry = if i == 0 {
            DirEntry { ino: ROOT_INO, kind: FileKind::Directory, next: 1, name: vec![46u8] }
        } else if i == 1 {
            DirEntry { ino: ROOT_INO, kind: FileKind::Directory, next: 2, name: vec![46u8, 46u8] }
        } else {
            DirEntry { ino: FILE_INO, kind: FileKind::RegularFile, next: 3, name: vec![112u8, 119u8, 110u8] }
        };
        assert(entry.name@ =~= root_entries()[i as int].2);
        out.push(entry);
        i = i + 1;
    }
    Some(out)
}

} // verus!

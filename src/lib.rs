//! An exploit-development toolkit: the byte codec, the receive buffer and
//! decisions of tubes, format-string and FILE-structure payloads, heap
//! pointer mangling, and kernel-exploit arithmetic, each with its contract.
pub mod foreign;
pub mod heap;
pub mod util;
pub mod tubes;
pub mod fmtstr;
pub mod fsop;
pub mod lk;
pub mod timer;
pub mod context;
pub mod logging;
pub mod elf;

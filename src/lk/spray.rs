//! Heap sprays: the parts that decide rather than call the kernel.
pub mod fuse;

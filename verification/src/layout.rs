//! Byte-layout contracts for the raw syscall records.
//!
//! The offsets below are an externally fixed binary interface (the kernel's
//! trace record format for the ioctl syscall pair): they are contracts, not a
//! type model of convenience, and must be hardcoded exactly.
//!
//! All multi-byte fields are little-endian in the record buffer.

use vstd::prelude::*;

verus! {

/// Byte offset of the command word in a raw entry record.
pub const ENTRY_CMD_OFFSET: usize = 24;

/// Byte offset of the user-space argument pointer in a raw entry record.
pub const ENTRY_ARG_OFFSET: usize = 32;

/// The least entry-record length from which both fields can be read.
pub const ENTRY_RECORD_MIN_LEN: usize = 40;

/// Byte offset of the return value in a raw exit record.
pub const EXIT_RET_OFFSET: usize = 16;

/// The least exit-record length from which the return value can be read.
pub const EXIT_RECORD_MIN_LEN: usize = 24;

/// The unsigned value of the 8 little-endian bytes of `s` starting at `off`.
pub open spec fn le64_at(s: Seq<u8>, off: int) -> int {
    (s[off] as int)
    + (s[off + 1] as int) * 0x100
    + (s[off + 2] as int) * 0x10000
    + (s[off + 3] as int) * 0x1000000
    + (s[off + 4] as int) * 0x100000000
    + (s[off + 5] as int) * 0x10000000000
    + (s[off + 6] as int) * 0x1000000000000
    + (s[off + 7] as int) * 0x100000000000000
}

/// The unsigned value of the 4 little-endian bytes of `s` starting at `off`.
pub open spec fn le32_at(s: Seq<u8>, off: int) -> int {
    (s[off] as int)
    + (s[off + 1] as int) * 0x100
    + (s[off + 2] as int) * 0x10000
    + (s[off + 3] as int) * 0x1000000
}

/// Reads the 8-byte little-endian field of `buf` at `off`.
pub fn read_u64_at(buf: &[u8], off: usize) -> (r: u64)
    requires
        off + 8 <= buf@.len(),
    ensures
        r == le64_at(buf@, off as int),
{
    let b0 = buf[off] as u64;
    let b1 = buf[off + 1] as u64;
    let b2 = buf[off + 2] as u64;
    let b3 = buf[off + 3] as u64;
    let b4 = buf[off + 4] as u64;
    let b5 = buf[off + 5] as u64;
    let b6 = buf[off + 6] as u64;
    let b7 = buf[off + 7] as u64;
    b0 + b1 * 0x100 + b2 * 0x10000 + b3 * 0x1000000 + b4 * 0x100000000
        + b5 * 0x10000000000 + b6 * 0x1000000000000 + b7 * 0x100000000000000
}

/// Reads the 4-byte little-endian field of `buf` at `off`.
pub fn read_u32_at(buf: &[u8], off: usize) -> (r: u32)
    requires
        off + 4 <= buf@.len(),
    ensures
        r == le32_at(buf@, off as int),
{
    let b0 = buf[off] as u32;
    let b1 = buf[off + 1] as u32;
    let b2 = buf[off + 2] as u32;
    let b3 = buf[off + 3] as u32;
    b0 + b1 * 0x100 + b2 * 0x10000 + b3 * 0x1000000
}

} // verus!

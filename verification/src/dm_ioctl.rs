//! The device-mapper control block: the fixed-layout structure the caller
//! passes by pointer on every accepted invocation.
//!
//! The field offsets mirror the subsystem's public binary interface
//! byte-for-byte, padding included. The snapshot is read-only, copied once
//! per accepted entry, and used only for informational output; no field in
//! it may drive further reads.

use vstd::prelude::*;
use crate::layout::le32_at;
use crate::layout::le64_at;
use crate::layout::read_u32_at;
use crate::layout::read_u64_at;
use crate::TraceError;

verus! {

/// Total size in bytes of the control block, padding included.
pub const DM_IOCTL_SIZE: usize = 312;

/// Byte offset of the three-word version field.
pub const VERSION_OFFSET: usize = 0;

/// Byte offset of the data-size field.
pub const DATA_SIZE_OFFSET: usize = 12;

/// Byte offset of the data-start field.
pub const DATA_START_OFFSET: usize = 16;

/// Byte offset of the target-count field.
pub const TARGET_COUNT_OFFSET: usize = 20;

/// Byte offset of the open-count field.
pub const OPEN_COUNT_OFFSET: usize = 24;

/// Byte offset of the flags field.
pub const FLAGS_OFFSET: usize = 28;

/// Byte offset of the event-counter field.
pub const EVENT_NR_OFFSET: usize = 32;

/// Byte offset of the unused padding word.
pub const PADDING_OFFSET: usize = 36;

/// Byte offset of the device-number field.
pub const DEV_OFFSET: usize = 40;

/// Byte offset and length of the device-name field.
pub const NAME_OFFSET: usize = 48;

/// Byte offset of the uuid field.
pub const UUID_OFFSET: usize = 176;

/// Byte offset of the trailing data region.
pub const DATA_OFFSET: usize = 305;

/// The signed value that a byte denotes when reinterpreted as a
/// two's-complement 8-bit character.
pub open spec fn i8_of_byte(b: u8) -> int {
    if b < 0x80 {
        b as int
    } else {
        b as int - 0x100
    }
}

/// The signed value that a 32-bit word denotes when reinterpreted as a
/// two's-complement 32-bit integer.
pub open spec fn i32_of_word(n: int) -> int {
    if n < 0x80000000 {
        n
    } else {
        n - 0x100000000
    }
}

/// The control block, field for field as the subsystem's interface lays it
/// out in memory.
#[allow(non_camel_case_types)]
#[derive(Debug, Copy, Clone)]
pub struct dm_ioctl {
    pub version: [u32; 3],
    pub data_size: u32,
    pub data_start: u32,
    pub target_count: u32,
    pub open_count: i32,
    pub flags: u32,
    pub event_nr: u32,
    pub padding: u32,
    pub dev: u64,
    pub name: [i8; 128],
    pub uuid: [i8; 129],
    pub data: [i8; 7],
}

/// Reinterprets one byte as a signed 8-bit character.
fn byte_as_i8(b: u8) -> (r: i8)
    ensures
        r as int == i8_of_byte(b),
{
    if b < 0x80 {
        b as i8
    } else {
        ((b as i16) - 0x100) as i8
    }
}

/// Copies `count` bytes of `bytes` starting at `src_off` into a signed
/// character array, reinterpreting each byte.
fn copy_chars<const N: usize>(bytes: &[u8], src_off: usize, count: usize) -> (r: [i8; N])
    requires
        count <= N,
        src_off + count <= bytes@.len(),
    ensures
        forall|j: int| 0 <= j < count ==> r@[j] as int == i8_of_byte(bytes@[src_off + j]),
{
    broadcast use vstd::array::group_array_axioms;

    let n: usize = bytes.len();
    let mut out: [i8; N] = [0i8; N];
    let mut i: usize = 0;
    while i < count
        invariant
            i <= count,
            count <= N,
            n == bytes@.len(),
            src_off + count <= n,
            forall|j: int| 0 <= j < i ==> out@[j] as int == i8_of_byte(bytes@[src_off + j]),
        decreases count - i,
    {
        out[i] = byte_as_i8(bytes[src_off + i]);
        i = i + 1;
    }
    out
}

impl dm_ioctl {
    /// True when every field of `self` equals the little-endian decode of
    /// its fixed offset in `bytes`.
    pub open spec fn decodes(self, bytes: Seq<u8>) -> bool {
        &&& self.version[0] == le32_at(bytes, 0)
        &&& self.version[1] == le32_at(bytes, 4)
        &&& self.version[2] == le32_at(bytes, 8)
        &&& self.data_size == le32_at(bytes, 12)
        &&& self.data_start == le32_at(bytes, 16)
        &&& self.target_count == le32_at(bytes, 20)
        &&& self.open_count as int == i32_of_word(le32_at(bytes, 24))
        &&& self.flags == le32_at(bytes, 28)
        &&& self.event_nr == le32_at(bytes, 32)
        &&& self.padding == le32_at(bytes, 36)
        &&& self.dev == le64_at(bytes, 40)
        &&& (forall|j: int| 0 <= j < 128 ==> self.name[j] as int == i8_of_byte(bytes[48 + j]))
        &&& (forall|j: int| 0 <= j < 129 ==> self.uuid[j] as int == i8_of_byte(bytes[176 + j]))
        &&& (forall|j: int| 0 <= j < 7 ==> self.data[j] as int == i8_of_byte(bytes[305 + j]))
    }

    /// Shapes the bytes copied from user memory as a control block.
    ///
    /// The copy is fixed-size; a buffer shorter than the full structure
    /// means the user-memory read did not deliver the block, so the
    /// invocation is abandoned with `UserReadFault` and nothing else is
    /// read from it.
    pub fn parse(bytes: &[u8]) -> (r: Result<dm_ioctl, TraceError>)
        ensures
            bytes@.len() >= DM_IOCTL_SIZE ==> (r matches Ok(block) && block.decodes(bytes@)),
            bytes@.len() < DM_IOCTL_SIZE ==> r == Err::<dm_ioctl, TraceError>(
                TraceError::UserReadFault,
            ),
    {
        broadcast use vstd::array::group_array_axioms;

        if bytes.len() < DM_IOCTL_SIZE {
            return Err(TraceError::UserReadFault);
        }
        let mut version: [u32; 3] = [0u32; 3];
        version[0] = read_u32_at(bytes, VERSION_OFFSET);
        version[1] = read_u32_at(bytes, VERSION_OFFSET + 4);
        version[2] = read_u32_at(bytes, VERSION_OFFSET + 8);
        let open_count_raw = read_u32_at(bytes, OPEN_COUNT_OFFSET);
        let open_count: i32 = if open_count_raw < 0x80000000 {
            open_count_raw as i32
        } else {
            ((open_count_raw as i64) - 0x100000000i64) as i32
        };
        Ok(dm_ioctl {
            version,
            data_size: read_u32_at(bytes, DATA_SIZE_OFFSET),
            data_start: read_u32_at(bytes, DATA_START_OFFSET),
            target_count: read_u32_at(bytes, TARGET_COUNT_OFFSET),
            open_count,
            flags: read_u32_at(bytes, FLAGS_OFFSET),
            event_nr: read_u32_at(bytes, EVENT_NR_OFFSET),
            padding: read_u32_at(bytes, PADDING_OFFSET),
            dev: read_u64_at(bytes, DEV_OFFSET),
            name: copy_chars::<128>(bytes, NAME_OFFSET, 128),
            uuid: copy_chars::<129>(bytes, UUID_OFFSET, 129),
            data: copy_chars::<7>(bytes, DATA_OFFSET, 7),
        })
    }
}

} // verus!

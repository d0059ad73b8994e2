//! Correlation and classification engine for a device-mapper ioctl tracer.
//!
//! The library recognizes ioctl invocations directed at the device-mapper
//! control subsystem, classifies them by command, snapshots the caller's
//! control block, and correlates each syscall entry with its matching exit
//! through a pair of bounded shared tables.

use vstd::prelude::*;

pub mod dm_ioctl;
pub mod dm_ioctl_commands;
pub mod entry;
pub mod event;
pub mod exit;
pub mod layout;
pub mod notice;
pub mod tables;

verus! {

/// The conditions under which an invocation is skipped or degraded.
///
/// None of these is fatal: each aborts at most the current invocation and
/// leaves every unrelated in-flight correlation untouched.
#[derive(Debug, Clone, Copy, PartialEq, Eq)]
pub enum TraceError {
    /// The raw record is too short to read a required field.
    TruncatedRecord,
    /// The command word's subsystem type is not the device-mapper constant.
    /// This is a normal filter miss, not a fault.
    SubsystemMismatch,
    /// The subsystem matched but the command number is outside the known set.
    UnrecognizedCommand,
    /// The copy of the control block from user memory failed.
    UserReadFault,
    /// A correlation table is at capacity; the new entry is dropped.
    TableFull,
    /// No in-flight entry exists for the exiting process.
    NoMatchingEntry,
}

} // verus!

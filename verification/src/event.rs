//! The correlation record created at syscall entry and retired at exit.

use vstd::prelude::*;
use crate::dm_ioctl_commands::DmIoctlCommand;

verus! {

/// One in-flight correlation: created by the entry path when the filter
/// accepts, owned jointly by the id-table and the pid-table, and destroyed
/// by the exit path on successful correlation.
#[derive(Debug, Copy, Clone)]
pub struct Event {
    /// Globally unique id, monotonically increasing per entry.
    pub id: u64,
    /// Packed process id + thread-group id of the calling context.
    pub pid: u64,
    /// Fixed snapshot of the process's short name at entry time.
    pub comm: [u8; 16],
    /// The classified command tag, never a raw unclassified number.
    pub cmd: DmIoctlCommand,
}

impl Event {
    /// Builds an event from its four fields.
    pub fn new(id: u64, pid: u64, comm: [u8; 16], cmd: DmIoctlCommand) -> (r: Self)
        ensures
            r.id == id,
            r.pid == pid,
            r.comm == comm,
            r.cmd == cmd,
    {
        Self { id, pid, comm, cmd }
    }
}

} // verus!

//! The emitted notices: the only externally observable output of the core.
//!
//! Notices carry the correlation record and, at entry, a command-specific
//! summary derived from the classified tag. They have no effect on
//! correlation correctness and may be routed to any observer.

use vstd::prelude::*;
use crate::dm_ioctl::dm_ioctl;
use crate::dm_ioctl_commands::DmIoctlCommand;
use crate::event::Event;

verus! {

/// The command-specific summary attached to an entry notice.
#[derive(Debug, Clone, Copy, PartialEq)]
pub enum CommandSummary {
    /// A version query, with the control block's major version word.
    Version(u32),
    /// A table load or table status operation.
    Table,
    /// A message to a target.
    TargetMessage,
    /// A table dependency query.
    TableDeps,
    /// A device create or remove operation.
    Device,
    /// A device listing.
    ListDevices,
    /// Any other recognized command.
    Generic,
}

/// The summary a given command tag produces from a control-block snapshot.
pub open spec fn summary_of(cmd: DmIoctlCommand, block: dm_ioctl) -> CommandSummary {
    match cmd {
        DmIoctlCommand::DmVersionCmd => CommandSummary::Version(block.version[0]),
        DmIoctlCommand::DmTableLoadCmd => CommandSummary::Table,
        DmIoctlCommand::DmTableStatusCmd => CommandSummary::Table,
        DmIoctlCommand::DmTargetMsgCmd => CommandSummary::TargetMessage,
        DmIoctlCommand::DmTableDepsCmd => CommandSummary::TableDeps,
        DmIoctlCommand::DmDevCreateCmd => CommandSummary::Device,
        DmIoctlCommand::DmDevRemoveCmd => CommandSummary::Device,
        DmIoctlCommand::DmListDevicesCmd => CommandSummary::ListDevices,
        _ => CommandSummary::Generic,
    }
}

/// Derives the command-specific summary for an entry notice.
pub fn summarize(cmd: DmIoctlCommand, block: &dm_ioctl) -> (r: CommandSummary)
    ensures
        r == summary_of(cmd, *block),
{
    match cmd {
        DmIoctlCommand::DmVersionCmd => CommandSummary::Version(block.version[0]),
        DmIoctlCommand::DmTableLoadCmd | DmIoctlCommand::DmTableStatusCmd => CommandSummary::Table,
        DmIoctlCommand::DmTargetMsgCmd => CommandSummary::TargetMessage,
        DmIoctlCommand::DmTableDepsCmd => CommandSummary::TableDeps,
        DmIoctlCommand::DmDevCreateCmd | DmIoctlCommand::DmDevRemoveCmd => CommandSummary::Device,
        DmIoctlCommand::DmListDevicesCmd => CommandSummary::ListDevices,
        _ => CommandSummary::Generic,
    }
}

/// Notice emitted when the entry path accepts and records an invocation.
#[derive(Debug, Clone, Copy)]
pub struct EntryNotice {
    /// The correlation record created for this invocation.
    pub event: Event,
    /// The command-specific summary.
    pub summary: CommandSummary,
}

/// Notice emitted when the exit path retires a correlation.
#[derive(Debug, Clone, Copy)]
pub struct ExitNotice {
    /// The retired correlation record.
    pub event: Event,
    /// The syscall's return value, read from the exit record.
    pub return_value: u64,
}

} // verus!

//! The syscall entry path: argument extraction, the device/command filter,
//! and the recording of an accepted invocation.
//!
//! The path splits where the host must copy the control block from user
//! memory: [`entry_decision`] decides from the raw record alone whether the
//! invocation is traced and where the control block lies, and
//! [`complete_entry`] takes the outcome of that copy and performs the
//! correlation-state write and the notice emission.

use vstd::prelude::*;
use crate::dm_ioctl::dm_ioctl;
use crate::dm_ioctl_commands::command_code;
use crate::dm_ioctl_commands::DmIoctlCommand;
use crate::event::Event;
use crate::layout::le64_at;
use crate::layout::read_u64_at;
use crate::layout::ENTRY_ARG_OFFSET;
use crate::layout::ENTRY_CMD_OFFSET;
use crate::layout::ENTRY_RECORD_MIN_LEN;
use crate::notice::summarize;
use crate::notice::summary_of;
use crate::notice::EntryNotice;
use crate::tables::CorrelationState;
use crate::TraceError;

verus! {

/// The fixed subsystem type that identifies a device-mapper control ioctl
/// within the command word's second byte.
pub const DM_IOCTL: u32 = 0xfd;

/// The subsystem type packed into a command word.
pub open spec fn subsystem_type_of(word: u64) -> u64 {
    (word >> 8) & 0xff
}

/// The command number packed into a command word.
pub open spec fn command_number_of(word: u64) -> u64 {
    word & 0xff
}

/// What the entry path decided from the raw record: the classified command
/// and the user-space pointer to the control block.
#[derive(Debug, Clone, Copy)]
pub struct EntryPlan {
    /// The classified command tag.
    pub command: DmIoctlCommand,
    /// The user-space address of the caller's control block.
    pub arg_ptr: u64,
}

/// Isolates the command word and the user-space argument pointer from a raw
/// entry record. A record too short for either field aborts the invocation
/// with `TruncatedRecord`.
pub fn extract_entry(record: &[u8]) -> (r: Result<(u64, u64), TraceError>)
    ensures
        record@.len() >= ENTRY_RECORD_MIN_LEN ==> (r matches Ok(v)
            && v.0 == le64_at(record@, ENTRY_CMD_OFFSET as int)
            && v.1 == le64_at(record@, ENTRY_ARG_OFFSET as int)),
        record@.len() < ENTRY_RECORD_MIN_LEN ==> r == Err::<(u64, u64), TraceError>(
            TraceError::TruncatedRecord,
        ),
{
    if record.len() < ENTRY_RECORD_MIN_LEN {
        return Err(TraceError::TruncatedRecord);
    }
    let cmd = read_u64_at(record, ENTRY_CMD_OFFSET);
    let arg = read_u64_at(record, ENTRY_ARG_OFFSET);
    Ok((cmd, arg))
}

/// Decodes the subsystem type and command number from a command word and
/// accepts only recognized device-mapper commands.
///
/// A foreign subsystem type is a silent filter miss; a matching subsystem
/// with an unknown command number is `UnrecognizedCommand`. Both leave
/// every table untouched and emit nothing.
pub fn filter_command(word: u64) -> (r: Result<DmIoctlCommand, TraceError>)
    ensures
        subsystem_type_of(word) != DM_IOCTL ==> r == Err::<DmIoctlCommand, TraceError>(
            TraceError::SubsystemMismatch,
        ),
        subsystem_type_of(word) == DM_IOCTL && command_number_of(word) > 17 ==> r == Err::<
            DmIoctlCommand,
            TraceError,
        >(TraceError::UnrecognizedCommand),
        subsystem_type_of(word) == DM_IOCTL && command_number_of(word) <= 17 ==> (r matches Ok(cmd)
            && command_code(cmd) == command_number_of(word)),
{
    proof {
        assert((word >> 8) & 0xff <= 0xff) by (bit_vector);
        assert(word & 0xff <= 0xff) by (bit_vector);
    }
    let subsystem_type: u32 = ((word >> 8) & 0xff) as u32;
    if subsystem_type != DM_IOCTL {
        return Err(TraceError::SubsystemMismatch);
    }
    let command_number: u32 = (word & 0xff) as u32;
    match DmIoctlCommand::from_u32(command_number) {
        Some(cmd) => Ok(cmd),
        None => Err(TraceError::UnrecognizedCommand),
    }
}

/// The pure half of the entry path: from the raw record alone, decide
/// whether this invocation is traced, and with which command and control
/// block address. No table is written and nothing is emitted here, so a
/// rejected record has zero side effects.
pub fn entry_decision(record: &[u8]) -> (r: Result<EntryPlan, TraceError>)
    ensures
        ({
            let word = le64_at(record@, ENTRY_CMD_OFFSET as int) as u64;
            &&& (record@.len() < ENTRY_RECORD_MIN_LEN ==> r == Err::<EntryPlan, TraceError>(
                TraceError::TruncatedRecord,
            ))
            &&& (record@.len() >= ENTRY_RECORD_MIN_LEN && subsystem_type_of(word) != DM_IOCTL
                ==> r == Err::<EntryPlan, TraceError>(TraceError::SubsystemMismatch))
            &&& (record@.len() >= ENTRY_RECORD_MIN_LEN && subsystem_type_of(word) == DM_IOCTL
                && command_number_of(word) > 17 ==> r == Err::<EntryPlan, TraceError>(
                TraceError::UnrecognizedCommand,
            ))
            &&& (record@.len() >= ENTRY_RECORD_MIN_LEN && subsystem_type_of(word) == DM_IOCTL
                && command_number_of(word) <= 17 ==> (r matches Ok(plan)
                && command_code(plan.command) == command_number_of(word)
                && plan.arg_ptr == le64_at(record@, ENTRY_ARG_OFFSET as int)))
        }),
{
    let (word, arg_ptr) = match extract_entry(record) {
        Ok(v) => v,
        Err(e) => {
            return Err(e);
        },
    };
    match filter_command(word) {
        Ok(command) => Ok(EntryPlan { command, arg_ptr }),
        Err(e) => Err(e),
    }
}

/// The mutating half of the entry path, taking whatever the user-memory
/// copy of the control block produced.
///
/// A failed copy (`None`) abandons the invocation with `UserReadFault` and
/// mutates nothing — the pointer may be invalid, swapped out, or
/// adversarial, and that is a recoverable condition. With a snapshot in
/// hand, a fresh id is issued and the event enters both tables, unless a
/// table is at capacity, in which case the event is dropped with
/// `TableFull` and no entry notice exists for it.
///
/// The counter sits below its 64-bit wraparound boundary for any
/// realizable run; the boundary itself is the design's accepted
/// limitation.
pub fn complete_entry(
    state: &mut CorrelationState,
    command: DmIoctlCommand,
    pid: u64,
    comm: [u8; 16],
    snapshot: Option<&dm_ioctl>,
) -> (r: Result<EntryNotice, TraceError>)
    requires
        old(state).wf(),
        old(state).counter < u64::MAX,
    ensures
        final(state).wf(),
        snapshot is None ==> {
            &&& r == Err::<EntryNotice, TraceError>(TraceError::UserReadFault)
            &&& final(state).counter == old(state).counter
            &&& final(state).events_view() == old(state).events_view()
            &&& final(state).pids_view() == old(state).pids_view()
        },
        snapshot is Some ==> final(state).counter == old(state).counter + 1,
        snapshot is Some && old(state).entry_would_overflow(pid) ==> {
            &&& r == Err::<EntryNotice, TraceError>(TraceError::TableFull)
            &&& final(state).events_view() == old(state).events_view()
            &&& final(state).pids_view() == old(state).pids_view()
        },
        snapshot matches Some(block) ==> !old(state).entry_would_overflow(pid) ==> (r matches Ok(
            notice,
        ) && {
            let event = notice.event;
            &&& event.id == old(state).counter + 1
            &&& event.pid == pid
            &&& event.comm == comm
            &&& event.cmd == command
            &&& notice.summary == summary_of(command, *block)
            &&& final(state).events_view() == old(state).events_view().insert(event.id, event)
            &&& final(state).pids_view() == old(state).pids_view().insert(pid, event.id)
        }),
        old(state).balanced() && (snapshot is None || old(state).entry_would_overflow(pid))
            ==> final(state).balanced(),
        old(state).balanced() && !old(state).pids_view().contains_key(pid)
            ==> final(state).balanced(),
{
    let block = match snapshot {
        Some(b) => b,
        None => {
            return Err(TraceError::UserReadFault);
        },
    };
    let id = state.issue();
    let event = Event::new(id, pid, comm, command);
    proof {
        if state.events_view().contains_key(id) {
            assert(state.events_view()[id].id == id);
        }
    }
    match state.record_entry(event) {
        Ok(()) => Ok(EntryNotice { event, summary: summarize(command, block) }),
        Err(e) => Err(e),
    }
}

} // verus!

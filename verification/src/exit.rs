//! The syscall exit path: return-value extraction and correlation
//! retirement.

use vstd::prelude::*;
use crate::layout::le64_at;
use crate::layout::read_u64_at;
use crate::layout::EXIT_RECORD_MIN_LEN;
use crate::layout::EXIT_RET_OFFSET;
use crate::notice::ExitNotice;
use crate::tables::CorrelationState;
use crate::TraceError;

verus! {

/// Isolates the syscall return value from a raw exit record. A record too
/// short for the field aborts the invocation with `TruncatedRecord`.
pub fn extract_exit(record: &[u8]) -> (r: Result<u64, TraceError>)
    ensures
        record@.len() >= EXIT_RECORD_MIN_LEN ==> (r matches Ok(v) && v == le64_at(
            record@,
            EXIT_RET_OFFSET as int,
        )),
        record@.len() < EXIT_RECORD_MIN_LEN ==> r == Err::<u64, TraceError>(
            TraceError::TruncatedRecord,
        ),
{
    if record.len() < EXIT_RECORD_MIN_LEN {
        return Err(TraceError::TruncatedRecord);
    }
    Ok(read_u64_at(record, EXIT_RET_OFFSET))
}

/// The whole exit path: reads the return value, retires the calling
/// process's in-flight correlation from both tables, and emits the
/// completion notice.
///
/// `NoMatchingEntry` is expected in normal operation — the entry was
/// filtered out, dropped under table pressure, or already retired — and
/// leaves the state untouched.
pub fn handle_exit(state: &mut CorrelationState, record: &[u8], pid: u64) -> (r: Result<
    ExitNotice,
    TraceError,
>)
    requires
        old(state).wf(),
    ensures
        final(state).wf(),
        final(state).counter == old(state).counter,
        record@.len() < EXIT_RECORD_MIN_LEN ==> {
            &&& r == Err::<ExitNotice, TraceError>(TraceError::TruncatedRecord)
            &&& final(state).events_view() == old(state).events_view()
            &&& final(state).pids_view() == old(state).pids_view()
        },
        record@.len() >= EXIT_RECORD_MIN_LEN && !old(state).pids_view().contains_key(pid) ==> {
            &&& r == Err::<ExitNotice, TraceError>(TraceError::NoMatchingEntry)
            &&& final(state).events_view() == old(state).events_view()
            &&& final(state).pids_view() == old(state).pids_view()
        },
        record@.len() >= EXIT_RECORD_MIN_LEN && old(state).pids_view().contains_key(pid) ==> {
            let id = old(state).pids_view()[pid];
            &&& (r matches Ok(notice) && notice.event == old(state).events_view()[id]
                && notice.return_value == le64_at(record@, EXIT_RET_OFFSET as int))
            &&& final(state).events_view() == old(state).events_view().remove(id)
            &&& final(state).pids_view() == old(state).pids_view().remove(pid)
        },
        old(state).balanced() ==> final(state).balanced(),
{
    let return_value = match extract_exit(record) {
        Ok(v) => v,
        Err(e) => {
            return Err(e);
        },
    };
    match state.resolve_exit(pid) {
        Ok(event) => Ok(ExitNotice { event, return_value }),
        Err(e) => Err(e),
    }
}

} // verus!

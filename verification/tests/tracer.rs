use std::collections::HashSet;

use dm_tracer::dm_ioctl::dm_ioctl;
use dm_tracer::dm_ioctl_commands::DmIoctlCommand;
use dm_tracer::entry::complete_entry;
use dm_tracer::entry::entry_decision;
use dm_tracer::entry::extract_entry;
use dm_tracer::entry::filter_command;
use dm_tracer::event::Event;
use dm_tracer::exit::extract_exit;
use dm_tracer::exit::handle_exit;
use dm_tracer::notice::CommandSummary;
use dm_tracer::tables::CorrelationState;
use dm_tracer::TraceError;

const COMM: [u8; 16] = *b"dmsetup\0\0\0\0\0\0\0\0\0";

fn entry_record(cmd: u64, arg: u64) -> Vec<u8> {
    let mut rec = vec![0u8; 40];
    rec[24..32].copy_from_slice(&cmd.to_le_bytes());
    rec[32..40].copy_from_slice(&arg.to_le_bytes());
    rec
}

fn exit_record(ret: u64) -> Vec<u8> {
    let mut rec = vec![0u8; 24];
    rec[16..24].copy_from_slice(&ret.to_le_bytes());
    rec
}

fn empty_block() -> dm_ioctl {
    dm_ioctl::parse(&vec![0u8; 312]).expect("a full-size buffer parses")
}

fn accept_one(state: &mut CorrelationState, pid: u64) -> Result<(), TraceError> {
    let block = empty_block();
    match complete_entry(state, DmIoctlCommand::DmDevCreateCmd, pid, COMM, Some(&block)) {
        Ok(_) => Ok(()),
        Err(e) => Err(e),
    }
}

#[test]
fn scenario_accepted_device_create() {
    let mut state = CorrelationState::new();
    let rec = entry_record(0x0000fd03, 0xdead_beef);
    let plan = entry_decision(&rec).expect("subsystem and command both match");
    assert_eq!(plan.command, DmIoctlCommand::DmDevCreateCmd);
    assert_eq!(plan.arg_ptr, 0xdead_beef);

    let block = empty_block();
    let notice = complete_entry(&mut state, plan.command, 42, COMM, Some(&block))
        .expect("tables have room");
    assert_eq!(notice.event.id, 1);
    assert_eq!(notice.event.pid, 42);
    assert_eq!(notice.event.comm, COMM);
    assert_eq!(notice.event.cmd, DmIoctlCommand::DmDevCreateCmd);
    assert_eq!(notice.summary, CommandSummary::Device);
    assert_eq!(state.events.len(), 1);
    assert_eq!(state.pid_index.len(), 1);
}

#[test]
fn scenario_foreign_subsystem_rejected() {
    let rec = entry_record(0x0000_10aa, 7);
    assert_eq!(entry_decision(&rec).unwrap_err(), TraceError::SubsystemMismatch);
}

#[test]
fn scenario_exit_completes_correlation() {
    let mut state = CorrelationState::new();
    let rec = entry_record(0x0000fd03, 0);
    let plan = entry_decision(&rec).unwrap();
    let block = empty_block();
    complete_entry(&mut state, plan.command, 42, COMM, Some(&block)).unwrap();

    let notice = handle_exit(&mut state, &exit_record(0), 42).expect("a matching entry exists");
    assert_eq!(notice.return_value, 0);
    assert_eq!(notice.event.id, 1);
    assert_eq!(notice.event.pid, 42);
    assert_eq!(notice.event.cmd, DmIoctlCommand::DmDevCreateCmd);
    assert_eq!(state.events.len(), 0);
    assert_eq!(state.pid_index.len(), 0);
}

#[test]
fn scenario_table_at_capacity_drops_entry() {
    let mut state = CorrelationState::new();
    for pid in 0..1024u64 {
        accept_one(&mut state, pid).expect("below capacity");
    }
    assert_eq!(state.events.len(), 1024);
    assert_eq!(state.pid_index.len(), 1024);

    assert_eq!(accept_one(&mut state, 5000).unwrap_err(), TraceError::TableFull);
    assert_eq!(state.events.len(), 1024);
    assert_eq!(state.pid_index.len(), 1024);
}

#[test]
fn scenario_truncated_records() {
    assert_eq!(entry_decision(&vec![0u8; 39]).unwrap_err(), TraceError::TruncatedRecord);
    assert_eq!(extract_entry(&vec![0u8; 39]).unwrap_err(), TraceError::TruncatedRecord);
    assert_eq!(extract_exit(&vec![0u8; 23]).unwrap_err(), TraceError::TruncatedRecord);

    let mut state = CorrelationState::new();
    accept_one(&mut state, 42).unwrap();
    let r = handle_exit(&mut state, &vec![0u8; 23], 42);
    assert_eq!(r.unwrap_err(), TraceError::TruncatedRecord);
    assert_eq!(state.events.len(), 1);
    assert_eq!(state.pid_index.len(), 1);
}

#[test]
fn exit_without_entry_is_a_local_miss() {
    let mut state = CorrelationState::new();
    let r = handle_exit(&mut state, &exit_record(0), 42);
    assert_eq!(r.unwrap_err(), TraceError::NoMatchingEntry);
    assert_eq!(state.events.len(), 0);
    assert_eq!(state.pid_index.len(), 0);

    accept_one(&mut state, 1).unwrap();
    let r = handle_exit(&mut state, &exit_record(0), 2);
    assert_eq!(r.unwrap_err(), TraceError::NoMatchingEntry);
    assert_eq!(state.events.len(), 1);
}

#[test]
fn paired_entries_and_exits_drain_the_tables() {
    let mut state = CorrelationState::new();
    accept_one(&mut state, 10).unwrap();
    accept_one(&mut state, 20).unwrap();
    accept_one(&mut state, 30).unwrap();
    assert_eq!(state.events.len(), 3);

    handle_exit(&mut state, &exit_record(0), 20).unwrap();
    handle_exit(&mut state, &exit_record(1), 10).unwrap();
    handle_exit(&mut state, &exit_record(2), 30).unwrap();
    assert_eq!(state.events.len(), 0);
    assert_eq!(state.pid_index.len(), 0);
}

#[test]
fn issued_ids_are_distinct_and_increasing() {
    let mut state = CorrelationState::new();
    let mut seen = HashSet::new();
    let mut last = 0u64;
    for _ in 0..100 {
        let id = state.issue();
        assert!(id > last);
        assert!(seen.insert(id));
        last = id;
    }
    assert_eq!(seen.len(), 100);
}

#[test]
fn issue_wraps_at_the_boundary() {
    let mut state = CorrelationState::new();
    state.counter = u64::MAX;
    assert_eq!(state.issue(), 0);
}

#[test]
fn unrecognized_command_in_matching_subsystem() {
    assert_eq!(filter_command(0x0000_fd12).unwrap_err(), TraceError::UnrecognizedCommand);
    assert_eq!(entry_decision(&entry_record(0x0000_fd2a, 0)).unwrap_err(),
        TraceError::UnrecognizedCommand);
}

#[test]
fn filter_decodes_both_packed_fields() {
    assert_eq!(filter_command(0x0000_fd00).unwrap(), DmIoctlCommand::DmVersionCmd);
    assert_eq!(filter_command(0x0000_fd11).unwrap(), DmIoctlCommand::DmDevGetTargetVersionCmd);
    // bytes above the low two do not take part in the decode
    assert_eq!(filter_command(0xabcd_0000_fd05).unwrap(), DmIoctlCommand::DmDevRenameCmd);
    assert_eq!(filter_command(0x0000_fc03).unwrap_err(), TraceError::SubsystemMismatch);
    assert_eq!(filter_command(0).unwrap_err(), TraceError::SubsystemMismatch);
}

#[test]
fn user_read_fault_abandons_the_invocation() {
    let mut state = CorrelationState::new();
    let r = complete_entry(&mut state, DmIoctlCommand::DmVersionCmd, 42, COMM, None);
    assert_eq!(r.unwrap_err(), TraceError::UserReadFault);
    assert_eq!(state.counter, 0);
    assert_eq!(state.events.len(), 0);
    assert_eq!(state.pid_index.len(), 0);
}

#[test]
fn entry_extraction_is_little_endian() {
    let mut rec = vec![0u8; 40];
    rec[24..32].copy_from_slice(&[1, 2, 3, 4, 5, 6, 7, 8]);
    rec[32..40].copy_from_slice(&[9, 0, 0, 0, 0, 0, 0, 0]);
    let (cmd, arg) = extract_entry(&rec).unwrap();
    assert_eq!(cmd, 0x0807_0605_0403_0201);
    assert_eq!(arg, 9);
}

#[test]
fn exit_extraction_is_little_endian() {
    let ret = extract_exit(&exit_record(0xffff_ffff_ffff_fff4)).unwrap();
    assert_eq!(ret, 0xffff_ffff_ffff_fff4);
}

#[test]
fn event_new_keeps_its_fields() {
    let e = Event::new(7, 99, COMM, DmIoctlCommand::DmTableLoadCmd);
    assert_eq!(e.id, 7);
    assert_eq!(e.pid, 99);
    assert_eq!(e.comm, COMM);
    assert_eq!(e.cmd, DmIoctlCommand::DmTableLoadCmd);
}

#[test]
fn command_classification_is_total_on_the_known_range() {
    for value in 0..=17u32 {
        assert!(DmIoctlCommand::from_u32(value).is_some());
    }
    assert_eq!(DmIoctlCommand::from_u32(0), Some(DmIoctlCommand::DmVersionCmd));
    assert_eq!(DmIoctlCommand::from_u32(3), Some(DmIoctlCommand::DmDevCreateCmd));
    assert_eq!(DmIoctlCommand::from_u32(17), Some(DmIoctlCommand::DmDevGetTargetVersionCmd));
    assert_eq!(DmIoctlCommand::from_u32(18), None);
    assert_eq!(DmIoctlCommand::from_u32(u32::MAX), None);
}

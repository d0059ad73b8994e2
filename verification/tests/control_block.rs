use dm_tracer::dm_ioctl::dm_ioctl;
use dm_tracer::dm_ioctl_commands::DmIoctlCommand;
use dm_tracer::notice::summarize;
use dm_tracer::notice::CommandSummary;
use dm_tracer::TraceError;

fn block_bytes() -> Vec<u8> {
    let mut bytes = vec![0u8; 312];
    bytes[0..4].copy_from_slice(&4u32.to_le_bytes()); // version major
    bytes[4..8].copy_from_slice(&48u32.to_le_bytes()); // version minor
    bytes[8..12].copy_from_slice(&1u32.to_le_bytes()); // version patch
    bytes[12..16].copy_from_slice(&16384u32.to_le_bytes()); // data_size
    bytes[16..20].copy_from_slice(&312u32.to_le_bytes()); // data_start
    bytes[20..24].copy_from_slice(&2u32.to_le_bytes()); // target_count
    bytes[24..28].copy_from_slice(&(-1i32).to_le_bytes()); // open_count
    bytes[28..32].copy_from_slice(&0x2000u32.to_le_bytes()); // flags
    bytes[32..36].copy_from_slice(&5u32.to_le_bytes()); // event_nr
    bytes[40..48].copy_from_slice(&0x0000_00fd_0001_0002u64.to_le_bytes()); // dev
    bytes[48] = b'v';
    bytes[49] = b'g';
    bytes[50] = 0x80; // a byte above 127 reads back as a negative char
    bytes[176] = b'u';
    bytes[304] = 0xff; // last uuid byte
    bytes[305] = b'x'; // first data byte
    bytes[311] = b'z'; // last data byte
    bytes
}

#[test]
fn parse_reads_every_field_at_its_fixed_offset() {
    let block = dm_ioctl::parse(&block_bytes()).expect("full-size buffer");
    assert_eq!(block.version, [4, 48, 1]);
    assert_eq!(block.data_size, 16384);
    assert_eq!(block.data_start, 312);
    assert_eq!(block.target_count, 2);
    assert_eq!(block.open_count, -1);
    assert_eq!(block.flags, 0x2000);
    assert_eq!(block.event_nr, 5);
    assert_eq!(block.padding, 0);
    assert_eq!(block.dev, 0x0000_00fd_0001_0002);
    assert_eq!(block.name[0], b'v' as i8);
    assert_eq!(block.name[1], b'g' as i8);
    assert_eq!(block.name[2], -128);
    assert_eq!(block.name[127], 0);
    assert_eq!(block.uuid[0], b'u' as i8);
    assert_eq!(block.uuid[128], -1);
    assert_eq!(block.data[0], b'x' as i8);
    assert_eq!(block.data[6], b'z' as i8);
}

#[test]
fn parse_rejects_a_short_copy() {
    assert_eq!(dm_ioctl::parse(&vec![0u8; 311]).unwrap_err(), TraceError::UserReadFault);
    assert_eq!(dm_ioctl::parse(&[]).unwrap_err(), TraceError::UserReadFault);
    assert!(dm_ioctl::parse(&vec![0u8; 400]).is_ok());
}

#[test]
fn summaries_follow_the_command_tag() {
    let block = dm_ioctl::parse(&block_bytes()).unwrap();
    assert_eq!(
        summarize(DmIoctlCommand::DmVersionCmd, &block),
        CommandSummary::Version(4)
    );
    assert_eq!(summarize(DmIoctlCommand::DmTableLoadCmd, &block), CommandSummary::Table);
    assert_eq!(summarize(DmIoctlCommand::DmTableStatusCmd, &block), CommandSummary::Table);
    assert_eq!(
        summarize(DmIoctlCommand::DmTargetMsgCmd, &block),
        CommandSummary::TargetMessage
    );
    assert_eq!(summarize(DmIoctlCommand::DmTableDepsCmd, &block), CommandSummary::TableDeps);
    assert_eq!(summarize(DmIoctlCommand::DmDevCreateCmd, &block), CommandSummary::Device);
    assert_eq!(summarize(DmIoctlCommand::DmDevRemoveCmd, &block), CommandSummary::Device);
    assert_eq!(
        summarize(DmIoctlCommand::DmListDevicesCmd, &block),
        CommandSummary::ListDevices
    );
    assert_eq!(summarize(DmIoctlCommand::DmDevWaitCmd, &block), CommandSummary::Generic);
    assert_eq!(summarize(DmIoctlCommand::DmRemoveAllCmd, &block), CommandSummary::Generic);
}

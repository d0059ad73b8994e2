//! The closed enumeration of device-mapper control commands.
//!
//! The numeric codes 0 through 17 are fixed by the subsystem's public binary
//! interface; any other raw command number is not a member and never produces
//! a tag.

use vstd::prelude::*;

verus! {

/// The 18 known device-mapper control operations, numbered 0 through 17.
#[derive(Debug, Clone, Copy, PartialEq)]
pub enum DmIoctlCommand {
    DmVersionCmd,
    DmRemoveAllCmd,
    DmListDevicesCmd,
    DmDevCreateCmd,
    DmDevRemoveCmd,
    DmDevRenameCmd,
    DmDevSuspendCmd,
    DmDevStatusCmd,
    DmDevWaitCmd,
    DmTableLoadCmd,
    DmTableClearCmd,
    DmTableDepsCmd,
    DmTableStatusCmd,
    DmListVersionsCmd,
    DmTargetMsgCmd,
    DmDevSetGeometryCmd,
    DmDevArmPollCmd,
    DmDevGetTargetVersionCmd,
}

/// The numeric code of each command tag, as the subsystem's interface fixes it.
pub open spec fn command_code(cmd: DmIoctlCommand) -> u32 {
    match cmd {
        DmIoctlCommand::DmVersionCmd => 0,
        DmIoctlCommand::DmRemoveAllCmd => 1,
        DmIoctlCommand::DmListDevicesCmd => 2,
        DmIoctlCommand::DmDevCreateCmd => 3,
        DmIoctlCommand::DmDevRemoveCmd => 4,
        DmIoctlCommand::DmDevRenameCmd => 5,
        DmIoctlCommand::DmDevSuspendCmd => 6,
        DmIoctlCommand::DmDevStatusCmd => 7,
        DmIoctlCommand::DmDevWaitCmd => 8,
        DmIoctlCommand::DmTableLoadCmd => 9,
        DmIoctlCommand::DmTableClearCmd => 10,
        DmIoctlCommand::DmTableDepsCmd => 11,
        DmIoctlCommand::DmTableStatusCmd => 12,
        DmIoctlCommand::DmListVersionsCmd => 13,
        DmIoctlCommand::DmTargetMsgCmd => 14,
        DmIoctlCommand::DmDevSetGeometryCmd => 15,
        DmIoctlCommand::DmDevArmPollCmd => 16,
        DmIoctlCommand::DmDevGetTargetVersionCmd => 17,
    }
}

impl DmIoctlCommand {
    /// Classifies a raw command number: every value in [0, 17] maps to the
    /// tag with that code, and no other value produces a tag.
    pub fn from_u32(value: u32) -> (r: Option<DmIoctlCommand>)
        ensures
            value <= 17 ==> (r matches Some(cmd) && command_code(cmd) == value),
            value > 17 ==> r is None,
    {
        match value {
            0 => Some(DmIoctlCommand::DmVersionCmd),
            1 => Some(DmIoctlCommand::DmRemoveAllCmd),
            2 => Some(DmIoctlCommand::DmListDevicesCmd),
            3 => Some(DmIoctlCommand::DmDevCreateCmd),
            4 => Some(DmIoctlCommand::DmDevRemoveCmd),
            5 => Some(DmIoctlCommand::DmDevRenameCmd),
            6 => Some(DmIoctlCommand::DmDevSuspendCmd),
            7 => Some(DmIoctlCommand::DmDevStatusCmd),
            8 => Some(DmIoctlCommand::DmDevWaitCmd),
            9 => Some(DmIoctlCommand::DmTableLoadCmd),
            10 => Some(DmIoctlCommand::DmTableClearCmd),
            11 => Some(DmIoctlCommand::DmTableDepsCmd),
            12 => Some(DmIoctlCommand::DmTableStatusCmd),
            13 => Some(DmIoctlCommand::DmListVersionsCmd),
            14 => Some(DmIoctlCommand::DmTargetMsgCmd),
            15 => Some(DmIoctlCommand::DmDevSetGeometryCmd),
            16 => Some(DmIoctlCommand::DmDevArmPollCmd),
            17 => Some(DmIoctlCommand::DmDevGetTargetVersionCmd),
            _ => None,
        }
    }
}

} // verus!

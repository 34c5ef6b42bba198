//! The devlink family: its closed command set and its message payload.

use vstd::prelude::*;
use crate::constants::{
    DEVLINK_CMD_GET,
    DEVLINK_CMD_SET,
    DEVLINK_CMD_NEW,
    DEVLINK_CMD_DEL,
    DEVLINK_CMD_PORT_GET,
    DEVLINK_CMD_PORT_SET,
    DEVLINK_CMD_PORT_NEW,
    DEVLINK_CMD_PORT_DEL,
    DEVLINK_CMD_PORT_SPLIT,
    DEVLINK_CMD_PORT_UNSPLIT,
    DEVLINK_CMD_SB_GET,
    DEVLINK_CMD_SB_SET,
    DEVLINK_CMD_SB_NEW,
    DEVLINK_CMD_SB_DEL,
    DEVLINK_CMD_SB_POOL_GET,
    DEVLINK_CMD_SB_POOL_SET,
    DEVLINK_CMD_SB_POOL_NEW,
    DEVLINK_CMD_SB_POOL_DEL,
    DEVLINK_CMD_SB_PORT_POOL_GET,
    DEVLINK_CMD_SB_PORT_POOL_SET,
    DEVLINK_CMD_SB_PORT_POOL_NEW,
    DEVLINK_CMD_SB_PORT_POOL_DEL,
    DEVLINK_CMD_SB_TC_POOL_BIND_GET,
    DEVLINK_CMD_SB_TC_POOL_BIND_SET,
    DEVLINK_CMD_SB_TC_POOL_BIND_NEW,
    DEVLINK_CMD_SB_TC_POOL_BIND_DEL,
    DEVLINK_CMD_SB_OCC_SNAPSHOT,
    DEVLINK_CMD_SB_OCC_MAX_CLEAR,
    DEVLINK_CMD_ESWITCH_GET,
    DEVLINK_CMD_ESWITCH_SET,
    DEVLINK_CMD_DPIPE_TABLE_GET,
    DEVLINK_CMD_DPIPE_ENTRIES_GET,
    DEVLINK_CMD_DPIPE_HEADERS_GET,
    DEVLINK_CMD_DPIPE_TABLE_COUNTERS_SET,
    DEVLINK_CMD_RESOURCE_SET,
    DEVLINK_CMD_RESOURCE_DUMP,
    DEVLINK_CMD_RELOAD,
    DEVLINK_CMD_PARAM_GET,
    DEVLINK_CMD_PARAM_SET,
    DEVLINK_CMD_PARAM_NEW,
    DEVLINK_CMD_PARAM_DEL,
    DEVLINK_CMD_REGION_GET,
    DEVLINK_CMD_REGION_SET,
    DEVLINK_CMD_REGION_NEW,
    DEVLINK_CMD_REGION_DEL,
    DEVLINK_CMD_REGION_READ,
    DEVLINK_CMD_PORT_PARAM_GET,
    DEVLINK_CMD_PORT_PARAM_SET,
    DEVLINK_CMD_PORT_PARAM_NEW,
    DEVLINK_CMD_PORT_PARAM_DEL,
    DEVLINK_CMD_INFO_GET,
    DEVLINK_CMD_HEALTH_REPORTER_GET,
    DEVLINK_CMD_HEALTH_REPORTER_SET,
    DEVLINK_CMD_HEALTH_REPORTER_RECOVER,
    DEVLINK_CMD_HEALTH_REPORTER_DIAGNOSE,
    DEVLINK_CMD_HEALTH_REPORTER_DUMP_GET,
    DEVLINK_CMD_HEALTH_REPORTER_DUMP_CLEAR,
    DEVLINK_CMD_FLASH_UPDATE,
    DEVLINK_CMD_FLASH_UPDATE_END,
    DEVLINK_CMD_FLASH_UPDATE_STATUS,
    DEVLINK_CMD_TRAP_GET,
    DEVLINK_CMD_TRAP_SET,
    DEVLINK_CMD_TRAP_NEW,
    DEVLINK_CMD_TRAP_DEL,
    DEVLINK_CMD_TRAP_GROUP_GET,
    DEVLINK_CMD_TRAP_GROUP_SET,
    DEVLINK_CMD_TRAP_GROUP_NEW,
    DEVLINK_CMD_TRAP_GROUP_DEL,
    DEVLINK_CMD_TRAP_POLICER_GET,
    DEVLINK_CMD_TRAP_POLICER_SET,
    DEVLINK_CMD_TRAP_POLICER_NEW,
    DEVLINK_CMD_TRAP_POLICER_DEL,
    DEVLINK_CMD_HEALTH_REPORTER_TEST,
    DEVLINK_CMD_RATE_GET,
    DEVLINK_CMD_RATE_SET,
    DEVLINK_CMD_RATE_NEW,
    DEVLINK_CMD_RATE_DEL,
    GENL_ID_DEVLINK,
};
use crate::devlink::nldev::{
    parse_devlink_stream, spec_parse_devlink_stream, DevlinkAttrV, GenlDevlinkAttrs,
    DEVLINK_NEST_LIMIT,
};
use crate::err::{ErrorKind, NlError};
use crate::genl::GenlHeader;

verus! {

/// The closed command set of the devlink family.
#[derive(Clone, Copy, Debug, PartialEq, Eq, Structural)]
pub enum GenlDevlinkCmd {
    GetDevices,
    SetDevice,
    NewDevice,
    DeleteDevice,
    GetPort,
    SetPort,
    NewPort,
    DeletePort,
    SplitPort,
    UnsplitPort,
    GetSb,
    SetSb,
    NewSb,
    DeleteSb,
    GetSbPool,
    SetSbPool,
    NewSbPool,
    DeleteSbPool,
    GetSbPortPool,
    SetSbPortPool,
    NewSbPortPool,
    DeleteSbPortPool,
    GetSbTcPoolBind,
    SetSbTcPoolBind,
    NewSbTcPoolBind,
    DeleteSbTcPoolBind,
    SbOccSnapshot,
    SbOccMaxClear,
    GetEswitch,
    SetEswitch,
    GetDpipeTable,
    GetDpipeEntries,
    GetDpipeHeaders,
    SetDpipeTableCounters,
    SetResource,
    DumpResource,
    Reload,
    GetParams,
    SetParams,
    NewParam,
    DeleteParam,
    GetRegion,
    SetRegion,
    CreatRegion,
    DeleteRegion,
    ReadRegion,
    GetPortParam,
    SetPortParam,
    NewPortParam,
    DeletePortParam,
    GetDeviceInfo,
    GetHealthReport,
    SetHealthReport,
    RecoverHealthReport,
    DaignoseHealthReport,
    GetHealthReportDump,
    ClearHealthReportDump,
    UpdateFlash,
    FlashUdpateEnd,
    FlashUdpateStatus,
    GetTrap,
    SetTrap,
    NewTrap,
    DeleteTrap,
    GetTrapGroup,
    SetTrapGroup,
    NewTrapGroup,
    DeleteTrapGroup,
    GetTrapPolicer,
    SetTrapPolicer,
    NewTrapPolicer,
    DeleteTrapPolicer,
    TestHealthReport,
    GetRate,
    SetRate,
    NewRate,
    DeleteRate,
}

/// The command byte each variant stands for.
pub open spec fn spec_devlink_cmd_byte(cmd: GenlDevlinkCmd) -> u8 {
    match cmd {
        GenlDevlinkCmd::GetDevices => DEVLINK_CMD_GET,
        GenlDevlinkCmd::SetDevice => DEVLINK_CMD_SET,
        GenlDevlinkCmd::NewDevice => DEVLINK_CMD_NEW,
        GenlDevlinkCmd::DeleteDevice => DEVLINK_CMD_DEL,
        GenlDevlinkCmd::GetPort => DEVLINK_CMD_PORT_GET,
        GenlDevlinkCmd::SetPort => DEVLINK_CMD_PORT_SET,
        GenlDevlinkCmd::NewPort => DEVLINK_CMD_PORT_NEW,
        GenlDevlinkCmd::DeletePort => DEVLINK_CMD_PORT_DEL,
        GenlDevlinkCmd::SplitPort => DEVLINK_CMD_PORT_SPLIT,
        GenlDevlinkCmd::UnsplitPort => DEVLINK_CMD_PORT_UNSPLIT,
        GenlDevlinkCmd::GetSb => DEVLINK_CMD_SB_GET,
        GenlDevlinkCmd::SetSb => DEVLINK_CMD_SB_SET,
        GenlDevlinkCmd::NewSb => DEVLINK_CMD_SB_NEW,
        GenlDevlinkCmd::DeleteSb => DEVLINK_CMD_SB_DEL,
        GenlDevlinkCmd::GetSbPool => DEVLINK_CMD_SB_POOL_GET,
        GenlDevlinkCmd::SetSbPool => DEVLINK_CMD_SB_POOL_SET,
        GenlDevlinkCmd::NewSbPool => DEVLINK_CMD_SB_POOL_NEW,
        GenlDevlinkCmd::DeleteSbPool => DEVLINK_CMD_SB_POOL_DEL,
        GenlDevlinkCmd::GetSbPortPool => DEVLINK_CMD_SB_PORT_POOL_GET,
        GenlDevlinkCmd::SetSbPortPool => DEVLINK_CMD_SB_PORT_POOL_SET,
        GenlDevlinkCmd::NewSbPortPool => DEVLINK_CMD_SB_PORT_POOL_NEW,
        GenlDevlinkCmd::DeleteSbPortPool => DEVLINK_CMD_SB_PORT_POOL_DEL,
        GenlDevlinkCmd::GetSbTcPoolBind => DEVLINK_CMD_SB_TC_POOL_BIND_GET,
        GenlDevlinkCmd::SetSbTcPoolBind => DEVLINK_CMD_SB_TC_POOL_BIND_SET,
        GenlDevlinkCmd::NewSbTcPoolBind => DEVLINK_CMD_SB_TC_POOL_BIND_NEW,
        GenlDevlinkCmd::DeleteSbTcPoolBind => DEVLINK_CMD_SB_TC_POOL_BIND_DEL,
        GenlDevlinkCmd::SbOccSnapshot => DEVLINK_CMD_SB_OCC_SNAPSHOT,
        GenlDevlinkCmd::SbOccMaxClear => DEVLINK_CMD_SB_OCC_MAX_CLEAR,
        GenlDevlinkCmd::GetEswitch => DEVLINK_CMD_ESWITCH_GET,
        GenlDevlinkCmd::SetEswitch => DEVLINK_CMD_ESWITCH_SET,
        GenlDevlinkCmd::GetDpipeTable => DEVLINK_CMD_DPIPE_TABLE_GET,
        GenlDevlinkCmd::GetDpipeEntries => DEVLINK_CMD_DPIPE_ENTRIES_GET,
        GenlDevlinkCmd::GetDpipeHeaders => DEVLINK_CMD_DPIPE_HEADERS_GET,
        GenlDevlinkCmd::SetDpipeTableCounters => DEVLINK_CMD_DPIPE_TABLE_COUNTERS_SET,
        GenlDevlinkCmd::SetResource => DEVLINK_CMD_RESOURCE_SET,
        GenlDevlinkCmd::DumpResource => DEVLINK_CMD_RESOURCE_DUMP,
        GenlDevlinkCmd::Reload => DEVLINK_CMD_RELOAD,
        GenlDevlinkCmd::GetParams => DEVLINK_CMD_PARAM_GET,
        GenlDevlinkCmd::SetParams => DEVLINK_CMD_PARAM_SET,
        GenlDevlinkCmd::NewParam => DEVLINK_CMD_PARAM_NEW,
        GenlDevlinkCmd::DeleteParam => DEVLINK_CMD_PARAM_DEL,
        GenlDevlinkCmd::GetRegion => DEVLINK_CMD_REGION_GET,
        GenlDevlinkCmd::SetRegion => DEVLINK_CMD_REGION_SET,
        GenlDevlinkCmd::CreatRegion => DEVLINK_CMD_REGION_NEW,
        GenlDevlinkCmd::DeleteRegion => DEVLINK_CMD_REGION_DEL,
        GenlDevlinkCmd::ReadRegion => DEVLINK_CMD_REGION_READ,
        GenlDevlinkCmd::GetPortParam => DEVLINK_CMD_PORT_PARAM_GET,
        GenlDevlinkCmd::SetPortParam => DEVLINK_CMD_PORT_PARAM_SET,
        GenlDevlinkCmd::NewPortParam => DEVLINK_CMD_PORT_PARAM_NEW,
        GenlDevlinkCmd::DeletePortParam => DEVLINK_CMD_PORT_PARAM_DEL,
        GenlDevlinkCmd::GetDeviceInfo => DEVLINK_CMD_INFO_GET,
        GenlDevlinkCmd::GetHealthReport => DEVLINK_CMD_HEALTH_REPORTER_GET,
        GenlDevlinkCmd::SetHealthReport => DEVLINK_CMD_HEALTH_REPORTER_SET,
        GenlDevlinkCmd::RecoverHealthReport => DEVLINK_CMD_HEALTH_REPORTER_RECOVER,
        GenlDevlinkCmd::DaignoseHealthReport => DEVLINK_CMD_HEALTH_REPORTER_DIAGNOSE,
        GenlDevlinkCmd::GetHealthReportDump => DEVLINK_CMD_HEALTH_REPORTER_DUMP_GET,
        GenlDevlinkCmd::ClearHealthReportDump => DEVLINK_CMD_HEALTH_REPORTER_DUMP_CLEAR,
        GenlDevlinkCmd::UpdateFlash => DEVLINK_CMD_FLASH_UPDATE,
        GenlDevlinkCmd::FlashUdpateEnd => DEVLINK_CMD_FLASH_UPDATE_END,
        GenlDevlinkCmd::FlashUdpateStatus => DEVLINK_CMD_FLASH_UPDATE_STATUS,
        GenlDevlinkCmd::GetTrap => DEVLINK_CMD_TRAP_GET,
        GenlDevlinkCmd::SetTrap => DEVLINK_CMD_TRAP_SET,
        GenlDevlinkCmd::NewTrap => DEVLINK_CMD_TRAP_NEW,
        GenlDevlinkCmd::DeleteTrap => DEVLINK_CMD_TRAP_DEL,
        GenlDevlinkCmd::GetTrapGroup => DEVLINK_CMD_TRAP_GROUP_GET,
        GenlDevlinkCmd::SetTrapGroup => DEVLINK_CMD_TRAP_GROUP_SET,
        GenlDevlinkCmd::NewTrapGroup => DEVLINK_CMD_TRAP_GROUP_NEW,
        GenlDevlinkCmd::DeleteTrapGroup => DEVLINK_CMD_TRAP_GROUP_DEL,
        GenlDevlinkCmd::GetTrapPolicer => DEVLINK_CMD_TRAP_POLICER_GET,
        GenlDevlinkCmd::SetTrapPolicer => DEVLINK_CMD_TRAP_POLICER_SET,
        GenlDevlinkCmd::NewTrapPolicer => DEVLINK_CMD_TRAP_POLICER_NEW,
        GenlDevlinkCmd::DeleteTrapPolicer => DEVLINK_CMD_TRAP_POLICER_DEL,
        GenlDevlinkCmd::TestHealthReport => DEVLINK_CMD_HEALTH_REPORTER_TEST,
        GenlDevlinkCmd::GetRate => DEVLINK_CMD_RATE_GET,
        GenlDevlinkCmd::SetRate => DEVLINK_CMD_RATE_SET,
        GenlDevlinkCmd::NewRate => DEVLINK_CMD_RATE_NEW,
        GenlDevlinkCmd::DeleteRate => DEVLINK_CMD_RATE_DEL,
    }
}

/// The variant a command byte decodes to; a byte outside the closed set is
/// `UnknownCommand`, never silently defaulted.
pub open spec fn spec_devlink_cmd_from(b: u8) -> Result<GenlDevlinkCmd, ErrorKind> {
    if b == DEVLINK_CMD_GET {
        Ok(GenlDevlinkCmd::GetDevices)
    } else if b == DEVLINK_CMD_SET {
        Ok(GenlDevlinkCmd::SetDevice)
    } else if b == DEVLINK_CMD_NEW {
        Ok(GenlDevlinkCmd::NewDevice)
    } else if b == DEVLINK_CMD_DEL {
        Ok(GenlDevlinkCmd::DeleteDevice)
    } else if b == DEVLINK_CMD_PORT_GET {
        Ok(GenlDevlinkCmd::GetPort)
    } else if b == DEVLINK_CMD_PORT_SET {
        Ok(GenlDevlinkCmd::SetPort)
    } else if b == DEVLINK_CMD_PORT_NEW {
        Ok(GenlDevlinkCmd::NewPort)
    } else if b == DEVLINK_CMD_PORT_DEL {
        Ok(GenlDevlinkCmd::DeletePort)
    } else if b == DEVLINK_CMD_PORT_SPLIT {
        Ok(GenlDevlinkCmd::SplitPort)
    } else if b == DEVLINK_CMD_PORT_UNSPLIT {
        Ok(GenlDevlinkCmd::UnsplitPort)
    } else if b == DEVLINK_CMD_SB_GET {
        Ok(GenlDevlinkCmd::GetSb)
    } else if b == DEVLINK_CMD_SB_SET {
        Ok(GenlDevlinkCmd::SetSb)
    } else if b == DEVLINK_CMD_SB_NEW {
        Ok(GenlDevlinkCmd::NewSb)
    } else if b == DEVLINK_CMD_SB_DEL {
        Ok(GenlDevlinkCmd::DeleteSb)
    } else if b == DEVLINK_CMD_SB_POOL_GET {
        Ok(GenlDevlinkCmd::GetSbPool)
    } else if b == DEVLINK_CMD_SB_POOL_SET {
        Ok(GenlDevlinkCmd::SetSbPool)
    } else if b == DEVLINK_CMD_SB_POOL_NEW {
        Ok(GenlDevlinkCmd::NewSbPool)
    } else if b == DEVLINK_CMD_SB_POOL_DEL {
        Ok(GenlDevlinkCmd::DeleteSbPool)
    } else if b == DEVLINK_CMD_SB_PORT_POOL_GET {
        Ok(GenlDevlinkCmd::GetSbPortPool)
    } else if b == DEVLINK_CMD_SB_PORT_POOL_SET {
        Ok(GenlDevlinkCmd::SetSbPortPool)
    } else if b == DEVLINK_CMD_SB_PORT_POOL_NEW {
        Ok(GenlDevlinkCmd::NewSbPortPool)
    } else if b == DEVLINK_CMD_SB_PORT_POOL_DEL {
        Ok(GenlDevlinkCmd::DeleteSbPortPool)
    } else if b == DEVLINK_CMD_SB_TC_POOL_BIND_GET {
        Ok(GenlDevlinkCmd::GetSbTcPoolBind)
    } else if b == DEVLINK_CMD_SB_TC_POOL_BIND_SET {
        Ok(GenlDevlinkCmd::SetSbTcPoolBind)
    } else if b == DEVLINK_CMD_SB_TC_POOL_BIND_NEW {
        Ok(GenlDevlinkCmd::NewSbTcPoolBind)
    } else if b == DEVLINK_CMD_SB_TC_POOL_BIND_DEL {
        Ok(GenlDevlinkCmd::DeleteSbTcPoolBind)
    } else if b == DEVLINK_CMD_SB_OCC_SNAPSHOT {
        Ok(GenlDevlinkCmd::SbOccSnapshot)
    } else if b == DEVLINK_CMD_SB_OCC_MAX_CLEAR {
        Ok(GenlDevlinkCmd::SbOccMaxClear)
    } else if b == DEVLINK_CMD_ESWITCH_GET {
        Ok(GenlDevlinkCmd::GetEswitch)
    } else if b == DEVLINK_CMD_ESWITCH_SET {
        Ok(GenlDevlinkCmd::SetEswitch)
    } else if b == DEVLINK_CMD_DPIPE_TABLE_GET {
        Ok(GenlDevlinkCmd::GetDpipeTable)
    } else if b == DEVLINK_CMD_DPIPE_ENTRIES_GET {
        Ok(GenlDevlinkCmd::GetDpipeEntries)
    } else if b == DEVLINK_CMD_DPIPE_HEADERS_GET {
        Ok(GenlDevlinkCmd::GetDpipeHeaders)
    } else if b == DEVLINK_CMD_DPIPE_TABLE_COUNTERS_SET {
        Ok(GenlDevlinkCmd::SetDpipeTableCounters)
    } else if b == DEVLINK_CMD_RESOURCE_SET {
        Ok(GenlDevlinkCmd::SetResource)
    } else if b == DEVLINK_CMD_RESOURCE_DUMP {
        Ok(GenlDevlinkCmd::DumpResource)
    } else if b == DEVLINK_CMD_RELOAD {
        Ok(GenlDevlinkCmd::Reload)
    } else if b == DEVLINK_CMD_PARAM_GET {
        Ok(GenlDevlinkCmd::GetParams)
    } else if b == DEVLINK_CMD_PARAM_SET {
        Ok(GenlDevlinkCmd::SetParams)
    } else if b == DEVLINK_CMD_PARAM_NEW {
        Ok(GenlDevlinkCmd::NewParam)
    } else if b == DEVLINK_CMD_PARAM_DEL {
        Ok(GenlDevlinkCmd::DeleteParam)
    } else if b == DEVLINK_CMD_REGION_GET {
        Ok(GenlDevlinkCmd::GetRegion)
    } else if b == DEVLINK_CMD_REGION_SET {
        Ok(GenlDevlinkCmd::SetRegion)
    } else if b == DEVLINK_CMD_REGION_NEW {
        Ok(GenlDevlinkCmd::CreatRegion)
    } else if b == DEVLINK_CMD_REGION_DEL {
        Ok(GenlDevlinkCmd::DeleteRegion)
    } else if b == DEVLINK_CMD_REGION_READ {
        Ok(GenlDevlinkCmd::ReadRegion)
    } else if b == DEVLINK_CMD_PORT_PARAM_GET {
        Ok(GenlDevlinkCmd::GetPortParam)
    } else if b == DEVLINK_CMD_PORT_PARAM_SET {
        Ok(GenlDevlinkCmd::SetPortParam)
    } else if b == DEVLINK_CMD_PORT_PARAM_NEW {
        Ok(GenlDevlinkCmd::NewPortParam)
    } else if b == DEVLINK_CMD_PORT_PARAM_DEL {
        Ok(GenlDevlinkCmd::DeletePortParam)
    } else if b == DEVLINK_CMD_INFO_GET {
        Ok(GenlDevlinkCmd::GetDeviceInfo)
    } else if b == DEVLINK_CMD_HEALTH_REPORTER_GET {
        Ok(GenlDevlinkCmd::GetHealthReport)
    } else if b == DEVLINK_CMD_HEALTH_REPORTER_SET {
        Ok(GenlDevlinkCmd::SetHealthReport)
    } else if b == DEVLINK_CMD_HEALTH_REPORTER_RECOVER {
        Ok(GenlDevlinkCmd::RecoverHealthReport)
    } else if b == DEVLINK_CMD_HEALTH_REPORTER_DIAGNOSE {
        Ok(GenlDevlinkCmd::DaignoseHealthReport)
    } else if b == DEVLINK_CMD_HEALTH_REPORTER_DUMP_GET {
        Ok(GenlDevlinkCmd::GetHealthReportDump)
    } else if b == DEVLINK_CMD_HEALTH_REPORTER_DUMP_CLEAR {
        Ok(GenlDevlinkCmd::ClearHealthReportDump)
    } else if b == DEVLINK_CMD_FLASH_UPDATE {
        Ok(GenlDevlinkCmd::UpdateFlash)
    } else if b == DEVLINK_CMD_FLASH_UPDATE_END {
        Ok(GenlDevlinkCmd::FlashUdpateEnd)
    } else if b == DEVLINK_CMD_FLASH_UPDATE_STATUS {
        Ok(GenlDevlinkCmd::FlashUdpateStatus)
    } else if b == DEVLINK_CMD_TRAP_GET {
        Ok(GenlDevlinkCmd::GetTrap)
    } else if b == DEVLINK_CMD_TRAP_SET {
        Ok(GenlDevlinkCmd::SetTrap)
    } else if b == DEVLINK_CMD_TRAP_NEW {
        Ok(GenlDevlinkCmd::NewTrap)
    } else if b == DEVLINK_CMD_TRAP_DEL {
        Ok(GenlDevlinkCmd::DeleteTrap)
    } else if b == DEVLINK_CMD_TRAP_GROUP_GET {
        Ok(GenlDevlinkCmd::GetTrapGroup)
    } else if b == DEVLINK_CMD_TRAP_GROUP_SET {
        Ok(GenlDevlinkCmd::SetTrapGroup)
    } else if b == DEVLINK_CMD_TRAP_GROUP_NEW {
        Ok(GenlDevlinkCmd::NewTrapGroup)
    } else if b == DEVLINK_CMD_TRAP_GROUP_DEL {
        Ok(GenlDevlinkCmd::DeleteTrapGroup)
    } else if b == DEVLINK_CMD_TRAP_POLICER_GET {
        Ok(GenlDevlinkCmd::GetTrapPolicer)
    } else if b == DEVLINK_CMD_TRAP_POLICER_SET {
        Ok(GenlDevlinkCmd::SetTrapPolicer)
    } else if b == DEVLINK_CMD_TRAP_POLICER_NEW {
        Ok(GenlDevlinkCmd::NewTrapPolicer)
    } else if b == DEVLINK_CMD_TRAP_POLICER_DEL {
        Ok(GenlDevlinkCmd::DeleteTrapPolicer)
    } else if b == DEVLINK_CMD_HEALTH_REPORTER_TEST {
        Ok(GenlDevlinkCmd::TestHealthReport)
    } else if b == DEVLINK_CMD_RATE_GET {
        Ok(GenlDevlinkCmd::GetRate)
    } else if b == DEVLINK_CMD_RATE_SET {
        Ok(GenlDevlinkCmd::SetRate)
    } else if b == DEVLINK_CMD_RATE_NEW {
        Ok(GenlDevlinkCmd::NewRate)
    } else if b == DEVLINK_CMD_RATE_DEL {
        Ok(GenlDevlinkCmd::DeleteRate)
    } else {
        Err(ErrorKind::UnknownCommand(b))
    }
}

/// The commands a caller may legally combine with a dump request.
pub open spec fn spec_devlink_dump_capable(cmd: GenlDevlinkCmd) -> bool {
    match cmd {
        GenlDevlinkCmd::GetDevices => true,
        GenlDevlinkCmd::SetDevice => false,
        GenlDevlinkCmd::NewDevice => false,
        GenlDevlinkCmd::DeleteDevice => false,
        GenlDevlinkCmd::GetPort => true,
        GenlDevlinkCmd::SetPort => false,
        GenlDevlinkCmd::NewPort => false,
        GenlDevlinkCmd::DeletePort => false,
        GenlDevlinkCmd::SplitPort => false,
        GenlDevlinkCmd::UnsplitPort => false,
        GenlDevlinkCmd::GetSb => true,
        GenlDevlinkCmd::SetSb => false,
        GenlDevlinkCmd::NewSb => false,
        GenlDevlinkCmd::DeleteSb => false,
        GenlDevlinkCmd::GetSbPool => true,
        GenlDevlinkCmd::SetSbPool => false,
        GenlDevlinkCmd::NewSbPool => false,
        GenlDevlinkCmd::DeleteSbPool => false,
        GenlDevlinkCmd::GetSbPortPool => true,
        GenlDevlinkCmd::SetSbPortPool => false,
        GenlDevlinkCmd::NewSbPortPool => false,
        GenlDevlinkCmd::DeleteSbPortPool => false,
        GenlDevlinkCmd::GetSbTcPoolBind => true,
        GenlDevlinkCmd::SetSbTcPoolBind => false,
        GenlDevlinkCmd::NewSbTcPoolBind => false,
        GenlDevlinkCmd::DeleteSbTcPoolBind => false,
        GenlDevlinkCmd::SbOccSnapshot => false,
        GenlDevlinkCmd::SbOccMaxClear => false,
        GenlDevlinkCmd::GetEswitch => false,
        GenlDevlinkCmd::SetEswitch => false,
        GenlDevlinkCmd::GetDpipeTable => false,
        GenlDevlinkCmd::GetDpipeEntries => false,
        GenlDevlinkCmd::GetDpipeHeaders => false,
        GenlDevlinkCmd::SetDpipeTableCounters => false,
        GenlDevlinkCmd::SetResource => false,
        GenlDevlinkCmd::DumpResource => false,
        GenlDevlinkCmd::Reload => false,
        GenlDevlinkCmd::GetParams => true,
        GenlDevlinkCmd::SetParams => false,
        GenlDevlinkCmd::NewParam => false,
        GenlDevlinkCmd::DeleteParam => false,
        GenlDevlinkCmd::GetRegion => true,
        GenlDevlinkCmd::SetRegion => false,
        GenlDevlinkCmd::CreatRegion => false,
        GenlDevlinkCmd::DeleteRegion => false,
        GenlDevlinkCmd::ReadRegion => false,
        GenlDevlinkCmd::GetPortParam => true,
        GenlDevlinkCmd::SetPortParam => false,
        GenlDevlinkCmd::NewPortParam => false,
        GenlDevlinkCmd::DeletePortParam => false,
        GenlDevlinkCmd::GetDeviceInfo => true,
        GenlDevlinkCmd::GetHealthReport => false,
        GenlDevlinkCmd::SetHealthReport => false,
        GenlDevlinkCmd::RecoverHealthReport => false,
        GenlDevlinkCmd::DaignoseHealthReport => false,
        GenlDevlinkCmd::GetHealthReportDump => false,
        GenlDevlinkCmd::ClearHealthReportDump => false,
        GenlDevlinkCmd::UpdateFlash => false,
        GenlDevlinkCmd::FlashUdpateEnd => false,
        GenlDevlinkCmd::FlashUdpateStatus => false,
        GenlDevlinkCmd::GetTrap => true,
        GenlDevlinkCmd::SetTrap => false,
        GenlDevlinkCmd::NewTrap => false,
        GenlDevlinkCmd::DeleteTrap => false,
        GenlDevlinkCmd::GetTrapGroup => true,
        GenlDevlinkCmd::SetTrapGroup => false,
        GenlDevlinkCmd::NewTrapGroup => false,
        GenlDevlinkCmd::DeleteTrapGroup => false,
        GenlDevlinkCmd::GetTrapPolicer => true,
        GenlDevlinkCmd::SetTrapPolicer => false,
        GenlDevlinkCmd::NewTrapPolicer => false,
        GenlDevlinkCmd::DeleteTrapPolicer => false,
        GenlDevlinkCmd::TestHealthReport => false,
        GenlDevlinkCmd::GetRate => true,
        GenlDevlinkCmd::SetRate => false,
        GenlDevlinkCmd::NewRate => false,
        GenlDevlinkCmd::DeleteRate => false,
    }
}

impl GenlDevlinkCmd {
    /// The command byte of this variant.
    pub fn to_u8(&self) -> (b: u8)
        ensures
            b == spec_devlink_cmd_byte(*self),
    {
        match self {
            GenlDevlinkCmd::GetDevices => DEVLINK_CMD_GET,
            GenlDevlinkCmd::SetDevice => DEVLINK_CMD_SET,
            GenlDevlinkCmd::NewDevice => DEVLINK_CMD_NEW,
            GenlDevlinkCmd::DeleteDevice => DEVLINK_CMD_DEL,
            GenlDevlinkCmd::GetPort => DEVLINK_CMD_PORT_GET,
            GenlDevlinkCmd::SetPort => DEVLINK_CMD_PORT_SET,
            GenlDevlinkCmd::NewPort => DEVLINK_CMD_PORT_NEW,
            GenlDevlinkCmd::DeletePort => DEVLINK_CMD_PORT_DEL,
            GenlDevlinkCmd::SplitPort => DEVLINK_CMD_PORT_SPLIT,
            GenlDevlinkCmd::UnsplitPort => DEVLINK_CMD_PORT_UNSPLIT,
            GenlDevlinkCmd::GetSb => DEVLINK_CMD_SB_GET,
            GenlDevlinkCmd::SetSb => DEVLINK_CMD_SB_SET,
            GenlDevlinkCmd::NewSb => DEVLINK_CMD_SB_NEW,
            GenlDevlinkCmd::DeleteSb => DEVLINK_CMD_SB_DEL,
            GenlDevlinkCmd::GetSbPool => DEVLINK_CMD_SB_POOL_GET,
            GenlDevlinkCmd::SetSbPool => DEVLINK_CMD_SB_POOL_SET,
            GenlDevlinkCmd::NewSbPool => DEVLINK_CMD_SB_POOL_NEW,
            GenlDevlinkCmd::DeleteSbPool => DEVLINK_CMD_SB_POOL_DEL,
            GenlDevlinkCmd::GetSbPortPool => DEVLINK_CMD_SB_PORT_POOL_GET,
            GenlDevlinkCmd::SetSbPortPool => DEVLINK_CMD_SB_PORT_POOL_SET,
            GenlDevlinkCmd::NewSbPortPool => DEVLINK_CMD_SB_PORT_POOL_NEW,
            GenlDevlinkCmd::DeleteSbPortPool => DEVLINK_CMD_SB_PORT_POOL_DEL,
            GenlDevlinkCmd::GetSbTcPoolBind => DEVLINK_CMD_SB_TC_POOL_BIND_GET,
            GenlDevlinkCmd::SetSbTcPoolBind => DEVLINK_CMD_SB_TC_POOL_BIND_SET,
            GenlDevlinkCmd::NewSbTcPoolBind => DEVLINK_CMD_SB_TC_POOL_BIND_NEW,
            GenlDevlinkCmd::DeleteSbTcPoolBind => DEVLINK_CMD_SB_TC_POOL_BIND_DEL,
            GenlDevlinkCmd::SbOccSnapshot => DEVLINK_CMD_SB_OCC_SNAPSHOT,
            GenlDevlinkCmd::SbOccMaxClear => DEVLINK_CMD_SB_OCC_MAX_CLEAR,
            GenlDevlinkCmd::GetEswitch => DEVLINK_CMD_ESWITCH_GET,
            GenlDevlinkCmd::SetEswitch => DEVLINK_CMD_ESWITCH_SET,
            GenlDevlinkCmd::GetDpipeTable => DEVLINK_CMD_DPIPE_TABLE_GET,
            GenlDevlinkCmd::GetDpipeEntries => DEVLINK_CMD_DPIPE_ENTRIES_GET,
            GenlDevlinkCmd::GetDpipeHeaders => DEVLINK_CMD_DPIPE_HEADERS_GET,
            GenlDevlinkCmd::SetDpipeTableCounters => DEVLINK_CMD_DPIPE_TABLE_COUNTERS_SET,
            GenlDevlinkCmd::SetResource => DEVLINK_CMD_RESOURCE_SET,
            GenlDevlinkCmd::DumpResource => DEVLINK_CMD_RESOURCE_DUMP,
            GenlDevlinkCmd::Reload => DEVLINK_CMD_RELOAD,
            GenlDevlinkCmd::GetParams => DEVLINK_CMD_PARAM_GET,
            GenlDevlinkCmd::SetParams => DEVLINK_CMD_PARAM_SET,
            GenlDevlinkCmd::NewParam => DEVLINK_CMD_PARAM_NEW,
            GenlDevlinkCmd::DeleteParam => DEVLINK_CMD_PARAM_DEL,
            GenlDevlinkCmd::GetRegion => DEVLINK_CMD_REGION_GET,
            GenlDevlinkCmd::SetRegion => DEVLINK_CMD_REGION_SET,
            GenlDevlinkCmd::CreatRegion => DEVLINK_CMD_REGION_NEW,
            GenlDevlinkCmd::DeleteRegion => DEVLINK_CMD_REGION_DEL,
            GenlDevlinkCmd::ReadRegion => DEVLINK_CMD_REGION_READ,
            GenlDevlinkCmd::GetPortParam => DEVLINK_CMD_PORT_PARAM_GET,
            GenlDevlinkCmd::SetPortParam => DEVLINK_CMD_PORT_PARAM_SET,
            GenlDevlinkCmd::NewPortParam => DEVLINK_CMD_PORT_PARAM_NEW,
            GenlDevlinkCmd::DeletePortParam => DEVLINK_CMD_PORT_PARAM_DEL,
            GenlDevlinkCmd::GetDeviceInfo => DEVLINK_CMD_INFO_GET,
            GenlDevlinkCmd::GetHealthReport => DEVLINK_CMD_HEALTH_REPORTER_GET,
            GenlDevlinkCmd::SetHealthReport => DEVLINK_CMD_HEALTH_REPORTER_SET,
            GenlDevlinkCmd::RecoverHealthReport => DEVLINK_CMD_HEALTH_REPORTER_RECOVER,
            GenlDevlinkCmd::DaignoseHealthReport => DEVLINK_CMD_HEALTH_REPORTER_DIAGNOSE,
            GenlDevlinkCmd::GetHealthReportDump => DEVLINK_CMD_HEALTH_REPORTER_DUMP_GET,
            GenlDevlinkCmd::ClearHealthReportDump => DEVLINK_CMD_HEALTH_REPORTER_DUMP_CLEAR,
            GenlDevlinkCmd::UpdateFlash => DEVLINK_CMD_FLASH_UPDATE,
            GenlDevlinkCmd::FlashUdpateEnd => DEVLINK_CMD_FLASH_UPDATE_END,
            GenlDevlinkCmd::FlashUdpateStatus => DEVLINK_CMD_FLASH_UPDATE_STATUS,
            GenlDevlinkCmd::GetTrap => DEVLINK_CMD_TRAP_GET,
            GenlDevlinkCmd::SetTrap => DEVLINK_CMD_TRAP_SET,
            GenlDevlinkCmd::NewTrap => DEVLINK_CMD_TRAP_NEW,
            GenlDevlinkCmd::DeleteTrap => DEVLINK_CMD_TRAP_DEL,
            GenlDevlinkCmd::GetTrapGroup => DEVLINK_CMD_TRAP_GROUP_GET,
            GenlDevlinkCmd::SetTrapGroup => DEVLINK_CMD_TRAP_GROUP_SET,
            GenlDevlinkCmd::NewTrapGroup => DEVLINK_CMD_TRAP_GROUP_NEW,
            GenlDevlinkCmd::DeleteTrapGroup => DEVLINK_CMD_TRAP_GROUP_DEL,
            GenlDevlinkCmd::GetTrapPolicer => DEVLINK_CMD_TRAP_POLICER_GET,
            GenlDevlinkCmd::SetTrapPolicer => DEVLINK_CMD_TRAP_POLICER_SET,
            GenlDevlinkCmd::NewTrapPolicer => DEVLINK_CMD_TRAP_POLICER_NEW,
            GenlDevlinkCmd::DeleteTrapPolicer => DEVLINK_CMD_TRAP_POLICER_DEL,
            GenlDevlinkCmd::TestHealthReport => DEVLINK_CMD_HEALTH_REPORTER_TEST,
            GenlDevlinkCmd::GetRate => DEVLINK_CMD_RATE_GET,
            GenlDevlinkCmd::SetRate => DEVLINK_CMD_RATE_SET,
            GenlDevlinkCmd::NewRate => DEVLINK_CMD_RATE_NEW,
            GenlDevlinkCmd::DeleteRate => DEVLINK_CMD_RATE_DEL,
        }
    }

    /// Decodes a command byte; a byte outside the closed set is a fatal
    /// `UnknownCommand`.
    pub fn try_from(value: u8) -> (r: Result<GenlDevlinkCmd, NlError>)
        ensures
            match r {
                Ok(c) => spec_devlink_cmd_from(value) == Ok::<_, ErrorKind>(c),
                Err(e) => spec_devlink_cmd_from(value) == Err::<GenlDevlinkCmd, _>(e.kind),
            },
    {
        if value == DEVLINK_CMD_GET {
            Ok(GenlDevlinkCmd::GetDevices)
        } else if value == DEVLINK_CMD_SET {
            Ok(GenlDevlinkCmd::SetDevice)
        } else if value == DEVLINK_CMD_NEW {
            Ok(GenlDevlinkCmd::NewDevice)
        } else if value == DEVLINK_CMD_DEL {
            Ok(GenlDevlinkCmd::DeleteDevice)
        } else if value == DEVLINK_CMD_PORT_GET {
            Ok(GenlDevlinkCmd::GetPort)
        } else if value == DEVLINK_CMD_PORT_SET {
            Ok(GenlDevlinkCmd::SetPort)
        } else if value == DEVLINK_CMD_PORT_NEW {
            Ok(GenlDevlinkCmd::NewPort)
        } else if value == DEVLINK_CMD_PORT_DEL {
            Ok(GenlDevlinkCmd::DeletePort)
        } else if value == DEVLINK_CMD_PORT_SPLIT {
            Ok(GenlDevlinkCmd::SplitPort)
        } else if value == DEVLINK_CMD_PORT_UNSPLIT {
            Ok(GenlDevlinkCmd::UnsplitPort)
        } else if value == DEVLINK_CMD_SB_GET {
            Ok(GenlDevlinkCmd::GetSb)
        } else if value == DEVLINK_CMD_SB_SET {
            Ok(GenlDevlinkCmd::SetSb)
        } else if value == DEVLINK_CMD_SB_NEW {
            Ok(GenlDevlinkCmd::NewSb)
        } else if value == DEVLINK_CMD_SB_DEL {
            Ok(GenlDevlinkCmd::DeleteSb)
        } else if value == DEVLINK_CMD_SB_POOL_GET {
            Ok(GenlDevlinkCmd::GetSbPool)
        } else if value == DEVLINK_CMD_SB_POOL_SET {
            Ok(GenlDevlinkCmd::SetSbPool)
        } else if value == DEVLINK_CMD_SB_POOL_NEW {
            Ok(GenlDevlinkCmd::NewSbPool)
        } else if value == DEVLINK_CMD_SB_POOL_DEL {
            Ok(GenlDevlinkCmd::DeleteSbPool)
        } else if value == DEVLINK_CMD_SB_PORT_POOL_GET {
            Ok(GenlDevlinkCmd::GetSbPortPool)
        } else if value == DEVLINK_CMD_SB_PORT_POOL_SET {
            Ok(GenlDevlinkCmd::SetSbPortPool)
        } else if value == DEVLINK_CMD_SB_PORT_POOL_NEW {
            Ok(GenlDevlinkCmd::NewSbPortPool)
        } else if value == DEVLINK_CMD_SB_PORT_POOL_DEL {
            Ok(GenlDevlinkCmd::DeleteSbPortPool)
        } else if value == DEVLINK_CMD_SB_TC_POOL_BIND_GET {
            Ok(GenlDevlinkCmd::GetSbTcPoolBind)
        } else if value == DEVLINK_CMD_SB_TC_POOL_BIND_SET {
            Ok(GenlDevlinkCmd::SetSbTcPoolBind)
        } else if value == DEVLINK_CMD_SB_TC_POOL_BIND_NEW {
            Ok(GenlDevlinkCmd::NewSbTcPoolBind)
        } else if value == DEVLINK_CMD_SB_TC_POOL_BIND_DEL {
            Ok(GenlDevlinkCmd::DeleteSbTcPoolBind)
        } else if value == DEVLINK_CMD_SB_OCC_SNAPSHOT {
            Ok(GenlDevlinkCmd::SbOccSnapshot)
        } else if value == DEVLINK_CMD_SB_OCC_MAX_CLEAR {
            Ok(GenlDevlinkCmd::SbOccMaxClear)
        } else if value == DEVLINK_CMD_ESWITCH_GET {
            Ok(GenlDevlinkCmd::GetEswitch)
        } else if value == DEVLINK_CMD_ESWITCH_SET {
            Ok(GenlDevlinkCmd::SetEswitch)
        } else if value == DEVLINK_CMD_DPIPE_TABLE_GET {
            Ok(GenlDevlinkCmd::GetDpipeTable)
        } else if value == DEVLINK_CMD_DPIPE_ENTRIES_GET {
            Ok(GenlDevlinkCmd::GetDpipeEntries)
        } else if value == DEVLINK_CMD_DPIPE_HEADERS_GET {
            Ok(GenlDevlinkCmd::GetDpipeHeaders)
        } else if value == DEVLINK_CMD_DPIPE_TABLE_COUNTERS_SET {
            Ok(GenlDevlinkCmd::SetDpipeTableCounters)
        } else if value == DEVLINK_CMD_RESOURCE_SET {
            Ok(GenlDevlinkCmd::SetResource)
        } else if value == DEVLINK_CMD_RESOURCE_DUMP {
            Ok(GenlDevlinkCmd::DumpResource)
        } else if value == DEVLINK_CMD_RELOAD {
            Ok(GenlDevlinkCmd::Reload)
        } else if value == DEVLINK_CMD_PARAM_GET {
            Ok(GenlDevlinkCmd::GetParams)
        } else if value == DEVLINK_CMD_PARAM_SET {
            Ok(GenlDevlinkCmd::SetParams)
        } else if value == DEVLINK_CMD_PARAM_NEW {
            Ok(GenlDevlinkCmd::NewParam)
        } else if value == DEVLINK_CMD_PARAM_DEL {
            Ok(GenlDevlinkCmd::DeleteParam)
        } else if value == DEVLINK_CMD_REGION_GET {
            Ok(GenlDevlinkCmd::GetRegion)
        } else if value == DEVLINK_CMD_REGION_SET {
            Ok(GenlDevlinkCmd::SetRegion)
        } else if value == DEVLINK_CMD_REGION_NEW {
            Ok(GenlDevlinkCmd::CreatRegion)
        } else if value == DEVLINK_CMD_REGION_DEL {
            Ok(GenlDevlinkCmd::DeleteRegion)
        } else if value == DEVLINK_CMD_REGION_READ {
            Ok(GenlDevlinkCmd::ReadRegion)
        } else if value == DEVLINK_CMD_PORT_PARAM_GET {
            Ok(GenlDevlinkCmd::GetPortParam)
        } else if value == DEVLINK_CMD_PORT_PARAM_SET {
            Ok(GenlDevlinkCmd::SetPortParam)
        } else if value == DEVLINK_CMD_PORT_PARAM_NEW {
            Ok(GenlDevlinkCmd::NewPortParam)
        } else if value == DEVLINK_CMD_PORT_PARAM_DEL {
            Ok(GenlDevlinkCmd::DeletePortParam)
        } else if value == DEVLINK_CMD_INFO_GET {
            Ok(GenlDevlinkCmd::GetDeviceInfo)
        } else if value == DEVLINK_CMD_HEALTH_REPORTER_GET {
            Ok(GenlDevlinkCmd::GetHealthReport)
        } else if value == DEVLINK_CMD_HEALTH_REPORTER_SET {
            Ok(GenlDevlinkCmd::SetHealthReport)
        } else if value == DEVLINK_CMD_HEALTH_REPORTER_RECOVER {
            Ok(GenlDevlinkCmd::RecoverHealthReport)
        } else if value == DEVLINK_CMD_HEALTH_REPORTER_DIAGNOSE {
            Ok(GenlDevlinkCmd::DaignoseHealthReport)
        } else if value == DEVLINK_CMD_HEALTH_REPORTER_DUMP_GET {
            Ok(GenlDevlinkCmd::GetHealthReportDump)
        } else if value == DEVLINK_CMD_HEALTH_REPORTER_DUMP_CLEAR {
            Ok(GenlDevlinkCmd::ClearHealthReportDump)
        } else if value == DEVLINK_CMD_FLASH_UPDATE {
            Ok(GenlDevlinkCmd::UpdateFlash)
        } else if value == DEVLINK_CMD_FLASH_UPDATE_END {
            Ok(GenlDevlinkCmd::FlashUdpateEnd)
        } else if value == DEVLINK_CMD_FLASH_UPDATE_STATUS {
            Ok(GenlDevlinkCmd::FlashUdpateStatus)
        } else if value == DEVLINK_CMD_TRAP_GET {
            Ok(GenlDevlinkCmd::GetTrap)
        } else if value == DEVLINK_CMD_TRAP_SET {
            Ok(GenlDevlinkCmd::SetTrap)
        } else if value == DEVLINK_CMD_TRAP_NEW {
            Ok(GenlDevlinkCmd::NewTrap)
        } else if value == DEVLINK_CMD_TRAP_DEL {
            Ok(GenlDevlinkCmd::DeleteTrap)
        } else if value == DEVLINK_CMD_TRAP_GROUP_GET {
            Ok(GenlDevlinkCmd::GetTrapGroup)
        } else if value == DEVLINK_CMD_TRAP_GROUP_SET {
            Ok(GenlDevlinkCmd::SetTrapGroup)
        } else if value == DEVLINK_CMD_TRAP_GROUP_NEW {
            Ok(GenlDevlinkCmd::NewTrapGroup)
        } else if value == DEVLINK_CMD_TRAP_GROUP_DEL {
            Ok(GenlDevlinkCmd::DeleteTrapGroup)
        } else if value == DEVLINK_CMD_TRAP_POLICER_GET {
            Ok(GenlDevlinkCmd::GetTrapPolicer)
        } else if value == DEVLINK_CMD_TRAP_POLICER_SET {
            Ok(GenlDevlinkCmd::SetTrapPolicer)
        } else if value == DEVLINK_CMD_TRAP_POLICER_NEW {
            Ok(GenlDevlinkCmd::NewTrapPolicer)
        } else if value == DEVLINK_CMD_TRAP_POLICER_DEL {
            Ok(GenlDevlinkCmd::DeleteTrapPolicer)
        } else if value == DEVLINK_CMD_HEALTH_REPORTER_TEST {
            Ok(GenlDevlinkCmd::TestHealthReport)
        } else if value == DEVLINK_CMD_RATE_GET {
            Ok(GenlDevlinkCmd::GetRate)
        } else if value == DEVLINK_CMD_RATE_SET {
            Ok(GenlDevlinkCmd::SetRate)
        } else if value == DEVLINK_CMD_RATE_NEW {
            Ok(GenlDevlinkCmd::NewRate)
        } else if value == DEVLINK_CMD_RATE_DEL {
            Ok(GenlDevlinkCmd::DeleteRate)
        } else {
            Err(NlError::new(ErrorKind::UnknownCommand(value)))
        }
    }

    /// Whether a caller may legally combine this command with a multi-record
    /// dump request.  The codec does not enforce it; violating it is a
    /// caller error, not a decode-time check.
    pub fn dump_capable(&self) -> (r: bool)
        ensures
            r == spec_devlink_dump_capable(*self),
    {
        match self {
            GenlDevlinkCmd::GetDevices => true,
            GenlDevlinkCmd::SetDevice => false,
            GenlDevlinkCmd::NewDevice => false,
            GenlDevlinkCmd::DeleteDevice => false,
            GenlDevlinkCmd::GetPort => true,
            GenlDevlinkCmd::SetPort => false,
            GenlDevlinkCmd::NewPort => false,
            GenlDevlinkCmd::DeletePort => false,
            GenlDevlinkCmd::SplitPort => false,
            GenlDevlinkCmd::UnsplitPort => false,
            GenlDevlinkCmd::GetSb => true,
            GenlDevlinkCmd::SetSb => false,
            GenlDevlinkCmd::NewSb => false,
            GenlDevlinkCmd::DeleteSb => false,
            GenlDevlinkCmd::GetSbPool => true,
            GenlDevlinkCmd::SetSbPool => false,
            GenlDevlinkCmd::NewSbPool => false,
            GenlDevlinkCmd::DeleteSbPool => false,
            GenlDevlinkCmd::GetSbPortPool => true,
            GenlDevlinkCmd::SetSbPortPool => false,
            GenlDevlinkCmd::NewSbPortPool => false,
            GenlDevlinkCmd::DeleteSbPortPool => false,
            GenlDevlinkCmd::GetSbTcPoolBind => true,
            GenlDevlinkCmd::SetSbTcPoolBind => false,
            GenlDevlinkCmd::NewSbTcPoolBind => false,
            GenlDevlinkCmd::DeleteSbTcPoolBind => false,
            GenlDevlinkCmd::SbOccSnapshot => false,
            GenlDevlinkCmd::SbOccMaxClear => false,
            GenlDevlinkCmd::GetEswitch => false,
            GenlDevlinkCmd::SetEswitch => false,
            GenlDevlinkCmd::GetDpipeTable => false,
            GenlDevlinkCmd::GetDpipeEntries => false,
            GenlDevlinkCmd::GetDpipeHeaders => false,
            GenlDevlinkCmd::SetDpipeTableCounters => false,
            GenlDevlinkCmd::SetResource => false,
            GenlDevlinkCmd::DumpResource => false,
            GenlDevlinkCmd::Reload => false,
            GenlDevlinkCmd::GetParams => true,
            GenlDevlinkCmd::SetParams => false,
            GenlDevlinkCmd::NewParam => false,
            GenlDevlinkCmd::DeleteParam => false,
            GenlDevlinkCmd::GetRegion => true,
            GenlDevlinkCmd::SetRegion => false,
            GenlDevlinkCmd::CreatRegion => false,
            GenlDevlinkCmd::DeleteRegion => false,
            GenlDevlinkCmd::ReadRegion => false,
            GenlDevlinkCmd::GetPortParam => true,
            GenlDevlinkCmd::SetPortParam => false,
            GenlDevlinkCmd::NewPortParam => false,
            GenlDevlinkCmd::DeletePortParam => false,
            GenlDevlinkCmd::GetDeviceInfo => true,
            GenlDevlinkCmd::GetHealthReport => false,
            GenlDevlinkCmd::SetHealthReport => false,
            GenlDevlinkCmd::RecoverHealthReport => false,
            GenlDevlinkCmd::DaignoseHealthReport => false,
            GenlDevlinkCmd::GetHealthReportDump => false,
            GenlDevlinkCmd::ClearHealthReportDump => false,
            GenlDevlinkCmd::UpdateFlash => false,
            GenlDevlinkCmd::FlashUdpateEnd => false,
            GenlDevlinkCmd::FlashUdpateStatus => false,
            GenlDevlinkCmd::GetTrap => true,
            GenlDevlinkCmd::SetTrap => false,
            GenlDevlinkCmd::NewTrap => false,
            GenlDevlinkCmd::DeleteTrap => false,
            GenlDevlinkCmd::GetTrapGroup => true,
            GenlDevlinkCmd::SetTrapGroup => false,
            GenlDevlinkCmd::NewTrapGroup => false,
            GenlDevlinkCmd::DeleteTrapGroup => false,
            GenlDevlinkCmd::GetTrapPolicer => true,
            GenlDevlinkCmd::SetTrapPolicer => false,
            GenlDevlinkCmd::NewTrapPolicer => false,
            GenlDevlinkCmd::DeleteTrapPolicer => false,
            GenlDevlinkCmd::TestHealthReport => false,
            GenlDevlinkCmd::GetRate => true,
            GenlDevlinkCmd::SetRate => false,
            GenlDevlinkCmd::NewRate => false,
            GenlDevlinkCmd::DeleteRate => false,
        }
    }
}

/// The command-to-byte mapping is a bijection on the closed set: decoding an
/// encoded command gives the command back, for every variant.
pub proof fn lemma_devlink_cmd_round_trip(cmd: GenlDevlinkCmd)
    ensures
        spec_devlink_cmd_from(spec_devlink_cmd_byte(cmd)) == Ok::<_, ErrorKind>(cmd),
{
}

/// The payload of one devlink family message: its command and its
/// attributes.
#[derive(Clone, Debug, PartialEq, Eq)]
pub struct GenlDevlink {
    /// Command code of this message.
    pub cmd: GenlDevlinkCmd,
    /// Attributes of this message.
    pub nldev: Vec<GenlDevlinkAttrs>,
}

/// The mathematical value of a devlink message payload.
pub struct GenlDevlinkV {
    pub cmd: GenlDevlinkCmd,
    pub nldev: Seq<DevlinkAttrV>,
}

impl View for GenlDevlink {
    type V = GenlDevlinkV;

    open spec fn view(&self) -> GenlDevlinkV {
        GenlDevlinkV { cmd: self.cmd, nldev: self.nldev.deep_view() }
    }
}

impl DeepView for GenlDevlink {
    type V = GenlDevlinkV;

    open spec fn deep_view(&self) -> GenlDevlinkV {
        self@
    }
}

impl GenlDevlink {
    /// The name under which the family registers.
    pub fn family_name() -> (r: &'static str)
        ensures
            r@ == "devlink"@,
    {
        "devlink"
    }

    /// The numeric id under which the family is addressed here.
    pub fn family_id(&self) -> (r: u16)
        ensures
            r == GENL_ID_DEVLINK,
    {
        GENL_ID_DEVLINK
    }

    /// The command byte of this message.
    pub fn command(&self) -> (r: u8)
        ensures
            r == spec_devlink_cmd_byte(self.cmd),
    {
        self.cmd.to_u8()
    }

    /// The outgoing protocol version of the family.
    pub fn version(&self) -> (r: u8)
        ensures
            r == 1,
    {
        1
    }

    /// Every attribute of the message can be emitted.
    pub open spec fn wf(&self) -> bool {
        crate::devlink::nldev::spec_devlink_all_wf(self.nldev@, 0)
    }

    /// The attribute stream of this message, without the generic header.
    pub open spec fn body_spec(&self) -> Seq<u8> {
        crate::devlink::nldev::spec_devlink_stream_from(self.nldev@, 0)
    }

    /// Appends the attribute stream of this message.
    pub fn emit(&self, out: &mut Vec<u8>)
        requires
            self.wf(),
        ensures
            final(out)@ == old(out)@ + self.body_spec(),
    {
        proof {
            lemma_devlink_all_wf_forall(self.nldev@, 0);
            lemma_devlink_body_is_stream(self.nldev@, 0);
        }
        crate::codec::emit_nla_stream(self.nldev.as_slice(), out);
    }

    /// The byte size of the attribute stream.
    pub fn buffer_len(&self) -> (n: usize)
        requires
            self.wf(),
            self.body_spec().len() <= usize::MAX,
        ensures
            n == self.body_spec().len(),
    {
        proof {
            lemma_devlink_body_is_stream(self.nldev@, 0);
            lemma_devlink_all_wf_forall(self.nldev@, 0);
        }
        crate::codec::stream_buffer_len(self.nldev.as_slice())
    }

    /// Decodes a devlink message payload from its attribute bytes and its
    /// already-decoded generic header.
    pub fn parse_with_param(buf: &[u8], header: GenlHeader) -> (r: Result<GenlDevlink, NlError>)
        ensures
            match r {
                Ok(m) => spec_devlink_cmd_from(header.cmd) == Ok::<_, ErrorKind>(m@.cmd)
                    && spec_parse_devlink_stream(buf@, DEVLINK_NEST_LIMIT as nat) == Ok::<
                    _,
                    ErrorKind,
                >(m@.nldev),
                Err(e) => match spec_devlink_cmd_from(header.cmd) {
                    Err(k) => e.kind == k,
                    Ok(_) => spec_parse_devlink_stream(buf@, DEVLINK_NEST_LIMIT as nat) == Err::<
                        Seq<DevlinkAttrV>,
                        _,
                    >(e.kind),
                },
            },
    {
        let cmd = match GenlDevlinkCmd::try_from(header.cmd) {
            Ok(c) => c,
            Err(e) => {
                return Err(e);
            },
        };
        let nldev = match parse_ctrlnldev(buf) {
            Ok(v) => v,
            Err(e) => {
                return Err(e);
            },
        };
        Ok(GenlDevlink { cmd, nldev })
    }
}

/// Decodes a whole devlink attribute stream with the defensive nesting
/// bound in force.
pub fn parse_ctrlnldev(buf: &[u8]) -> (r: Result<Vec<GenlDevlinkAttrs>, NlError>)
    ensures
        match r {
            Ok(v) => spec_parse_devlink_stream(buf@, DEVLINK_NEST_LIMIT as nat) == Ok::<
                _,
                ErrorKind,
            >(v.deep_view()),
            Err(e) => spec_parse_devlink_stream(buf@, DEVLINK_NEST_LIMIT as nat) == Err::<
                Seq<DevlinkAttrV>,
                _,
            >(e.kind),
        },
{
    match parse_devlink_stream(buf, DEVLINK_NEST_LIMIT) {
        Ok(v) => Ok(v),
        Err(e) => Err(e.context("devlink message attributes")),
    }
}

/// The generic record stream of devlink values coincides with the family's
/// own stream form.
proof fn lemma_devlink_body_is_stream(s: Seq<GenlDevlinkAttrs>, i: int)
    requires
        0 <= i <= s.len(),
    ensures
        crate::codec::spec_nla_seq(s, i) == crate::devlink::nldev::spec_devlink_stream_from(s, i),
    decreases s.len() - i,
{
    if i < s.len() {
        lemma_devlink_body_is_stream(s, i + 1);
    }
}

/// Conjunctive well-formedness gives the quantified form the generic
/// emitters ask for.
proof fn lemma_devlink_all_wf_forall(s: Seq<GenlDevlinkAttrs>, i: int)
    requires
        crate::devlink::nldev::spec_devlink_all_wf(s, i),
        0 <= i <= s.len(),
    ensures
        forall|j: int|
            i <= j < s.len() ==> crate::devlink::nldev::spec_devlink_wf(#[trigger] s[j]),
    decreases s.len() - i,
{
    if i < s.len() {
        lemma_devlink_all_wf_forall(s, i + 1);
    }
}

} // verus!

//! The attribute schema of the devlink family: the typed values its
//! messages carry, and their codec.
//!
//! The schema is a closed table of wire ids; decoding an id outside it fails
//! with `UnknownAttributeType`.  Nested attributes carry further attributes
//! of this same schema, so the tree is recursive; decoding bounds the depth
//! defensively with [`DEVLINK_NEST_LIMIT`].  The table preserves the
//! family's historical irregularities deliberately: one id decodes into a
//! neighbouring variant rather than failing, one variant shares its wire id
//! with another, the chunk-data attribute is emitted but never decoded, and
//! the nested marker of two parameter attributes does not follow their
//! payload shape.

use vstd::prelude::*;
use vstd::bytes::{
    lemma_auto_spec_u16_to_from_le_bytes, lemma_auto_spec_u32_to_from_le_bytes,
    lemma_auto_spec_u64_to_from_le_bytes, spec_u16_to_le_bytes, spec_u32_to_le_bytes,
    spec_u64_to_le_bytes, u16_to_le_bytes, u32_to_le_bytes, u64_to_le_bytes,
};
use vstd::slice::slice_index_get;
use crate::codec::NlaValue;
use crate::constants::{
    DEVLINK_ATTR_BUS_NAME,
    DEVLINK_ATTR_DESIRED_TYPE,
    DEVLINK_ATTR_DEV_STATS,
    DEVLINK_ATTR_DPIPE_ACTION,
    DEVLINK_ATTR_DPIPE_ACTION_TYPE,
    DEVLINK_ATTR_DPIPE_ACTION_VALUE,
    DEVLINK_ATTR_DPIPE_ENTRIES,
    DEVLINK_ATTR_DPIPE_ENTRY,
    DEVLINK_ATTR_DPIPE_ENTRY_ACTION_VALUES,
    DEVLINK_ATTR_DPIPE_ENTRY_COUNTER,
    DEVLINK_ATTR_DPIPE_ENTRY_INDEX,
    DEVLINK_ATTR_DPIPE_ENTRY_MATCH_VALUES,
    DEVLINK_ATTR_DPIPE_FIELD,
    DEVLINK_ATTR_DPIPE_FIELD_BITWIDTH,
    DEVLINK_ATTR_DPIPE_FIELD_ID,
    DEVLINK_ATTR_DPIPE_FIELD_MAPPING_TYPE,
    DEVLINK_ATTR_DPIPE_FIELD_NAME,
    DEVLINK_ATTR_DPIPE_HEADER,
    DEVLINK_ATTR_DPIPE_HEADERS,
    DEVLINK_ATTR_DPIPE_HEADER_FIELDS,
    DEVLINK_ATTR_DPIPE_HEADER_GLOBAL,
    DEVLINK_ATTR_DPIPE_HEADER_ID,
    DEVLINK_ATTR_DPIPE_HEADER_INDEX,
    DEVLINK_ATTR_DPIPE_HEADER_NAME,
    DEVLINK_ATTR_DPIPE_MATCH,
    DEVLINK_ATTR_DPIPE_MATCH_TYPE,
    DEVLINK_ATTR_DPIPE_MATCH_VALUE,
    DEVLINK_ATTR_DPIPE_TABLE,
    DEVLINK_ATTR_DPIPE_TABLES,
    DEVLINK_ATTR_DPIPE_TABLE_ACTIONS,
    DEVLINK_ATTR_DPIPE_TABLE_COUNTERS_ENABLED,
    DEVLINK_ATTR_DPIPE_TABLE_MATCHES,
    DEVLINK_ATTR_DPIPE_TABLE_NAME,
    DEVLINK_ATTR_DPIPE_TABLE_RESOURCE_ID,
    DEVLINK_ATTR_DPIPE_TABLE_RESOURCE_UNITS,
    DEVLINK_ATTR_DPIPE_TABLE_SIZE,
    DEVLINK_ATTR_DPIPE_VALUE,
    DEVLINK_ATTR_DPIPE_VALUE_MAPPING,
    DEVLINK_ATTR_DPIPE_VALUE_MASK,
    DEVLINK_ATTR_ESWITCH_ENCAP_MODE,
    DEVLINK_ATTR_ESWITCH_INLINE_MODE,
    DEVLINK_ATTR_ESWITCH_MODE,
    DEVLINK_ATTR_FLASH_UPDATE_COMPONENT,
    DEVLINK_ATTR_FLASH_UPDATE_FILE_NAME,
    DEVLINK_ATTR_FLASH_UPDATE_OVERWRITE_MASK,
    DEVLINK_ATTR_FLASH_UPDATE_STATUS_DONE,
    DEVLINK_ATTR_FLASH_UPDATE_STATUS_MSG,
    DEVLINK_ATTR_FLASH_UPDATE_STATUS_TIMEOUT,
    DEVLINK_ATTR_FLASH_UPDATE_STATUS_TOTAL,
    DEVLINK_ATTR_FMSG,
    DEVLINK_ATTR_FMSG_ARR_NEST_START,
    DEVLINK_ATTR_FMSG_NEST_END,
    DEVLINK_ATTR_FMSG_OBJ_NAME,
    DEVLINK_ATTR_FMSG_OBJ_NEST_START,
    DEVLINK_ATTR_FMSG_OBJ_VALUE_DATA,
    DEVLINK_ATTR_FMSG_OBJ_VALUE_TYPE,
    DEVLINK_ATTR_FMSG_PAIR_NEST_START,
    DEVLINK_ATTR_HEALTH_REPORTER,
    DEVLINK_ATTR_HEALTH_REPORTER_AUTO_DUMP,
    DEVLINK_ATTR_HEALTH_REPORTER_AUTO_RECOVER,
    DEVLINK_ATTR_HEALTH_REPORTER_DUMP_TS,
    DEVLINK_ATTR_HEALTH_REPORTER_DUMP_TS_NS,
    DEVLINK_ATTR_HEALTH_REPORTER_ERR_COUNT,
    DEVLINK_ATTR_HEALTH_REPORTER_GRACEFUL_PERIOD,
    DEVLINK_ATTR_HEALTH_REPORTER_NAME,
    DEVLINK_ATTR_HEALTH_REPORTER_RECOVER_COUNT,
    DEVLINK_ATTR_HEALTH_REPORTER_STATE,
    DEVLINK_ATTR_INFO_BOARD_SERIAL_NUMBER,
    DEVLINK_ATTR_INFO_DRIVER_NAME,
    DEVLINK_ATTR_INFO_SERIAL_NUMBER,
    DEVLINK_ATTR_INFO_VERSION_FIXED,
    DEVLINK_ATTR_INFO_VERSION_NAME,
    DEVLINK_ATTR_INFO_VERSION_RUNNING,
    DEVLINK_ATTR_INFO_VERSION_STORED,
    DEVLINK_ATTR_INFO_VERSION_VALUE,
    DEVLINK_ATTR_LOCATION,
    DEVLINK_ATTR_NETDEV_IF_INDEX,
    DEVLINK_ATTR_NETDEV_NAME,
    DEVLINK_ATTR_NETNS_FD,
    DEVLINK_ATTR_NETNS_ID,
    DEVLINK_ATTR_NETNS_PID,
    DEVLINK_ATTR_PARAM,
    DEVLINK_ATTR_PARAM_GENERIC,
    DEVLINK_ATTR_PARAM_NAME,
    DEVLINK_ATTR_PARAM_TYPE,
    DEVLINK_ATTR_PARAM_VALUE,
    DEVLINK_ATTR_PARAM_VALUES_LIST,
    DEVLINK_ATTR_PARAM_VALUE_CMODE,
    DEVLINK_ATTR_PARAM_VALUE_DATA,
    DEVLINK_ATTR_PORT_CONTROLLER_NUMBER,
    DEVLINK_ATTR_PORT_EXTERNAL,
    DEVLINK_ATTR_PORT_FLAVOUR,
    DEVLINK_ATTR_PORT_FUNCTION,
    DEVLINK_ATTR_PORT_IBDEV_NAME,
    DEVLINK_ATTR_PORT_INDEX,
    DEVLINK_ATTR_PORT_LANES,
    DEVLINK_ATTR_PORT_NUMBER,
    DEVLINK_ATTR_PORT_PCI_PF_NUMBER,
    DEVLINK_ATTR_PORT_PCI_SF_NUMBER,
    DEVLINK_ATTR_PORT_PCI_VF_NUMBER,
    DEVLINK_ATTR_PORT_SPLITTABLE,
    DEVLINK_ATTR_PORT_SPLIT_COUNT,
    DEVLINK_ATTR_PORT_SPLIT_GROUP,
    DEVLINK_ATTR_PORT_SPLIT_SUBPORT_NUMBER,
    DEVLINK_ATTR_PORT_TYPE,
    DEVLINK_ATTR_RATE_NODE_NAME,
    DEVLINK_ATTR_RATE_PARENT_NODE_NAME,
    DEVLINK_ATTR_RATE_TX_MAX,
    DEVLINK_ATTR_RATE_TX_SHARE,
    DEVLINK_ATTR_RATE_TYPE,
    DEVLINK_ATTR_REGION_CHUNK,
    DEVLINK_ATTR_REGION_CHUNKS,
    DEVLINK_ATTR_REGION_CHUNK_ADDR,
    DEVLINK_ATTR_REGION_CHUNK_DATA,
    DEVLINK_ATTR_REGION_MAX_SNAPSHOTS,
    DEVLINK_ATTR_REGION_NAME,
    DEVLINK_ATTR_REGION_SIZE,
    DEVLINK_ATTR_REGION_SNAPSHOT,
    DEVLINK_ATTR_REGION_SNAPSHOTS,
    DEVLINK_ATTR_REGION_SNAPSHOT_ID,
    DEVLINK_ATTR_RELAOD_ACTION_STATS,
    DEVLINK_ATTR_RELOAD_ACTION,
    DEVLINK_ATTR_RELOAD_ACTIONS_PERFORMED,
    DEVLINK_ATTR_RELOAD_ACTION_INFO,
    DEVLINK_ATTR_RELOAD_FAILED,
    DEVLINK_ATTR_RELOAD_LIMITS,
    DEVLINK_ATTR_RELOAD_STATS,
    DEVLINK_ATTR_RELOAD_STATS_ENTRY,
    DEVLINK_ATTR_RELOAD_STATS_LIMIT,
    DEVLINK_ATTR_RELOAD_STATS_VALUE,
    DEVLINK_ATTR_REMOTE_RELOAD_SATS,
    DEVLINK_ATTR_RESOURCE,
    DEVLINK_ATTR_RESOURCE_ID,
    DEVLINK_ATTR_RESOURCE_LIST,
    DEVLINK_ATTR_RESOURCE_NAME,
    DEVLINK_ATTR_RESOURCE_OCC,
    DEVLINK_ATTR_RESOURCE_SIZE,
    DEVLINK_ATTR_RESOURCE_SIZE_GRAN,
    DEVLINK_ATTR_RESOURCE_SIZE_MAX,
    DEVLINK_ATTR_RESOURCE_SIZE_MIN,
    DEVLINK_ATTR_RESOURCE_SIZE_NEW,
    DEVLINK_ATTR_RESOURCE_SIZE_VALID,
    DEVLINK_ATTR_RESOURCE_UNIT,
    DEVLINK_ATTR_SB_EGRESS_POOL_COUNT,
    DEVLINK_ATTR_SB_EGRESS_TC_COUNT,
    DEVLINK_ATTR_SB_INDEX,
    DEVLINK_ATTR_SB_INGRESS_POOL_COUNT,
    DEVLINK_ATTR_SB_INGRESS_TC_COUNT,
    DEVLINK_ATTR_SB_OCC_CUR,
    DEVLINK_ATTR_SB_OCC_MAX,
    DEVLINK_ATTR_SB_POOL_CELL_SIZE,
    DEVLINK_ATTR_SB_POOL_INDEX,
    DEVLINK_ATTR_SB_POOL_SIZE,
    DEVLINK_ATTR_SB_POOL_THRESHOLD_TYPE,
    DEVLINK_ATTR_SB_POOL_TYPE,
    DEVLINK_ATTR_SB_SIZE,
    DEVLINK_ATTR_SB_TC_INDEX,
    DEVLINK_ATTR_SB_THRESHOLD,
    DEVLINK_ATTR_STATS,
    DEVLINK_ATTR_TRAP_ACTION,
    DEVLINK_ATTR_TRAP_GENERIC,
    DEVLINK_ATTR_TRAP_GROUP_NAME,
    DEVLINK_ATTR_TRAP_METADATA,
    DEVLINK_ATTR_TRAP_NAME,
    DEVLINK_ATTR_TRAP_POLICER_BURST,
    DEVLINK_ATTR_TRAP_POLICER_ID,
    DEVLINK_ATTR_TRAP_POLICER_RATE,
    DEVLINK_ATTR_TRAP_TYPE,
};
use crate::err::{ErrorKind, NlError};
use crate::nla::{
    emit_nla_record, lemma_kind_mask, lemma_nla_record_head, lemma_nla_record_len, nla_kind_of,
    nla_ok, nla_payload_of,
    nla_step_of, spec_nla_record, spec_wire_kind, NlaView, NLA_TYPE_MASK,
};
use crate::scalar::{
    lemma_string_round_trip, parse_string, parse_u16, parse_u32, parse_u64, parse_u8,
    spec_parse_string, spec_parse_u16,
    spec_parse_u32, spec_parse_u64, spec_parse_u8, spec_string_payload, string_payload,
};
use crate::wire::{align4, lemma_align4};

verus! {

/// Defensive bound on attribute nesting depth when decoding, so that
/// malformed input cannot drive the recursion arbitrarily deep.
pub const DEVLINK_NEST_LIMIT: u32 = 32;

/// One attribute of a devlink family message.
#[derive(Debug, PartialEq, Eq)]
pub enum GenlDevlinkAttrs {
    BusName(String),
    Location(String),
    PortIndex(u32),
    PortType(u16),
    DesiredType(u16),
    NetdevIndex(u32),
    NetdevName(String),
    PortIbdevName(String),
    PortSplitCount(u32),
    PortSplitGroup(u32),
    SbIndex(u32),
    SbSize(u32),
    SbIngressPoolCount(u16),
    SbEgressPoolCount(u16),
    SbIngressTcCount(u16),
    SbEgressTcCount(u16),
    SbPoolIndex(u16),
    SbPoolType(u8),
    SbPoolSize(u32),
    SbPoolThresholdType(u8),
    SbPoolThreshold(u32),
    SbTcIndex(u16),
    SbOccCur(u32),
    SbOccMax(u32),
    EswitchMode(u16),
    EswitchInlineMode(u8),
    DpipeTables(Vec<GenlDevlinkAttrs>),
    DpipeTable(Vec<GenlDevlinkAttrs>),
    DpipeTableName(String),
    DpipeTableSize(u64),
    DpipeTableMatches(Vec<GenlDevlinkAttrs>),
    DpipeTableActions(Vec<GenlDevlinkAttrs>),
    DpipeTableCountersEnabled(u8),
    DpipeEntries(Vec<GenlDevlinkAttrs>),
    DpipeEntry(Vec<GenlDevlinkAttrs>),
    DpipeEntryIndex(u64),
    DpipeEntryMatchValues(Vec<GenlDevlinkAttrs>),
    DpipeEntryActionValues(Vec<GenlDevlinkAttrs>),
    DpipeEntryCounter(u64),
    DpipeMatch(Vec<GenlDevlinkAttrs>),
    DpipeMatchValue(Vec<GenlDevlinkAttrs>),
    DpipeMatchType(u32),
    DpipeAction(Vec<GenlDevlinkAttrs>),
    DpipeActionValue(Vec<GenlDevlinkAttrs>),
    DpipeActionType(u32),
    DpipeValue(u32),
    DpipeValueMask(u32),
    DpipeValueMapping(u32),
    DpipeHeaders(Vec<GenlDevlinkAttrs>),
    DpipeHader(Vec<GenlDevlinkAttrs>),
    DpipeHeaderName(String),
    DpipeHeaderId(u32),
    DpipeHeaderFields(Vec<GenlDevlinkAttrs>),
    DpipeHeaderGlobal(u8),
    DpipeHeaderIndex(u32),
    DpipeField(Vec<GenlDevlinkAttrs>),
    DpipeFieldName(String),
    DpipeFieldId(u32),
    DpipeFieldBitwidth(u32),
    DpipeFieldMappingType(u32),
    EswitchEncapMode(u8),
    ResourceList(Vec<GenlDevlinkAttrs>),
    Resource(Vec<GenlDevlinkAttrs>),
    ResoureceName(String),
    ResourceId(u64),
    ResourceSize(u64),
    ResourceSizeNew(u64),
    ResourceSizeValid(u8),
    ResourceSizeMin(u64),
    ResourceSizeMax(u64),
    ResourceSizeGran(u64),
    ResourceUnit(u8),
    ResourceOcc(u64),
    DpipeTableResourceId(u64),
    DpipeTableResourceUnit(u64),
    PortFlavour(u16),
    PortNumber(u32),
    Param(Vec<GenlDevlinkAttrs>),
    ParamName(String),
    ParamGeneric(bool),
    ParamType(u8),
    ParamValueList(Vec<GenlDevlinkAttrs>),
    ParamValue(u64),
    ParamValueData(Vec<GenlDevlinkAttrs>),
    ParamValueCmode(u8),
    RegionName(String),
    RegionSize(u64),
    RegionSnapshots(Vec<GenlDevlinkAttrs>),
    RegionSnapshot(Vec<GenlDevlinkAttrs>),
    RegionSnapshotId(u32),
    RegionChunks(Vec<GenlDevlinkAttrs>),
    RegionChunk(Vec<GenlDevlinkAttrs>),
    RegionChunkData(Vec<u8>),
    RegionChunkOffset(u64),
    RegionChunkSize(u64),
    InfoDriverName(String),
    InfoSerialNo(String),
    InfoVersionFixed(Vec<GenlDevlinkAttrs>),
    InfoVersionRunning(Vec<GenlDevlinkAttrs>),
    InfoVersionStored(Vec<GenlDevlinkAttrs>),
    InfoVersionName(String),
    InfoVersionValue(String),
    SbPoolCellSize(u32),
    Fmsg(Vec<GenlDevlinkAttrs>),
    FmsgObjNestStart(bool),
    FmsgPairNestStart(bool),
    FmsgArrNestStart(bool),
    FmsgNestEnd(bool),
    FmsgObjName(String),
    FmsgObjValueType(u8),
    FmsgObjValueData(Vec<GenlDevlinkAttrs>),
    HealthReporter(Vec<GenlDevlinkAttrs>),
    HealthReporterName(String),
    HealthReporterState(u8),
    HealthReporterErrCount(u64),
    HealthReporterRecoverCount(u64),
    HealthReporterDumpTs(u64),
    HealthReporterGracefulPeriod(u64),
    HealthReporterAucoRecover(u8),
    FlashUpdateFileName(String),
    FlashUpdateComponent(String),
    FlashUpdateStatusMsg(String),
    FlashUpdateStatusDone(u64),
    FlashUpdateStatusTotal(u64),
    PortPciPfNumber(u16),
    PortPciVfNumber(u16),
    Stats(Vec<GenlDevlinkAttrs>),
    TrapName(String),
    TrapAction(u8),
    TrapType(u8),
    TrapGeneric(bool),
    TrapMetadata(Vec<GenlDevlinkAttrs>),
    TrapGroupName(String),
    ReloadStatus(u8),
    HealthReporterDumpTsNs(u64),
    NetnsFd(u32),
    NetnsPid(u32),
    NetnsId(u32),
    HealthReporterAutoDump(u8),
    TrapPolicerId(u32),
    TrapPolicerRate(u64),
    TrapPolicerBurst(u64),
    PortFunction(Vec<GenlDevlinkAttrs>),
    InfoBoardSerialNumber(String),
    PortLanes(u32),
    PortSplittable(u8),
    PortExternal(u8),
    PortControllerNo(u32),
    FlashUpdateStatusTimeout(u32),
    FlashUpdateOverWriteMask(u32),
    ReloadAction(u8),
    ReloadActionPerformed(u32),
    ReloadLimits(u32),
    DevStats(Vec<GenlDevlinkAttrs>),
    ReloadStats(Vec<GenlDevlinkAttrs>),
    ReloadStatsEntry(Vec<GenlDevlinkAttrs>),
    ReloadStatsLimit(u8),
    ReloadStatsValue(u32),
    RemoteReloadStats(Vec<GenlDevlinkAttrs>),
    ReloadActionInfo(Vec<GenlDevlinkAttrs>),
    ReloadActionStats(Vec<GenlDevlinkAttrs>),
    PortPciSfNo(u32),
    RateType(u16),
    RateTxShare(u64),
    RateTxMax(u64),
    RateNodeName(String),
    RateParentNodeName(String),
    RegionMaxSnapshots(u32),
}

/// The mathematical value of a devlink attribute.
pub enum DevlinkAttrV {
    BusName(Seq<char>),
    Location(Seq<char>),
    PortIndex(u32),
    PortType(u16),
    DesiredType(u16),
    NetdevIndex(u32),
    NetdevName(Seq<char>),
    PortIbdevName(Seq<char>),
    PortSplitCount(u32),
    PortSplitGroup(u32),
    SbIndex(u32),
    SbSize(u32),
    SbIngressPoolCount(u16),
    SbEgressPoolCount(u16),
    SbIngressTcCount(u16),
    SbEgressTcCount(u16),
    SbPoolIndex(u16),
    SbPoolType(u8),
    SbPoolSize(u32),
    SbPoolThresholdType(u8),
    SbPoolThreshold(u32),
    SbTcIndex(u16),
    SbOccCur(u32),
    SbOccMax(u32),
    EswitchMode(u16),
    EswitchInlineMode(u8),
    DpipeTables(Seq<DevlinkAttrV>),
    DpipeTable(Seq<DevlinkAttrV>),
    DpipeTableName(Seq<char>),
    DpipeTableSize(u64),
    DpipeTableMatches(Seq<DevlinkAttrV>),
    DpipeTableActions(Seq<DevlinkAttrV>),
    DpipeTableCountersEnabled(u8),
    DpipeEntries(Seq<DevlinkAttrV>),
    DpipeEntry(Seq<DevlinkAttrV>),
    DpipeEntryIndex(u64),
    DpipeEntryMatchValues(Seq<DevlinkAttrV>),
    DpipeEntryActionValues(Seq<DevlinkAttrV>),
    DpipeEntryCounter(u64),
    DpipeMatch(Seq<DevlinkAttrV>),
    DpipeMatchValue(Seq<DevlinkAttrV>),
    DpipeMatchType(u32),
    DpipeAction(Seq<DevlinkAttrV>),
    DpipeActionValue(Seq<DevlinkAttrV>),
    DpipeActionType(u32),
    DpipeValue(u32),
    DpipeValueMask(u32),
    DpipeValueMapping(u32),
    DpipeHeaders(Seq<DevlinkAttrV>),
    DpipeHader(Seq<DevlinkAttrV>),
    DpipeHeaderName(Seq<char>),
    DpipeHeaderId(u32),
    DpipeHeaderFields(Seq<DevlinkAttrV>),
    DpipeHeaderGlobal(u8),
    DpipeHeaderIndex(u32),
    DpipeField(Seq<DevlinkAttrV>),
    DpipeFieldName(Seq<char>),
    DpipeFieldId(u32),
    DpipeFieldBitwidth(u32),
    DpipeFieldMappingType(u32),
    EswitchEncapMode(u8),
    ResourceList(Seq<DevlinkAttrV>),
    Resource(Seq<DevlinkAttrV>),
    ResoureceName(Seq<char>),
    ResourceId(u64),
    ResourceSize(u64),
    ResourceSizeNew(u64),
    ResourceSizeValid(u8),
    ResourceSizeMin(u64),
    ResourceSizeMax(u64),
    ResourceSizeGran(u64),
    ResourceUnit(u8),
    ResourceOcc(u64),
    DpipeTableResourceId(u64),
    DpipeTableResourceUnit(u64),
    PortFlavour(u16),
    PortNumber(u32),
    Param(Seq<DevlinkAttrV>),
    ParamName(Seq<char>),
    ParamGeneric(bool),
    ParamType(u8),
    ParamValueList(Seq<DevlinkAttrV>),
    ParamValue(u64),
    ParamValueData(Seq<DevlinkAttrV>),
    ParamValueCmode(u8),
    RegionName(Seq<char>),
    RegionSize(u64),
    RegionSnapshots(Seq<DevlinkAttrV>),
    RegionSnapshot(Seq<DevlinkAttrV>),
    RegionSnapshotId(u32),
    RegionChunks(Seq<DevlinkAttrV>),
    RegionChunk(Seq<DevlinkAttrV>),
    RegionChunkData(Seq<u8>),
    RegionChunkOffset(u64),
    RegionChunkSize(u64),
    InfoDriverName(Seq<char>),
    InfoSerialNo(Seq<char>),
    InfoVersionFixed(Seq<DevlinkAttrV>),
    InfoVersionRunning(Seq<DevlinkAttrV>),
    InfoVersionStored(Seq<DevlinkAttrV>),
    InfoVersionName(Seq<char>),
    InfoVersionValue(Seq<char>),
    SbPoolCellSize(u32),
    Fmsg(Seq<DevlinkAttrV>),
    FmsgObjNestStart(bool),
    FmsgPairNestStart(bool),
    FmsgArrNestStart(bool),
    FmsgNestEnd(bool),
    FmsgObjName(Seq<char>),
    FmsgObjValueType(u8),
    FmsgObjValueData(Seq<DevlinkAttrV>),
    HealthReporter(Seq<DevlinkAttrV>),
    HealthReporterName(Seq<char>),
    HealthReporterState(u8),
    HealthReporterErrCount(u64),
    HealthReporterRecoverCount(u64),
    HealthReporterDumpTs(u64),
    HealthReporterGracefulPeriod(u64),
    HealthReporterAucoRecover(u8),
    FlashUpdateFileName(Seq<char>),
    FlashUpdateComponent(Seq<char>),
    FlashUpdateStatusMsg(Seq<char>),
    FlashUpdateStatusDone(u64),
    FlashUpdateStatusTotal(u64),
    PortPciPfNumber(u16),
    PortPciVfNumber(u16),
    Stats(Seq<DevlinkAttrV>),
    TrapName(Seq<char>),
    TrapAction(u8),
    TrapType(u8),
    TrapGeneric(bool),
    TrapMetadata(Seq<DevlinkAttrV>),
    TrapGroupName(Seq<char>),
    ReloadStatus(u8),
    HealthReporterDumpTsNs(u64),
    NetnsFd(u32),
    NetnsPid(u32),
    NetnsId(u32),
    HealthReporterAutoDump(u8),
    TrapPolicerId(u32),
    TrapPolicerRate(u64),
    TrapPolicerBurst(u64),
    PortFunction(Seq<DevlinkAttrV>),
    InfoBoardSerialNumber(Seq<char>),
    PortLanes(u32),
    PortSplittable(u8),
    PortExternal(u8),
    PortControllerNo(u32),
    FlashUpdateStatusTimeout(u32),
    FlashUpdateOverWriteMask(u32),
    ReloadAction(u8),
    ReloadActionPerformed(u32),
    ReloadLimits(u32),
    DevStats(Seq<DevlinkAttrV>),
    ReloadStats(Seq<DevlinkAttrV>),
    ReloadStatsEntry(Seq<DevlinkAttrV>),
    ReloadStatsLimit(u8),
    ReloadStatsValue(u32),
    RemoteReloadStats(Seq<DevlinkAttrV>),
    ReloadActionInfo(Seq<DevlinkAttrV>),
    ReloadActionStats(Seq<DevlinkAttrV>),
    PortPciSfNo(u32),
    RateType(u16),
    RateTxShare(u64),
    RateTxMax(u64),
    RateNodeName(Seq<char>),
    RateParentNodeName(Seq<char>),
    RegionMaxSnapshots(u32),
}

/// The value of one attribute.
pub open spec fn spec_devlink_view(a: GenlDevlinkAttrs) -> DevlinkAttrV
    decreases a, 0int,
{
    match a {
        GenlDevlinkAttrs::BusName(v) => DevlinkAttrV::BusName(v@),
        GenlDevlinkAttrs::Location(v) => DevlinkAttrV::Location(v@),
        GenlDevlinkAttrs::PortIndex(v) => DevlinkAttrV::PortIndex(v),
        GenlDevlinkAttrs::PortType(v) => DevlinkAttrV::PortType(v),
        GenlDevlinkAttrs::DesiredType(v) => DevlinkAttrV::DesiredType(v),
        GenlDevlinkAttrs::NetdevIndex(v) => DevlinkAttrV::NetdevIndex(v),
        GenlDevlinkAttrs::NetdevName(v) => DevlinkAttrV::NetdevName(v@),
        GenlDevlinkAttrs::PortIbdevName(v) => DevlinkAttrV::PortIbdevName(v@),
        GenlDevlinkAttrs::PortSplitCount(v) => DevlinkAttrV::PortSplitCount(v),
        GenlDevlinkAttrs::PortSplitGroup(v) => DevlinkAttrV::PortSplitGroup(v),
        GenlDevlinkAttrs::SbIndex(v) => DevlinkAttrV::SbIndex(v),
        GenlDevlinkAttrs::SbSize(v) => DevlinkAttrV::SbSize(v),
        GenlDevlinkAttrs::SbIngressPoolCount(v) => DevlinkAttrV::SbIngressPoolCount(v),
        GenlDevlinkAttrs::SbEgressPoolCount(v) => DevlinkAttrV::SbEgressPoolCount(v),
        GenlDevlinkAttrs::SbIngressTcCount(v) => DevlinkAttrV::SbIngressTcCount(v),
        GenlDevlinkAttrs::SbEgressTcCount(v) => DevlinkAttrV::SbEgressTcCount(v),
        GenlDevlinkAttrs::SbPoolIndex(v) => DevlinkAttrV::SbPoolIndex(v),
        GenlDevlinkAttrs::SbPoolType(v) => DevlinkAttrV::SbPoolType(v),
        GenlDevlinkAttrs::SbPoolSize(v) => DevlinkAttrV::SbPoolSize(v),
        GenlDevlinkAttrs::SbPoolThresholdType(v) => DevlinkAttrV::SbPoolThresholdType(v),
        GenlDevlinkAttrs::SbPoolThreshold(v) => DevlinkAttrV::SbPoolThreshold(v),
        GenlDevlinkAttrs::SbTcIndex(v) => DevlinkAttrV::SbTcIndex(v),
        GenlDevlinkAttrs::SbOccCur(v) => DevlinkAttrV::SbOccCur(v),
        GenlDevlinkAttrs::SbOccMax(v) => DevlinkAttrV::SbOccMax(v),
        GenlDevlinkAttrs::EswitchMode(v) => DevlinkAttrV::EswitchMode(v),
        GenlDevlinkAttrs::EswitchInlineMode(v) => DevlinkAttrV::EswitchInlineMode(v),
        GenlDevlinkAttrs::DpipeTables(v) => DevlinkAttrV::DpipeTables(spec_devlink_views(v@, 0)),
        GenlDevlinkAttrs::DpipeTable(v) => DevlinkAttrV::DpipeTable(spec_devlink_views(v@, 0)),
        GenlDevlinkAttrs::DpipeTableName(v) => DevlinkAttrV::DpipeTableName(v@),
        GenlDevlinkAttrs::DpipeTableSize(v) => DevlinkAttrV::DpipeTableSize(v),
        GenlDevlinkAttrs::DpipeTableMatches(v) => DevlinkAttrV::DpipeTableMatches(spec_devlink_views(v@, 0)),
        GenlDevlinkAttrs::DpipeTableActions(v) => DevlinkAttrV::DpipeTableActions(spec_devlink_views(v@, 0)),
        GenlDevlinkAttrs::DpipeTableCountersEnabled(v) => DevlinkAttrV::DpipeTableCountersEnabled(v),
        GenlDevlinkAttrs::DpipeEntries(v) => DevlinkAttrV::DpipeEntries(spec_devlink_views(v@, 0)),
        GenlDevlinkAttrs::DpipeEntry(v) => DevlinkAttrV::DpipeEntry(spec_devlink_views(v@, 0)),
        GenlDevlinkAttrs::DpipeEntryIndex(v) => DevlinkAttrV::DpipeEntryIndex(v),
        GenlDevlinkAttrs::DpipeEntryMatchValues(v) => DevlinkAttrV::DpipeEntryMatchValues(spec_devlink_views(v@, 0)),
        GenlDevlinkAttrs::DpipeEntryActionValues(v) => DevlinkAttrV::DpipeEntryActionValues(spec_devlink_views(v@, 0)),
        GenlDevlinkAttrs::DpipeEntryCounter(v) => DevlinkAttrV::DpipeEntryCounter(v),
        GenlDevlinkAttrs::DpipeMatch(v) => DevlinkAttrV::DpipeMatch(spec_devlink_views(v@, 0)),
        GenlDevlinkAttrs::DpipeMatchValue(v) => DevlinkAttrV::DpipeMatchValue(spec_devlink_views(v@, 0)),
        GenlDevlinkAttrs::DpipeMatchType(v) => DevlinkAttrV::DpipeMatchType(v),
        GenlDevlinkAttrs::DpipeAction(v) => DevlinkAttrV::DpipeAction(spec_devlink_views(v@, 0)),
        GenlDevlinkAttrs::DpipeActionValue(v) => DevlinkAttrV::DpipeActionValue(spec_devlink_views(v@, 0)),
        GenlDevlinkAttrs::DpipeActionType(v) => DevlinkAttrV::DpipeActionType(v),
        GenlDevlinkAttrs::DpipeValue(v) => DevlinkAttrV::DpipeValue(v),
        GenlDevlinkAttrs::DpipeValueMask(v) => DevlinkAttrV::DpipeValueMask(v),
        GenlDevlinkAttrs::DpipeValueMapping(v) => DevlinkAttrV::DpipeValueMapping(v),
        GenlDevlinkAttrs::DpipeHeaders(v) => DevlinkAttrV::DpipeHeaders(spec_devlink_views(v@, 0)),
        GenlDevlinkAttrs::DpipeHader(v) => DevlinkAttrV::DpipeHader(spec_devlink_views(v@, 0)),
        GenlDevlinkAttrs::DpipeHeaderName(v) => DevlinkAttrV::DpipeHeaderName(v@),
        GenlDevlinkAttrs::DpipeHeaderId(v) => DevlinkAttrV::DpipeHeaderId(v),
        GenlDevlinkAttrs::DpipeHeaderFields(v) => DevlinkAttrV::DpipeHeaderFields(spec_devlink_views(v@, 0)),
        GenlDevlinkAttrs::DpipeHeaderGlobal(v) => DevlinkAttrV::DpipeHeaderGlobal(v),
        GenlDevlinkAttrs::DpipeHeaderIndex(v) => DevlinkAttrV::DpipeHeaderIndex(v),
        GenlDevlinkAttrs::DpipeField(v) => DevlinkAttrV::DpipeField(spec_devlink_views(v@, 0)),
        GenlDevlinkAttrs::DpipeFieldName(v) => DevlinkAttrV::DpipeFieldName(v@),
        GenlDevlinkAttrs::DpipeFieldId(v) => DevlinkAttrV::DpipeFieldId(v),
        GenlDevlinkAttrs::DpipeFieldBitwidth(v) => DevlinkAttrV::DpipeFieldBitwidth(v),
        GenlDevlinkAttrs::DpipeFieldMappingType(v) => DevlinkAttrV::DpipeFieldMappingType(v),
        GenlDevlinkAttrs::EswitchEncapMode(v) => DevlinkAttrV::EswitchEncapMode(v),
        GenlDevlinkAttrs::ResourceList(v) => DevlinkAttrV::ResourceList(spec_devlink_views(v@, 0)),
        GenlDevlinkAttrs::Resource(v) => DevlinkAttrV::Resource(spec_devlink_views(v@, 0)),
        GenlDevlinkAttrs::ResoureceName(v) => DevlinkAttrV::ResoureceName(v@),
        GenlDevlinkAttrs::ResourceId(v) => DevlinkAttrV::ResourceId(v),
        GenlDevlinkAttrs::ResourceSize(v) => DevlinkAttrV::ResourceSize(v),
        GenlDevlinkAttrs::ResourceSizeNew(v) => DevlinkAttrV::ResourceSizeNew(v),
        GenlDevlinkAttrs::ResourceSizeValid(v) => DevlinkAttrV::ResourceSizeValid(v),
        GenlDevlinkAttrs::ResourceSizeMin(v) => DevlinkAttrV::ResourceSizeMin(v),
        GenlDevlinkAttrs::ResourceSizeMax(v) => DevlinkAttrV::ResourceSizeMax(v),
        GenlDevlinkAttrs::ResourceSizeGran(v) => DevlinkAttrV::ResourceSizeGran(v),
        GenlDevlinkAttrs::ResourceUnit(v) => DevlinkAttrV::ResourceUnit(v),
        GenlDevlinkAttrs::ResourceOcc(v) => DevlinkAttrV::ResourceOcc(v),
        GenlDevlinkAttrs::DpipeTableResourceId(v) => DevlinkAttrV::DpipeTableResourceId(v),
        GenlDevlinkAttrs::DpipeTableResourceUnit(v) => DevlinkAttrV::DpipeTableResourceUnit(v),
        GenlDevlinkAttrs::PortFlavour(v) => DevlinkAttrV::PortFlavour(v),
        GenlDevlinkAttrs::PortNumber(v) => DevlinkAttrV::PortNumber(v),
        GenlDevlinkAttrs::Param(v) => DevlinkAttrV::Param(spec_devlink_views(v@, 0)),
        GenlDevlinkAttrs::ParamName(v) => DevlinkAttrV::ParamName(v@),
        GenlDevlinkAttrs::ParamGeneric(v) => DevlinkAttrV::ParamGeneric(v),
        GenlDevlinkAttrs::ParamType(v) => DevlinkAttrV::ParamType(v),
        GenlDevlinkAttrs::ParamValueList(v) => DevlinkAttrV::ParamValueList(spec_devlink_views(v@, 0)),
        GenlDevlinkAttrs::ParamValue(v) => DevlinkAttrV::ParamValue(v),
        GenlDevlinkAttrs::ParamValueData(v) => DevlinkAttrV::ParamValueData(spec_devlink_views(v@, 0)),
        GenlDevlinkAttrs::ParamValueCmode(v) => DevlinkAttrV::ParamValueCmode(v),
        GenlDevlinkAttrs::RegionName(v) => DevlinkAttrV::RegionName(v@),
        GenlDevlinkAttrs::RegionSize(v) => DevlinkAttrV::RegionSize(v),
        GenlDevlinkAttrs::RegionSnapshots(v) => DevlinkAttrV::RegionSnapshots(spec_devlink_views(v@, 0)),
        GenlDevlinkAttrs::RegionSnapshot(v) => DevlinkAttrV::RegionSnapshot(spec_devlink_views(v@, 0)),
        GenlDevlinkAttrs::RegionSnapshotId(v) => DevlinkAttrV::RegionSnapshotId(v),
        GenlDevlinkAttrs::RegionChunks(v) => DevlinkAttrV::RegionChunks(spec_devlink_views(v@, 0)),
        GenlDevlinkAttrs::RegionChunk(v) => DevlinkAttrV::RegionChunk(spec_devlink_views(v@, 0)),
        GenlDevlinkAttrs::RegionChunkData(v) => DevlinkAttrV::RegionChunkData(v@),
        GenlDevlinkAttrs::RegionChunkOffset(v) => DevlinkAttrV::RegionChunkOffset(v),
        GenlDevlinkAttrs::RegionChunkSize(v) => DevlinkAttrV::RegionChunkSize(v),
        GenlDevlinkAttrs::InfoDriverName(v) => DevlinkAttrV::InfoDriverName(v@),
        GenlDevlinkAttrs::InfoSerialNo(v) => DevlinkAttrV::InfoSerialNo(v@),
        GenlDevlinkAttrs::InfoVersionFixed(v) => DevlinkAttrV::InfoVersionFixed(spec_devlink_views(v@, 0)),
        GenlDevlinkAttrs::InfoVersionRunning(v) => DevlinkAttrV::InfoVersionRunning(spec_devlink_views(v@, 0)),
        GenlDevlinkAttrs::InfoVersionStored(v) => DevlinkAttrV::InfoVersionStored(spec_devlink_views(v@, 0)),
        GenlDevlinkAttrs::InfoVersionName(v) => DevlinkAttrV::InfoVersionName(v@),
        GenlDevlinkAttrs::InfoVersionValue(v) => DevlinkAttrV::InfoVersionValue(v@),
        GenlDevlinkAttrs::SbPoolCellSize(v) => DevlinkAttrV::SbPoolCellSize(v),
        GenlDevlinkAttrs::Fmsg(v) => DevlinkAttrV::Fmsg(spec_devlink_views(v@, 0)),
        GenlDevlinkAttrs::FmsgObjNestStart(v) => DevlinkAttrV::FmsgObjNestStart(v),
        GenlDevlinkAttrs::FmsgPairNestStart(v) => DevlinkAttrV::FmsgPairNestStart(v),
        GenlDevlinkAttrs::FmsgArrNestStart(v) => DevlinkAttrV::FmsgArrNestStart(v),
        GenlDevlinkAttrs::FmsgNestEnd(v) => DevlinkAttrV::FmsgNestEnd(v),
        GenlDevlinkAttrs::FmsgObjName(v) => DevlinkAttrV::FmsgObjName(v@),
        GenlDevlinkAttrs::FmsgObjValueType(v) => DevlinkAttrV::FmsgObjValueType(v),
        GenlDevlinkAttrs::FmsgObjValueData(v) => DevlinkAttrV::FmsgObjValueData(spec_devlink_views(v@, 0)),
        GenlDevlinkAttrs::HealthReporter(v) => DevlinkAttrV::HealthReporter(spec_devlink_views(v@, 0)),
        GenlDevlinkAttrs::HealthReporterName(v) => DevlinkAttrV::HealthReporterName(v@),
        GenlDevlinkAttrs::HealthReporterState(v) => DevlinkAttrV::HealthReporterState(v),
        GenlDevlinkAttrs::HealthReporterErrCount(v) => DevlinkAttrV::HealthReporterErrCount(v),
        GenlDevlinkAttrs::HealthReporterRecoverCount(v) => DevlinkAttrV::HealthReporterRecoverCount(v),
        GenlDevlinkAttrs::HealthReporterDumpTs(v) => DevlinkAttrV::HealthReporterDumpTs(v),
        GenlDevlinkAttrs::HealthReporterGracefulPeriod(v) => DevlinkAttrV::HealthReporterGracefulPeriod(v),
        GenlDevlinkAttrs::HealthReporterAucoRecover(v) => DevlinkAttrV::HealthReporterAucoRecover(v),
        GenlDevlinkAttrs::FlashUpdateFileName(v) => DevlinkAttrV::FlashUpdateFileName(v@),
        GenlDevlinkAttrs::FlashUpdateComponent(v) => DevlinkAttrV::FlashUpdateComponent(v@),
        GenlDevlinkAttrs::FlashUpdateStatusMsg(v) => DevlinkAttrV::FlashUpdateStatusMsg(v@),
        GenlDevlinkAttrs::FlashUpdateStatusDone(v) => DevlinkAttrV::FlashUpdateStatusDone(v),
        GenlDevlinkAttrs::FlashUpdateStatusTotal(v) => DevlinkAttrV::FlashUpdateStatusTotal(v),
        GenlDevlinkAttrs::PortPciPfNumber(v) => DevlinkAttrV::PortPciPfNumber(v),
        GenlDevlinkAttrs::PortPciVfNumber(v) => DevlinkAttrV::PortPciVfNumber(v),
        GenlDevlinkAttrs::Stats(v) => DevlinkAttrV::Stats(spec_devlink_views(v@, 0)),
        GenlDevlinkAttrs::TrapName(v) => DevlinkAttrV::TrapName(v@),
        GenlDevlinkAttrs::TrapAction(v) => DevlinkAttrV::TrapAction(v),
        GenlDevlinkAttrs::TrapType(v) => DevlinkAttrV::TrapType(v),
        GenlDevlinkAttrs::TrapGeneric(v) => DevlinkAttrV::TrapGeneric(v),
        GenlDevlinkAttrs::TrapMetadata(v) => DevlinkAttrV::TrapMetadata(spec_devlink_views(v@, 0)),
        GenlDevlinkAttrs::TrapGroupName(v) => DevlinkAttrV::TrapGroupName(v@),
        GenlDevlinkAttrs::ReloadStatus(v) => DevlinkAttrV::ReloadStatus(v),
        GenlDevlinkAttrs::HealthReporterDumpTsNs(v) => DevlinkAttrV::HealthReporterDumpTsNs(v),
        GenlDevlinkAttrs::NetnsFd(v) => DevlinkAttrV::NetnsFd(v),
        GenlDevlinkAttrs::NetnsPid(v) => DevlinkAttrV::NetnsPid(v),
        GenlDevlinkAttrs::NetnsId(v) => DevlinkAttrV::NetnsId(v),
        GenlDevlinkAttrs::HealthReporterAutoDump(v) => DevlinkAttrV::HealthReporterAutoDump(v),
        GenlDevlinkAttrs::TrapPolicerId(v) => DevlinkAttrV::TrapPolicerId(v),
        GenlDevlinkAttrs::TrapPolicerRate(v) => DevlinkAttrV::TrapPolicerRate(v),
        GenlDevlinkAttrs::TrapPolicerBurst(v) => DevlinkAttrV::TrapPolicerBurst(v),
        GenlDevlinkAttrs::PortFunction(v) => DevlinkAttrV::PortFunction(spec_devlink_views(v@, 0)),
        GenlDevlinkAttrs::InfoBoardSerialNumber(v) => DevlinkAttrV::InfoBoardSerialNumber(v@),
        GenlDevlinkAttrs::PortLanes(v) => DevlinkAttrV::PortLanes(v),
        GenlDevlinkAttrs::PortSplittable(v) => DevlinkAttrV::PortSplittable(v),
        GenlDevlinkAttrs::PortExternal(v) => DevlinkAttrV::PortExternal(v),
        GenlDevlinkAttrs::PortControllerNo(v) => DevlinkAttrV::PortControllerNo(v),
        GenlDevlinkAttrs::FlashUpdateStatusTimeout(v) => DevlinkAttrV::FlashUpdateStatusTimeout(v),
        GenlDevlinkAttrs::FlashUpdateOverWriteMask(v) => DevlinkAttrV::FlashUpdateOverWriteMask(v),
        GenlDevlinkAttrs::ReloadAction(v) => DevlinkAttrV::ReloadAction(v),
        GenlDevlinkAttrs::ReloadActionPerformed(v) => DevlinkAttrV::ReloadActionPerformed(v),
        GenlDevlinkAttrs::ReloadLimits(v) => DevlinkAttrV::ReloadLimits(v),
        GenlDevlinkAttrs::DevStats(v) => DevlinkAttrV::DevStats(spec_devlink_views(v@, 0)),
        GenlDevlinkAttrs::ReloadStats(v) => DevlinkAttrV::ReloadStats(spec_devlink_views(v@, 0)),
        GenlDevlinkAttrs::ReloadStatsEntry(v) => DevlinkAttrV::ReloadStatsEntry(spec_devlink_views(v@, 0)),
        GenlDevlinkAttrs::ReloadStatsLimit(v) => DevlinkAttrV::ReloadStatsLimit(v),
        GenlDevlinkAttrs::ReloadStatsValue(v) => DevlinkAttrV::ReloadStatsValue(v),
        GenlDevlinkAttrs::RemoteReloadStats(v) => DevlinkAttrV::RemoteReloadStats(spec_devlink_views(v@, 0)),
        GenlDevlinkAttrs::ReloadActionInfo(v) => DevlinkAttrV::ReloadActionInfo(spec_devlink_views(v@, 0)),
        GenlDevlinkAttrs::ReloadActionStats(v) => DevlinkAttrV::ReloadActionStats(spec_devlink_views(v@, 0)),
        GenlDevlinkAttrs::PortPciSfNo(v) => DevlinkAttrV::PortPciSfNo(v),
        GenlDevlinkAttrs::RateType(v) => DevlinkAttrV::RateType(v),
        GenlDevlinkAttrs::RateTxShare(v) => DevlinkAttrV::RateTxShare(v),
        GenlDevlinkAttrs::RateTxMax(v) => DevlinkAttrV::RateTxMax(v),
        GenlDevlinkAttrs::RateNodeName(v) => DevlinkAttrV::RateNodeName(v@),
        GenlDevlinkAttrs::RateParentNodeName(v) => DevlinkAttrV::RateParentNodeName(v@),
        GenlDevlinkAttrs::RegionMaxSnapshots(v) => DevlinkAttrV::RegionMaxSnapshots(v),
    }
}

/// The values of the attributes `s[i..]`.
pub open spec fn spec_devlink_views(s: Seq<GenlDevlinkAttrs>, i: int) -> Seq<DevlinkAttrV>
    decreases s, s.len() - i,
{
    if i < 0 || i >= s.len() {
        Seq::empty()
    } else {
        seq![spec_devlink_view(s[i])] + spec_devlink_views(s, i + 1)
    }
}

impl View for GenlDevlinkAttrs {
    type V = DevlinkAttrV;

    open spec fn view(&self) -> DevlinkAttrV {
        spec_devlink_view(*self)
    }
}

impl DeepView for GenlDevlinkAttrs {
    type V = DevlinkAttrV;

    open spec fn deep_view(&self) -> DevlinkAttrV {
        self@
    }
}

/// The values of a sequence of attributes are its elementwise values.
pub proof fn lemma_devlink_views_deep(s: Seq<GenlDevlinkAttrs>, i: int)
    requires
        0 <= i <= s.len(),
    ensures
        spec_devlink_views(s, i).len() == s.len() - i,
        forall|j: int|
            0 <= j < s.len() - i ==> #[trigger] spec_devlink_views(s, i)[j] == s[i + j]@,
    decreases s.len() - i,
{
    if i < s.len() {
        lemma_devlink_views_deep(s, i + 1);
    }
}

/// The semantic wire id of an attribute.
pub open spec fn spec_devlink_kind(a: GenlDevlinkAttrs) -> u16 {
    match a {
        GenlDevlinkAttrs::BusName(_) => DEVLINK_ATTR_BUS_NAME,
        GenlDevlinkAttrs::Location(_) => DEVLINK_ATTR_LOCATION,
        GenlDevlinkAttrs::PortIndex(_) => DEVLINK_ATTR_PORT_INDEX,
        GenlDevlinkAttrs::PortType(_) => DEVLINK_ATTR_PORT_TYPE,
        GenlDevlinkAttrs::DesiredType(_) => DEVLINK_ATTR_DESIRED_TYPE,
        GenlDevlinkAttrs::NetdevIndex(_) => DEVLINK_ATTR_NETDEV_IF_INDEX,
        GenlDevlinkAttrs::NetdevName(_) => DEVLINK_ATTR_NETDEV_NAME,
        GenlDevlinkAttrs::PortIbdevName(_) => DEVLINK_ATTR_PORT_IBDEV_NAME,
        GenlDevlinkAttrs::PortSplitCount(_) => DEVLINK_ATTR_PORT_SPLIT_COUNT,
        GenlDevlinkAttrs::PortSplitGroup(_) => DEVLINK_ATTR_PORT_SPLIT_GROUP,
        GenlDevlinkAttrs::SbIndex(_) => DEVLINK_ATTR_SB_INDEX,
        GenlDevlinkAttrs::SbSize(_) => DEVLINK_ATTR_SB_SIZE,
        GenlDevlinkAttrs::SbIngressPoolCount(_) => DEVLINK_ATTR_SB_INGRESS_POOL_COUNT,
        GenlDevlinkAttrs::SbEgressPoolCount(_) => DEVLINK_ATTR_SB_EGRESS_POOL_COUNT,
        GenlDevlinkAttrs::SbIngressTcCount(_) => DEVLINK_ATTR_SB_INGRESS_TC_COUNT,
        GenlDevlinkAttrs::SbEgressTcCount(_) => DEVLINK_ATTR_SB_EGRESS_TC_COUNT,
        GenlDevlinkAttrs::SbPoolIndex(_) => DEVLINK_ATTR_SB_POOL_INDEX,
        GenlDevlinkAttrs::SbPoolType(_) => DEVLINK_ATTR_SB_POOL_TYPE,
        GenlDevlinkAttrs::SbPoolSize(_) => DEVLINK_ATTR_SB_POOL_SIZE,
        GenlDevlinkAttrs::SbPoolThresholdType(_) => DEVLINK_ATTR_SB_POOL_THRESHOLD_TYPE,
        GenlDevlinkAttrs::SbPoolThreshold(_) => DEVLINK_ATTR_SB_THRESHOLD,
        GenlDevlinkAttrs::SbTcIndex(_) => DEVLINK_ATTR_SB_TC_INDEX,
        GenlDevlinkAttrs::SbOccCur(_) => DEVLINK_ATTR_SB_OCC_CUR,
        GenlDevlinkAttrs::SbOccMax(_) => DEVLINK_ATTR_SB_OCC_MAX,
        GenlDevlinkAttrs::EswitchMode(_) => DEVLINK_ATTR_ESWITCH_MODE,
        GenlDevlinkAttrs::EswitchInlineMode(_) => DEVLINK_ATTR_ESWITCH_INLINE_MODE,
        GenlDevlinkAttrs::DpipeTables(_) => DEVLINK_ATTR_DPIPE_TABLES,
        GenlDevlinkAttrs::DpipeTable(_) => DEVLINK_ATTR_DPIPE_TABLE,
        GenlDevlinkAttrs::DpipeTableName(_) => DEVLINK_ATTR_DPIPE_TABLE_NAME,
        GenlDevlinkAttrs::DpipeTableSize(_) => DEVLINK_ATTR_DPIPE_TABLE_SIZE,
        GenlDevlinkAttrs::DpipeTableMatches(_) => DEVLINK_ATTR_DPIPE_TABLE_MATCHES,
        GenlDevlinkAttrs::DpipeTableActions(_) => DEVLINK_ATTR_DPIPE_TABLE_ACTIONS,
        GenlDevlinkAttrs::DpipeTableCountersEnabled(_) => DEVLINK_ATTR_DPIPE_TABLE_COUNTERS_ENABLED,
        GenlDevlinkAttrs::DpipeEntries(_) => DEVLINK_ATTR_DPIPE_ENTRIES,
        GenlDevlinkAttrs::DpipeEntry(_) => DEVLINK_ATTR_DPIPE_ENTRY,
        GenlDevlinkAttrs::DpipeEntryIndex(_) => DEVLINK_ATTR_DPIPE_ENTRY_INDEX,
        GenlDevlinkAttrs::DpipeEntryMatchValues(_) => DEVLINK_ATTR_DPIPE_ENTRY_MATCH_VALUES,
        GenlDevlinkAttrs::DpipeEntryActionValues(_) => DEVLINK_ATTR_DPIPE_ENTRY_ACTION_VALUES,
        GenlDevlinkAttrs::DpipeEntryCounter(_) => DEVLINK_ATTR_DPIPE_ENTRY_COUNTER,
        GenlDevlinkAttrs::DpipeMatch(_) => DEVLINK_ATTR_DPIPE_MATCH,
        GenlDevlinkAttrs::DpipeMatchValue(_) => DEVLINK_ATTR_DPIPE_MATCH_VALUE,
        GenlDevlinkAttrs::DpipeMatchType(_) => DEVLINK_ATTR_DPIPE_MATCH_TYPE,
        GenlDevlinkAttrs::DpipeAction(_) => DEVLINK_ATTR_DPIPE_ACTION,
        GenlDevlinkAttrs::DpipeActionValue(_) => DEVLINK_ATTR_DPIPE_ACTION_VALUE,
        GenlDevlinkAttrs::DpipeActionType(_) => DEVLINK_ATTR_DPIPE_ACTION_TYPE,
        GenlDevlinkAttrs::DpipeValue(_) => DEVLINK_ATTR_DPIPE_VALUE,
        GenlDevlinkAttrs::DpipeValueMask(_) => DEVLINK_ATTR_DPIPE_VALUE_MASK,
        GenlDevlinkAttrs::DpipeValueMapping(_) => DEVLINK_ATTR_DPIPE_VALUE_MAPPING,
        GenlDevlinkAttrs::DpipeHeaders(_) => DEVLINK_ATTR_DPIPE_HEADERS,
        GenlDevlinkAttrs::DpipeHader(_) => DEVLINK_ATTR_DPIPE_HEADER,
        GenlDevlinkAttrs::DpipeHeaderName(_) => DEVLINK_ATTR_DPIPE_HEADER_NAME,
        GenlDevlinkAttrs::DpipeHeaderId(_) => DEVLINK_ATTR_DPIPE_HEADER_ID,
        GenlDevlinkAttrs::DpipeHeaderFields(_) => DEVLINK_ATTR_DPIPE_HEADER_FIELDS,
        GenlDevlinkAttrs::DpipeHeaderGlobal(_) => DEVLINK_ATTR_DPIPE_HEADER_GLOBAL,
        GenlDevlinkAttrs::DpipeHeaderIndex(_) => DEVLINK_ATTR_DPIPE_HEADER_INDEX,
        GenlDevlinkAttrs::DpipeField(_) => DEVLINK_ATTR_DPIPE_FIELD,
        GenlDevlinkAttrs::DpipeFieldName(_) => DEVLINK_ATTR_DPIPE_FIELD_NAME,
        GenlDevlinkAttrs::DpipeFieldId(_) => DEVLINK_ATTR_DPIPE_FIELD_ID,
        GenlDevlinkAttrs::DpipeFieldBitwidth(_) => DEVLINK_ATTR_DPIPE_FIELD_BITWIDTH,
        GenlDevlinkAttrs::DpipeFieldMappingType(_) => DEVLINK_ATTR_DPIPE_FIELD_MAPPING_TYPE,
        GenlDevlinkAttrs::EswitchEncapMode(_) => DEVLINK_ATTR_ESWITCH_ENCAP_MODE,
        GenlDevlinkAttrs::ResourceList(_) => DEVLINK_ATTR_RESOURCE_LIST,
        GenlDevlinkAttrs::Resource(_) => DEVLINK_ATTR_RESOURCE,
        GenlDevlinkAttrs::ResoureceName(_) => DEVLINK_ATTR_RESOURCE_NAME,
        GenlDevlinkAttrs::ResourceId(_) => DEVLINK_ATTR_RESOURCE_ID,
        GenlDevlinkAttrs::ResourceSize(_) => DEVLINK_ATTR_RESOURCE_SIZE,
        GenlDevlinkAttrs::ResourceSizeNew(_) => DEVLINK_ATTR_RESOURCE_SIZE_NEW,
        GenlDevlinkAttrs::ResourceSizeValid(_) => DEVLINK_ATTR_RESOURCE_SIZE_VALID,
        GenlDevlinkAttrs::ResourceSizeMin(_) => DEVLINK_ATTR_RESOURCE_SIZE_MIN,
        GenlDevlinkAttrs::ResourceSizeMax(_) => DEVLINK_ATTR_RESOURCE_SIZE_MAX,
        GenlDevlinkAttrs::ResourceSizeGran(_) => DEVLINK_ATTR_RESOURCE_SIZE_GRAN,
        GenlDevlinkAttrs::ResourceUnit(_) => DEVLINK_ATTR_RESOURCE_UNIT,
        GenlDevlinkAttrs::ResourceOcc(_) => DEVLINK_ATTR_RESOURCE_OCC,
        GenlDevlinkAttrs::DpipeTableResourceId(_) => DEVLINK_ATTR_DPIPE_TABLE_RESOURCE_ID,
        GenlDevlinkAttrs::DpipeTableResourceUnit(_) => DEVLINK_ATTR_DPIPE_TABLE_RESOURCE_UNITS,
        GenlDevlinkAttrs::PortFlavour(_) => DEVLINK_ATTR_PORT_FLAVOUR,
        GenlDevlinkAttrs::PortNumber(_) => DEVLINK_ATTR_PORT_NUMBER,
        GenlDevlinkAttrs::Param(_) => DEVLINK_ATTR_PARAM,
        GenlDevlinkAttrs::ParamName(_) => DEVLINK_ATTR_PARAM_NAME,
        GenlDevlinkAttrs::ParamGeneric(_) => DEVLINK_ATTR_PARAM_GENERIC,
        GenlDevlinkAttrs::ParamType(_) => DEVLINK_ATTR_PARAM_TYPE,
        GenlDevlinkAttrs::ParamValueList(_) => DEVLINK_ATTR_PARAM_VALUES_LIST,
        GenlDevlinkAttrs::ParamValue(_) => DEVLINK_ATTR_PARAM_VALUE,
        GenlDevlinkAttrs::ParamValueData(_) => DEVLINK_ATTR_PARAM_VALUE_DATA,
        GenlDevlinkAttrs::ParamValueCmode(_) => DEVLINK_ATTR_PARAM_VALUE_CMODE,
        GenlDevlinkAttrs::RegionName(_) => DEVLINK_ATTR_REGION_NAME,
        GenlDevlinkAttrs::RegionSize(_) => DEVLINK_ATTR_REGION_SIZE,
        GenlDevlinkAttrs::RegionSnapshots(_) => DEVLINK_ATTR_REGION_SNAPSHOTS,
        GenlDevlinkAttrs::RegionSnapshot(_) => DEVLINK_ATTR_REGION_SNAPSHOT,
        GenlDevlinkAttrs::RegionSnapshotId(_) => DEVLINK_ATTR_REGION_SNAPSHOT_ID,
        GenlDevlinkAttrs::RegionChunks(_) => DEVLINK_ATTR_REGION_CHUNKS,
        GenlDevlinkAttrs::RegionChunk(_) => DEVLINK_ATTR_REGION_CHUNK,
        GenlDevlinkAttrs::RegionChunkData(_) => DEVLINK_ATTR_REGION_CHUNK_DATA,
        GenlDevlinkAttrs::RegionChunkOffset(_) => DEVLINK_ATTR_REGION_CHUNK_ADDR,
        GenlDevlinkAttrs::RegionChunkSize(_) => DEVLINK_ATTR_REGION_SIZE,
        GenlDevlinkAttrs::InfoDriverName(_) => DEVLINK_ATTR_INFO_DRIVER_NAME,
        GenlDevlinkAttrs::InfoSerialNo(_) => DEVLINK_ATTR_INFO_SERIAL_NUMBER,
        GenlDevlinkAttrs::InfoVersionFixed(_) => DEVLINK_ATTR_INFO_VERSION_FIXED,
        GenlDevlinkAttrs::InfoVersionRunning(_) => DEVLINK_ATTR_INFO_VERSION_RUNNING,
        GenlDevlinkAttrs::InfoVersionStored(_) => DEVLINK_ATTR_INFO_VERSION_STORED,
        GenlDevlinkAttrs::InfoVersionName(_) => DEVLINK_ATTR_INFO_VERSION_NAME,
        GenlDevlinkAttrs::InfoVersionValue(_) => DEVLINK_ATTR_INFO_VERSION_VALUE,
        GenlDevlinkAttrs::SbPoolCellSize(_) => DEVLINK_ATTR_SB_POOL_CELL_SIZE,
        GenlDevlinkAttrs::Fmsg(_) => DEVLINK_ATTR_FMSG,
        GenlDevlinkAttrs::FmsgObjNestStart(_) => DEVLINK_ATTR_FMSG_OBJ_NEST_START,
        GenlDevlinkAttrs::FmsgPairNestStart(_) => DEVLINK_ATTR_FMSG_PAIR_NEST_START,
        GenlDevlinkAttrs::FmsgArrNestStart(_) => DEVLINK_ATTR_FMSG_ARR_NEST_START,
        GenlDevlinkAttrs::FmsgNestEnd(_) => DEVLINK_ATTR_FMSG_NEST_END,
        GenlDevlinkAttrs::FmsgObjName(_) => DEVLINK_ATTR_FMSG_OBJ_NAME,
        GenlDevlinkAttrs::FmsgObjValueType(_) => DEVLINK_ATTR_FMSG_OBJ_VALUE_TYPE,
        GenlDevlinkAttrs::FmsgObjValueData(_) => DEVLINK_ATTR_FMSG_OBJ_VALUE_DATA,
        GenlDevlinkAttrs::HealthReporter(_) => DEVLINK_ATTR_HEALTH_REPORTER,
        GenlDevlinkAttrs::HealthReporterName(_) => DEVLINK_ATTR_HEALTH_REPORTER_NAME,
        GenlDevlinkAttrs::HealthReporterState(_) => DEVLINK_ATTR_HEALTH_REPORTER_STATE,
        GenlDevlinkAttrs::HealthReporterErrCount(_) => DEVLINK_ATTR_HEALTH_REPORTER_ERR_COUNT,
        GenlDevlinkAttrs::HealthReporterRecoverCount(_) => DEVLINK_ATTR_HEALTH_REPORTER_RECOVER_COUNT,
        GenlDevlinkAttrs::HealthReporterDumpTs(_) => DEVLINK_ATTR_HEALTH_REPORTER_DUMP_TS,
        GenlDevlinkAttrs::HealthReporterGracefulPeriod(_) => DEVLINK_ATTR_HEALTH_REPORTER_GRACEFUL_PERIOD,
        GenlDevlinkAttrs::HealthReporterAucoRecover(_) => DEVLINK_ATTR_HEALTH_REPORTER_AUTO_RECOVER,
        GenlDevlinkAttrs::FlashUpdateFileName(_) => DEVLINK_ATTR_FLASH_UPDATE_FILE_NAME,
        GenlDevlinkAttrs::FlashUpdateComponent(_) => DEVLINK_ATTR_FLASH_UPDATE_COMPONENT,
        GenlDevlinkAttrs::FlashUpdateStatusMsg(_) => DEVLINK_ATTR_FLASH_UPDATE_STATUS_MSG,
        GenlDevlinkAttrs::FlashUpdateStatusDone(_) => DEVLINK_ATTR_FLASH_UPDATE_STATUS_DONE,
        GenlDevlinkAttrs::FlashUpdateStatusTotal(_) => DEVLINK_ATTR_FLASH_UPDATE_STATUS_TOTAL,
        GenlDevlinkAttrs::PortPciPfNumber(_) => DEVLINK_ATTR_PORT_PCI_PF_NUMBER,
        GenlDevlinkAttrs::PortPciVfNumber(_) => DEVLINK_ATTR_PORT_PCI_VF_NUMBER,
        GenlDevlinkAttrs::Stats(_) => DEVLINK_ATTR_STATS,
        GenlDevlinkAttrs::TrapName(_) => DEVLINK_ATTR_TRAP_NAME,
        GenlDevlinkAttrs::TrapAction(_) => DEVLINK_ATTR_TRAP_ACTION,
        GenlDevlinkAttrs::TrapType(_) => DEVLINK_ATTR_TRAP_TYPE,
        GenlDevlinkAttrs::TrapGeneric(_) => DEVLINK_ATTR_TRAP_GENERIC,
        GenlDevlinkAttrs::TrapMetadata(_) => DEVLINK_ATTR_TRAP_METADATA,
        GenlDevlinkAttrs::TrapGroupName(_) => DEVLINK_ATTR_TRAP_GROUP_NAME,
        GenlDevlinkAttrs::ReloadStatus(_) => DEVLINK_ATTR_RELOAD_FAILED,
        GenlDevlinkAttrs::HealthReporterDumpTsNs(_) => DEVLINK_ATTR_HEALTH_REPORTER_DUMP_TS_NS,
        GenlDevlinkAttrs::NetnsFd(_) => DEVLINK_ATTR_NETNS_FD,
        GenlDevlinkAttrs::NetnsPid(_) => DEVLINK_ATTR_NETNS_PID,
        GenlDevlinkAttrs::NetnsId(_) => DEVLINK_ATTR_NETNS_ID,
        GenlDevlinkAttrs::HealthReporterAutoDump(_) => DEVLINK_ATTR_HEALTH_REPORTER_AUTO_DUMP,
        GenlDevlinkAttrs::TrapPolicerId(_) => DEVLINK_ATTR_TRAP_POLICER_ID,
        GenlDevlinkAttrs::TrapPolicerRate(_) => DEVLINK_ATTR_TRAP_POLICER_RATE,
        GenlDevlinkAttrs::TrapPolicerBurst(_) => DEVLINK_ATTR_TRAP_POLICER_BURST,
        GenlDevlinkAttrs::PortFunction(_) => DEVLINK_ATTR_PORT_FUNCTION,
        GenlDevlinkAttrs::InfoBoardSerialNumber(_) => DEVLINK_ATTR_INFO_BOARD_SERIAL_NUMBER,
        GenlDevlinkAttrs::PortLanes(_) => DEVLINK_ATTR_PORT_LANES,
        GenlDevlinkAttrs::PortSplittable(_) => DEVLINK_ATTR_PORT_SPLITTABLE,
        GenlDevlinkAttrs::PortExternal(_) => DEVLINK_ATTR_PORT_EXTERNAL,
        GenlDevlinkAttrs::PortControllerNo(_) => DEVLINK_ATTR_PORT_CONTROLLER_NUMBER,
        GenlDevlinkAttrs::FlashUpdateStatusTimeout(_) => DEVLINK_ATTR_FLASH_UPDATE_STATUS_TIMEOUT,
        GenlDevlinkAttrs::FlashUpdateOverWriteMask(_) => DEVLINK_ATTR_FLASH_UPDATE_OVERWRITE_MASK,
        GenlDevlinkAttrs::ReloadAction(_) => DEVLINK_ATTR_RELOAD_ACTION,
        GenlDevlinkAttrs::ReloadActionPerformed(_) => DEVLINK_ATTR_RELOAD_ACTIONS_PERFORMED,
        GenlDevlinkAttrs::ReloadLimits(_) => DEVLINK_ATTR_RELOAD_LIMITS,
        GenlDevlinkAttrs::DevStats(_) => DEVLINK_ATTR_DEV_STATS,
        GenlDevlinkAttrs::ReloadStats(_) => DEVLINK_ATTR_RELOAD_STATS,
        GenlDevlinkAttrs::ReloadStatsEntry(_) => DEVLINK_ATTR_RELOAD_STATS_ENTRY,
        GenlDevlinkAttrs::ReloadStatsLimit(_) => DEVLINK_ATTR_RELOAD_STATS_LIMIT,
        GenlDevlinkAttrs::ReloadStatsValue(_) => DEVLINK_ATTR_RELOAD_STATS_VALUE,
        GenlDevlinkAttrs::RemoteReloadStats(_) => DEVLINK_ATTR_REMOTE_RELOAD_SATS,
        GenlDevlinkAttrs::ReloadActionInfo(_) => DEVLINK_ATTR_RELOAD_ACTION_INFO,
        GenlDevlinkAttrs::ReloadActionStats(_) => DEVLINK_ATTR_RELAOD_ACTION_STATS,
        GenlDevlinkAttrs::PortPciSfNo(_) => DEVLINK_ATTR_PORT_PCI_SF_NUMBER,
        GenlDevlinkAttrs::RateType(_) => DEVLINK_ATTR_RATE_TYPE,
        GenlDevlinkAttrs::RateTxShare(_) => DEVLINK_ATTR_RATE_TX_SHARE,
        GenlDevlinkAttrs::RateTxMax(_) => DEVLINK_ATTR_RATE_TX_MAX,
        GenlDevlinkAttrs::RateNodeName(_) => DEVLINK_ATTR_RATE_NODE_NAME,
        GenlDevlinkAttrs::RateParentNodeName(_) => DEVLINK_ATTR_RATE_PARENT_NODE_NAME,
        GenlDevlinkAttrs::RegionMaxSnapshots(_) => DEVLINK_ATTR_REGION_MAX_SNAPSHOTS,
    }
}

/// Whether the family marks the attribute as nested on the wire.
pub open spec fn spec_devlink_nested(a: GenlDevlinkAttrs) -> bool {
    match a {
        GenlDevlinkAttrs::BusName(_) => false,
        GenlDevlinkAttrs::Location(_) => false,
        GenlDevlinkAttrs::PortIndex(_) => false,
        GenlDevlinkAttrs::PortType(_) => false,
        GenlDevlinkAttrs::DesiredType(_) => false,
        GenlDevlinkAttrs::NetdevIndex(_) => false,
        GenlDevlinkAttrs::NetdevName(_) => false,
        GenlDevlinkAttrs::PortIbdevName(_) => false,
        GenlDevlinkAttrs::PortSplitCount(_) => false,
        GenlDevlinkAttrs::PortSplitGroup(_) => false,
        GenlDevlinkAttrs::SbIndex(_) => false,
        GenlDevlinkAttrs::SbSize(_) => false,
        GenlDevlinkAttrs::SbIngressPoolCount(_) => false,
        GenlDevlinkAttrs::SbEgressPoolCount(_) => false,
        GenlDevlinkAttrs::SbIngressTcCount(_) => false,
        GenlDevlinkAttrs::SbEgressTcCount(_) => false,
        GenlDevlinkAttrs::SbPoolIndex(_) => false,
        GenlDevlinkAttrs::SbPoolType(_) => false,
        GenlDevlinkAttrs::SbPoolSize(_) => false,
        GenlDevlinkAttrs::SbPoolThresholdType(_) => false,
        GenlDevlinkAttrs::SbPoolThreshold(_) => false,
        GenlDevlinkAttrs::SbTcIndex(_) => false,
        GenlDevlinkAttrs::SbOccCur(_) => false,
        GenlDevlinkAttrs::SbOccMax(_) => false,
        GenlDevlinkAttrs::EswitchMode(_) => false,
        GenlDevlinkAttrs::EswitchInlineMode(_) => false,
        GenlDevlinkAttrs::DpipeTables(_) => true,
        GenlDevlinkAttrs::DpipeTable(_) => true,
        GenlDevlinkAttrs::DpipeTableName(_) => false,
        GenlDevlinkAttrs::DpipeTableSize(_) => false,
        GenlDevlinkAttrs::DpipeTableMatches(_) => true,
        GenlDevlinkAttrs::DpipeTableActions(_) => true,
        GenlDevlinkAttrs::DpipeTableCountersEnabled(_) => false,
        GenlDevlinkAttrs::DpipeEntries(_) => true,
        GenlDevlinkAttrs::DpipeEntry(_) => true,
        GenlDevlinkAttrs::DpipeEntryIndex(_) => false,
        GenlDevlinkAttrs::DpipeEntryMatchValues(_) => true,
        GenlDevlinkAttrs::DpipeEntryActionValues(_) => true,
        GenlDevlinkAttrs::DpipeEntryCounter(_) => false,
        GenlDevlinkAttrs::DpipeMatch(_) => true,
        GenlDevlinkAttrs::DpipeMatchValue(_) => true,
        GenlDevlinkAttrs::DpipeMatchType(_) => false,
        GenlDevlinkAttrs::DpipeAction(_) => true,
        GenlDevlinkAttrs::DpipeActionValue(_) => true,
        GenlDevlinkAttrs::DpipeActionType(_) => false,
        GenlDevlinkAttrs::DpipeValue(_) => false,
        GenlDevlinkAttrs::DpipeValueMask(_) => false,
        GenlDevlinkAttrs::DpipeValueMapping(_) => false,
        GenlDevlinkAttrs::DpipeHeaders(_) => true,
        GenlDevlinkAttrs::DpipeHader(_) => true,
        GenlDevlinkAttrs::DpipeHeaderName(_) => false,
        GenlDevlinkAttrs::DpipeHeaderId(_) => false,
        GenlDevlinkAttrs::DpipeHeaderFields(_) => true,
        GenlDevlinkAttrs::DpipeHeaderGlobal(_) => false,
        GenlDevlinkAttrs::DpipeHeaderIndex(_) => false,
        GenlDevlinkAttrs::DpipeField(_) => true,
        GenlDevlinkAttrs::DpipeFieldName(_) => false,
        GenlDevlinkAttrs::DpipeFieldId(_) => false,
        GenlDevlinkAttrs::DpipeFieldBitwidth(_) => false,
        GenlDevlinkAttrs::DpipeFieldMappingType(_) => false,
        GenlDevlinkAttrs::EswitchEncapMode(_) => false,
        GenlDevlinkAttrs::ResourceList(_) => true,
        GenlDevlinkAttrs::Resource(_) => true,
        GenlDevlinkAttrs::ResoureceName(_) => false,
        GenlDevlinkAttrs::ResourceId(_) => false,
        GenlDevlinkAttrs::ResourceSize(_) => false,
        GenlDevlinkAttrs::ResourceSizeNew(_) => false,
        GenlDevlinkAttrs::ResourceSizeValid(_) => false,
        GenlDevlinkAttrs::ResourceSizeMin(_) => false,
        GenlDevlinkAttrs::ResourceSizeMax(_) => false,
        GenlDevlinkAttrs::ResourceSizeGran(_) => false,
        GenlDevlinkAttrs::ResourceUnit(_) => false,
        GenlDevlinkAttrs::ResourceOcc(_) => false,
        GenlDevlinkAttrs::DpipeTableResourceId(_) => false,
        GenlDevlinkAttrs::DpipeTableResourceUnit(_) => false,
        GenlDevlinkAttrs::PortFlavour(_) => false,
        GenlDevlinkAttrs::PortNumber(_) => false,
        GenlDevlinkAttrs::Param(_) => true,
        GenlDevlinkAttrs::ParamName(_) => false,
        GenlDevlinkAttrs::ParamGeneric(_) => false,
        GenlDevlinkAttrs::ParamType(_) => false,
        GenlDevlinkAttrs::ParamValueList(_) => true,
        GenlDevlinkAttrs::ParamValue(_) => true,
        GenlDevlinkAttrs::ParamValueData(_) => false,
        GenlDevlinkAttrs::ParamValueCmode(_) => false,
        GenlDevlinkAttrs::RegionName(_) => false,
        GenlDevlinkAttrs::RegionSize(_) => false,
        GenlDevlinkAttrs::RegionSnapshots(_) => true,
        GenlDevlinkAttrs::RegionSnapshot(_) => true,
        GenlDevlinkAttrs::RegionSnapshotId(_) => false,
        GenlDevlinkAttrs::RegionChunks(_) => true,
        GenlDevlinkAttrs::RegionChunk(_) => true,
        GenlDevlinkAttrs::RegionChunkData(_) => false,
        GenlDevlinkAttrs::RegionChunkOffset(_) => false,
        GenlDevlinkAttrs::RegionChunkSize(_) => false,
        GenlDevlinkAttrs::InfoDriverName(_) => false,
        GenlDevlinkAttrs::InfoSerialNo(_) => false,
        GenlDevlinkAttrs::InfoVersionFixed(_) => true,
        GenlDevlinkAttrs::InfoVersionRunning(_) => true,
        GenlDevlinkAttrs::InfoVersionStored(_) => true,
        GenlDevlinkAttrs::InfoVersionName(_) => false,
        GenlDevlinkAttrs::InfoVersionValue(_) => false,
        GenlDevlinkAttrs::SbPoolCellSize(_) => false,
        GenlDevlinkAttrs::Fmsg(_) => true,
        GenlDevlinkAttrs::FmsgObjNestStart(_) => false,
        GenlDevlinkAttrs::FmsgPairNestStart(_) => false,
        GenlDevlinkAttrs::FmsgArrNestStart(_) => false,
        GenlDevlinkAttrs::FmsgNestEnd(_) => false,
        GenlDevlinkAttrs::FmsgObjName(_) => false,
        GenlDevlinkAttrs::FmsgObjValueType(_) => false,
        GenlDevlinkAttrs::FmsgObjValueData(_) => false,
        GenlDevlinkAttrs::HealthReporter(_) => true,
        GenlDevlinkAttrs::HealthReporterName(_) => false,
        GenlDevlinkAttrs::HealthReporterState(_) => false,
        GenlDevlinkAttrs::HealthReporterErrCount(_) => false,
        GenlDevlinkAttrs::HealthReporterRecoverCount(_) => false,
        GenlDevlinkAttrs::HealthReporterDumpTs(_) => false,
        GenlDevlinkAttrs::HealthReporterGracefulPeriod(_) => false,
        GenlDevlinkAttrs::HealthReporterAucoRecover(_) => false,
        GenlDevlinkAttrs::FlashUpdateFileName(_) => false,
        GenlDevlinkAttrs::FlashUpdateComponent(_) => false,
        GenlDevlinkAttrs::FlashUpdateStatusMsg(_) => false,
        GenlDevlinkAttrs::FlashUpdateStatusDone(_) => false,
        GenlDevlinkAttrs::FlashUpdateStatusTotal(_) => false,
        GenlDevlinkAttrs::PortPciPfNumber(_) => false,
        GenlDevlinkAttrs::PortPciVfNumber(_) => false,
        GenlDevlinkAttrs::Stats(_) => true,
        GenlDevlinkAttrs::TrapName(_) => false,
        GenlDevlinkAttrs::TrapAction(_) => false,
        GenlDevlinkAttrs::TrapType(_) => false,
        GenlDevlinkAttrs::TrapGeneric(_) => false,
        GenlDevlinkAttrs::TrapMetadata(_) => true,
        GenlDevlinkAttrs::TrapGroupName(_) => false,
        GenlDevlinkAttrs::ReloadStatus(_) => false,
        GenlDevlinkAttrs::HealthReporterDumpTsNs(_) => false,
        GenlDevlinkAttrs::NetnsFd(_) => false,
        GenlDevlinkAttrs::NetnsPid(_) => false,
        GenlDevlinkAttrs::NetnsId(_) => false,
        GenlDevlinkAttrs::HealthReporterAutoDump(_) => false,
        GenlDevlinkAttrs::TrapPolicerId(_) => false,
        GenlDevlinkAttrs::TrapPolicerRate(_) => false,
        GenlDevlinkAttrs::TrapPolicerBurst(_) => false,
        GenlDevlinkAttrs::PortFunction(_) => true,
        GenlDevlinkAttrs::InfoBoardSerialNumber(_) => false,
        GenlDevlinkAttrs::PortLanes(_) => false,
        GenlDevlinkAttrs::PortSplittable(_) => false,
        GenlDevlinkAttrs::PortExternal(_) => false,
        GenlDevlinkAttrs::PortControllerNo(_) => false,
        GenlDevlinkAttrs::FlashUpdateStatusTimeout(_) => false,
        GenlDevlinkAttrs::FlashUpdateOverWriteMask(_) => false,
        GenlDevlinkAttrs::ReloadAction(_) => false,
        GenlDevlinkAttrs::ReloadActionPerformed(_) => false,
        GenlDevlinkAttrs::ReloadLimits(_) => false,
        GenlDevlinkAttrs::DevStats(_) => true,
        GenlDevlinkAttrs::ReloadStats(_) => true,
        GenlDevlinkAttrs::ReloadStatsEntry(_) => true,
        GenlDevlinkAttrs::ReloadStatsLimit(_) => false,
        GenlDevlinkAttrs::ReloadStatsValue(_) => false,
        GenlDevlinkAttrs::RemoteReloadStats(_) => true,
        GenlDevlinkAttrs::ReloadActionInfo(_) => true,
        GenlDevlinkAttrs::ReloadActionStats(_) => true,
        GenlDevlinkAttrs::PortPciSfNo(_) => false,
        GenlDevlinkAttrs::RateType(_) => false,
        GenlDevlinkAttrs::RateTxShare(_) => false,
        GenlDevlinkAttrs::RateTxMax(_) => false,
        GenlDevlinkAttrs::RateNodeName(_) => false,
        GenlDevlinkAttrs::RateParentNodeName(_) => false,
        GenlDevlinkAttrs::RegionMaxSnapshots(_) => false,
    }
}

/// The exact unpadded payload bytes of an attribute.
pub open spec fn spec_devlink_payload(a: GenlDevlinkAttrs) -> Seq<u8>
    decreases a, 0int,
{
    match a {
        GenlDevlinkAttrs::BusName(v) => spec_string_payload(v@),
        GenlDevlinkAttrs::Location(v) => spec_string_payload(v@),
        GenlDevlinkAttrs::PortIndex(v) => spec_u32_to_le_bytes(v),
        GenlDevlinkAttrs::PortType(v) => spec_u16_to_le_bytes(v),
        GenlDevlinkAttrs::DesiredType(v) => spec_u16_to_le_bytes(v),
        GenlDevlinkAttrs::NetdevIndex(v) => spec_u32_to_le_bytes(v),
        GenlDevlinkAttrs::NetdevName(v) => spec_string_payload(v@),
        GenlDevlinkAttrs::PortIbdevName(v) => spec_string_payload(v@),
        GenlDevlinkAttrs::PortSplitCount(v) => spec_u32_to_le_bytes(v),
        GenlDevlinkAttrs::PortSplitGroup(v) => spec_u32_to_le_bytes(v),
        GenlDevlinkAttrs::SbIndex(v) => spec_u32_to_le_bytes(v),
        GenlDevlinkAttrs::SbSize(v) => spec_u32_to_le_bytes(v),
        GenlDevlinkAttrs::SbIngressPoolCount(v) => spec_u16_to_le_bytes(v),
        GenlDevlinkAttrs::SbEgressPoolCount(v) => spec_u16_to_le_bytes(v),
        GenlDevlinkAttrs::SbIngressTcCount(v) => spec_u16_to_le_bytes(v),
        GenlDevlinkAttrs::SbEgressTcCount(v) => spec_u16_to_le_bytes(v),
        GenlDevlinkAttrs::SbPoolIndex(v) => spec_u16_to_le_bytes(v),
        GenlDevlinkAttrs::SbPoolType(v) => seq![v],
        GenlDevlinkAttrs::SbPoolSize(v) => spec_u32_to_le_bytes(v),
        GenlDevlinkAttrs::SbPoolThresholdType(v) => seq![v],
        GenlDevlinkAttrs::SbPoolThreshold(v) => spec_u32_to_le_bytes(v),
        GenlDevlinkAttrs::SbTcIndex(v) => spec_u16_to_le_bytes(v),
        GenlDevlinkAttrs::SbOccCur(v) => spec_u32_to_le_bytes(v),
        GenlDevlinkAttrs::SbOccMax(v) => spec_u32_to_le_bytes(v),
        GenlDevlinkAttrs::EswitchMode(v) => spec_u16_to_le_bytes(v),
        GenlDevlinkAttrs::EswitchInlineMode(v) => seq![v],
        GenlDevlinkAttrs::DpipeTables(v) => spec_devlink_stream_from(v@, 0),
        GenlDevlinkAttrs::DpipeTable(v) => spec_devlink_stream_from(v@, 0),
        GenlDevlinkAttrs::DpipeTableName(v) => spec_string_payload(v@),
        GenlDevlinkAttrs::DpipeTableSize(v) => spec_u64_to_le_bytes(v),
        GenlDevlinkAttrs::DpipeTableMatches(v) => spec_devlink_stream_from(v@, 0),
        GenlDevlinkAttrs::DpipeTableActions(v) => spec_devlink_stream_from(v@, 0),
        GenlDevlinkAttrs::DpipeTableCountersEnabled(v) => seq![v],
        GenlDevlinkAttrs::DpipeEntries(v) => spec_devlink_stream_from(v@, 0),
        GenlDevlinkAttrs::DpipeEntry(v) => spec_devlink_stream_from(v@, 0),
        GenlDevlinkAttrs::DpipeEntryIndex(v) => spec_u64_to_le_bytes(v),
        GenlDevlinkAttrs::DpipeEntryMatchValues(v) => spec_devlink_stream_from(v@, 0),
        GenlDevlinkAttrs::DpipeEntryActionValues(v) => spec_devlink_stream_from(v@, 0),
        GenlDevlinkAttrs::DpipeEntryCounter(v) => spec_u64_to_le_bytes(v),
        GenlDevlinkAttrs::DpipeMatch(v) => spec_devlink_stream_from(v@, 0),
        GenlDevlinkAttrs::DpipeMatchValue(v) => spec_devlink_stream_from(v@, 0),
        GenlDevlinkAttrs::DpipeMatchType(v) => spec_u32_to_le_bytes(v),
        GenlDevlinkAttrs::DpipeAction(v) => spec_devlink_stream_from(v@, 0),
        GenlDevlinkAttrs::DpipeActionValue(v) => spec_devlink_stream_from(v@, 0),
        GenlDevlinkAttrs::DpipeActionType(v) => spec_u32_to_le_bytes(v),
        GenlDevlinkAttrs::DpipeValue(v) => spec_u32_to_le_bytes(v),
        GenlDevlinkAttrs::DpipeValueMask(v) => spec_u32_to_le_bytes(v),
        GenlDevlinkAttrs::DpipeValueMapping(v) => spec_u32_to_le_bytes(v),
        GenlDevlinkAttrs::DpipeHeaders(v) => spec_devlink_stream_from(v@, 0),
        GenlDevlinkAttrs::DpipeHader(v) => spec_devlink_stream_from(v@, 0),
        GenlDevlinkAttrs::DpipeHeaderName(v) => spec_string_payload(v@),
        GenlDevlinkAttrs::DpipeHeaderId(v) => spec_u32_to_le_bytes(v),
        GenlDevlinkAttrs::DpipeHeaderFields(v) => spec_devlink_stream_from(v@, 0),
        GenlDevlinkAttrs::DpipeHeaderGlobal(v) => seq![v],
        GenlDevlinkAttrs::DpipeHeaderIndex(v) => spec_u32_to_le_bytes(v),
        GenlDevlinkAttrs::DpipeField(v) => spec_devlink_stream_from(v@, 0),
        GenlDevlinkAttrs::DpipeFieldName(v) => spec_string_payload(v@),
        GenlDevlinkAttrs::DpipeFieldId(v) => spec_u32_to_le_bytes(v),
        GenlDevlinkAttrs::DpipeFieldBitwidth(v) => spec_u32_to_le_bytes(v),
        GenlDevlinkAttrs::DpipeFieldMappingType(v) => spec_u32_to_le_bytes(v),
        GenlDevlinkAttrs::EswitchEncapMode(v) => seq![v],
        GenlDevlinkAttrs::ResourceList(v) => spec_devlink_stream_from(v@, 0),
        GenlDevlinkAttrs::Resource(v) => spec_devlink_stream_from(v@, 0),
        GenlDevlinkAttrs::ResoureceName(v) => spec_string_payload(v@),
        GenlDevlinkAttrs::ResourceId(v) => spec_u64_to_le_bytes(v),
        GenlDevlinkAttrs::ResourceSize(v) => spec_u64_to_le_bytes(v),
        GenlDevlinkAttrs::ResourceSizeNew(v) => spec_u64_to_le_bytes(v),
        GenlDevlinkAttrs::ResourceSizeValid(v) => seq![v],
        GenlDevlinkAttrs::ResourceSizeMin(v) => spec_u64_to_le_bytes(v),
        GenlDevlinkAttrs::ResourceSizeMax(v) => spec_u64_to_le_bytes(v),
        GenlDevlinkAttrs::ResourceSizeGran(v) => spec_u64_to_le_bytes(v),
        GenlDevlinkAttrs::ResourceUnit(v) => seq![v],
        GenlDevlinkAttrs::ResourceOcc(v) => spec_u64_to_le_bytes(v),
        GenlDevlinkAttrs::DpipeTableResourceId(v) => spec_u64_to_le_bytes(v),
        GenlDevlinkAttrs::DpipeTableResourceUnit(v) => spec_u64_to_le_bytes(v),
        GenlDevlinkAttrs::PortFlavour(v) => spec_u16_to_le_bytes(v),
        GenlDevlinkAttrs::PortNumber(v) => spec_u32_to_le_bytes(v),
        GenlDevlinkAttrs::Param(v) => spec_devlink_stream_from(v@, 0),
        GenlDevlinkAttrs::ParamName(v) => spec_string_payload(v@),
        GenlDevlinkAttrs::ParamGeneric(v) => seq![(if v { 1u8 } else { 0u8 })],
        GenlDevlinkAttrs::ParamType(v) => seq![v],
        GenlDevlinkAttrs::ParamValueList(v) => spec_devlink_stream_from(v@, 0),
        GenlDevlinkAttrs::ParamValue(v) => spec_u64_to_le_bytes(v),
        GenlDevlinkAttrs::ParamValueData(v) => spec_devlink_stream_from(v@, 0),
        GenlDevlinkAttrs::ParamValueCmode(v) => seq![v],
        GenlDevlinkAttrs::RegionName(v) => spec_string_payload(v@),
        GenlDevlinkAttrs::RegionSize(v) => spec_u64_to_le_bytes(v),
        GenlDevlinkAttrs::RegionSnapshots(v) => spec_devlink_stream_from(v@, 0),
        GenlDevlinkAttrs::RegionSnapshot(v) => spec_devlink_stream_from(v@, 0),
        GenlDevlinkAttrs::RegionSnapshotId(v) => spec_u32_to_le_bytes(v),
        GenlDevlinkAttrs::RegionChunks(v) => spec_devlink_stream_from(v@, 0),
        GenlDevlinkAttrs::RegionChunk(v) => spec_devlink_stream_from(v@, 0),
        GenlDevlinkAttrs::RegionChunkData(v) => v@,
        GenlDevlinkAttrs::RegionChunkOffset(v) => spec_u64_to_le_bytes(v),
        GenlDevlinkAttrs::RegionChunkSize(v) => spec_u64_to_le_bytes(v),
        GenlDevlinkAttrs::InfoDriverName(v) => spec_string_payload(v@),
        GenlDevlinkAttrs::InfoSerialNo(v) => spec_string_payload(v@),
        GenlDevlinkAttrs::InfoVersionFixed(v) => spec_devlink_stream_from(v@, 0),
        GenlDevlinkAttrs::InfoVersionRunning(v) => spec_devlink_stream_from(v@, 0),
        GenlDevlinkAttrs::InfoVersionStored(v) => spec_devlink_stream_from(v@, 0),
        GenlDevlinkAttrs::InfoVersionName(v) => spec_string_payload(v@),
        GenlDevlinkAttrs::InfoVersionValue(v) => spec_string_payload(v@),
        GenlDevlinkAttrs::SbPoolCellSize(v) => spec_u32_to_le_bytes(v),
        GenlDevlinkAttrs::Fmsg(v) => spec_devlink_stream_from(v@, 0),
        GenlDevlinkAttrs::FmsgObjNestStart(v) => seq![(if v { 1u8 } else { 0u8 })],
        GenlDevlinkAttrs::FmsgPairNestStart(v) => seq![(if v { 1u8 } else { 0u8 })],
        GenlDevlinkAttrs::FmsgArrNestStart(v) => seq![(if v { 1u8 } else { 0u8 })],
        GenlDevlinkAttrs::FmsgNestEnd(v) => seq![(if v { 1u8 } else { 0u8 })],
        GenlDevlinkAttrs::FmsgObjName(v) => spec_string_payload(v@),
        GenlDevlinkAttrs::FmsgObjValueType(v) => seq![v],
        GenlDevlinkAttrs::FmsgObjValueData(v) => spec_devlink_stream_from(v@, 0),
        GenlDevlinkAttrs::HealthReporter(v) => spec_devlink_stream_from(v@, 0),
        GenlDevlinkAttrs::HealthReporterName(v) => spec_string_payload(v@),
        GenlDevlinkAttrs::HealthReporterState(v) => seq![v],
        GenlDevlinkAttrs::HealthReporterErrCount(v) => spec_u64_to_le_bytes(v),
        GenlDevlinkAttrs::HealthReporterRecoverCount(v) => spec_u64_to_le_bytes(v),
        GenlDevlinkAttrs::HealthReporterDumpTs(v) => spec_u64_to_le_bytes(v),
        GenlDevlinkAttrs::HealthReporterGracefulPeriod(v) => spec_u64_to_le_bytes(v),
        GenlDevlinkAttrs::HealthReporterAucoRecover(v) => seq![v],
        GenlDevlinkAttrs::FlashUpdateFileName(v) => spec_string_payload(v@),
        GenlDevlinkAttrs::FlashUpdateComponent(v) => spec_string_payload(v@),
        GenlDevlinkAttrs::FlashUpdateStatusMsg(v) => spec_string_payload(v@),
        GenlDevlinkAttrs::FlashUpdateStatusDone(v) => spec_u64_to_le_bytes(v),
        GenlDevlinkAttrs::FlashUpdateStatusTotal(v) => spec_u64_to_le_bytes(v),
        GenlDevlinkAttrs::PortPciPfNumber(v) => spec_u16_to_le_bytes(v),
        GenlDevlinkAttrs::PortPciVfNumber(v) => spec_u16_to_le_bytes(v),
        GenlDevlinkAttrs::Stats(v) => spec_devlink_stream_from(v@, 0),
        GenlDevlinkAttrs::TrapName(v) => spec_string_payload(v@),
        GenlDevlinkAttrs::TrapAction(v) => seq![v],
        GenlDevlinkAttrs::TrapType(v) => seq![v],
        GenlDevlinkAttrs::TrapGeneric(v) => seq![(if v { 1u8 } else { 0u8 })],
        GenlDevlinkAttrs::TrapMetadata(v) => spec_devlink_stream_from(v@, 0),
        GenlDevlinkAttrs::TrapGroupName(v) => spec_string_payload(v@),
        GenlDevlinkAttrs::ReloadStatus(v) => seq![v],
        GenlDevlinkAttrs::HealthReporterDumpTsNs(v) => spec_u64_to_le_bytes(v),
        GenlDevlinkAttrs::NetnsFd(v) => spec_u32_to_le_bytes(v),
        GenlDevlinkAttrs::NetnsPid(v) => spec_u32_to_le_bytes(v),
        GenlDevlinkAttrs::NetnsId(v) => spec_u32_to_le_bytes(v),
        GenlDevlinkAttrs::HealthReporterAutoDump(v) => seq![v],
        GenlDevlinkAttrs::TrapPolicerId(v) => spec_u32_to_le_bytes(v),
        GenlDevlinkAttrs::TrapPolicerRate(v) => spec_u64_to_le_bytes(v),
        GenlDevlinkAttrs::TrapPolicerBurst(v) => spec_u64_to_le_bytes(v),
        GenlDevlinkAttrs::PortFunction(v) => spec_devlink_stream_from(v@, 0),
        GenlDevlinkAttrs::InfoBoardSerialNumber(v) => spec_string_payload(v@),
        GenlDevlinkAttrs::PortLanes(v) => spec_u32_to_le_bytes(v),
        GenlDevlinkAttrs::PortSplittable(v) => seq![v],
        GenlDevlinkAttrs::PortExternal(v) => seq![v],
        GenlDevlinkAttrs::PortControllerNo(v) => spec_u32_to_le_bytes(v),
        GenlDevlinkAttrs::FlashUpdateStatusTimeout(v) => spec_u32_to_le_bytes(v),
        GenlDevlinkAttrs::FlashUpdateOverWriteMask(v) => spec_u32_to_le_bytes(v),
        GenlDevlinkAttrs::ReloadAction(v) => seq![v],
        GenlDevlinkAttrs::ReloadActionPerformed(v) => spec_u32_to_le_bytes(v),
        GenlDevlinkAttrs::ReloadLimits(v) => spec_u32_to_le_bytes(v),
        GenlDevlinkAttrs::DevStats(v) => spec_devlink_stream_from(v@, 0),
        GenlDevlinkAttrs::ReloadStats(v) => spec_devlink_stream_from(v@, 0),
        GenlDevlinkAttrs::ReloadStatsEntry(v) => spec_devlink_stream_from(v@, 0),
        GenlDevlinkAttrs::ReloadStatsLimit(v) => seq![v],
        GenlDevlinkAttrs::ReloadStatsValue(v) => spec_u32_to_le_bytes(v),
        GenlDevlinkAttrs::RemoteReloadStats(v) => spec_devlink_stream_from(v@, 0),
        GenlDevlinkAttrs::ReloadActionInfo(v) => spec_devlink_stream_from(v@, 0),
        GenlDevlinkAttrs::ReloadActionStats(v) => spec_devlink_stream_from(v@, 0),
        GenlDevlinkAttrs::PortPciSfNo(v) => spec_u32_to_le_bytes(v),
        GenlDevlinkAttrs::RateType(v) => spec_u16_to_le_bytes(v),
        GenlDevlinkAttrs::RateTxShare(v) => spec_u64_to_le_bytes(v),
        GenlDevlinkAttrs::RateTxMax(v) => spec_u64_to_le_bytes(v),
        GenlDevlinkAttrs::RateNodeName(v) => spec_string_payload(v@),
        GenlDevlinkAttrs::RateParentNodeName(v) => spec_string_payload(v@),
        GenlDevlinkAttrs::RegionMaxSnapshots(v) => spec_u32_to_le_bytes(v),
    }
}

/// The concatenated records of the attributes `s[i..]`, each framed with its
/// wire kind and padded to the next four-byte boundary.
pub open spec fn spec_devlink_stream_from(s: Seq<GenlDevlinkAttrs>, i: int) -> Seq<u8>
    decreases s, s.len() - i,
{
    if i < 0 || i >= s.len() {
        Seq::empty()
    } else {
        spec_nla_record(
            spec_wire_kind(spec_devlink_kind(s[i]), spec_devlink_nested(s[i])),
            spec_devlink_payload(s[i]),
        ) + spec_devlink_stream_from(s, i + 1)
    }
}

/// Size conditions under which an attribute can be emitted: its own payload
/// fits a record's length field, and so, recursively, does every nested
/// child's.
pub open spec fn spec_devlink_wf(a: GenlDevlinkAttrs) -> bool
    decreases a, 0int,
{
    match a {
        GenlDevlinkAttrs::BusName(v) => spec_string_payload(v@).len() + 4 <= u16::MAX,
        GenlDevlinkAttrs::Location(v) => spec_string_payload(v@).len() + 4 <= u16::MAX,
        GenlDevlinkAttrs::PortIndex(_) => true,
        GenlDevlinkAttrs::PortType(_) => true,
        GenlDevlinkAttrs::DesiredType(_) => true,
        GenlDevlinkAttrs::NetdevIndex(_) => true,
        GenlDevlinkAttrs::NetdevName(v) => spec_string_payload(v@).len() + 4 <= u16::MAX,
        GenlDevlinkAttrs::PortIbdevName(v) => spec_string_payload(v@).len() + 4 <= u16::MAX,
        GenlDevlinkAttrs::PortSplitCount(_) => true,
        GenlDevlinkAttrs::PortSplitGroup(_) => true,
        GenlDevlinkAttrs::SbIndex(_) => true,
        GenlDevlinkAttrs::SbSize(_) => true,
        GenlDevlinkAttrs::SbIngressPoolCount(_) => true,
        GenlDevlinkAttrs::SbEgressPoolCount(_) => true,
        GenlDevlinkAttrs::SbIngressTcCount(_) => true,
        GenlDevlinkAttrs::SbEgressTcCount(_) => true,
        GenlDevlinkAttrs::SbPoolIndex(_) => true,
        GenlDevlinkAttrs::SbPoolType(_) => true,
        GenlDevlinkAttrs::SbPoolSize(_) => true,
        GenlDevlinkAttrs::SbPoolThresholdType(_) => true,
        GenlDevlinkAttrs::SbPoolThreshold(_) => true,
        GenlDevlinkAttrs::SbTcIndex(_) => true,
        GenlDevlinkAttrs::SbOccCur(_) => true,
        GenlDevlinkAttrs::SbOccMax(_) => true,
        GenlDevlinkAttrs::EswitchMode(_) => true,
        GenlDevlinkAttrs::EswitchInlineMode(_) => true,
        GenlDevlinkAttrs::DpipeTables(v) => spec_devlink_stream_from(v@, 0).len() + 4 <= u16::MAX && spec_devlink_all_wf(v@, 0),
        GenlDevlinkAttrs::DpipeTable(v) => spec_devlink_stream_from(v@, 0).len() + 4 <= u16::MAX && spec_devlink_all_wf(v@, 0),
        GenlDevlinkAttrs::DpipeTableName(v) => spec_string_payload(v@).len() + 4 <= u16::MAX,
        GenlDevlinkAttrs::DpipeTableSize(_) => true,
        GenlDevlinkAttrs::DpipeTableMatches(v) => spec_devlink_stream_from(v@, 0).len() + 4 <= u16::MAX && spec_devlink_all_wf(v@, 0),
        GenlDevlinkAttrs::DpipeTableActions(v) => spec_devlink_stream_from(v@, 0).len() + 4 <= u16::MAX && spec_devlink_all_wf(v@, 0),
        GenlDevlinkAttrs::DpipeTableCountersEnabled(_) => true,
        GenlDevlinkAttrs::DpipeEntries(v) => spec_devlink_stream_from(v@, 0).len() + 4 <= u16::MAX && spec_devlink_all_wf(v@, 0),
        GenlDevlinkAttrs::DpipeEntry(v) => spec_devlink_stream_from(v@, 0).len() + 4 <= u16::MAX && spec_devlink_all_wf(v@, 0),
        GenlDevlinkAttrs::DpipeEntryIndex(_) => true,
        GenlDevlinkAttrs::DpipeEntryMatchValues(v) => spec_devlink_stream_from(v@, 0).len() + 4 <= u16::MAX && spec_devlink_all_wf(v@, 0),
        GenlDevlinkAttrs::DpipeEntryActionValues(v) => spec_devlink_stream_from(v@, 0).len() + 4 <= u16::MAX && spec_devlink_all_wf(v@, 0),
        GenlDevlinkAttrs::DpipeEntryCounter(_) => true,
        GenlDevlinkAttrs::DpipeMatch(v) => spec_devlink_stream_from(v@, 0).len() + 4 <= u16::MAX && spec_devlink_all_wf(v@, 0),
        GenlDevlinkAttrs::DpipeMatchValue(v) => spec_devlink_stream_from(v@, 0).len() + 4 <= u16::MAX && spec_devlink_all_wf(v@, 0),
        GenlDevlinkAttrs::DpipeMatchType(_) => true,
        GenlDevlinkAttrs::DpipeAction(v) => spec_devlink_stream_from(v@, 0).len() + 4 <= u16::MAX && spec_devlink_all_wf(v@, 0),
        GenlDevlinkAttrs::DpipeActionValue(v) => spec_devlink_stream_from(v@, 0).len() + 4 <= u16::MAX && spec_devlink_all_wf(v@, 0),
        GenlDevlinkAttrs::DpipeActionType(_) => true,
        GenlDevlinkAttrs::DpipeValue(_) => true,
        GenlDevlinkAttrs::DpipeValueMask(_) => true,
        GenlDevlinkAttrs::DpipeValueMapping(_) => true,
        GenlDevlinkAttrs::DpipeHeaders(v) => spec_devlink_stream_from(v@, 0).len() + 4 <= u16::MAX && spec_devlink_all_wf(v@, 0),
        GenlDevlinkAttrs::DpipeHader(v) => spec_devlink_stream_from(v@, 0).len() + 4 <= u16::MAX && spec_devlink_all_wf(v@, 0),
        GenlDevlinkAttrs::DpipeHeaderName(v) => spec_string_payload(v@).len() + 4 <= u16::MAX,
        GenlDevlinkAttrs::DpipeHeaderId(_) => true,
        GenlDevlinkAttrs::DpipeHeaderFields(v) => spec_devlink_stream_from(v@, 0).len() + 4 <= u16::MAX && spec_devlink_all_wf(v@, 0),
        GenlDevlinkAttrs::DpipeHeaderGlobal(_) => true,
        GenlDevlinkAttrs::DpipeHeaderIndex(_) => true,
        GenlDevlinkAttrs::DpipeField(v) => spec_devlink_stream_from(v@, 0).len() + 4 <= u16::MAX && spec_devlink_all_wf(v@, 0),
        GenlDevlinkAttrs::DpipeFieldName(v) => spec_string_payload(v@).len() + 4 <= u16::MAX,
        GenlDevlinkAttrs::DpipeFieldId(_) => true,
        GenlDevlinkAttrs::DpipeFieldBitwidth(_) => true,
        GenlDevlinkAttrs::DpipeFieldMappingType(_) => true,
        GenlDevlinkAttrs::EswitchEncapMode(_) => true,
        GenlDevlinkAttrs::ResourceList(v) => spec_devlink_stream_from(v@, 0).len() + 4 <= u16::MAX && spec_devlink_all_wf(v@, 0),
        GenlDevlinkAttrs::Resource(v) => spec_devlink_stream_from(v@, 0).len() + 4 <= u16::MAX && spec_devlink_all_wf(v@, 0),
        GenlDevlinkAttrs::ResoureceName(v) => spec_string_payload(v@).len() + 4 <= u16::MAX,
        GenlDevlinkAttrs::ResourceId(_) => true,
        GenlDevlinkAttrs::ResourceSize(_) => true,
        GenlDevlinkAttrs::ResourceSizeNew(_) => true,
        GenlDevlinkAttrs::ResourceSizeValid(_) => true,
        GenlDevlinkAttrs::ResourceSizeMin(_) => true,
        GenlDevlinkAttrs::ResourceSizeMax(_) => true,
        GenlDevlinkAttrs::ResourceSizeGran(_) => true,
        GenlDevlinkAttrs::ResourceUnit(_) => true,
        GenlDevlinkAttrs::ResourceOcc(_) => true,
        GenlDevlinkAttrs::DpipeTableResourceId(_) => true,
        GenlDevlinkAttrs::DpipeTableResourceUnit(_) => true,
        GenlDevlinkAttrs::PortFlavour(_) => true,
        GenlDevlinkAttrs::PortNumber(_) => true,
        GenlDevlinkAttrs::Param(v) => spec_devlink_stream_from(v@, 0).len() + 4 <= u16::MAX && spec_devlink_all_wf(v@, 0),
        GenlDevlinkAttrs::ParamName(v) => spec_string_payload(v@).len() + 4 <= u16::MAX,
        GenlDevlinkAttrs::ParamGeneric(_) => true,
        GenlDevlinkAttrs::ParamType(_) => true,
        GenlDevlinkAttrs::ParamValueList(v) => spec_devlink_stream_from(v@, 0).len() + 4 <= u16::MAX && spec_devlink_all_wf(v@, 0),
        GenlDevlinkAttrs::ParamValue(_) => true,
        GenlDevlinkAttrs::ParamValueData(v) => spec_devlink_stream_from(v@, 0).len() + 4 <= u16::MAX && spec_devlink_all_wf(v@, 0),
        GenlDevlinkAttrs::ParamValueCmode(_) => true,
        GenlDevlinkAttrs::RegionName(v) => spec_string_payload(v@).len() + 4 <= u16::MAX,
        GenlDevlinkAttrs::RegionSize(_) => true,
        GenlDevlinkAttrs::RegionSnapshots(v) => spec_devlink_stream_from(v@, 0).len() + 4 <= u16::MAX && spec_devlink_all_wf(v@, 0),
        GenlDevlinkAttrs::RegionSnapshot(v) => spec_devlink_stream_from(v@, 0).len() + 4 <= u16::MAX && spec_devlink_all_wf(v@, 0),
        GenlDevlinkAttrs::RegionSnapshotId(_) => true,
        GenlDevlinkAttrs::RegionChunks(v) => spec_devlink_stream_from(v@, 0).len() + 4 <= u16::MAX && spec_devlink_all_wf(v@, 0),
        GenlDevlinkAttrs::RegionChunk(v) => spec_devlink_stream_from(v@, 0).len() + 4 <= u16::MAX && spec_devlink_all_wf(v@, 0),
        GenlDevlinkAttrs::RegionChunkData(v) => v@.len() + 4 <= u16::MAX,
        GenlDevlinkAttrs::RegionChunkOffset(_) => true,
        GenlDevlinkAttrs::RegionChunkSize(_) => true,
        GenlDevlinkAttrs::InfoDriverName(v) => spec_string_payload(v@).len() + 4 <= u16::MAX,
        GenlDevlinkAttrs::InfoSerialNo(v) => spec_string_payload(v@).len() + 4 <= u16::MAX,
        GenlDevlinkAttrs::InfoVersionFixed(v) => spec_devlink_stream_from(v@, 0).len() + 4 <= u16::MAX && spec_devlink_all_wf(v@, 0),
        GenlDevlinkAttrs::InfoVersionRunning(v) => spec_devlink_stream_from(v@, 0).len() + 4 <= u16::MAX && spec_devlink_all_wf(v@, 0),
        GenlDevlinkAttrs::InfoVersionStored(v) => spec_devlink_stream_from(v@, 0).len() + 4 <= u16::MAX && spec_devlink_all_wf(v@, 0),
        GenlDevlinkAttrs::InfoVersionName(v) => spec_string_payload(v@).len() + 4 <= u16::MAX,
        GenlDevlinkAttrs::InfoVersionValue(v) => spec_string_payload(v@).len() + 4 <= u16::MAX,
        GenlDevlinkAttrs::SbPoolCellSize(_) => true,
        GenlDevlinkAttrs::Fmsg(v) => spec_devlink_stream_from(v@, 0).len() + 4 <= u16::MAX && spec_devlink_all_wf(v@, 0),
        GenlDevlinkAttrs::FmsgObjNestStart(_) => true,
        GenlDevlinkAttrs::FmsgPairNestStart(_) => true,
        GenlDevlinkAttrs::FmsgArrNestStart(_) => true,
        GenlDevlinkAttrs::FmsgNestEnd(_) => true,
        GenlDevlinkAttrs::FmsgObjName(v) => spec_string_payload(v@).len() + 4 <= u16::MAX,
        GenlDevlinkAttrs::FmsgObjValueType(_) => true,
        GenlDevlinkAttrs::FmsgObjValueData(v) => spec_devlink_stream_from(v@, 0).len() + 4 <= u16::MAX && spec_devlink_all_wf(v@, 0),
        GenlDevlinkAttrs::HealthReporter(v) => spec_devlink_stream_from(v@, 0).len() + 4 <= u16::MAX && spec_devlink_all_wf(v@, 0),
        GenlDevlinkAttrs::HealthReporterName(v) => spec_string_payload(v@).len() + 4 <= u16::MAX,
        GenlDevlinkAttrs::HealthReporterState(_) => true,
        GenlDevlinkAttrs::HealthReporterErrCount(_) => true,
        GenlDevlinkAttrs::HealthReporterRecoverCount(_) => true,
        GenlDevlinkAttrs::HealthReporterDumpTs(_) => true,
        GenlDevlinkAttrs::HealthReporterGracefulPeriod(_) => true,
        GenlDevlinkAttrs::HealthReporterAucoRecover(_) => true,
        GenlDevlinkAttrs::FlashUpdateFileName(v) => spec_string_payload(v@).len() + 4 <= u16::MAX,
        GenlDevlinkAttrs::FlashUpdateComponent(v) => spec_string_payload(v@).len() + 4 <= u16::MAX,
        GenlDevlinkAttrs::FlashUpdateStatusMsg(v) => spec_string_payload(v@).len() + 4 <= u16::MAX,
        GenlDevlinkAttrs::FlashUpdateStatusDone(_) => true,
        GenlDevlinkAttrs::FlashUpdateStatusTotal(_) => true,
        GenlDevlinkAttrs::PortPciPfNumber(_) => true,
        GenlDevlinkAttrs::PortPciVfNumber(_) => true,
        GenlDevlinkAttrs::Stats(v) => spec_devlink_stream_from(v@, 0).len() + 4 <= u16::MAX && spec_devlink_all_wf(v@, 0),
        GenlDevlinkAttrs::TrapName(v) => spec_string_payload(v@).len() + 4 <= u16::MAX,
        GenlDevlinkAttrs::TrapAction(_) => true,
        GenlDevlinkAttrs::TrapType(_) => true,
        GenlDevlinkAttrs::TrapGeneric(_) => true,
        GenlDevlinkAttrs::TrapMetadata(v) => spec_devlink_stream_from(v@, 0).len() + 4 <= u16::MAX && spec_devlink_all_wf(v@, 0),
        GenlDevlinkAttrs::TrapGroupName(v) => spec_string_payload(v@).len() + 4 <= u16::MAX,
        GenlDevlinkAttrs::ReloadStatus(_) => true,
        GenlDevlinkAttrs::HealthReporterDumpTsNs(_) => true,
        GenlDevlinkAttrs::NetnsFd(_) => true,
        GenlDevlinkAttrs::NetnsPid(_) => true,
        GenlDevlinkAttrs::NetnsId(_) => true,
        GenlDevlinkAttrs::HealthReporterAutoDump(_) => true,
        GenlDevlinkAttrs::TrapPolicerId(_) => true,
        GenlDevlinkAttrs::TrapPolicerRate(_) => true,
        GenlDevlinkAttrs::TrapPolicerBurst(_) => true,
        GenlDevlinkAttrs::PortFunction(v) => spec_devlink_stream_from(v@, 0).len() + 4 <= u16::MAX && spec_devlink_all_wf(v@, 0),
        GenlDevlinkAttrs::InfoBoardSerialNumber(v) => spec_string_payload(v@).len() + 4 <= u16::MAX,
        GenlDevlinkAttrs::PortLanes(_) => true,
        GenlDevlinkAttrs::PortSplittable(_) => true,
        GenlDevlinkAttrs::PortExternal(_) => true,
        GenlDevlinkAttrs::PortControllerNo(_) => true,
        GenlDevlinkAttrs::FlashUpdateStatusTimeout(_) => true,
        GenlDevlinkAttrs::FlashUpdateOverWriteMask(_) => true,
        GenlDevlinkAttrs::ReloadAction(_) => true,
        GenlDevlinkAttrs::ReloadActionPerformed(_) => true,
        GenlDevlinkAttrs::ReloadLimits(_) => true,
        GenlDevlinkAttrs::DevStats(v) => spec_devlink_stream_from(v@, 0).len() + 4 <= u16::MAX && spec_devlink_all_wf(v@, 0),
        GenlDevlinkAttrs::ReloadStats(v) => spec_devlink_stream_from(v@, 0).len() + 4 <= u16::MAX && spec_devlink_all_wf(v@, 0),
        GenlDevlinkAttrs::ReloadStatsEntry(v) => spec_devlink_stream_from(v@, 0).len() + 4 <= u16::MAX && spec_devlink_all_wf(v@, 0),
        GenlDevlinkAttrs::ReloadStatsLimit(_) => true,
        GenlDevlinkAttrs::ReloadStatsValue(_) => true,
        GenlDevlinkAttrs::RemoteReloadStats(v) => spec_devlink_stream_from(v@, 0).len() + 4 <= u16::MAX && spec_devlink_all_wf(v@, 0),
        GenlDevlinkAttrs::ReloadActionInfo(v) => spec_devlink_stream_from(v@, 0).len() + 4 <= u16::MAX && spec_devlink_all_wf(v@, 0),
        GenlDevlinkAttrs::ReloadActionStats(v) => spec_devlink_stream_from(v@, 0).len() + 4 <= u16::MAX && spec_devlink_all_wf(v@, 0),
        GenlDevlinkAttrs::PortPciSfNo(_) => true,
        GenlDevlinkAttrs::RateType(_) => true,
        GenlDevlinkAttrs::RateTxShare(_) => true,
        GenlDevlinkAttrs::RateTxMax(_) => true,
        GenlDevlinkAttrs::RateNodeName(v) => spec_string_payload(v@).len() + 4 <= u16::MAX,
        GenlDevlinkAttrs::RateParentNodeName(v) => spec_string_payload(v@).len() + 4 <= u16::MAX,
        GenlDevlinkAttrs::RegionMaxSnapshots(_) => true,
    }
}

/// Every attribute of `s[i..]` can be emitted.
pub open spec fn spec_devlink_all_wf(s: Seq<GenlDevlinkAttrs>, i: int) -> bool
    decreases s, s.len() - i,
{
    i >= s.len() || (0 <= i && spec_devlink_wf(s[i]) && spec_devlink_all_wf(s, i + 1))
}

/// A well-formed attribute's payload fits a record's length field.
pub proof fn lemma_devlink_payload_fits(a: GenlDevlinkAttrs)
    requires
        spec_devlink_wf(a),
    ensures
        spec_devlink_payload(a).len() + 4 <= u16::MAX,
{
    lemma_auto_spec_u16_to_from_le_bytes();
    lemma_auto_spec_u32_to_from_le_bytes();
    lemma_auto_spec_u64_to_from_le_bytes();
}

/// Well-formedness of every element of a prefix range.
pub proof fn lemma_devlink_all_wf_index(s: Seq<GenlDevlinkAttrs>, i: int, j: int)
    requires
        spec_devlink_all_wf(s, i),
        0 <= i <= j < s.len(),
    ensures
        spec_devlink_wf(s[j]),
        spec_devlink_all_wf(s, j),
    decreases j - i,
{
    if i < j {
        lemma_devlink_all_wf_index(s, i + 1, j);
    }
}

/// Appends the payload bytes of one attribute.
#[verifier::rlimit(100)]
fn emit_devlink_value(a: &GenlDevlinkAttrs, out: &mut Vec<u8>)
    requires
        spec_devlink_wf(*a),
    ensures
        final(out)@ == old(out)@ + spec_devlink_payload(*a),
    decreases *a, 0int,
{
    match a {
        GenlDevlinkAttrs::BusName(v) => {
            string_payload(v.as_str(), out);
        },
        GenlDevlinkAttrs::Location(v) => {
            string_payload(v.as_str(), out);
        },
        GenlDevlinkAttrs::PortIndex(v) => {
            let mut b = u32_to_le_bytes(*v);
            out.append(&mut b);
        },
        GenlDevlinkAttrs::PortType(v) => {
            let mut b = u16_to_le_bytes(*v);
            out.append(&mut b);
        },
        GenlDevlinkAttrs::DesiredType(v) => {
            let mut b = u16_to_le_bytes(*v);
            out.append(&mut b);
        },
        GenlDevlinkAttrs::NetdevIndex(v) => {
            let mut b = u32_to_le_bytes(*v);
            out.append(&mut b);
        },
        GenlDevlinkAttrs::NetdevName(v) => {
            string_payload(v.as_str(), out);
        },
        GenlDevlinkAttrs::PortIbdevName(v) => {
            string_payload(v.as_str(), out);
        },
        GenlDevlinkAttrs::PortSplitCount(v) => {
            let mut b = u32_to_le_bytes(*v);
            out.append(&mut b);
        },
        GenlDevlinkAttrs::PortSplitGroup(v) => {
            let mut b = u32_to_le_bytes(*v);
            out.append(&mut b);
        },
        GenlDevlinkAttrs::SbIndex(v) => {
            let mut b = u32_to_le_bytes(*v);
            out.append(&mut b);
        },
        GenlDevlinkAttrs::SbSize(v) => {
            let mut b = u32_to_le_bytes(*v);
            out.append(&mut b);
        },
        GenlDevlinkAttrs::SbIngressPoolCount(v) => {
            let mut b = u16_to_le_bytes(*v);
            out.append(&mut b);
        },
        GenlDevlinkAttrs::SbEgressPoolCount(v) => {
            let mut b = u16_to_le_bytes(*v);
            out.append(&mut b);
        },
        GenlDevlinkAttrs::SbIngressTcCount(v) => {
            let mut b = u16_to_le_bytes(*v);
            out.append(&mut b);
        },
        GenlDevlinkAttrs::SbEgressTcCount(v) => {
            let mut b = u16_to_le_bytes(*v);
            out.append(&mut b);
        },
        GenlDevlinkAttrs::SbPoolIndex(v) => {
            let mut b = u16_to_le_bytes(*v);
            out.append(&mut b);
        },
        GenlDevlinkAttrs::SbPoolType(v) => {
            out.push(*v);
        },
        GenlDevlinkAttrs::SbPoolSize(v) => {
            let mut b = u32_to_le_bytes(*v);
            out.append(&mut b);
        },
        GenlDevlinkAttrs::SbPoolThresholdType(v) => {
            out.push(*v);
        },
        GenlDevlinkAttrs::SbPoolThreshold(v) => {
            let mut b = u32_to_le_bytes(*v);
            out.append(&mut b);
        },
        GenlDevlinkAttrs::SbTcIndex(v) => {
            let mut b = u16_to_le_bytes(*v);
            out.append(&mut b);
        },
        GenlDevlinkAttrs::SbOccCur(v) => {
            let mut b = u32_to_le_bytes(*v);
            out.append(&mut b);
        },
        GenlDevlinkAttrs::SbOccMax(v) => {
            let mut b = u32_to_le_bytes(*v);
            out.append(&mut b);
        },
        GenlDevlinkAttrs::EswitchMode(v) => {
            let mut b = u16_to_le_bytes(*v);
            out.append(&mut b);
        },
        GenlDevlinkAttrs::EswitchInlineMode(v) => {
            out.push(*v);
        },
        GenlDevlinkAttrs::DpipeTables(v) => {
            emit_devlink_stream(v.as_slice(), out);
        },
        GenlDevlinkAttrs::DpipeTable(v) => {
            emit_devlink_stream(v.as_slice(), out);
        },
        GenlDevlinkAttrs::DpipeTableName(v) => {
            string_payload(v.as_str(), out);
        },
        GenlDevlinkAttrs::DpipeTableSize(v) => {
            let mut b = u64_to_le_bytes(*v);
            out.append(&mut b);
        },
        GenlDevlinkAttrs::DpipeTableMatches(v) => {
            emit_devlink_stream(v.as_slice(), out);
        },
        GenlDevlinkAttrs::DpipeTableActions(v) => {
            emit_devlink_stream(v.as_slice(), out);
        },
        GenlDevlinkAttrs::DpipeTableCountersEnabled(v) => {
            out.push(*v);
        },
        GenlDevlinkAttrs::DpipeEntries(v) => {
            emit_devlink_stream(v.as_slice(), out);
        },
        GenlDevlinkAttrs::DpipeEntry(v) => {
            emit_devlink_stream(v.as_slice(), out);
        },
        GenlDevlinkAttrs::DpipeEntryIndex(v) => {
            let mut b = u64_to_le_bytes(*v);
            out.append(&mut b);
        },
        GenlDevlinkAttrs::DpipeEntryMatchValues(v) => {
            emit_devlink_stream(v.as_slice(), out);
        },
        GenlDevlinkAttrs::DpipeEntryActionValues(v) => {
            emit_devlink_stream(v.as_slice(), out);
        },
        GenlDevlinkAttrs::DpipeEntryCounter(v) => {
            let mut b = u64_to_le_bytes(*v);
            out.append(&mut b);
        },
        GenlDevlinkAttrs::DpipeMatch(v) => {
            emit_devlink_stream(v.as_slice(), out);
        },
        GenlDevlinkAttrs::DpipeMatchValue(v) => {
            emit_devlink_stream(v.as_slice(), out);
        },
        GenlDevlinkAttrs::DpipeMatchType(v) => {
            let mut b = u32_to_le_bytes(*v);
            out.append(&mut b);
        },
        GenlDevlinkAttrs::DpipeAction(v) => {
            emit_devlink_stream(v.as_slice(), out);
        },
        GenlDevlinkAttrs::DpipeActionValue(v) => {
            emit_devlink_stream(v.as_slice(), out);
        },
        GenlDevlinkAttrs::DpipeActionType(v) => {
            let mut b = u32_to_le_bytes(*v);
            out.append(&mut b);
        },
        GenlDevlinkAttrs::DpipeValue(v) => {
            let mut b = u32_to_le_bytes(*v);
            out.append(&mut b);
        },
        GenlDevlinkAttrs::DpipeValueMask(v) => {
            let mut b = u32_to_le_bytes(*v);
            out.append(&mut b);
        },
        GenlDevlinkAttrs::DpipeValueMapping(v) => {
            let mut b = u32_to_le_bytes(*v);
            out.append(&mut b);
        },
        GenlDevlinkAttrs::DpipeHeaders(v) => {
            emit_devlink_stream(v.as_slice(), out);
        },
        GenlDevlinkAttrs::DpipeHader(v) => {
            emit_devlink_stream(v.as_slice(), out);
        },
        GenlDevlinkAttrs::DpipeHeaderName(v) => {
            string_payload(v.as_str(), out);
        },
        GenlDevlinkAttrs::DpipeHeaderId(v) => {
            let mut b = u32_to_le_bytes(*v);
            out.append(&mut b);
        },
        GenlDevlinkAttrs::DpipeHeaderFields(v) => {
            emit_devlink_stream(v.as_slice(), out);
        },
        GenlDevlinkAttrs::DpipeHeaderGlobal(v) => {
            out.push(*v);
        },
        GenlDevlinkAttrs::DpipeHeaderIndex(v) => {
            let mut b = u32_to_le_bytes(*v);
            out.append(&mut b);
        },
        GenlDevlinkAttrs::DpipeField(v) => {
            emit_devlink_stream(v.as_slice(), out);
        },
        GenlDevlinkAttrs::DpipeFieldName(v) => {
            string_payload(v.as_str(), out);
        },
        GenlDevlinkAttrs::DpipeFieldId(v) => {
            let mut b = u32_to_le_bytes(*v);
            out.append(&mut b);
        },
        GenlDevlinkAttrs::DpipeFieldBitwidth(v) => {
            let mut b = u32_to_le_bytes(*v);
            out.append(&mut b);
        },
        GenlDevlinkAttrs::DpipeFieldMappingType(v) => {
            let mut b = u32_to_le_bytes(*v);
            out.append(&mut b);
        },
        GenlDevlinkAttrs::EswitchEncapMode(v) => {
            out.push(*v);
        },
        GenlDevlinkAttrs::ResourceList(v) => {
            emit_devlink_stream(v.as_slice(), out);
        },
        GenlDevlinkAttrs::Resource(v) => {
            emit_devlink_stream(v.as_slice(), out);
        },
        GenlDevlinkAttrs::ResoureceName(v) => {
            string_payload(v.as_str(), out);
        },
        GenlDevlinkAttrs::ResourceId(v) => {
            let mut b = u64_to_le_bytes(*v);
            out.append(&mut b);
        },
        GenlDevlinkAttrs::ResourceSize(v) => {
            let mut b = u64_to_le_bytes(*v);
            out.append(&mut b);
        },
        GenlDevlinkAttrs::ResourceSizeNew(v) => {
            let mut b = u64_to_le_bytes(*v);
            out.append(&mut b);
        },
        GenlDevlinkAttrs::ResourceSizeValid(v) => {
            out.push(*v);
        },
        GenlDevlinkAttrs::ResourceSizeMin(v) => {
            let mut b = u64_to_le_bytes(*v);
            out.append(&mut b);
        },
        GenlDevlinkAttrs::ResourceSizeMax(v) => {
            let mut b = u64_to_le_bytes(*v);
            out.append(&mut b);
        },
        GenlDevlinkAttrs::ResourceSizeGran(v) => {
            let mut b = u64_to_le_bytes(*v);
            out.append(&mut b);
        },
        GenlDevlinkAttrs::ResourceUnit(v) => {
            out.push(*v);
        },
        GenlDevlinkAttrs::ResourceOcc(v) => {
            let mut b = u64_to_le_bytes(*v);
            out.append(&mut b);
        },
        GenlDevlinkAttrs::DpipeTableResourceId(v) => {
            let mut b = u64_to_le_bytes(*v);
            out.append(&mut b);
        },
        GenlDevlinkAttrs::DpipeTableResourceUnit(v) => {
            let mut b = u64_to_le_bytes(*v);
            out.append(&mut b);
        },
        GenlDevlinkAttrs::PortFlavour(v) => {
            let mut b = u16_to_le_bytes(*v);
            out.append(&mut b);
        },
        GenlDevlinkAttrs::PortNumber(v) => {
            let mut b = u32_to_le_bytes(*v);
            out.append(&mut b);
        },
        GenlDevlinkAttrs::Param(v) => {
            emit_devlink_stream(v.as_slice(), out);
        },
        GenlDevlinkAttrs::ParamName(v) => {
            string_payload(v.as_str(), out);
        },
        GenlDevlinkAttrs::ParamGeneric(v) => {
            out.push(if *v { 1u8 } else { 0u8 });
        },
        GenlDevlinkAttrs::ParamType(v) => {
            out.push(*v);
        },
        GenlDevlinkAttrs::ParamValueList(v) => {
            emit_devlink_stream(v.as_slice(), out);
        },
        GenlDevlinkAttrs::ParamValue(v) => {
            let mut b = u64_to_le_bytes(*v);
            out.append(&mut b);
        },
        GenlDevlinkAttrs::ParamValueData(v) => {
            emit_devlink_stream(v.as_slice(), out);
        },
        GenlDevlinkAttrs::ParamValueCmode(v) => {
            out.push(*v);
        },
        GenlDevlinkAttrs::RegionName(v) => {
            string_payload(v.as_str(), out);
        },
        GenlDevlinkAttrs::RegionSize(v) => {
            let mut b = u64_to_le_bytes(*v);
            out.append(&mut b);
        },
        GenlDevlinkAttrs::RegionSnapshots(v) => {
            emit_devlink_stream(v.as_slice(), out);
        },
        GenlDevlinkAttrs::RegionSnapshot(v) => {
            emit_devlink_stream(v.as_slice(), out);
        },
        GenlDevlinkAttrs::RegionSnapshotId(v) => {
            let mut b = u32_to_le_bytes(*v);
            out.append(&mut b);
        },
        GenlDevlinkAttrs::RegionChunks(v) => {
            emit_devlink_stream(v.as_slice(), out);
        },
        GenlDevlinkAttrs::RegionChunk(v) => {
            emit_devlink_stream(v.as_slice(), out);
        },
        GenlDevlinkAttrs::RegionChunkData(v) => {
            out.extend_from_slice(v.as_slice());
        },
        GenlDevlinkAttrs::RegionChunkOffset(v) => {
            let mut b = u64_to_le_bytes(*v);
            out.append(&mut b);
        },
        GenlDevlinkAttrs::RegionChunkSize(v) => {
            let mut b = u64_to_le_bytes(*v);
            out.append(&mut b);
        },
        GenlDevlinkAttrs::InfoDriverName(v) => {
            string_payload(v.as_str(), out);
        },
        GenlDevlinkAttrs::InfoSerialNo(v) => {
            string_payload(v.as_str(), out);
        },
        GenlDevlinkAttrs::InfoVersionFixed(v) => {
            emit_devlink_stream(v.as_slice(), out);
        },
        GenlDevlinkAttrs::InfoVersionRunning(v) => {
            emit_devlink_stream(v.as_slice(), out);
        },
        GenlDevlinkAttrs::InfoVersionStored(v) => {
            emit_devlink_stream(v.as_slice(), out);
        },
        GenlDevlinkAttrs::InfoVersionName(v) => {
            string_payload(v.as_str(), out);
        },
        GenlDevlinkAttrs::InfoVersionValue(v) => {
            string_payload(v.as_str(), out);
        },
        GenlDevlinkAttrs::SbPoolCellSize(v) => {
            let mut b = u32_to_le_bytes(*v);
            out.append(&mut b);
        },
        GenlDevlinkAttrs::Fmsg(v) => {
            emit_devlink_stream(v.as_slice(), out);
        },
        GenlDevlinkAttrs::FmsgObjNestStart(v) => {
            out.push(if *v { 1u8 } else { 0u8 });
        },
        GenlDevlinkAttrs::FmsgPairNestStart(v) => {
            out.push(if *v { 1u8 } else { 0u8 });
        },
        GenlDevlinkAttrs::FmsgArrNestStart(v) => {
            out.push(if *v { 1u8 } else { 0u8 });
        },
        GenlDevlinkAttrs::FmsgNestEnd(v) => {
            out.push(if *v { 1u8 } else { 0u8 });
        },
        GenlDevlinkAttrs::FmsgObjName(v) => {
            string_payload(v.as_str(), out);
        },
        GenlDevlinkAttrs::FmsgObjValueType(v) => {
            out.push(*v);
        },
        GenlDevlinkAttrs::FmsgObjValueData(v) => {
            emit_devlink_stream(v.as_slice(), out);
        },
        GenlDevlinkAttrs::HealthReporter(v) => {
            emit_devlink_stream(v.as_slice(), out);
        },
        GenlDevlinkAttrs::HealthReporterName(v) => {
            string_payload(v.as_str(), out);
        },
        GenlDevlinkAttrs::HealthReporterState(v) => {
            out.push(*v);
        },
        GenlDevlinkAttrs::HealthReporterErrCount(v) => {
            let mut b = u64_to_le_bytes(*v);
            out.append(&mut b);
        },
        GenlDevlinkAttrs::HealthReporterRecoverCount(v) => {
            let mut b = u64_to_le_bytes(*v);
            out.append(&mut b);
        },
        GenlDevlinkAttrs::HealthReporterDumpTs(v) => {
            let mut b = u64_to_le_bytes(*v);
            out.append(&mut b);
        },
        GenlDevlinkAttrs::HealthReporterGracefulPeriod(v) => {
            let mut b = u64_to_le_bytes(*v);
            out.append(&mut b);
        },
        GenlDevlinkAttrs::HealthReporterAucoRecover(v) => {
            out.push(*v);
        },
        GenlDevlinkAttrs::FlashUpdateFileName(v) => {
            string_payload(v.as_str(), out);
        },
        GenlDevlinkAttrs::FlashUpdateComponent(v) => {
            string_payload(v.as_str(), out);
        },
        GenlDevlinkAttrs::FlashUpdateStatusMsg(v) => {
            string_payload(v.as_str(), out);
        },
        GenlDevlinkAttrs::FlashUpdateStatusDone(v) => {
            let mut b = u64_to_le_bytes(*v);
            out.append(&mut b);
        },
        GenlDevlinkAttrs::FlashUpdateStatusTotal(v) => {
            let mut b = u64_to_le_bytes(*v);
            out.append(&mut b);
        },
        GenlDevlinkAttrs::PortPciPfNumber(v) => {
            let mut b = u16_to_le_bytes(*v);
            out.append(&mut b);
        },
        GenlDevlinkAttrs::PortPciVfNumber(v) => {
            let mut b = u16_to_le_bytes(*v);
            out.append(&mut b);
        },
        GenlDevlinkAttrs::Stats(v) => {
            emit_devlink_stream(v.as_slice(), out);
        },
        GenlDevlinkAttrs::TrapName(v) => {
            string_payload(v.as_str(), out);
        },
        GenlDevlinkAttrs::TrapAction(v) => {
            out.push(*v);
        },
        GenlDevlinkAttrs::TrapType(v) => {
            out.push(*v);
        },
        GenlDevlinkAttrs::TrapGeneric(v) => {
            out.push(if *v { 1u8 } else { 0u8 });
        },
        GenlDevlinkAttrs::TrapMetadata(v) => {
            emit_devlink_stream(v.as_slice(), out);
        },
        GenlDevlinkAttrs::TrapGroupName(v) => {
            string_payload(v.as_str(), out);
        },
        GenlDevlinkAttrs::ReloadStatus(v) => {
            out.push(*v);
        },
        GenlDevlinkAttrs::HealthReporterDumpTsNs(v) => {
            let mut b = u64_to_le_bytes(*v);
            out.append(&mut b);
        },
        GenlDevlinkAttrs::NetnsFd(v) => {
            let mut b = u32_to_le_bytes(*v);
            out.append(&mut b);
        },
        GenlDevlinkAttrs::NetnsPid(v) => {
            let mut b = u32_to_le_bytes(*v);
            out.append(&mut b);
        },
        GenlDevlinkAttrs::NetnsId(v) => {
            let mut b = u32_to_le_bytes(*v);
            out.append(&mut b);
        },
        GenlDevlinkAttrs::HealthReporterAutoDump(v) => {
            out.push(*v);
        },
        GenlDevlinkAttrs::TrapPolicerId(v) => {
            let mut b = u32_to_le_bytes(*v);
            out.append(&mut b);
        },
        GenlDevlinkAttrs::TrapPolicerRate(v) => {
            let mut b = u64_to_le_bytes(*v);
            out.append(&mut b);
        },
        GenlDevlinkAttrs::TrapPolicerBurst(v) => {
            let mut b = u64_to_le_bytes(*v);
            out.append(&mut b);
        },
        GenlDevlinkAttrs::PortFunction(v) => {
            emit_devlink_stream(v.as_slice(), out);
        },
        GenlDevlinkAttrs::InfoBoardSerialNumber(v) => {
            string_payload(v.as_str(), out);
        },
        GenlDevlinkAttrs::PortLanes(v) => {
            let mut b = u32_to_le_bytes(*v);
            out.append(&mut b);
        },
        GenlDevlinkAttrs::PortSplittable(v) => {
            out.push(*v);
        },
        GenlDevlinkAttrs::PortExternal(v) => {
            out.push(*v);
        },
        GenlDevlinkAttrs::PortControllerNo(v) => {
            let mut b = u32_to_le_bytes(*v);
            out.append(&mut b);
        },
        GenlDevlinkAttrs::FlashUpdateStatusTimeout(v) => {
            let mut b = u32_to_le_bytes(*v);
            out.append(&mut b);
        },
        GenlDevlinkAttrs::FlashUpdateOverWriteMask(v) => {
            let mut b = u32_to_le_bytes(*v);
            out.append(&mut b);
        },
        GenlDevlinkAttrs::ReloadAction(v) => {
            out.push(*v);
        },
        GenlDevlinkAttrs::ReloadActionPerformed(v) => {
            let mut b = u32_to_le_bytes(*v);
            out.append(&mut b);
        },
        GenlDevlinkAttrs::ReloadLimits(v) => {
            let mut b = u32_to_le_bytes(*v);
            out.append(&mut b);
        },
        GenlDevlinkAttrs::DevStats(v) => {
            emit_devlink_stream(v.as_slice(), out);
        },
        GenlDevlinkAttrs::ReloadStats(v) => {
            emit_devlink_stream(v.as_slice(), out);
        },
        GenlDevlinkAttrs::ReloadStatsEntry(v) => {
            emit_devlink_stream(v.as_slice(), out);
        },
        GenlDevlinkAttrs::ReloadStatsLimit(v) => {
            out.push(*v);
        },
        GenlDevlinkAttrs::ReloadStatsValue(v) => {
            let mut b = u32_to_le_bytes(*v);
            out.append(&mut b);
        },
        GenlDevlinkAttrs::RemoteReloadStats(v) => {
            emit_devlink_stream(v.as_slice(), out);
        },
        GenlDevlinkAttrs::ReloadActionInfo(v) => {
            emit_devlink_stream(v.as_slice(), out);
        },
        GenlDevlinkAttrs::ReloadActionStats(v) => {
            emit_devlink_stream(v.as_slice(), out);
        },
        GenlDevlinkAttrs::PortPciSfNo(v) => {
            let mut b = u32_to_le_bytes(*v);
            out.append(&mut b);
        },
        GenlDevlinkAttrs::RateType(v) => {
            let mut b = u16_to_le_bytes(*v);
            out.append(&mut b);
        },
        GenlDevlinkAttrs::RateTxShare(v) => {
            let mut b = u64_to_le_bytes(*v);
            out.append(&mut b);
        },
        GenlDevlinkAttrs::RateTxMax(v) => {
            let mut b = u64_to_le_bytes(*v);
            out.append(&mut b);
        },
        GenlDevlinkAttrs::RateNodeName(v) => {
            string_payload(v.as_str(), out);
        },
        GenlDevlinkAttrs::RateParentNodeName(v) => {
            string_payload(v.as_str(), out);
        },
        GenlDevlinkAttrs::RegionMaxSnapshots(v) => {
            let mut b = u32_to_le_bytes(*v);
            out.append(&mut b);
        },
    }
    proof {
        assert(out@ =~= old(out)@ + spec_devlink_payload(*a));
    }
}

/// Appends the framed records of a whole nesting level, each with its wire
/// kind (nested bit set where the table says so) and its padding.
fn emit_devlink_stream(items: &[GenlDevlinkAttrs], out: &mut Vec<u8>)
    requires
        spec_devlink_all_wf(items@, 0),
    ensures
        final(out)@ == old(out)@ + spec_devlink_stream_from(items@, 0),
    decreases items@, 1int,
{
    let n = items.len();
    let mut i: usize = 0;
    while i < n
        invariant
            0 <= i <= n,
            n == items@.len(),
            spec_devlink_all_wf(items@, 0),
            out@ + spec_devlink_stream_from(items@, i as int) == old(out)@
                + spec_devlink_stream_from(items@, 0),
        decreases n - i,
    {
        let item = slice_index_get(items, i);
        proof {
            lemma_devlink_all_wf_index(items@, 0, i as int);
            lemma_devlink_payload_fits(items@[i as int]);
        }
        let mut payload: Vec<u8> = Vec::new();
        emit_devlink_value(item, &mut payload);
        let k = devlink_kind(item);
        let wire: u16 = if devlink_is_nested(item) {
            k | crate::nla::NLA_F_NESTED
        } else {
            k
        };
        let ghost pre = out@;
        emit_nla_record(out, wire, payload.as_slice());
        proof {
            assert((pre + spec_nla_record(
                spec_wire_kind(
                    spec_devlink_kind(items@[i as int]),
                    spec_devlink_nested(items@[i as int]),
                ),
                spec_devlink_payload(items@[i as int]),
            )) + spec_devlink_stream_from(items@, i as int + 1) =~= pre
                + spec_devlink_stream_from(items@, i as int));
        }
        i = i + 1;
    }
    proof {
        assert(out@ + spec_devlink_stream_from(items@, n as int) =~= out@);
    }
}

/// The semantic wire id of one attribute.
#[verifier::rlimit(100)]
fn devlink_kind(a: &GenlDevlinkAttrs) -> (k: u16)
    ensures
        k == spec_devlink_kind(*a),
{
    match a {
        GenlDevlinkAttrs::BusName(_) => DEVLINK_ATTR_BUS_NAME,
        GenlDevlinkAttrs::Location(_) => DEVLINK_ATTR_LOCATION,
        GenlDevlinkAttrs::PortIndex(_) => DEVLINK_ATTR_PORT_INDEX,
        GenlDevlinkAttrs::PortType(_) => DEVLINK_ATTR_PORT_TYPE,
        GenlDevlinkAttrs::DesiredType(_) => DEVLINK_ATTR_DESIRED_TYPE,
        GenlDevlinkAttrs::NetdevIndex(_) => DEVLINK_ATTR_NETDEV_IF_INDEX,
        GenlDevlinkAttrs::NetdevName(_) => DEVLINK_ATTR_NETDEV_NAME,
        GenlDevlinkAttrs::PortIbdevName(_) => DEVLINK_ATTR_PORT_IBDEV_NAME,
        GenlDevlinkAttrs::PortSplitCount(_) => DEVLINK_ATTR_PORT_SPLIT_COUNT,
        GenlDevlinkAttrs::PortSplitGroup(_) => DEVLINK_ATTR_PORT_SPLIT_GROUP,
        GenlDevlinkAttrs::SbIndex(_) => DEVLINK_ATTR_SB_INDEX,
        GenlDevlinkAttrs::SbSize(_) => DEVLINK_ATTR_SB_SIZE,
        GenlDevlinkAttrs::SbIngressPoolCount(_) => DEVLINK_ATTR_SB_INGRESS_POOL_COUNT,
        GenlDevlinkAttrs::SbEgressPoolCount(_) => DEVLINK_ATTR_SB_EGRESS_POOL_COUNT,
        GenlDevlinkAttrs::SbIngressTcCount(_) => DEVLINK_ATTR_SB_INGRESS_TC_COUNT,
        GenlDevlinkAttrs::SbEgressTcCount(_) => DEVLINK_ATTR_SB_EGRESS_TC_COUNT,
        GenlDevlinkAttrs::SbPoolIndex(_) => DEVLINK_ATTR_SB_POOL_INDEX,
        GenlDevlinkAttrs::SbPoolType(_) => DEVLINK_ATTR_SB_POOL_TYPE,
        GenlDevlinkAttrs::SbPoolSize(_) => DEVLINK_ATTR_SB_POOL_SIZE,
        GenlDevlinkAttrs::SbPoolThresholdType(_) => DEVLINK_ATTR_SB_POOL_THRESHOLD_TYPE,
        GenlDevlinkAttrs::SbPoolThreshold(_) => DEVLINK_ATTR_SB_THRESHOLD,
        GenlDevlinkAttrs::SbTcIndex(_) => DEVLINK_ATTR_SB_TC_INDEX,
        GenlDevlinkAttrs::SbOccCur(_) => DEVLINK_ATTR_SB_OCC_CUR,
        GenlDevlinkAttrs::SbOccMax(_) => DEVLINK_ATTR_SB_OCC_MAX,
        GenlDevlinkAttrs::EswitchMode(_) => DEVLINK_ATTR_ESWITCH_MODE,
        GenlDevlinkAttrs::EswitchInlineMode(_) => DEVLINK_ATTR_ESWITCH_INLINE_MODE,
        GenlDevlinkAttrs::DpipeTables(_) => DEVLINK_ATTR_DPIPE_TABLES,
        GenlDevlinkAttrs::DpipeTable(_) => DEVLINK_ATTR_DPIPE_TABLE,
        GenlDevlinkAttrs::DpipeTableName(_) => DEVLINK_ATTR_DPIPE_TABLE_NAME,
        GenlDevlinkAttrs::DpipeTableSize(_) => DEVLINK_ATTR_DPIPE_TABLE_SIZE,
        GenlDevlinkAttrs::DpipeTableMatches(_) => DEVLINK_ATTR_DPIPE_TABLE_MATCHES,
        GenlDevlinkAttrs::DpipeTableActions(_) => DEVLINK_ATTR_DPIPE_TABLE_ACTIONS,
        GenlDevlinkAttrs::DpipeTableCountersEnabled(_) => DEVLINK_ATTR_DPIPE_TABLE_COUNTERS_ENABLED,
        GenlDevlinkAttrs::DpipeEntries(_) => DEVLINK_ATTR_DPIPE_ENTRIES,
        GenlDevlinkAttrs::DpipeEntry(_) => DEVLINK_ATTR_DPIPE_ENTRY,
        GenlDevlinkAttrs::DpipeEntryIndex(_) => DEVLINK_ATTR_DPIPE_ENTRY_INDEX,
        GenlDevlinkAttrs::DpipeEntryMatchValues(_) => DEVLINK_ATTR_DPIPE_ENTRY_MATCH_VALUES,
        GenlDevlinkAttrs::DpipeEntryActionValues(_) => DEVLINK_ATTR_DPIPE_ENTRY_ACTION_VALUES,
        GenlDevlinkAttrs::DpipeEntryCounter(_) => DEVLINK_ATTR_DPIPE_ENTRY_COUNTER,
        GenlDevlinkAttrs::DpipeMatch(_) => DEVLINK_ATTR_DPIPE_MATCH,
        GenlDevlinkAttrs::DpipeMatchValue(_) => DEVLINK_ATTR_DPIPE_MATCH_VALUE,
        GenlDevlinkAttrs::DpipeMatchType(_) => DEVLINK_ATTR_DPIPE_MATCH_TYPE,
        GenlDevlinkAttrs::DpipeAction(_) => DEVLINK_ATTR_DPIPE_ACTION,
        GenlDevlinkAttrs::DpipeActionValue(_) => DEVLINK_ATTR_DPIPE_ACTION_VALUE,
        GenlDevlinkAttrs::DpipeActionType(_) => DEVLINK_ATTR_DPIPE_ACTION_TYPE,
        GenlDevlinkAttrs::DpipeValue(_) => DEVLINK_ATTR_DPIPE_VALUE,
        GenlDevlinkAttrs::DpipeValueMask(_) => DEVLINK_ATTR_DPIPE_VALUE_MASK,
        GenlDevlinkAttrs::DpipeValueMapping(_) => DEVLINK_ATTR_DPIPE_VALUE_MAPPING,
        GenlDevlinkAttrs::DpipeHeaders(_) => DEVLINK_ATTR_DPIPE_HEADERS,
        GenlDevlinkAttrs::DpipeHader(_) => DEVLINK_ATTR_DPIPE_HEADER,
        GenlDevlinkAttrs::DpipeHeaderName(_) => DEVLINK_ATTR_DPIPE_HEADER_NAME,
        GenlDevlinkAttrs::DpipeHeaderId(_) => DEVLINK_ATTR_DPIPE_HEADER_ID,
        GenlDevlinkAttrs::DpipeHeaderFields(_) => DEVLINK_ATTR_DPIPE_HEADER_FIELDS,
        GenlDevlinkAttrs::DpipeHeaderGlobal(_) => DEVLINK_ATTR_DPIPE_HEADER_GLOBAL,
        GenlDevlinkAttrs::DpipeHeaderIndex(_) => DEVLINK_ATTR_DPIPE_HEADER_INDEX,
        GenlDevlinkAttrs::DpipeField(_) => DEVLINK_ATTR_DPIPE_FIELD,
        GenlDevlinkAttrs::DpipeFieldName(_) => DEVLINK_ATTR_DPIPE_FIELD_NAME,
        GenlDevlinkAttrs::DpipeFieldId(_) => DEVLINK_ATTR_DPIPE_FIELD_ID,
        GenlDevlinkAttrs::DpipeFieldBitwidth(_) => DEVLINK_ATTR_DPIPE_FIELD_BITWIDTH,
        GenlDevlinkAttrs::DpipeFieldMappingType(_) => DEVLINK_ATTR_DPIPE_FIELD_MAPPING_TYPE,
        GenlDevlinkAttrs::EswitchEncapMode(_) => DEVLINK_ATTR_ESWITCH_ENCAP_MODE,
        GenlDevlinkAttrs::ResourceList(_) => DEVLINK_ATTR_RESOURCE_LIST,
        GenlDevlinkAttrs::Resource(_) => DEVLINK_ATTR_RESOURCE,
        GenlDevlinkAttrs::ResoureceName(_) => DEVLINK_ATTR_RESOURCE_NAME,
        GenlDevlinkAttrs::ResourceId(_) => DEVLINK_ATTR_RESOURCE_ID,
        GenlDevlinkAttrs::ResourceSize(_) => DEVLINK_ATTR_RESOURCE_SIZE,
        GenlDevlinkAttrs::ResourceSizeNew(_) => DEVLINK_ATTR_RESOURCE_SIZE_NEW,
        GenlDevlinkAttrs::ResourceSizeValid(_) => DEVLINK_ATTR_RESOURCE_SIZE_VALID,
        GenlDevlinkAttrs::ResourceSizeMin(_) => DEVLINK_ATTR_RESOURCE_SIZE_MIN,
        GenlDevlinkAttrs::ResourceSizeMax(_) => DEVLINK_ATTR_RESOURCE_SIZE_MAX,
        GenlDevlinkAttrs::ResourceSizeGran(_) => DEVLINK_ATTR_RESOURCE_SIZE_GRAN,
        GenlDevlinkAttrs::ResourceUnit(_) => DEVLINK_ATTR_RESOURCE_UNIT,
        GenlDevlinkAttrs::ResourceOcc(_) => DEVLINK_ATTR_RESOURCE_OCC,
        GenlDevlinkAttrs::DpipeTableResourceId(_) => DEVLINK_ATTR_DPIPE_TABLE_RESOURCE_ID,
        GenlDevlinkAttrs::DpipeTableResourceUnit(_) => DEVLINK_ATTR_DPIPE_TABLE_RESOURCE_UNITS,
        GenlDevlinkAttrs::PortFlavour(_) => DEVLINK_ATTR_PORT_FLAVOUR,
        GenlDevlinkAttrs::PortNumber(_) => DEVLINK_ATTR_PORT_NUMBER,
        GenlDevlinkAttrs::Param(_) => DEVLINK_ATTR_PARAM,
        GenlDevlinkAttrs::ParamName(_) => DEVLINK_ATTR_PARAM_NAME,
        GenlDevlinkAttrs::ParamGeneric(_) => DEVLINK_ATTR_PARAM_GENERIC,
        GenlDevlinkAttrs::ParamType(_) => DEVLINK_ATTR_PARAM_TYPE,
        GenlDevlinkAttrs::ParamValueList(_) => DEVLINK_ATTR_PARAM_VALUES_LIST,
        GenlDevlinkAttrs::ParamValue(_) => DEVLINK_ATTR_PARAM_VALUE,
        GenlDevlinkAttrs::ParamValueData(_) => DEVLINK_ATTR_PARAM_VALUE_DATA,
        GenlDevlinkAttrs::ParamValueCmode(_) => DEVLINK_ATTR_PARAM_VALUE_CMODE,
        GenlDevlinkAttrs::RegionName(_) => DEVLINK_ATTR_REGION_NAME,
        GenlDevlinkAttrs::RegionSize(_) => DEVLINK_ATTR_REGION_SIZE,
        GenlDevlinkAttrs::RegionSnapshots(_) => DEVLINK_ATTR_REGION_SNAPSHOTS,
        GenlDevlinkAttrs::RegionSnapshot(_) => DEVLINK_ATTR_REGION_SNAPSHOT,
        GenlDevlinkAttrs::RegionSnapshotId(_) => DEVLINK_ATTR_REGION_SNAPSHOT_ID,
        GenlDevlinkAttrs::RegionChunks(_) => DEVLINK_ATTR_REGION_CHUNKS,
        GenlDevlinkAttrs::RegionChunk(_) => DEVLINK_ATTR_REGION_CHUNK,
        GenlDevlinkAttrs::RegionChunkData(_) => DEVLINK_ATTR_REGION_CHUNK_DATA,
        GenlDevlinkAttrs::RegionChunkOffset(_) => DEVLINK_ATTR_REGION_CHUNK_ADDR,
        GenlDevlinkAttrs::RegionChunkSize(_) => DEVLINK_ATTR_REGION_SIZE,
        GenlDevlinkAttrs::InfoDriverName(_) => DEVLINK_ATTR_INFO_DRIVER_NAME,
        GenlDevlinkAttrs::InfoSerialNo(_) => DEVLINK_ATTR_INFO_SERIAL_NUMBER,
        GenlDevlinkAttrs::InfoVersionFixed(_) => DEVLINK_ATTR_INFO_VERSION_FIXED,
        GenlDevlinkAttrs::InfoVersionRunning(_) => DEVLINK_ATTR_INFO_VERSION_RUNNING,
        GenlDevlinkAttrs::InfoVersionStored(_) => DEVLINK_ATTR_INFO_VERSION_STORED,
        GenlDevlinkAttrs::InfoVersionName(_) => DEVLINK_ATTR_INFO_VERSION_NAME,
        GenlDevlinkAttrs::InfoVersionValue(_) => DEVLINK_ATTR_INFO_VERSION_VALUE,
        GenlDevlinkAttrs::SbPoolCellSize(_) => DEVLINK_ATTR_SB_POOL_CELL_SIZE,
        GenlDevlinkAttrs::Fmsg(_) => DEVLINK_ATTR_FMSG,
        GenlDevlinkAttrs::FmsgObjNestStart(_) => DEVLINK_ATTR_FMSG_OBJ_NEST_START,
        GenlDevlinkAttrs::FmsgPairNestStart(_) => DEVLINK_ATTR_FMSG_PAIR_NEST_START,
        GenlDevlinkAttrs::FmsgArrNestStart(_) => DEVLINK_ATTR_FMSG_ARR_NEST_START,
        GenlDevlinkAttrs::FmsgNestEnd(_) => DEVLINK_ATTR_FMSG_NEST_END,
        GenlDevlinkAttrs::FmsgObjName(_) => DEVLINK_ATTR_FMSG_OBJ_NAME,
        GenlDevlinkAttrs::FmsgObjValueType(_) => DEVLINK_ATTR_FMSG_OBJ_VALUE_TYPE,
        GenlDevlinkAttrs::FmsgObjValueData(_) => DEVLINK_ATTR_FMSG_OBJ_VALUE_DATA,
        GenlDevlinkAttrs::HealthReporter(_) => DEVLINK_ATTR_HEALTH_REPORTER,
        GenlDevlinkAttrs::HealthReporterName(_) => DEVLINK_ATTR_HEALTH_REPORTER_NAME,
        GenlDevlinkAttrs::HealthReporterState(_) => DEVLINK_ATTR_HEALTH_REPORTER_STATE,
        GenlDevlinkAttrs::HealthReporterErrCount(_) => DEVLINK_ATTR_HEALTH_REPORTER_ERR_COUNT,
        GenlDevlinkAttrs::HealthReporterRecoverCount(_) => DEVLINK_ATTR_HEALTH_REPORTER_RECOVER_COUNT,
        GenlDevlinkAttrs::HealthReporterDumpTs(_) => DEVLINK_ATTR_HEALTH_REPORTER_DUMP_TS,
        GenlDevlinkAttrs::HealthReporterGracefulPeriod(_) => DEVLINK_ATTR_HEALTH_REPORTER_GRACEFUL_PERIOD,
        GenlDevlinkAttrs::HealthReporterAucoRecover(_) => DEVLINK_ATTR_HEALTH_REPORTER_AUTO_RECOVER,
        GenlDevlinkAttrs::FlashUpdateFileName(_) => DEVLINK_ATTR_FLASH_UPDATE_FILE_NAME,
        GenlDevlinkAttrs::FlashUpdateComponent(_) => DEVLINK_ATTR_FLASH_UPDATE_COMPONENT,
        GenlDevlinkAttrs::FlashUpdateStatusMsg(_) => DEVLINK_ATTR_FLASH_UPDATE_STATUS_MSG,
        GenlDevlinkAttrs::FlashUpdateStatusDone(_) => DEVLINK_ATTR_FLASH_UPDATE_STATUS_DONE,
        GenlDevlinkAttrs::FlashUpdateStatusTotal(_) => DEVLINK_ATTR_FLASH_UPDATE_STATUS_TOTAL,
        GenlDevlinkAttrs::PortPciPfNumber(_) => DEVLINK_ATTR_PORT_PCI_PF_NUMBER,
        GenlDevlinkAttrs::PortPciVfNumber(_) => DEVLINK_ATTR_PORT_PCI_VF_NUMBER,
        GenlDevlinkAttrs::Stats(_) => DEVLINK_ATTR_STATS,
        GenlDevlinkAttrs::TrapName(_) => DEVLINK_ATTR_TRAP_NAME,
        GenlDevlinkAttrs::TrapAction(_) => DEVLINK_ATTR_TRAP_ACTION,
        GenlDevlinkAttrs::TrapType(_) => DEVLINK_ATTR_TRAP_TYPE,
        GenlDevlinkAttrs::TrapGeneric(_) => DEVLINK_ATTR_TRAP_GENERIC,
        GenlDevlinkAttrs::TrapMetadata(_) => DEVLINK_ATTR_TRAP_METADATA,
        GenlDevlinkAttrs::TrapGroupName(_) => DEVLINK_ATTR_TRAP_GROUP_NAME,
        GenlDevlinkAttrs::ReloadStatus(_) => DEVLINK_ATTR_RELOAD_FAILED,
        GenlDevlinkAttrs::HealthReporterDumpTsNs(_) => DEVLINK_ATTR_HEALTH_REPORTER_DUMP_TS_NS,
        GenlDevlinkAttrs::NetnsFd(_) => DEVLINK_ATTR_NETNS_FD,
        GenlDevlinkAttrs::NetnsPid(_) => DEVLINK_ATTR_NETNS_PID,
        GenlDevlinkAttrs::NetnsId(_) => DEVLINK_ATTR_NETNS_ID,
        GenlDevlinkAttrs::HealthReporterAutoDump(_) => DEVLINK_ATTR_HEALTH_REPORTER_AUTO_DUMP,
        GenlDevlinkAttrs::TrapPolicerId(_) => DEVLINK_ATTR_TRAP_POLICER_ID,
        GenlDevlinkAttrs::TrapPolicerRate(_) => DEVLINK_ATTR_TRAP_POLICER_RATE,
        GenlDevlinkAttrs::TrapPolicerBurst(_) => DEVLINK_ATTR_TRAP_POLICER_BURST,
        GenlDevlinkAttrs::PortFunction(_) => DEVLINK_ATTR_PORT_FUNCTION,
        GenlDevlinkAttrs::InfoBoardSerialNumber(_) => DEVLINK_ATTR_INFO_BOARD_SERIAL_NUMBER,
        GenlDevlinkAttrs::PortLanes(_) => DEVLINK_ATTR_PORT_LANES,
        GenlDevlinkAttrs::PortSplittable(_) => DEVLINK_ATTR_PORT_SPLITTABLE,
        GenlDevlinkAttrs::PortExternal(_) => DEVLINK_ATTR_PORT_EXTERNAL,
        GenlDevlinkAttrs::PortControllerNo(_) => DEVLINK_ATTR_PORT_CONTROLLER_NUMBER,
        GenlDevlinkAttrs::FlashUpdateStatusTimeout(_) => DEVLINK_ATTR_FLASH_UPDATE_STATUS_TIMEOUT,
        GenlDevlinkAttrs::FlashUpdateOverWriteMask(_) => DEVLINK_ATTR_FLASH_UPDATE_OVERWRITE_MASK,
        GenlDevlinkAttrs::ReloadAction(_) => DEVLINK_ATTR_RELOAD_ACTION,
        GenlDevlinkAttrs::ReloadActionPerformed(_) => DEVLINK_ATTR_RELOAD_ACTIONS_PERFORMED,
        GenlDevlinkAttrs::ReloadLimits(_) => DEVLINK_ATTR_RELOAD_LIMITS,
        GenlDevlinkAttrs::DevStats(_) => DEVLINK_ATTR_DEV_STATS,
        GenlDevlinkAttrs::ReloadStats(_) => DEVLINK_ATTR_RELOAD_STATS,
        GenlDevlinkAttrs::ReloadStatsEntry(_) => DEVLINK_ATTR_RELOAD_STATS_ENTRY,
        GenlDevlinkAttrs::ReloadStatsLimit(_) => DEVLINK_ATTR_RELOAD_STATS_LIMIT,
        GenlDevlinkAttrs::ReloadStatsValue(_) => DEVLINK_ATTR_RELOAD_STATS_VALUE,
        GenlDevlinkAttrs::RemoteReloadStats(_) => DEVLINK_ATTR_REMOTE_RELOAD_SATS,
        GenlDevlinkAttrs::ReloadActionInfo(_) => DEVLINK_ATTR_RELOAD_ACTION_INFO,
        GenlDevlinkAttrs::ReloadActionStats(_) => DEVLINK_ATTR_RELAOD_ACTION_STATS,
        GenlDevlinkAttrs::PortPciSfNo(_) => DEVLINK_ATTR_PORT_PCI_SF_NUMBER,
        GenlDevlinkAttrs::RateType(_) => DEVLINK_ATTR_RATE_TYPE,
        GenlDevlinkAttrs::RateTxShare(_) => DEVLINK_ATTR_RATE_TX_SHARE,
        GenlDevlinkAttrs::RateTxMax(_) => DEVLINK_ATTR_RATE_TX_MAX,
        GenlDevlinkAttrs::RateNodeName(_) => DEVLINK_ATTR_RATE_NODE_NAME,
        GenlDevlinkAttrs::RateParentNodeName(_) => DEVLINK_ATTR_RATE_PARENT_NODE_NAME,
        GenlDevlinkAttrs::RegionMaxSnapshots(_) => DEVLINK_ATTR_REGION_MAX_SNAPSHOTS,
    }
}

/// Whether the table marks the attribute nested on the wire.
#[verifier::rlimit(100)]
fn devlink_is_nested(a: &GenlDevlinkAttrs) -> (r: bool)
    ensures
        r == spec_devlink_nested(*a),
{
    match a {
        GenlDevlinkAttrs::BusName(_) => false,
        GenlDevlinkAttrs::Location(_) => false,
        GenlDevlinkAttrs::PortIndex(_) => false,
        GenlDevlinkAttrs::PortType(_) => false,
        GenlDevlinkAttrs::DesiredType(_) => false,
        GenlDevlinkAttrs::NetdevIndex(_) => false,
        GenlDevlinkAttrs::NetdevName(_) => false,
        GenlDevlinkAttrs::PortIbdevName(_) => false,
        GenlDevlinkAttrs::PortSplitCount(_) => false,
        GenlDevlinkAttrs::PortSplitGroup(_) => false,
        GenlDevlinkAttrs::SbIndex(_) => false,
        GenlDevlinkAttrs::SbSize(_) => false,
        GenlDevlinkAttrs::SbIngressPoolCount(_) => false,
        GenlDevlinkAttrs::SbEgressPoolCount(_) => false,
        GenlDevlinkAttrs::SbIngressTcCount(_) => false,
        GenlDevlinkAttrs::SbEgressTcCount(_) => false,
        GenlDevlinkAttrs::SbPoolIndex(_) => false,
        GenlDevlinkAttrs::SbPoolType(_) => false,
        GenlDevlinkAttrs::SbPoolSize(_) => false,
        GenlDevlinkAttrs::SbPoolThresholdType(_) => false,
        GenlDevlinkAttrs::SbPoolThreshold(_) => false,
        GenlDevlinkAttrs::SbTcIndex(_) => false,
        GenlDevlinkAttrs::SbOccCur(_) => false,
        GenlDevlinkAttrs::SbOccMax(_) => false,
        GenlDevlinkAttrs::EswitchMode(_) => false,
        GenlDevlinkAttrs::EswitchInlineMode(_) => false,
        GenlDevlinkAttrs::DpipeTables(_) => true,
        GenlDevlinkAttrs::DpipeTable(_) => true,
        GenlDevlinkAttrs::DpipeTableName(_) => false,
        GenlDevlinkAttrs::DpipeTableSize(_) => false,
        GenlDevlinkAttrs::DpipeTableMatches(_) => true,
        GenlDevlinkAttrs::DpipeTableActions(_) => true,
        GenlDevlinkAttrs::DpipeTableCountersEnabled(_) => false,
        GenlDevlinkAttrs::DpipeEntries(_) => true,
        GenlDevlinkAttrs::DpipeEntry(_) => true,
        GenlDevlinkAttrs::DpipeEntryIndex(_) => false,
        GenlDevlinkAttrs::DpipeEntryMatchValues(_) => true,
        GenlDevlinkAttrs::DpipeEntryActionValues(_) => true,
        GenlDevlinkAttrs::DpipeEntryCounter(_) => false,
        GenlDevlinkAttrs::DpipeMatch(_) => true,
        GenlDevlinkAttrs::DpipeMatchValue(_) => true,
        GenlDevlinkAttrs::DpipeMatchType(_) => false,
        GenlDevlinkAttrs::DpipeAction(_) => true,
        GenlDevlinkAttrs::DpipeActionValue(_) => true,
        GenlDevlinkAttrs::DpipeActionType(_) => false,
        GenlDevlinkAttrs::DpipeValue(_) => false,
        GenlDevlinkAttrs::DpipeValueMask(_) => false,
        GenlDevlinkAttrs::DpipeValueMapping(_) => false,
        GenlDevlinkAttrs::DpipeHeaders(_) => true,
        GenlDevlinkAttrs::DpipeHader(_) => true,
        GenlDevlinkAttrs::DpipeHeaderName(_) => false,
        GenlDevlinkAttrs::DpipeHeaderId(_) => false,
        GenlDevlinkAttrs::DpipeHeaderFields(_) => true,
        GenlDevlinkAttrs::DpipeHeaderGlobal(_) => false,
        GenlDevlinkAttrs::DpipeHeaderIndex(_) => false,
        GenlDevlinkAttrs::DpipeField(_) => true,
        GenlDevlinkAttrs::DpipeFieldName(_) => false,
        GenlDevlinkAttrs::DpipeFieldId(_) => false,
        GenlDevlinkAttrs::DpipeFieldBitwidth(_) => false,
        GenlDevlinkAttrs::DpipeFieldMappingType(_) => false,
        GenlDevlinkAttrs::EswitchEncapMode(_) => false,
        GenlDevlinkAttrs::ResourceList(_) => true,
        GenlDevlinkAttrs::Resource(_) => true,
        GenlDevlinkAttrs::ResoureceName(_) => false,
        GenlDevlinkAttrs::ResourceId(_) => false,
        GenlDevlinkAttrs::ResourceSize(_) => false,
        GenlDevlinkAttrs::ResourceSizeNew(_) => false,
        GenlDevlinkAttrs::ResourceSizeValid(_) => false,
        GenlDevlinkAttrs::ResourceSizeMin(_) => false,
        GenlDevlinkAttrs::ResourceSizeMax(_) => false,
        GenlDevlinkAttrs::ResourceSizeGran(_) => false,
        GenlDevlinkAttrs::ResourceUnit(_) => false,
        GenlDevlinkAttrs::ResourceOcc(_) => false,
        GenlDevlinkAttrs::DpipeTableResourceId(_) => false,
        GenlDevlinkAttrs::DpipeTableResourceUnit(_) => false,
        GenlDevlinkAttrs::PortFlavour(_) => false,
        GenlDevlinkAttrs::PortNumber(_) => false,
        GenlDevlinkAttrs::Param(_) => true,
        GenlDevlinkAttrs::ParamName(_) => false,
        GenlDevlinkAttrs::ParamGeneric(_) => false,
        GenlDevlinkAttrs::ParamType(_) => false,
        GenlDevlinkAttrs::ParamValueList(_) => true,
        GenlDevlinkAttrs::ParamValue(_) => true,
        GenlDevlinkAttrs::ParamValueData(_) => false,
        GenlDevlinkAttrs::ParamValueCmode(_) => false,
        GenlDevlinkAttrs::RegionName(_) => false,
        GenlDevlinkAttrs::RegionSize(_) => false,
        GenlDevlinkAttrs::RegionSnapshots(_) => true,
        GenlDevlinkAttrs::RegionSnapshot(_) => true,
        GenlDevlinkAttrs::RegionSnapshotId(_) => false,
        GenlDevlinkAttrs::RegionChunks(_) => true,
        GenlDevlinkAttrs::RegionChunk(_) => true,
        GenlDevlinkAttrs::RegionChunkData(_) => false,
        GenlDevlinkAttrs::RegionChunkOffset(_) => false,
        GenlDevlinkAttrs::RegionChunkSize(_) => false,
        GenlDevlinkAttrs::InfoDriverName(_) => false,
        GenlDevlinkAttrs::InfoSerialNo(_) => false,
        GenlDevlinkAttrs::InfoVersionFixed(_) => true,
        GenlDevlinkAttrs::InfoVersionRunning(_) => true,
        GenlDevlinkAttrs::InfoVersionStored(_) => true,
        GenlDevlinkAttrs::InfoVersionName(_) => false,
        GenlDevlinkAttrs::InfoVersionValue(_) => false,
        GenlDevlinkAttrs::SbPoolCellSize(_) => false,
        GenlDevlinkAttrs::Fmsg(_) => true,
        GenlDevlinkAttrs::FmsgObjNestStart(_) => false,
        GenlDevlinkAttrs::FmsgPairNestStart(_) => false,
        GenlDevlinkAttrs::FmsgArrNestStart(_) => false,
        GenlDevlinkAttrs::FmsgNestEnd(_) => false,
        GenlDevlinkAttrs::FmsgObjName(_) => false,
        GenlDevlinkAttrs::FmsgObjValueType(_) => false,
        GenlDevlinkAttrs::FmsgObjValueData(_) => false,
        GenlDevlinkAttrs::HealthReporter(_) => true,
        GenlDevlinkAttrs::HealthReporterName(_) => false,
        GenlDevlinkAttrs::HealthReporterState(_) => false,
        GenlDevlinkAttrs::HealthReporterErrCount(_) => false,
        GenlDevlinkAttrs::HealthReporterRecoverCount(_) => false,
        GenlDevlinkAttrs::HealthReporterDumpTs(_) => false,
        GenlDevlinkAttrs::HealthReporterGracefulPeriod(_) => false,
        GenlDevlinkAttrs::HealthReporterAucoRecover(_) => false,
        GenlDevlinkAttrs::FlashUpdateFileName(_) => false,
        GenlDevlinkAttrs::FlashUpdateComponent(_) => false,
        GenlDevlinkAttrs::FlashUpdateStatusMsg(_) => false,
        GenlDevlinkAttrs::FlashUpdateStatusDone(_) => false,
        GenlDevlinkAttrs::FlashUpdateStatusTotal(_) => false,
        GenlDevlinkAttrs::PortPciPfNumber(_) => false,
        GenlDevlinkAttrs::PortPciVfNumber(_) => false,
        GenlDevlinkAttrs::Stats(_) => true,
        GenlDevlinkAttrs::TrapName(_) => false,
        GenlDevlinkAttrs::TrapAction(_) => false,
        GenlDevlinkAttrs::TrapType(_) => false,
        GenlDevlinkAttrs::TrapGeneric(_) => false,
        GenlDevlinkAttrs::TrapMetadata(_) => true,
        GenlDevlinkAttrs::TrapGroupName(_) => false,
        GenlDevlinkAttrs::ReloadStatus(_) => false,
        GenlDevlinkAttrs::HealthReporterDumpTsNs(_) => false,
        GenlDevlinkAttrs::NetnsFd(_) => false,
        GenlDevlinkAttrs::NetnsPid(_) => false,
        GenlDevlinkAttrs::NetnsId(_) => false,
        GenlDevlinkAttrs::HealthReporterAutoDump(_) => false,
        GenlDevlinkAttrs::TrapPolicerId(_) => false,
        GenlDevlinkAttrs::TrapPolicerRate(_) => false,
        GenlDevlinkAttrs::TrapPolicerBurst(_) => false,
        GenlDevlinkAttrs::PortFunction(_) => true,
        GenlDevlinkAttrs::InfoBoardSerialNumber(_) => false,
        GenlDevlinkAttrs::PortLanes(_) => false,
        GenlDevlinkAttrs::PortSplittable(_) => false,
        GenlDevlinkAttrs::PortExternal(_) => false,
        GenlDevlinkAttrs::PortControllerNo(_) => false,
        GenlDevlinkAttrs::FlashUpdateStatusTimeout(_) => false,
        GenlDevlinkAttrs::FlashUpdateOverWriteMask(_) => false,
        GenlDevlinkAttrs::ReloadAction(_) => false,
        GenlDevlinkAttrs::ReloadActionPerformed(_) => false,
        GenlDevlinkAttrs::ReloadLimits(_) => false,
        GenlDevlinkAttrs::DevStats(_) => true,
        GenlDevlinkAttrs::ReloadStats(_) => true,
        GenlDevlinkAttrs::ReloadStatsEntry(_) => true,
        GenlDevlinkAttrs::ReloadStatsLimit(_) => false,
        GenlDevlinkAttrs::ReloadStatsValue(_) => false,
        GenlDevlinkAttrs::RemoteReloadStats(_) => true,
        GenlDevlinkAttrs::ReloadActionInfo(_) => true,
        GenlDevlinkAttrs::ReloadActionStats(_) => true,
        GenlDevlinkAttrs::PortPciSfNo(_) => false,
        GenlDevlinkAttrs::RateType(_) => false,
        GenlDevlinkAttrs::RateTxShare(_) => false,
        GenlDevlinkAttrs::RateTxMax(_) => false,
        GenlDevlinkAttrs::RateNodeName(_) => false,
        GenlDevlinkAttrs::RateParentNodeName(_) => false,
        GenlDevlinkAttrs::RegionMaxSnapshots(_) => false,
    }
}

/// The exact unpadded payload byte count of one attribute.
#[verifier::rlimit(100)]
fn devlink_value_len(a: &GenlDevlinkAttrs) -> (n: usize)
    requires
        spec_devlink_wf(*a),
    ensures
        n == spec_devlink_payload(*a).len(),
    decreases *a, 0int,
{
    proof {
        lemma_auto_spec_u16_to_from_le_bytes();
        lemma_auto_spec_u32_to_from_le_bytes();
        lemma_auto_spec_u64_to_from_le_bytes();
    }
    match a {
        GenlDevlinkAttrs::BusName(s) => s.as_str().len() + 1,
        GenlDevlinkAttrs::Location(s) => s.as_str().len() + 1,
        GenlDevlinkAttrs::PortIndex(_) => 4,
        GenlDevlinkAttrs::PortType(_) => 2,
        GenlDevlinkAttrs::DesiredType(_) => 2,
        GenlDevlinkAttrs::NetdevIndex(_) => 4,
        GenlDevlinkAttrs::NetdevName(s) => s.as_str().len() + 1,
        GenlDevlinkAttrs::PortIbdevName(s) => s.as_str().len() + 1,
        GenlDevlinkAttrs::PortSplitCount(_) => 4,
        GenlDevlinkAttrs::PortSplitGroup(_) => 4,
        GenlDevlinkAttrs::SbIndex(_) => 4,
        GenlDevlinkAttrs::SbSize(_) => 4,
        GenlDevlinkAttrs::SbIngressPoolCount(_) => 2,
        GenlDevlinkAttrs::SbEgressPoolCount(_) => 2,
        GenlDevlinkAttrs::SbIngressTcCount(_) => 2,
        GenlDevlinkAttrs::SbEgressTcCount(_) => 2,
        GenlDevlinkAttrs::SbPoolIndex(_) => 2,
        GenlDevlinkAttrs::SbPoolType(_) => 1,
        GenlDevlinkAttrs::SbPoolSize(_) => 4,
        GenlDevlinkAttrs::SbPoolThresholdType(_) => 1,
        GenlDevlinkAttrs::SbPoolThreshold(_) => 4,
        GenlDevlinkAttrs::SbTcIndex(_) => 2,
        GenlDevlinkAttrs::SbOccCur(_) => 4,
        GenlDevlinkAttrs::SbOccMax(_) => 4,
        GenlDevlinkAttrs::EswitchMode(_) => 2,
        GenlDevlinkAttrs::EswitchInlineMode(_) => 1,
        GenlDevlinkAttrs::DpipeTables(v) => devlink_stream_len(v.as_slice()),
        GenlDevlinkAttrs::DpipeTable(v) => devlink_stream_len(v.as_slice()),
        GenlDevlinkAttrs::DpipeTableName(s) => s.as_str().len() + 1,
        GenlDevlinkAttrs::DpipeTableSize(_) => 8,
        GenlDevlinkAttrs::DpipeTableMatches(v) => devlink_stream_len(v.as_slice()),
        GenlDevlinkAttrs::DpipeTableActions(v) => devlink_stream_len(v.as_slice()),
        GenlDevlinkAttrs::DpipeTableCountersEnabled(_) => 1,
        GenlDevlinkAttrs::DpipeEntries(v) => devlink_stream_len(v.as_slice()),
        GenlDevlinkAttrs::DpipeEntry(v) => devlink_stream_len(v.as_slice()),
        GenlDevlinkAttrs::DpipeEntryIndex(_) => 8,
        GenlDevlinkAttrs::DpipeEntryMatchValues(v) => devlink_stream_len(v.as_slice()),
        GenlDevlinkAttrs::DpipeEntryActionValues(v) => devlink_stream_len(v.as_slice()),
        GenlDevlinkAttrs::DpipeEntryCounter(_) => 8,
        GenlDevlinkAttrs::DpipeMatch(v) => devlink_stream_len(v.as_slice()),
        GenlDevlinkAttrs::DpipeMatchValue(v) => devlink_stream_len(v.as_slice()),
        GenlDevlinkAttrs::DpipeMatchType(_) => 4,
        GenlDevlinkAttrs::DpipeAction(v) => devlink_stream_len(v.as_slice()),
        GenlDevlinkAttrs::DpipeActionValue(v) => devlink_stream_len(v.as_slice()),
        GenlDevlinkAttrs::DpipeActionType(_) => 4,
        GenlDevlinkAttrs::DpipeValue(_) => 4,
        GenlDevlinkAttrs::DpipeValueMask(_) => 4,
        GenlDevlinkAttrs::DpipeValueMapping(_) => 4,
        GenlDevlinkAttrs::DpipeHeaders(v) => devlink_stream_len(v.as_slice()),
        GenlDevlinkAttrs::DpipeHader(v) => devlink_stream_len(v.as_slice()),
        GenlDevlinkAttrs::DpipeHeaderName(s) => s.as_str().len() + 1,
        GenlDevlinkAttrs::DpipeHeaderId(_) => 4,
        GenlDevlinkAttrs::DpipeHeaderFields(v) => devlink_stream_len(v.as_slice()),
        GenlDevlinkAttrs::DpipeHeaderGlobal(_) => 1,
        GenlDevlinkAttrs::DpipeHeaderIndex(_) => 4,
        GenlDevlinkAttrs::DpipeField(v) => devlink_stream_len(v.as_slice()),
        GenlDevlinkAttrs::DpipeFieldName(s) => s.as_str().len() + 1,
        GenlDevlinkAttrs::DpipeFieldId(_) => 4,
        GenlDevlinkAttrs::DpipeFieldBitwidth(_) => 4,
        GenlDevlinkAttrs::DpipeFieldMappingType(_) => 4,
        GenlDevlinkAttrs::EswitchEncapMode(_) => 1,
        GenlDevlinkAttrs::ResourceList(v) => devlink_stream_len(v.as_slice()),
        GenlDevlinkAttrs::Resource(v) => devlink_stream_len(v.as_slice()),
        GenlDevlinkAttrs::ResoureceName(s) => s.as_str().len() + 1,
        GenlDevlinkAttrs::ResourceId(_) => 8,
        GenlDevlinkAttrs::ResourceSize(_) => 8,
        GenlDevlinkAttrs::ResourceSizeNew(_) => 8,
        GenlDevlinkAttrs::ResourceSizeValid(_) => 1,
        GenlDevlinkAttrs::ResourceSizeMin(_) => 8,
        GenlDevlinkAttrs::ResourceSizeMax(_) => 8,
        GenlDevlinkAttrs::ResourceSizeGran(_) => 8,
        GenlDevlinkAttrs::ResourceUnit(_) => 1,
        GenlDevlinkAttrs::ResourceOcc(_) => 8,
        GenlDevlinkAttrs::DpipeTableResourceId(_) => 8,
        GenlDevlinkAttrs::DpipeTableResourceUnit(_) => 8,
        GenlDevlinkAttrs::PortFlavour(_) => 2,
        GenlDevlinkAttrs::PortNumber(_) => 4,
        GenlDevlinkAttrs::Param(v) => devlink_stream_len(v.as_slice()),
        GenlDevlinkAttrs::ParamName(s) => s.as_str().len() + 1,
        GenlDevlinkAttrs::ParamGeneric(_) => 1,
        GenlDevlinkAttrs::ParamType(_) => 1,
        GenlDevlinkAttrs::ParamValueList(v) => devlink_stream_len(v.as_slice()),
        GenlDevlinkAttrs::ParamValue(_) => 8,
        GenlDevlinkAttrs::ParamValueData(v) => devlink_stream_len(v.as_slice()),
        GenlDevlinkAttrs::ParamValueCmode(_) => 1,
        GenlDevlinkAttrs::RegionName(s) => s.as_str().len() + 1,
        GenlDevlinkAttrs::RegionSize(_) => 8,
        GenlDevlinkAttrs::RegionSnapshots(v) => devlink_stream_len(v.as_slice()),
        GenlDevlinkAttrs::RegionSnapshot(v) => devlink_stream_len(v.as_slice()),
        GenlDevlinkAttrs::RegionSnapshotId(_) => 4,
        GenlDevlinkAttrs::RegionChunks(v) => devlink_stream_len(v.as_slice()),
        GenlDevlinkAttrs::RegionChunk(v) => devlink_stream_len(v.as_slice()),
        GenlDevlinkAttrs::RegionChunkData(v) => v.len(),
        GenlDevlinkAttrs::RegionChunkOffset(_) => 8,
        GenlDevlinkAttrs::RegionChunkSize(_) => 8,
        GenlDevlinkAttrs::InfoDriverName(s) => s.as_str().len() + 1,
        GenlDevlinkAttrs::InfoSerialNo(s) => s.as_str().len() + 1,
        GenlDevlinkAttrs::InfoVersionFixed(v) => devlink_stream_len(v.as_slice()),
        GenlDevlinkAttrs::InfoVersionRunning(v) => devlink_stream_len(v.as_slice()),
        GenlDevlinkAttrs::InfoVersionStored(v) => devlink_stream_len(v.as_slice()),
        GenlDevlinkAttrs::InfoVersionName(s) => s.as_str().len() + 1,
        GenlDevlinkAttrs::InfoVersionValue(s) => s.as_str().len() + 1,
        GenlDevlinkAttrs::SbPoolCellSize(_) => 4,
        GenlDevlinkAttrs::Fmsg(v) => devlink_stream_len(v.as_slice()),
        GenlDevlinkAttrs::FmsgObjNestStart(_) => 1,
        GenlDevlinkAttrs::FmsgPairNestStart(_) => 1,
        GenlDevlinkAttrs::FmsgArrNestStart(_) => 1,
        GenlDevlinkAttrs::FmsgNestEnd(_) => 1,
        GenlDevlinkAttrs::FmsgObjName(s) => s.as_str().len() + 1,
        GenlDevlinkAttrs::FmsgObjValueType(_) => 1,
        GenlDevlinkAttrs::FmsgObjValueData(v) => devlink_stream_len(v.as_slice()),
        GenlDevlinkAttrs::HealthReporter(v) => devlink_stream_len(v.as_slice()),
        GenlDevlinkAttrs::HealthReporterName(s) => s.as_str().len() + 1,
        GenlDevlinkAttrs::HealthReporterState(_) => 1,
        GenlDevlinkAttrs::HealthReporterErrCount(_) => 8,
        GenlDevlinkAttrs::HealthReporterRecoverCount(_) => 8,
        GenlDevlinkAttrs::HealthReporterDumpTs(_) => 8,
        GenlDevlinkAttrs::HealthReporterGracefulPeriod(_) => 8,
        GenlDevlinkAttrs::HealthReporterAucoRecover(_) => 1,
        GenlDevlinkAttrs::FlashUpdateFileName(s) => s.as_str().len() + 1,
        GenlDevlinkAttrs::FlashUpdateComponent(s) => s.as_str().len() + 1,
        GenlDevlinkAttrs::FlashUpdateStatusMsg(s) => s.as_str().len() + 1,
        GenlDevlinkAttrs::FlashUpdateStatusDone(_) => 8,
        GenlDevlinkAttrs::FlashUpdateStatusTotal(_) => 8,
        GenlDevlinkAttrs::PortPciPfNumber(_) => 2,
        GenlDevlinkAttrs::PortPciVfNumber(_) => 2,
        GenlDevlinkAttrs::Stats(v) => devlink_stream_len(v.as_slice()),
        GenlDevlinkAttrs::TrapName(s) => s.as_str().len() + 1,
        GenlDevlinkAttrs::TrapAction(_) => 1,
        GenlDevlinkAttrs::TrapType(_) => 1,
        GenlDevlinkAttrs::TrapGeneric(_) => 1,
        GenlDevlinkAttrs::TrapMetadata(v) => devlink_stream_len(v.as_slice()),
        GenlDevlinkAttrs::TrapGroupName(s) => s.as_str().len() + 1,
        GenlDevlinkAttrs::ReloadStatus(_) => 1,
        GenlDevlinkAttrs::HealthReporterDumpTsNs(_) => 8,
        GenlDevlinkAttrs::NetnsFd(_) => 4,
        GenlDevlinkAttrs::NetnsPid(_) => 4,
        GenlDevlinkAttrs::NetnsId(_) => 4,
        GenlDevlinkAttrs::HealthReporterAutoDump(_) => 1,
        GenlDevlinkAttrs::TrapPolicerId(_) => 4,
        GenlDevlinkAttrs::TrapPolicerRate(_) => 8,
        GenlDevlinkAttrs::TrapPolicerBurst(_) => 8,
        GenlDevlinkAttrs::PortFunction(v) => devlink_stream_len(v.as_slice()),
        GenlDevlinkAttrs::InfoBoardSerialNumber(s) => s.as_str().len() + 1,
        GenlDevlinkAttrs::PortLanes(_) => 4,
        GenlDevlinkAttrs::PortSplittable(_) => 1,
        GenlDevlinkAttrs::PortExternal(_) => 1,
        GenlDevlinkAttrs::PortControllerNo(_) => 4,
        GenlDevlinkAttrs::FlashUpdateStatusTimeout(_) => 4,
        GenlDevlinkAttrs::FlashUpdateOverWriteMask(_) => 4,
        GenlDevlinkAttrs::ReloadAction(_) => 1,
        GenlDevlinkAttrs::ReloadActionPerformed(_) => 4,
        GenlDevlinkAttrs::ReloadLimits(_) => 4,
        GenlDevlinkAttrs::DevStats(v) => devlink_stream_len(v.as_slice()),
        GenlDevlinkAttrs::ReloadStats(v) => devlink_stream_len(v.as_slice()),
        GenlDevlinkAttrs::ReloadStatsEntry(v) => devlink_stream_len(v.as_slice()),
        GenlDevlinkAttrs::ReloadStatsLimit(_) => 1,
        GenlDevlinkAttrs::ReloadStatsValue(_) => 4,
        GenlDevlinkAttrs::RemoteReloadStats(v) => devlink_stream_len(v.as_slice()),
        GenlDevlinkAttrs::ReloadActionInfo(v) => devlink_stream_len(v.as_slice()),
        GenlDevlinkAttrs::ReloadActionStats(v) => devlink_stream_len(v.as_slice()),
        GenlDevlinkAttrs::PortPciSfNo(_) => 4,
        GenlDevlinkAttrs::RateType(_) => 2,
        GenlDevlinkAttrs::RateTxShare(_) => 8,
        GenlDevlinkAttrs::RateTxMax(_) => 8,
        GenlDevlinkAttrs::RateNodeName(s) => s.as_str().len() + 1,
        GenlDevlinkAttrs::RateParentNodeName(s) => s.as_str().len() + 1,
        GenlDevlinkAttrs::RegionMaxSnapshots(_) => 4,
    }
}

/// The byte size of a whole nesting level's records.
fn devlink_stream_len(items: &[GenlDevlinkAttrs]) -> (n: usize)
    requires
        spec_devlink_all_wf(items@, 0),
        spec_devlink_stream_from(items@, 0).len() <= usize::MAX,
    ensures
        n == spec_devlink_stream_from(items@, 0).len(),
    decreases items@, 1int,
{
    let count = items.len();
    let mut n: usize = 0;
    let mut i: usize = 0;
    while i < count
        invariant
            0 <= i <= count,
            count == items@.len(),
            spec_devlink_all_wf(items@, 0),
            spec_devlink_stream_from(items@, 0).len() <= usize::MAX,
            n + spec_devlink_stream_from(items@, i as int).len() == spec_devlink_stream_from(
                items@,
                0,
            ).len(),
        decreases count - i,
    {
        let item = slice_index_get(items, i);
        proof {
            lemma_devlink_all_wf_index(items@, 0, i as int);
            lemma_devlink_payload_fits(items@[i as int]);
            lemma_nla_record_len(
                spec_wire_kind(
                    spec_devlink_kind(items@[i as int]),
                    spec_devlink_nested(items@[i as int]),
                ),
                spec_devlink_payload(items@[i as int]),
            );
            lemma_align4(spec_devlink_payload(items@[i as int]).len() as int + 4);
        }
        let len = devlink_value_len(item);
        let record = align4(len + 4);
        n = n + record;
        i = i + 1;
    }
    n
}

/// A value-preserving copy of one attribute.
#[verifier::rlimit(100)]
fn clone_devlink(a: &GenlDevlinkAttrs) -> (r: GenlDevlinkAttrs)
    ensures
        r@ == a@,
    decreases *a, 0int,
{
    match a {
        GenlDevlinkAttrs::BusName(s) => GenlDevlinkAttrs::BusName(s.clone()),
        GenlDevlinkAttrs::Location(s) => GenlDevlinkAttrs::Location(s.clone()),
        GenlDevlinkAttrs::PortIndex(v) => GenlDevlinkAttrs::PortIndex(*v),
        GenlDevlinkAttrs::PortType(v) => GenlDevlinkAttrs::PortType(*v),
        GenlDevlinkAttrs::DesiredType(v) => GenlDevlinkAttrs::DesiredType(*v),
        GenlDevlinkAttrs::NetdevIndex(v) => GenlDevlinkAttrs::NetdevIndex(*v),
        GenlDevlinkAttrs::NetdevName(s) => GenlDevlinkAttrs::NetdevName(s.clone()),
        GenlDevlinkAttrs::PortIbdevName(s) => GenlDevlinkAttrs::PortIbdevName(s.clone()),
        GenlDevlinkAttrs::PortSplitCount(v) => GenlDevlinkAttrs::PortSplitCount(*v),
        GenlDevlinkAttrs::PortSplitGroup(v) => GenlDevlinkAttrs::PortSplitGroup(*v),
        GenlDevlinkAttrs::SbIndex(v) => GenlDevlinkAttrs::SbIndex(*v),
        GenlDevlinkAttrs::SbSize(v) => GenlDevlinkAttrs::SbSize(*v),
        GenlDevlinkAttrs::SbIngressPoolCount(v) => GenlDevlinkAttrs::SbIngressPoolCount(*v),
        GenlDevlinkAttrs::SbEgressPoolCount(v) => GenlDevlinkAttrs::SbEgressPoolCount(*v),
        GenlDevlinkAttrs::SbIngressTcCount(v) => GenlDevlinkAttrs::SbIngressTcCount(*v),
        GenlDevlinkAttrs::SbEgressTcCount(v) => GenlDevlinkAttrs::SbEgressTcCount(*v),
        GenlDevlinkAttrs::SbPoolIndex(v) => GenlDevlinkAttrs::SbPoolIndex(*v),
        GenlDevlinkAttrs::SbPoolType(v) => GenlDevlinkAttrs::SbPoolType(*v),
        GenlDevlinkAttrs::SbPoolSize(v) => GenlDevlinkAttrs::SbPoolSize(*v),
        GenlDevlinkAttrs::SbPoolThresholdType(v) => GenlDevlinkAttrs::SbPoolThresholdType(*v),
        GenlDevlinkAttrs::SbPoolThreshold(v) => GenlDevlinkAttrs::SbPoolThreshold(*v),
        GenlDevlinkAttrs::SbTcIndex(v) => GenlDevlinkAttrs::SbTcIndex(*v),
        GenlDevlinkAttrs::SbOccCur(v) => GenlDevlinkAttrs::SbOccCur(*v),
        GenlDevlinkAttrs::SbOccMax(v) => GenlDevlinkAttrs::SbOccMax(*v),
        GenlDevlinkAttrs::EswitchMode(v) => GenlDevlinkAttrs::EswitchMode(*v),
        GenlDevlinkAttrs::EswitchInlineMode(v) => GenlDevlinkAttrs::EswitchInlineMode(*v),
        GenlDevlinkAttrs::DpipeTables(v) => {
            let c = clone_devlink_vec(v);
            proof {
                lemma_devlink_views_congruent(c@, v@, 0);
            }
            GenlDevlinkAttrs::DpipeTables(c)
        },
        GenlDevlinkAttrs::DpipeTable(v) => {
            let c = clone_devlink_vec(v);
            proof {
                lemma_devlink_views_congruent(c@, v@, 0);
            }
            GenlDevlinkAttrs::DpipeTable(c)
        },
        GenlDevlinkAttrs::DpipeTableName(s) => GenlDevlinkAttrs::DpipeTableName(s.clone()),
        GenlDevlinkAttrs::DpipeTableSize(v) => GenlDevlinkAttrs::DpipeTableSize(*v),
        GenlDevlinkAttrs::DpipeTableMatches(v) => {
            let c = clone_devlink_vec(v);
            proof {
                lemma_devlink_views_congruent(c@, v@, 0);
            }
            GenlDevlinkAttrs::DpipeTableMatches(c)
        },
        GenlDevlinkAttrs::DpipeTableActions(v) => {
            let c = clone_devlink_vec(v);
            proof {
                lemma_devlink_views_congruent(c@, v@, 0);
            }
            GenlDevlinkAttrs::DpipeTableActions(c)
        },
        GenlDevlinkAttrs::DpipeTableCountersEnabled(v) => GenlDevlinkAttrs::DpipeTableCountersEnabled(*v),
        GenlDevlinkAttrs::DpipeEntries(v) => {
            let c = clone_devlink_vec(v);
            proof {
                lemma_devlink_views_congruent(c@, v@, 0);
            }
            GenlDevlinkAttrs::DpipeEntries(c)
        },
        GenlDevlinkAttrs::DpipeEntry(v) => {
            let c = clone_devlink_vec(v);
            proof {
                lemma_devlink_views_congruent(c@, v@, 0);
            }
            GenlDevlinkAttrs::DpipeEntry(c)
        },
        GenlDevlinkAttrs::DpipeEntryIndex(v) => GenlDevlinkAttrs::DpipeEntryIndex(*v),
        GenlDevlinkAttrs::DpipeEntryMatchValues(v) => {
            let c = clone_devlink_vec(v);
            proof {
                lemma_devlink_views_congruent(c@, v@, 0);
            }
            GenlDevlinkAttrs::DpipeEntryMatchValues(c)
        },
        GenlDevlinkAttrs::DpipeEntryActionValues(v) => {
            let c = clone_devlink_vec(v);
            proof {
                lemma_devlink_views_congruent(c@, v@, 0);
            }
            GenlDevlinkAttrs::DpipeEntryActionValues(c)
        },
        GenlDevlinkAttrs::DpipeEntryCounter(v) => GenlDevlinkAttrs::DpipeEntryCounter(*v),
        GenlDevlinkAttrs::DpipeMatch(v) => {
            let c = clone_devlink_vec(v);
            proof {
                lemma_devlink_views_congruent(c@, v@, 0);
            }
            GenlDevlinkAttrs::DpipeMatch(c)
        },
        GenlDevlinkAttrs::DpipeMatchValue(v) => {
            let c = clone_devlink_vec(v);
            proof {
                lemma_devlink_views_congruent(c@, v@, 0);
            }
            GenlDevlinkAttrs::DpipeMatchValue(c)
        },
        GenlDevlinkAttrs::DpipeMatchType(v) => GenlDevlinkAttrs::DpipeMatchType(*v),
        GenlDevlinkAttrs::DpipeAction(v) => {
            let c = clone_devlink_vec(v);
            proof {
                lemma_devlink_views_congruent(c@, v@, 0);
            }
            GenlDevlinkAttrs::DpipeAction(c)
        },
        GenlDevlinkAttrs::DpipeActionValue(v) => {
            let c = clone_devlink_vec(v);
            proof {
                lemma_devlink_views_congruent(c@, v@, 0);
            }
            GenlDevlinkAttrs::DpipeActionValue(c)
        },
        GenlDevlinkAttrs::DpipeActionType(v) => GenlDevlinkAttrs::DpipeActionType(*v),
        GenlDevlinkAttrs::DpipeValue(v) => GenlDevlinkAttrs::DpipeValue(*v),
        GenlDevlinkAttrs::DpipeValueMask(v) => GenlDevlinkAttrs::DpipeValueMask(*v),
        GenlDevlinkAttrs::DpipeValueMapping(v) => GenlDevlinkAttrs::DpipeValueMapping(*v),
        GenlDevlinkAttrs::DpipeHeaders(v) => {
            let c = clone_devlink_vec(v);
            proof {
                lemma_devlink_views_congruent(c@, v@, 0);
            }
            GenlDevlinkAttrs::DpipeHeaders(c)
        },
        GenlDevlinkAttrs::DpipeHader(v) => {
            let c = clone_devlink_vec(v);
            proof {
                lemma_devlink_views_congruent(c@, v@, 0);
            }
            GenlDevlinkAttrs::DpipeHader(c)
        },
        GenlDevlinkAttrs::DpipeHeaderName(s) => GenlDevlinkAttrs::DpipeHeaderName(s.clone()),
        GenlDevlinkAttrs::DpipeHeaderId(v) => GenlDevlinkAttrs::DpipeHeaderId(*v),
        GenlDevlinkAttrs::DpipeHeaderFields(v) => {
            let c = clone_devlink_vec(v);
            proof {
                lemma_devlink_views_congruent(c@, v@, 0);
            }
            GenlDevlinkAttrs::DpipeHeaderFields(c)
        },
        GenlDevlinkAttrs::DpipeHeaderGlobal(v) => GenlDevlinkAttrs::DpipeHeaderGlobal(*v),
        GenlDevlinkAttrs::DpipeHeaderIndex(v) => GenlDevlinkAttrs::DpipeHeaderIndex(*v),
        GenlDevlinkAttrs::DpipeField(v) => {
            let c = clone_devlink_vec(v);
            proof {
                lemma_devlink_views_congruent(c@, v@, 0);
            }
            GenlDevlinkAttrs::DpipeField(c)
        },
        GenlDevlinkAttrs::DpipeFieldName(s) => GenlDevlinkAttrs::DpipeFieldName(s.clone()),
        GenlDevlinkAttrs::DpipeFieldId(v) => GenlDevlinkAttrs::DpipeFieldId(*v),
        GenlDevlinkAttrs::DpipeFieldBitwidth(v) => GenlDevlinkAttrs::DpipeFieldBitwidth(*v),
        GenlDevlinkAttrs::DpipeFieldMappingType(v) => GenlDevlinkAttrs::DpipeFieldMappingType(*v),
        GenlDevlinkAttrs::EswitchEncapMode(v) => GenlDevlinkAttrs::EswitchEncapMode(*v),
        GenlDevlinkAttrs::ResourceList(v) => {
            let c = clone_devlink_vec(v);
            proof {
                lemma_devlink_views_congruent(c@, v@, 0);
            }
            GenlDevlinkAttrs::ResourceList(c)
        },
        GenlDevlinkAttrs::Resource(v) => {
            let c = clone_devlink_vec(v);
            proof {
                lemma_devlink_views_congruent(c@, v@, 0);
            }
            GenlDevlinkAttrs::Resource(c)
        },
        GenlDevlinkAttrs::ResoureceName(s) => GenlDevlinkAttrs::ResoureceName(s.clone()),
        GenlDevlinkAttrs::ResourceId(v) => GenlDevlinkAttrs::ResourceId(*v),
        GenlDevlinkAttrs::ResourceSize(v) => GenlDevlinkAttrs::ResourceSize(*v),
        GenlDevlinkAttrs::ResourceSizeNew(v) => GenlDevlinkAttrs::ResourceSizeNew(*v),
        GenlDevlinkAttrs::ResourceSizeValid(v) => GenlDevlinkAttrs::ResourceSizeValid(*v),
        GenlDevlinkAttrs::ResourceSizeMin(v) => GenlDevlinkAttrs::ResourceSizeMin(*v),
        GenlDevlinkAttrs::ResourceSizeMax(v) => GenlDevlinkAttrs::ResourceSizeMax(*v),
        GenlDevlinkAttrs::ResourceSizeGran(v) => GenlDevlinkAttrs::ResourceSizeGran(*v),
        GenlDevlinkAttrs::ResourceUnit(v) => GenlDevlinkAttrs::ResourceUnit(*v),
        GenlDevlinkAttrs::ResourceOcc(v) => GenlDevlinkAttrs::ResourceOcc(*v),
        GenlDevlinkAttrs::DpipeTableResourceId(v) => GenlDevlinkAttrs::DpipeTableResourceId(*v),
        GenlDevlinkAttrs::DpipeTableResourceUnit(v) => GenlDevlinkAttrs::DpipeTableResourceUnit(*v),
        GenlDevlinkAttrs::PortFlavour(v) => GenlDevlinkAttrs::PortFlavour(*v),
        GenlDevlinkAttrs::PortNumber(v) => GenlDevlinkAttrs::PortNumber(*v),
        GenlDevlinkAttrs::Param(v) => {
            let c = clone_devlink_vec(v);
            proof {
                lemma_devlink_views_congruent(c@, v@, 0);
            }
            GenlDevlinkAttrs::Param(c)
        },
        GenlDevlinkAttrs::ParamName(s) => GenlDevlinkAttrs::ParamName(s.clone()),
        GenlDevlinkAttrs::ParamGeneric(v) => GenlDevlinkAttrs::ParamGeneric(*v),
        GenlDevlinkAttrs::ParamType(v) => GenlDevlinkAttrs::ParamType(*v),
        GenlDevlinkAttrs::ParamValueList(v) => {
            let c = clone_devlink_vec(v);
            proof {
                lemma_devlink_views_congruent(c@, v@, 0);
            }
            GenlDevlinkAttrs::ParamValueList(c)
        },
        GenlDevlinkAttrs::ParamValue(v) => GenlDevlinkAttrs::ParamValue(*v),
        GenlDevlinkAttrs::ParamValueData(v) => {
            let c = clone_devlink_vec(v);
            proof {
                lemma_devlink_views_congruent(c@, v@, 0);
            }
            GenlDevlinkAttrs::ParamValueData(c)
        },
        GenlDevlinkAttrs::ParamValueCmode(v) => GenlDevlinkAttrs::ParamValueCmode(*v),
        GenlDevlinkAttrs::RegionName(s) => GenlDevlinkAttrs::RegionName(s.clone()),
        GenlDevlinkAttrs::RegionSize(v) => GenlDevlinkAttrs::RegionSize(*v),
        GenlDevlinkAttrs::RegionSnapshots(v) => {
            let c = clone_devlink_vec(v);
            proof {
                lemma_devlink_views_congruent(c@, v@, 0);
            }
            GenlDevlinkAttrs::RegionSnapshots(c)
        },
        GenlDevlinkAttrs::RegionSnapshot(v) => {
            let c = clone_devlink_vec(v);
            proof {
                lemma_devlink_views_congruent(c@, v@, 0);
            }
            GenlDevlinkAttrs::RegionSnapshot(c)
        },
        GenlDevlinkAttrs::RegionSnapshotId(v) => GenlDevlinkAttrs::RegionSnapshotId(*v),
        GenlDevlinkAttrs::RegionChunks(v) => {
            let c = clone_devlink_vec(v);
            proof {
                lemma_devlink_views_congruent(c@, v@, 0);
            }
            GenlDevlinkAttrs::RegionChunks(c)
        },
        GenlDevlinkAttrs::RegionChunk(v) => {
            let c = clone_devlink_vec(v);
            proof {
                lemma_devlink_views_congruent(c@, v@, 0);
            }
            GenlDevlinkAttrs::RegionChunk(c)
        },
        GenlDevlinkAttrs::RegionChunkData(v) => {
            let c = v.clone();
            proof {
                assert(c@ =~= v@);
            }
            GenlDevlinkAttrs::RegionChunkData(c)
        },
        GenlDevlinkAttrs::RegionChunkOffset(v) => GenlDevlinkAttrs::RegionChunkOffset(*v),
        GenlDevlinkAttrs::RegionChunkSize(v) => GenlDevlinkAttrs::RegionChunkSize(*v),
        GenlDevlinkAttrs::InfoDriverName(s) => GenlDevlinkAttrs::InfoDriverName(s.clone()),
        GenlDevlinkAttrs::InfoSerialNo(s) => GenlDevlinkAttrs::InfoSerialNo(s.clone()),
        GenlDevlinkAttrs::InfoVersionFixed(v) => {
            let c = clone_devlink_vec(v);
            proof {
                lemma_devlink_views_congruent(c@, v@, 0);
            }
            GenlDevlinkAttrs::InfoVersionFixed(c)
        },
        GenlDevlinkAttrs::InfoVersionRunning(v) => {
            let c = clone_devlink_vec(v);
            proof {
                lemma_devlink_views_congruent(c@, v@, 0);
            }
            GenlDevlinkAttrs::InfoVersionRunning(c)
        },
        GenlDevlinkAttrs::InfoVersionStored(v) => {
            let c = clone_devlink_vec(v);
            proof {
                lemma_devlink_views_congruent(c@, v@, 0);
            }
            GenlDevlinkAttrs::InfoVersionStored(c)
        },
        GenlDevlinkAttrs::InfoVersionName(s) => GenlDevlinkAttrs::InfoVersionName(s.clone()),
        GenlDevlinkAttrs::InfoVersionValue(s) => GenlDevlinkAttrs::InfoVersionValue(s.clone()),
        GenlDevlinkAttrs::SbPoolCellSize(v) => GenlDevlinkAttrs::SbPoolCellSize(*v),
        GenlDevlinkAttrs::Fmsg(v) => {
            let c = clone_devlink_vec(v);
            proof {
                lemma_devlink_views_congruent(c@, v@, 0);
            }
            GenlDevlinkAttrs::Fmsg(c)
        },
        GenlDevlinkAttrs::FmsgObjNestStart(v) => GenlDevlinkAttrs::FmsgObjNestStart(*v),
        GenlDevlinkAttrs::FmsgPairNestStart(v) => GenlDevlinkAttrs::FmsgPairNestStart(*v),
        GenlDevlinkAttrs::FmsgArrNestStart(v) => GenlDevlinkAttrs::FmsgArrNestStart(*v),
        GenlDevlinkAttrs::FmsgNestEnd(v) => GenlDevlinkAttrs::FmsgNestEnd(*v),
        GenlDevlinkAttrs::FmsgObjName(s) => GenlDevlinkAttrs::FmsgObjName(s.clone()),
        GenlDevlinkAttrs::FmsgObjValueType(v) => GenlDevlinkAttrs::FmsgObjValueType(*v),
        GenlDevlinkAttrs::FmsgObjValueData(v) => {
            let c = clone_devlink_vec(v);
            proof {
                lemma_devlink_views_congruent(c@, v@, 0);
            }
            GenlDevlinkAttrs::FmsgObjValueData(c)
        },
        GenlDevlinkAttrs::HealthReporter(v) => {
            let c = clone_devlink_vec(v);
            proof {
                lemma_devlink_views_congruent(c@, v@, 0);
            }
            GenlDevlinkAttrs::HealthReporter(c)
        },
        GenlDevlinkAttrs::HealthReporterName(s) => GenlDevlinkAttrs::HealthReporterName(s.clone()),
        GenlDevlinkAttrs::HealthReporterState(v) => GenlDevlinkAttrs::HealthReporterState(*v),
        GenlDevlinkAttrs::HealthReporterErrCount(v) => GenlDevlinkAttrs::HealthReporterErrCount(*v),
        GenlDevlinkAttrs::HealthReporterRecoverCount(v) => GenlDevlinkAttrs::HealthReporterRecoverCount(*v),
        GenlDevlinkAttrs::HealthReporterDumpTs(v) => GenlDevlinkAttrs::HealthReporterDumpTs(*v),
        GenlDevlinkAttrs::HealthReporterGracefulPeriod(v) => GenlDevlinkAttrs::HealthReporterGracefulPeriod(*v),
        GenlDevlinkAttrs::HealthReporterAucoRecover(v) => GenlDevlinkAttrs::HealthReporterAucoRecover(*v),
        GenlDevlinkAttrs::FlashUpdateFileName(s) => GenlDevlinkAttrs::FlashUpdateFileName(s.clone()),
        GenlDevlinkAttrs::FlashUpdateComponent(s) => GenlDevlinkAttrs::FlashUpdateComponent(s.clone()),
        GenlDevlinkAttrs::FlashUpdateStatusMsg(s) => GenlDevlinkAttrs::FlashUpdateStatusMsg(s.clone()),
        GenlDevlinkAttrs::FlashUpdateStatusDone(v) => GenlDevlinkAttrs::FlashUpdateStatusDone(*v),
        GenlDevlinkAttrs::FlashUpdateStatusTotal(v) => GenlDevlinkAttrs::FlashUpdateStatusTotal(*v),
        GenlDevlinkAttrs::PortPciPfNumber(v) => GenlDevlinkAttrs::PortPciPfNumber(*v),
        GenlDevlinkAttrs::PortPciVfNumber(v) => GenlDevlinkAttrs::PortPciVfNumber(*v),
        GenlDevlinkAttrs::Stats(v) => {
            let c = clone_devlink_vec(v);
            proof {
                lemma_devlink_views_congruent(c@, v@, 0);
            }
            GenlDevlinkAttrs::Stats(c)
        },
        GenlDevlinkAttrs::TrapName(s) => GenlDevlinkAttrs::TrapName(s.clone()),
        GenlDevlinkAttrs::TrapAction(v) => GenlDevlinkAttrs::TrapAction(*v),
        GenlDevlinkAttrs::TrapType(v) => GenlDevlinkAttrs::TrapType(*v),
        GenlDevlinkAttrs::TrapGeneric(v) => GenlDevlinkAttrs::TrapGeneric(*v),
        GenlDevlinkAttrs::TrapMetadata(v) => {
            let c = clone_devlink_vec(v);
            proof {
                lemma_devlink_views_congruent(c@, v@, 0);
            }
            GenlDevlinkAttrs::TrapMetadata(c)
        },
        GenlDevlinkAttrs::TrapGroupName(s) => GenlDevlinkAttrs::TrapGroupName(s.clone()),
        GenlDevlinkAttrs::ReloadStatus(v) => GenlDevlinkAttrs::ReloadStatus(*v),
        GenlDevlinkAttrs::HealthReporterDumpTsNs(v) => GenlDevlinkAttrs::HealthReporterDumpTsNs(*v),
        GenlDevlinkAttrs::NetnsFd(v) => GenlDevlinkAttrs::NetnsFd(*v),
        GenlDevlinkAttrs::NetnsPid(v) => GenlDevlinkAttrs::NetnsPid(*v),
        GenlDevlinkAttrs::NetnsId(v) => GenlDevlinkAttrs::NetnsId(*v),
        GenlDevlinkAttrs::HealthReporterAutoDump(v) => GenlDevlinkAttrs::HealthReporterAutoDump(*v),
        GenlDevlinkAttrs::TrapPolicerId(v) => GenlDevlinkAttrs::TrapPolicerId(*v),
        GenlDevlinkAttrs::TrapPolicerRate(v) => GenlDevlinkAttrs::TrapPolicerRate(*v),
        GenlDevlinkAttrs::TrapPolicerBurst(v) => GenlDevlinkAttrs::TrapPolicerBurst(*v),
        GenlDevlinkAttrs::PortFunction(v) => {
            let c = clone_devlink_vec(v);
            proof {
                lemma_devlink_views_congruent(c@, v@, 0);
            }
            GenlDevlinkAttrs::PortFunction(c)
        },
        GenlDevlinkAttrs::InfoBoardSerialNumber(s) => GenlDevlinkAttrs::InfoBoardSerialNumber(s.clone()),
        GenlDevlinkAttrs::PortLanes(v) => GenlDevlinkAttrs::PortLanes(*v),
        GenlDevlinkAttrs::PortSplittable(v) => GenlDevlinkAttrs::PortSplittable(*v),
        GenlDevlinkAttrs::PortExternal(v) => GenlDevlinkAttrs::PortExternal(*v),
        GenlDevlinkAttrs::PortControllerNo(v) => GenlDevlinkAttrs::PortControllerNo(*v),
        GenlDevlinkAttrs::FlashUpdateStatusTimeout(v) => GenlDevlinkAttrs::FlashUpdateStatusTimeout(*v),
        GenlDevlinkAttrs::FlashUpdateOverWriteMask(v) => GenlDevlinkAttrs::FlashUpdateOverWriteMask(*v),
        GenlDevlinkAttrs::ReloadAction(v) => GenlDevlinkAttrs::ReloadAction(*v),
        GenlDevlinkAttrs::ReloadActionPerformed(v) => GenlDevlinkAttrs::ReloadActionPerformed(*v),
        GenlDevlinkAttrs::ReloadLimits(v) => GenlDevlinkAttrs::ReloadLimits(*v),
        GenlDevlinkAttrs::DevStats(v) => {
            let c = clone_devlink_vec(v);
            proof {
                lemma_devlink_views_congruent(c@, v@, 0);
            }
            GenlDevlinkAttrs::DevStats(c)
        },
        GenlDevlinkAttrs::ReloadStats(v) => {
            let c = clone_devlink_vec(v);
            proof {
                lemma_devlink_views_congruent(c@, v@, 0);
            }
            GenlDevlinkAttrs::ReloadStats(c)
        },
        GenlDevlinkAttrs::ReloadStatsEntry(v) => {
            let c = clone_devlink_vec(v);
            proof {
                lemma_devlink_views_congruent(c@, v@, 0);
            }
            GenlDevlinkAttrs::ReloadStatsEntry(c)
        },
        GenlDevlinkAttrs::ReloadStatsLimit(v) => GenlDevlinkAttrs::ReloadStatsLimit(*v),
        GenlDevlinkAttrs::ReloadStatsValue(v) => GenlDevlinkAttrs::ReloadStatsValue(*v),
        GenlDevlinkAttrs::RemoteReloadStats(v) => {
            let c = clone_devlink_vec(v);
            proof {
                lemma_devlink_views_congruent(c@, v@, 0);
            }
            GenlDevlinkAttrs::RemoteReloadStats(c)
        },
        GenlDevlinkAttrs::ReloadActionInfo(v) => {
            let c = clone_devlink_vec(v);
            proof {
                lemma_devlink_views_congruent(c@, v@, 0);
            }
            GenlDevlinkAttrs::ReloadActionInfo(c)
        },
        GenlDevlinkAttrs::ReloadActionStats(v) => {
            let c = clone_devlink_vec(v);
            proof {
                lemma_devlink_views_congruent(c@, v@, 0);
            }
            GenlDevlinkAttrs::ReloadActionStats(c)
        },
        GenlDevlinkAttrs::PortPciSfNo(v) => GenlDevlinkAttrs::PortPciSfNo(*v),
        GenlDevlinkAttrs::RateType(v) => GenlDevlinkAttrs::RateType(*v),
        GenlDevlinkAttrs::RateTxShare(v) => GenlDevlinkAttrs::RateTxShare(*v),
        GenlDevlinkAttrs::RateTxMax(v) => GenlDevlinkAttrs::RateTxMax(*v),
        GenlDevlinkAttrs::RateNodeName(s) => GenlDevlinkAttrs::RateNodeName(s.clone()),
        GenlDevlinkAttrs::RateParentNodeName(s) => GenlDevlinkAttrs::RateParentNodeName(s.clone()),
        GenlDevlinkAttrs::RegionMaxSnapshots(v) => GenlDevlinkAttrs::RegionMaxSnapshots(*v),
    }
}

/// A value-preserving copy of one nesting level.
fn clone_devlink_vec(items: &Vec<GenlDevlinkAttrs>) -> (r: Vec<GenlDevlinkAttrs>)
    ensures
        r@.len() == items@.len(),
        forall|j: int| 0 <= j < items@.len() ==> #[trigger] r@[j]@ == items@[j]@,
    decreases items@, 1int,
{
    let mut out: Vec<GenlDevlinkAttrs> = Vec::new();
    let mut i: usize = 0;
    while i < items.len()
        invariant
            0 <= i <= items@.len(),
            out@.len() == i,
            forall|j: int| 0 <= j < i as int ==> #[trigger] out@[j]@ == items@[j]@,
        decreases items@.len() - i,
    {
        out.push(clone_devlink(slice_index_get(items.as_slice(), i)));
        i = i + 1;
    }
    out
}

impl Clone for GenlDevlinkAttrs {
    fn clone(&self) -> (r: Self)
        ensures
            r@ == self@,
    {
        clone_devlink(self)
    }
}

/// Equal elementwise values give equal value sequences.
proof fn lemma_devlink_views_congruent(s1: Seq<GenlDevlinkAttrs>, s2: Seq<GenlDevlinkAttrs>, i: int)
    requires
        s1.len() == s2.len(),
        forall|j: int| 0 <= j < s1.len() ==> #[trigger] s1[j]@ == s2[j]@,
        0 <= i <= s1.len(),
    ensures
        spec_devlink_views(s1, i) == spec_devlink_views(s2, i),
    decreases s1.len() - i,
{
    if i < s1.len() {
        lemma_devlink_views_congruent(s1, s2, i + 1);
        assert(s1[i]@ == s2[i]@);
        assert(seq![spec_devlink_view(s1[i])] + spec_devlink_views(s1, i + 1) =~= seq![
            spec_devlink_view(s2[i]),
        ] + spec_devlink_views(s2, i + 1));
    }
}

impl NlaValue for GenlDevlinkAttrs {
    open spec fn wf_spec(&self) -> bool {
        spec_devlink_wf(*self)
    }

    open spec fn kind_spec(&self) -> u16 {
        spec_devlink_kind(*self)
    }

    open spec fn nested_spec(&self) -> bool {
        spec_devlink_nested(*self)
    }

    open spec fn payload_spec(&self) -> Seq<u8> {
        spec_devlink_payload(*self)
    }

    proof fn lemma_payload_fits(&self) {
        lemma_devlink_payload_fits(*self);
    }

    fn kind(&self) -> (k: u16) {
        devlink_kind(self)
    }

    fn is_nested(&self) -> (n: bool) {
        devlink_is_nested(self)
    }

    fn value_len(&self) -> (n: usize) {
        devlink_value_len(self)
    }

    fn emit_value(&self, out: &mut Vec<u8>) {
        emit_devlink_value(self, out);
    }
}

/// The devlink attribute a masked kind and payload decode to, with `depth`
/// nesting levels still allowed.
pub open spec fn spec_parse_devlink_attr(kind: u16, p: Seq<u8>, depth: nat) -> Result<
    DevlinkAttrV,
    ErrorKind,
>
    decreases depth, p.len(), 0int,
{
    if kind == DEVLINK_ATTR_BUS_NAME {
        match spec_parse_string(p) {
            Ok(v) => Ok(DevlinkAttrV::BusName(v)),
            Err(e) => Err(e),
        }
    } else if kind == DEVLINK_ATTR_LOCATION {
        match spec_parse_string(p) {
            Ok(v) => Ok(DevlinkAttrV::Location(v)),
            Err(e) => Err(e),
        }
    } else if kind == DEVLINK_ATTR_PORT_INDEX {
        match spec_parse_u32(p) {
            Ok(v) => Ok(DevlinkAttrV::PortIndex(v)),
            Err(e) => Err(e),
        }
    } else if kind == DEVLINK_ATTR_PORT_TYPE {
        match spec_parse_u16(p) {
            Ok(v) => Ok(DevlinkAttrV::PortType(v)),
            Err(e) => Err(e),
        }
    } else if kind == DEVLINK_ATTR_DESIRED_TYPE {
        match spec_parse_u16(p) {
            Ok(v) => Ok(DevlinkAttrV::DesiredType(v)),
            Err(e) => Err(e),
        }
    } else if kind == DEVLINK_ATTR_NETDEV_IF_INDEX {
        match spec_parse_u32(p) {
            Ok(v) => Ok(DevlinkAttrV::NetdevIndex(v)),
            Err(e) => Err(e),
        }
    } else if kind == DEVLINK_ATTR_NETDEV_NAME {
        match spec_parse_string(p) {
            Ok(v) => Ok(DevlinkAttrV::NetdevName(v)),
            Err(e) => Err(e),
        }
    } else if kind == DEVLINK_ATTR_PORT_IBDEV_NAME {
        match spec_parse_string(p) {
            Ok(v) => Ok(DevlinkAttrV::PortIbdevName(v)),
            Err(e) => Err(e),
        }
    } else if kind == DEVLINK_ATTR_PORT_SPLIT_COUNT {
        match spec_parse_u32(p) {
            Ok(v) => Ok(DevlinkAttrV::PortSplitCount(v)),
            Err(e) => Err(e),
        }
    } else if kind == DEVLINK_ATTR_PORT_SPLIT_GROUP {
        match spec_parse_u32(p) {
            Ok(v) => Ok(DevlinkAttrV::PortSplitGroup(v)),
            Err(e) => Err(e),
        }
    } else if kind == DEVLINK_ATTR_SB_INDEX {
        match spec_parse_u32(p) {
            Ok(v) => Ok(DevlinkAttrV::SbIndex(v)),
            Err(e) => Err(e),
        }
    } else if kind == DEVLINK_ATTR_SB_SIZE {
        match spec_parse_u32(p) {
            Ok(v) => Ok(DevlinkAttrV::SbSize(v)),
            Err(e) => Err(e),
        }
    } else if kind == DEVLINK_ATTR_SB_INGRESS_POOL_COUNT {
        match spec_parse_u16(p) {
            Ok(v) => Ok(DevlinkAttrV::SbIngressPoolCount(v)),
            Err(e) => Err(e),
        }
    } else if kind == DEVLINK_ATTR_SB_EGRESS_POOL_COUNT {
        match spec_parse_u16(p) {
            Ok(v) => Ok(DevlinkAttrV::SbEgressPoolCount(v)),
            Err(e) => Err(e),
        }
    } else if kind == DEVLINK_ATTR_SB_INGRESS_TC_COUNT {
        match spec_parse_u16(p) {
            Ok(v) => Ok(DevlinkAttrV::SbIngressTcCount(v)),
            Err(e) => Err(e),
        }
    } else if kind == DEVLINK_ATTR_SB_EGRESS_TC_COUNT {
        match spec_parse_u16(p) {
            Ok(v) => Ok(DevlinkAttrV::SbEgressTcCount(v)),
            Err(e) => Err(e),
        }
    } else if kind == DEVLINK_ATTR_SB_POOL_INDEX {
        match spec_parse_u16(p) {
            Ok(v) => Ok(DevlinkAttrV::SbPoolIndex(v)),
            Err(e) => Err(e),
        }
    } else if kind == DEVLINK_ATTR_SB_POOL_TYPE {
        match spec_parse_u8(p) {
            Ok(v) => Ok(DevlinkAttrV::SbPoolType(v)),
            Err(e) => Err(e),
        }
    } else if kind == DEVLINK_ATTR_SB_POOL_SIZE {
        match spec_parse_u32(p) {
            Ok(v) => Ok(DevlinkAttrV::SbPoolSize(v)),
            Err(e) => Err(e),
        }
    } else if kind == DEVLINK_ATTR_SB_POOL_THRESHOLD_TYPE {
        match spec_parse_u8(p) {
            Ok(v) => Ok(DevlinkAttrV::SbPoolThresholdType(v)),
            Err(e) => Err(e),
        }
    } else if kind == DEVLINK_ATTR_SB_THRESHOLD {
        match spec_parse_u32(p) {
            Ok(v) => Ok(DevlinkAttrV::SbPoolThreshold(v)),
            Err(e) => Err(e),
        }
    } else if kind == DEVLINK_ATTR_SB_TC_INDEX {
        match spec_parse_u16(p) {
            Ok(v) => Ok(DevlinkAttrV::SbTcIndex(v)),
            Err(e) => Err(e),
        }
    } else if kind == DEVLINK_ATTR_SB_OCC_CUR {
        match spec_parse_u32(p) {
            Ok(v) => Ok(DevlinkAttrV::SbOccCur(v)),
            Err(e) => Err(e),
        }
    } else if kind == DEVLINK_ATTR_SB_OCC_MAX {
        match spec_parse_u32(p) {
            Ok(v) => Ok(DevlinkAttrV::SbOccMax(v)),
            Err(e) => Err(e),
        }
    } else if kind == DEVLINK_ATTR_ESWITCH_MODE {
        match spec_parse_u16(p) {
            Ok(v) => Ok(DevlinkAttrV::EswitchMode(v)),
            Err(e) => Err(e),
        }
    } else if kind == DEVLINK_ATTR_ESWITCH_INLINE_MODE {
        match spec_parse_u8(p) {
            Ok(v) => Ok(DevlinkAttrV::EswitchInlineMode(v)),
            Err(e) => Err(e),
        }
    } else if kind == DEVLINK_ATTR_DPIPE_TABLES {
        if depth == 0 {
            Err(ErrorKind::NestingTooDeep)
        } else {
            match spec_parse_devlink_stream(p, (depth - 1) as nat) {
                Ok(vs) => Ok(DevlinkAttrV::DpipeTables(vs)),
                Err(e) => Err(e),
            }
        }
    } else if kind == DEVLINK_ATTR_DPIPE_TABLE {
        if depth == 0 {
            Err(ErrorKind::NestingTooDeep)
        } else {
            match spec_parse_devlink_stream(p, (depth - 1) as nat) {
                Ok(vs) => Ok(DevlinkAttrV::DpipeTable(vs)),
                Err(e) => Err(e),
            }
        }
    } else if kind == DEVLINK_ATTR_DPIPE_TABLE_NAME {
        match spec_parse_string(p) {
            Ok(v) => Ok(DevlinkAttrV::DpipeTableName(v)),
            Err(e) => Err(e),
        }
    } else if kind == DEVLINK_ATTR_DPIPE_TABLE_SIZE {
        match spec_parse_u64(p) {
            Ok(v) => Ok(DevlinkAttrV::DpipeTableSize(v)),
            Err(e) => Err(e),
        }
    } else if kind == DEVLINK_ATTR_DPIPE_TABLE_MATCHES {
        if depth == 0 {
            Err(ErrorKind::NestingTooDeep)
        } else {
            match spec_parse_devlink_stream(p, (depth - 1) as nat) {
                Ok(vs) => Ok(DevlinkAttrV::DpipeTableMatches(vs)),
                Err(e) => Err(e),
            }
        }
    } else if kind == DEVLINK_ATTR_DPIPE_TABLE_ACTIONS {
        if depth == 0 {
            Err(ErrorKind::NestingTooDeep)
        } else {
            match spec_parse_devlink_stream(p, (depth - 1) as nat) {
                Ok(vs) => Ok(DevlinkAttrV::DpipeTableActions(vs)),
                Err(e) => Err(e),
            }
        }
    } else if kind == DEVLINK_ATTR_DPIPE_TABLE_COUNTERS_ENABLED {
        match spec_parse_u8(p) {
            Ok(v) => Ok(DevlinkAttrV::DpipeTableCountersEnabled(v)),
            Err(e) => Err(e),
        }
    } else if kind == DEVLINK_ATTR_DPIPE_ENTRIES {
        if depth == 0 {
            Err(ErrorKind::NestingTooDeep)
        } else {
            match spec_parse_devlink_stream(p, (depth - 1) as nat) {
                Ok(vs) => Ok(DevlinkAttrV::DpipeEntries(vs)),
                Err(e) => Err(e),
            }
        }
    } else if kind == DEVLINK_ATTR_DPIPE_ENTRY {
        if depth == 0 {
            Err(ErrorKind::NestingTooDeep)
        } else {
            match spec_parse_devlink_stream(p, (depth - 1) as nat) {
                Ok(vs) => Ok(DevlinkAttrV::DpipeEntry(vs)),
                Err(e) => Err(e),
            }
        }
    } else if kind == DEVLINK_ATTR_DPIPE_ENTRY_INDEX {
        match spec_parse_u64(p) {
            Ok(v) => Ok(DevlinkAttrV::DpipeEntryIndex(v)),
            Err(e) => Err(e),
        }
    } else if kind == DEVLINK_ATTR_DPIPE_ENTRY_MATCH_VALUES {
        if depth == 0 {
            Err(ErrorKind::NestingTooDeep)
        } else {
            match spec_parse_devlink_stream(p, (depth - 1) as nat) {
                Ok(vs) => Ok(DevlinkAttrV::DpipeEntryMatchValues(vs)),
                Err(e) => Err(e),
            }
        }
    } else if kind == DEVLINK_ATTR_DPIPE_ENTRY_ACTION_VALUES {
        if depth == 0 {
            Err(ErrorKind::NestingTooDeep)
        } else {
            match spec_parse_devlink_stream(p, (depth - 1) as nat) {
                Ok(vs) => Ok(DevlinkAttrV::DpipeEntryActionValues(vs)),
                Err(e) => Err(e),
            }
        }
    } else if kind == DEVLINK_ATTR_DPIPE_ENTRY_COUNTER {
        match spec_parse_u64(p) {
            Ok(v) => Ok(DevlinkAttrV::DpipeEntryCounter(v)),
            Err(e) => Err(e),
        }
    } else if kind == DEVLINK_ATTR_DPIPE_MATCH {
        if depth == 0 {
            Err(ErrorKind::NestingTooDeep)
        } else {
            match spec_parse_devlink_stream(p, (depth - 1) as nat) {
                Ok(vs) => Ok(DevlinkAttrV::DpipeMatch(vs)),
                Err(e) => Err(e),
            }
        }
    } else if kind == DEVLINK_ATTR_DPIPE_MATCH_VALUE {
        if depth == 0 {
            Err(ErrorKind::NestingTooDeep)
        } else {
            match spec_parse_devlink_stream(p, (depth - 1) as nat) {
                Ok(vs) => Ok(DevlinkAttrV::DpipeMatchValue(vs)),
                Err(e) => Err(e),
            }
        }
    } else if kind == DEVLINK_ATTR_DPIPE_MATCH_TYPE {
        match spec_parse_u32(p) {
            Ok(v) => Ok(DevlinkAttrV::DpipeMatchType(v)),
            Err(e) => Err(e),
        }
    } else if kind == DEVLINK_ATTR_DPIPE_ACTION {
        if depth == 0 {
            Err(ErrorKind::NestingTooDeep)
        } else {
            match spec_parse_devlink_stream(p, (depth - 1) as nat) {
                Ok(vs) => Ok(DevlinkAttrV::DpipeAction(vs)),
                Err(e) => Err(e),
            }
        }
    } else if kind == DEVLINK_ATTR_DPIPE_ACTION_VALUE {
        if depth == 0 {
            Err(ErrorKind::NestingTooDeep)
        } else {
            match spec_parse_devlink_stream(p, (depth - 1) as nat) {
                Ok(vs) => Ok(DevlinkAttrV::DpipeActionValue(vs)),
                Err(e) => Err(e),
            }
        }
    } else if kind == DEVLINK_ATTR_DPIPE_ACTION_TYPE {
        match spec_parse_u32(p) {
            Ok(v) => Ok(DevlinkAttrV::DpipeActionType(v)),
            Err(e) => Err(e),
        }
    } else if kind == DEVLINK_ATTR_DPIPE_VALUE {
        match spec_parse_u32(p) {
            Ok(v) => Ok(DevlinkAttrV::DpipeValue(v)),
            Err(e) => Err(e),
        }
    } else if kind == DEVLINK_ATTR_DPIPE_VALUE_MASK {
        match spec_parse_u32(p) {
            Ok(v) => Ok(DevlinkAttrV::DpipeValueMask(v)),
            Err(e) => Err(e),
        }
    } else if kind == DEVLINK_ATTR_DPIPE_VALUE_MAPPING {
        match spec_parse_u32(p) {
            Ok(v) => Ok(DevlinkAttrV::DpipeValueMapping(v)),
            Err(e) => Err(e),
        }
    } else if kind == DEVLINK_ATTR_DPIPE_HEADERS {
        if depth == 0 {
            Err(ErrorKind::NestingTooDeep)
        } else {
            match spec_parse_devlink_stream(p, (depth - 1) as nat) {
                Ok(vs) => Ok(DevlinkAttrV::DpipeHeaders(vs)),
                Err(e) => Err(e),
            }
        }
    } else if kind == DEVLINK_ATTR_DPIPE_HEADER {
        if depth == 0 {
            Err(ErrorKind::NestingTooDeep)
        } else {
            match spec_parse_devlink_stream(p, (depth - 1) as nat) {
                Ok(vs) => Ok(DevlinkAttrV::DpipeHader(vs)),
                Err(e) => Err(e),
            }
        }
    } else if kind == DEVLINK_ATTR_DPIPE_HEADER_NAME {
        match spec_parse_string(p) {
            Ok(v) => Ok(DevlinkAttrV::DpipeHeaderName(v)),
            Err(e) => Err(e),
        }
    } else if kind == DEVLINK_ATTR_DPIPE_HEADER_ID {
        match spec_parse_u32(p) {
            Ok(v) => Ok(DevlinkAttrV::DpipeHeaderId(v)),
            Err(e) => Err(e),
        }
    } else if kind == DEVLINK_ATTR_DPIPE_HEADER_FIELDS {
        if depth == 0 {
            Err(ErrorKind::NestingTooDeep)
        } else {
            match spec_parse_devlink_stream(p, (depth - 1) as nat) {
                Ok(vs) => Ok(DevlinkAttrV::DpipeHeaderFields(vs)),
                Err(e) => Err(e),
            }
        }
    } else if kind == DEVLINK_ATTR_DPIPE_HEADER_GLOBAL {
        match spec_parse_u8(p) {
            Ok(v) => Ok(DevlinkAttrV::DpipeHeaderGlobal(v)),
            Err(e) => Err(e),
        }
    } else if kind == DEVLINK_ATTR_DPIPE_HEADER_INDEX {
        match spec_parse_u32(p) {
            Ok(v) => Ok(DevlinkAttrV::DpipeHeaderIndex(v)),
            Err(e) => Err(e),
        }
    } else if kind == DEVLINK_ATTR_DPIPE_FIELD {
        if depth == 0 {
            Err(ErrorKind::NestingTooDeep)
        } else {
            match spec_parse_devlink_stream(p, (depth - 1) as nat) {
                Ok(vs) => Ok(DevlinkAttrV::DpipeField(vs)),
                Err(e) => Err(e),
            }
        }
    } else if kind == DEVLINK_ATTR_DPIPE_FIELD_NAME {
        match spec_parse_string(p) {
            Ok(v) => Ok(DevlinkAttrV::DpipeFieldName(v)),
            Err(e) => Err(e),
        }
    } else if kind == DEVLINK_ATTR_DPIPE_FIELD_ID {
        match spec_parse_u32(p) {
            Ok(v) => Ok(DevlinkAttrV::DpipeFieldId(v)),
            Err(e) => Err(e),
        }
    } else if kind == DEVLINK_ATTR_DPIPE_FIELD_BITWIDTH {
        match spec_parse_u32(p) {
            Ok(v) => Ok(DevlinkAttrV::DpipeFieldBitwidth(v)),
            Err(e) => Err(e),
        }
    } else if kind == DEVLINK_ATTR_DPIPE_FIELD_MAPPING_TYPE {
        match spec_parse_u32(p) {
            Ok(v) => Ok(DevlinkAttrV::DpipeFieldMappingType(v)),
            Err(e) => Err(e),
        }
    } else if kind == DEVLINK_ATTR_ESWITCH_ENCAP_MODE {
        match spec_parse_u8(p) {
            Ok(v) => Ok(DevlinkAttrV::EswitchEncapMode(v)),
            Err(e) => Err(e),
        }
    } else if kind == DEVLINK_ATTR_RESOURCE_LIST {
        if depth == 0 {
            Err(ErrorKind::NestingTooDeep)
        } else {
            match spec_parse_devlink_stream(p, (depth - 1) as nat) {
                Ok(vs) => Ok(DevlinkAttrV::ResourceList(vs)),
                Err(e) => Err(e),
            }
        }
    } else if kind == DEVLINK_ATTR_RESOURCE {
        if depth == 0 {
            Err(ErrorKind::NestingTooDeep)
        } else {
            match spec_parse_devlink_stream(p, (depth - 1) as nat) {
                Ok(vs) => Ok(DevlinkAttrV::Resource(vs)),
                Err(e) => Err(e),
            }
        }
    } else if kind == DEVLINK_ATTR_RESOURCE_NAME {
        match spec_parse_string(p) {
            Ok(v) => Ok(DevlinkAttrV::ResoureceName(v)),
            Err(e) => Err(e),
        }
    } else if kind == DEVLINK_ATTR_RESOURCE_ID {
        match spec_parse_u64(p) {
            Ok(v) => Ok(DevlinkAttrV::ResourceId(v)),
            Err(e) => Err(e),
        }
    } else if kind == DEVLINK_ATTR_RESOURCE_SIZE {
        match spec_parse_u64(p) {
            Ok(v) => Ok(DevlinkAttrV::ResourceSize(v)),
            Err(e) => Err(e),
        }
    } else if kind == DEVLINK_ATTR_RESOURCE_SIZE_NEW {
        match spec_parse_u64(p) {
            Ok(v) => Ok(DevlinkAttrV::ResourceSizeNew(v)),
            Err(e) => Err(e),
        }
    } else if kind == DEVLINK_ATTR_RESOURCE_SIZE_VALID {
        match spec_parse_u8(p) {
            Ok(v) => Ok(DevlinkAttrV::ResourceSizeValid(v)),
            Err(e) => Err(e),
        }
    } else if kind == DEVLINK_ATTR_RESOURCE_SIZE_MIN {
        match spec_parse_u64(p) {
            Ok(v) => Ok(DevlinkAttrV::ResourceSizeMin(v)),
            Err(e) => Err(e),
        }
    } else if kind == DEVLINK_ATTR_RESOURCE_SIZE_MAX {
        match spec_parse_u64(p) {
            Ok(v) => Ok(DevlinkAttrV::ResourceSizeMax(v)),
            Err(e) => Err(e),
        }
    } else if kind == DEVLINK_ATTR_RESOURCE_SIZE_GRAN {
        match spec_parse_u64(p) {
            Ok(v) => Ok(DevlinkAttrV::ResourceSizeGran(v)),
            Err(e) => Err(e),
        }
    } else if kind == DEVLINK_ATTR_RESOURCE_UNIT {
        match spec_parse_u8(p) {
            Ok(v) => Ok(DevlinkAttrV::ResourceUnit(v)),
            Err(e) => Err(e),
        }
    } else if kind == DEVLINK_ATTR_RESOURCE_OCC {
        match spec_parse_u64(p) {
            Ok(v) => Ok(DevlinkAttrV::ResourceOcc(v)),
            Err(e) => Err(e),
        }
    } else if kind == DEVLINK_ATTR_DPIPE_TABLE_RESOURCE_ID {
        match spec_parse_u64(p) {
            Ok(v) => Ok(DevlinkAttrV::DpipeTableResourceId(v)),
            Err(e) => Err(e),
        }
    } else if kind == DEVLINK_ATTR_DPIPE_TABLE_RESOURCE_UNITS {
        match spec_parse_u64(p) {
            Ok(v) => Ok(DevlinkAttrV::DpipeTableResourceUnit(v)),
            Err(e) => Err(e),
        }
    } else if kind == DEVLINK_ATTR_PORT_FLAVOUR {
        match spec_parse_u16(p) {
            Ok(v) => Ok(DevlinkAttrV::PortFlavour(v)),
            Err(e) => Err(e),
        }
    } else if kind == DEVLINK_ATTR_PORT_NUMBER {
        match spec_parse_u32(p) {
            Ok(v) => Ok(DevlinkAttrV::PortNumber(v)),
            Err(e) => Err(e),
        }
    } else if kind == DEVLINK_ATTR_PARAM {
        if depth == 0 {
            Err(ErrorKind::NestingTooDeep)
        } else {
            match spec_parse_devlink_stream(p, (depth - 1) as nat) {
                Ok(vs) => Ok(DevlinkAttrV::Param(vs)),
                Err(e) => Err(e),
            }
        }
    } else if kind == DEVLINK_ATTR_PARAM_NAME {
        match spec_parse_string(p) {
            Ok(v) => Ok(DevlinkAttrV::ParamName(v)),
            Err(e) => Err(e),
        }
    } else if kind == DEVLINK_ATTR_PARAM_GENERIC {
        match spec_parse_u8(p) {
            Ok(v) => Ok(DevlinkAttrV::ParamGeneric(v != 0)),
            Err(e) => Err(e),
        }
    } else if kind == DEVLINK_ATTR_PARAM_TYPE {
        match spec_parse_u8(p) {
            Ok(v) => Ok(DevlinkAttrV::ParamType(v)),
            Err(e) => Err(e),
        }
    } else if kind == DEVLINK_ATTR_PARAM_VALUES_LIST {
        if depth == 0 {
            Err(ErrorKind::NestingTooDeep)
        } else {
            match spec_parse_devlink_stream(p, (depth - 1) as nat) {
                Ok(vs) => Ok(DevlinkAttrV::ParamValueList(vs)),
                Err(e) => Err(e),
            }
        }
    } else if kind == DEVLINK_ATTR_PARAM_VALUE {
        match spec_parse_u64(p) {
            Ok(v) => Ok(DevlinkAttrV::ParamValue(v)),
            Err(e) => Err(e),
        }
    } else if kind == DEVLINK_ATTR_PARAM_VALUE_DATA {
        if depth == 0 {
            Err(ErrorKind::NestingTooDeep)
        } else {
            match spec_parse_devlink_stream(p, (depth - 1) as nat) {
                Ok(vs) => Ok(DevlinkAttrV::ParamValueData(vs)),
                Err(e) => Err(e),
            }
        }
    } else if kind == DEVLINK_ATTR_PARAM_VALUE_CMODE {
        match spec_parse_u8(p) {
            Ok(v) => Ok(DevlinkAttrV::ParamValueCmode(v)),
            Err(e) => Err(e),
        }
    } else if kind == DEVLINK_ATTR_REGION_NAME {
        match spec_parse_string(p) {
            Ok(v) => Ok(DevlinkAttrV::RegionName(v)),
            Err(e) => Err(e),
        }
    } else if kind == DEVLINK_ATTR_REGION_SIZE {
        match spec_parse_u64(p) {
            Ok(v) => Ok(DevlinkAttrV::RegionSize(v)),
            Err(e) => Err(e),
        }
    } else if kind == DEVLINK_ATTR_REGION_SNAPSHOTS {
        if depth == 0 {
            Err(ErrorKind::NestingTooDeep)
        } else {
            match spec_parse_devlink_stream(p, (depth - 1) as nat) {
                Ok(vs) => Ok(DevlinkAttrV::RegionSnapshots(vs)),
                Err(e) => Err(e),
            }
        }
    } else if kind == DEVLINK_ATTR_REGION_SNAPSHOT {
        if depth == 0 {
            Err(ErrorKind::NestingTooDeep)
        } else {
            match spec_parse_devlink_stream(p, (depth - 1) as nat) {
                Ok(vs) => Ok(DevlinkAttrV::RegionSnapshot(vs)),
                Err(e) => Err(e),
            }
        }
    } else if kind == DEVLINK_ATTR_REGION_SNAPSHOT_ID {
        match spec_parse_u32(p) {
            Ok(v) => Ok(DevlinkAttrV::RegionSnapshotId(v)),
            Err(e) => Err(e),
        }
    } else if kind == DEVLINK_ATTR_REGION_CHUNKS {
        if depth == 0 {
            Err(ErrorKind::NestingTooDeep)
        } else {
            match spec_parse_devlink_stream(p, (depth - 1) as nat) {
                Ok(vs) => Ok(DevlinkAttrV::RegionChunks(vs)),
                Err(e) => Err(e),
            }
        }
    } else if kind == DEVLINK_ATTR_REGION_CHUNK {
        if depth == 0 {
            Err(ErrorKind::NestingTooDeep)
        } else {
            match spec_parse_devlink_stream(p, (depth - 1) as nat) {
                Ok(vs) => Ok(DevlinkAttrV::RegionChunk(vs)),
                Err(e) => Err(e),
            }
        }
    } else if kind == DEVLINK_ATTR_REGION_CHUNK_ADDR {
        match spec_parse_u64(p) {
            Ok(v) => Ok(DevlinkAttrV::RegionChunkOffset(v)),
            Err(e) => Err(e),
        }
    } else if kind == DEVLINK_ATTR_INFO_DRIVER_NAME {
        match spec_parse_string(p) {
            Ok(v) => Ok(DevlinkAttrV::InfoDriverName(v)),
            Err(e) => Err(e),
        }
    } else if kind == DEVLINK_ATTR_INFO_SERIAL_NUMBER {
        match spec_parse_string(p) {
            Ok(v) => Ok(DevlinkAttrV::InfoSerialNo(v)),
            Err(e) => Err(e),
        }
    } else if kind == DEVLINK_ATTR_INFO_VERSION_FIXED {
        if depth == 0 {
            Err(ErrorKind::NestingTooDeep)
        } else {
            match spec_parse_devlink_stream(p, (depth - 1) as nat) {
                Ok(vs) => Ok(DevlinkAttrV::InfoVersionFixed(vs)),
                Err(e) => Err(e),
            }
        }
    } else if kind == DEVLINK_ATTR_INFO_VERSION_RUNNING {
        if depth == 0 {
            Err(ErrorKind::NestingTooDeep)
        } else {
            match spec_parse_devlink_stream(p, (depth - 1) as nat) {
                Ok(vs) => Ok(DevlinkAttrV::InfoVersionRunning(vs)),
                Err(e) => Err(e),
            }
        }
    } else if kind == DEVLINK_ATTR_INFO_VERSION_STORED {
        if depth == 0 {
            Err(ErrorKind::NestingTooDeep)
        } else {
            match spec_parse_devlink_stream(p, (depth - 1) as nat) {
                Ok(vs) => Ok(DevlinkAttrV::InfoVersionStored(vs)),
                Err(e) => Err(e),
            }
        }
    } else if kind == DEVLINK_ATTR_INFO_VERSION_NAME {
        match spec_parse_string(p) {
            Ok(v) => Ok(DevlinkAttrV::InfoVersionName(v)),
            Err(e) => Err(e),
        }
    } else if kind == DEVLINK_ATTR_INFO_VERSION_VALUE {
        match spec_parse_string(p) {
            Ok(v) => Ok(DevlinkAttrV::InfoVersionValue(v)),
            Err(e) => Err(e),
        }
    } else if kind == DEVLINK_ATTR_SB_POOL_CELL_SIZE {
        match spec_parse_u32(p) {
            Ok(v) => Ok(DevlinkAttrV::SbPoolCellSize(v)),
            Err(e) => Err(e),
        }
    } else if kind == DEVLINK_ATTR_FMSG {
        if depth == 0 {
            Err(ErrorKind::NestingTooDeep)
        } else {
            match spec_parse_devlink_stream(p, (depth - 1) as nat) {
                Ok(vs) => Ok(DevlinkAttrV::Fmsg(vs)),
                Err(e) => Err(e),
            }
        }
    } else if kind == DEVLINK_ATTR_FMSG_OBJ_NEST_START {
        match spec_parse_u8(p) {
            Ok(v) => Ok(DevlinkAttrV::FmsgObjNestStart(v != 0)),
            Err(e) => Err(e),
        }
    } else if kind == DEVLINK_ATTR_FMSG_PAIR_NEST_START {
        match spec_parse_u8(p) {
            Ok(v) => Ok(DevlinkAttrV::FmsgPairNestStart(v != 0)),
            Err(e) => Err(e),
        }
    } else if kind == DEVLINK_ATTR_FMSG_ARR_NEST_START {
        match spec_parse_u8(p) {
            Ok(v) => Ok(DevlinkAttrV::FmsgArrNestStart(v != 0)),
            Err(e) => Err(e),
        }
    } else if kind == DEVLINK_ATTR_FMSG_NEST_END {
        match spec_parse_u8(p) {
            Ok(v) => Ok(DevlinkAttrV::FmsgNestEnd(v != 0)),
            Err(e) => Err(e),
        }
    } else if kind == DEVLINK_ATTR_FMSG_OBJ_NAME {
        match spec_parse_string(p) {
            Ok(v) => Ok(DevlinkAttrV::FmsgObjName(v)),
            Err(e) => Err(e),
        }
    } else if kind == DEVLINK_ATTR_FMSG_OBJ_VALUE_TYPE {
        match spec_parse_u8(p) {
            Ok(v) => Ok(DevlinkAttrV::FmsgObjValueType(v)),
            Err(e) => Err(e),
        }
    } else if kind == DEVLINK_ATTR_FMSG_OBJ_VALUE_DATA {
        if depth == 0 {
            Err(ErrorKind::NestingTooDeep)
        } else {
            match spec_parse_devlink_stream(p, (depth - 1) as nat) {
                Ok(vs) => Ok(DevlinkAttrV::FmsgObjValueData(vs)),
                Err(e) => Err(e),
            }
        }
    } else if kind == DEVLINK_ATTR_HEALTH_REPORTER {
        if depth == 0 {
            Err(ErrorKind::NestingTooDeep)
        } else {
            match spec_parse_devlink_stream(p, (depth - 1) as nat) {
                Ok(vs) => Ok(DevlinkAttrV::HealthReporter(vs)),
                Err(e) => Err(e),
            }
        }
    } else if kind == DEVLINK_ATTR_HEALTH_REPORTER_NAME {
        match spec_parse_string(p) {
            Ok(v) => Ok(DevlinkAttrV::HealthReporterName(v)),
            Err(e) => Err(e),
        }
    } else if kind == DEVLINK_ATTR_HEALTH_REPORTER_STATE {
        match spec_parse_u8(p) {
            Ok(v) => Ok(DevlinkAttrV::HealthReporterState(v)),
            Err(e) => Err(e),
        }
    } else if kind == DEVLINK_ATTR_HEALTH_REPORTER_ERR_COUNT {
        match spec_parse_u64(p) {
            Ok(v) => Ok(DevlinkAttrV::HealthReporterErrCount(v)),
            Err(e) => Err(e),
        }
    } else if kind == DEVLINK_ATTR_HEALTH_REPORTER_RECOVER_COUNT {
        match spec_parse_u64(p) {
            Ok(v) => Ok(DevlinkAttrV::HealthReporterRecoverCount(v)),
            Err(e) => Err(e),
        }
    } else if kind == DEVLINK_ATTR_HEALTH_REPORTER_DUMP_TS {
        match spec_parse_u64(p) {
            Ok(v) => Ok(DevlinkAttrV::HealthReporterDumpTs(v)),
            Err(e) => Err(e),
        }
    } else if kind == DEVLINK_ATTR_HEALTH_REPORTER_GRACEFUL_PERIOD {
        match spec_parse_u64(p) {
            Ok(v) => Ok(DevlinkAttrV::HealthReporterGracefulPeriod(v)),
            Err(e) => Err(e),
        }
    } else if kind == DEVLINK_ATTR_HEALTH_REPORTER_AUTO_RECOVER {
        match spec_parse_u8(p) {
            Ok(v) => Ok(DevlinkAttrV::HealthReporterAucoRecover(v)),
            Err(e) => Err(e),
        }
    } else if kind == DEVLINK_ATTR_FLASH_UPDATE_FILE_NAME {
        match spec_parse_string(p) {
            Ok(v) => Ok(DevlinkAttrV::FlashUpdateFileName(v)),
            Err(e) => Err(e),
        }
    } else if kind == DEVLINK_ATTR_FLASH_UPDATE_COMPONENT {
        match spec_parse_string(p) {
            Ok(v) => Ok(DevlinkAttrV::FlashUpdateComponent(v)),
            Err(e) => Err(e),
        }
    } else if kind == DEVLINK_ATTR_FLASH_UPDATE_STATUS_MSG {
        match spec_parse_string(p) {
            Ok(v) => Ok(DevlinkAttrV::FlashUpdateStatusMsg(v)),
            Err(e) => Err(e),
        }
    } else if kind == DEVLINK_ATTR_FLASH_UPDATE_STATUS_DONE {
        match spec_parse_u64(p) {
            Ok(v) => Ok(DevlinkAttrV::FlashUpdateStatusDone(v)),
            Err(e) => Err(e),
        }
    } else if kind == DEVLINK_ATTR_FLASH_UPDATE_STATUS_TOTAL {
        match spec_parse_u64(p) {
            Ok(v) => Ok(DevlinkAttrV::FlashUpdateStatusTotal(v)),
            Err(e) => Err(e),
        }
    } else if kind == DEVLINK_ATTR_PORT_PCI_PF_NUMBER {
        match spec_parse_u16(p) {
            Ok(v) => Ok(DevlinkAttrV::PortPciPfNumber(v)),
            Err(e) => Err(e),
        }
    } else if kind == DEVLINK_ATTR_PORT_PCI_VF_NUMBER {
        match spec_parse_u16(p) {
            Ok(v) => Ok(DevlinkAttrV::PortPciVfNumber(v)),
            Err(e) => Err(e),
        }
    } else if kind == DEVLINK_ATTR_STATS {
        if depth == 0 {
            Err(ErrorKind::NestingTooDeep)
        } else {
            match spec_parse_devlink_stream(p, (depth - 1) as nat) {
                Ok(vs) => Ok(DevlinkAttrV::Stats(vs)),
                Err(e) => Err(e),
            }
        }
    } else if kind == DEVLINK_ATTR_TRAP_NAME {
        match spec_parse_string(p) {
            Ok(v) => Ok(DevlinkAttrV::TrapName(v)),
            Err(e) => Err(e),
        }
    } else if kind == DEVLINK_ATTR_TRAP_ACTION {
        match spec_parse_u8(p) {
            Ok(v) => Ok(DevlinkAttrV::TrapAction(v)),
            Err(e) => Err(e),
        }
    } else if kind == DEVLINK_ATTR_TRAP_TYPE {
        match spec_parse_u8(p) {
            Ok(v) => Ok(DevlinkAttrV::TrapType(v)),
            Err(e) => Err(e),
        }
    } else if kind == DEVLINK_ATTR_TRAP_GENERIC {
        match spec_parse_u8(p) {
            Ok(v) => Ok(DevlinkAttrV::TrapGeneric(v != 0)),
            Err(e) => Err(e),
        }
    } else if kind == DEVLINK_ATTR_TRAP_METADATA {
        if depth == 0 {
            Err(ErrorKind::NestingTooDeep)
        } else {
            match spec_parse_devlink_stream(p, (depth - 1) as nat) {
                Ok(vs) => Ok(DevlinkAttrV::TrapMetadata(vs)),
                Err(e) => Err(e),
            }
        }
    } else if kind == DEVLINK_ATTR_TRAP_GROUP_NAME {
        match spec_parse_string(p) {
            Ok(v) => Ok(DevlinkAttrV::TrapGroupName(v)),
            Err(e) => Err(e),
        }
    } else if kind == DEVLINK_ATTR_RELOAD_FAILED {
        match spec_parse_u8(p) {
            Ok(v) => Ok(DevlinkAttrV::ReloadStatus(v)),
            Err(e) => Err(e),
        }
    } else if kind == DEVLINK_ATTR_HEALTH_REPORTER_DUMP_TS_NS {
        match spec_parse_u64(p) {
            Ok(v) => Ok(DevlinkAttrV::HealthReporterDumpTsNs(v)),
            Err(e) => Err(e),
        }
    } else if kind == DEVLINK_ATTR_NETNS_FD {
        match spec_parse_u32(p) {
            Ok(v) => Ok(DevlinkAttrV::NetnsFd(v)),
            Err(e) => Err(e),
        }
    } else if kind == DEVLINK_ATTR_NETNS_PID {
        match spec_parse_u32(p) {
            Ok(v) => Ok(DevlinkAttrV::NetnsPid(v)),
            Err(e) => Err(e),
        }
    } else if kind == DEVLINK_ATTR_NETNS_ID {
        match spec_parse_u32(p) {
            Ok(v) => Ok(DevlinkAttrV::NetnsId(v)),
            Err(e) => Err(e),
        }
    } else if kind == DEVLINK_ATTR_HEALTH_REPORTER_AUTO_DUMP {
        match spec_parse_u8(p) {
            Ok(v) => Ok(DevlinkAttrV::HealthReporterAutoDump(v)),
            Err(e) => Err(e),
        }
    } else if kind == DEVLINK_ATTR_TRAP_POLICER_ID {
        match spec_parse_u32(p) {
            Ok(v) => Ok(DevlinkAttrV::TrapPolicerId(v)),
            Err(e) => Err(e),
        }
    } else if kind == DEVLINK_ATTR_TRAP_POLICER_RATE {
        match spec_parse_u64(p) {
            Ok(v) => Ok(DevlinkAttrV::TrapPolicerRate(v)),
            Err(e) => Err(e),
        }
    } else if kind == DEVLINK_ATTR_TRAP_POLICER_BURST {
        match spec_parse_u64(p) {
            Ok(v) => Ok(DevlinkAttrV::TrapPolicerBurst(v)),
            Err(e) => Err(e),
        }
    } else if kind == DEVLINK_ATTR_PORT_FUNCTION {
        if depth == 0 {
            Err(ErrorKind::NestingTooDeep)
        } else {
            match spec_parse_devlink_stream(p, (depth - 1) as nat) {
                Ok(vs) => Ok(DevlinkAttrV::PortFunction(vs)),
                Err(e) => Err(e),
            }
        }
    } else if kind == DEVLINK_ATTR_INFO_BOARD_SERIAL_NUMBER {
        match spec_parse_string(p) {
            Ok(v) => Ok(DevlinkAttrV::InfoBoardSerialNumber(v)),
            Err(e) => Err(e),
        }
    } else if kind == DEVLINK_ATTR_PORT_LANES {
        match spec_parse_u32(p) {
            Ok(v) => Ok(DevlinkAttrV::PortLanes(v)),
            Err(e) => Err(e),
        }
    } else if kind == DEVLINK_ATTR_PORT_SPLITTABLE {
        match spec_parse_u8(p) {
            Ok(v) => Ok(DevlinkAttrV::PortSplittable(v)),
            Err(e) => Err(e),
        }
    } else if kind == DEVLINK_ATTR_PORT_EXTERNAL {
        match spec_parse_u8(p) {
            Ok(v) => Ok(DevlinkAttrV::PortExternal(v)),
            Err(e) => Err(e),
        }
    } else if kind == DEVLINK_ATTR_PORT_CONTROLLER_NUMBER {
        match spec_parse_u32(p) {
            Ok(v) => Ok(DevlinkAttrV::PortControllerNo(v)),
            Err(e) => Err(e),
        }
    } else if kind == DEVLINK_ATTR_FLASH_UPDATE_STATUS_TIMEOUT {
        match spec_parse_u32(p) {
            Ok(v) => Ok(DevlinkAttrV::FlashUpdateStatusTimeout(v)),
            Err(e) => Err(e),
        }
    } else if kind == DEVLINK_ATTR_FLASH_UPDATE_OVERWRITE_MASK {
        match spec_parse_u32(p) {
            Ok(v) => Ok(DevlinkAttrV::FlashUpdateOverWriteMask(v)),
            Err(e) => Err(e),
        }
    } else if kind == DEVLINK_ATTR_RELOAD_ACTION {
        match spec_parse_u8(p) {
            Ok(v) => Ok(DevlinkAttrV::ReloadAction(v)),
            Err(e) => Err(e),
        }
    } else if kind == DEVLINK_ATTR_RELOAD_ACTIONS_PERFORMED {
        match spec_parse_u32(p) {
            Ok(v) => Ok(DevlinkAttrV::ReloadActionPerformed(v)),
            Err(e) => Err(e),
        }
    } else if kind == DEVLINK_ATTR_RELOAD_LIMITS {
        match spec_parse_u32(p) {
            Ok(v) => Ok(DevlinkAttrV::ReloadLimits(v)),
            Err(e) => Err(e),
        }
    } else if kind == DEVLINK_ATTR_DEV_STATS {
        if depth == 0 {
            Err(ErrorKind::NestingTooDeep)
        } else {
            match spec_parse_devlink_stream(p, (depth - 1) as nat) {
                Ok(vs) => Ok(DevlinkAttrV::DevStats(vs)),
                Err(e) => Err(e),
            }
        }
    } else if kind == DEVLINK_ATTR_RELOAD_STATS {
        if depth == 0 {
            Err(ErrorKind::NestingTooDeep)
        } else {
            match spec_parse_devlink_stream(p, (depth - 1) as nat) {
                Ok(vs) => Ok(DevlinkAttrV::ReloadStats(vs)),
                Err(e) => Err(e),
            }
        }
    } else if kind == DEVLINK_ATTR_RELOAD_STATS_ENTRY {
        if depth == 0 {
            Err(ErrorKind::NestingTooDeep)
        } else {
            match spec_parse_devlink_stream(p, (depth - 1) as nat) {
                Ok(vs) => Ok(DevlinkAttrV::ReloadStatsEntry(vs)),
                Err(e) => Err(e),
            }
        }
    } else if kind == DEVLINK_ATTR_RELOAD_STATS_LIMIT {
        match spec_parse_u8(p) {
            Ok(v) => Ok(DevlinkAttrV::ReloadStatsLimit(v)),
            Err(e) => Err(e),
        }
    } else if kind == DEVLINK_ATTR_RELOAD_STATS_VALUE {
        match spec_parse_u32(p) {
            Ok(v) => Ok(DevlinkAttrV::ReloadStatsValue(v)),
            Err(e) => Err(e),
        }
    } else if kind == DEVLINK_ATTR_REMOTE_RELOAD_SATS {
        if depth == 0 {
            Err(ErrorKind::NestingTooDeep)
        } else {
            match spec_parse_devlink_stream(p, (depth - 1) as nat) {
                Ok(vs) => Ok(DevlinkAttrV::RemoteReloadStats(vs)),
                Err(e) => Err(e),
            }
        }
    } else if kind == DEVLINK_ATTR_RELOAD_ACTION_INFO {
        if depth == 0 {
            Err(ErrorKind::NestingTooDeep)
        } else {
            match spec_parse_devlink_stream(p, (depth - 1) as nat) {
                Ok(vs) => Ok(DevlinkAttrV::ReloadActionInfo(vs)),
                Err(e) => Err(e),
            }
        }
    } else if kind == DEVLINK_ATTR_RELAOD_ACTION_STATS {
        if depth == 0 {
            Err(ErrorKind::NestingTooDeep)
        } else {
            match spec_parse_devlink_stream(p, (depth - 1) as nat) {
                Ok(vs) => Ok(DevlinkAttrV::ReloadActionStats(vs)),
                Err(e) => Err(e),
            }
        }
    } else if kind == DEVLINK_ATTR_PORT_PCI_SF_NUMBER {
        match spec_parse_u32(p) {
            Ok(v) => Ok(DevlinkAttrV::PortPciSfNo(v)),
            Err(e) => Err(e),
        }
    } else if kind == DEVLINK_ATTR_RATE_TYPE {
        match spec_parse_u16(p) {
            Ok(v) => Ok(DevlinkAttrV::RateType(v)),
            Err(e) => Err(e),
        }
    } else if kind == DEVLINK_ATTR_RATE_TX_SHARE {
        match spec_parse_u64(p) {
            Ok(v) => Ok(DevlinkAttrV::RateTxShare(v)),
            Err(e) => Err(e),
        }
    } else if kind == DEVLINK_ATTR_RATE_TX_MAX {
        match spec_parse_u64(p) {
            Ok(v) => Ok(DevlinkAttrV::RateTxMax(v)),
            Err(e) => Err(e),
        }
    } else if kind == DEVLINK_ATTR_RATE_NODE_NAME {
        match spec_parse_string(p) {
            Ok(v) => Ok(DevlinkAttrV::RateNodeName(v)),
            Err(e) => Err(e),
        }
    } else if kind == DEVLINK_ATTR_RATE_PARENT_NODE_NAME {
        match spec_parse_string(p) {
            Ok(v) => Ok(DevlinkAttrV::RateParentNodeName(v)),
            Err(e) => Err(e),
        }
    } else if kind == DEVLINK_ATTR_REGION_MAX_SNAPSHOTS {
        match spec_parse_u32(p) {
            Ok(v) => Ok(DevlinkAttrV::RegionMaxSnapshots(v)),
            Err(e) => Err(e),
        }
    } else if kind == DEVLINK_ATTR_PORT_SPLIT_SUBPORT_NUMBER {
        match spec_parse_u32(p) {
            Ok(v) => Ok(DevlinkAttrV::PortSplitCount(v)),
            Err(e) => Err(e),
        }
    } else {
        Err(ErrorKind::UnknownAttributeType(kind))
    }
}

/// The devlink attributes a whole buffer decodes to at one nesting level:
/// records split with padding skipped, each payload decoded by the schema.
pub open spec fn spec_parse_devlink_stream(b: Seq<u8>, depth: nat) -> Result<
    Seq<DevlinkAttrV>,
    ErrorKind,
>
    decreases depth, b.len(), 1int,
{
    if b.len() == 0 {
        Ok(Seq::empty())
    } else if !nla_ok(b) {
        Err(ErrorKind::BufferTooShort)
    } else {
        match spec_parse_devlink_attr(nla_kind_of(b) & NLA_TYPE_MASK, nla_payload_of(b), depth) {
            Ok(a) => match spec_parse_devlink_stream(
                b.subrange(nla_step_of(b), b.len() as int),
                depth,
            ) {
                Ok(rest) => Ok(seq![a] + rest),
                Err(e) => Err(e),
            },
            Err(e) => Err(e),
        }
    }
}

/// Decodes one attribute from a masked kind and its payload bytes.
#[verifier::rlimit(100)]
fn parse_devlink_attr(kind: u16, payload: &[u8], depth: u32) -> (r: Result<
    GenlDevlinkAttrs,
    NlError,
>)
    ensures
        match r {
            Ok(a) => spec_parse_devlink_attr(kind, payload@, depth as nat) == Ok::<
                _,
                ErrorKind,
            >(a@),
            Err(e) => spec_parse_devlink_attr(kind, payload@, depth as nat) == Err::<
                DevlinkAttrV,
                _,
            >(e.kind),
        },
    decreases depth, payload@.len(), 0int,
{
    if kind == DEVLINK_ATTR_BUS_NAME {
        match parse_string(payload) {
            Ok(v) => Ok(GenlDevlinkAttrs::BusName(v)),
            Err(e) => Err(e.context("DEVLINK_ATTR_BUS_NAME")),
        }
    } else if kind == DEVLINK_ATTR_LOCATION {
        match parse_string(payload) {
            Ok(v) => Ok(GenlDevlinkAttrs::Location(v)),
            Err(e) => Err(e.context("DEVLINK_ATTR_LOCATION")),
        }
    } else if kind == DEVLINK_ATTR_PORT_INDEX {
        match parse_u32(payload) {
            Ok(v) => Ok(GenlDevlinkAttrs::PortIndex(v)),
            Err(e) => Err(e.context("DEVLINK_ATTR_PORT_INDEX")),
        }
    } else if kind == DEVLINK_ATTR_PORT_TYPE {
        match parse_u16(payload) {
            Ok(v) => Ok(GenlDevlinkAttrs::PortType(v)),
            Err(e) => Err(e.context("DEVLINK_ATTR_PORT_TYPE")),
        }
    } else if kind == DEVLINK_ATTR_DESIRED_TYPE {
        match parse_u16(payload) {
            Ok(v) => Ok(GenlDevlinkAttrs::DesiredType(v)),
            Err(e) => Err(e.context("DEVLINK_ATTR_DESIRED_TYPE")),
        }
    } else if kind == DEVLINK_ATTR_NETDEV_IF_INDEX {
        match parse_u32(payload) {
            Ok(v) => Ok(GenlDevlinkAttrs::NetdevIndex(v)),
            Err(e) => Err(e.context("DEVLINK_ATTR_NETDEV_IF_INDEX")),
        }
    } else if kind == DEVLINK_ATTR_NETDEV_NAME {
        match parse_string(payload) {
            Ok(v) => Ok(GenlDevlinkAttrs::NetdevName(v)),
            Err(e) => Err(e.context("DEVLINK_ATTR_NETDEV_NAME")),
        }
    } else if kind == DEVLINK_ATTR_PORT_IBDEV_NAME {
        match parse_string(payload) {
            Ok(v) => Ok(GenlDevlinkAttrs::PortIbdevName(v)),
            Err(e) => Err(e.context("DEVLINK_ATTR_PORT_IBDEV_NAME")),
        }
    } else if kind == DEVLINK_ATTR_PORT_SPLIT_COUNT {
        match parse_u32(payload) {
            Ok(v) => Ok(GenlDevlinkAttrs::PortSplitCount(v)),
            Err(e) => Err(e.context("DEVLINK_ATTR_PORT_SPLIT_COUNT")),
        }
    } else if kind == DEVLINK_ATTR_PORT_SPLIT_GROUP {
        match parse_u32(payload) {
            Ok(v) => Ok(GenlDevlinkAttrs::PortSplitGroup(v)),
            Err(e) => Err(e.context("DEVLINK_ATTR_PORT_SPLIT_GROUP")),
        }
    } else if kind == DEVLINK_ATTR_SB_INDEX {
        match parse_u32(payload) {
            Ok(v) => Ok(GenlDevlinkAttrs::SbIndex(v)),
            Err(e) => Err(e.context("DEVLINK_ATTR_SB_INDEX")),
        }
    } else if kind == DEVLINK_ATTR_SB_SIZE {
        match parse_u32(payload) {
            Ok(v) => Ok(GenlDevlinkAttrs::SbSize(v)),
            Err(e) => Err(e.context("DEVLINK_ATTR_SB_SIZE")),
        }
    } else if kind == DEVLINK_ATTR_SB_INGRESS_POOL_COUNT {
        match parse_u16(payload) {
            Ok(v) => Ok(GenlDevlinkAttrs::SbIngressPoolCount(v)),
            Err(e) => Err(e.context("DEVLINK_ATTR_SB_INGRESS_POOL_COUNT")),
        }
    } else if kind == DEVLINK_ATTR_SB_EGRESS_POOL_COUNT {
        match parse_u16(payload) {
            Ok(v) => Ok(GenlDevlinkAttrs::SbEgressPoolCount(v)),
            Err(e) => Err(e.context("DEVLINK_ATTR_SB_EGRESS_POOL_COUNT")),
        }
    } else if kind == DEVLINK_ATTR_SB_INGRESS_TC_COUNT {
        match parse_u16(payload) {
            Ok(v) => Ok(GenlDevlinkAttrs::SbIngressTcCount(v)),
            Err(e) => Err(e.context("DEVLINK_ATTR_SB_INGRESS_TC_COUNT")),
        }
    } else if kind == DEVLINK_ATTR_SB_EGRESS_TC_COUNT {
        match parse_u16(payload) {
            Ok(v) => Ok(GenlDevlinkAttrs::SbEgressTcCount(v)),
            Err(e) => Err(e.context("DEVLINK_ATTR_SB_EGRESS_TC_COUNT")),
        }
    } else if kind == DEVLINK_ATTR_SB_POOL_INDEX {
        match parse_u16(payload) {
            Ok(v) => Ok(GenlDevlinkAttrs::SbPoolIndex(v)),
            Err(e) => Err(e.context("DEVLINK_ATTR_SB_POOL_INDEX")),
        }
    } else if kind == DEVLINK_ATTR_SB_POOL_TYPE {
        match parse_u8(payload) {
            Ok(v) => Ok(GenlDevlinkAttrs::SbPoolType(v)),
            Err(e) => Err(e.context("DEVLINK_ATTR_SB_POOL_TYPE")),
        }
    } else if kind == DEVLINK_ATTR_SB_POOL_SIZE {
        match parse_u32(payload) {
            Ok(v) => Ok(GenlDevlinkAttrs::SbPoolSize(v)),
            Err(e) => Err(e.context("DEVLINK_ATTR_SB_POOL_SIZE")),
        }
    } else if kind == DEVLINK_ATTR_SB_POOL_THRESHOLD_TYPE {
        match parse_u8(payload) {
            Ok(v) => Ok(GenlDevlinkAttrs::SbPoolThresholdType(v)),
            Err(e) => Err(e.context("DEVLINK_ATTR_SB_POOL_THRESHOLD_TYPE")),
        }
    } else if kind == DEVLINK_ATTR_SB_THRESHOLD {
        match parse_u32(payload) {
            Ok(v) => Ok(GenlDevlinkAttrs::SbPoolThreshold(v)),
            Err(e) => Err(e.context("DEVLINK_ATTR_SB_THRESHOLD")),
        }
    } else if kind == DEVLINK_ATTR_SB_TC_INDEX {
        match parse_u16(payload) {
            Ok(v) => Ok(GenlDevlinkAttrs::SbTcIndex(v)),
            Err(e) => Err(e.context("DEVLINK_ATTR_SB_TC_INDEX")),
        }
    } else if kind == DEVLINK_ATTR_SB_OCC_CUR {
        match parse_u32(payload) {
            Ok(v) => Ok(GenlDevlinkAttrs::SbOccCur(v)),
            Err(e) => Err(e.context("DEVLINK_ATTR_SB_OCC_CUR")),
        }
    } else if kind == DEVLINK_ATTR_SB_OCC_MAX {
        match parse_u32(payload) {
            Ok(v) => Ok(GenlDevlinkAttrs::SbOccMax(v)),
            Err(e) => Err(e.context("DEVLINK_ATTR_SB_OCC_MAX")),
        }
    } else if kind == DEVLINK_ATTR_ESWITCH_MODE {
        match parse_u16(payload) {
            Ok(v) => Ok(GenlDevlinkAttrs::EswitchMode(v)),
            Err(e) => Err(e.context("DEVLINK_ATTR_ESWITCH_MODE")),
        }
    } else if kind == DEVLINK_ATTR_ESWITCH_INLINE_MODE {
        match parse_u8(payload) {
            Ok(v) => Ok(GenlDevlinkAttrs::EswitchInlineMode(v)),
            Err(e) => Err(e.context("DEVLINK_ATTR_ESWITCH_INLINE_MODE")),
        }
    } else if kind == DEVLINK_ATTR_DPIPE_TABLES {
        if depth == 0 {
            Err(NlError::new(ErrorKind::NestingTooDeep).context("DEVLINK_ATTR_DPIPE_TABLES"))
        } else {
            match parse_devlink_stream(payload, depth - 1) {
                Ok(vs) => {
                    proof {
                        lemma_devlink_views_deep(vs@, 0);
                        assert(spec_devlink_views(vs@, 0) =~= vs.deep_view());
                    }
                    Ok(GenlDevlinkAttrs::DpipeTables(vs))
                },
                Err(e) => Err(e.context("DEVLINK_ATTR_DPIPE_TABLES")),
            }
        }
    } else if kind == DEVLINK_ATTR_DPIPE_TABLE {
        if depth == 0 {
            Err(NlError::new(ErrorKind::NestingTooDeep).context("DEVLINK_ATTR_DPIPE_TABLE"))
        } else {
            match parse_devlink_stream(payload, depth - 1) {
                Ok(vs) => {
                    proof {
                        lemma_devlink_views_deep(vs@, 0);
                        assert(spec_devlink_views(vs@, 0) =~= vs.deep_view());
                    }
                    Ok(GenlDevlinkAttrs::DpipeTable(vs))
                },
                Err(e) => Err(e.context("DEVLINK_ATTR_DPIPE_TABLE")),
            }
        }
    } else if kind == DEVLINK_ATTR_DPIPE_TABLE_NAME {
        match parse_string(payload) {
            Ok(v) => Ok(GenlDevlinkAttrs::DpipeTableName(v)),
            Err(e) => Err(e.context("DEVLINK_ATTR_DPIPE_TABLE_NAME")),
        }
    } else if kind == DEVLINK_ATTR_DPIPE_TABLE_SIZE {
        match parse_u64(payload) {
            Ok(v) => Ok(GenlDevlinkAttrs::DpipeTableSize(v)),
            Err(e) => Err(e.context("DEVLINK_ATTR_DPIPE_TABLE_SIZE")),
        }
    } else if kind == DEVLINK_ATTR_DPIPE_TABLE_MATCHES {
        if depth == 0 {
            Err(NlError::new(ErrorKind::NestingTooDeep).context("DEVLINK_ATTR_DPIPE_TABLE_MATCHES"))
        } else {
            match parse_devlink_stream(payload, depth - 1) {
                Ok(vs) => {
                    proof {
                        lemma_devlink_views_deep(vs@, 0);
                        assert(spec_devlink_views(vs@, 0) =~= vs.deep_view());
                    }
                    Ok(GenlDevlinkAttrs::DpipeTableMatches(vs))
                },
                Err(e) => Err(e.context("DEVLINK_ATTR_DPIPE_TABLE_MATCHES")),
            }
        }
    } else if kind == DEVLINK_ATTR_DPIPE_TABLE_ACTIONS {
        if depth == 0 {
            Err(NlError::new(ErrorKind::NestingTooDeep).context("DEVLINK_ATTR_DPIPE_TABLE_ACTIONS"))
        } else {
            match parse_devlink_stream(payload, depth - 1) {
                Ok(vs) => {
                    proof {
                        lemma_devlink_views_deep(vs@, 0);
                        assert(spec_devlink_views(vs@, 0) =~= vs.deep_view());
                    }
                    Ok(GenlDevlinkAttrs::DpipeTableActions(vs))
                },
                Err(e) => Err(e.context("DEVLINK_ATTR_DPIPE_TABLE_ACTIONS")),
            }
        }
    } else if kind == DEVLINK_ATTR_DPIPE_TABLE_COUNTERS_ENABLED {
        match parse_u8(payload) {
            Ok(v) => Ok(GenlDevlinkAttrs::DpipeTableCountersEnabled(v)),
            Err(e) => Err(e.context("DEVLINK_ATTR_DPIPE_TABLE_COUNTERS_ENABLED")),
        }
    } else if kind == DEVLINK_ATTR_DPIPE_ENTRIES {
        if depth == 0 {
            Err(NlError::new(ErrorKind::NestingTooDeep).context("DEVLINK_ATTR_DPIPE_ENTRIES"))
        } else {
            match parse_devlink_stream(payload, depth - 1) {
                Ok(vs) => {
                    proof {
                        lemma_devlink_views_deep(vs@, 0);
                        assert(spec_devlink_views(vs@, 0) =~= vs.deep_view());
                    }
                    Ok(GenlDevlinkAttrs::DpipeEntries(vs))
                },
                Err(e) => Err(e.context("DEVLINK_ATTR_DPIPE_ENTRIES")),
            }
        }
    } else if kind == DEVLINK_ATTR_DPIPE_ENTRY {
        if depth == 0 {
            Err(NlError::new(ErrorKind::NestingTooDeep).context("DEVLINK_ATTR_DPIPE_ENTRY"))
        } else {
            match parse_devlink_stream(payload, depth - 1) {
                Ok(vs) => {
                    proof {
                        lemma_devlink_views_deep(vs@, 0);
                        assert(spec_devlink_views(vs@, 0) =~= vs.deep_view());
                    }
                    Ok(GenlDevlinkAttrs::DpipeEntry(vs))
                },
                Err(e) => Err(e.context("DEVLINK_ATTR_DPIPE_ENTRY")),
            }
        }
    } else if kind == DEVLINK_ATTR_DPIPE_ENTRY_INDEX {
        match parse_u64(payload) {
            Ok(v) => Ok(GenlDevlinkAttrs::DpipeEntryIndex(v)),
            Err(e) => Err(e.context("DEVLINK_ATTR_DPIPE_ENTRY_INDEX")),
        }
    } else if kind == DEVLINK_ATTR_DPIPE_ENTRY_MATCH_VALUES {
        if depth == 0 {
            Err(NlError::new(ErrorKind::NestingTooDeep).context("DEVLINK_ATTR_DPIPE_ENTRY_MATCH_VALUES"))
        } else {
            match parse_devlink_stream(payload, depth - 1) {
                Ok(vs) => {
                    proof {
                        lemma_devlink_views_deep(vs@, 0);
                        assert(spec_devlink_views(vs@, 0) =~= vs.deep_view());
                    }
                    Ok(GenlDevlinkAttrs::DpipeEntryMatchValues(vs))
                },
                Err(e) => Err(e.context("DEVLINK_ATTR_DPIPE_ENTRY_MATCH_VALUES")),
            }
        }
    } else if kind == DEVLINK_ATTR_DPIPE_ENTRY_ACTION_VALUES {
        if depth == 0 {
            Err(NlError::new(ErrorKind::NestingTooDeep).context("DEVLINK_ATTR_DPIPE_ENTRY_ACTION_VALUES"))
        } else {
            match parse_devlink_stream(payload, depth - 1) {
                Ok(vs) => {
                    proof {
                        lemma_devlink_views_deep(vs@, 0);
                        assert(spec_devlink_views(vs@, 0) =~= vs.deep_view());
                    }
                    Ok(GenlDevlinkAttrs::DpipeEntryActionValues(vs))
                },
                Err(e) => Err(e.context("DEVLINK_ATTR_DPIPE_ENTRY_ACTION_VALUES")),
            }
        }
    } else if kind == DEVLINK_ATTR_DPIPE_ENTRY_COUNTER {
        match parse_u64(payload) {
            Ok(v) => Ok(GenlDevlinkAttrs::DpipeEntryCounter(v)),
            Err(e) => Err(e.context("DEVLINK_ATTR_DPIPE_ENTRY_COUNTER")),
        }
    } else if kind == DEVLINK_ATTR_DPIPE_MATCH {
        if depth == 0 {
            Err(NlError::new(ErrorKind::NestingTooDeep).context("DEVLINK_ATTR_DPIPE_MATCH"))
        } else {
            match parse_devlink_stream(payload, depth - 1) {
                Ok(vs) => {
                    proof {
                        lemma_devlink_views_deep(vs@, 0);
                        assert(spec_devlink_views(vs@, 0) =~= vs.deep_view());
                    }
                    Ok(GenlDevlinkAttrs::DpipeMatch(vs))
                },
                Err(e) => Err(e.context("DEVLINK_ATTR_DPIPE_MATCH")),
            }
        }
    } else if kind == DEVLINK_ATTR_DPIPE_MATCH_VALUE {
        if depth == 0 {
            Err(NlError::new(ErrorKind::NestingTooDeep).context("DEVLINK_ATTR_DPIPE_MATCH_VALUE"))
        } else {
            match parse_devlink_stream(payload, depth - 1) {
                Ok(vs) => {
                    proof {
                        lemma_devlink_views_deep(vs@, 0);
                        assert(spec_devlink_views(vs@, 0) =~= vs.deep_view());
                    }
                    Ok(GenlDevlinkAttrs::DpipeMatchValue(vs))
                },
                Err(e) => Err(e.context("DEVLINK_ATTR_DPIPE_MATCH_VALUE")),
            }
        }
    } else if kind == DEVLINK_ATTR_DPIPE_MATCH_TYPE {
        match parse_u32(payload) {
            Ok(v) => Ok(GenlDevlinkAttrs::DpipeMatchType(v)),
            Err(e) => Err(e.context("DEVLINK_ATTR_DPIPE_MATCH_TYPE")),
        }
    } else if kind == DEVLINK_ATTR_DPIPE_ACTION {
        if depth == 0 {
            Err(NlError::new(ErrorKind::NestingTooDeep).context("DEVLINK_ATTR_DPIPE_ACTION"))
        } else {
            match parse_devlink_stream(payload, depth - 1) {
                Ok(vs) => {
                    proof {
                        lemma_devlink_views_deep(vs@, 0);
                        assert(spec_devlink_views(vs@, 0) =~= vs.deep_view());
                    }
                    Ok(GenlDevlinkAttrs::DpipeAction(vs))
                },
                Err(e) => Err(e.context("DEVLINK_ATTR_DPIPE_ACTION")),
            }
        }
    } else if kind == DEVLINK_ATTR_DPIPE_ACTION_VALUE {
        if depth == 0 {
            Err(NlError::new(ErrorKind::NestingTooDeep).context("DEVLINK_ATTR_DPIPE_ACTION_VALUE"))
        } else {
            match parse_devlink_stream(payload, depth - 1) {
                Ok(vs) => {
                    proof {
                        lemma_devlink_views_deep(vs@, 0);
                        assert(spec_devlink_views(vs@, 0) =~= vs.deep_view());
                    }
                    Ok(GenlDevlinkAttrs::DpipeActionValue(vs))
                },
                Err(e) => Err(e.context("DEVLINK_ATTR_DPIPE_ACTION_VALUE")),
            }
        }
    } else if kind == DEVLINK_ATTR_DPIPE_ACTION_TYPE {
        match parse_u32(payload) {
            Ok(v) => Ok(GenlDevlinkAttrs::DpipeActionType(v)),
            Err(e) => Err(e.context("DEVLINK_ATTR_DPIPE_ACTION_TYPE")),
        }
    } else if kind == DEVLINK_ATTR_DPIPE_VALUE {
        match parse_u32(payload) {
            Ok(v) => Ok(GenlDevlinkAttrs::DpipeValue(v)),
            Err(e) => Err(e.context("DEVLINK_ATTR_DPIPE_VALUE")),
        }
    } else if kind == DEVLINK_ATTR_DPIPE_VALUE_MASK {
        match parse_u32(payload) {
            Ok(v) => Ok(GenlDevlinkAttrs::DpipeValueMask(v)),
            Err(e) => Err(e.context("DEVLINK_ATTR_DPIPE_VALUE_MASK")),
        }
    } else if kind == DEVLINK_ATTR_DPIPE_VALUE_MAPPING {
        match parse_u32(payload) {
            Ok(v) => Ok(GenlDevlinkAttrs::DpipeValueMapping(v)),
            Err(e) => Err(e.context("DEVLINK_ATTR_DPIPE_VALUE_MAPPING")),
        }
    } else if kind == DEVLINK_ATTR_DPIPE_HEADERS {
        if depth == 0 {
            Err(NlError::new(ErrorKind::NestingTooDeep).context("DEVLINK_ATTR_DPIPE_HEADERS"))
        } else {
            match parse_devlink_stream(payload, depth - 1) {
                Ok(vs) => {
                    proof {
                        lemma_devlink_views_deep(vs@, 0);
                        assert(spec_devlink_views(vs@, 0) =~= vs.deep_view());
                    }
                    Ok(GenlDevlinkAttrs::DpipeHeaders(vs))
                },
                Err(e) => Err(e.context("DEVLINK_ATTR_DPIPE_HEADERS")),
            }
        }
    } else if kind == DEVLINK_ATTR_DPIPE_HEADER {
        if depth == 0 {
            Err(NlError::new(ErrorKind::NestingTooDeep).context("DEVLINK_ATTR_DPIPE_HEADER"))
        } else {
            match parse_devlink_stream(payload, depth - 1) {
                Ok(vs) => {
                    proof {
                        lemma_devlink_views_deep(vs@, 0);
                        assert(spec_devlink_views(vs@, 0) =~= vs.deep_view());
                    }
                    Ok(GenlDevlinkAttrs::DpipeHader(vs))
                },
                Err(e) => Err(e.context("DEVLINK_ATTR_DPIPE_HEADER")),
            }
        }
    } else if kind == DEVLINK_ATTR_DPIPE_HEADER_NAME {
        match parse_string(payload) {
            Ok(v) => Ok(GenlDevlinkAttrs::DpipeHeaderName(v)),
            Err(e) => Err(e.context("DEVLINK_ATTR_DPIPE_HEADER_NAME")),
        }
    } else if kind == DEVLINK_ATTR_DPIPE_HEADER_ID {
        match parse_u32(payload) {
            Ok(v) => Ok(GenlDevlinkAttrs::DpipeHeaderId(v)),
            Err(e) => Err(e.context("DEVLINK_ATTR_DPIPE_HEADER_ID")),
        }
    } else if kind == DEVLINK_ATTR_DPIPE_HEADER_FIELDS {
        if depth == 0 {
            Err(NlError::new(ErrorKind::NestingTooDeep).context("DEVLINK_ATTR_DPIPE_HEADER_FIELDS"))
        } else {
            match parse_devlink_stream(payload, depth - 1) {
                Ok(vs) => {
                    proof {
                        lemma_devlink_views_deep(vs@, 0);
                        assert(spec_devlink_views(vs@, 0) =~= vs.deep_view());
                    }
                    Ok(GenlDevlinkAttrs::DpipeHeaderFields(vs))
                },
                Err(e) => Err(e.context("DEVLINK_ATTR_DPIPE_HEADER_FIELDS")),
            }
        }
    } else if kind == DEVLINK_ATTR_DPIPE_HEADER_GLOBAL {
        match parse_u8(payload) {
            Ok(v) => Ok(GenlDevlinkAttrs::DpipeHeaderGlobal(v)),
            Err(e) => Err(e.context("DEVLINK_ATTR_DPIPE_HEADER_GLOBAL")),
        }
    } else if kind == DEVLINK_ATTR_DPIPE_HEADER_INDEX {
        match parse_u32(payload) {
            Ok(v) => Ok(GenlDevlinkAttrs::DpipeHeaderIndex(v)),
            Err(e) => Err(e.context("DEVLINK_ATTR_DPIPE_HEADER_INDEX")),
        }
    } else if kind == DEVLINK_ATTR_DPIPE_FIELD {
        if depth == 0 {
            Err(NlError::new(ErrorKind::NestingTooDeep).context("DEVLINK_ATTR_DPIPE_FIELD"))
        } else {
            match parse_devlink_stream(payload, depth - 1) {
                Ok(vs) => {
                    proof {
                        lemma_devlink_views_deep(vs@, 0);
                        assert(spec_devlink_views(vs@, 0) =~= vs.deep_view());
                    }
                    Ok(GenlDevlinkAttrs::DpipeField(vs))
                },
                Err(e) => Err(e.context("DEVLINK_ATTR_DPIPE_FIELD")),
            }
        }
    } else if kind == DEVLINK_ATTR_DPIPE_FIELD_NAME {
        match parse_string(payload) {
            Ok(v) => Ok(GenlDevlinkAttrs::DpipeFieldName(v)),
            Err(e) => Err(e.context("DEVLINK_ATTR_DPIPE_FIELD_NAME")),
        }
    } else if kind == DEVLINK_ATTR_DPIPE_FIELD_ID {
        match parse_u32(payload) {
            Ok(v) => Ok(GenlDevlinkAttrs::DpipeFieldId(v)),
            Err(e) => Err(e.context("DEVLINK_ATTR_DPIPE_FIELD_ID")),
        }
    } else if kind == DEVLINK_ATTR_DPIPE_FIELD_BITWIDTH {
        match parse_u32(payload) {
            Ok(v) => Ok(GenlDevlinkAttrs::DpipeFieldBitwidth(v)),
            Err(e) => Err(e.context("DEVLINK_ATTR_DPIPE_FIELD_BITWIDTH")),
        }
    } else if kind == DEVLINK_ATTR_DPIPE_FIELD_MAPPING_TYPE {
        match parse_u32(payload) {
            Ok(v) => Ok(GenlDevlinkAttrs::DpipeFieldMappingType(v)),
            Err(e) => Err(e.context("DEVLINK_ATTR_DPIPE_FIELD_MAPPING_TYPE")),
        }
    } else if kind == DEVLINK_ATTR_ESWITCH_ENCAP_MODE {
        match parse_u8(payload) {
            Ok(v) => Ok(GenlDevlinkAttrs::EswitchEncapMode(v)),
            Err(e) => Err(e.context("DEVLINK_ATTR_ESWITCH_ENCAP_MODE")),
        }
    } else if kind == DEVLINK_ATTR_RESOURCE_LIST {
        if depth == 0 {
            Err(NlError::new(ErrorKind::NestingTooDeep).context("DEVLINK_ATTR_RESOURCE_LIST"))
        } else {
            match parse_devlink_stream(payload, depth - 1) {
                Ok(vs) => {
                    proof {
                        lemma_devlink_views_deep(vs@, 0);
                        assert(spec_devlink_views(vs@, 0) =~= vs.deep_view());
                    }
                    Ok(GenlDevlinkAttrs::ResourceList(vs))
                },
                Err(e) => Err(e.context("DEVLINK_ATTR_RESOURCE_LIST")),
            }
        }
    } else if kind == DEVLINK_ATTR_RESOURCE {
        if depth == 0 {
            Err(NlError::new(ErrorKind::NestingTooDeep).context("DEVLINK_ATTR_RESOURCE"))
        } else {
            match parse_devlink_stream(payload, depth - 1) {
                Ok(vs) => {
                    proof {
                        lemma_devlink_views_deep(vs@, 0);
                        assert(spec_devlink_views(vs@, 0) =~= vs.deep_view());
                    }
                    Ok(GenlDevlinkAttrs::Resource(vs))
                },
                Err(e) => Err(e.context("DEVLINK_ATTR_RESOURCE")),
            }
        }
    } else if kind == DEVLINK_ATTR_RESOURCE_NAME {
        match parse_string(payload) {
            Ok(v) => Ok(GenlDevlinkAttrs::ResoureceName(v)),
            Err(e) => Err(e.context("DEVLINK_ATTR_RESOURCE_NAME")),
        }
    } else if kind == DEVLINK_ATTR_RESOURCE_ID {
        match parse_u64(payload) {
            Ok(v) => Ok(GenlDevlinkAttrs::ResourceId(v)),
            Err(e) => Err(e.context("DEVLINK_ATTR_RESOURCE_ID")),
        }
    } else if kind == DEVLINK_ATTR_RESOURCE_SIZE {
        match parse_u64(payload) {
            Ok(v) => Ok(GenlDevlinkAttrs::ResourceSize(v)),
            Err(e) => Err(e.context("DEVLINK_ATTR_RESOURCE_SIZE")),
        }
    } else if kind == DEVLINK_ATTR_RESOURCE_SIZE_NEW {
        match parse_u64(payload) {
            Ok(v) => Ok(GenlDevlinkAttrs::ResourceSizeNew(v)),
            Err(e) => Err(e.context("DEVLINK_ATTR_RESOURCE_SIZE_NEW")),
        }
    } else if kind == DEVLINK_ATTR_RESOURCE_SIZE_VALID {
        match parse_u8(payload) {
            Ok(v) => Ok(GenlDevlinkAttrs::ResourceSizeValid(v)),
            Err(e) => Err(e.context("DEVLINK_ATTR_RESOURCE_SIZE_VALID")),
        }
    } else if kind == DEVLINK_ATTR_RESOURCE_SIZE_MIN {
        match parse_u64(payload) {
            Ok(v) => Ok(GenlDevlinkAttrs::ResourceSizeMin(v)),
            Err(e) => Err(e.context("DEVLINK_ATTR_RESOURCE_SIZE_MIN")),
        }
    } else if kind == DEVLINK_ATTR_RESOURCE_SIZE_MAX {
        match parse_u64(payload) {
            Ok(v) => Ok(GenlDevlinkAttrs::ResourceSizeMax(v)),
            Err(e) => Err(e.context("DEVLINK_ATTR_RESOURCE_SIZE_MAX")),
        }
    } else if kind == DEVLINK_ATTR_RESOURCE_SIZE_GRAN {
        match parse_u64(payload) {
            Ok(v) => Ok(GenlDevlinkAttrs::ResourceSizeGran(v)),
            Err(e) => Err(e.context("DEVLINK_ATTR_RESOURCE_SIZE_GRAN")),
        }
    } else if kind == DEVLINK_ATTR_RESOURCE_UNIT {
        match parse_u8(payload) {
            Ok(v) => Ok(GenlDevlinkAttrs::ResourceUnit(v)),
            Err(e) => Err(e.context("DEVLINK_ATTR_RESOURCE_UNIT")),
        }
    } else if kind == DEVLINK_ATTR_RESOURCE_OCC {
        match parse_u64(payload) {
            Ok(v) => Ok(GenlDevlinkAttrs::ResourceOcc(v)),
            Err(e) => Err(e.context("DEVLINK_ATTR_RESOURCE_OCC")),
        }
    } else if kind == DEVLINK_ATTR_DPIPE_TABLE_RESOURCE_ID {
        match parse_u64(payload) {
            Ok(v) => Ok(GenlDevlinkAttrs::DpipeTableResourceId(v)),
            Err(e) => Err(e.context("DEVLINK_ATTR_DPIPE_TABLE_RESOURCE_ID")),
        }
    } else if kind == DEVLINK_ATTR_DPIPE_TABLE_RESOURCE_UNITS {
        match parse_u64(payload) {
            Ok(v) => Ok(GenlDevlinkAttrs::DpipeTableResourceUnit(v)),
            Err(e) => Err(e.context("DEVLINK_ATTR_DPIPE_TABLE_RESOURCE_UNITS")),
        }
    } else if kind == DEVLINK_ATTR_PORT_FLAVOUR {
        match parse_u16(payload) {
            Ok(v) => Ok(GenlDevlinkAttrs::PortFlavour(v)),
            Err(e) => Err(e.context("DEVLINK_ATTR_PORT_FLAVOUR")),
        }
    } else if kind == DEVLINK_ATTR_PORT_NUMBER {
        match parse_u32(payload) {
            Ok(v) => Ok(GenlDevlinkAttrs::PortNumber(v)),
            Err(e) => Err(e.context("DEVLINK_ATTR_PORT_NUMBER")),
        }
    } else if kind == DEVLINK_ATTR_PARAM {
        if depth == 0 {
            Err(NlError::new(ErrorKind::NestingTooDeep).context("DEVLINK_ATTR_PARAM"))
        } else {
            match parse_devlink_stream(payload, depth - 1) {
                Ok(vs) => {
                    proof {
                        lemma_devlink_views_deep(vs@, 0);
                        assert(spec_devlink_views(vs@, 0) =~= vs.deep_view());
                    }
                    Ok(GenlDevlinkAttrs::Param(vs))
                },
                Err(e) => Err(e.context("DEVLINK_ATTR_PARAM")),
            }
        }
    } else if kind == DEVLINK_ATTR_PARAM_NAME {
        match parse_string(payload) {
            Ok(v) => Ok(GenlDevlinkAttrs::ParamName(v)),
            Err(e) => Err(e.context("DEVLINK_ATTR_PARAM_NAME")),
        }
    } else if kind == DEVLINK_ATTR_PARAM_GENERIC {
        match parse_u8(payload) {
            Ok(v) => Ok(GenlDevlinkAttrs::ParamGeneric(v != 0)),
            Err(e) => Err(e.context("DEVLINK_ATTR_PARAM_GENERIC")),
        }
    } else if kind == DEVLINK_ATTR_PARAM_TYPE {
        match parse_u8(payload) {
            Ok(v) => Ok(GenlDevlinkAttrs::ParamType(v)),
            Err(e) => Err(e.context("DEVLINK_ATTR_PARAM_TYPE")),
        }
    } else if kind == DEVLINK_ATTR_PARAM_VALUES_LIST {
        if depth == 0 {
            Err(NlError::new(ErrorKind::NestingTooDeep).context("DEVLINK_ATTR_PARAM_VALUES_LIST"))
        } else {
            match parse_devlink_stream(payload, depth - 1) {
                Ok(vs) => {
                    proof {
                        lemma_devlink_views_deep(vs@, 0);
                        assert(spec_devlink_views(vs@, 0) =~= vs.deep_view());
                    }
                    Ok(GenlDevlinkAttrs::ParamValueList(vs))
                },
                Err(e) => Err(e.context("DEVLINK_ATTR_PARAM_VALUES_LIST")),
            }
        }
    } else if kind == DEVLINK_ATTR_PARAM_VALUE {
        match parse_u64(payload) {
            Ok(v) => Ok(GenlDevlinkAttrs::ParamValue(v)),
            Err(e) => Err(e.context("DEVLINK_ATTR_PARAM_VALUE")),
        }
    } else if kind == DEVLINK_ATTR_PARAM_VALUE_DATA {
        if depth == 0 {
            Err(NlError::new(ErrorKind::NestingTooDeep).context("DEVLINK_ATTR_PARAM_VALUE_DATA"))
        } else {
            match parse_devlink_stream(payload, depth - 1) {
                Ok(vs) => {
                    proof {
                        lemma_devlink_views_deep(vs@, 0);
                        assert(spec_devlink_views(vs@, 0) =~= vs.deep_view());
                    }
                    Ok(GenlDevlinkAttrs::ParamValueData(vs))
                },
                Err(e) => Err(e.context("DEVLINK_ATTR_PARAM_VALUE_DATA")),
            }
        }
    } else if kind == DEVLINK_ATTR_PARAM_VALUE_CMODE {
        match parse_u8(payload) {
            Ok(v) => Ok(GenlDevlinkAttrs::ParamValueCmode(v)),
            Err(e) => Err(e.context("DEVLINK_ATTR_PARAM_VALUE_CMODE")),
        }
    } else if kind == DEVLINK_ATTR_REGION_NAME {
        match parse_string(payload) {
            Ok(v) => Ok(GenlDevlinkAttrs::RegionName(v)),
            Err(e) => Err(e.context("DEVLINK_ATTR_REGION_NAME")),
        }
    } else if kind == DEVLINK_ATTR_REGION_SIZE {
        match parse_u64(payload) {
            Ok(v) => Ok(GenlDevlinkAttrs::RegionSize(v)),
            Err(e) => Err(e.context("DEVLINK_ATTR_REGION_SIZE")),
        }
    } else if kind == DEVLINK_ATTR_REGION_SNAPSHOTS {
        if depth == 0 {
            Err(NlError::new(ErrorKind::NestingTooDeep).context("DEVLINK_ATTR_REGION_SNAPSHOTS"))
        } else {
            match parse_devlink_stream(payload, depth - 1) {
                Ok(vs) => {
                    proof {
                        lemma_devlink_views_deep(vs@, 0);
                        assert(spec_devlink_views(vs@, 0) =~= vs.deep_view());
                    }
                    Ok(GenlDevlinkAttrs::RegionSnapshots(vs))
                },
                Err(e) => Err(e.context("DEVLINK_ATTR_REGION_SNAPSHOTS")),
            }
        }
    } else if kind == DEVLINK_ATTR_REGION_SNAPSHOT {
        if depth == 0 {
            Err(NlError::new(ErrorKind::NestingTooDeep).context("DEVLINK_ATTR_REGION_SNAPSHOT"))
        } else {
            match parse_devlink_stream(payload, depth - 1) {
                Ok(vs) => {
                    proof {
                        lemma_devlink_views_deep(vs@, 0);
                        assert(spec_devlink_views(vs@, 0) =~= vs.deep_view());
                    }
                    Ok(GenlDevlinkAttrs::RegionSnapshot(vs))
                },
                Err(e) => Err(e.context("DEVLINK_ATTR_REGION_SNAPSHOT")),
            }
        }
    } else if kind == DEVLINK_ATTR_REGION_SNAPSHOT_ID {
        match parse_u32(payload) {
            Ok(v) => Ok(GenlDevlinkAttrs::RegionSnapshotId(v)),
            Err(e) => Err(e.context("DEVLINK_ATTR_REGION_SNAPSHOT_ID")),
        }
    } else if kind == DEVLINK_ATTR_REGION_CHUNKS {
        if depth == 0 {
            Err(NlError::new(ErrorKind::NestingTooDeep).context("DEVLINK_ATTR_REGION_CHUNKS"))
        } else {
            match parse_devlink_stream(payload, depth - 1) {
                Ok(vs) => {
                    proof {
                        lemma_devlink_views_deep(vs@, 0);
                        assert(spec_devlink_views(vs@, 0) =~= vs.deep_view());
                    }
                    Ok(GenlDevlinkAttrs::RegionChunks(vs))
                },
                Err(e) => Err(e.context("DEVLINK_ATTR_REGION_CHUNKS")),
            }
        }
    } else if kind == DEVLINK_ATTR_REGION_CHUNK {
        if depth == 0 {
            Err(NlError::new(ErrorKind::NestingTooDeep).context("DEVLINK_ATTR_REGION_CHUNK"))
        } else {
            match parse_devlink_stream(payload, depth - 1) {
                Ok(vs) => {
                    proof {
                        lemma_devlink_views_deep(vs@, 0);
                        assert(spec_devlink_views(vs@, 0) =~= vs.deep_view());
                    }
                    Ok(GenlDevlinkAttrs::RegionChunk(vs))
                },
                Err(e) => Err(e.context("DEVLINK_ATTR_REGION_CHUNK")),
            }
        }
    } else if kind == DEVLINK_ATTR_REGION_CHUNK_ADDR {
        match parse_u64(payload) {
            Ok(v) => Ok(GenlDevlinkAttrs::RegionChunkOffset(v)),
            Err(e) => Err(e.context("DEVLINK_ATTR_REGION_CHUNK_ADDR")),
        }
    } else if kind == DEVLINK_ATTR_INFO_DRIVER_NAME {
        match parse_string(payload) {
            Ok(v) => Ok(GenlDevlinkAttrs::InfoDriverName(v)),
            Err(e) => Err(e.context("DEVLINK_ATTR_INFO_DRIVER_NAME")),
        }
    } else if kind == DEVLINK_ATTR_INFO_SERIAL_NUMBER {
        match parse_string(payload) {
            Ok(v) => Ok(GenlDevlinkAttrs::InfoSerialNo(v)),
            Err(e) => Err(e.context("DEVLINK_ATTR_INFO_SERIAL_NUMBER")),
        }
    } else if kind == DEVLINK_ATTR_INFO_VERSION_FIXED {
        if depth == 0 {
            Err(NlError::new(ErrorKind::NestingTooDeep).context("DEVLINK_ATTR_INFO_VERSION_FIXED"))
        } else {
            match parse_devlink_stream(payload, depth - 1) {
                Ok(vs) => {
                    proof {
                        lemma_devlink_views_deep(vs@, 0);
                        assert(spec_devlink_views(vs@, 0) =~= vs.deep_view());
                    }
                    Ok(GenlDevlinkAttrs::InfoVersionFixed(vs))
                },
                Err(e) => Err(e.context("DEVLINK_ATTR_INFO_VERSION_FIXED")),
            }
        }
    } else if kind == DEVLINK_ATTR_INFO_VERSION_RUNNING {
        if depth == 0 {
            Err(NlError::new(ErrorKind::NestingTooDeep).context("DEVLINK_ATTR_INFO_VERSION_RUNNING"))
        } else {
            match parse_devlink_stream(payload, depth - 1) {
                Ok(vs) => {
                    proof {
                        lemma_devlink_views_deep(vs@, 0);
                        assert(spec_devlink_views(vs@, 0) =~= vs.deep_view());
                    }
                    Ok(GenlDevlinkAttrs::InfoVersionRunning(vs))
                },
                Err(e) => Err(e.context("DEVLINK_ATTR_INFO_VERSION_RUNNING")),
            }
        }
    } else if kind == DEVLINK_ATTR_INFO_VERSION_STORED {
        if depth == 0 {
            Err(NlError::new(ErrorKind::NestingTooDeep).context("DEVLINK_ATTR_INFO_VERSION_STORED"))
        } else {
            match parse_devlink_stream(payload, depth - 1) {
                Ok(vs) => {
                    proof {
                        lemma_devlink_views_deep(vs@, 0);
                        assert(spec_devlink_views(vs@, 0) =~= vs.deep_view());
                    }
                    Ok(GenlDevlinkAttrs::InfoVersionStored(vs))
                },
                Err(e) => Err(e.context("DEVLINK_ATTR_INFO_VERSION_STORED")),
            }
        }
    } else if kind == DEVLINK_ATTR_INFO_VERSION_NAME {
        match parse_string(payload) {
            Ok(v) => Ok(GenlDevlinkAttrs::InfoVersionName(v)),
            Err(e) => Err(e.context("DEVLINK_ATTR_INFO_VERSION_NAME")),
        }
    } else if kind == DEVLINK_ATTR_INFO_VERSION_VALUE {
        match parse_string(payload) {
            Ok(v) => Ok(GenlDevlinkAttrs::InfoVersionValue(v)),
            Err(e) => Err(e.context("DEVLINK_ATTR_INFO_VERSION_VALUE")),
        }
    } else if kind == DEVLINK_ATTR_SB_POOL_CELL_SIZE {
        match parse_u32(payload) {
            Ok(v) => Ok(GenlDevlinkAttrs::SbPoolCellSize(v)),
            Err(e) => Err(e.context("DEVLINK_ATTR_SB_POOL_CELL_SIZE")),
        }
    } else if kind == DEVLINK_ATTR_FMSG {
        if depth == 0 {
            Err(NlError::new(ErrorKind::NestingTooDeep).context("DEVLINK_ATTR_FMSG"))
        } else {
            match parse_devlink_stream(payload, depth - 1) {
                Ok(vs) => {
                    proof {
                        lemma_devlink_views_deep(vs@, 0);
                        assert(spec_devlink_views(vs@, 0) =~= vs.deep_view());
                    }
                    Ok(GenlDevlinkAttrs::Fmsg(vs))
                },
                Err(e) => Err(e.context("DEVLINK_ATTR_FMSG")),
            }
        }
    } else if kind == DEVLINK_ATTR_FMSG_OBJ_NEST_START {
        match parse_u8(payload) {
            Ok(v) => Ok(GenlDevlinkAttrs::FmsgObjNestStart(v != 0)),
            Err(e) => Err(e.context("DEVLINK_ATTR_FMSG_OBJ_NEST_START")),
        }
    } else if kind == DEVLINK_ATTR_FMSG_PAIR_NEST_START {
        match parse_u8(payload) {
            Ok(v) => Ok(GenlDevlinkAttrs::FmsgPairNestStart(v != 0)),
            Err(e) => Err(e.context("DEVLINK_ATTR_FMSG_PAIR_NEST_START")),
        }
    } else if kind == DEVLINK_ATTR_FMSG_ARR_NEST_START {
        match parse_u8(payload) {
            Ok(v) => Ok(GenlDevlinkAttrs::FmsgArrNestStart(v != 0)),
            Err(e) => Err(e.context("DEVLINK_ATTR_FMSG_ARR_NEST_START")),
        }
    } else if kind == DEVLINK_ATTR_FMSG_NEST_END {
        match parse_u8(payload) {
            Ok(v) => Ok(GenlDevlinkAttrs::FmsgNestEnd(v != 0)),
            Err(e) => Err(e.context("DEVLINK_ATTR_FMSG_NEST_END")),
        }
    } else if kind == DEVLINK_ATTR_FMSG_OBJ_NAME {
        match parse_string(payload) {
            Ok(v) => Ok(GenlDevlinkAttrs::FmsgObjName(v)),
            Err(e) => Err(e.context("DEVLINK_ATTR_FMSG_OBJ_NAME")),
        }
    } else if kind == DEVLINK_ATTR_FMSG_OBJ_VALUE_TYPE {
        match parse_u8(payload) {
            Ok(v) => Ok(GenlDevlinkAttrs::FmsgObjValueType(v)),
            Err(e) => Err(e.context("DEVLINK_ATTR_FMSG_OBJ_VALUE_TYPE")),
        }
    } else if kind == DEVLINK_ATTR_FMSG_OBJ_VALUE_DATA {
        if depth == 0 {
            Err(NlError::new(ErrorKind::NestingTooDeep).context("DEVLINK_ATTR_FMSG_OBJ_VALUE_DATA"))
        } else {
            match parse_devlink_stream(payload, depth - 1) {
                Ok(vs) => {
                    proof {
                        lemma_devlink_views_deep(vs@, 0);
                        assert(spec_devlink_views(vs@, 0) =~= vs.deep_view());
                    }
                    Ok(GenlDevlinkAttrs::FmsgObjValueData(vs))
                },
                Err(e) => Err(e.context("DEVLINK_ATTR_FMSG_OBJ_VALUE_DATA")),
            }
        }
    } else if kind == DEVLINK_ATTR_HEALTH_REPORTER {
        if depth == 0 {
            Err(NlError::new(ErrorKind::NestingTooDeep).context("DEVLINK_ATTR_HEALTH_REPORTER"))
        } else {
            match parse_devlink_stream(payload, depth - 1) {
                Ok(vs) => {
                    proof {
                        lemma_devlink_views_deep(vs@, 0);
                        assert(spec_devlink_views(vs@, 0) =~= vs.deep_view());
                    }
                    Ok(GenlDevlinkAttrs::HealthReporter(vs))
                },
                Err(e) => Err(e.context("DEVLINK_ATTR_HEALTH_REPORTER")),
            }
        }
    } else if kind == DEVLINK_ATTR_HEALTH_REPORTER_NAME {
        match parse_string(payload) {
            Ok(v) => Ok(GenlDevlinkAttrs::HealthReporterName(v)),
            Err(e) => Err(e.context("DEVLINK_ATTR_HEALTH_REPORTER_NAME")),
        }
    } else if kind == DEVLINK_ATTR_HEALTH_REPORTER_STATE {
        match parse_u8(payload) {
            Ok(v) => Ok(GenlDevlinkAttrs::HealthReporterState(v)),
            Err(e) => Err(e.context("DEVLINK_ATTR_HEALTH_REPORTER_STATE")),
        }
    } else if kind == DEVLINK_ATTR_HEALTH_REPORTER_ERR_COUNT {
        match parse_u64(payload) {
            Ok(v) => Ok(GenlDevlinkAttrs::HealthReporterErrCount(v)),
            Err(e) => Err(e.context("DEVLINK_ATTR_HEALTH_REPORTER_ERR_COUNT")),
        }
    } else if kind == DEVLINK_ATTR_HEALTH_REPORTER_RECOVER_COUNT {
        match parse_u64(payload) {
            Ok(v) => Ok(GenlDevlinkAttrs::HealthReporterRecoverCount(v)),
            Err(e) => Err(e.context("DEVLINK_ATTR_HEALTH_REPORTER_RECOVER_COUNT")),
        }
    } else if kind == DEVLINK_ATTR_HEALTH_REPORTER_DUMP_TS {
        match parse_u64(payload) {
            Ok(v) => Ok(GenlDevlinkAttrs::HealthReporterDumpTs(v)),
            Err(e) => Err(e.context("DEVLINK_ATTR_HEALTH_REPORTER_DUMP_TS")),
        }
    } else if kind == DEVLINK_ATTR_HEALTH_REPORTER_GRACEFUL_PERIOD {
        match parse_u64(payload) {
            Ok(v) => Ok(GenlDevlinkAttrs::HealthReporterGracefulPeriod(v)),
            Err(e) => Err(e.context("DEVLINK_ATTR_HEALTH_REPORTER_GRACEFUL_PERIOD")),
        }
    } else if kind == DEVLINK_ATTR_HEALTH_REPORTER_AUTO_RECOVER {
        match parse_u8(payload) {
            Ok(v) => Ok(GenlDevlinkAttrs::HealthReporterAucoRecover(v)),
            Err(e) => Err(e.context("DEVLINK_ATTR_HEALTH_REPORTER_AUTO_RECOVER")),
        }
    } else if kind == DEVLINK_ATTR_FLASH_UPDATE_FILE_NAME {
        match parse_string(payload) {
            Ok(v) => Ok(GenlDevlinkAttrs::FlashUpdateFileName(v)),
            Err(e) => Err(e.context("DEVLINK_ATTR_FLASH_UPDATE_FILE_NAME")),
        }
    } else if kind == DEVLINK_ATTR_FLASH_UPDATE_COMPONENT {
        match parse_string(payload) {
            Ok(v) => Ok(GenlDevlinkAttrs::FlashUpdateComponent(v)),
            Err(e) => Err(e.context("DEVLINK_ATTR_FLASH_UPDATE_COMPONENT")),
        }
    } else if kind == DEVLINK_ATTR_FLASH_UPDATE_STATUS_MSG {
        match parse_string(payload) {
            Ok(v) => Ok(GenlDevlinkAttrs::FlashUpdateStatusMsg(v)),
            Err(e) => Err(e.context("DEVLINK_ATTR_FLASH_UPDATE_STATUS_MSG")),
        }
    } else if kind == DEVLINK_ATTR_FLASH_UPDATE_STATUS_DONE {
        match parse_u64(payload) {
            Ok(v) => Ok(GenlDevlinkAttrs::FlashUpdateStatusDone(v)),
            Err(e) => Err(e.context("DEVLINK_ATTR_FLASH_UPDATE_STATUS_DONE")),
        }
    } else if kind == DEVLINK_ATTR_FLASH_UPDATE_STATUS_TOTAL {
        match parse_u64(payload) {
            Ok(v) => Ok(GenlDevlinkAttrs::FlashUpdateStatusTotal(v)),
            Err(e) => Err(e.context("DEVLINK_ATTR_FLASH_UPDATE_STATUS_TOTAL")),
        }
    } else if kind == DEVLINK_ATTR_PORT_PCI_PF_NUMBER {
        match parse_u16(payload) {
            Ok(v) => Ok(GenlDevlinkAttrs::PortPciPfNumber(v)),
            Err(e) => Err(e.context("DEVLINK_ATTR_PORT_PCI_PF_NUMBER")),
        }
    } else if kind == DEVLINK_ATTR_PORT_PCI_VF_NUMBER {
        match parse_u16(payload) {
            Ok(v) => Ok(GenlDevlinkAttrs::PortPciVfNumber(v)),
            Err(e) => Err(e.context("DEVLINK_ATTR_PORT_PCI_VF_NUMBER")),
        }
    } else if kind == DEVLINK_ATTR_STATS {
        if depth == 0 {
            Err(NlError::new(ErrorKind::NestingTooDeep).context("DEVLINK_ATTR_STATS"))
        } else {
            match parse_devlink_stream(payload, depth - 1) {
                Ok(vs) => {
                    proof {
                        lemma_devlink_views_deep(vs@, 0);
                        assert(spec_devlink_views(vs@, 0) =~= vs.deep_view());
                    }
                    Ok(GenlDevlinkAttrs::Stats(vs))
                },
                Err(e) => Err(e.context("DEVLINK_ATTR_STATS")),
            }
        }
    } else if kind == DEVLINK_ATTR_TRAP_NAME {
        match parse_string(payload) {
            Ok(v) => Ok(GenlDevlinkAttrs::TrapName(v)),
            Err(e) => Err(e.context("DEVLINK_ATTR_TRAP_NAME")),
        }
    } else if kind == DEVLINK_ATTR_TRAP_ACTION {
        match parse_u8(payload) {
            Ok(v) => Ok(GenlDevlinkAttrs::TrapAction(v)),
            Err(e) => Err(e.context("DEVLINK_ATTR_TRAP_ACTION")),
        }
    } else if kind == DEVLINK_ATTR_TRAP_TYPE {
        match parse_u8(payload) {
            Ok(v) => Ok(GenlDevlinkAttrs::TrapType(v)),
            Err(e) => Err(e.context("DEVLINK_ATTR_TRAP_TYPE")),
        }
    } else if kind == DEVLINK_ATTR_TRAP_GENERIC {
        match parse_u8(payload) {
            Ok(v) => Ok(GenlDevlinkAttrs::TrapGeneric(v != 0)),
            Err(e) => Err(e.context("DEVLINK_ATTR_TRAP_GENERIC")),
        }
    } else if kind == DEVLINK_ATTR_TRAP_METADATA {
        if depth == 0 {
            Err(NlError::new(ErrorKind::NestingTooDeep).context("DEVLINK_ATTR_TRAP_METADATA"))
        } else {
            match parse_devlink_stream(payload, depth - 1) {
                Ok(vs) => {
                    proof {
                        lemma_devlink_views_deep(vs@, 0);
                        assert(spec_devlink_views(vs@, 0) =~= vs.deep_view());
                    }
                    Ok(GenlDevlinkAttrs::TrapMetadata(vs))
                },
                Err(e) => Err(e.context("DEVLINK_ATTR_TRAP_METADATA")),
            }
        }
    } else if kind == DEVLINK_ATTR_TRAP_GROUP_NAME {
        match parse_string(payload) {
            Ok(v) => Ok(GenlDevlinkAttrs::TrapGroupName(v)),
            Err(e) => Err(e.context("DEVLINK_ATTR_TRAP_GROUP_NAME")),
        }
    } else if kind == DEVLINK_ATTR_RELOAD_FAILED {
        match parse_u8(payload) {
            Ok(v) => Ok(GenlDevlinkAttrs::ReloadStatus(v)),
            Err(e) => Err(e.context("DEVLINK_ATTR_RELOAD_FAILED")),
        }
    } else if kind == DEVLINK_ATTR_HEALTH_REPORTER_DUMP_TS_NS {
        match parse_u64(payload) {
            Ok(v) => Ok(GenlDevlinkAttrs::HealthReporterDumpTsNs(v)),
            Err(e) => Err(e.context("DEVLINK_ATTR_HEALTH_REPORTER_DUMP_TS_NS")),
        }
    } else if kind == DEVLINK_ATTR_NETNS_FD {
        match parse_u32(payload) {
            Ok(v) => Ok(GenlDevlinkAttrs::NetnsFd(v)),
            Err(e) => Err(e.context("DEVLINK_ATTR_NETNS_FD")),
        }
    } else if kind == DEVLINK_ATTR_NETNS_PID {
        match parse_u32(payload) {
            Ok(v) => Ok(GenlDevlinkAttrs::NetnsPid(v)),
            Err(e) => Err(e.context("DEVLINK_ATTR_NETNS_PID")),
        }
    } else if kind == DEVLINK_ATTR_NETNS_ID {
        match parse_u32(payload) {
            Ok(v) => Ok(GenlDevlinkAttrs::NetnsId(v)),
            Err(e) => Err(e.context("DEVLINK_ATTR_NETNS_ID")),
        }
    } else if kind == DEVLINK_ATTR_HEALTH_REPORTER_AUTO_DUMP {
        match parse_u8(payload) {
            Ok(v) => Ok(GenlDevlinkAttrs::HealthReporterAutoDump(v)),
            Err(e) => Err(e.context("DEVLINK_ATTR_HEALTH_REPORTER_AUTO_DUMP")),
        }
    } else if kind == DEVLINK_ATTR_TRAP_POLICER_ID {
        match parse_u32(payload) {
            Ok(v) => Ok(GenlDevlinkAttrs::TrapPolicerId(v)),
            Err(e) => Err(e.context("DEVLINK_ATTR_TRAP_POLICER_ID")),
        }
    } else if kind == DEVLINK_ATTR_TRAP_POLICER_RATE {
        match parse_u64(payload) {
            Ok(v) => Ok(GenlDevlinkAttrs::TrapPolicerRate(v)),
            Err(e) => Err(e.context("DEVLINK_ATTR_TRAP_POLICER_RATE")),
        }
    } else if kind == DEVLINK_ATTR_TRAP_POLICER_BURST {
        match parse_u64(payload) {
            Ok(v) => Ok(GenlDevlinkAttrs::TrapPolicerBurst(v)),
            Err(e) => Err(e.context("DEVLINK_ATTR_TRAP_POLICER_BURST")),
        }
    } else if kind == DEVLINK_ATTR_PORT_FUNCTION {
        if depth == 0 {
            Err(NlError::new(ErrorKind::NestingTooDeep).context("DEVLINK_ATTR_PORT_FUNCTION"))
        } else {
            match parse_devlink_stream(payload, depth - 1) {
                Ok(vs) => {
                    proof {
                        lemma_devlink_views_deep(vs@, 0);
                        assert(spec_devlink_views(vs@, 0) =~= vs.deep_view());
                    }
                    Ok(GenlDevlinkAttrs::PortFunction(vs))
                },
                Err(e) => Err(e.context("DEVLINK_ATTR_PORT_FUNCTION")),
            }
        }
    } else if kind == DEVLINK_ATTR_INFO_BOARD_SERIAL_NUMBER {
        match parse_string(payload) {
            Ok(v) => Ok(GenlDevlinkAttrs::InfoBoardSerialNumber(v)),
            Err(e) => Err(e.context("DEVLINK_ATTR_INFO_BOARD_SERIAL_NUMBER")),
        }
    } else if kind == DEVLINK_ATTR_PORT_LANES {
        match parse_u32(payload) {
            Ok(v) => Ok(GenlDevlinkAttrs::PortLanes(v)),
            Err(e) => Err(e.context("DEVLINK_ATTR_PORT_LANES")),
        }
    } else if kind == DEVLINK_ATTR_PORT_SPLITTABLE {
        match parse_u8(payload) {
            Ok(v) => Ok(GenlDevlinkAttrs::PortSplittable(v)),
            Err(e) => Err(e.context("DEVLINK_ATTR_PORT_SPLITTABLE")),
        }
    } else if kind == DEVLINK_ATTR_PORT_EXTERNAL {
        match parse_u8(payload) {
            Ok(v) => Ok(GenlDevlinkAttrs::PortExternal(v)),
            Err(e) => Err(e.context("DEVLINK_ATTR_PORT_EXTERNAL")),
        }
    } else if kind == DEVLINK_ATTR_PORT_CONTROLLER_NUMBER {
        match parse_u32(payload) {
            Ok(v) => Ok(GenlDevlinkAttrs::PortControllerNo(v)),
            Err(e) => Err(e.context("DEVLINK_ATTR_PORT_CONTROLLER_NUMBER")),
        }
    } else if kind == DEVLINK_ATTR_FLASH_UPDATE_STATUS_TIMEOUT {
        match parse_u32(payload) {
            Ok(v) => Ok(GenlDevlinkAttrs::FlashUpdateStatusTimeout(v)),
            Err(e) => Err(e.context("DEVLINK_ATTR_FLASH_UPDATE_STATUS_TIMEOUT")),
        }
    } else if kind == DEVLINK_ATTR_FLASH_UPDATE_OVERWRITE_MASK {
        match parse_u32(payload) {
            Ok(v) => Ok(GenlDevlinkAttrs::FlashUpdateOverWriteMask(v)),
            Err(e) => Err(e.context("DEVLINK_ATTR_FLASH_UPDATE_OVERWRITE_MASK")),
        }
    } else if kind == DEVLINK_ATTR_RELOAD_ACTION {
        match parse_u8(payload) {
            Ok(v) => Ok(GenlDevlinkAttrs::ReloadAction(v)),
            Err(e) => Err(e.context("DEVLINK_ATTR_RELOAD_ACTION")),
        }
    } else if kind == DEVLINK_ATTR_RELOAD_ACTIONS_PERFORMED {
        match parse_u32(payload) {
            Ok(v) => Ok(GenlDevlinkAttrs::ReloadActionPerformed(v)),
            Err(e) => Err(e.context("DEVLINK_ATTR_RELOAD_ACTIONS_PERFORMED")),
        }
    } else if kind == DEVLINK_ATTR_RELOAD_LIMITS {
        match parse_u32(payload) {
            Ok(v) => Ok(GenlDevlinkAttrs::ReloadLimits(v)),
            Err(e) => Err(e.context("DEVLINK_ATTR_RELOAD_LIMITS")),
        }
    } else if kind == DEVLINK_ATTR_DEV_STATS {
        if depth == 0 {
            Err(NlError::new(ErrorKind::NestingTooDeep).context("DEVLINK_ATTR_DEV_STATS"))
        } else {
            match parse_devlink_stream(payload, depth - 1) {
                Ok(vs) => {
                    proof {
                        lemma_devlink_views_deep(vs@, 0);
                        assert(spec_devlink_views(vs@, 0) =~= vs.deep_view());
                    }
                    Ok(GenlDevlinkAttrs::DevStats(vs))
                },
                Err(e) => Err(e.context("DEVLINK_ATTR_DEV_STATS")),
            }
        }
    } else if kind == DEVLINK_ATTR_RELOAD_STATS {
        if depth == 0 {
            Err(NlError::new(ErrorKind::NestingTooDeep).context("DEVLINK_ATTR_RELOAD_STATS"))
        } else {
            match parse_devlink_stream(payload, depth - 1) {
                Ok(vs) => {
                    proof {
                        lemma_devlink_views_deep(vs@, 0);
                        assert(spec_devlink_views(vs@, 0) =~= vs.deep_view());
                    }
                    Ok(GenlDevlinkAttrs::ReloadStats(vs))
                },
                Err(e) => Err(e.context("DEVLINK_ATTR_RELOAD_STATS")),
            }
        }
    } else if kind == DEVLINK_ATTR_RELOAD_STATS_ENTRY {
        if depth == 0 {
            Err(NlError::new(ErrorKind::NestingTooDeep).context("DEVLINK_ATTR_RELOAD_STATS_ENTRY"))
        } else {
            match parse_devlink_stream(payload, depth - 1) {
                Ok(vs) => {
                    proof {
                        lemma_devlink_views_deep(vs@, 0);
                        assert(spec_devlink_views(vs@, 0) =~= vs.deep_view());
                    }
                    Ok(GenlDevlinkAttrs::ReloadStatsEntry(vs))
                },
                Err(e) => Err(e.context("DEVLINK_ATTR_RELOAD_STATS_ENTRY")),
            }
        }
    } else if kind == DEVLINK_ATTR_RELOAD_STATS_LIMIT {
        match parse_u8(payload) {
            Ok(v) => Ok(GenlDevlinkAttrs::ReloadStatsLimit(v)),
            Err(e) => Err(e.context("DEVLINK_ATTR_RELOAD_STATS_LIMIT")),
        }
    } else if kind == DEVLINK_ATTR_RELOAD_STATS_VALUE {
        match parse_u32(payload) {
            Ok(v) => Ok(GenlDevlinkAttrs::ReloadStatsValue(v)),
            Err(e) => Err(e.context("DEVLINK_ATTR_RELOAD_STATS_VALUE")),
        }
    } else if kind == DEVLINK_ATTR_REMOTE_RELOAD_SATS {
        if depth == 0 {
            Err(NlError::new(ErrorKind::NestingTooDeep).context("DEVLINK_ATTR_REMOTE_RELOAD_SATS"))
        } else {
            match parse_devlink_stream(payload, depth - 1) {
                Ok(vs) => {
                    proof {
                        lemma_devlink_views_deep(vs@, 0);
                        assert(spec_devlink_views(vs@, 0) =~= vs.deep_view());
                    }
                    Ok(GenlDevlinkAttrs::RemoteReloadStats(vs))
                },
                Err(e) => Err(e.context("DEVLINK_ATTR_REMOTE_RELOAD_SATS")),
            }
        }
    } else if kind == DEVLINK_ATTR_RELOAD_ACTION_INFO {
        if depth == 0 {
            Err(NlError::new(ErrorKind::NestingTooDeep).context("DEVLINK_ATTR_RELOAD_ACTION_INFO"))
        } else {
            match parse_devlink_stream(payload, depth - 1) {
                Ok(vs) => {
                    proof {
                        lemma_devlink_views_deep(vs@, 0);
                        assert(spec_devlink_views(vs@, 0) =~= vs.deep_view());
                    }
                    Ok(GenlDevlinkAttrs::ReloadActionInfo(vs))
                },
                Err(e) => Err(e.context("DEVLINK_ATTR_RELOAD_ACTION_INFO")),
            }
        }
    } else if kind == DEVLINK_ATTR_RELAOD_ACTION_STATS {
        if depth == 0 {
            Err(NlError::new(ErrorKind::NestingTooDeep).context("DEVLINK_ATTR_RELAOD_ACTION_STATS"))
        } else {
            match parse_devlink_stream(payload, depth - 1) {
                Ok(vs) => {
                    proof {
                        lemma_devlink_views_deep(vs@, 0);
                        assert(spec_devlink_views(vs@, 0) =~= vs.deep_view());
                    }
                    Ok(GenlDevlinkAttrs::ReloadActionStats(vs))
                },
                Err(e) => Err(e.context("DEVLINK_ATTR_RELAOD_ACTION_STATS")),
            }
        }
    } else if kind == DEVLINK_ATTR_PORT_PCI_SF_NUMBER {
        match parse_u32(payload) {
            Ok(v) => Ok(GenlDevlinkAttrs::PortPciSfNo(v)),
            Err(e) => Err(e.context("DEVLINK_ATTR_PORT_PCI_SF_NUMBER")),
        }
    } else if kind == DEVLINK_ATTR_RATE_TYPE {
        match parse_u16(payload) {
            Ok(v) => Ok(GenlDevlinkAttrs::RateType(v)),
            Err(e) => Err(e.context("DEVLINK_ATTR_RATE_TYPE")),
        }
    } else if kind == DEVLINK_ATTR_RATE_TX_SHARE {
        match parse_u64(payload) {
            Ok(v) => Ok(GenlDevlinkAttrs::RateTxShare(v)),
            Err(e) => Err(e.context("DEVLINK_ATTR_RATE_TX_SHARE")),
        }
    } else if kind == DEVLINK_ATTR_RATE_TX_MAX {
        match parse_u64(payload) {
            Ok(v) => Ok(GenlDevlinkAttrs::RateTxMax(v)),
            Err(e) => Err(e.context("DEVLINK_ATTR_RATE_TX_MAX")),
        }
    } else if kind == DEVLINK_ATTR_RATE_NODE_NAME {
        match parse_string(payload) {
            Ok(v) => Ok(GenlDevlinkAttrs::RateNodeName(v)),
            Err(e) => Err(e.context("DEVLINK_ATTR_RATE_NODE_NAME")),
        }
    } else if kind == DEVLINK_ATTR_RATE_PARENT_NODE_NAME {
        match parse_string(payload) {
            Ok(v) => Ok(GenlDevlinkAttrs::RateParentNodeName(v)),
            Err(e) => Err(e.context("DEVLINK_ATTR_RATE_PARENT_NODE_NAME")),
        }
    } else if kind == DEVLINK_ATTR_REGION_MAX_SNAPSHOTS {
        match parse_u32(payload) {
            Ok(v) => Ok(GenlDevlinkAttrs::RegionMaxSnapshots(v)),
            Err(e) => Err(e.context("DEVLINK_ATTR_REGION_MAX_SNAPSHOTS")),
        }
    } else if kind == DEVLINK_ATTR_PORT_SPLIT_SUBPORT_NUMBER {
        match parse_u32(payload) {
            Ok(v) => Ok(GenlDevlinkAttrs::PortSplitCount(v)),
            Err(e) => Err(e.context("DEVLINK_ATTR_PORT_SPLIT_SUBPORT_NUMBER")),
        }
    } else {
        Err(NlError::new(ErrorKind::UnknownAttributeType(kind)))
    }
}

/// Decodes a whole nesting level: splits records, decodes each payload.
pub fn parse_devlink_stream(p: &[u8], depth: u32) -> (r: Result<Vec<GenlDevlinkAttrs>, NlError>)
    ensures
        match r {
            Ok(v) => spec_parse_devlink_stream(p@, depth as nat) == Ok::<_, ErrorKind>(
                v.deep_view(),
            ),
            Err(e) => spec_parse_devlink_stream(p@, depth as nat) == Err::<Seq<DevlinkAttrV>, _>(
                e.kind,
            ),
        },
    decreases depth, p@.len(), 1int,
{
    let mut out: Vec<GenlDevlinkAttrs> = Vec::new();
    let mut off: usize = 0;
    proof {
        assert(out.deep_view() =~= Seq::<DevlinkAttrV>::empty());
        assert(p@.subrange(0, p@.len() as int) =~= p@);
        if spec_parse_devlink_stream(p@, depth as nat) is Ok {
            assert(out.deep_view() + spec_parse_devlink_stream(p@, depth as nat)->Ok_0
                =~= spec_parse_devlink_stream(p@, depth as nat)->Ok_0);
        }
    }
    while off < p.len()
        invariant
            off <= p@.len(),
            match spec_parse_devlink_stream(
                p@.subrange(off as int, p@.len() as int),
                depth as nat,
            ) {
                Ok(rest) => spec_parse_devlink_stream(p@, depth as nat) == Ok::<_, ErrorKind>(
                    out.deep_view() + rest,
                ),
                Err(e) => spec_parse_devlink_stream(p@, depth as nat) == Err::<
                    Seq<DevlinkAttrV>,
                    _,
                >(e),
            },
        decreases p@.len() - off,
    {
        let rem = vstd::slice::slice_subrange(p, off, p.len());
        let ghost remv = p@.subrange(off as int, p@.len() as int);
        let view = match NlaView::new_checked(rem) {
            Ok(v) => v,
            Err(e) => {
                return Err(e);
            },
        };
        let aligned = align4(view.length as usize);
        let step: usize = if aligned <= rem.len() {
            aligned
        } else {
            rem.len()
        };
        proof {
            lemma_align4(view.length as int);
            assert(step == nla_step_of(remv));
            assert(remv.subrange(nla_step_of(remv), remv.len() as int) =~= p@.subrange(
                off as int + step as int,
                p@.len() as int,
            ));
        }
        match parse_devlink_attr(view.kind(), view.value().as_slice(), depth) {
            Ok(a) => {
                let ghost pre = out.deep_view();
                let ghost av = a@;
                out.push(a);
                proof {
                    assert(out.deep_view() =~= pre + seq![av]);
                    let tail = p@.subrange(off as int + step as int, p@.len() as int);
                    if spec_parse_devlink_stream(tail, depth as nat) is Ok {
                        let rest = spec_parse_devlink_stream(tail, depth as nat)->Ok_0;
                        assert(pre + (seq![av] + rest) =~= (pre + seq![av]) + rest);
                    }
                }
                off = off + step;
            },
            Err(e) => {
                return Err(e);
            },
        }
    }
    proof {
        assert(p@.subrange(off as int, p@.len() as int) =~= Seq::<u8>::empty());
        assert(out.deep_view() + Seq::<DevlinkAttrV>::empty() =~= out.deep_view());
    }
    Ok(out)
}

impl GenlDevlinkAttrs {
    /// Decodes one attribute from a validated record, dispatching on the
    /// record's kind with its flag bits masked away, with the defensive
    /// nesting bound in force.
    pub fn parse(buf: &NlaView) -> (r: Result<GenlDevlinkAttrs, NlError>)
        ensures
            match r {
                Ok(a) => spec_parse_devlink_attr(
                    buf.kind_raw & NLA_TYPE_MASK,
                    buf.payload@,
                    DEVLINK_NEST_LIMIT as nat,
                ) == Ok::<_, ErrorKind>(a@),
                Err(e) => spec_parse_devlink_attr(
                    buf.kind_raw & NLA_TYPE_MASK,
                    buf.payload@,
                    DEVLINK_NEST_LIMIT as nat,
                ) == Err::<DevlinkAttrV, _>(e.kind),
            },
    {
        parse_devlink_attr(buf.kind(), buf.value().as_slice(), DEVLINK_NEST_LIMIT)
    }

    /// The nested children of an attribute whose payload is a list of
    /// further attributes of the schema, copied out; `None` for every other
    /// variant.  Mirrors the family's own notion of which attributes hold a
    /// tree, which is not everywhere the same as the wire nested bit.
    #[verifier::rlimit(100)]
    pub fn get_nested_value(&self) -> (r: Option<Vec<GenlDevlinkAttrs>>)
        ensures
            match r {
                Some(v) => spec_devlink_children(self@) matches Some(cs) && v.deep_view() == cs,
                None => spec_devlink_children(self@) is None,
            },
    {
        match self {
            GenlDevlinkAttrs::DpipeTables(v) => {
                let c = clone_devlink_vec(v);
                proof {
                    lemma_devlink_views_congruent(c@, v@, 0);
                    lemma_devlink_views_deep(c@, 0);
                    assert(c.deep_view() =~= spec_devlink_views(v@, 0));
                }
                Some(c)
            },
            GenlDevlinkAttrs::DpipeTable(v) => {
                let c = clone_devlink_vec(v);
                proof {
                    lemma_devlink_views_congruent(c@, v@, 0);
                    lemma_devlink_views_deep(c@, 0);
                    assert(c.deep_view() =~= spec_devlink_views(v@, 0));
                }
                Some(c)
            },
            GenlDevlinkAttrs::DpipeTableMatches(v) => {
                let c = clone_devlink_vec(v);
                proof {
                    lemma_devlink_views_congruent(c@, v@, 0);
                    lemma_devlink_views_deep(c@, 0);
                    assert(c.deep_view() =~= spec_devlink_views(v@, 0));
                }
                Some(c)
            },
            GenlDevlinkAttrs::DpipeTableActions(v) => {
                let c = clone_devlink_vec(v);
                proof {
                    lemma_devlink_views_congruent(c@, v@, 0);
                    lemma_devlink_views_deep(c@, 0);
                    assert(c.deep_view() =~= spec_devlink_views(v@, 0));
                }
                Some(c)
            },
            GenlDevlinkAttrs::DpipeEntries(v) => {
                let c = clone_devlink_vec(v);
                proof {
                    lemma_devlink_views_congruent(c@, v@, 0);
                    lemma_devlink_views_deep(c@, 0);
                    assert(c.deep_view() =~= spec_devlink_views(v@, 0));
                }
                Some(c)
            },
            GenlDevlinkAttrs::DpipeEntry(v) => {
                let c = clone_devlink_vec(v);
                proof {
                    lemma_devlink_views_congruent(c@, v@, 0);
                    lemma_devlink_views_deep(c@, 0);
                    assert(c.deep_view() =~= spec_devlink_views(v@, 0));
                }
                Some(c)
            },
            GenlDevlinkAttrs::DpipeEntryMatchValues(v) => {
                let c = clone_devlink_vec(v);
                proof {
                    lemma_devlink_views_congruent(c@, v@, 0);
                    lemma_devlink_views_deep(c@, 0);
                    assert(c.deep_view() =~= spec_devlink_views(v@, 0));
                }
                Some(c)
            },
            GenlDevlinkAttrs::DpipeEntryActionValues(v) => {
                let c = clone_devlink_vec(v);
                proof {
                    lemma_devlink_views_congruent(c@, v@, 0);
                    lemma_devlink_views_deep(c@, 0);
                    assert(c.deep_view() =~= spec_devlink_views(v@, 0));
                }
                Some(c)
            },
            GenlDevlinkAttrs::DpipeMatch(v) => {
                let c = clone_devlink_vec(v);
                proof {
                    lemma_devlink_views_congruent(c@, v@, 0);
                    lemma_devlink_views_deep(c@, 0);
                    assert(c.deep_view() =~= spec_devlink_views(v@, 0));
                }
                Some(c)
            },
            GenlDevlinkAttrs::DpipeMatchValue(v) => {
                let c = clone_devlink_vec(v);
                proof {
                    lemma_devlink_views_congruent(c@, v@, 0);
                    lemma_devlink_views_deep(c@, 0);
                    assert(c.deep_view() =~= spec_devlink_views(v@, 0));
                }
                Some(c)
            },
            GenlDevlinkAttrs::DpipeAction(v) => {
                let c = clone_devlink_vec(v);
                proof {
                    lemma_devlink_views_congruent(c@, v@, 0);
                    lemma_devlink_views_deep(c@, 0);
                    assert(c.deep_view() =~= spec_devlink_views(v@, 0));
                }
                Some(c)
            },
            GenlDevlinkAttrs::DpipeActionValue(v) => {
                let c = clone_devlink_vec(v);
                proof {
                    lemma_devlink_views_congruent(c@, v@, 0);
                    lemma_devlink_views_deep(c@, 0);
                    assert(c.deep_view() =~= spec_devlink_views(v@, 0));
                }
                Some(c)
            },
            GenlDevlinkAttrs::DpipeHeaders(v) => {
                let c = clone_devlink_vec(v);
                proof {
                    lemma_devlink_views_congruent(c@, v@, 0);
                    lemma_devlink_views_deep(c@, 0);
                    assert(c.deep_view() =~= spec_devlink_views(v@, 0));
                }
                Some(c)
            },
            GenlDevlinkAttrs::DpipeHader(v) => {
                let c = clone_devlink_vec(v);
                proof {
                    lemma_devlink_views_congruent(c@, v@, 0);
                    lemma_devlink_views_deep(c@, 0);
                    assert(c.deep_view() =~= spec_devlink_views(v@, 0));
                }
                Some(c)
            },
            GenlDevlinkAttrs::DpipeHeaderFields(v) => {
                let c = clone_devlink_vec(v);
                proof {
                    lemma_devlink_views_congruent(c@, v@, 0);
                    lemma_devlink_views_deep(c@, 0);
                    assert(c.deep_view() =~= spec_devlink_views(v@, 0));
                }
                Some(c)
            },
            GenlDevlinkAttrs::DpipeField(v) => {
                let c = clone_devlink_vec(v);
                proof {
                    lemma_devlink_views_congruent(c@, v@, 0);
                    lemma_devlink_views_deep(c@, 0);
                    assert(c.deep_view() =~= spec_devlink_views(v@, 0));
                }
                Some(c)
            },
            GenlDevlinkAttrs::ResourceList(v) => {
                let c = clone_devlink_vec(v);
                proof {
                    lemma_devlink_views_congruent(c@, v@, 0);
                    lemma_devlink_views_deep(c@, 0);
                    assert(c.deep_view() =~= spec_devlink_views(v@, 0));
                }
                Some(c)
            },
            GenlDevlinkAttrs::Resource(v) => {
                let c = clone_devlink_vec(v);
                proof {
                    lemma_devlink_views_congruent(c@, v@, 0);
                    lemma_devlink_views_deep(c@, 0);
                    assert(c.deep_view() =~= spec_devlink_views(v@, 0));
                }
                Some(c)
            },
            GenlDevlinkAttrs::Param(v) => {
                let c = clone_devlink_vec(v);
                proof {
                    lemma_devlink_views_congruent(c@, v@, 0);
                    lemma_devlink_views_deep(c@, 0);
                    assert(c.deep_view() =~= spec_devlink_views(v@, 0));
                }
                Some(c)
            },
            GenlDevlinkAttrs::ParamValueList(v) => {
                let c = clone_devlink_vec(v);
                proof {
                    lemma_devlink_views_congruent(c@, v@, 0);
                    lemma_devlink_views_deep(c@, 0);
                    assert(c.deep_view() =~= spec_devlink_views(v@, 0));
                }
                Some(c)
            },
            GenlDevlinkAttrs::ParamValueData(v) => {
                let c = clone_devlink_vec(v);
                proof {
                    lemma_devlink_views_congruent(c@, v@, 0);
                    lemma_devlink_views_deep(c@, 0);
                    assert(c.deep_view() =~= spec_devlink_views(v@, 0));
                }
                Some(c)
            },
            GenlDevlinkAttrs::RegionSnapshots(v) => {
                let c = clone_devlink_vec(v);
                proof {
                    lemma_devlink_views_congruent(c@, v@, 0);
                    lemma_devlink_views_deep(c@, 0);
                    assert(c.deep_view() =~= spec_devlink_views(v@, 0));
                }
                Some(c)
            },
            GenlDevlinkAttrs::RegionSnapshot(v) => {
                let c = clone_devlink_vec(v);
                proof {
                    lemma_devlink_views_congruent(c@, v@, 0);
                    lemma_devlink_views_deep(c@, 0);
                    assert(c.deep_view() =~= spec_devlink_views(v@, 0));
                }
                Some(c)
            },
            GenlDevlinkAttrs::RegionChunks(v) => {
                let c = clone_devlink_vec(v);
                proof {
                    lemma_devlink_views_congruent(c@, v@, 0);
                    lemma_devlink_views_deep(c@, 0);
                    assert(c.deep_view() =~= spec_devlink_views(v@, 0));
                }
                Some(c)
            },
            GenlDevlinkAttrs::RegionChunk(v) => {
                let c = clone_devlink_vec(v);
                proof {
                    lemma_devlink_views_congruent(c@, v@, 0);
                    lemma_devlink_views_deep(c@, 0);
                    assert(c.deep_view() =~= spec_devlink_views(v@, 0));
                }
                Some(c)
            },
            GenlDevlinkAttrs::InfoVersionFixed(v) => {
                let c = clone_devlink_vec(v);
                proof {
                    lemma_devlink_views_congruent(c@, v@, 0);
                    lemma_devlink_views_deep(c@, 0);
                    assert(c.deep_view() =~= spec_devlink_views(v@, 0));
                }
                Some(c)
            },
            GenlDevlinkAttrs::InfoVersionRunning(v) => {
                let c = clone_devlink_vec(v);
                proof {
                    lemma_devlink_views_congruent(c@, v@, 0);
                    lemma_devlink_views_deep(c@, 0);
                    assert(c.deep_view() =~= spec_devlink_views(v@, 0));
                }
                Some(c)
            },
            GenlDevlinkAttrs::InfoVersionStored(v) => {
                let c = clone_devlink_vec(v);
                proof {
                    lemma_devlink_views_congruent(c@, v@, 0);
                    lemma_devlink_views_deep(c@, 0);
                    assert(c.deep_view() =~= spec_devlink_views(v@, 0));
                }
                Some(c)
            },
            GenlDevlinkAttrs::Fmsg(v) => {
                let c = clone_devlink_vec(v);
                proof {
                    lemma_devlink_views_congruent(c@, v@, 0);
                    lemma_devlink_views_deep(c@, 0);
                    assert(c.deep_view() =~= spec_devlink_views(v@, 0));
                }
                Some(c)
            },
            GenlDevlinkAttrs::FmsgObjValueData(v) => {
                let c = clone_devlink_vec(v);
                proof {
                    lemma_devlink_views_congruent(c@, v@, 0);
                    lemma_devlink_views_deep(c@, 0);
                    assert(c.deep_view() =~= spec_devlink_views(v@, 0));
                }
                Some(c)
            },
            GenlDevlinkAttrs::HealthReporter(v) => {
                let c = clone_devlink_vec(v);
                proof {
                    lemma_devlink_views_congruent(c@, v@, 0);
                    lemma_devlink_views_deep(c@, 0);
                    assert(c.deep_view() =~= spec_devlink_views(v@, 0));
                }
                Some(c)
            },
            GenlDevlinkAttrs::Stats(v) => {
                let c = clone_devlink_vec(v);
                proof {
                    lemma_devlink_views_congruent(c@, v@, 0);
                    lemma_devlink_views_deep(c@, 0);
                    assert(c.deep_view() =~= spec_devlink_views(v@, 0));
                }
                Some(c)
            },
            GenlDevlinkAttrs::TrapMetadata(v) => {
                let c = clone_devlink_vec(v);
                proof {
                    lemma_devlink_views_congruent(c@, v@, 0);
                    lemma_devlink_views_deep(c@, 0);
                    assert(c.deep_view() =~= spec_devlink_views(v@, 0));
                }
                Some(c)
            },
            GenlDevlinkAttrs::PortFunction(v) => {
                let c = clone_devlink_vec(v);
                proof {
                    lemma_devlink_views_congruent(c@, v@, 0);
                    lemma_devlink_views_deep(c@, 0);
                    assert(c.deep_view() =~= spec_devlink_views(v@, 0));
                }
                Some(c)
            },
            GenlDevlinkAttrs::DevStats(v) => {
                let c = clone_devlink_vec(v);
                proof {
                    lemma_devlink_views_congruent(c@, v@, 0);
                    lemma_devlink_views_deep(c@, 0);
                    assert(c.deep_view() =~= spec_devlink_views(v@, 0));
                }
                Some(c)
            },
            GenlDevlinkAttrs::ReloadStats(v) => {
                let c = clone_devlink_vec(v);
                proof {
                    lemma_devlink_views_congruent(c@, v@, 0);
                    lemma_devlink_views_deep(c@, 0);
                    assert(c.deep_view() =~= spec_devlink_views(v@, 0));
                }
                Some(c)
            },
            GenlDevlinkAttrs::ReloadStatsEntry(v) => {
                let c = clone_devlink_vec(v);
                proof {
                    lemma_devlink_views_congruent(c@, v@, 0);
                    lemma_devlink_views_deep(c@, 0);
                    assert(c.deep_view() =~= spec_devlink_views(v@, 0));
                }
                Some(c)
            },
            GenlDevlinkAttrs::RemoteReloadStats(v) => {
                let c = clone_devlink_vec(v);
                proof {
                    lemma_devlink_views_congruent(c@, v@, 0);
                    lemma_devlink_views_deep(c@, 0);
                    assert(c.deep_view() =~= spec_devlink_views(v@, 0));
                }
                Some(c)
            },
            GenlDevlinkAttrs::ReloadActionInfo(v) => {
                let c = clone_devlink_vec(v);
                proof {
                    lemma_devlink_views_congruent(c@, v@, 0);
                    lemma_devlink_views_deep(c@, 0);
                    assert(c.deep_view() =~= spec_devlink_views(v@, 0));
                }
                Some(c)
            },
            GenlDevlinkAttrs::ReloadActionStats(v) => {
                let c = clone_devlink_vec(v);
                proof {
                    lemma_devlink_views_congruent(c@, v@, 0);
                    lemma_devlink_views_deep(c@, 0);
                    assert(c.deep_view() =~= spec_devlink_views(v@, 0));
                }
                Some(c)
            },
            _ => None,
        }
    }

    /// The name of the attribute's variant.
    #[verifier::rlimit(100)]
    pub fn get_attribute_name(&self) -> (r: String)
        ensures
            r@ == spec_devlink_name(*self),
    {
        match self {
            GenlDevlinkAttrs::BusName(_) => "BusName".to_owned(),
            GenlDevlinkAttrs::Location(_) => "Location".to_owned(),
            GenlDevlinkAttrs::PortIndex(_) => "PortIndex".to_owned(),
            GenlDevlinkAttrs::PortType(_) => "PortType".to_owned(),
            GenlDevlinkAttrs::DesiredType(_) => "DesiredType".to_owned(),
            GenlDevlinkAttrs::NetdevIndex(_) => "NetdevIndex".to_owned(),
            GenlDevlinkAttrs::NetdevName(_) => "NetdevName".to_owned(),
            GenlDevlinkAttrs::PortIbdevName(_) => "PortIbdevName".to_owned(),
            GenlDevlinkAttrs::PortSplitCount(_) => "PortSplitCount".to_owned(),
            GenlDevlinkAttrs::PortSplitGroup(_) => "PortSplitGroup".to_owned(),
            GenlDevlinkAttrs::SbIndex(_) => "SbIndex".to_owned(),
            GenlDevlinkAttrs::SbSize(_) => "SbSize".to_owned(),
            GenlDevlinkAttrs::SbIngressPoolCount(_) => "SbIngressPoolCount".to_owned(),
            GenlDevlinkAttrs::SbEgressPoolCount(_) => "SbEgressPoolCount".to_owned(),
            GenlDevlinkAttrs::SbIngressTcCount(_) => "SbIngressTcCount".to_owned(),
            GenlDevlinkAttrs::SbEgressTcCount(_) => "SbEgressTcCount".to_owned(),
            GenlDevlinkAttrs::SbPoolIndex(_) => "SbPoolIndex".to_owned(),
            GenlDevlinkAttrs::SbPoolType(_) => "SbPoolType".to_owned(),
            GenlDevlinkAttrs::SbPoolSize(_) => "SbPoolSize".to_owned(),
            GenlDevlinkAttrs::SbPoolThresholdType(_) => "SbPoolThresholdType".to_owned(),
            GenlDevlinkAttrs::SbPoolThreshold(_) => "SbPoolThreshold".to_owned(),
            GenlDevlinkAttrs::SbTcIndex(_) => "SbTcIndex".to_owned(),
            GenlDevlinkAttrs::SbOccCur(_) => "SbOccCur".to_owned(),
            GenlDevlinkAttrs::SbOccMax(_) => "SbOccMax".to_owned(),
            GenlDevlinkAttrs::EswitchMode(_) => "EswitchMode".to_owned(),
            GenlDevlinkAttrs::EswitchInlineMode(_) => "EswitchInlineMode".to_owned(),
            GenlDevlinkAttrs::DpipeTables(_) => "DpipeTables".to_owned(),
            GenlDevlinkAttrs::DpipeTable(_) => "DpipeTable".to_owned(),
            GenlDevlinkAttrs::DpipeTableName(_) => "DpipeTableName".to_owned(),
            GenlDevlinkAttrs::DpipeTableSize(_) => "DpipeTableSize".to_owned(),
            GenlDevlinkAttrs::DpipeTableMatches(_) => "DpipeTableMatches".to_owned(),
            GenlDevlinkAttrs::DpipeTableActions(_) => "DpipeTableActions".to_owned(),
            GenlDevlinkAttrs::DpipeTableCountersEnabled(_) => "DpipeTableCountersEnabled".to_owned(),
            GenlDevlinkAttrs::DpipeEntries(_) => "DpipeEntries".to_owned(),
            GenlDevlinkAttrs::DpipeEntry(_) => "DpipeEntry".to_owned(),
            GenlDevlinkAttrs::DpipeEntryIndex(_) => "DpipeEntryIndex".to_owned(),
            GenlDevlinkAttrs::DpipeEntryMatchValues(_) => "DpipeEntryMatchValues".to_owned(),
            GenlDevlinkAttrs::DpipeEntryActionValues(_) => "DpipeEntryActionValues".to_owned(),
            GenlDevlinkAttrs::DpipeEntryCounter(_) => "DpipeEntryCounter".to_owned(),
            GenlDevlinkAttrs::DpipeMatch(_) => "DpipeMatch".to_owned(),
            GenlDevlinkAttrs::DpipeMatchValue(_) => "DpipeMatchValue".to_owned(),
            GenlDevlinkAttrs::DpipeMatchType(_) => "DpipeMatchType".to_owned(),
            GenlDevlinkAttrs::DpipeAction(_) => "DpipeAction".to_owned(),
            GenlDevlinkAttrs::DpipeActionValue(_) => "DpipeActionValue".to_owned(),
            GenlDevlinkAttrs::DpipeActionType(_) => "DpipeActionType".to_owned(),
            GenlDevlinkAttrs::DpipeValue(_) => "DpipeValue".to_owned(),
            GenlDevlinkAttrs::DpipeValueMask(_) => "DpipeValueMask".to_owned(),
            GenlDevlinkAttrs::DpipeValueMapping(_) => "DpipeValueMapping".to_owned(),
            GenlDevlinkAttrs::DpipeHeaders(_) => "DpipeHeaders".to_owned(),
            GenlDevlinkAttrs::DpipeHader(_) => "DpipeHader".to_owned(),
            GenlDevlinkAttrs::DpipeHeaderName(_) => "DpipeHeaderName".to_owned(),
            GenlDevlinkAttrs::DpipeHeaderId(_) => "DpipeHeaderId".to_owned(),
            GenlDevlinkAttrs::DpipeHeaderFields(_) => "DpipeHeaderFields".to_owned(),
            GenlDevlinkAttrs::DpipeHeaderGlobal(_) => "DpipeHeaderGlobal".to_owned(),
            GenlDevlinkAttrs::DpipeHeaderIndex(_) => "DpipeHeaderIndex".to_owned(),
            GenlDevlinkAttrs::DpipeField(_) => "DpipeField".to_owned(),
            GenlDevlinkAttrs::DpipeFieldName(_) => "DpipeFieldName".to_owned(),
            GenlDevlinkAttrs::DpipeFieldId(_) => "DpipeFieldId".to_owned(),
            GenlDevlinkAttrs::DpipeFieldBitwidth(_) => "DpipeFieldBitwidth".to_owned(),
            GenlDevlinkAttrs::DpipeFieldMappingType(_) => "DpipeFieldMappingType".to_owned(),
            GenlDevlinkAttrs::EswitchEncapMode(_) => "EswitchEncapMode".to_owned(),
            GenlDevlinkAttrs::ResourceList(_) => "ResourceList".to_owned(),
            GenlDevlinkAttrs::Resource(_) => "Resource".to_owned(),
            GenlDevlinkAttrs::ResoureceName(_) => "ResoureceName".to_owned(),
            GenlDevlinkAttrs::ResourceId(_) => "ResourceId".to_owned(),
            GenlDevlinkAttrs::ResourceSize(_) => "ResourceSize".to_owned(),
            GenlDevlinkAttrs::ResourceSizeNew(_) => "ResourceSizeNew".to_owned(),
            GenlDevlinkAttrs::ResourceSizeValid(_) => "ResourceSizeValid".to_owned(),
            GenlDevlinkAttrs::ResourceSizeMin(_) => "ResourceSizeMin".to_owned(),
            GenlDevlinkAttrs::ResourceSizeMax(_) => "ResourceSizeMax".to_owned(),
            GenlDevlinkAttrs::ResourceSizeGran(_) => "ResourceSizeGran".to_owned(),
            GenlDevlinkAttrs::ResourceUnit(_) => "ResourceUnit".to_owned(),
            GenlDevlinkAttrs::ResourceOcc(_) => "ResourceOcc".to_owned(),
            GenlDevlinkAttrs::DpipeTableResourceId(_) => "DpipeTableResourceId".to_owned(),
            GenlDevlinkAttrs::DpipeTableResourceUnit(_) => "DpipeTableResourceUnit".to_owned(),
            GenlDevlinkAttrs::PortFlavour(_) => "PortFlavour".to_owned(),
            GenlDevlinkAttrs::PortNumber(_) => "PortNumber".to_owned(),
            GenlDevlinkAttrs::Param(_) => "Param".to_owned(),
            GenlDevlinkAttrs::ParamName(_) => "ParamName".to_owned(),
            GenlDevlinkAttrs::ParamGeneric(_) => "ParamGeneric".to_owned(),
            GenlDevlinkAttrs::ParamType(_) => "ParamType".to_owned(),
            GenlDevlinkAttrs::ParamValueList(_) => "ParamValueList".to_owned(),
            GenlDevlinkAttrs::ParamValue(_) => "ParamValue".to_owned(),
            GenlDevlinkAttrs::ParamValueData(_) => "ParamValueData".to_owned(),
            GenlDevlinkAttrs::ParamValueCmode(_) => "ParamValueCmode".to_owned(),
            GenlDevlinkAttrs::RegionName(_) => "RegionName".to_owned(),
            GenlDevlinkAttrs::RegionSize(_) => "RegionSize".to_owned(),
            GenlDevlinkAttrs::RegionSnapshots(_) => "RegionSnapshots".to_owned(),
            GenlDevlinkAttrs::RegionSnapshot(_) => "RegionSnapshot".to_owned(),
            GenlDevlinkAttrs::RegionSnapshotId(_) => "RegionSnapshotId".to_owned(),
            GenlDevlinkAttrs::RegionChunks(_) => "RegionChunks".to_owned(),
            GenlDevlinkAttrs::RegionChunk(_) => "RegionChunk".to_owned(),
            GenlDevlinkAttrs::RegionChunkData(_) => "RegionChunkData".to_owned(),
            GenlDevlinkAttrs::RegionChunkOffset(_) => "RegionChunkOffset".to_owned(),
            GenlDevlinkAttrs::RegionChunkSize(_) => "RegionChunkSize".to_owned(),
            GenlDevlinkAttrs::InfoDriverName(_) => "InfoDriverName".to_owned(),
            GenlDevlinkAttrs::InfoSerialNo(_) => "InfoSerialNo".to_owned(),
            GenlDevlinkAttrs::InfoVersionFixed(_) => "InfoVersionFixed".to_owned(),
            GenlDevlinkAttrs::InfoVersionRunning(_) => "InfoVersionRunning".to_owned(),
            GenlDevlinkAttrs::InfoVersionStored(_) => "InfoVersionStored".to_owned(),
            GenlDevlinkAttrs::InfoVersionName(_) => "InfoVersionName".to_owned(),
            GenlDevlinkAttrs::InfoVersionValue(_) => "InfoVersionValue".to_owned(),
            GenlDevlinkAttrs::SbPoolCellSize(_) => "SbPoolCellSize".to_owned(),
            GenlDevlinkAttrs::Fmsg(_) => "Fmsg".to_owned(),
            GenlDevlinkAttrs::FmsgObjNestStart(_) => "FmsgObjNestStart".to_owned(),
            GenlDevlinkAttrs::FmsgPairNestStart(_) => "FmsgPairNestStart".to_owned(),
            GenlDevlinkAttrs::FmsgArrNestStart(_) => "FmsgArrNestStart".to_owned(),
            GenlDevlinkAttrs::FmsgNestEnd(_) => "FmsgNestEnd".to_owned(),
            GenlDevlinkAttrs::FmsgObjName(_) => "FmsgObjName".to_owned(),
            GenlDevlinkAttrs::FmsgObjValueType(_) => "FmsgObjValueType".to_owned(),
            GenlDevlinkAttrs::FmsgObjValueData(_) => "FmsgObjValueData".to_owned(),
            GenlDevlinkAttrs::HealthReporter(_) => "HealthReporter".to_owned(),
            GenlDevlinkAttrs::HealthReporterName(_) => "HealthReporterName".to_owned(),
            GenlDevlinkAttrs::HealthReporterState(_) => "HealthReporterState".to_owned(),
            GenlDevlinkAttrs::HealthReporterErrCount(_) => "HealthReporterErrCount".to_owned(),
            GenlDevlinkAttrs::HealthReporterRecoverCount(_) => "HealthReporterRecoverCount".to_owned(),
            GenlDevlinkAttrs::HealthReporterDumpTs(_) => "HealthReporterDumpTs".to_owned(),
            GenlDevlinkAttrs::HealthReporterGracefulPeriod(_) => "HealthReporterGracefulPeriod".to_owned(),
            GenlDevlinkAttrs::HealthReporterAucoRecover(_) => "HealthReporterAucoRecover".to_owned(),
            GenlDevlinkAttrs::FlashUpdateFileName(_) => "FlashUpdateFileName".to_owned(),
            GenlDevlinkAttrs::FlashUpdateComponent(_) => "FlashUpdateComponent".to_owned(),
            GenlDevlinkAttrs::FlashUpdateStatusMsg(_) => "FlashUpdateStatusMsg".to_owned(),
            GenlDevlinkAttrs::FlashUpdateStatusDone(_) => "FlashUpdateStatusDone".to_owned(),
            GenlDevlinkAttrs::FlashUpdateStatusTotal(_) => "FlashUpdateStatusTotal".to_owned(),
            GenlDevlinkAttrs::PortPciPfNumber(_) => "PortPciPfNumber".to_owned(),
            GenlDevlinkAttrs::PortPciVfNumber(_) => "PortPciVfNumber".to_owned(),
            GenlDevlinkAttrs::Stats(_) => "Stats".to_owned(),
            GenlDevlinkAttrs::TrapName(_) => "TrapName".to_owned(),
            GenlDevlinkAttrs::TrapAction(_) => "TrapAction".to_owned(),
            GenlDevlinkAttrs::TrapType(_) => "TrapType".to_owned(),
            GenlDevlinkAttrs::TrapGeneric(_) => "TrapGeneric".to_owned(),
            GenlDevlinkAttrs::TrapMetadata(_) => "TrapMetadata".to_owned(),
            GenlDevlinkAttrs::TrapGroupName(_) => "TrapGroupName".to_owned(),
            GenlDevlinkAttrs::ReloadStatus(_) => "ReloadStatus".to_owned(),
            GenlDevlinkAttrs::HealthReporterDumpTsNs(_) => "HealthReporterDumpTsNs".to_owned(),
            GenlDevlinkAttrs::NetnsFd(_) => "NetnsFd".to_owned(),
            GenlDevlinkAttrs::NetnsPid(_) => "NetnsPid".to_owned(),
            GenlDevlinkAttrs::NetnsId(_) => "NetnsId".to_owned(),
            GenlDevlinkAttrs::HealthReporterAutoDump(_) => "HealthReporterAutoDump".to_owned(),
            GenlDevlinkAttrs::TrapPolicerId(_) => "TrapPolicerId".to_owned(),
            GenlDevlinkAttrs::TrapPolicerRate(_) => "TrapPolicerRate".to_owned(),
            GenlDevlinkAttrs::TrapPolicerBurst(_) => "TrapPolicerBurst".to_owned(),
            GenlDevlinkAttrs::PortFunction(_) => "PortFunction".to_owned(),
            GenlDevlinkAttrs::InfoBoardSerialNumber(_) => "InfoBoardSerialNumber".to_owned(),
            GenlDevlinkAttrs::PortLanes(_) => "PortLanes".to_owned(),
            GenlDevlinkAttrs::PortSplittable(_) => "PortSplittable".to_owned(),
            GenlDevlinkAttrs::PortExternal(_) => "PortExternal".to_owned(),
            GenlDevlinkAttrs::PortControllerNo(_) => "PortControllerNo".to_owned(),
            GenlDevlinkAttrs::FlashUpdateStatusTimeout(_) => "FlashUpdateStatusTimeout".to_owned(),
            GenlDevlinkAttrs::FlashUpdateOverWriteMask(_) => "FlashUpdateOverWriteMask".to_owned(),
            GenlDevlinkAttrs::ReloadAction(_) => "ReloadAction".to_owned(),
            GenlDevlinkAttrs::ReloadActionPerformed(_) => "ReloadActionPerformed".to_owned(),
            GenlDevlinkAttrs::ReloadLimits(_) => "ReloadLimits".to_owned(),
            GenlDevlinkAttrs::DevStats(_) => "DevStats".to_owned(),
            GenlDevlinkAttrs::ReloadStats(_) => "ReloadStats".to_owned(),
            GenlDevlinkAttrs::ReloadStatsEntry(_) => "ReloadStatsEntry".to_owned(),
            GenlDevlinkAttrs::ReloadStatsLimit(_) => "ReloadStatsLimit".to_owned(),
            GenlDevlinkAttrs::ReloadStatsValue(_) => "ReloadStatsValue".to_owned(),
            GenlDevlinkAttrs::RemoteReloadStats(_) => "RemoteReloadStats".to_owned(),
            GenlDevlinkAttrs::ReloadActionInfo(_) => "ReloadActionInfo".to_owned(),
            GenlDevlinkAttrs::ReloadActionStats(_) => "ReloadActionStats".to_owned(),
            GenlDevlinkAttrs::PortPciSfNo(_) => "PortPciSfNo".to_owned(),
            GenlDevlinkAttrs::RateType(_) => "RateType".to_owned(),
            GenlDevlinkAttrs::RateTxShare(_) => "RateTxShare".to_owned(),
            GenlDevlinkAttrs::RateTxMax(_) => "RateTxMax".to_owned(),
            GenlDevlinkAttrs::RateNodeName(_) => "RateNodeName".to_owned(),
            GenlDevlinkAttrs::RateParentNodeName(_) => "RateParentNodeName".to_owned(),
            GenlDevlinkAttrs::RegionMaxSnapshots(_) => "RegionMaxSnapshots".to_owned(),
        }
    }
}

/// The children of a value that carries a nested attribute list.
pub open spec fn spec_devlink_children(a: DevlinkAttrV) -> Option<Seq<DevlinkAttrV>> {
    match a {
        DevlinkAttrV::DpipeTables(v) => Some(v),
        DevlinkAttrV::DpipeTable(v) => Some(v),
        DevlinkAttrV::DpipeTableMatches(v) => Some(v),
        DevlinkAttrV::DpipeTableActions(v) => Some(v),
        DevlinkAttrV::DpipeEntries(v) => Some(v),
        DevlinkAttrV::DpipeEntry(v) => Some(v),
        DevlinkAttrV::DpipeEntryMatchValues(v) => Some(v),
        DevlinkAttrV::DpipeEntryActionValues(v) => Some(v),
        DevlinkAttrV::DpipeMatch(v) => Some(v),
        DevlinkAttrV::DpipeMatchValue(v) => Some(v),
        DevlinkAttrV::DpipeAction(v) => Some(v),
        DevlinkAttrV::DpipeActionValue(v) => Some(v),
        DevlinkAttrV::DpipeHeaders(v) => Some(v),
        DevlinkAttrV::DpipeHader(v) => Some(v),
        DevlinkAttrV::DpipeHeaderFields(v) => Some(v),
        DevlinkAttrV::DpipeField(v) => Some(v),
        DevlinkAttrV::ResourceList(v) => Some(v),
        DevlinkAttrV::Resource(v) => Some(v),
        DevlinkAttrV::Param(v) => Some(v),
        DevlinkAttrV::ParamValueList(v) => Some(v),
        DevlinkAttrV::ParamValueData(v) => Some(v),
        DevlinkAttrV::RegionSnapshots(v) => Some(v),
        DevlinkAttrV::RegionSnapshot(v) => Some(v),
        DevlinkAttrV::RegionChunks(v) => Some(v),
        DevlinkAttrV::RegionChunk(v) => Some(v),
        DevlinkAttrV::InfoVersionFixed(v) => Some(v),
        DevlinkAttrV::InfoVersionRunning(v) => Some(v),
        DevlinkAttrV::InfoVersionStored(v) => Some(v),
        DevlinkAttrV::Fmsg(v) => Some(v),
        DevlinkAttrV::FmsgObjValueData(v) => Some(v),
        DevlinkAttrV::HealthReporter(v) => Some(v),
        DevlinkAttrV::Stats(v) => Some(v),
        DevlinkAttrV::TrapMetadata(v) => Some(v),
        DevlinkAttrV::PortFunction(v) => Some(v),
        DevlinkAttrV::DevStats(v) => Some(v),
        DevlinkAttrV::ReloadStats(v) => Some(v),
        DevlinkAttrV::ReloadStatsEntry(v) => Some(v),
        DevlinkAttrV::RemoteReloadStats(v) => Some(v),
        DevlinkAttrV::ReloadActionInfo(v) => Some(v),
        DevlinkAttrV::ReloadActionStats(v) => Some(v),
        _ => None,
    }
}

/// The variant name of an attribute.
pub open spec fn spec_devlink_name(a: GenlDevlinkAttrs) -> Seq<char> {
    match a {
        GenlDevlinkAttrs::BusName(_) => "BusName"@,
        GenlDevlinkAttrs::Location(_) => "Location"@,
        GenlDevlinkAttrs::PortIndex(_) => "PortIndex"@,
        GenlDevlinkAttrs::PortType(_) => "PortType"@,
        GenlDevlinkAttrs::DesiredType(_) => "DesiredType"@,
        GenlDevlinkAttrs::NetdevIndex(_) => "NetdevIndex"@,
        GenlDevlinkAttrs::NetdevName(_) => "NetdevName"@,
        GenlDevlinkAttrs::PortIbdevName(_) => "PortIbdevName"@,
        GenlDevlinkAttrs::PortSplitCount(_) => "PortSplitCount"@,
        GenlDevlinkAttrs::PortSplitGroup(_) => "PortSplitGroup"@,
        GenlDevlinkAttrs::SbIndex(_) => "SbIndex"@,
        GenlDevlinkAttrs::SbSize(_) => "SbSize"@,
        GenlDevlinkAttrs::SbIngressPoolCount(_) => "SbIngressPoolCount"@,
        GenlDevlinkAttrs::SbEgressPoolCount(_) => "SbEgressPoolCount"@,
        GenlDevlinkAttrs::SbIngressTcCount(_) => "SbIngressTcCount"@,
        GenlDevlinkAttrs::SbEgressTcCount(_) => "SbEgressTcCount"@,
        GenlDevlinkAttrs::SbPoolIndex(_) => "SbPoolIndex"@,
        GenlDevlinkAttrs::SbPoolType(_) => "SbPoolType"@,
        GenlDevlinkAttrs::SbPoolSize(_) => "SbPoolSize"@,
        GenlDevlinkAttrs::SbPoolThresholdType(_) => "SbPoolThresholdType"@,
        GenlDevlinkAttrs::SbPoolThreshold(_) => "SbPoolThreshold"@,
        GenlDevlinkAttrs::SbTcIndex(_) => "SbTcIndex"@,
        GenlDevlinkAttrs::SbOccCur(_) => "SbOccCur"@,
        GenlDevlinkAttrs::SbOccMax(_) => "SbOccMax"@,
        GenlDevlinkAttrs::EswitchMode(_) => "EswitchMode"@,
        GenlDevlinkAttrs::EswitchInlineMode(_) => "EswitchInlineMode"@,
        GenlDevlinkAttrs::DpipeTables(_) => "DpipeTables"@,
        GenlDevlinkAttrs::DpipeTable(_) => "DpipeTable"@,
        GenlDevlinkAttrs::DpipeTableName(_) => "DpipeTableName"@,
        GenlDevlinkAttrs::DpipeTableSize(_) => "DpipeTableSize"@,
        GenlDevlinkAttrs::DpipeTableMatches(_) => "DpipeTableMatches"@,
        GenlDevlinkAttrs::DpipeTableActions(_) => "DpipeTableActions"@,
        GenlDevlinkAttrs::DpipeTableCountersEnabled(_) => "DpipeTableCountersEnabled"@,
        GenlDevlinkAttrs::DpipeEntries(_) => "DpipeEntries"@,
        GenlDevlinkAttrs::DpipeEntry(_) => "DpipeEntry"@,
        GenlDevlinkAttrs::DpipeEntryIndex(_) => "DpipeEntryIndex"@,
        GenlDevlinkAttrs::DpipeEntryMatchValues(_) => "DpipeEntryMatchValues"@,
        GenlDevlinkAttrs::DpipeEntryActionValues(_) => "DpipeEntryActionValues"@,
        GenlDevlinkAttrs::DpipeEntryCounter(_) => "DpipeEntryCounter"@,
        GenlDevlinkAttrs::DpipeMatch(_) => "DpipeMatch"@,
        GenlDevlinkAttrs::DpipeMatchValue(_) => "DpipeMatchValue"@,
        GenlDevlinkAttrs::DpipeMatchType(_) => "DpipeMatchType"@,
        GenlDevlinkAttrs::DpipeAction(_) => "DpipeAction"@,
        GenlDevlinkAttrs::DpipeActionValue(_) => "DpipeActionValue"@,
        GenlDevlinkAttrs::DpipeActionType(_) => "DpipeActionType"@,
        GenlDevlinkAttrs::DpipeValue(_) => "DpipeValue"@,
        GenlDevlinkAttrs::DpipeValueMask(_) => "DpipeValueMask"@,
        GenlDevlinkAttrs::DpipeValueMapping(_) => "DpipeValueMapping"@,
        GenlDevlinkAttrs::DpipeHeaders(_) => "DpipeHeaders"@,
        GenlDevlinkAttrs::DpipeHader(_) => "DpipeHader"@,
        GenlDevlinkAttrs::DpipeHeaderName(_) => "DpipeHeaderName"@,
        GenlDevlinkAttrs::DpipeHeaderId(_) => "DpipeHeaderId"@,
        GenlDevlinkAttrs::DpipeHeaderFields(_) => "DpipeHeaderFields"@,
        GenlDevlinkAttrs::DpipeHeaderGlobal(_) => "DpipeHeaderGlobal"@,
        GenlDevlinkAttrs::DpipeHeaderIndex(_) => "DpipeHeaderIndex"@,
        GenlDevlinkAttrs::DpipeField(_) => "DpipeField"@,
        GenlDevlinkAttrs::DpipeFieldName(_) => "DpipeFieldName"@,
        GenlDevlinkAttrs::DpipeFieldId(_) => "DpipeFieldId"@,
        GenlDevlinkAttrs::DpipeFieldBitwidth(_) => "DpipeFieldBitwidth"@,
        GenlDevlinkAttrs::DpipeFieldMappingType(_) => "DpipeFieldMappingType"@,
        GenlDevlinkAttrs::EswitchEncapMode(_) => "EswitchEncapMode"@,
        GenlDevlinkAttrs::ResourceList(_) => "ResourceList"@,
        GenlDevlinkAttrs::Resource(_) => "Resource"@,
        GenlDevlinkAttrs::ResoureceName(_) => "ResoureceName"@,
        GenlDevlinkAttrs::ResourceId(_) => "ResourceId"@,
        GenlDevlinkAttrs::ResourceSize(_) => "ResourceSize"@,
        GenlDevlinkAttrs::ResourceSizeNew(_) => "ResourceSizeNew"@,
        GenlDevlinkAttrs::ResourceSizeValid(_) => "ResourceSizeValid"@,
        GenlDevlinkAttrs::ResourceSizeMin(_) => "ResourceSizeMin"@,
        GenlDevlinkAttrs::ResourceSizeMax(_) => "ResourceSizeMax"@,
        GenlDevlinkAttrs::ResourceSizeGran(_) => "ResourceSizeGran"@,
        GenlDevlinkAttrs::ResourceUnit(_) => "ResourceUnit"@,
        GenlDevlinkAttrs::ResourceOcc(_) => "ResourceOcc"@,
        GenlDevlinkAttrs::DpipeTableResourceId(_) => "DpipeTableResourceId"@,
        GenlDevlinkAttrs::DpipeTableResourceUnit(_) => "DpipeTableResourceUnit"@,
        GenlDevlinkAttrs::PortFlavour(_) => "PortFlavour"@,
        GenlDevlinkAttrs::PortNumber(_) => "PortNumber"@,
        GenlDevlinkAttrs::Param(_) => "Param"@,
        GenlDevlinkAttrs::ParamName(_) => "ParamName"@,
        GenlDevlinkAttrs::ParamGeneric(_) => "ParamGeneric"@,
        GenlDevlinkAttrs::ParamType(_) => "ParamType"@,
        GenlDevlinkAttrs::ParamValueList(_) => "ParamValueList"@,
        GenlDevlinkAttrs::ParamValue(_) => "ParamValue"@,
        GenlDevlinkAttrs::ParamValueData(_) => "ParamValueData"@,
        GenlDevlinkAttrs::ParamValueCmode(_) => "ParamValueCmode"@,
        GenlDevlinkAttrs::RegionName(_) => "RegionName"@,
        GenlDevlinkAttrs::RegionSize(_) => "RegionSize"@,
        GenlDevlinkAttrs::RegionSnapshots(_) => "RegionSnapshots"@,
        GenlDevlinkAttrs::RegionSnapshot(_) => "RegionSnapshot"@,
        GenlDevlinkAttrs::RegionSnapshotId(_) => "RegionSnapshotId"@,
        GenlDevlinkAttrs::RegionChunks(_) => "RegionChunks"@,
        GenlDevlinkAttrs::RegionChunk(_) => "RegionChunk"@,
        GenlDevlinkAttrs::RegionChunkData(_) => "RegionChunkData"@,
        GenlDevlinkAttrs::RegionChunkOffset(_) => "RegionChunkOffset"@,
        GenlDevlinkAttrs::RegionChunkSize(_) => "RegionChunkSize"@,
        GenlDevlinkAttrs::InfoDriverName(_) => "InfoDriverName"@,
        GenlDevlinkAttrs::InfoSerialNo(_) => "InfoSerialNo"@,
        GenlDevlinkAttrs::InfoVersionFixed(_) => "InfoVersionFixed"@,
        GenlDevlinkAttrs::InfoVersionRunning(_) => "InfoVersionRunning"@,
        GenlDevlinkAttrs::InfoVersionStored(_) => "InfoVersionStored"@,
        GenlDevlinkAttrs::InfoVersionName(_) => "InfoVersionName"@,
        GenlDevlinkAttrs::InfoVersionValue(_) => "InfoVersionValue"@,
        GenlDevlinkAttrs::SbPoolCellSize(_) => "SbPoolCellSize"@,
        GenlDevlinkAttrs::Fmsg(_) => "Fmsg"@,
        GenlDevlinkAttrs::FmsgObjNestStart(_) => "FmsgObjNestStart"@,
        GenlDevlinkAttrs::FmsgPairNestStart(_) => "FmsgPairNestStart"@,
        GenlDevlinkAttrs::FmsgArrNestStart(_) => "FmsgArrNestStart"@,
        GenlDevlinkAttrs::FmsgNestEnd(_) => "FmsgNestEnd"@,
        GenlDevlinkAttrs::FmsgObjName(_) => "FmsgObjName"@,
        GenlDevlinkAttrs::FmsgObjValueType(_) => "FmsgObjValueType"@,
        GenlDevlinkAttrs::FmsgObjValueData(_) => "FmsgObjValueData"@,
        GenlDevlinkAttrs::HealthReporter(_) => "HealthReporter"@,
        GenlDevlinkAttrs::HealthReporterName(_) => "HealthReporterName"@,
        GenlDevlinkAttrs::HealthReporterState(_) => "HealthReporterState"@,
        GenlDevlinkAttrs::HealthReporterErrCount(_) => "HealthReporterErrCount"@,
        GenlDevlinkAttrs::HealthReporterRecoverCount(_) => "HealthReporterRecoverCount"@,
        GenlDevlinkAttrs::HealthReporterDumpTs(_) => "HealthReporterDumpTs"@,
        GenlDevlinkAttrs::HealthReporterGracefulPeriod(_) => "HealthReporterGracefulPeriod"@,
        GenlDevlinkAttrs::HealthReporterAucoRecover(_) => "HealthReporterAucoRecover"@,
        GenlDevlinkAttrs::FlashUpdateFileName(_) => "FlashUpdateFileName"@,
        GenlDevlinkAttrs::FlashUpdateComponent(_) => "FlashUpdateComponent"@,
        GenlDevlinkAttrs::FlashUpdateStatusMsg(_) => "FlashUpdateStatusMsg"@,
        GenlDevlinkAttrs::FlashUpdateStatusDone(_) => "FlashUpdateStatusDone"@,
        GenlDevlinkAttrs::FlashUpdateStatusTotal(_) => "FlashUpdateStatusTotal"@,
        GenlDevlinkAttrs::PortPciPfNumber(_) => "PortPciPfNumber"@,
        GenlDevlinkAttrs::PortPciVfNumber(_) => "PortPciVfNumber"@,
        GenlDevlinkAttrs::Stats(_) => "Stats"@,
        GenlDevlinkAttrs::TrapName(_) => "TrapName"@,
        GenlDevlinkAttrs::TrapAction(_) => "TrapAction"@,
        GenlDevlinkAttrs::TrapType(_) => "TrapType"@,
        GenlDevlinkAttrs::TrapGeneric(_) => "TrapGeneric"@,
        GenlDevlinkAttrs::TrapMetadata(_) => "TrapMetadata"@,
        GenlDevlinkAttrs::TrapGroupName(_) => "TrapGroupName"@,
        GenlDevlinkAttrs::ReloadStatus(_) => "ReloadStatus"@,
        GenlDevlinkAttrs::HealthReporterDumpTsNs(_) => "HealthReporterDumpTsNs"@,
        GenlDevlinkAttrs::NetnsFd(_) => "NetnsFd"@,
        GenlDevlinkAttrs::NetnsPid(_) => "NetnsPid"@,
        GenlDevlinkAttrs::NetnsId(_) => "NetnsId"@,
        GenlDevlinkAttrs::HealthReporterAutoDump(_) => "HealthReporterAutoDump"@,
        GenlDevlinkAttrs::TrapPolicerId(_) => "TrapPolicerId"@,
        GenlDevlinkAttrs::TrapPolicerRate(_) => "TrapPolicerRate"@,
        GenlDevlinkAttrs::TrapPolicerBurst(_) => "TrapPolicerBurst"@,
        GenlDevlinkAttrs::PortFunction(_) => "PortFunction"@,
        GenlDevlinkAttrs::InfoBoardSerialNumber(_) => "InfoBoardSerialNumber"@,
        GenlDevlinkAttrs::PortLanes(_) => "PortLanes"@,
        GenlDevlinkAttrs::PortSplittable(_) => "PortSplittable"@,
        GenlDevlinkAttrs::PortExternal(_) => "PortExternal"@,
        GenlDevlinkAttrs::PortControllerNo(_) => "PortControllerNo"@,
        GenlDevlinkAttrs::FlashUpdateStatusTimeout(_) => "FlashUpdateStatusTimeout"@,
        GenlDevlinkAttrs::FlashUpdateOverWriteMask(_) => "FlashUpdateOverWriteMask"@,
        GenlDevlinkAttrs::ReloadAction(_) => "ReloadAction"@,
        GenlDevlinkAttrs::ReloadActionPerformed(_) => "ReloadActionPerformed"@,
        GenlDevlinkAttrs::ReloadLimits(_) => "ReloadLimits"@,
        GenlDevlinkAttrs::DevStats(_) => "DevStats"@,
        GenlDevlinkAttrs::ReloadStats(_) => "ReloadStats"@,
        GenlDevlinkAttrs::ReloadStatsEntry(_) => "ReloadStatsEntry"@,
        GenlDevlinkAttrs::ReloadStatsLimit(_) => "ReloadStatsLimit"@,
        GenlDevlinkAttrs::ReloadStatsValue(_) => "ReloadStatsValue"@,
        GenlDevlinkAttrs::RemoteReloadStats(_) => "RemoteReloadStats"@,
        GenlDevlinkAttrs::ReloadActionInfo(_) => "ReloadActionInfo"@,
        GenlDevlinkAttrs::ReloadActionStats(_) => "ReloadActionStats"@,
        GenlDevlinkAttrs::PortPciSfNo(_) => "PortPciSfNo"@,
        GenlDevlinkAttrs::RateType(_) => "RateType"@,
        GenlDevlinkAttrs::RateTxShare(_) => "RateTxShare"@,
        GenlDevlinkAttrs::RateTxMax(_) => "RateTxMax"@,
        GenlDevlinkAttrs::RateNodeName(_) => "RateNodeName"@,
        GenlDevlinkAttrs::RateParentNodeName(_) => "RateParentNodeName"@,
        GenlDevlinkAttrs::RegionMaxSnapshots(_) => "RegionMaxSnapshots"@,
    }
}


/// Decoding an emitted flat devlink attribute gives back its value, for
/// every parsed variant whose payload is not itself an attribute tree.  The
/// two irregular variants are left out: the chunk-data attribute has no
/// decode arm, and the chunk-size attribute shares its wire id with the
/// region size.
#[verifier::rlimit(100)]
pub proof fn lemma_devlink_flat_round_trip(a: GenlDevlinkAttrs, depth: nat)
    requires
        spec_devlink_wf(a),
        spec_devlink_children(spec_devlink_view(a)) is None,
        !(a is RegionChunkData),
        !(a is RegionChunkSize),
    ensures
        spec_parse_devlink_attr(
            spec_wire_kind(spec_devlink_kind(a), spec_devlink_nested(a)) & NLA_TYPE_MASK,
            spec_devlink_payload(a),
            depth,
        ) == Ok::<_, ErrorKind>(spec_devlink_view(a)),
{
    lemma_auto_spec_u16_to_from_le_bytes();
    lemma_auto_spec_u32_to_from_le_bytes();
    lemma_auto_spec_u64_to_from_le_bytes();
    lemma_kind_mask(spec_devlink_kind(a));
    match a {
        GenlDevlinkAttrs::BusName(s) => lemma_string_round_trip(s@),
        GenlDevlinkAttrs::Location(s) => lemma_string_round_trip(s@),
        GenlDevlinkAttrs::NetdevName(s) => lemma_string_round_trip(s@),
        GenlDevlinkAttrs::PortIbdevName(s) => lemma_string_round_trip(s@),
        GenlDevlinkAttrs::DpipeTableName(s) => lemma_string_round_trip(s@),
        GenlDevlinkAttrs::DpipeHeaderName(s) => lemma_string_round_trip(s@),
        GenlDevlinkAttrs::DpipeFieldName(s) => lemma_string_round_trip(s@),
        GenlDevlinkAttrs::ResoureceName(s) => lemma_string_round_trip(s@),
        GenlDevlinkAttrs::ParamName(s) => lemma_string_round_trip(s@),
        GenlDevlinkAttrs::RegionName(s) => lemma_string_round_trip(s@),
        GenlDevlinkAttrs::InfoDriverName(s) => lemma_string_round_trip(s@),
        GenlDevlinkAttrs::InfoSerialNo(s) => lemma_string_round_trip(s@),
        GenlDevlinkAttrs::InfoVersionName(s) => lemma_string_round_trip(s@),
        GenlDevlinkAttrs::InfoVersionValue(s) => lemma_string_round_trip(s@),
        GenlDevlinkAttrs::FmsgObjName(s) => lemma_string_round_trip(s@),
        GenlDevlinkAttrs::HealthReporterName(s) => lemma_string_round_trip(s@),
        GenlDevlinkAttrs::FlashUpdateFileName(s) => lemma_string_round_trip(s@),
        GenlDevlinkAttrs::FlashUpdateComponent(s) => lemma_string_round_trip(s@),
        GenlDevlinkAttrs::FlashUpdateStatusMsg(s) => lemma_string_round_trip(s@),
        GenlDevlinkAttrs::TrapName(s) => lemma_string_round_trip(s@),
        GenlDevlinkAttrs::TrapGroupName(s) => lemma_string_round_trip(s@),
        GenlDevlinkAttrs::InfoBoardSerialNumber(s) => lemma_string_round_trip(s@),
        GenlDevlinkAttrs::RateNodeName(s) => lemma_string_round_trip(s@),
        GenlDevlinkAttrs::RateParentNodeName(s) => lemma_string_round_trip(s@),
        _ => {},
    }
}


/// True when no attribute of the tree is one of the two irregular variants:
/// the chunk-data attribute, which has no decode arm, and the chunk-size
/// attribute, which shares its wire id with the region size.
pub open spec fn spec_devlink_clean(a: GenlDevlinkAttrs) -> bool
    decreases a, 0int,
{
    match a {
        GenlDevlinkAttrs::RegionChunkData(_) => false,
        GenlDevlinkAttrs::RegionChunkSize(_) => false,
        GenlDevlinkAttrs::DpipeTables(v) => spec_devlink_all_clean(v@, 0),
        GenlDevlinkAttrs::DpipeTable(v) => spec_devlink_all_clean(v@, 0),
        GenlDevlinkAttrs::DpipeTableMatches(v) => spec_devlink_all_clean(v@, 0),
        GenlDevlinkAttrs::DpipeTableActions(v) => spec_devlink_all_clean(v@, 0),
        GenlDevlinkAttrs::DpipeEntries(v) => spec_devlink_all_clean(v@, 0),
        GenlDevlinkAttrs::DpipeEntry(v) => spec_devlink_all_clean(v@, 0),
        GenlDevlinkAttrs::DpipeEntryMatchValues(v) => spec_devlink_all_clean(v@, 0),
        GenlDevlinkAttrs::DpipeEntryActionValues(v) => spec_devlink_all_clean(v@, 0),
        GenlDevlinkAttrs::DpipeMatch(v) => spec_devlink_all_clean(v@, 0),
        GenlDevlinkAttrs::DpipeMatchValue(v) => spec_devlink_all_clean(v@, 0),
        GenlDevlinkAttrs::DpipeAction(v) => spec_devlink_all_clean(v@, 0),
        GenlDevlinkAttrs::DpipeActionValue(v) => spec_devlink_all_clean(v@, 0),
        GenlDevlinkAttrs::DpipeHeaders(v) => spec_devlink_all_clean(v@, 0),
        GenlDevlinkAttrs::DpipeHader(v) => spec_devlink_all_clean(v@, 0),
        GenlDevlinkAttrs::DpipeHeaderFields(v) => spec_devlink_all_clean(v@, 0),
        GenlDevlinkAttrs::DpipeField(v) => spec_devlink_all_clean(v@, 0),
        GenlDevlinkAttrs::ResourceList(v) => spec_devlink_all_clean(v@, 0),
        GenlDevlinkAttrs::Resource(v) => spec_devlink_all_clean(v@, 0),
        GenlDevlinkAttrs::Param(v) => spec_devlink_all_clean(v@, 0),
        GenlDevlinkAttrs::ParamValueList(v) => spec_devlink_all_clean(v@, 0),
        GenlDevlinkAttrs::ParamValueData(v) => spec_devlink_all_clean(v@, 0),
        GenlDevlinkAttrs::RegionSnapshots(v) => spec_devlink_all_clean(v@, 0),
        GenlDevlinkAttrs::RegionSnapshot(v) => spec_devlink_all_clean(v@, 0),
        GenlDevlinkAttrs::RegionChunks(v) => spec_devlink_all_clean(v@, 0),
        GenlDevlinkAttrs::RegionChunk(v) => spec_devlink_all_clean(v@, 0),
        GenlDevlinkAttrs::InfoVersionFixed(v) => spec_devlink_all_clean(v@, 0),
        GenlDevlinkAttrs::InfoVersionRunning(v) => spec_devlink_all_clean(v@, 0),
        GenlDevlinkAttrs::InfoVersionStored(v) => spec_devlink_all_clean(v@, 0),
        GenlDevlinkAttrs::Fmsg(v) => spec_devlink_all_clean(v@, 0),
        GenlDevlinkAttrs::FmsgObjValueData(v) => spec_devlink_all_clean(v@, 0),
        GenlDevlinkAttrs::HealthReporter(v) => spec_devlink_all_clean(v@, 0),
        GenlDevlinkAttrs::Stats(v) => spec_devlink_all_clean(v@, 0),
        GenlDevlinkAttrs::TrapMetadata(v) => spec_devlink_all_clean(v@, 0),
        GenlDevlinkAttrs::PortFunction(v) => spec_devlink_all_clean(v@, 0),
        GenlDevlinkAttrs::DevStats(v) => spec_devlink_all_clean(v@, 0),
        GenlDevlinkAttrs::ReloadStats(v) => spec_devlink_all_clean(v@, 0),
        GenlDevlinkAttrs::ReloadStatsEntry(v) => spec_devlink_all_clean(v@, 0),
        GenlDevlinkAttrs::RemoteReloadStats(v) => spec_devlink_all_clean(v@, 0),
        GenlDevlinkAttrs::ReloadActionInfo(v) => spec_devlink_all_clean(v@, 0),
        GenlDevlinkAttrs::ReloadActionStats(v) => spec_devlink_all_clean(v@, 0),
        _ => true,
    }
}

/// Cleanliness of every attribute of `s[i..]`.
pub open spec fn spec_devlink_all_clean(s: Seq<GenlDevlinkAttrs>, i: int) -> bool
    decreases s, s.len() - i,
{
    i >= s.len() || (0 <= i && spec_devlink_clean(s[i]) && spec_devlink_all_clean(s, i + 1))
}

/// How many nesting levels the tree under one attribute holds.
pub open spec fn spec_devlink_tree_depth(a: GenlDevlinkAttrs) -> nat
    decreases a, 0int,
{
    match a {
        GenlDevlinkAttrs::DpipeTables(v) => 1 + spec_devlink_stream_depth(v@, 0),
        GenlDevlinkAttrs::DpipeTable(v) => 1 + spec_devlink_stream_depth(v@, 0),
        GenlDevlinkAttrs::DpipeTableMatches(v) => 1 + spec_devlink_stream_depth(v@, 0),
        GenlDevlinkAttrs::DpipeTableActions(v) => 1 + spec_devlink_stream_depth(v@, 0),
        GenlDevlinkAttrs::DpipeEntries(v) => 1 + spec_devlink_stream_depth(v@, 0),
        GenlDevlinkAttrs::DpipeEntry(v) => 1 + spec_devlink_stream_depth(v@, 0),
        GenlDevlinkAttrs::DpipeEntryMatchValues(v) => 1 + spec_devlink_stream_depth(v@, 0),
        GenlDevlinkAttrs::DpipeEntryActionValues(v) => 1 + spec_devlink_stream_depth(v@, 0),
        GenlDevlinkAttrs::DpipeMatch(v) => 1 + spec_devlink_stream_depth(v@, 0),
        GenlDevlinkAttrs::DpipeMatchValue(v) => 1 + spec_devlink_stream_depth(v@, 0),
        GenlDevlinkAttrs::DpipeAction(v) => 1 + spec_devlink_stream_depth(v@, 0),
        GenlDevlinkAttrs::DpipeActionValue(v) => 1 + spec_devlink_stream_depth(v@, 0),
        GenlDevlinkAttrs::DpipeHeaders(v) => 1 + spec_devlink_stream_depth(v@, 0),
        GenlDevlinkAttrs::DpipeHader(v) => 1 + spec_devlink_stream_depth(v@, 0),
        GenlDevlinkAttrs::DpipeHeaderFields(v) => 1 + spec_devlink_stream_depth(v@, 0),
        GenlDevlinkAttrs::DpipeField(v) => 1 + spec_devlink_stream_depth(v@, 0),
        GenlDevlinkAttrs::ResourceList(v) => 1 + spec_devlink_stream_depth(v@, 0),
        GenlDevlinkAttrs::Resource(v) => 1 + spec_devlink_stream_depth(v@, 0),
        GenlDevlinkAttrs::Param(v) => 1 + spec_devlink_stream_depth(v@, 0),
        GenlDevlinkAttrs::ParamValueList(v) => 1 + spec_devlink_stream_depth(v@, 0),
        GenlDevlinkAttrs::ParamValueData(v) => 1 + spec_devlink_stream_depth(v@, 0),
        GenlDevlinkAttrs::RegionSnapshots(v) => 1 + spec_devlink_stream_depth(v@, 0),
        GenlDevlinkAttrs::RegionSnapshot(v) => 1 + spec_devlink_stream_depth(v@, 0),
        GenlDevlinkAttrs::RegionChunks(v) => 1 + spec_devlink_stream_depth(v@, 0),
        GenlDevlinkAttrs::RegionChunk(v) => 1 + spec_devlink_stream_depth(v@, 0),
        GenlDevlinkAttrs::InfoVersionFixed(v) => 1 + spec_devlink_stream_depth(v@, 0),
        GenlDevlinkAttrs::InfoVersionRunning(v) => 1 + spec_devlink_stream_depth(v@, 0),
        GenlDevlinkAttrs::InfoVersionStored(v) => 1 + spec_devlink_stream_depth(v@, 0),
        GenlDevlinkAttrs::Fmsg(v) => 1 + spec_devlink_stream_depth(v@, 0),
        GenlDevlinkAttrs::FmsgObjValueData(v) => 1 + spec_devlink_stream_depth(v@, 0),
        GenlDevlinkAttrs::HealthReporter(v) => 1 + spec_devlink_stream_depth(v@, 0),
        GenlDevlinkAttrs::Stats(v) => 1 + spec_devlink_stream_depth(v@, 0),
        GenlDevlinkAttrs::TrapMetadata(v) => 1 + spec_devlink_stream_depth(v@, 0),
        GenlDevlinkAttrs::PortFunction(v) => 1 + spec_devlink_stream_depth(v@, 0),
        GenlDevlinkAttrs::DevStats(v) => 1 + spec_devlink_stream_depth(v@, 0),
        GenlDevlinkAttrs::ReloadStats(v) => 1 + spec_devlink_stream_depth(v@, 0),
        GenlDevlinkAttrs::ReloadStatsEntry(v) => 1 + spec_devlink_stream_depth(v@, 0),
        GenlDevlinkAttrs::RemoteReloadStats(v) => 1 + spec_devlink_stream_depth(v@, 0),
        GenlDevlinkAttrs::ReloadActionInfo(v) => 1 + spec_devlink_stream_depth(v@, 0),
        GenlDevlinkAttrs::ReloadActionStats(v) => 1 + spec_devlink_stream_depth(v@, 0),
        _ => 0,
    }
}

/// The deepest nesting among the attributes of `s[i..]`.
pub open spec fn spec_devlink_stream_depth(s: Seq<GenlDevlinkAttrs>, i: int) -> nat
    decreases s, s.len() - i,
{
    if i < 0 || i >= s.len() {
        0
    } else if spec_devlink_tree_depth(s[i]) >= spec_devlink_stream_depth(s, i + 1) {
        spec_devlink_tree_depth(s[i])
    } else {
        spec_devlink_stream_depth(s, i + 1)
    }
}

/// Decoding any emitted devlink attribute gives back its value, nested
/// children included, provided no irregular variant occurs in the tree and
/// the decoder's depth allowance covers the tree.
#[verifier::rlimit(100)]
pub proof fn lemma_devlink_attr_tree_round_trip(a: GenlDevlinkAttrs, depth: nat)
    requires
        spec_devlink_wf(a),
        spec_devlink_clean(a),
        spec_devlink_tree_depth(a) <= depth,
    ensures
        spec_parse_devlink_attr(
            spec_wire_kind(spec_devlink_kind(a), spec_devlink_nested(a)) & NLA_TYPE_MASK,
            spec_devlink_payload(a),
            depth,
        ) == Ok::<_, ErrorKind>(spec_devlink_view(a)),
    decreases a, 0int,
{
    lemma_kind_mask(spec_devlink_kind(a));
    if spec_devlink_children(spec_devlink_view(a)) is None {
        lemma_devlink_flat_round_trip(a, depth);
        return ;
    }
    match a {
        GenlDevlinkAttrs::DpipeTables(v) => {
            lemma_devlink_stream_tree_round_trip(v@, 0, (depth - 1) as nat);
        },
        GenlDevlinkAttrs::DpipeTable(v) => {
            lemma_devlink_stream_tree_round_trip(v@, 0, (depth - 1) as nat);
        },
        GenlDevlinkAttrs::DpipeTableMatches(v) => {
            lemma_devlink_stream_tree_round_trip(v@, 0, (depth - 1) as nat);
        },
        GenlDevlinkAttrs::DpipeTableActions(v) => {
            lemma_devlink_stream_tree_round_trip(v@, 0, (depth - 1) as nat);
        },
        GenlDevlinkAttrs::DpipeEntries(v) => {
            lemma_devlink_stream_tree_round_trip(v@, 0, (depth - 1) as nat);
        },
        GenlDevlinkAttrs::DpipeEntry(v) => {
            lemma_devlink_stream_tree_round_trip(v@, 0, (depth - 1) as nat);
        },
        GenlDevlinkAttrs::DpipeEntryMatchValues(v) => {
            lemma_devlink_stream_tree_round_trip(v@, 0, (depth - 1) as nat);
        },
        GenlDevlinkAttrs::DpipeEntryActionValues(v) => {
            lemma_devlink_stream_tree_round_trip(v@, 0, (depth - 1) as nat);
        },
        GenlDevlinkAttrs::DpipeMatch(v) => {
            lemma_devlink_stream_tree_round_trip(v@, 0, (depth - 1) as nat);
        },
        GenlDevlinkAttrs::DpipeMatchValue(v) => {
            lemma_devlink_stream_tree_round_trip(v@, 0, (depth - 1) as nat);
        },
        GenlDevlinkAttrs::DpipeAction(v) => {
            lemma_devlink_stream_tree_round_trip(v@, 0, (depth - 1) as nat);
        },
        GenlDevlinkAttrs::DpipeActionValue(v) => {
            lemma_devlink_stream_tree_round_trip(v@, 0, (depth - 1) as nat);
        },
        GenlDevlinkAttrs::DpipeHeaders(v) => {
            lemma_devlink_stream_tree_round_trip(v@, 0, (depth - 1) as nat);
        },
        GenlDevlinkAttrs::DpipeHader(v) => {
            lemma_devlink_stream_tree_round_trip(v@, 0, (depth - 1) as nat);
        },
        GenlDevlinkAttrs::DpipeHeaderFields(v) => {
            lemma_devlink_stream_tree_round_trip(v@, 0, (depth - 1) as nat);
        },
        GenlDevlinkAttrs::DpipeField(v) => {
            lemma_devlink_stream_tree_round_trip(v@, 0, (depth - 1) as nat);
        },
        GenlDevlinkAttrs::ResourceList(v) => {
            lemma_devlink_stream_tree_round_trip(v@, 0, (depth - 1) as nat);
        },
        GenlDevlinkAttrs::Resource(v) => {
            lemma_devlink_stream_tree_round_trip(v@, 0, (depth - 1) as nat);
        },
        GenlDevlinkAttrs::Param(v) => {
            lemma_devlink_stream_tree_round_trip(v@, 0, (depth - 1) as nat);
        },
        GenlDevlinkAttrs::ParamValueList(v) => {
            lemma_devlink_stream_tree_round_trip(v@, 0, (depth - 1) as nat);
        },
        GenlDevlinkAttrs::ParamValueData(v) => {
            lemma_devlink_stream_tree_round_trip(v@, 0, (depth - 1) as nat);
        },
        GenlDevlinkAttrs::RegionSnapshots(v) => {
            lemma_devlink_stream_tree_round_trip(v@, 0, (depth - 1) as nat);
        },
        GenlDevlinkAttrs::RegionSnapshot(v) => {
            lemma_devlink_stream_tree_round_trip(v@, 0, (depth - 1) as nat);
        },
        GenlDevlinkAttrs::RegionChunks(v) => {
            lemma_devlink_stream_tree_round_trip(v@, 0, (depth - 1) as nat);
        },
        GenlDevlinkAttrs::RegionChunk(v) => {
            lemma_devlink_stream_tree_round_trip(v@, 0, (depth - 1) as nat);
        },
        GenlDevlinkAttrs::InfoVersionFixed(v) => {
            lemma_devlink_stream_tree_round_trip(v@, 0, (depth - 1) as nat);
        },
        GenlDevlinkAttrs::InfoVersionRunning(v) => {
            lemma_devlink_stream_tree_round_trip(v@, 0, (depth - 1) as nat);
        },
        GenlDevlinkAttrs::InfoVersionStored(v) => {
            lemma_devlink_stream_tree_round_trip(v@, 0, (depth - 1) as nat);
        },
        GenlDevlinkAttrs::Fmsg(v) => {
            lemma_devlink_stream_tree_round_trip(v@, 0, (depth - 1) as nat);
        },
        GenlDevlinkAttrs::FmsgObjValueData(v) => {
            lemma_devlink_stream_tree_round_trip(v@, 0, (depth - 1) as nat);
        },
        GenlDevlinkAttrs::HealthReporter(v) => {
            lemma_devlink_stream_tree_round_trip(v@, 0, (depth - 1) as nat);
        },
        GenlDevlinkAttrs::Stats(v) => {
            lemma_devlink_stream_tree_round_trip(v@, 0, (depth - 1) as nat);
        },
        GenlDevlinkAttrs::TrapMetadata(v) => {
            lemma_devlink_stream_tree_round_trip(v@, 0, (depth - 1) as nat);
        },
        GenlDevlinkAttrs::PortFunction(v) => {
            lemma_devlink_stream_tree_round_trip(v@, 0, (depth - 1) as nat);
        },
        GenlDevlinkAttrs::DevStats(v) => {
            lemma_devlink_stream_tree_round_trip(v@, 0, (depth - 1) as nat);
        },
        GenlDevlinkAttrs::ReloadStats(v) => {
            lemma_devlink_stream_tree_round_trip(v@, 0, (depth - 1) as nat);
        },
        GenlDevlinkAttrs::ReloadStatsEntry(v) => {
            lemma_devlink_stream_tree_round_trip(v@, 0, (depth - 1) as nat);
        },
        GenlDevlinkAttrs::RemoteReloadStats(v) => {
            lemma_devlink_stream_tree_round_trip(v@, 0, (depth - 1) as nat);
        },
        GenlDevlinkAttrs::ReloadActionInfo(v) => {
            lemma_devlink_stream_tree_round_trip(v@, 0, (depth - 1) as nat);
        },
        GenlDevlinkAttrs::ReloadActionStats(v) => {
            lemma_devlink_stream_tree_round_trip(v@, 0, (depth - 1) as nat);
        },
        _ => {},
    }
}

/// Decoding the emitted records of `s[i..]` gives back their values, in
/// order: the round trip of a whole devlink nesting level.
pub proof fn lemma_devlink_stream_tree_round_trip(s: Seq<GenlDevlinkAttrs>, i: int, depth: nat)
    requires
        0 <= i <= s.len(),
        spec_devlink_all_wf(s, i),
        spec_devlink_all_clean(s, i),
        spec_devlink_stream_depth(s, i) <= depth,
    ensures
        spec_parse_devlink_stream(spec_devlink_stream_from(s, i), depth) == Ok::<_, ErrorKind>(
            spec_devlink_views(s, i),
        ),
    decreases s, s.len() - i,
{
    if i == s.len() {
        assert(spec_devlink_stream_from(s, i) =~= Seq::<u8>::empty());
        assert(spec_devlink_views(s, i) =~= Seq::<DevlinkAttrV>::empty());
    } else {
        let wire = spec_wire_kind(spec_devlink_kind(s[i]), spec_devlink_nested(s[i]));
        let payload = spec_devlink_payload(s[i]);
        let rest = spec_devlink_stream_from(s, i + 1);
        lemma_devlink_payload_fits(s[i]);
        lemma_nla_record_head(wire, payload, rest);
        lemma_devlink_attr_tree_round_trip(s[i], depth);
        lemma_devlink_stream_tree_round_trip(s, i + 1, depth);
        let whole = spec_nla_record(wire, payload) + rest;
        assert(whole.len() > 0);
        assert(spec_parse_devlink_stream(whole, depth) == Ok::<_, ErrorKind>(
            seq![spec_devlink_view(s[i])] + spec_devlink_views(s, i + 1),
        ));
    }
}

} // verus!

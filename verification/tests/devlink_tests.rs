use genl_codec::codec::{emit_nla, NlaValue};
use genl_codec::devlink::family::{parse_ctrlnldev, GenlDevlink, GenlDevlinkCmd};
use genl_codec::devlink::nldev::GenlDevlinkAttrs;
use genl_codec::err::ErrorKind;
use genl_codec::genl::GenlHeader;
use genl_codec::nla::NlaView;

/// One raw record: header, payload, zero padding.
fn record(kind: u16, payload: &[u8]) -> Vec<u8> {
    let mut v = Vec::new();
    v.extend_from_slice(&((payload.len() + 4) as u16).to_le_bytes());
    v.extend_from_slice(&kind.to_le_bytes());
    v.extend_from_slice(payload);
    while v.len() % 4 != 0 {
        v.push(0);
    }
    v
}

#[test]
fn devlink_command_bytes_round_trip() {
    let samples = [
        (GenlDevlinkCmd::GetDevices, 1u8),
        (GenlDevlinkCmd::UnsplitPort, 10),
        (GenlDevlinkCmd::Reload, 37),
        (GenlDevlinkCmd::GetDeviceInfo, 51),
        (GenlDevlinkCmd::GetTrap, 61),
        (GenlDevlinkCmd::DeleteRate, 77),
    ];
    for (cmd, byte) in samples {
        assert_eq!(cmd.to_u8(), byte);
        assert_eq!(GenlDevlinkCmd::try_from(byte).expect("closed set"), cmd);
    }
    let err = GenlDevlinkCmd::try_from(0).expect_err("outside the closed set");
    assert_eq!(err.kind, ErrorKind::UnknownCommand(0));
    let err = GenlDevlinkCmd::try_from(78).expect_err("outside the closed set");
    assert_eq!(err.kind, ErrorKind::UnknownCommand(78));
}

#[test]
fn devlink_dump_capability() {
    assert!(GenlDevlinkCmd::GetDevices.dump_capable());
    assert!(GenlDevlinkCmd::GetPort.dump_capable());
    assert!(GenlDevlinkCmd::GetRate.dump_capable());
    assert!(!GenlDevlinkCmd::SetDevice.dump_capable());
    assert!(!GenlDevlinkCmd::Reload.dump_capable());
    assert!(!GenlDevlinkCmd::ReadRegion.dump_capable());
}

#[test]
fn devlink_family_constants() {
    let msg = GenlDevlink { cmd: GenlDevlinkCmd::GetDevices, nldev: vec![] };
    assert_eq!(GenlDevlink::family_name(), "devlink");
    assert_eq!(msg.family_id(), 23);
    assert_eq!(msg.version(), 1);
    assert_eq!(msg.command(), 1);
}

#[test]
fn devlink_scalars_round_trip() {
    let attrs = vec![
        GenlDevlinkAttrs::BusName("pci".to_string()),
        GenlDevlinkAttrs::Location("0000:01:00.0".to_string()),
        GenlDevlinkAttrs::PortIndex(4),
        GenlDevlinkAttrs::PortType(2),
        GenlDevlinkAttrs::SbPoolType(1),
        GenlDevlinkAttrs::RegionSize(0x1122334455667788),
        GenlDevlinkAttrs::ParamGeneric(true),
        GenlDevlinkAttrs::TrapGeneric(false),
    ];
    let mut buf: Vec<u8> = Vec::new();
    for a in &attrs {
        emit_nla(a, &mut buf);
    }
    assert_eq!(buf.len() % 4, 0);
    let parsed = parse_ctrlnldev(&buf).expect("stream must decode");
    assert_eq!(parsed, attrs);
}

#[test]
fn devlink_nested_attribute_round_trips_with_bit_15() {
    let param = GenlDevlinkAttrs::Param(vec![
        GenlDevlinkAttrs::ParamName("enable_sriov".to_string()),
        GenlDevlinkAttrs::ParamType(8),
    ]);
    let mut buf: Vec<u8> = Vec::new();
    emit_nla(&param, &mut buf);
    // wire kind is 80 with the nested marker: 0x8050 little-endian
    assert_eq!(buf[2], 0x50);
    assert_eq!(buf[3], 0x80);
    let view = NlaView::new_checked(&buf).expect("record is well-formed");
    assert_eq!(view.kind(), 80);
    assert_ne!(view.kind_raw() & 0x8000, 0);
    let parsed = GenlDevlinkAttrs::parse(&view).expect("nested attribute must decode");
    assert_eq!(parsed, param);
}

#[test]
fn devlink_quirk_nested_bits_follow_the_table() {
    // The family's table marks the scalar ParamValue nested and the
    // list-carrying ParamValueData flat; both are preserved as deliberate
    // per-family choices.
    assert!(GenlDevlinkAttrs::ParamValue(1).is_nested());
    assert!(!GenlDevlinkAttrs::ParamValueData(vec![]).is_nested());
}

#[test]
fn devlink_quirk_subport_number_decodes_as_split_count() {
    // Wire id 79 has no variant of its own; the table substitutes the
    // neighbouring split-count variant rather than failing.
    let bytes = record(79, &7u32.to_le_bytes());
    let view = NlaView::new_checked(&bytes).expect("record is well-formed");
    let parsed = GenlDevlinkAttrs::parse(&view).expect("substituted id must decode");
    assert_eq!(parsed, GenlDevlinkAttrs::PortSplitCount(7));
}

#[test]
fn devlink_quirk_chunk_data_never_decodes() {
    let bytes = record(95, &[1, 2, 3, 4]);
    let view = NlaView::new_checked(&bytes).expect("record is well-formed");
    let err = GenlDevlinkAttrs::parse(&view).expect_err("chunk data has no decode arm");
    assert_eq!(err.kind, ErrorKind::UnknownAttributeType(95));
}

#[test]
fn devlink_quirk_chunk_size_shares_region_size_id() {
    // RegionChunkSize emits under the region-size id, so it decodes back as
    // RegionSize: the one spot where the devlink round trip is not identity.
    let chunk = GenlDevlinkAttrs::RegionChunkSize(512);
    assert_eq!(chunk.kind(), 89);
    let mut buf: Vec<u8> = Vec::new();
    emit_nla(&chunk, &mut buf);
    let view = NlaView::new_checked(&buf).expect("record is well-formed");
    let parsed = GenlDevlinkAttrs::parse(&view).expect("the shared id decodes");
    assert_eq!(parsed, GenlDevlinkAttrs::RegionSize(512));
}

#[test]
fn devlink_rejects_overdeep_nesting() {
    // Forty nested levels of the Param id exceed the defensive bound.
    let mut payload: Vec<u8> = Vec::new();
    for _ in 0..40 {
        payload = record(80, &payload);
    }
    let view = NlaView::new_checked(&payload).expect("outer record is well-formed");
    let err = GenlDevlinkAttrs::parse(&view).expect_err("the nesting bound must trip");
    assert_eq!(err.kind, ErrorKind::NestingTooDeep);
}

#[test]
fn devlink_message_parses_with_header_param() {
    let mut buf = record(3, &9u32.to_le_bytes());
    buf.extend_from_slice(&record(7, b"eth0\0"));
    let header = GenlHeader { cmd: 5, version: 1 };
    let msg = GenlDevlink::parse_with_param(&buf, header).expect("payload must decode");
    assert_eq!(msg.cmd, GenlDevlinkCmd::GetPort);
    assert_eq!(
        msg.nldev,
        vec![
            GenlDevlinkAttrs::PortIndex(9),
            GenlDevlinkAttrs::NetdevName("eth0".to_string()),
        ]
    );
}

#[test]
fn devlink_buffer_len_counts_padding() {
    let attr = GenlDevlinkAttrs::BusName("pci".to_string());
    // payload "pci\0" is 4 bytes, header 4: an exactly aligned 8-byte record
    assert_eq!(attr.value_len(), 4);
    let name = GenlDevlinkAttrs::NetdevName("eth0x".to_string());
    assert_eq!(name.value_len(), 6);
    let msg = GenlDevlink { cmd: GenlDevlinkCmd::GetDevices, nldev: vec![attr, name] };
    // 8 + (4 + 6 padded to 12) bytes
    assert_eq!(msg.buffer_len(), 20);
    let mut out: Vec<u8> = Vec::new();
    msg.emit(&mut out);
    assert_eq!(out.len(), 20);
}

#[test]
fn devlink_nested_value_accessor() {
    let children = vec![
        GenlDevlinkAttrs::ParamName("x".to_string()),
        GenlDevlinkAttrs::ParamType(1),
    ];
    let param = GenlDevlinkAttrs::Param(children.clone());
    assert_eq!(param.get_nested_value(), Some(children));
    assert_eq!(GenlDevlinkAttrs::PortIndex(1).get_nested_value(), None);
    // ParamValueData carries a tree even though its wire bit is flat
    assert_eq!(GenlDevlinkAttrs::ParamValueData(vec![]).get_nested_value(), Some(vec![]));
}

#[test]
fn devlink_attribute_names() {
    assert_eq!(GenlDevlinkAttrs::BusName("x".to_string()).get_attribute_name(), "BusName");
    assert_eq!(GenlDevlinkAttrs::RegionMaxSnapshots(1).get_attribute_name(), "RegionMaxSnapshots");
    assert_eq!(
        GenlDevlinkAttrs::ResoureceName("r".to_string()).get_attribute_name(),
        "ResoureceName"
    );
}

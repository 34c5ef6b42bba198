use genl_codec::codec::{buffer_len, emit_nla, NlaValue};
use genl_codec::ctrl::attrs::{parse_ctrl_attrs, GenlCtrlAttrs};
use genl_codec::ctrl::family::{GenlCtrl, GenlCtrlCmd};
use genl_codec::ctrl::mcast::{McastGroup, McastGrpAttrs};
use genl_codec::ctrl::ops::{Op, OpAttrs, OpList};
use genl_codec::err::ErrorKind;
use genl_codec::nla::NlaView;

#[test]
fn mcast_groups_parse() {
    let mcast_bytes: [u8; 24] = [
        24, 0, // Netlink header length
        7, 0, // Netlink header kind (Mcast groups)
        20, 0, // Mcast group nested NLA length
        1, 0, // Mcast group kind
        8, 0, // Id length
        2, 0, // Id kind
        1, 0, 0, 0, // Id
        8, 0, // Name length
        1, 0, // Name kind
        b't', b'e', b's', b't', // Name
    ];
    let nla_buffer = NlaView::new_checked(&mcast_bytes[..]).expect("Failed to create NlaBuffer");
    let result_attr =
        GenlCtrlAttrs::parse(&nla_buffer).expect("Failed to parse encoded McastGroups");
    let expected_attr = GenlCtrlAttrs::McastGroups(vec![vec![
        McastGrpAttrs::Id(1),
        McastGrpAttrs::Name("test".to_string()),
    ]]);
    assert_eq!(expected_attr, result_attr);
}

#[test]
fn mcast_groups_emit() {
    let mcast_attr = GenlCtrlAttrs::McastGroups(vec![
        vec![
            McastGrpAttrs::Id(7),
            McastGrpAttrs::Name("group1".to_string()),
        ],
        vec![
            McastGrpAttrs::Id(8),
            McastGrpAttrs::Name("group2".to_string()),
        ],
    ]);
    let expected_bytes: [u8; 52] = [
        52, 0, // Netlink header length
        7, 0, // Netlink header kind (Mcast groups)
        24, 0, // Mcast group nested NLA length
        1, 0, // Mcast group kind (index 1)
        8, 0, // Id length
        2, 0, // Id kind
        7, 0, 0, 0, // Id
        11, 0, // Name length
        1, 0, // Name kind
        b'g', b'r', b'o', b'u', b'p', b'1', 0, // Name
        0, // mcast group padding
        24, 0, // Mcast group nested NLA length
        2, 0, // Mcast group kind (index 2)
        8, 0, // Id length
        2, 0, // Id kind
        8, 0, 0, 0, // Id
        11, 0, // Name length
        1, 0, // Name kind
        b'g', b'r', b'o', b'u', b'p', b'2', 0, // Name
        0, // padding
    ];
    let mut buf: Vec<u8> = Vec::new();
    emit_nla(&mcast_attr, &mut buf);
    assert_eq!(&expected_bytes[..], &buf[..expected_bytes.len()]);
}

#[test]
fn ops_parse() {
    let ops_bytes: [u8; 24] = [
        24, 0, // Netlink header length
        6, 0, // Netlink header kind (Ops)
        20, 0, // Op nested NLA length
        0, 0, // Op kind
        8, 0, // Id length
        1, 0, // Id kind
        1, 0, 0, 0, // Id
        8, 0, // Flags length
        2, 0, // Flags kind
        123, 0, 0, 0, // Flags
    ];
    let nla_buffer = NlaView::new_checked(&ops_bytes[..]).expect("Failed to create NlaBuffer");
    let result_attr =
        GenlCtrlAttrs::parse(&nla_buffer).expect("Failed to parse encoded McastGroups");
    let expected_attr = GenlCtrlAttrs::Ops(vec![vec![OpAttrs::Id(1), OpAttrs::Flags(123)]]);
    assert_eq!(expected_attr, result_attr);
}

#[test]
fn ops_emit() {
    let ops = GenlCtrlAttrs::Ops(vec![
        vec![OpAttrs::Id(1), OpAttrs::Flags(11)],
        vec![OpAttrs::Id(3), OpAttrs::Flags(33)],
    ]);
    let expected_bytes: [u8; 44] = [
        44, 0, // Netlink header length
        6, 0, // Netlink header kind (Ops)
        20, 0, // Op nested NLA length
        1, 0, // Op kind
        8, 0, // Id length
        1, 0, // Id kind
        1, 0, 0, 0, // Id
        8, 0, // Flags length
        2, 0, // Flags kind
        11, 0, 0, 0, // Flags
        20, 0, // Op nested NLA length
        2, 0, // Op kind
        8, 0, // Id length
        1, 0, // Id kind
        3, 0, 0, 0, // Id
        8, 0, // Flags length
        2, 0, // Flags kind
        33, 0, 0, 0, // Flags
    ];
    let mut buf: Vec<u8> = Vec::new();
    emit_nla(&ops, &mut buf);
    assert_eq!(&expected_bytes[..], &buf[..expected_bytes.len()]);
}

#[test]
fn scalar_attributes_round_trip() {
    let attrs = vec![
        GenlCtrlAttrs::FamilyId(0x1234),
        GenlCtrlAttrs::FamilyName("nl80211".to_string()),
        GenlCtrlAttrs::Version(2),
        GenlCtrlAttrs::HdrSize(0),
        GenlCtrlAttrs::MaxAttr(42),
        GenlCtrlAttrs::Op(7),
    ];
    let mut buf: Vec<u8> = Vec::new();
    for a in &attrs {
        emit_nla(a, &mut buf);
    }
    assert_eq!(buf.len() % 4, 0);
    let parsed = parse_ctrl_attrs(&buf).expect("stream must decode");
    assert_eq!(parsed, attrs);
}

#[test]
fn unaligned_payloads_are_padded_and_skipped() {
    // 8-byte name gives a 12-byte payload and a 16-byte record with no
    // padding; the 5-byte name payload forces 3 padding bytes before the
    // next record starts.
    let attrs = vec![
        GenlCtrlAttrs::FamilyName("genl".to_string()),
        GenlCtrlAttrs::FamilyName("a".to_string()),
        GenlCtrlAttrs::FamilyId(9),
    ];
    let mut buf: Vec<u8> = Vec::new();
    for a in &attrs {
        emit_nla(a, &mut buf);
    }
    // "a" plus NUL is 2 payload bytes: declared length 6, record occupies 8.
    assert_eq!(buf.len() % 4, 0);
    let parsed = parse_ctrl_attrs(&buf).expect("stream must decode");
    assert_eq!(parsed, attrs);
}

#[test]
fn unknown_attribute_is_rejected() {
    // kind 9 is outside this crate's control schema
    let bytes: [u8; 8] = [8, 0, 9, 0, 1, 2, 3, 4];
    let view = NlaView::new_checked(&bytes[..]).expect("record is well-formed");
    let err = GenlCtrlAttrs::parse(&view).expect_err("unknown kind must fail");
    assert_eq!(err.kind, ErrorKind::UnknownAttributeType(9));
}

#[test]
fn short_scalar_is_malformed() {
    // FamilyId wants exactly two bytes; give three
    let bytes: [u8; 8] = [7, 0, 1, 0, 1, 2, 3, 0];
    let view = NlaView::new_checked(&bytes[..]).expect("record is well-formed");
    let err = GenlCtrlAttrs::parse(&view).expect_err("wrong width must fail");
    assert_eq!(err.kind, ErrorKind::MalformedScalar);
}

#[test]
fn invalid_utf8_name_is_malformed() {
    let bytes: [u8; 8] = [7, 0, 2, 0, 0xff, 0xfe, 0, 0];
    let view = NlaView::new_checked(&bytes[..]).expect("record is well-formed");
    let err = GenlCtrlAttrs::parse(&view).expect_err("invalid UTF-8 must fail");
    assert_eq!(err.kind, ErrorKind::MalformedScalar);
}

#[test]
fn nested_payload_as_flat_scalar_fails() {
    // The payload of an Ops list is 20 bytes here; decoded as a u32 it must
    // fail rather than yield a garbage number.
    let ops = GenlCtrlAttrs::Ops(vec![vec![OpAttrs::Id(1), OpAttrs::Flags(2)]]);
    let mut buf: Vec<u8> = Vec::new();
    emit_nla(&ops, &mut buf);
    let view = NlaView::new_checked(&buf[..]).expect("record is well-formed");
    assert_eq!(view.value().len(), 20);
    let err = genl_codec::scalar::parse_u32(view.value().as_slice())
        .expect_err("nested bytes are not a scalar");
    assert_eq!(err.kind, ErrorKind::MalformedScalar);
}

#[test]
fn indexed_kinds_come_from_positions() {
    // The synthetic child kind is the one-based position, whatever index the
    // caller stored.
    let op = Op { index: 5, nlas: vec![OpAttrs::Id(1)] };
    assert_eq!(op.kind(), 6);
    let list = OpList::from(&vec![vec![OpAttrs::Id(1)], vec![OpAttrs::Id(2)]]);
    assert_eq!(list.items().len(), 2);
    assert_eq!(list.items()[0].index, 0);
    assert_eq!(list.items()[1].index, 1);
    let group = McastGroup { index: 2, nlas: vec![] };
    assert_eq!(group.kind(), 3);
}

#[test]
fn empty_indexed_list_emits_nothing_but_header() {
    let ops = GenlCtrlAttrs::Ops(vec![]);
    let mut buf: Vec<u8> = Vec::new();
    emit_nla(&ops, &mut buf);
    assert_eq!(buf, vec![4, 0, 6, 0]);
    assert_eq!(buffer_len(&ops), 4);
}

#[test]
fn record_view_rejects_short_buffers() {
    // fewer than four bytes
    let err = NlaView::new_checked(&[8u8, 0][..]).expect_err("below the record minimum");
    assert_eq!(err.kind, ErrorKind::BufferTooShort);
    // declared length below the four-byte minimum
    let err = NlaView::new_checked(&[2u8, 0, 1, 0][..]).expect_err("degenerate length");
    assert_eq!(err.kind, ErrorKind::BufferTooShort);
    // declared length overruns the slice
    let err = NlaView::new_checked(&[12u8, 0, 1, 0, 1, 2, 3, 4][..]).expect_err("overrun");
    assert_eq!(err.kind, ErrorKind::BufferTooShort);
    // an exactly fitting record passes and masks its flag bits
    let view = NlaView::new_checked(&[8u8, 0, 1, 0x80, 1, 2, 3, 4][..]).expect("well-formed");
    assert_eq!(view.length(), 8);
    assert_eq!(view.kind_raw(), 0x8001);
    assert_eq!(view.kind(), 1);
    assert_eq!(view.value().as_slice(), &[1u8, 2, 3, 4]);
}

#[test]
fn ctrl_command_mapping_is_total() {
    let all = [
        (GenlCtrlCmd::NewFamily, 1u8),
        (GenlCtrlCmd::DelFamily, 2),
        (GenlCtrlCmd::GetFamily, 3),
        (GenlCtrlCmd::NewOps, 4),
        (GenlCtrlCmd::DelOps, 5),
        (GenlCtrlCmd::GetOps, 6),
        (GenlCtrlCmd::NewMcastGrp, 7),
        (GenlCtrlCmd::DelMcastGrp, 8),
        (GenlCtrlCmd::GetMcastGrp, 9),
        (GenlCtrlCmd::GetPolicy, 10),
    ];
    for (cmd, byte) in all {
        assert_eq!(cmd.to_u8(), byte);
        assert_eq!(GenlCtrlCmd::from_u8(byte).expect("closed set"), cmd);
    }
    let err = GenlCtrlCmd::from_u8(200).expect_err("outside the closed set");
    assert_eq!(err.kind, ErrorKind::UnknownCommand(200));
}

#[test]
fn ctrl_dump_capability() {
    assert!(GenlCtrlCmd::GetFamily.dump_capable());
    assert!(GenlCtrlCmd::GetPolicy.dump_capable());
    assert!(!GenlCtrlCmd::NewFamily.dump_capable());
    assert!(!GenlCtrlCmd::GetOps.dump_capable());
}

#[test]
fn ctrl_family_constants() {
    let msg = GenlCtrl { cmd: GenlCtrlCmd::GetFamily, nlas: vec![] };
    assert_eq!(GenlCtrl::family_name(), "nlctrl");
    assert_eq!(msg.family_id(), 16);
    assert_eq!(msg.version(), 2);
    assert_eq!(msg.command(), 3);
}

#[test]
fn name_with_trailing_nul_round_trips() {
    // Emitting appends exactly one NUL; decoding strips exactly one.
    let attr = GenlCtrlAttrs::FamilyName(String::new());
    let mut buf: Vec<u8> = Vec::new();
    emit_nla(&attr, &mut buf);
    assert_eq!(buf, vec![5, 0, 2, 0, 0, 0, 0, 0]);
    let parsed = parse_ctrl_attrs(&buf).expect("stream must decode");
    assert_eq!(parsed, vec![attr]);
}

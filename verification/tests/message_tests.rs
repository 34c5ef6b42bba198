use genl_codec::ctrl::attrs::GenlCtrlAttrs;
use genl_codec::ctrl::family::{GenlCtrl, GenlCtrlCmd};
use genl_codec::err::ErrorKind;
use genl_codec::genl::GenlHeader;
use genl_codec::message::{
    drain_messages, emit_ctrl_message, emit_message, parse_ctrl_payload, DrainOutcome,
    NLMSG_DONE, NLMSG_ERROR, NLM_F_DUMP, NLM_F_MULTI, NLM_F_REQUEST,
};

#[test]
fn getfamily_request_is_bare_header() {
    // A GETFAMILY request with no attributes: the payload is exactly the
    // four-byte generic header, nothing more.
    let msg = GenlCtrl { cmd: GenlCtrlCmd::GetFamily, nlas: vec![] };
    let bytes = emit_ctrl_message(&msg, NLM_F_REQUEST | NLM_F_DUMP, 1, 0);
    assert_eq!(bytes.len(), 20);
    assert_eq!(&bytes[0..4], &20u32.to_le_bytes());
    assert_eq!(&bytes[4..6], &16u16.to_le_bytes());
    assert_eq!(&bytes[6..8], &(NLM_F_REQUEST | NLM_F_DUMP).to_le_bytes());
    assert_eq!(&bytes[8..12], &1u32.to_le_bytes());
    assert_eq!(&bytes[12..16], &0u32.to_le_bytes());
    assert_eq!(&bytes[16..], &[3u8, 2, 0, 0]);
}

#[test]
fn genl_header_reserved_bytes_are_ignored() {
    let header = GenlHeader::parse(&[3u8, 2, 0xde, 0xad]).expect("reserved is never an error");
    assert_eq!(header, GenlHeader { cmd: 3, version: 2 });
    let err = GenlHeader::parse(&[3u8, 2]).expect_err("below the header minimum");
    assert_eq!(err.kind, ErrorKind::BufferTooShort);
}

#[test]
fn ctrl_payload_round_trips_through_envelope() {
    let msg = GenlCtrl {
        cmd: GenlCtrlCmd::NewFamily,
        nlas: vec![
            GenlCtrlAttrs::FamilyId(23),
            GenlCtrlAttrs::FamilyName("devlink".to_string()),
            GenlCtrlAttrs::Version(1),
            GenlCtrlAttrs::HdrSize(0),
        ],
    };
    let bytes = emit_ctrl_message(&msg, NLM_F_MULTI, 7, 99);
    let parsed = parse_ctrl_payload(&bytes[16..]).expect("payload must decode");
    assert_eq!(parsed, msg);
}

#[test]
fn unknown_command_byte_is_fatal() {
    let err = parse_ctrl_payload(&[200u8, 2, 0, 0]).expect_err("command outside the closed set");
    assert_eq!(err.kind, ErrorKind::UnknownCommand(200));
}

#[test]
fn reassembly_delivers_one_record_then_stops_at_done() {
    // One NEWFAMILY message immediately followed by a Done marker in a
    // single receive: exactly one record is delivered and the loop ends
    // without asking for more data.
    let inner = GenlCtrl {
        cmd: GenlCtrlCmd::NewFamily,
        nlas: vec![
            GenlCtrlAttrs::FamilyId(23),
            GenlCtrlAttrs::FamilyName("devlink".to_string()),
        ],
    };
    let mut buf = emit_ctrl_message(&inner, NLM_F_MULTI, 1, 0);
    let done = emit_message(NLMSG_DONE, NLM_F_MULTI, 1, 0, &[0u8; 4]);
    buf.extend_from_slice(&done);
    let (delivered, offset, outcome) = drain_messages(&buf, 0);
    assert_eq!(delivered.len(), 1);
    assert_eq!(delivered[0], inner);
    assert!(matches!(outcome, DrainOutcome::Done));
    assert_eq!(offset, buf.len());
}

#[test]
fn reassembly_asks_for_more_data_without_a_terminator() {
    let inner = GenlCtrl { cmd: GenlCtrlCmd::NewFamily, nlas: vec![GenlCtrlAttrs::FamilyId(16)] };
    let buf = emit_ctrl_message(&inner, NLM_F_MULTI, 1, 0);
    let (delivered, offset, outcome) = drain_messages(&buf, 0);
    assert_eq!(delivered.len(), 1);
    assert_eq!(offset, buf.len());
    assert!(matches!(outcome, DrainOutcome::NeedMoreData));
}

#[test]
fn reassembly_surfaces_kernel_error() {
    // An Error marker carries the kernel's code: a typed outcome, not a
    // local decode failure.
    let code: i32 = -2;
    let mut payload = Vec::new();
    payload.extend_from_slice(&code.to_le_bytes());
    payload.extend_from_slice(&[0u8; 16]);
    let buf = emit_message(NLMSG_ERROR, 0, 1, 0, &payload);
    let (delivered, _offset, outcome) = drain_messages(&buf, 0);
    assert!(delivered.is_empty());
    assert!(matches!(outcome, DrainOutcome::ErrorMessage(-2)));
}

#[test]
fn reassembly_skips_foreign_message_types() {
    // A noop message is neither a marker nor a control payload: it is
    // skipped, and draining continues behind it.
    let noop = emit_message(1, 0, 1, 0, &[0u8; 4]);
    let done = emit_message(NLMSG_DONE, 0, 1, 0, &[0u8; 4]);
    let mut buf = noop;
    buf.extend_from_slice(&done);
    let (delivered, offset, outcome) = drain_messages(&buf, 0);
    assert!(delivered.is_empty());
    assert!(matches!(outcome, DrainOutcome::Done));
    assert_eq!(offset, buf.len());
}

#[test]
fn degenerate_length_is_a_framing_violation() {
    // A declared length below the envelope header is a framing violation,
    // distinct from data-level decode errors; it also guards the loop
    // against a zero-length message.
    let mut buf = vec![0u8; 16];
    buf[0] = 8;
    let (delivered, offset, outcome) = drain_messages(&buf, 0);
    assert!(delivered.is_empty());
    assert_eq!(offset, 0);
    match outcome {
        DrainOutcome::Failed(e) => assert_eq!(e.kind, ErrorKind::FramingViolation),
        other => panic!("expected a framing violation, got {:?}", other),
    }
}

#[test]
fn overrunning_length_is_a_framing_violation() {
    let inner = GenlCtrl { cmd: GenlCtrlCmd::NewFamily, nlas: vec![] };
    let mut buf = emit_ctrl_message(&inner, 0, 1, 0);
    // Declare four more bytes than the buffer holds.
    buf[0] = buf[0] + 4;
    let (_, _, outcome) = drain_messages(&buf, 0);
    match outcome {
        DrainOutcome::Failed(e) => assert_eq!(e.kind, ErrorKind::FramingViolation),
        other => panic!("expected a framing violation, got {:?}", other),
    }
}

#[test]
fn data_error_inside_a_message_stops_reassembly() {
    // A well-framed message whose payload holds an unknown attribute kind
    // fails with the data-level error, not a framing one.
    let payload: Vec<u8> = vec![
        1, 2, 0, 0, // generic header: NEWFAMILY, version 2
        8, 0, 99, 0, 1, 2, 3, 4, // unknown attribute kind 99
    ];
    let buf = emit_message(16, 0, 1, 0, &payload);
    let (delivered, offset, outcome) = drain_messages(&buf, 0);
    assert!(delivered.is_empty());
    assert_eq!(offset, 0);
    match outcome {
        DrainOutcome::Failed(e) => assert_eq!(e.kind, ErrorKind::UnknownAttributeType(99)),
        other => panic!("expected an attribute error, got {:?}", other),
    }
}

//! The outer netlink message envelope, and the client-side reassembly of a
//! receive buffer into discrete messages.
//!
//! An outer message is `length:u32 | type:u16 | flags:u16 | sequence:u32 |
//! port:u32` followed by the payload; for a generic netlink message the
//! payload is the four-byte generic header followed by the attribute stream,
//! and `type` is the family's numeric id.
//!
//! Reassembly walks a buffer of one or more concatenated messages: a `Done`
//! marker ends a dump successfully, an `Error` marker surfaces the kernel's
//! code as a typed outcome, an inner control message is delivered, any other
//! type is skipped, and the cursor advances by each message's self-declared
//! length.  A declared length that is shorter than the envelope header or
//! overruns the buffer is a `FramingViolation`, distinct from the data-level
//! decode errors.

use vstd::prelude::*;
use vstd::bytes::{
    spec_u16_from_le_bytes, spec_u16_to_le_bytes, spec_u32_from_le_bytes, spec_u32_to_le_bytes,
    u16_from_le_bytes, u16_to_le_bytes, u32_from_le_bytes, u32_to_le_bytes,
};
use vstd::slice::slice_subrange;
use crate::codec::{spec_nla_stream_of, NlaValue};
use crate::constants::GENL_ID_CTRL;
use crate::ctrl::family::{
    lemma_ctrl_cmd_round_trip, spec_ctrl_cmd_byte, spec_ctrl_cmd_from, GenlCtrl, GenlCtrlCmd,
    GenlCtrlV,
};
use crate::ctrl::attrs::{lemma_ctrl_stream_round_trip, spec_parse_ctrl_stream, GenlCtrlAttrs};
use crate::err::{ErrorKind, NlError};
use crate::genl::{spec_genl_header, spec_parse_genl_header, GenlHeader};

verus! {

/// The message is a request to the kernel.
pub const NLM_F_REQUEST: u16 = 0x0001;
/// The message is one part of a multi-record answer.
pub const NLM_F_MULTI: u16 = 0x0002;
/// The sender asks for an acknowledgement.
pub const NLM_F_ACK: u16 = 0x0004;
/// The request asks for a full multi-record dump.
pub const NLM_F_DUMP: u16 = 0x0300;

/// Message type: no operation.
pub const NLMSG_NOOP: u16 = 1;
/// Message type: the kernel reports an error or acknowledges a request.
pub const NLMSG_ERROR: u16 = 2;
/// Message type: the end of a multi-record dump.
pub const NLMSG_DONE: u16 = 3;
/// Size of the outer message header.
pub const NLMSG_HDRLEN: usize = 16;

/// The fields of an outer message header.
#[derive(Clone, Copy, Debug, PartialEq, Eq, Structural)]
pub struct NetlinkHeader {
    /// Total message length, header included, unpadded.
    pub length: u32,
    /// The message type: a marker, or a family's numeric id.
    pub message_type: u16,
    pub flags: u16,
    pub sequence: u32,
    /// The sender's port id; zero for the kernel.
    pub port_number: u32,
}

/// The sixteen bytes of an outer message header.
pub open spec fn spec_netlink_header(h: NetlinkHeader) -> Seq<u8> {
    spec_u32_to_le_bytes(h.length) + spec_u16_to_le_bytes(h.message_type) + spec_u16_to_le_bytes(
        h.flags,
    ) + spec_u32_to_le_bytes(h.sequence) + spec_u32_to_le_bytes(h.port_number)
}

/// One whole outer message: its header, with the length computed from the
/// payload, then the payload.
pub open spec fn spec_outer_message(
    message_type: u16,
    flags: u16,
    sequence: u32,
    port: u32,
    payload: Seq<u8>,
) -> Seq<u8> {
    spec_netlink_header(
        NetlinkHeader {
            length: (payload.len() + 16) as u32,
            message_type,
            flags,
            sequence,
            port_number: port,
        },
    ) + payload
}

/// Emits one outer message around the given payload, computing the length
/// field from the payload size plus the fixed header size.
pub fn emit_message(message_type: u16, flags: u16, sequence: u32, port: u32, payload: &[u8]) -> (r:
    Vec<u8>)
    requires
        payload@.len() + 16 <= u32::MAX,
    ensures
        r@ == spec_outer_message(message_type, flags, sequence, port, payload@),
        r@.len() == payload@.len() + 16,
{
    proof {
        vstd::bytes::lemma_auto_spec_u16_to_from_le_bytes();
        vstd::bytes::lemma_auto_spec_u32_to_from_le_bytes();
    }
    let mut out: Vec<u8> = Vec::new();
    let mut b = u32_to_le_bytes((payload.len() + 16) as u32);
    out.append(&mut b);
    let mut b = u16_to_le_bytes(message_type);
    out.append(&mut b);
    let mut b = u16_to_le_bytes(flags);
    out.append(&mut b);
    let mut b = u32_to_le_bytes(sequence);
    out.append(&mut b);
    let mut b = u32_to_le_bytes(port);
    out.append(&mut b);
    out.extend_from_slice(payload);
    proof {
        assert(out@ =~= spec_outer_message(message_type, flags, sequence, port, payload@));
    }
    out
}

/// Emits a whole control family message: the envelope around the generic
/// header and the attribute stream, with `type` set to the controller's id.
pub fn emit_ctrl_message(msg: &GenlCtrl, flags: u16, sequence: u32, port: u32) -> (r: Vec<u8>)
    requires
        msg.wf(),
        msg.body_spec().len() + 20 <= u32::MAX,
    ensures
        r@ == spec_outer_message(
            GENL_ID_CTRL,
            flags,
            sequence,
            port,
            spec_genl_header(spec_ctrl_cmd_byte(msg.cmd), 2) + msg.body_spec(),
        ),
{
    let mut payload: Vec<u8> = Vec::new();
    let header = GenlHeader { cmd: msg.cmd.to_u8(), version: msg.version() };
    header.emit(&mut payload);
    msg.emit(&mut payload);
    emit_message(GENL_ID_CTRL, flags, sequence, port, payload.as_slice())
}

/// A control message payload decoded from its bytes: the generic header's
/// command selects the variant, the attribute stream follows.
pub open spec fn spec_parse_ctrl_payload(p: Seq<u8>) -> Result<GenlCtrlV, ErrorKind> {
    match spec_parse_genl_header(p) {
        Ok(h) => match spec_ctrl_cmd_from(h.cmd) {
            Ok(cmd) => match spec_parse_ctrl_stream(p.skip(4)) {
                Ok(nlas) => Ok(GenlCtrlV { cmd, nlas }),
                Err(e) => Err(e),
            },
            Err(e) => Err(e),
        },
        Err(e) => Err(e),
    }
}

/// Decodes a control message payload: generic header, then attributes.
pub fn parse_ctrl_payload(p: &[u8]) -> (r: Result<GenlCtrl, NlError>)
    ensures
        match r {
            Ok(m) => spec_parse_ctrl_payload(p@) == Ok::<_, ErrorKind>(m@),
            Err(e) => spec_parse_ctrl_payload(p@) == Err::<GenlCtrlV, _>(e.kind),
        },
{
    let header = match GenlHeader::parse(p) {
        Ok(h) => h,
        Err(e) => {
            return Err(e);
        },
    };
    let body = slice_subrange(p, 4, p.len());
    proof {
        assert(body@ =~= p@.skip(4));
    }
    GenlCtrl::parse_with_param(body, header)
}

/// Decoding an emitted control message payload gives back its command and
/// its attribute values, for every command of the closed set and every
/// well-formed attribute list: the round trip of a whole family payload.
pub proof fn lemma_ctrl_payload_round_trip(
    cmd: GenlCtrlCmd,
    version: u8,
    attrs: Seq<GenlCtrlAttrs>,
)
    requires
        forall|i: int|
            0 <= i < attrs.len() ==> (#[trigger] attrs[i]).wf_spec(),
    ensures
        spec_parse_ctrl_payload(
            spec_genl_header(spec_ctrl_cmd_byte(cmd), version) + spec_nla_stream_of(attrs),
        ) == Ok::<_, ErrorKind>(
            GenlCtrlV { cmd, nlas: attrs.map_values(|a: GenlCtrlAttrs| a@) },
        ),
{
    lemma_ctrl_cmd_round_trip(cmd);
    lemma_ctrl_stream_round_trip(attrs);
    let p = spec_genl_header(spec_ctrl_cmd_byte(cmd), version) + spec_nla_stream_of(attrs);
    assert(p.len() >= 4);
    assert(p[0] == spec_ctrl_cmd_byte(cmd));
    assert(p.skip(4) =~= spec_nla_stream_of(attrs));
}

/// How one round of reassembly ended.
#[derive(Debug)]
pub enum DrainOutcome {
    /// The cursor reached the end of the valid bytes without a terminator:
    /// more data is expected from another receive.
    NeedMoreData,
    /// A `Done` marker ended the dump successfully.
    Done,
    /// The kernel reported a protocol error; an expected, typed outcome
    /// carrying the kernel's code, not a local decode failure.
    ErrorMessage(i32),
    /// A framing or data-level decode failure; reassembly cannot continue.
    Failed(NlError),
}

/// The mathematical value of a reassembly outcome.
pub enum DrainOutcomeV {
    NeedMoreData,
    Done,
    ErrorMessage(i32),
    Failed(ErrorKind),
}

impl View for DrainOutcome {
    type V = DrainOutcomeV;

    open spec fn view(&self) -> DrainOutcomeV {
        match self {
            DrainOutcome::NeedMoreData => DrainOutcomeV::NeedMoreData,
            DrainOutcome::Done => DrainOutcomeV::Done,
            DrainOutcome::ErrorMessage(c) => DrainOutcomeV::ErrorMessage(*c),
            DrainOutcome::Failed(e) => DrainOutcomeV::Failed(e.kind),
        }
    }
}

/// The result of draining a buffer of valid bytes from a cursor: the control
/// messages delivered in order, the final cursor, and the outcome.
pub open spec fn spec_drain(b: Seq<u8>, off: int) -> (Seq<GenlCtrlV>, int, DrainOutcomeV)
    decreases b.len() - off,
{
    if off < 0 || off >= b.len() {
        (Seq::empty(), off, DrainOutcomeV::NeedMoreData)
    } else if b.len() - off < 16 {
        (Seq::empty(), off, DrainOutcomeV::Failed(ErrorKind::FramingViolation))
    } else {
        let length = spec_u32_from_le_bytes(b.subrange(off, off + 4)) as int;
        let mtype = spec_u16_from_le_bytes(b.subrange(off + 4, off + 6));
        if length < 16 || length > b.len() - off {
            (Seq::empty(), off, DrainOutcomeV::Failed(ErrorKind::FramingViolation))
        } else {
            let payload = b.subrange(off + 16, off + length);
            if mtype == NLMSG_DONE {
                (Seq::empty(), off + length, DrainOutcomeV::Done)
            } else if mtype == NLMSG_ERROR {
                if payload.len() < 4 {
                    (Seq::empty(), off, DrainOutcomeV::Failed(ErrorKind::BufferTooShort))
                } else {
                    let code = spec_u32_from_le_bytes(payload.subrange(0, 4)) as i32;
                    (Seq::empty(), off + length, DrainOutcomeV::ErrorMessage(code))
                }
            } else if mtype == GENL_ID_CTRL {
                match spec_parse_ctrl_payload(payload) {
                    Ok(m) => {
                        let (rest, fo, oc) = spec_drain(b, off + length);
                        (seq![m] + rest, fo, oc)
                    },
                    Err(e) => (Seq::empty(), off, DrainOutcomeV::Failed(e)),
                }
            } else {
                spec_drain(b, off + length)
            }
        }
    }
}

/// Drains every complete message out of `buf` starting at `start`: decodes
/// one outer message at a time by its self-declared length, delivers each
/// inner control message, and stops on a `Done` or `Error` marker, on a
/// framing or decode failure, or at the end of the buffer, in which case
/// more data is expected.
pub fn drain_messages(buf: &[u8], start: usize) -> (r: (Vec<GenlCtrl>, usize, DrainOutcome))
    requires
        start <= buf@.len(),
    ensures
        ({
            let (ms, fo, oc) = spec_drain(buf@, start as int);
            r.0.deep_view() == ms && r.1 == fo && r.2@ == oc
        }),
{
    let mut delivered: Vec<GenlCtrl> = Vec::new();
    let mut off: usize = start;
    proof {
        assert(delivered.deep_view() =~= Seq::<GenlCtrlV>::empty());
    }
    while off < buf.len()
        invariant
            start <= off <= buf@.len(),
            ({
                let (ms, fo, oc) = spec_drain(buf@, start as int);
                let (ms2, fo2, oc2) = spec_drain(buf@, off as int);
                ms == delivered.deep_view() + ms2 && fo == fo2 && oc == oc2
            }),
        decreases buf@.len() - off,
    {
        let remaining = buf.len() - off;
        if remaining < 16 {
            proof {
                finish_drain(delivered.deep_view());
            }
            return (delivered, off, DrainOutcome::Failed(NlError::new(
                ErrorKind::FramingViolation,
            )));
        }
        let length = u32_from_le_bytes(slice_subrange(buf, off, off + 4));
        let mtype = u16_from_le_bytes(slice_subrange(buf, off + 4, off + 6));
        if length < 16 || length as usize > remaining {
            proof {
                finish_drain(delivered.deep_view());
            }
            return (delivered, off, DrainOutcome::Failed(NlError::new(
                ErrorKind::FramingViolation,
            )));
        }
        let len_us = length as usize;
        let payload = slice_subrange(buf, off + 16, off + len_us);
        proof {
            assert(payload@ =~= buf@.subrange(off as int + 16, off as int + len_us as int));
        }
        if mtype == NLMSG_DONE {
            proof {
                finish_drain(delivered.deep_view());
            }
            return (delivered, off + len_us, DrainOutcome::Done);
        } else if mtype == NLMSG_ERROR {
            if payload.len() < 4 {
                proof {
                    finish_drain(delivered.deep_view());
                }
                return (delivered, off, DrainOutcome::Failed(
                    NlError::new(ErrorKind::BufferTooShort).context("error message"),
                ));
            }
            let code = u32_from_le_bytes(slice_subrange(payload, 0, 4)) as i32;
            proof {
                assert(payload@.subrange(0, 4) =~= buf@.subrange(
                    off as int + 16,
                    off as int + 20,
                ));
                finish_drain(delivered.deep_view());
            }
            return (delivered, off + len_us, DrainOutcome::ErrorMessage(code));
        } else if mtype == GENL_ID_CTRL {
            match parse_ctrl_payload(payload) {
                Ok(m) => {
                    let ghost pre = delivered.deep_view();
                    let ghost mv = m@;
                    delivered.push(m);
                    proof {
                        assert(delivered.deep_view() =~= pre + seq![mv]);
                        let (rest, fo, oc) = spec_drain(buf@, off as int + len_us as int);
                        assert(pre + (seq![mv] + rest) =~= (pre + seq![mv]) + rest);
                    }
                    off = off + len_us;
                },
                Err(e) => {
                    proof {
                        finish_drain(delivered.deep_view());
                    }
                    return (delivered, off, DrainOutcome::Failed(e));
                },
            }
        } else {
            off = off + len_us;
        }
    }
    proof {
        finish_drain(delivered.deep_view());
    }
    (delivered, off, DrainOutcome::NeedMoreData)
}

/// Appending nothing to the delivered messages changes nothing.
proof fn finish_drain(ms: Seq<GenlCtrlV>)
    ensures
        ms + Seq::<GenlCtrlV>::empty() == ms,
{
    assert(ms + Seq::<GenlCtrlV>::empty() =~= ms);
}

} // verus!

//! The attribute view and iterator: one type-length-value record, and a
//! stream of records separated by alignment padding.
//!
//! A record on the wire is `length:u16 | kind:u16 | payload | zero padding`,
//! where `length` counts the four-byte header plus the payload, unpadded, and
//! the record occupies `length` rounded up to the next multiple of four.  Bit
//! 15 of the wire kind marks a nested payload, bit 14 marks network byte
//! order; the numeric attribute type lives in bits 13..0.

use vstd::prelude::*;
use vstd::bytes::*;
use vstd::slice::*;
use crate::err::{ErrorKind, NlError};
use crate::wire::{align4, lemma_align4, push_zeros, spec_align4, zeros};

verus! {

/// Bit 15 of a wire kind: the payload is itself a sequence of records.
pub const NLA_F_NESTED: u16 = 0x8000;
/// Bit 14 of a wire kind: the value is in network byte order.  The codec
/// never sets it on emit.
pub const NLA_F_NET_BYTEORDER: u16 = 0x4000;
/// The bits of a wire kind that carry the numeric attribute type.
pub const NLA_TYPE_MASK: u16 = 0x3fff;

/// The declared, unpadded length of the record at the head of `b`.
pub open spec fn nla_len_of(b: Seq<u8>) -> u16
    recommends
        b.len() >= 2,
{
    spec_u16_from_le_bytes(b.subrange(0, 2))
}

/// The raw wire kind of the record at the head of `b`, flag bits included.
pub open spec fn nla_kind_of(b: Seq<u8>) -> u16
    recommends
        b.len() >= 4,
{
    spec_u16_from_le_bytes(b.subrange(2, 4))
}

/// True when `b` starts with a well-formed record: room for the header, a
/// declared length of at least the header size, and no overrun of `b`.
pub open spec fn nla_ok(b: Seq<u8>) -> bool {
    b.len() >= 4 && nla_len_of(b) >= 4 && nla_len_of(b) <= b.len()
}

/// The payload of the record at the head of `b`.
pub open spec fn nla_payload_of(b: Seq<u8>) -> Seq<u8>
    recommends
        nla_ok(b),
{
    b.subrange(4, nla_len_of(b) as int)
}

/// How many bytes of `b` the head record occupies, padding included.  The
/// last record of a buffer may end without its padding.
pub open spec fn nla_step_of(b: Seq<u8>) -> int
    recommends
        nla_ok(b),
{
    if spec_align4(nla_len_of(b) as int) <= b.len() {
        spec_align4(nla_len_of(b) as int)
    } else {
        b.len() as int
    }
}

/// One validated attribute record, sliced out of a byte buffer.
#[derive(Debug)]
pub struct NlaView {
    /// Declared length: header plus payload, unpadded.
    pub length: u16,
    /// Wire kind as read, flag bits included.
    pub kind_raw: u16,
    /// The payload bytes, padding excluded.
    pub payload: Vec<u8>,
}

impl NlaView {
    /// Internal consistency of a view.
    pub open spec fn wf(&self) -> bool {
        self.length >= 4 && self.payload@.len() == self.length - 4
    }

    /// The pair a record contributes to a parsed stream: its raw kind and
    /// its payload.
    pub open spec fn rec(&self) -> (u16, Seq<u8>) {
        (self.kind_raw, self.payload@)
    }

    /// Validates and slices the record at the head of `slice`.  Fails with
    /// `BufferTooShort` when fewer than four bytes remain, when the declared
    /// length is below the four-byte minimum, or when it overruns `slice`.
    pub fn new_checked(slice: &[u8]) -> (r: Result<NlaView, NlError>)
        ensures
            match r {
                Ok(v) => {
                    &&& nla_ok(slice@)
                    &&& v.wf()
                    &&& v.length == nla_len_of(slice@)
                    &&& v.kind_raw == nla_kind_of(slice@)
                    &&& v.payload@ == nla_payload_of(slice@)
                },
                Err(e) => !nla_ok(slice@) && e.kind == ErrorKind::BufferTooShort,
            },
    {
        if slice.len() < 4 {
            return Err(NlError::new(ErrorKind::BufferTooShort));
        }
        let length = u16_from_le_bytes(slice_subrange(slice, 0, 2));
        let kind_raw = u16_from_le_bytes(slice_subrange(slice, 2, 4));
        if length < 4 || (length as usize) > slice.len() {
            return Err(NlError::new(ErrorKind::BufferTooShort));
        }
        let payload = slice_to_vec(slice_subrange(slice, 4, length as usize));
        Ok(NlaView { length, kind_raw, payload })
    }

    /// The declared, unpadded length.
    pub fn length(&self) -> (r: u16)
        ensures
            r == self.length,
    {
        self.length
    }

    /// The wire kind with its flag bits.
    pub fn kind_raw(&self) -> (r: u16)
        ensures
            r == self.kind_raw,
    {
        self.kind_raw
    }

    /// The semantic attribute type: the wire kind with bits 15 and 14
    /// masked away.
    pub fn kind(&self) -> (r: u16)
        ensures
            r == self.kind_raw & NLA_TYPE_MASK,
    {
        self.kind_raw & NLA_TYPE_MASK
    }

    /// The payload bytes.
    pub fn value(&self) -> (r: &Vec<u8>)
        ensures
            r@ == self.payload@,
    {
        &self.payload
    }
}

/// The records of a buffer: each record's raw kind and payload, in order,
/// with padding skipped between records.  Any malformed record aborts the
/// whole iteration with the first error.
pub open spec fn spec_nla_stream(b: Seq<u8>) -> Result<Seq<(u16, Seq<u8>)>, ErrorKind>
    decreases b.len(),
{
    if b.len() == 0 {
        Ok(Seq::empty())
    } else if !nla_ok(b) {
        Err(ErrorKind::BufferTooShort)
    } else {
        match spec_nla_stream(b.subrange(nla_step_of(b), b.len() as int)) {
            Ok(rest) => Ok(seq![(nla_kind_of(b), nla_payload_of(b))] + rest),
            Err(e) => Err(e),
        }
    }
}

/// The record pairs of a sequence of views.
pub open spec fn recs_of(vs: Seq<NlaView>) -> Seq<(u16, Seq<u8>)> {
    vs.map_values(|v: NlaView| v.rec())
}

/// Splits `buf` into its attribute records, skipping alignment padding
/// between records; the first malformed record aborts the iteration.
pub fn parse_nla_stream(buf: &[u8]) -> (r: Result<Vec<NlaView>, NlError>)
    ensures
        match r {
            Ok(vs) => {
                &&& spec_nla_stream(buf@) == Ok::<_, ErrorKind>(recs_of(vs@))
                &&& forall|i: int| 0 <= i < vs@.len() ==> #[trigger] vs@[i].wf()
            },
            Err(e) => spec_nla_stream(buf@) == Err::<Seq<(u16, Seq<u8>)>, _>(e.kind),
        },
{
    let mut out: Vec<NlaView> = Vec::new();
    let mut off: usize = 0;
    proof {
        assert(buf@.subrange(0, buf@.len() as int) =~= buf@);
        if spec_nla_stream(buf@) is Ok {
            assert(recs_of(out@) + spec_nla_stream(buf@)->Ok_0 =~= spec_nla_stream(buf@)->Ok_0);
        }
    }
    while off < buf.len()
        invariant
            off <= buf.len(),
            forall|i: int| 0 <= i < out@.len() ==> #[trigger] out@[i].wf(),
            match spec_nla_stream(buf@.subrange(off as int, buf@.len() as int)) {
                Ok(rest) => spec_nla_stream(buf@) == Ok::<_, ErrorKind>(recs_of(out@) + rest),
                Err(e) => spec_nla_stream(buf@) == Err::<Seq<(u16, Seq<u8>)>, _>(e),
            },
        decreases buf@.len() - off,
    {
        let rem = slice_subrange(buf, off, buf.len());
        let ghost remv = buf@.subrange(off as int, buf@.len() as int);
        match NlaView::new_checked(rem) {
            Err(e) => {
                return Err(e);
            },
            Ok(v) => {
                let aligned = align4(v.length as usize);
                let step: usize = if aligned <= rem.len() {
                    aligned
                } else {
                    rem.len()
                };
                proof {
                    lemma_align4(v.length as int);
                    assert(step == nla_step_of(remv));
                    assert(remv.subrange(nla_step_of(remv), remv.len() as int) =~= buf@.subrange(
                        off as int + step as int,
                        buf@.len() as int,
                    ));
                }
                let ghost old_out = out@;
                out.push(v);
                proof {
                    assert(recs_of(out@) =~= recs_of(old_out) + seq![v.rec()]);
                    assert(forall|x: Seq<(u16, Seq<u8>)>|
                        (recs_of(old_out) + seq![v.rec()]) + x =~= recs_of(old_out) + (seq![
                            v.rec(),
                        ] + x));
                }
                off = off + step;
            },
        }
    }
    proof {
        assert(buf@.subrange(off as int, buf@.len() as int) =~= Seq::<u8>::empty());
        assert(recs_of(out@) + Seq::<(u16, Seq<u8>)>::empty() =~= recs_of(out@));
    }
    Ok(out)
}

/// The bytes of one emitted record: little-endian length and wire kind, the
/// payload, then zero padding up to the next multiple of four.
pub open spec fn spec_nla_record(kind_raw: u16, payload: Seq<u8>) -> Seq<u8>
    recommends
        payload.len() + 4 <= u16::MAX,
{
    spec_u16_to_le_bytes((payload.len() + 4) as u16) + spec_u16_to_le_bytes(kind_raw) + payload
        + zeros(spec_align4(payload.len() as int + 4) - (payload.len() as int + 4))
}

/// The wire kind an emit writes: the semantic kind, with bit 15 set when the
/// value is nested.
pub open spec fn spec_wire_kind(kind: u16, nested: bool) -> u16 {
    if nested {
        kind | NLA_F_NESTED
    } else {
        kind
    }
}

/// Masking facts about wire kinds whose numeric type fits bits 13..0: the
/// mask recovers the type whether or not the nested bit was set, and setting
/// the nested bit is visible in bit 15.
pub proof fn lemma_kind_mask(k: u16)
    requires
        k <= 0x3fff,
    ensures
        k & NLA_TYPE_MASK == k,
        spec_wire_kind(k, false) == k,
        spec_wire_kind(k, true) & NLA_TYPE_MASK == k,
        spec_wire_kind(k, true) & NLA_F_NESTED != 0,
        spec_wire_kind(k, false) & NLA_F_NESTED == 0,
{
    assert(k <= 0x3fff ==> (k & 0x3fff) == k) by (bit_vector);
    assert(k <= 0x3fff ==> ((k | 0x8000) & 0x3fff) == k) by (bit_vector);
    assert((k | 0x8000) & 0x8000 != 0) by (bit_vector);
    assert(k <= 0x3fff ==> (k & 0x8000) == 0) by (bit_vector);
}

/// An emitted record occupies the declared length rounded up to a multiple
/// of four.
pub proof fn lemma_nla_record_len(kind_raw: u16, payload: Seq<u8>)
    requires
        payload.len() + 4 <= u16::MAX,
    ensures
        spec_nla_record(kind_raw, payload).len() == spec_align4(payload.len() as int + 4),
        spec_nla_record(kind_raw, payload).len() % 4 == 0,
{
    lemma_auto_spec_u16_to_from_le_bytes();
    lemma_align4(payload.len() as int + 4);
}

/// Appends one record to `out`: header, payload, zero padding.
pub fn emit_nla_record(out: &mut Vec<u8>, kind_raw: u16, payload: &[u8])
    requires
        payload@.len() + 4 <= u16::MAX,
    ensures
        final(out)@ == old(out)@ + spec_nla_record(kind_raw, payload@),
{
    proof {
        lemma_auto_spec_u16_to_from_le_bytes();
        lemma_align4(payload@.len() as int + 4);
    }
    let total: usize = payload.len() + 4;
    let mut header = u16_to_le_bytes(total as u16);
    out.append(&mut header);
    let mut kind_bytes = u16_to_le_bytes(kind_raw);
    out.append(&mut kind_bytes);
    out.extend_from_slice(payload);
    let pad: usize = align4(total) - total;
    push_zeros(out, pad);
    proof {
        assert(out@ =~= old(out)@ + spec_nla_record(kind_raw, payload@));
    }
}

/// A buffer that starts with one emitted record has that record at its
/// head: the declared length, kind and payload read back, and the head
/// record's padded extent ends exactly where `rest` begins.
pub proof fn lemma_nla_record_head(kind_raw: u16, payload: Seq<u8>, rest: Seq<u8>)
    requires
        payload.len() + 4 <= u16::MAX,
    ensures
        ({
            let whole = spec_nla_record(kind_raw, payload) + rest;
            &&& nla_ok(whole)
            &&& nla_len_of(whole) == payload.len() + 4
            &&& nla_kind_of(whole) == kind_raw
            &&& nla_payload_of(whole) == payload
            &&& nla_step_of(whole) == spec_align4(payload.len() as int + 4)
            &&& whole.subrange(nla_step_of(whole), whole.len() as int) == rest
        }),
{
    lemma_auto_spec_u16_to_from_le_bytes();
    lemma_align4(payload.len() as int + 4);
    let whole = spec_nla_record(kind_raw, payload) + rest;
    let declared = payload.len() as int + 4;
    let reclen = spec_align4(declared);
    assert(whole.subrange(0, 2) =~= spec_u16_to_le_bytes(declared as u16));
    assert(nla_len_of(whole) == declared);
    assert(whole.subrange(2, 4) =~= spec_u16_to_le_bytes(kind_raw));
    assert(nla_kind_of(whole) == kind_raw);
    assert(nla_ok(whole));
    assert(nla_payload_of(whole) =~= payload);
    assert(nla_step_of(whole) == reclen);
    assert(whole.subrange(reclen, whole.len() as int) =~= rest);
}

/// Parsing a buffer that starts with one emitted record yields that record's
/// kind and payload followed by the records of the rest of the buffer.
pub proof fn lemma_nla_stream_cons(kind_raw: u16, payload: Seq<u8>, rest: Seq<u8>)
    requires
        payload.len() + 4 <= u16::MAX,
    ensures
        match spec_nla_stream(rest) {
            Ok(tail) => spec_nla_stream(spec_nla_record(kind_raw, payload) + rest) == Ok::<
                _,
                ErrorKind,
            >(seq![(kind_raw, payload)] + tail),
            Err(e) => spec_nla_stream(spec_nla_record(kind_raw, payload) + rest) == Err::<
                Seq<(u16, Seq<u8>)>,
                _,
            >(e),
        },
{
    lemma_nla_record_head(kind_raw, payload, rest);
    let whole = spec_nla_record(kind_raw, payload) + rest;
    match spec_nla_stream(rest) {
        Ok(tail) => {
            assert(spec_nla_stream(whole) == Ok::<_, ErrorKind>(
                seq![(kind_raw, payload)] + tail,
            ));
        },
        Err(e) => {},
    }
}

} // verus!

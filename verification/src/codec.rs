//! The codec capability: the contract a typed attribute value implements so
//! that the generic emit routine can frame it as a record.
//!
//! A value reports its semantic kind, whether its payload is nested, and its
//! exact payload bytes; the generic routine writes the header, sets bit 15 of
//! the wire kind when the value is nested, and pads the record to the next
//! four-byte boundary with zeros, while the header still stores the unpadded
//! total.

use vstd::prelude::*;
use vstd::bytes::{lemma_auto_spec_u16_to_from_le_bytes, spec_u16_to_le_bytes};
use crate::nla::{
    emit_nla_record, lemma_kind_mask, lemma_nla_record_len, lemma_nla_stream_cons, nla_kind_of,
    spec_nla_record, spec_nla_stream, spec_wire_kind, NLA_F_NESTED,
};
use crate::err::ErrorKind;
use crate::wire::{align4, spec_align4};

verus! {

/// The contract of one encodable attribute value.
pub trait NlaValue: Sized {
    /// Structural and size conditions under which the value can be emitted.
    spec fn wf_spec(&self) -> bool;

    /// The semantic attribute id, excluding the nested and byte-order bits.
    spec fn kind_spec(&self) -> u16;

    /// Whether the payload is itself a concatenation of child records.
    spec fn nested_spec(&self) -> bool;

    /// The exact unpadded payload bytes.
    spec fn payload_spec(&self) -> Seq<u8>;

    /// A well-formed value's payload fits a record's length field.
    proof fn lemma_payload_fits(&self)
        requires
            self.wf_spec(),
        ensures
            self.payload_spec().len() + 4 <= u16::MAX,
    ;

    /// The semantic attribute id.
    fn kind(&self) -> (k: u16)
        requires
            self.wf_spec(),
        ensures
            k == self.kind_spec(),
    ;

    /// True when the payload is itself a sequence of child records.
    fn is_nested(&self) -> (n: bool)
        requires
            self.wf_spec(),
        ensures
            n == self.nested_spec(),
    ;

    /// The exact unpadded payload byte count.
    fn value_len(&self) -> (n: usize)
        requires
            self.wf_spec(),
        ensures
            n == self.payload_spec().len(),
    ;

    /// Appends exactly the payload bytes to `out`.
    fn emit_value(&self, out: &mut Vec<u8>)
        requires
            self.wf_spec(),
        ensures
            final(out)@ == old(out)@ + self.payload_spec(),
    ;
}

/// The bytes of the record a value is framed as.
pub open spec fn spec_nla_of<T: NlaValue>(v: T) -> Seq<u8> {
    spec_nla_record(spec_wire_kind(v.kind_spec(), v.nested_spec()), v.payload_spec())
}

/// The record pair a framed value parses back to.
pub open spec fn spec_rec_of<T: NlaValue>(v: T) -> (u16, Seq<u8>) {
    (spec_wire_kind(v.kind_spec(), v.nested_spec()), v.payload_spec())
}

/// How many buffer bytes the record of `v` occupies, padding included.
pub open spec fn spec_buffer_len<T: NlaValue>(v: T) -> int {
    spec_align4(v.payload_spec().len() as int + 4)
}

/// The record size of one value: its declared length rounded up to a
/// multiple of four.
pub fn buffer_len<T: NlaValue>(v: &T) -> (n: usize)
    requires
        v.wf_spec(),
    ensures
        n == spec_buffer_len(*v),
        n == spec_nla_of(*v).len(),
        n % 4 == 0,
{
    proof {
        v.lemma_payload_fits();
        lemma_nla_record_len(spec_wire_kind(v.kind_spec(), v.nested_spec()), v.payload_spec());
    }
    align4(v.value_len() + 4)
}

/// Frames one value as a record and appends it to `out`: header with the
/// wire kind (bit 15 set when nested), payload, zero padding.
pub fn emit_nla<T: NlaValue>(v: &T, out: &mut Vec<u8>)
    requires
        v.wf_spec(),
    ensures
        final(out)@ == old(out)@ + spec_nla_of(*v),
{
    proof {
        v.lemma_payload_fits();
        lemma_nla_record_len(spec_wire_kind(v.kind_spec(), v.nested_spec()), v.payload_spec());
    }
    let mut payload: Vec<u8> = Vec::new();
    v.emit_value(&mut payload);
    let k = v.kind();
    let wire: u16 = if v.is_nested() {
        k | NLA_F_NESTED
    } else {
        k
    };
    emit_nla_record(out, wire, payload.as_slice());
}

/// The concatenated records of `vs[i..]`.
pub open spec fn spec_nla_seq<T: NlaValue>(vs: Seq<T>, i: int) -> Seq<u8>
    decreases vs.len() - i,
{
    if i < 0 || i >= vs.len() {
        Seq::empty()
    } else {
        spec_nla_of(vs[i]) + spec_nla_seq(vs, i + 1)
    }
}

/// The concatenated records of a whole sequence of values: the byte form of
/// one attribute tree level.
pub open spec fn spec_nla_stream_of<T: NlaValue>(vs: Seq<T>) -> Seq<u8> {
    spec_nla_seq(vs, 0)
}

/// Every element can be emitted.
pub open spec fn all_wf<T: NlaValue>(vs: Seq<T>) -> bool {
    forall|i: int| 0 <= i < vs.len() ==> #[trigger] vs[i].wf_spec()
}

/// Emits each value of `vs` in order, each framed as a record.
pub fn emit_nla_stream<T: NlaValue>(vs: &[T], out: &mut Vec<u8>)
    requires
        all_wf(vs@),
    ensures
        final(out)@ == old(out)@ + spec_nla_stream_of(vs@),
{
    let n = vs.len();
    let mut i: usize = 0;
    while i < n
        invariant
            0 <= i <= n,
            n == vs@.len(),
            all_wf(vs@),
            out@ + spec_nla_seq(vs@, i as int) == old(out)@ + spec_nla_stream_of(vs@),
        decreases n - i,
    {
        let v = vstd::slice::slice_index_get(vs, i);
        let ghost pre = out@;
        proof {
            assert(spec_nla_seq(vs@, i as int) == spec_nla_of(vs@[i as int]) + spec_nla_seq(
                vs@,
                i as int + 1,
            ));
        }
        emit_nla(v, out);
        proof {
            assert((pre + spec_nla_of(vs@[i as int])) + spec_nla_seq(vs@, i as int + 1) =~= pre
                + spec_nla_seq(vs@, i as int));
        }
        i = i + 1;
    }
    proof {
        assert(out@ + spec_nla_seq(vs@, n as int) =~= out@);
    }
}

/// The total buffer size of a stream of values.
pub fn stream_buffer_len<T: NlaValue>(vs: &[T]) -> (n: usize)
    requires
        all_wf(vs@),
        spec_nla_stream_of(vs@).len() <= usize::MAX,
    ensures
        n == spec_nla_stream_of(vs@).len(),
{
    let count = vs.len();
    let mut n: usize = 0;
    let mut i: usize = 0;
    while i < count
        invariant
            0 <= i <= count,
            count == vs@.len(),
            all_wf(vs@),
            spec_nla_stream_of(vs@).len() <= usize::MAX,
            n + spec_nla_seq(vs@, i as int).len() == spec_nla_stream_of(vs@).len(),
        decreases count - i,
    {
        let v = vstd::slice::slice_index_get(vs, i);
        proof {
            assert(spec_nla_seq(vs@, i as int) == spec_nla_of(vs@[i as int]) + spec_nla_seq(
                vs@,
                i as int + 1,
            ));
        }
        let b = buffer_len(v);
        n = n + b;
        i = i + 1;
    }
    n
}

/// Parsing the emitted records of `vs[i..]` yields exactly their record
/// pairs.
proof fn lemma_nla_seq_parses<T: NlaValue>(vs: Seq<T>, i: int)
    requires
        all_wf(vs),
        0 <= i <= vs.len(),
    ensures
        spec_nla_stream(spec_nla_seq(vs, i)) == Ok::<_, ErrorKind>(
            vs.skip(i).map_values(|v: T| spec_rec_of(v)),
        ),
    decreases vs.len() - i,
{
    if i == vs.len() {
        assert(spec_nla_seq(vs, i) =~= Seq::<u8>::empty());
        assert(vs.skip(i).map_values(|v: T| spec_rec_of(v)) =~= Seq::<(u16, Seq<u8>)>::empty());
    } else {
        lemma_nla_seq_parses(vs, i + 1);
        vs[i].lemma_payload_fits();
        let wire = spec_wire_kind(vs[i].kind_spec(), vs[i].nested_spec());
        lemma_nla_stream_cons(wire, vs[i].payload_spec(), spec_nla_seq(vs, i + 1));
        assert(vs.skip(i).map_values(|v: T| spec_rec_of(v)) =~= seq![spec_rec_of(vs[i])] + vs.skip(
            i + 1,
        ).map_values(|v: T| spec_rec_of(v)));
    }
}

/// Record-level round trip: splitting the emitted stream of any well-formed
/// values yields exactly their wire kinds and payloads, in order, whatever
/// padding the values' sizes forced in between.
pub proof fn lemma_stream_round_trip<T: NlaValue>(vs: Seq<T>)
    requires
        all_wf(vs),
    ensures
        spec_nla_stream(spec_nla_stream_of(vs)) == Ok::<_, ErrorKind>(
            vs.map_values(|v: T| spec_rec_of(v)),
        ),
{
    lemma_nla_seq_parses(vs, 0);
    assert(vs.skip(0) =~= vs);
}

/// Nested-bit propagation: the record of a value whose payload is nested
/// carries bit 15 in its stored wire kind, and the record of a flat value
/// does not, for every value whose semantic kind fits the fourteen type
/// bits.
pub proof fn lemma_nested_bit<T: NlaValue>(v: T)
    requires
        v.wf_spec(),
        v.kind_spec() <= 0x3fff,
    ensures
        nla_kind_of(spec_nla_of(v)) == spec_wire_kind(v.kind_spec(), v.nested_spec()),
        v.nested_spec() ==> nla_kind_of(spec_nla_of(v)) & NLA_F_NESTED != 0,
        !v.nested_spec() ==> nla_kind_of(spec_nla_of(v)) & NLA_F_NESTED == 0,
{
    v.lemma_payload_fits();
    lemma_auto_spec_u16_to_from_le_bytes();
    lemma_kind_mask(v.kind_spec());
    let wire = spec_wire_kind(v.kind_spec(), v.nested_spec());
    assert(spec_nla_of(v).subrange(2, 4) =~= spec_u16_to_le_bytes(wire));
}

/// The emitted stream of well-formed values is a multiple of four long.
pub proof fn lemma_stream_aligned<T: NlaValue>(vs: Seq<T>, i: int)
    requires
        all_wf(vs),
        0 <= i <= vs.len(),
    ensures
        spec_nla_seq(vs, i).len() % 4 == 0,
    decreases vs.len() - i,
{
    if i < vs.len() {
        lemma_stream_aligned(vs, i + 1);
        vs[i].lemma_payload_fits();
        lemma_nla_record_len(
            spec_wire_kind(vs[i].kind_spec(), vs[i].nested_spec()),
            vs[i].payload_spec(),
        );
    }
}

} // verus!

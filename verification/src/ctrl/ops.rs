//! The `Ops` list of the control family: each operation a family supports,
//! reported as an indexed nested list of `{ id, flags }` entries.

use vstd::prelude::*;
use vstd::bytes::{lemma_auto_spec_u32_to_from_le_bytes, spec_u32_to_le_bytes, u32_to_le_bytes};
use crate::codec::{lemma_stream_round_trip, spec_nla_stream_of, spec_rec_of, NlaValue};
use crate::constants::{CTRL_ATTR_OP_FLAGS, CTRL_ATTR_OP_ID};
use crate::err::{ErrorKind, NlError};
use crate::indexed::{indexed_wf, lemma_indexed_list_records, spec_indexed_list_payload};
use crate::nla::{
    lemma_kind_mask, parse_nla_stream, recs_of, spec_nla_stream, spec_wire_kind, NlaView,
    NLA_TYPE_MASK,
};
use crate::scalar::{lemma_u32_round_trip, parse_u32, spec_parse_u32};

verus! {

/// One attribute of an operation entry.
#[derive(Clone, Copy, Debug, PartialEq, Eq, Structural)]
pub enum OpAttrs {
    /// The operation's command id.
    Id(u32),
    /// The operation's capability flags.
    Flags(u32),
}

impl DeepView for OpAttrs {
    type V = OpAttrs;

    open spec fn deep_view(&self) -> OpAttrs {
        *self
    }
}

impl NlaValue for OpAttrs {
    open spec fn wf_spec(&self) -> bool {
        true
    }

    open spec fn kind_spec(&self) -> u16 {
        match self {
            OpAttrs::Id(_) => CTRL_ATTR_OP_ID,
            OpAttrs::Flags(_) => CTRL_ATTR_OP_FLAGS,
        }
    }

    open spec fn nested_spec(&self) -> bool {
        false
    }

    open spec fn payload_spec(&self) -> Seq<u8> {
        match self {
            OpAttrs::Id(v) => spec_u32_to_le_bytes(*v),
            OpAttrs::Flags(v) => spec_u32_to_le_bytes(*v),
        }
    }

    proof fn lemma_payload_fits(&self) {
        lemma_auto_spec_u32_to_from_le_bytes();
    }

    fn kind(&self) -> (k: u16) {
        match self {
            OpAttrs::Id(_) => CTRL_ATTR_OP_ID,
            OpAttrs::Flags(_) => CTRL_ATTR_OP_FLAGS,
        }
    }

    fn is_nested(&self) -> (n: bool) {
        false
    }

    fn value_len(&self) -> (n: usize) {
        proof {
            lemma_auto_spec_u32_to_from_le_bytes();
        }
        4
    }

    fn emit_value(&self, out: &mut Vec<u8>) {
        match self {
            OpAttrs::Id(v) => {
                let mut b = u32_to_le_bytes(*v);
                out.append(&mut b);
            },
            OpAttrs::Flags(v) => {
                let mut b = u32_to_le_bytes(*v);
                out.append(&mut b);
            },
        }
    }
}

/// The operation attribute a masked kind and payload decode to.
pub open spec fn spec_parse_op_attr(kind: u16, p: Seq<u8>) -> Result<OpAttrs, ErrorKind> {
    if kind == CTRL_ATTR_OP_ID {
        match spec_parse_u32(p) {
            Ok(v) => Ok(OpAttrs::Id(v)),
            Err(e) => Err(e),
        }
    } else if kind == CTRL_ATTR_OP_FLAGS {
        match spec_parse_u32(p) {
            Ok(v) => Ok(OpAttrs::Flags(v)),
            Err(e) => Err(e),
        }
    } else {
        Err(ErrorKind::UnknownAttributeType(kind))
    }
}

impl OpAttrs {
    /// Decodes one operation attribute from a validated record, dispatching
    /// on the record's kind with its flag bits masked away.  An id outside
    /// the schema is `UnknownAttributeType`; a payload that is not exactly
    /// four bytes is `MalformedScalar`.
    pub fn parse(buf: &NlaView) -> (r: Result<OpAttrs, NlError>)
        ensures
            match r {
                Ok(a) => spec_parse_op_attr(buf.kind_raw & NLA_TYPE_MASK, buf.payload@) == Ok::<
                    _,
                    ErrorKind,
                >(a),
                Err(e) => spec_parse_op_attr(buf.kind_raw & NLA_TYPE_MASK, buf.payload@) == Err::<
                    OpAttrs,
                    _,
                >(e.kind),
            },
    {
        let kind = buf.kind();
        if kind == CTRL_ATTR_OP_ID {
            match parse_u32(buf.value().as_slice()) {
                Ok(v) => Ok(OpAttrs::Id(v)),
                Err(e) => Err(e.context("CTRL_ATTR_OP_ID")),
            }
        } else if kind == CTRL_ATTR_OP_FLAGS {
            match parse_u32(buf.value().as_slice()) {
                Ok(v) => Ok(OpAttrs::Flags(v)),
                Err(e) => Err(e.context("CTRL_ATTR_OP_FLAGS")),
            }
        } else {
            Err(NlError::new(ErrorKind::UnknownAttributeType(kind)))
        }
    }
}

/// The operation attributes a parsed record sequence decodes to; the first
/// failing record aborts the whole entry.
pub open spec fn spec_parse_op_attrs_recs(recs: Seq<(u16, Seq<u8>)>) -> Result<
    Seq<OpAttrs>,
    ErrorKind,
>
    decreases recs.len(),
{
    if recs.len() == 0 {
        Ok(Seq::empty())
    } else {
        match spec_parse_op_attr(recs[0].0 & NLA_TYPE_MASK, recs[0].1) {
            Ok(a) => match spec_parse_op_attrs_recs(recs.drop_first()) {
                Ok(rest) => Ok(seq![a] + rest),
                Err(e) => Err(e),
            },
            Err(e) => Err(e),
        }
    }
}

/// One entry's payload decoded as a stream of operation attributes.
pub open spec fn spec_parse_op_entry(p: Seq<u8>) -> Result<Seq<OpAttrs>, ErrorKind> {
    match spec_nla_stream(p) {
        Ok(recs) => spec_parse_op_attrs_recs(recs),
        Err(e) => Err(e),
    }
}

/// The entries of an indexed list payload: each record's payload is decoded
/// as one entry; the record kinds are ignored beyond presence, position
/// being implied by wire order.
pub open spec fn spec_parse_op_entries_recs(recs: Seq<(u16, Seq<u8>)>) -> Result<
    Seq<Seq<OpAttrs>>,
    ErrorKind,
>
    decreases recs.len(),
{
    if recs.len() == 0 {
        Ok(Seq::empty())
    } else {
        match spec_parse_op_entry(recs[0].1) {
            Ok(entry) => match spec_parse_op_entries_recs(recs.drop_first()) {
                Ok(rest) => Ok(seq![entry] + rest),
                Err(e) => Err(e),
            },
            Err(e) => Err(e),
        }
    }
}

/// A whole `Ops` payload decoded to its list of entries.
pub open spec fn spec_parse_op_list(p: Seq<u8>) -> Result<Seq<Seq<OpAttrs>>, ErrorKind> {
    match spec_nla_stream(p) {
        Ok(recs) => spec_parse_op_entries_recs(recs),
        Err(e) => Err(e),
    }
}

/// Decodes one entry's payload: a stream of operation attributes.
pub fn parse_op_entry(p: &[u8]) -> (r: Result<Vec<OpAttrs>, NlError>)
    ensures
        match r {
            Ok(v) => spec_parse_op_entry(p@) == Ok::<_, ErrorKind>(v@),
            Err(e) => spec_parse_op_entry(p@) == Err::<Seq<OpAttrs>, _>(e.kind),
        },
{
    let views = match parse_nla_stream(p) {
        Ok(vs) => vs,
        Err(e) => {
            return Err(e);
        },
    };
    let ghost recs = recs_of(views@);
    let mut out: Vec<OpAttrs> = Vec::new();
    let mut j: usize = 0;
    proof {
        assert(recs.skip(0) =~= recs);
    }
    while j < views.len()
        invariant
            0 <= j <= views@.len(),
            recs == recs_of(views@),
            spec_nla_stream(p@) == Ok::<_, ErrorKind>(recs),
            match spec_parse_op_attrs_recs(recs.skip(j as int)) {
                Ok(rest) => spec_parse_op_attrs_recs(recs) == Ok::<_, ErrorKind>(out@ + rest),
                Err(e) => spec_parse_op_attrs_recs(recs) == Err::<Seq<OpAttrs>, _>(e),
            },
        decreases views@.len() - j,
    {
        proof {
            assert(recs[j as int] == views@[j as int].rec());
            assert(recs.skip(j as int)[0] == recs[j as int]);
            assert(recs.skip(j as int).drop_first() =~= recs.skip(j as int + 1));
        }
        match OpAttrs::parse(&views[j]) {
            Ok(a) => {
                let ghost pre = out@;
                out.push(a);
                proof {
                    assert(out@ =~= pre + seq![a]);
                    if spec_parse_op_attrs_recs(recs.skip(j as int + 1)) is Ok {
                        let rest = spec_parse_op_attrs_recs(recs.skip(j as int + 1))->Ok_0;
                        assert(pre + (seq![a] + rest) =~= (pre + seq![a]) + rest);
                    }
                }
                j = j + 1;
            },
            Err(e) => {
                return Err(e);
            },
        }
    }
    proof {
        assert(recs.skip(views@.len() as int) =~= Seq::<(u16, Seq<u8>)>::empty());
        assert(out@ + Seq::<OpAttrs>::empty() =~= out@);
    }
    Ok(out)
}

/// Decodes a whole `Ops` payload: one entry per child record, position
/// implied by wire order.
pub fn parse_op_list(p: &[u8]) -> (r: Result<Vec<Vec<OpAttrs>>, NlError>)
    ensures
        match r {
            Ok(v) => spec_parse_op_list(p@) == Ok::<_, ErrorKind>(v.deep_view()),
            Err(e) => spec_parse_op_list(p@) == Err::<Seq<Seq<OpAttrs>>, _>(e.kind),
        },
{
    let views = match parse_nla_stream(p) {
        Ok(vs) => vs,
        Err(e) => {
            return Err(e.context("CTRL_ATTR_OPS"));
        },
    };
    let ghost recs = recs_of(views@);
    let mut out: Vec<Vec<OpAttrs>> = Vec::new();
    let mut j: usize = 0;
    proof {
        assert(recs.skip(0) =~= recs);
        assert(out.deep_view() =~= Seq::<Seq<OpAttrs>>::empty());
    }
    while j < views.len()
        invariant
            0 <= j <= views@.len(),
            recs == recs_of(views@),
            spec_nla_stream(p@) == Ok::<_, ErrorKind>(recs),
            match spec_parse_op_entries_recs(recs.skip(j as int)) {
                Ok(rest) => spec_parse_op_entries_recs(recs) == Ok::<_, ErrorKind>(
                    out.deep_view() + rest,
                ),
                Err(e) => spec_parse_op_entries_recs(recs) == Err::<Seq<Seq<OpAttrs>>, _>(e),
            },
        decreases views@.len() - j,
    {
        proof {
            assert(recs[j as int] == views@[j as int].rec());
            assert(recs.skip(j as int)[0] == recs[j as int]);
            assert(recs.skip(j as int).drop_first() =~= recs.skip(j as int + 1));
        }
        match parse_op_entry(views[j].value().as_slice()) {
            Ok(entry) => {
                let ghost pre = out.deep_view();
                let ghost entryv = entry@;
                proof {
                    assert(entry.deep_view() =~= entryv);
                }
                out.push(entry);
                proof {
                    assert(out.deep_view() =~= pre + seq![entryv]);
                    if spec_parse_op_entries_recs(recs.skip(j as int + 1)) is Ok {
                        let rest = spec_parse_op_entries_recs(recs.skip(j as int + 1))->Ok_0;
                        assert(pre + (seq![entryv] + rest) =~= (pre + seq![entryv]) + rest);
                    }
                }
                j = j + 1;
            },
            Err(e) => {
                return Err(e.context("CTRL_ATTR_OPS"));
            },
        }
    }
    proof {
        assert(recs.skip(views@.len() as int) =~= Seq::<(u16, Seq<u8>)>::empty());
        assert(out.deep_view() + Seq::<Seq<OpAttrs>>::empty() =~= out.deep_view());
    }
    Ok(out)
}

/// Decoding an emitted operation attribute gives it back.
pub proof fn lemma_op_attr_round_trip(a: OpAttrs)
    ensures
        spec_parse_op_attr(
            spec_wire_kind(a.kind_spec(), a.nested_spec()) & NLA_TYPE_MASK,
            a.payload_spec(),
        ) == Ok::<_, ErrorKind>(a),
{
    lemma_kind_mask(a.kind_spec());
    match a {
        OpAttrs::Id(v) => lemma_u32_round_trip(v),
        OpAttrs::Flags(v) => lemma_u32_round_trip(v),
    }
}

/// Decoding the emitted stream of an entry gives back its attributes.
pub proof fn lemma_op_entry_round_trip(entry: Seq<OpAttrs>)
    ensures
        spec_parse_op_entry(spec_nla_stream_of(entry)) == Ok::<_, ErrorKind>(entry),
{
    lemma_stream_round_trip::<OpAttrs>(entry);
    lemma_op_attrs_recs_round_trip(entry);
}

proof fn lemma_op_attrs_recs_round_trip(entry: Seq<OpAttrs>)
    ensures
        spec_parse_op_attrs_recs(entry.map_values(|v: OpAttrs| spec_rec_of(v))) == Ok::<
            _,
            ErrorKind,
        >(entry),
    decreases entry.len(),
{
    let recs = entry.map_values(|v: OpAttrs| spec_rec_of(v));
    if entry.len() == 0 {
        assert(entry =~= Seq::<OpAttrs>::empty());
    } else {
        lemma_op_attr_round_trip(entry[0]);
        lemma_op_attrs_recs_round_trip(entry.drop_first());
        assert(recs[0] == spec_rec_of(entry[0]));
        assert(recs.drop_first() =~= entry.drop_first().map_values(
            |v: OpAttrs| spec_rec_of(v),
        ));
        assert(seq![entry[0]] + entry.drop_first() =~= entry);
    }
}

/// Decoding an emitted indexed `Ops` list gives back its entries, whatever
/// the number of entries: the round trip of the indexed-list pattern.
pub proof fn lemma_op_list_round_trip(groups: Seq<Seq<OpAttrs>>)
    requires
        indexed_wf(groups),
    ensures
        spec_parse_op_list(spec_indexed_list_payload(groups)) == Ok::<_, ErrorKind>(groups),
{
    lemma_indexed_list_records(groups, 0);
    let recs = spec_nla_stream(spec_indexed_list_payload(groups))->Ok_0;
    lemma_op_entries_recs_round_trip(groups, recs);
}

proof fn lemma_op_entries_recs_round_trip(groups: Seq<Seq<OpAttrs>>, recs: Seq<(u16, Seq<u8>)>)
    requires
        recs.len() == groups.len(),
        forall|j: int| 0 <= j < recs.len() ==> (#[trigger] recs[j]).1 == spec_nla_stream_of(
            groups[j],
        ),
    ensures
        spec_parse_op_entries_recs(recs) == Ok::<_, ErrorKind>(groups),
    decreases recs.len(),
{
    if recs.len() == 0 {
        assert(groups =~= Seq::<Seq<OpAttrs>>::empty());
    } else {
        lemma_op_entry_round_trip(groups[0]);
        lemma_op_entries_recs_round_trip(groups.drop_first(), recs.drop_first());
        assert(seq![groups[0]] + groups.drop_first() =~= groups);
    }
}

/// One operation entry of the indexed list: its zero-based position and its
/// attributes.  On the wire the entry's record kind is the synthetic
/// one-based position, `index + 1`.
#[derive(Clone, Debug, PartialEq, Eq)]
pub struct Op {
    pub index: u16,
    pub nlas: Vec<OpAttrs>,
}

impl NlaValue for Op {
    open spec fn wf_spec(&self) -> bool {
        self.index < 0xffff && spec_nla_stream_of(self.nlas@).len() + 4 <= u16::MAX
    }

    open spec fn kind_spec(&self) -> u16 {
        (self.index + 1) as u16
    }

    open spec fn nested_spec(&self) -> bool {
        false
    }

    open spec fn payload_spec(&self) -> Seq<u8> {
        spec_nla_stream_of(self.nlas@)
    }

    proof fn lemma_payload_fits(&self) {
    }

    fn kind(&self) -> (k: u16) {
        self.index + 1
    }

    fn is_nested(&self) -> (n: bool) {
        false
    }

    fn value_len(&self) -> (n: usize) {
        crate::codec::stream_buffer_len(self.nlas.as_slice())
    }

    fn emit_value(&self, out: &mut Vec<u8>) {
        crate::codec::emit_nla_stream(self.nlas.as_slice(), out);
    }
}

/// The `Ops` entries wrapped as positioned `Op` values, ready to emit: the
/// stored position of each entry is its index in the list, whatever the
/// caller had stored before.
pub struct OpList(pub Vec<Op>);

impl OpList {
    /// Wraps each entry with its position in the list.
    pub fn from(ops: &Vec<Vec<OpAttrs>>) -> (r: OpList)
        requires
            ops@.len() <= 0xffff,
        ensures
            r.0@.len() == ops@.len(),
            forall|i: int|
                0 <= i < ops@.len() ==> (#[trigger] r.0@[i]).index == i && r.0@[i].nlas@
                    == ops@[i]@,
    {
        let mut items: Vec<Op> = Vec::new();
        let mut i: usize = 0;
        while i < ops.len()
            invariant
                0 <= i <= ops@.len(),
                ops@.len() <= 0xffff,
                items@.len() == i,
                forall|k: int|
                    0 <= k < i as int ==> (#[trigger] items@[k]).index == k && items@[k].nlas@
                        == ops@[k]@,
            decreases ops@.len() - i,
        {
            let entry: Vec<OpAttrs> = ops[i].clone();
            proof {
                assert(entry@ =~= ops@[i as int]@);
            }
            items.push(Op { index: i as u16, nlas: entry });
            i = i + 1;
        }
        OpList(items)
    }

    /// The wrapped entries.
    pub fn items(&self) -> (r: &Vec<Op>)
        ensures
            r@ == self.0@,
    {
        &self.0
    }
}

} // verus!

//! The attribute schema of the control family: the typed values a `NEWFAMILY`
//! record carries, and their codec.
//!
//! All commands of the family share this one flat schema; the command byte
//! only determines which named variant a message reports, never which
//! attribute ids are legal.  An id outside the schema is rejected with
//! `UnknownAttributeType`, never silently dropped.

use vstd::prelude::*;
use vstd::bytes::{
    lemma_auto_spec_u16_to_from_le_bytes, lemma_auto_spec_u32_to_from_le_bytes,
    spec_u16_to_le_bytes, spec_u32_to_le_bytes, u16_to_le_bytes, u32_to_le_bytes,
};
use crate::codec::{lemma_stream_round_trip, spec_nla_stream_of, spec_rec_of, NlaValue};
use crate::constants::{
    CTRL_ATTR_FAMILY_ID, CTRL_ATTR_FAMILY_NAME, CTRL_ATTR_HDRSIZE, CTRL_ATTR_MAXATTR,
    CTRL_ATTR_MCAST_GROUPS, CTRL_ATTR_OP, CTRL_ATTR_OPS, CTRL_ATTR_VERSION,
};
use crate::ctrl::mcast::{
    lemma_mcast_list_round_trip, mcast_groups_view, parse_mcast_list, spec_parse_mcast_list,
    McastGrpAttrV, McastGrpAttrs,
};
use crate::ctrl::ops::{
    lemma_op_list_round_trip, parse_op_list, spec_parse_op_list, OpAttrs,
};
use crate::err::{ErrorKind, NlError};
use crate::indexed::{
    emit_indexed_list, indexed_list_len, indexed_wf, seq_views, spec_indexed_list_payload,
};
use crate::nla::{
    lemma_kind_mask, parse_nla_stream, recs_of, spec_nla_stream, spec_wire_kind, NlaView,
    NLA_TYPE_MASK,
};
use crate::scalar::{
    lemma_string_round_trip, lemma_u16_round_trip, lemma_u32_round_trip, parse_string, parse_u16,
    parse_u32, spec_parse_string, spec_parse_u16, spec_parse_u32, spec_string_payload,
    string_payload,
};

verus! {

/// One attribute of a control family message.
#[derive(Clone, Debug, PartialEq, Eq)]
pub enum GenlCtrlAttrs {
    /// The family's resolved numeric id.
    FamilyId(u16),
    /// The family's registered name, NUL-terminated on the wire.
    FamilyName(String),
    /// The family's version byte.
    Version(u32),
    /// The size of the family's fixed user header.
    HdrSize(u32),
    /// The highest attribute id the family knows.
    MaxAttr(u32),
    /// The operations the family supports, as an indexed nested list.
    Ops(Vec<Vec<OpAttrs>>),
    /// The multicast groups the family offers, as an indexed nested list.
    McastGroups(Vec<Vec<McastGrpAttrs>>),
    /// One operation id.
    Op(u32),
}

/// The mathematical value of a control attribute.
pub enum GenlCtrlAttrV {
    FamilyId(u16),
    FamilyName(Seq<char>),
    Version(u32),
    HdrSize(u32),
    MaxAttr(u32),
    Ops(Seq<Seq<OpAttrs>>),
    McastGroups(Seq<Seq<McastGrpAttrV>>),
    Op(u32),
}

impl View for GenlCtrlAttrs {
    type V = GenlCtrlAttrV;

    open spec fn view(&self) -> GenlCtrlAttrV {
        match self {
            GenlCtrlAttrs::FamilyId(v) => GenlCtrlAttrV::FamilyId(*v),
            GenlCtrlAttrs::FamilyName(s) => GenlCtrlAttrV::FamilyName(s@),
            GenlCtrlAttrs::Version(v) => GenlCtrlAttrV::Version(*v),
            GenlCtrlAttrs::HdrSize(v) => GenlCtrlAttrV::HdrSize(*v),
            GenlCtrlAttrs::MaxAttr(v) => GenlCtrlAttrV::MaxAttr(*v),
            GenlCtrlAttrs::Ops(v) => GenlCtrlAttrV::Ops(v.deep_view()),
            GenlCtrlAttrs::McastGroups(v) => GenlCtrlAttrV::McastGroups(v.deep_view()),
            GenlCtrlAttrs::Op(v) => GenlCtrlAttrV::Op(*v),
        }
    }
}

impl DeepView for GenlCtrlAttrs {
    type V = GenlCtrlAttrV;

    open spec fn deep_view(&self) -> GenlCtrlAttrV {
        self@
    }
}

impl NlaValue for GenlCtrlAttrs {
    open spec fn wf_spec(&self) -> bool {
        match self {
            GenlCtrlAttrs::FamilyName(s) => spec_string_payload(s@).len() + 4 <= u16::MAX,
            GenlCtrlAttrs::Ops(v) => indexed_wf(seq_views(v@)) && spec_indexed_list_payload(
                seq_views(v@),
            ).len() + 4 <= u16::MAX,
            GenlCtrlAttrs::McastGroups(v) => indexed_wf(seq_views(v@))
                && spec_indexed_list_payload(seq_views(v@)).len() + 4 <= u16::MAX,
            _ => true,
        }
    }

    open spec fn kind_spec(&self) -> u16 {
        match self {
            GenlCtrlAttrs::FamilyId(_) => CTRL_ATTR_FAMILY_ID,
            GenlCtrlAttrs::FamilyName(_) => CTRL_ATTR_FAMILY_NAME,
            GenlCtrlAttrs::Version(_) => CTRL_ATTR_VERSION,
            GenlCtrlAttrs::HdrSize(_) => CTRL_ATTR_HDRSIZE,
            GenlCtrlAttrs::MaxAttr(_) => CTRL_ATTR_MAXATTR,
            GenlCtrlAttrs::Ops(_) => CTRL_ATTR_OPS,
            GenlCtrlAttrs::McastGroups(_) => CTRL_ATTR_MCAST_GROUPS,
            GenlCtrlAttrs::Op(_) => CTRL_ATTR_OP,
        }
    }

    open spec fn nested_spec(&self) -> bool {
        false
    }

    open spec fn payload_spec(&self) -> Seq<u8> {
        match self {
            GenlCtrlAttrs::FamilyId(v) => spec_u16_to_le_bytes(*v),
            GenlCtrlAttrs::FamilyName(s) => spec_string_payload(s@),
            GenlCtrlAttrs::Version(v) => spec_u32_to_le_bytes(*v),
            GenlCtrlAttrs::HdrSize(v) => spec_u32_to_le_bytes(*v),
            GenlCtrlAttrs::MaxAttr(v) => spec_u32_to_le_bytes(*v),
            GenlCtrlAttrs::Ops(v) => spec_indexed_list_payload(seq_views(v@)),
            GenlCtrlAttrs::McastGroups(v) => spec_indexed_list_payload(seq_views(v@)),
            GenlCtrlAttrs::Op(v) => spec_u32_to_le_bytes(*v),
        }
    }

    proof fn lemma_payload_fits(&self) {
        lemma_auto_spec_u16_to_from_le_bytes();
        lemma_auto_spec_u32_to_from_le_bytes();
    }

    fn kind(&self) -> (k: u16) {
        match self {
            GenlCtrlAttrs::FamilyId(_) => CTRL_ATTR_FAMILY_ID,
            GenlCtrlAttrs::FamilyName(_) => CTRL_ATTR_FAMILY_NAME,
            GenlCtrlAttrs::Version(_) => CTRL_ATTR_VERSION,
            GenlCtrlAttrs::HdrSize(_) => CTRL_ATTR_HDRSIZE,
            GenlCtrlAttrs::MaxAttr(_) => CTRL_ATTR_MAXATTR,
            GenlCtrlAttrs::Ops(_) => CTRL_ATTR_OPS,
            GenlCtrlAttrs::McastGroups(_) => CTRL_ATTR_MCAST_GROUPS,
            GenlCtrlAttrs::Op(_) => CTRL_ATTR_OP,
        }
    }

    fn is_nested(&self) -> (n: bool) {
        false
    }

    fn value_len(&self) -> (n: usize) {
        match self {
            GenlCtrlAttrs::FamilyId(_) => {
                proof {
                    lemma_auto_spec_u16_to_from_le_bytes();
                }
                2
            },
            GenlCtrlAttrs::FamilyName(s) => s.as_str().len() + 1,
            GenlCtrlAttrs::Version(_) => {
                proof {
                    lemma_auto_spec_u32_to_from_le_bytes();
                }
                4
            },
            GenlCtrlAttrs::HdrSize(_) => {
                proof {
                    lemma_auto_spec_u32_to_from_le_bytes();
                }
                4
            },
            GenlCtrlAttrs::MaxAttr(_) => {
                proof {
                    lemma_auto_spec_u32_to_from_le_bytes();
                }
                4
            },
            GenlCtrlAttrs::Ops(v) => indexed_list_len(v.as_slice()),
            GenlCtrlAttrs::McastGroups(v) => indexed_list_len(v.as_slice()),
            GenlCtrlAttrs::Op(_) => {
                proof {
                    lemma_auto_spec_u32_to_from_le_bytes();
                }
                4
            },
        }
    }

    fn emit_value(&self, out: &mut Vec<u8>) {
        match self {
            GenlCtrlAttrs::FamilyId(v) => {
                let mut b = u16_to_le_bytes(*v);
                out.append(&mut b);
            },
            GenlCtrlAttrs::FamilyName(s) => {
                string_payload(s.as_str(), out);
            },
            GenlCtrlAttrs::Version(v) => {
                let mut b = u32_to_le_bytes(*v);
                out.append(&mut b);
            },
            GenlCtrlAttrs::HdrSize(v) => {
                let mut b = u32_to_le_bytes(*v);
                out.append(&mut b);
            },
            GenlCtrlAttrs::MaxAttr(v) => {
                let mut b = u32_to_le_bytes(*v);
                out.append(&mut b);
            },
            GenlCtrlAttrs::Ops(v) => {
                emit_indexed_list(v.as_slice(), out);
            },
            GenlCtrlAttrs::McastGroups(v) => {
                emit_indexed_list(v.as_slice(), out);
            },
            GenlCtrlAttrs::Op(v) => {
                let mut b = u32_to_le_bytes(*v);
                out.append(&mut b);
            },
        }
    }
}

/// The control attribute a masked kind and payload decode to.
pub open spec fn spec_parse_ctrl_attr(kind: u16, p: Seq<u8>) -> Result<GenlCtrlAttrV, ErrorKind> {
    if kind == CTRL_ATTR_FAMILY_ID {
        match spec_parse_u16(p) {
            Ok(v) => Ok(GenlCtrlAttrV::FamilyId(v)),
            Err(e) => Err(e),
        }
    } else if kind == CTRL_ATTR_FAMILY_NAME {
        match spec_parse_string(p) {
            Ok(s) => Ok(GenlCtrlAttrV::FamilyName(s)),
            Err(e) => Err(e),
        }
    } else if kind == CTRL_ATTR_VERSION {
        match spec_parse_u32(p) {
            Ok(v) => Ok(GenlCtrlAttrV::Version(v)),
            Err(e) => Err(e),
        }
    } else if kind == CTRL_ATTR_HDRSIZE {
        match spec_parse_u32(p) {
            Ok(v) => Ok(GenlCtrlAttrV::HdrSize(v)),
            Err(e) => Err(e),
        }
    } else if kind == CTRL_ATTR_MAXATTR {
        match spec_parse_u32(p) {
            Ok(v) => Ok(GenlCtrlAttrV::MaxAttr(v)),
            Err(e) => Err(e),
        }
    } else if kind == CTRL_ATTR_OPS {
        match spec_parse_op_list(p) {
            Ok(v) => Ok(GenlCtrlAttrV::Ops(v)),
            Err(e) => Err(e),
        }
    } else if kind == CTRL_ATTR_MCAST_GROUPS {
        match spec_parse_mcast_list(p) {
            Ok(v) => Ok(GenlCtrlAttrV::McastGroups(v)),
            Err(e) => Err(e),
        }
    } else if kind == CTRL_ATTR_OP {
        match spec_parse_u32(p) {
            Ok(v) => Ok(GenlCtrlAttrV::Op(v)),
            Err(e) => Err(e),
        }
    } else {
        Err(ErrorKind::UnknownAttributeType(kind))
    }
}

impl GenlCtrlAttrs {
    /// Decodes one control attribute from a validated record, dispatching on
    /// the record's kind with its flag bits masked away.
    pub fn parse(buf: &NlaView) -> (r: Result<GenlCtrlAttrs, NlError>)
        ensures
            match r {
                Ok(a) => spec_parse_ctrl_attr(buf.kind_raw & NLA_TYPE_MASK, buf.payload@) == Ok::<
                    _,
                    ErrorKind,
                >(a@),
                Err(e) => spec_parse_ctrl_attr(buf.kind_raw & NLA_TYPE_MASK, buf.payload@) == Err::<
                    GenlCtrlAttrV,
                    _,
                >(e.kind),
            },
    {
        let kind = buf.kind();
        if kind == CTRL_ATTR_FAMILY_ID {
            match parse_u16(buf.value().as_slice()) {
                Ok(v) => Ok(GenlCtrlAttrs::FamilyId(v)),
                Err(e) => Err(e.context("CTRL_ATTR_FAMILY_ID")),
            }
        } else if kind == CTRL_ATTR_FAMILY_NAME {
            match parse_string(buf.value().as_slice()) {
                Ok(s) => Ok(GenlCtrlAttrs::FamilyName(s)),
                Err(e) => Err(e.context("CTRL_ATTR_FAMILY_NAME")),
            }
        } else if kind == CTRL_ATTR_VERSION {
            match parse_u32(buf.value().as_slice()) {
                Ok(v) => Ok(GenlCtrlAttrs::Version(v)),
                Err(e) => Err(e.context("CTRL_ATTR_VERSION")),
            }
        } else if kind == CTRL_ATTR_HDRSIZE {
            match parse_u32(buf.value().as_slice()) {
                Ok(v) => Ok(GenlCtrlAttrs::HdrSize(v)),
                Err(e) => Err(e.context("CTRL_ATTR_HDRSIZE")),
            }
        } else if kind == CTRL_ATTR_MAXATTR {
            match parse_u32(buf.value().as_slice()) {
                Ok(v) => Ok(GenlCtrlAttrs::MaxAttr(v)),
                Err(e) => Err(e.context("CTRL_ATTR_MAXATTR")),
            }
        } else if kind == CTRL_ATTR_OPS {
            match parse_op_list(buf.value().as_slice()) {
                Ok(v) => Ok(GenlCtrlAttrs::Ops(v)),
                Err(e) => Err(e),
            }
        } else if kind == CTRL_ATTR_MCAST_GROUPS {
            match parse_mcast_list(buf.value().as_slice()) {
                Ok(v) => Ok(GenlCtrlAttrs::McastGroups(v)),
                Err(e) => Err(e),
            }
        } else if kind == CTRL_ATTR_OP {
            match parse_u32(buf.value().as_slice()) {
                Ok(v) => Ok(GenlCtrlAttrs::Op(v)),
                Err(e) => Err(e.context("CTRL_ATTR_OP")),
            }
        } else {
            Err(NlError::new(ErrorKind::UnknownAttributeType(kind)))
        }
    }
}

/// The control attributes a parsed record sequence decodes to.
pub open spec fn spec_parse_ctrl_attrs_recs(recs: Seq<(u16, Seq<u8>)>) -> Result<
    Seq<GenlCtrlAttrV>,
    ErrorKind,
>
    decreases recs.len(),
{
    if recs.len() == 0 {
        Ok(Seq::empty())
    } else {
        match spec_parse_ctrl_attr(recs[0].0 & NLA_TYPE_MASK, recs[0].1) {
            Ok(a) => match spec_parse_ctrl_attrs_recs(recs.drop_first()) {
                Ok(rest) => Ok(seq![a] + rest),
                Err(e) => Err(e),
            },
            Err(e) => Err(e),
        }
    }
}

/// A whole control attribute stream decoded to its typed values.
pub open spec fn spec_parse_ctrl_stream(b: Seq<u8>) -> Result<Seq<GenlCtrlAttrV>, ErrorKind> {
    match spec_nla_stream(b) {
        Ok(recs) => spec_parse_ctrl_attrs_recs(recs),
        Err(e) => Err(e),
    }
}

/// Decodes a whole control attribute stream.
pub fn parse_ctrl_attrs(p: &[u8]) -> (r: Result<Vec<GenlCtrlAttrs>, NlError>)
    ensures
        match r {
            Ok(v) => spec_parse_ctrl_stream(p@) == Ok::<_, ErrorKind>(v.deep_view()),
            Err(e) => spec_parse_ctrl_stream(p@) == Err::<Seq<GenlCtrlAttrV>, _>(e.kind),
        },
{
    let views = match parse_nla_stream(p) {
        Ok(vs) => vs,
        Err(e) => {
            return Err(e);
        },
    };
    let ghost recs = recs_of(views@);
    let mut out: Vec<GenlCtrlAttrs> = Vec::new();
    let mut j: usize = 0;
    proof {
        assert(recs.skip(0) =~= recs);
        assert(out.deep_view() =~= Seq::<GenlCtrlAttrV>::empty());
    }
    while j < views.len()
        invariant
            0 <= j <= views@.len(),
            recs == recs_of(views@),
            spec_nla_stream(p@) == Ok::<_, ErrorKind>(recs),
            match spec_parse_ctrl_attrs_recs(recs.skip(j as int)) {
                Ok(rest) => spec_parse_ctrl_attrs_recs(recs) == Ok::<_, ErrorKind>(
                    out.deep_view() + rest,
                ),
                Err(e) => spec_parse_ctrl_attrs_recs(recs) == Err::<Seq<GenlCtrlAttrV>, _>(e),
            },
        decreases views@.len() - j,
    {
        proof {
            assert(recs[j as int] == views@[j as int].rec());
            assert(recs.skip(j as int)[0] == recs[j as int]);
            assert(recs.skip(j as int).drop_first() =~= recs.skip(j as int + 1));
        }
        match GenlCtrlAttrs::parse(&views[j]) {
            Ok(a) => {
                let ghost pre = out.deep_view();
                let ghost av = a@;
                out.push(a);
                proof {
                    assert(out.deep_view() =~= pre + seq![av]);
                    if spec_parse_ctrl_attrs_recs(recs.skip(j as int + 1)) is Ok {
                        let rest = spec_parse_ctrl_attrs_recs(recs.skip(j as int + 1))->Ok_0;
                        assert(pre + (seq![av] + rest) =~= (pre + seq![av]) + rest);
                    }
                }
                j = j + 1;
            },
            Err(e) => {
                return Err(e);
            },
        }
    }
    proof {
        assert(recs.skip(views@.len() as int) =~= Seq::<(u16, Seq<u8>)>::empty());
        assert(out.deep_view() + Seq::<GenlCtrlAttrV>::empty() =~= out.deep_view());
    }
    Ok(out)
}

/// Decoding an emitted control attribute gives back its value, for every
/// variant of the schema.
pub proof fn lemma_ctrl_attr_round_trip(a: GenlCtrlAttrs)
    requires
        a.wf_spec(),
    ensures
        spec_parse_ctrl_attr(
            spec_wire_kind(a.kind_spec(), a.nested_spec()) & NLA_TYPE_MASK,
            a.payload_spec(),
        ) == Ok::<_, ErrorKind>(a@),
{
    lemma_kind_mask(a.kind_spec());
    match a {
        GenlCtrlAttrs::FamilyId(v) => lemma_u16_round_trip(v),
        GenlCtrlAttrs::FamilyName(s) => lemma_string_round_trip(s@),
        GenlCtrlAttrs::Version(v) => lemma_u32_round_trip(v),
        GenlCtrlAttrs::HdrSize(v) => lemma_u32_round_trip(v),
        GenlCtrlAttrs::MaxAttr(v) => lemma_u32_round_trip(v),
        GenlCtrlAttrs::Ops(v) => {
            lemma_op_list_round_trip(seq_views(v@));
            assert(v.deep_view() =~~= seq_views(v@));
        },
        GenlCtrlAttrs::McastGroups(v) => {
            lemma_mcast_list_round_trip(seq_views(v@));
            assert(v.deep_view() =~~= mcast_groups_view(seq_views(v@)));
        },
        GenlCtrlAttrs::Op(v) => lemma_u32_round_trip(v),
    }
}

/// Decoding the emitted stream of any well-formed control attributes gives
/// back their values, in order: the round trip of the control schema,
/// covering every scalar kind and both indexed lists.
pub proof fn lemma_ctrl_stream_round_trip(attrs: Seq<GenlCtrlAttrs>)
    requires
        forall|i: int| 0 <= i < attrs.len() ==> (#[trigger] attrs[i]).wf_spec(),
    ensures
        spec_parse_ctrl_stream(spec_nla_stream_of(attrs)) == Ok::<_, ErrorKind>(
            attrs.map_values(|a: GenlCtrlAttrs| a@),
        ),
{
    lemma_stream_round_trip::<GenlCtrlAttrs>(attrs);
    lemma_ctrl_attrs_recs_round_trip(attrs);
}

proof fn lemma_ctrl_attrs_recs_round_trip(attrs: Seq<GenlCtrlAttrs>)
    requires
        forall|i: int| 0 <= i < attrs.len() ==> (#[trigger] attrs[i]).wf_spec(),
    ensures
        spec_parse_ctrl_attrs_recs(attrs.map_values(|v: GenlCtrlAttrs| spec_rec_of(v))) == Ok::<
            _,
            ErrorKind,
        >(attrs.map_values(|a: GenlCtrlAttrs| a@)),
    decreases attrs.len(),
{
    let recs = attrs.map_values(|v: GenlCtrlAttrs| spec_rec_of(v));
    let vals = attrs.map_values(|a: GenlCtrlAttrs| a@);
    if attrs.len() == 0 {
        assert(vals =~= Seq::<GenlCtrlAttrV>::empty());
    } else {
        lemma_ctrl_attr_round_trip(attrs[0]);
        lemma_ctrl_attrs_recs_round_trip(attrs.drop_first());
        assert(recs[0] == spec_rec_of(attrs[0]));
        assert(recs.drop_first() =~= attrs.drop_first().map_values(
            |v: GenlCtrlAttrs| spec_rec_of(v),
        ));
        assert(vals =~= seq![attrs[0]@] + attrs.drop_first().map_values(
            |a: GenlCtrlAttrs| a@,
        ));
    }
}

/// An attribute id outside the control schema is rejected as
/// `UnknownAttributeType`, whatever its payload: no unknown field is ever
/// silently dropped.
pub proof fn lemma_ctrl_unknown_attribute_rejected(kind: u16, p: Seq<u8>)
    requires
        kind != CTRL_ATTR_FAMILY_ID,
        kind != CTRL_ATTR_FAMILY_NAME,
        kind != CTRL_ATTR_VERSION,
        kind != CTRL_ATTR_HDRSIZE,
        kind != CTRL_ATTR_MAXATTR,
        kind != CTRL_ATTR_OPS,
        kind != CTRL_ATTR_MCAST_GROUPS,
        kind != CTRL_ATTR_OP,
    ensures
        spec_parse_ctrl_attr(kind, p) == Err::<GenlCtrlAttrV, _>(
            ErrorKind::UnknownAttributeType(kind),
        ),
{
}

/// A nested payload decoded as a flat scalar fails with `MalformedScalar`
/// rather than yielding a garbage number, whenever its size differs from the
/// scalar's width.
pub proof fn lemma_nested_as_flat_fails(a: GenlCtrlAttrs, p: Seq<u8>)
    requires
        a.wf_spec(),
        a is Ops || a is McastGroups,
        p == a.payload_spec(),
        p.len() != 4,
    ensures
        spec_parse_u32(p) == Err::<u32, _>(ErrorKind::MalformedScalar),
{
}

} // verus!

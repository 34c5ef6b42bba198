//! The `McastGroups` list of the control family: each multicast group a
//! family offers, reported as an indexed nested list of `{ id, name }`
//! entries.

use vstd::prelude::*;
use vstd::bytes::{lemma_auto_spec_u32_to_from_le_bytes, spec_u32_to_le_bytes, u32_to_le_bytes};
use crate::codec::{
    lemma_stream_round_trip, spec_nla_stream_of, spec_rec_of, NlaValue,
};
use crate::constants::{CTRL_ATTR_MCAST_GRP_ID, CTRL_ATTR_MCAST_GRP_NAME};
use crate::err::{ErrorKind, NlError};
use crate::indexed::{indexed_wf, lemma_indexed_list_records, spec_indexed_list_payload};
use crate::nla::{
    lemma_kind_mask, parse_nla_stream, recs_of, spec_nla_stream, spec_wire_kind, NlaView,
    NLA_TYPE_MASK,
};
use crate::scalar::{
    lemma_string_round_trip, lemma_u32_round_trip, parse_string, parse_u32, spec_parse_string,
    spec_parse_u32, spec_string_payload, string_payload,
};

verus! {

/// One attribute of a multicast group entry.
#[derive(Debug, PartialEq, Eq)]
pub enum McastGrpAttrs {
    /// The group's name, a NUL-terminated string on the wire.
    Name(String),
    /// The group's numeric id.
    Id(u32),
}

/// The mathematical value of a multicast group attribute.
pub enum McastGrpAttrV {
    Name(Seq<char>),
    Id(u32),
}

impl View for McastGrpAttrs {
    type V = McastGrpAttrV;

    open spec fn view(&self) -> McastGrpAttrV {
        match self {
            McastGrpAttrs::Name(s) => McastGrpAttrV::Name(s@),
            McastGrpAttrs::Id(v) => McastGrpAttrV::Id(*v),
        }
    }
}

impl DeepView for McastGrpAttrs {
    type V = McastGrpAttrV;

    open spec fn deep_view(&self) -> McastGrpAttrV {
        self@
    }
}

impl Clone for McastGrpAttrs {
    fn clone(&self) -> (res: Self)
        ensures
            res@ == self@,
    {
        match self {
            McastGrpAttrs::Name(s) => McastGrpAttrs::Name(s.clone()),
            McastGrpAttrs::Id(v) => McastGrpAttrs::Id(*v),
        }
    }
}

impl NlaValue for McastGrpAttrs {
    open spec fn wf_spec(&self) -> bool {
        match self {
            McastGrpAttrs::Name(s) => spec_string_payload(s@).len() + 4 <= u16::MAX,
            McastGrpAttrs::Id(_) => true,
        }
    }

    open spec fn kind_spec(&self) -> u16 {
        match self {
            McastGrpAttrs::Name(_) => CTRL_ATTR_MCAST_GRP_NAME,
            McastGrpAttrs::Id(_) => CTRL_ATTR_MCAST_GRP_ID,
        }
    }

    open spec fn nested_spec(&self) -> bool {
        false
    }

    open spec fn payload_spec(&self) -> Seq<u8> {
        match self {
            McastGrpAttrs::Name(s) => spec_string_payload(s@),
            McastGrpAttrs::Id(v) => spec_u32_to_le_bytes(*v),
        }
    }

    proof fn lemma_payload_fits(&self) {
        lemma_auto_spec_u32_to_from_le_bytes();
    }

    fn kind(&self) -> (k: u16) {
        match self {
            McastGrpAttrs::Name(_) => CTRL_ATTR_MCAST_GRP_NAME,
            McastGrpAttrs::Id(_) => CTRL_ATTR_MCAST_GRP_ID,
        }
    }

    fn is_nested(&self) -> (n: bool) {
        false
    }

    fn value_len(&self) -> (n: usize) {
        match self {
            McastGrpAttrs::Name(s) => {
                proof {
                    lemma_string_payload_len(s@);
                }
                s.as_str().len() + 1
            },
            McastGrpAttrs::Id(_) => {
                proof {
                    lemma_auto_spec_u32_to_from_le_bytes();
                }
                4
            },
        }
    }

    fn emit_value(&self, out: &mut Vec<u8>) {
        match self {
            McastGrpAttrs::Name(s) => {
                string_payload(s.as_str(), out);
            },
            McastGrpAttrs::Id(v) => {
                let mut b = u32_to_le_bytes(*v);
                out.append(&mut b);
            },
        }
    }
}

/// A string payload is one byte longer than the string's UTF-8 form.
proof fn lemma_string_payload_len(s: Seq<char>)
    ensures
        spec_string_payload(s).len() == vstd::utf8::encode_utf8(s).len() + 1,
{
}

/// The multicast group attribute a masked kind and payload decode to.
pub open spec fn spec_parse_mcast_attr(kind: u16, p: Seq<u8>) -> Result<McastGrpAttrV, ErrorKind> {
    if kind == CTRL_ATTR_MCAST_GRP_NAME {
        match spec_parse_string(p) {
            Ok(s) => Ok(McastGrpAttrV::Name(s)),
            Err(e) => Err(e),
        }
    } else if kind == CTRL_ATTR_MCAST_GRP_ID {
        match spec_parse_u32(p) {
            Ok(v) => Ok(McastGrpAttrV::Id(v)),
            Err(e) => Err(e),
        }
    } else {
        Err(ErrorKind::UnknownAttributeType(kind))
    }
}

impl McastGrpAttrs {
    /// Decodes one multicast group attribute from a validated record,
    /// dispatching on the record's kind with its flag bits masked away.  An
    /// id outside the schema is `UnknownAttributeType`; a name that is not
    /// UTF-8, or an id that is not exactly four bytes, is `MalformedScalar`.
    pub fn parse(buf: &NlaView) -> (r: Result<McastGrpAttrs, NlError>)
        ensures
            match r {
                Ok(a) => spec_parse_mcast_attr(buf.kind_raw & NLA_TYPE_MASK, buf.payload@) == Ok::<
                    _,
                    ErrorKind,
                >(a@),
                Err(e) => spec_parse_mcast_attr(buf.kind_raw & NLA_TYPE_MASK, buf.payload@)
                    == Err::<McastGrpAttrV, _>(e.kind),
            },
    {
        let kind = buf.kind();
        if kind == CTRL_ATTR_MCAST_GRP_NAME {
            match parse_string(buf.value().as_slice()) {
                Ok(s) => Ok(McastGrpAttrs::Name(s)),
                Err(e) => Err(e.context("CTRL_ATTR_MCAST_GRP_NAME")),
            }
        } else if kind == CTRL_ATTR_MCAST_GRP_ID {
            match parse_u32(buf.value().as_slice()) {
                Ok(v) => Ok(McastGrpAttrs::Id(v)),
                Err(e) => Err(e.context("CTRL_ATTR_MCAST_GRP_ID")),
            }
        } else {
            Err(NlError::new(ErrorKind::UnknownAttributeType(kind)))
        }
    }
}

/// The multicast group attributes a parsed record sequence decodes to.
pub open spec fn spec_parse_mcast_attrs_recs(recs: Seq<(u16, Seq<u8>)>) -> Result<
    Seq<McastGrpAttrV>,
    ErrorKind,
>
    decreases recs.len(),
{
    if recs.len() == 0 {
        Ok(Seq::empty())
    } else {
        match spec_parse_mcast_attr(recs[0].0 & NLA_TYPE_MASK, recs[0].1) {
            Ok(a) => match spec_parse_mcast_attrs_recs(recs.drop_first()) {
                Ok(rest) => Ok(seq![a] + rest),
                Err(e) => Err(e),
            },
            Err(e) => Err(e),
        }
    }
}

/// One entry's payload decoded as a stream of multicast group attributes.
pub open spec fn spec_parse_mcast_entry(p: Seq<u8>) -> Result<Seq<McastGrpAttrV>, ErrorKind> {
    match spec_nla_stream(p) {
        Ok(recs) => spec_parse_mcast_attrs_recs(recs),
        Err(e) => Err(e),
    }
}

/// The entries of an indexed list payload, record kinds ignored beyond
/// presence.
pub open spec fn spec_parse_mcast_entries_recs(recs: Seq<(u16, Seq<u8>)>) -> Result<
    Seq<Seq<McastGrpAttrV>>,
    ErrorKind,
>
    decreases recs.len(),
{
    if recs.len() == 0 {
        Ok(Seq::empty())
    } else {
        match spec_parse_mcast_entry(recs[0].1) {
            Ok(entry) => match spec_parse_mcast_entries_recs(recs.drop_first()) {
                Ok(rest) => Ok(seq![entry] + rest),
                Err(e) => Err(e),
            },
            Err(e) => Err(e),
        }
    }
}

/// A whole `McastGroups` payload decoded to its list of entries.
pub open spec fn spec_parse_mcast_list(p: Seq<u8>) -> Result<Seq<Seq<McastGrpAttrV>>, ErrorKind> {
    match spec_nla_stream(p) {
        Ok(recs) => spec_parse_mcast_entries_recs(recs),
        Err(e) => Err(e),
    }
}

/// Decodes one entry's payload: a stream of multicast group attributes.
pub fn parse_mcast_entry(p: &[u8]) -> (r: Result<Vec<McastGrpAttrs>, NlError>)
    ensures
        match r {
            Ok(v) => spec_parse_mcast_entry(p@) == Ok::<_, ErrorKind>(v.deep_view()),
            Err(e) => spec_parse_mcast_entry(p@) == Err::<Seq<McastGrpAttrV>, _>(e.kind),
        },
{
    let views = match parse_nla_stream(p) {
        Ok(vs) => vs,
        Err(e) => {
            return Err(e);
        },
    };
    let ghost recs = recs_of(views@);
    let mut out: Vec<McastGrpAttrs> = Vec::new();
    let mut j: usize = 0;
    proof {
        assert(recs.skip(0) =~= recs);
        assert(out.deep_view() =~= Seq::<McastGrpAttrV>::empty());
    }
    while j < views.len()
        invariant
            0 <= j <= views@.len(),
            recs == recs_of(views@),
            spec_nla_stream(p@) == Ok::<_, ErrorKind>(recs),
            match spec_parse_mcast_attrs_recs(recs.skip(j as int)) {
                Ok(rest) => spec_parse_mcast_attrs_recs(recs) == Ok::<_, ErrorKind>(
                    out.deep_view() + rest,
                ),
                Err(e) => spec_parse_mcast_attrs_recs(recs) == Err::<Seq<McastGrpAttrV>, _>(e),
            },
        decreases views@.len() - j,
    {
        proof {
            assert(recs[j as int] == views@[j as int].rec());
            assert(recs.skip(j as int)[0] == recs[j as int]);
            assert(recs.skip(j as int).drop_first() =~= recs.skip(j as int + 1));
        }
        match McastGrpAttrs::parse(&views[j]) {
            Ok(a) => {
                let ghost pre = out.deep_view();
                let ghost av = a@;
                out.push(a);
                proof {
                    assert(out.deep_view() =~= pre + seq![av]);
                    if spec_parse_mcast_attrs_recs(recs.skip(j as int + 1)) is Ok {
                        let rest = spec_parse_mcast_attrs_recs(recs.skip(j as int + 1))->Ok_0;
                        assert(pre + (seq![av] + rest) =~= (pre + seq![av]) + rest);
                    }
                }
                j = j + 1;
            },
            Err(e) => {
                return Err(e);
            },
        }
    }
    proof {
        assert(recs.skip(views@.len() as int) =~= Seq::<(u16, Seq<u8>)>::empty());
        assert(out.deep_view() + Seq::<McastGrpAttrV>::empty() =~= out.deep_view());
    }
    Ok(out)
}

/// Decodes a whole `McastGroups` payload: one entry per child record,
/// position implied by wire order.
pub fn parse_mcast_list(p: &[u8]) -> (r: Result<Vec<Vec<McastGrpAttrs>>, NlError>)
    ensures
        match r {
            Ok(v) => spec_parse_mcast_list(p@) == Ok::<_, ErrorKind>(v.deep_view()),
            Err(e) => spec_parse_mcast_list(p@) == Err::<Seq<Seq<McastGrpAttrV>>, _>(e.kind),
        },
{
    let views = match parse_nla_stream(p) {
        Ok(vs) => vs,
        Err(e) => {
            return Err(e.context("CTRL_ATTR_MCAST_GROUPS"));
        },
    };
    let ghost recs = recs_of(views@);
    let mut out: Vec<Vec<McastGrpAttrs>> = Vec::new();
    let mut j: usize = 0;
    proof {
        assert(recs.skip(0) =~= recs);
        assert(out.deep_view() =~= Seq::<Seq<McastGrpAttrV>>::empty());
    }
    while j < views.len()
        invariant
            0 <= j <= views@.len(),
            recs == recs_of(views@),
            spec_nla_stream(p@) == Ok::<_, ErrorKind>(recs),
            match spec_parse_mcast_entries_recs(recs.skip(j as int)) {
                Ok(rest) => spec_parse_mcast_entries_recs(recs) == Ok::<_, ErrorKind>(
                    out.deep_view() + rest,
                ),
                Err(e) => spec_parse_mcast_entries_recs(recs) == Err::<
                    Seq<Seq<McastGrpAttrV>>,
                    _,
                >(e),
            },
        decreases views@.len() - j,
    {
        proof {
            assert(recs[j as int] == views@[j as int].rec());
            assert(recs.skip(j as int)[0] == recs[j as int]);
            assert(recs.skip(j as int).drop_first() =~= recs.skip(j as int + 1));
        }
        match parse_mcast_entry(views[j].value().as_slice()) {
            Ok(entry) => {
                let ghost pre = out.deep_view();
                let ghost entryv = entry.deep_view();
                out.push(entry);
                proof {
                    assert(out.deep_view() =~= pre + seq![entryv]);
                    if spec_parse_mcast_entries_recs(recs.skip(j as int + 1)) is Ok {
                        let rest = spec_parse_mcast_entries_recs(recs.skip(j as int + 1))->Ok_0;
                        assert(pre + (seq![entryv] + rest) =~= (pre + seq![entryv]) + rest);
                    }
                }
                j = j + 1;
            },
            Err(e) => {
                return Err(e.context("CTRL_ATTR_MCAST_GROUPS"));
            },
        }
    }
    proof {
        assert(recs.skip(views@.len() as int) =~= Seq::<(u16, Seq<u8>)>::empty());
        assert(out.deep_view() + Seq::<Seq<McastGrpAttrV>>::empty() =~= out.deep_view());
    }
    Ok(out)
}

/// Decoding an emitted multicast group attribute gives back its value.
pub proof fn lemma_mcast_attr_round_trip(a: McastGrpAttrs)
    requires
        a.wf_spec(),
    ensures
        spec_parse_mcast_attr(
            spec_wire_kind(a.kind_spec(), a.nested_spec()) & NLA_TYPE_MASK,
            a.payload_spec(),
        ) == Ok::<_, ErrorKind>(a@),
{
    lemma_kind_mask(a.kind_spec());
    match a {
        McastGrpAttrs::Name(s) => lemma_string_round_trip(s@),
        McastGrpAttrs::Id(v) => lemma_u32_round_trip(v),
    }
}

/// Decoding the emitted stream of an entry gives back its attribute values.
pub proof fn lemma_mcast_entry_round_trip(entry: Seq<McastGrpAttrs>)
    requires
        forall|i: int| 0 <= i < entry.len() ==> (#[trigger] entry[i]).wf_spec(),
    ensures
        spec_parse_mcast_entry(spec_nla_stream_of(entry)) == Ok::<_, ErrorKind>(
            entry.map_values(|a: McastGrpAttrs| a@),
        ),
{
    lemma_stream_round_trip::<McastGrpAttrs>(entry);
    lemma_mcast_attrs_recs_round_trip(entry);
}

proof fn lemma_mcast_attrs_recs_round_trip(entry: Seq<McastGrpAttrs>)
    requires
        forall|i: int| 0 <= i < entry.len() ==> (#[trigger] entry[i]).wf_spec(),
    ensures
        spec_parse_mcast_attrs_recs(entry.map_values(|v: McastGrpAttrs| spec_rec_of(v))) == Ok::<
            _,
            ErrorKind,
        >(entry.map_values(|a: McastGrpAttrs| a@)),
    decreases entry.len(),
{
    let recs = entry.map_values(|v: McastGrpAttrs| spec_rec_of(v));
    let vals = entry.map_values(|a: McastGrpAttrs| a@);
    if entry.len() == 0 {
        assert(vals =~= Seq::<McastGrpAttrV>::empty());
    } else {
        lemma_mcast_attr_round_trip(entry[0]);
        lemma_mcast_attrs_recs_round_trip(entry.drop_first());
        assert(recs[0] == spec_rec_of(entry[0]));
        assert(recs.drop_first() =~= entry.drop_first().map_values(
            |v: McastGrpAttrs| spec_rec_of(v),
        ));
        assert(vals =~= seq![entry[0]@] + entry.drop_first().map_values(
            |a: McastGrpAttrs| a@,
        ));
    }
}

/// The values of a list of entries.
pub open spec fn mcast_groups_view(groups: Seq<Seq<McastGrpAttrs>>) -> Seq<Seq<McastGrpAttrV>> {
    groups.map_values(|e: Seq<McastGrpAttrs>| e.map_values(|a: McastGrpAttrs| a@))
}

/// Decoding an emitted indexed `McastGroups` list gives back its entries.
pub proof fn lemma_mcast_list_round_trip(groups: Seq<Seq<McastGrpAttrs>>)
    requires
        indexed_wf(groups),
    ensures
        spec_parse_mcast_list(spec_indexed_list_payload(groups)) == Ok::<_, ErrorKind>(
            mcast_groups_view(groups),
        ),
{
    lemma_indexed_list_records(groups, 0);
    let recs = spec_nla_stream(spec_indexed_list_payload(groups))->Ok_0;
    lemma_mcast_entries_recs_round_trip(groups, recs);
}

proof fn lemma_mcast_entries_recs_round_trip(
    groups: Seq<Seq<McastGrpAttrs>>,
    recs: Seq<(u16, Seq<u8>)>,
)
    requires
        recs.len() == groups.len(),
        forall|i: int| 0 <= i < groups.len() ==> crate::codec::all_wf(#[trigger] groups[i]),
        forall|j: int| 0 <= j < recs.len() ==> (#[trigger] recs[j]).1 == spec_nla_stream_of(
            groups[j],
        ),
    ensures
        spec_parse_mcast_entries_recs(recs) == Ok::<_, ErrorKind>(mcast_groups_view(groups)),
    decreases recs.len(),
{
    let vals = mcast_groups_view(groups);
    if recs.len() == 0 {
        assert(vals =~= Seq::<Seq<McastGrpAttrV>>::empty());
    } else {
        lemma_mcast_entry_round_trip(groups[0]);
        lemma_mcast_entries_recs_round_trip(groups.drop_first(), recs.drop_first());
        assert(mcast_groups_view(groups.drop_first()) =~= vals.drop_first());
        assert(vals =~= seq![vals[0]] + vals.drop_first());
    }
}

/// One multicast group entry of the indexed list: its zero-based position
/// and its attributes; on the wire the entry's record kind is `index + 1`.
#[derive(Debug, PartialEq, Eq)]
pub struct McastGroup {
    pub index: u16,
    pub nlas: Vec<McastGrpAttrs>,
}

impl Clone for McastGroup {
    fn clone(&self) -> (res: Self)
        ensures
            res.index == self.index,
            res.nlas.deep_view() == self.nlas.deep_view(),
    {
        McastGroup { index: self.index, nlas: clone_entry(&self.nlas) }
    }
}

impl NlaValue for McastGroup {
    open spec fn wf_spec(&self) -> bool {
        self.index < 0xffff && spec_nla_stream_of(self.nlas@).len() + 4 <= u16::MAX
            && crate::codec::all_wf(self.nlas@)
    }

    open spec fn kind_spec(&self) -> u16 {
        (self.index + 1) as u16
    }

    open spec fn nested_spec(&self) -> bool {
        false
    }

    open spec fn payload_spec(&self) -> Seq<u8> {
        spec_nla_stream_of(self.nlas@)
    }

    proof fn lemma_payload_fits(&self) {
    }

    fn kind(&self) -> (k: u16) {
        self.index + 1
    }

    fn is_nested(&self) -> (n: bool) {
        false
    }

    fn value_len(&self) -> (n: usize) {
        crate::codec::stream_buffer_len(self.nlas.as_slice())
    }

    fn emit_value(&self, out: &mut Vec<u8>) {
        crate::codec::emit_nla_stream(self.nlas.as_slice(), out);
    }
}

/// The `McastGroups` entries wrapped as positioned `McastGroup` values: the
/// stored position of each entry is its index in the list.
pub struct McastGroupList(pub Vec<McastGroup>);

impl McastGroupList {
    /// Wraps each entry with its position in the list.
    pub fn from(groups: &Vec<Vec<McastGrpAttrs>>) -> (r: McastGroupList)
        requires
            groups@.len() <= 0xffff,
        ensures
            r.0@.len() == groups@.len(),
            forall|i: int|
                0 <= i < groups@.len() ==> (#[trigger] r.0@[i]).index == i
                    && r.0@[i].nlas.deep_view() == groups@[i].deep_view(),
    {
        let mut items: Vec<McastGroup> = Vec::new();
        let mut i: usize = 0;
        while i < groups.len()
            invariant
                0 <= i <= groups@.len(),
                groups@.len() <= 0xffff,
                items@.len() == i,
                forall|k: int|
                    0 <= k < i as int ==> (#[trigger] items@[k]).index == k
                        && items@[k].nlas.deep_view() == groups@[k].deep_view(),
            decreases groups@.len() - i,
        {
            items.push(McastGroup { index: i as u16, nlas: clone_entry(&groups[i]) });
            i = i + 1;
        }
        McastGroupList(items)
    }

    /// The wrapped entries.
    pub fn items(&self) -> (r: &Vec<McastGroup>)
        ensures
            r@ == self.0@,
    {
        &self.0
    }
}

/// A value-preserving copy of one entry.
fn clone_entry(entry: &Vec<McastGrpAttrs>) -> (r: Vec<McastGrpAttrs>)
    ensures
        r.deep_view() == entry.deep_view(),
{
    let mut out: Vec<McastGrpAttrs> = Vec::new();
    let mut i: usize = 0;
    while i < entry.len()
        invariant
            0 <= i <= entry@.len(),
            out.deep_view() =~= entry@.subrange(0, i as int).map_values(|a: McastGrpAttrs| a@),
        decreases entry@.len() - i,
    {
        let ghost pre = out.deep_view();
        out.push(entry[i].clone());
        proof {
            assert(out.deep_view() =~= pre + seq![entry@[i as int]@]);
            assert(out.deep_view() =~= entry@.subrange(0, i as int + 1).map_values(
                |a: McastGrpAttrs| a@,
            ));
        }
        i = i + 1;
    }
    proof {
        assert(entry@.subrange(0, entry@.len() as int) =~= entry@);
        assert(entry@.map_values(|a: McastGrpAttrs| a@) =~= entry.deep_view());
    }
    out
}

} // verus!

//! The indexed nested-list pattern: an ordered list of homogeneous entries
//! encoded as nested records whose kind is the synthetic one-based position
//! of the entry.
//!
//! The kind carries no meaning beyond the position: encoding derives each
//! child kind from the entry's place in the list being emitted, and decoding
//! ignores the numeric kind beyond "present", taking position from wire
//! order.

use vstd::prelude::*;
use vstd::slice::slice_index_get;
use crate::codec::{
    all_wf, emit_nla_stream, spec_nla_stream_of, stream_buffer_len, NlaValue,
};
use crate::nla::{
    lemma_nla_record_len, lemma_nla_stream_cons, spec_nla_record, spec_nla_stream,
};

verus! {

/// The views of a sequence of vectors: one nesting level of entries.
pub open spec fn seq_views<T>(gs: Seq<Vec<T>>) -> Seq<Seq<T>> {
    gs.map_values(|v: Vec<T>| v@)
}

/// The payload bytes of the entries `groups[i..]`: for each entry, one
/// record whose kind is the entry's one-based position and whose payload is
/// the entry's own attribute stream.
pub open spec fn spec_indexed_payload<T: NlaValue>(groups: Seq<Seq<T>>, i: int) -> Seq<u8>
    decreases groups.len() - i,
{
    if i < 0 || i >= groups.len() {
        Seq::empty()
    } else {
        spec_nla_record((i + 1) as u16, spec_nla_stream_of(groups[i]))
            + spec_indexed_payload(groups, i + 1)
    }
}

/// The payload bytes of a whole indexed list.
pub open spec fn spec_indexed_list_payload<T: NlaValue>(groups: Seq<Seq<T>>) -> Seq<u8> {
    spec_indexed_payload(groups, 0)
}

/// Size conditions under which an indexed list can be emitted: every entry's
/// values can, each entry's stream fits a record's length field, and the
/// one-based positions stay clear of the kind's flag bits.
pub open spec fn indexed_wf<T: NlaValue>(groups: Seq<Seq<T>>) -> bool {
    &&& groups.len() <= 0x3ffe
    &&& forall|i: int|
        0 <= i < groups.len() ==> all_wf(#[trigger] groups[i]) && spec_nla_stream_of(
            groups[i],
        ).len() + 4 <= u16::MAX
}

/// Emits the entries of `groups` as an indexed list, deriving each child
/// kind from the entry's position.
pub fn emit_indexed_list<T: NlaValue>(groups: &[Vec<T>], out: &mut Vec<u8>)
    requires
        indexed_wf(seq_views(groups@)),
    ensures
        final(out)@ == old(out)@ + spec_indexed_list_payload(seq_views(groups@)),
{
    let ghost gs = seq_views(groups@);
    let n = groups.len();
    let mut i: usize = 0;
    while i < n
        invariant
            0 <= i <= n,
            n == groups@.len(),
            gs == seq_views(groups@),
            indexed_wf(gs),
            out@ + spec_indexed_payload(gs, i as int) == old(out)@ + spec_indexed_payload(gs, 0),
        decreases n - i,
    {
        let entry = slice_index_get(groups, i);
        let mut payload: Vec<u8> = Vec::new();
        emit_nla_stream(entry.as_slice(), &mut payload);
        let ghost pre = out@;
        crate::nla::emit_nla_record(out, (i + 1) as u16, payload.as_slice());
        proof {
            assert((pre + spec_nla_record((i + 1) as u16, spec_nla_stream_of(gs[i as int])))
                + spec_indexed_payload(gs, i as int + 1) =~= pre + spec_indexed_payload(
                gs,
                i as int,
            ));
        }
        i = i + 1;
    }
    proof {
        assert(out@ + spec_indexed_payload(gs, n as int) =~= out@);
    }
}

/// The byte size of a whole indexed list's payload.
pub fn indexed_list_len<T: NlaValue>(groups: &[Vec<T>]) -> (n: usize)
    requires
        indexed_wf(seq_views(groups@)),
        spec_indexed_list_payload(seq_views(groups@)).len() <= usize::MAX,
    ensures
        n == spec_indexed_list_payload(seq_views(groups@)).len(),
{
    let ghost gs = seq_views(groups@);
    let count = groups.len();
    let mut n: usize = 0;
    let mut i: usize = 0;
    while i < count
        invariant
            0 <= i <= count,
            count == groups@.len(),
            gs == seq_views(groups@),
            indexed_wf(gs),
            spec_indexed_payload(gs, 0).len() <= usize::MAX,
            n + spec_indexed_payload(gs, i as int).len() == spec_indexed_payload(gs, 0).len(),
        decreases count - i,
    {
        let entry = slice_index_get(groups, i);
        let inner = stream_buffer_len(entry.as_slice());
        proof {
            lemma_nla_record_len((i + 1) as u16, spec_nla_stream_of(gs[i as int]));
            crate::wire::lemma_align4(spec_nla_stream_of(gs[i as int]).len() as int + 4);
        }
        let record = crate::wire::align4(inner + 4);
        n = n + record;
        i = i + 1;
    }
    n
}

/// Splitting an emitted indexed list yields one record per entry, in order,
/// whose kinds are exactly the one-based positions and whose payloads are
/// the entries' streams.  This is the reproducibility of the pattern: the
/// child kinds depend on nothing but the positions.
pub proof fn lemma_indexed_list_records<T: NlaValue>(groups: Seq<Seq<T>>, i: int)
    requires
        indexed_wf(groups),
        0 <= i <= groups.len(),
    ensures
        spec_nla_stream(spec_indexed_payload(groups, i)) matches Ok(recs) && recs.len()
            == groups.len() - i && forall|j: int|
            0 <= j < recs.len() ==> #[trigger] recs[j] == (
            ((i + j + 1) as u16),
            spec_nla_stream_of(groups[i + j]),
        ),
    decreases groups.len() - i,
{
    if i == groups.len() {
        assert(spec_indexed_payload(groups, i) =~= Seq::<u8>::empty());
    } else {
        lemma_indexed_list_records(groups, i + 1);
        lemma_nla_stream_cons(
            (i + 1) as u16,
            spec_nla_stream_of(groups[i]),
            spec_indexed_payload(groups, i + 1),
        );
    }
}

/// An emitted indexed list is a multiple of four bytes long.
pub proof fn lemma_indexed_list_aligned<T: NlaValue>(groups: Seq<Seq<T>>, i: int)
    requires
        indexed_wf(groups),
        0 <= i <= groups.len(),
    ensures
        spec_indexed_payload(groups, i).len() % 4 == 0,
    decreases groups.len() - i,
{
    if i < groups.len() {
        lemma_indexed_list_aligned(groups, i + 1);
        lemma_nla_record_len((i + 1) as u16, spec_nla_stream_of(groups[i]));
    }
}

} // verus!

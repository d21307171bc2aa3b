//! The nodes that a path selects, as plain reply values.

use cborpath::CborPath;

use vstd::prelude::*;

use crate::args::{
    answered, args_view, default_is_root, read_command, run_read, Arg, CommandError, Stored,
};
use crate::codec::{
    array_items, content_of, dict_entries, entries_of, is_cbor, items_of, kind_of, node_content,
    node_kind, node_text, pairs_view, slices_view, text_of, NodeKind,
};
use crate::document::Document;
use crate::format::interleave;
use crate::path::path_expr;
use crate::protocol::{collect, selected, NodeReader};
use crate::reply::{replies_view, Reply, ReplyView};
use crate::slices::path_safe;

verus! {

/// An unsigned integer read as a signed one of the same width.
pub open spec fn reread(value: u64) -> i64 {
    if value <= i64::MAX {
        value as i64
    } else {
        (value - 0x1_0000_0000_0000_0000) as i64
    }
}

/// The reply values of the nodes among `items` that are shorter than
/// `bound`, which in a well-formed item all children are.
pub open spec fn resp_each(items: Seq<Seq<u8>>, bound: nat) -> Seq<ReplyView>
    decreases bound, 0nat,
{
    Seq::new(
        items.len(),
        |i: int|
            if 0 <= i < items.len() && items[i].len() < bound {
                resp_of(items[i])
            } else {
                ReplyView::Null
            },
    )
}

/// The reply value of a node: an integer for an integer or a simple
/// value, a float, a text, the content of a byte string, a boolean, null
/// for null and undefined, the list of its items for an array, and the
/// list of its keys and values in turn for a map.
pub open spec fn resp_of(node: Seq<u8>) -> ReplyView
    decreases node.len(), 1nat,
{
    match kind_of(node) {
        NodeKind::Pos(value) => ReplyView::Integer(reread(value)),
        NodeKind::Neg(value) => ReplyView::Integer((-1 - reread(value)) as i64),
        NodeKind::Float(bits) => ReplyView::Float(bits),
        NodeKind::Str => ReplyView::BulkString(text_of(node)),
        NodeKind::Bytes => ReplyView::StringBuffer(content_of(node)),
        NodeKind::Bool(value) => ReplyView::Boolean(value),
        NodeKind::Null => ReplyView::Null,
        NodeKind::Undefined => ReplyView::Null,
        NodeKind::Simple(value) => ReplyView::Integer(value as i64),
        NodeKind::Array => ReplyView::Array(resp_each(items_of(node), node.len())),
        NodeKind::Dict => ReplyView::Entries(resp_each(interleave(entries_of(node)), node.len())),
    }
}

/// An unsigned integer read as a signed one of the same width.
fn reread_signed(value: u64) -> (signed: i64)
    ensures
        signed == reread(value),
{
    if value <= 0x7fff_ffff_ffff_ffff {
        value as i64
    } else {
        ((value - 0x8000_0000_0000_0000) as i64) + (-0x7fff_ffff_ffff_ffff - 1)
    }
}

/// The reply value of a node.
pub(crate) fn resp_from_cbor(value: &[u8]) -> (reply: Reply)
    requires
        is_cbor(value@),
    ensures
        reply@ == resp_of(value@),
    decreases value@.len(),
{
    match node_kind(value) {
        NodeKind::Pos(v) => Reply::Integer(reread_signed(v)),
        NodeKind::Neg(v) => Reply::Integer(-1 - reread_signed(v)),
        NodeKind::Float(bits) => Reply::Float(bits),
        NodeKind::Str => Reply::BulkString(node_text(value)),
        NodeKind::Bytes => Reply::StringBuffer(node_content(value)),
        NodeKind::Bool(v) => Reply::Boolean(v),
        NodeKind::Null => Reply::Null,
        NodeKind::Undefined => Reply::Null,
        NodeKind::Simple(v) => Reply::Integer(v as i64),
        NodeKind::Array => {
            let items = array_items(value);
            let mut replies: Vec<Reply> = Vec::new();
            let mut i: usize = 0;
            while i < items.len()
                invariant
                    i <= items.len(),
                    replies@.len() == i,
                    slices_view(items@) == items_of(value@),
                    crate::codec::all_cbor(slices_view(items@)),
                    forall|j: int| 0 <= j < items@.len() ==> (#[trigger] items@[j])@.len() < value@.len(),
                    forall|j: int| 0 <= j < i ==> (#[trigger] replies@[j])@ == resp_of(items@[j]@),
                decreases items.len() - i,
            {
                proof {
                    assert(is_cbor(slices_view(items@)[i as int]));
                }
                replies.push(resp_from_cbor(items[i]));
                i += 1;
            }
            proof {
                assert forall|j: int| 0 <= j < items@.len() implies replies_view(replies@)[j]
                    == resp_each(items_of(value@), value@.len())[j] by {
                    assert(items_of(value@)[j] == items@[j]@);
                }
                assert(replies_view(replies@) =~= resp_each(items_of(value@), value@.len()));
            }
            Reply::list(replies)
        },
        NodeKind::Dict => {
            let entries = dict_entries(value);
            let mut replies: Vec<Reply> = Vec::new();
            let mut i: usize = 0;
            while i < entries.len()
                invariant
                    i <= entries.len(),
                    replies@.len() == 2 * i,
                    pairs_view(entries@) == entries_of(value@),
                    crate::codec::all_cbor_pairs(pairs_view(entries@)),
                    forall|j: int|
                        0 <= j < entries@.len() ==> (#[trigger] entries@[j]).0@.len() < value@.len()
                            && entries@[j].1@.len() < value@.len(),
                    forall|j: int|
                        0 <= j < i ==> (#[trigger] replies@[2 * j])@ == resp_of(entries@[j].0@)
                            && replies@[2 * j + 1]@ == resp_of(entries@[j].1@),
                decreases entries.len() - i,
            {
                proof {
                    assert(is_cbor(pairs_view(entries@)[i as int].0));
                    assert(is_cbor(pairs_view(entries@)[i as int].1));
                }
                let key = resp_from_cbor(entries[i].0);
                let item = resp_from_cbor(entries[i].1);
                let ghost before = replies@;
                replies.push(key);
                replies.push(item);
                proof {
                    assert forall|j: int| 0 <= j < i + 1 implies (#[trigger] replies@[2 * j])@
                        == resp_of(entries@[j].0@) && replies@[2 * j + 1]@ == resp_of(
                        entries@[j].1@,
                    ) by {
                        if j < i {
                            assert(replies@[2 * j] == before[2 * j]);
                            assert(replies@[2 * j + 1] == before[2 * j + 1]);
                        }
                    }
                }
                i += 1;
            }
            proof {
                lemma_interleave(entries_of(value@));
                let flat = interleave(entries_of(value@));
                assert forall|k: int| 0 <= k < flat.len() implies replies_view(replies@)[k]
                    == resp_each(flat, value@.len())[k] by {
                    let j = k / 2;
                    assert(entries_of(value@)[j] == (entries@[j].0@, entries@[j].1@));
                    assert(entries@[j].0@.len() < value@.len());
                    assert(replies@[2 * j]@ == resp_of(entries@[j].0@));
                    assert(flat[2 * j] == entries_of(value@)[j].0);
                    if k % 2 == 0 {
                        assert(k == 2 * j);
                        assert(flat[k] == entries@[j].0@);
                    } else {
                        assert(k == 2 * j + 1);
                        assert(flat[k] == entries@[j].1@);
                    }
                    assert(flat[k].len() < value@.len());
                    assert(replies@[k]@ == resp_of(flat[k]));
                }
                assert(replies_view(replies@) =~= resp_each(flat, value@.len()));
            }
            Reply::entries(replies)
        },
    }
}

/// Keys and values in turn: twice as many items as pairs, the key of
/// pair `j` at `2 j` and its value at `2 j + 1`.
pub proof fn lemma_interleave(entries: Seq<(Seq<u8>, Seq<u8>)>)
    ensures
        interleave(entries).len() == 2 * entries.len(),
        forall|j: int|
            0 <= j < entries.len() ==> #[trigger] interleave(entries)[2 * j] == entries[j].0
                && interleave(entries)[2 * j + 1] == entries[j].1,
    decreases entries.len(),
{
    if entries.len() > 0 {
        lemma_interleave(entries.drop_last());
        let shorter = interleave(entries.drop_last());
        assert forall|j: int| 0 <= j < entries.len() implies #[trigger] interleave(entries)[2 * j]
            == entries[j].0 && interleave(entries)[2 * j + 1] == entries[j].1 by {
            if j < entries.len() - 1 {
                assert(shorter[2 * j] == entries.drop_last()[j].0);
                assert(shorter[2 * j + 1] == entries.drop_last()[j].1);
            }
        }
    }
}

/// The per-node part of the operator.
pub struct Resp;

impl NodeReader for Resp {
    open spec fn ready(&self) -> bool {
        true
    }

    open spec fn reads(&self, node: Seq<u8>) -> ReplyView {
        resp_of(node)
    }

    fn read(&self, node: &[u8]) -> (reply: Reply) {
        resp_from_cbor(node)
    }
}

/// Answers, for each node that the path selects in turn, with the node's
/// reply value.
pub fn resp(existing: &Document, cbor_path: &CborPath) -> (values: Vec<Reply>)
    requires
        path_safe(path_expr(*cbor_path)),
    ensures
        replies_view(values@) == Seq::new(
            selected(path_expr(*cbor_path), existing@).len(),
            |i: int| resp_of(selected(path_expr(*cbor_path), existing@)[i]),
        ),
{
    let replies = collect(cbor_path, existing, &Resp);
    proof {
        assert(replies_view(replies@) =~= Seq::new(
            selected(path_expr(*cbor_path), existing@).len(),
            |i: int| resp_of(selected(path_expr(*cbor_path), existing@)[i]),
        ));
    }
    replies
}

/// The command `key [path]`: answers with the list of [`resp`]. Fails
/// where the key is missing from the arguments, the path is no path
/// expression, the lookup failed or the key holds no document, in this
/// order.
pub fn cbor_resp(args: &Vec<Arg>, stored: Stored) -> (result: Result<Reply, CommandError>)
    ensures
        answered(result, read_command(Resp, args_view(args@), stored@)),
        result is Ok ==> default_is_root(args_view(args@), 2),
{
    run_read(&Resp, args, stored)
}

} // verus!

//! The keys of the maps that a path selects.

use cborpath::CborPath;

use vstd::prelude::*;

use crate::args::{
    answered, args_view, default_is_root, read_command, run_read, Arg, CommandError, Stored,
};
use crate::codec::{dict_entries, entries_of, kind_of, node_kind, pairs_view, NodeKind};
use crate::document::Document;
use crate::path::path_expr;
use crate::protocol::{collect, selected, NodeReader};
use crate::reply::{replies_view, Reply, ReplyView};
use crate::slices::path_safe;

verus! {

/// The encoded bytes of each key, as replies.
pub open spec fn key_replies(entries: Seq<(Seq<u8>, Seq<u8>)>) -> Seq<ReplyView> {
    Seq::new(entries.len(), |i: int| ReplyView::StringBuffer(entries[i].0))
}

/// The reply for one node: the list of a map's keys in document order,
/// each as its encoded bytes; null for any other node.
pub open spec fn map_keys_reply(node: Seq<u8>) -> ReplyView {
    if kind_of(node) == NodeKind::Dict {
        ReplyView::Array(key_replies(entries_of(node)))
    } else {
        ReplyView::Null
    }
}

/// The per-node part of the map keys operator.
pub struct MapKeys;

impl NodeReader for MapKeys {
    open spec fn ready(&self) -> bool {
        true
    }

    open spec fn reads(&self, node: Seq<u8>) -> ReplyView {
        map_keys_reply(node)
    }

    fn read(&self, node: &[u8]) -> (reply: Reply) {
        match node_kind(node) {
            NodeKind::Dict => {
                let entries = dict_entries(node);
                let mut keys: Vec<Reply> = Vec::new();
                let mut i: usize = 0;
                while i < entries.len()
                    invariant
                        i <= entries.len(),
                        keys@.len() == i,
                        forall|j: int|
                            0 <= j < i ==> (#[trigger] keys@[j])@ == ReplyView::StringBuffer(
                                entries@[j].0@,
                            ),
                    decreases entries.len() - i,
                {
                    keys.push(Reply::bytes(entries[i].0));
                    i += 1;
                }
                proof {
                    assert(replies_view(keys@) =~= key_replies(pairs_view(entries@)));
                }
                Reply::list(keys)
            },
            _ => Reply::Null,
        }
    }
}

/// Answers, for each node that the path selects in turn, with the list of
/// the keys of a map, or with null for a node that is no map.
pub fn map_keys(existing: &Document, cbor_path: &CborPath) -> (keys: Vec<Reply>)
    requires
        path_safe(path_expr(*cbor_path)),
    ensures
        replies_view(keys@) == Seq::new(
            selected(path_expr(*cbor_path), existing@).len(),
            |i: int| map_keys_reply(selected(path_expr(*cbor_path), existing@)[i]),
        ),
{
    let replies = collect(cbor_path, existing, &MapKeys);
    proof {
        assert(replies_view(replies@) =~= Seq::new(
            selected(path_expr(*cbor_path), existing@).len(),
            |i: int| map_keys_reply(selected(path_expr(*cbor_path), existing@)[i]),
        ));
    }
    replies
}

/// The command `key [path]`: answers with the list of [`map_keys`]. Fails where the key is
/// missing from the arguments, the path is no path expression, the lookup
/// failed or the key holds no document, in this order.
pub fn cbor_mapkeys(args: &Vec<Arg>, stored: Stored) -> (result: Result<Reply, CommandError>)
    ensures
        answered(result, read_command(MapKeys, args_view(args@), stored@)),
        result is Ok ==> default_is_root(args_view(args@), 2),
{
    run_read(&MapKeys, args, stored)
}

} // verus!

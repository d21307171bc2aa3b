//! The number of pairs of the maps that a path selects.

use cborpath::CborPath;

use vstd::prelude::*;

use crate::args::{
    answered, args_view, default_is_root, read_command, run_read, Arg, CommandError, Stored,
};
use crate::codec::{dict_entries, entries_of, kind_of, node_kind, NodeKind};
use crate::document::Document;
use crate::path::path_expr;
use crate::protocol::{collect, selected, NodeReader};
use crate::reply::{length_reply, replies_view, Reply, ReplyView};
use crate::slices::path_safe;

verus! {

/// The reply for one node: the number of pairs of a map, null for any
/// other node.
pub open spec fn map_len_reply(node: Seq<u8>) -> ReplyView {
    if kind_of(node) == NodeKind::Dict {
        length_reply(entries_of(node).len())
    } else {
        ReplyView::Null
    }
}

/// The per-node part of the map length operator.
pub struct MapLength;

impl NodeReader for MapLength {
    open spec fn ready(&self) -> bool {
        true
    }

    open spec fn reads(&self, node: Seq<u8>) -> ReplyView {
        map_len_reply(node)
    }

    fn read(&self, node: &[u8]) -> (reply: Reply) {
        match node_kind(node) {
            NodeKind::Dict => {
                let entries = dict_entries(node);
                proof {
                    assert(crate::codec::pairs_view(entries@).len() == entries@.len());
                }
                Reply::length(entries.len())
            },
            _ => Reply::Null,
        }
    }
}

/// Answers, for each node that the path selects in turn, with the number
/// of pairs of a map, or with null for a node that is no map.
pub fn map_len(existing: &Document, cbor_path: &CborPath) -> (lengths: Vec<Reply>)
    requires
        path_safe(path_expr(*cbor_path)),
    ensures
        replies_view(lengths@) == Seq::new(
            selected(path_expr(*cbor_path), existing@).len(),
            |i: int| map_len_reply(selected(path_expr(*cbor_path), existing@)[i]),
        ),
{
    let replies = collect(cbor_path, existing, &MapLength);
    proof {
        assert(replies_view(replies@) =~= Seq::new(
            selected(path_expr(*cbor_path), existing@).len(),
            |i: int| map_len_reply(selected(path_expr(*cbor_path), existing@)[i]),
        ));
    }
    replies
}

/// The command `key [path]`: answers with the list of [`map_len`]. Fails where the key is
/// missing from the arguments, the path is no path expression, the lookup
/// failed or the key holds no document, in this order.
pub fn cbor_map_len(args: &Vec<Arg>, stored: Stored) -> (result: Result<Reply, CommandError>)
    ensures
        answered(result, read_command(MapLength, args_view(args@), stored@)),
        result is Ok ==> default_is_root(args_view(args@), 2),
{
    run_read(&MapLength, args, stored)
}

} // verus!

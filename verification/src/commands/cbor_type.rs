//! The type names of the nodes that a path selects.

use cborpath::CborPath;

use vstd::prelude::*;

use crate::args::{
    answered, args_view, default_is_root, read_command, run_read, Arg, CommandError, Stored,
};
use crate::codec::{kind_of, node_kind, NodeKind};
use crate::document::Document;
use crate::path::path_expr;
use crate::protocol::{collect, selected, NodeReader};
use crate::reply::{replies_view, Reply, ReplyView};
use crate::slices::path_safe;

verus! {

/// The name of a kind.
pub open spec fn kind_name(kind: NodeKind) -> Seq<char> {
    match kind {
        NodeKind::Pos(_) => "unsigned"@,
        NodeKind::Neg(_) => "negative"@,
        NodeKind::Float(_) => "float"@,
        NodeKind::Str => "string"@,
        NodeKind::Bytes => "bytestring"@,
        NodeKind::Bool(_) => "boolean"@,
        NodeKind::Null => "null"@,
        NodeKind::Undefined => "undefined"@,
        NodeKind::Simple(_) => "simple"@,
        NodeKind::Array => "array"@,
        NodeKind::Dict => "map"@,
    }
}

/// The per-node part of the type operator.
pub struct TypeName;

/// The name of a kind, as text.
pub fn name_of(kind: NodeKind) -> (name: &'static str)
    ensures
        name@ == kind_name(kind),
{
    match kind {
        NodeKind::Pos(_) => "unsigned",
        NodeKind::Neg(_) => "negative",
        NodeKind::Float(_) => "float",
        NodeKind::Str => "string",
        NodeKind::Bytes => "bytestring",
        NodeKind::Bool(_) => "boolean",
        NodeKind::Null => "null",
        NodeKind::Undefined => "undefined",
        NodeKind::Simple(_) => "simple",
        NodeKind::Array => "array",
        NodeKind::Dict => "map",
    }
}

impl NodeReader for TypeName {
    open spec fn ready(&self) -> bool {
        true
    }

    open spec fn reads(&self, node: Seq<u8>) -> ReplyView {
        ReplyView::BulkString(kind_name(kind_of(node)))
    }

    fn read(&self, node: &[u8]) -> (reply: Reply) {
        Reply::BulkString(name_of(node_kind(node)).to_owned())
    }
}

/// Answers, for each node that the path selects in turn, with the name of
/// the node's kind. Every kind has a name.
pub fn _type(existing: &Document, cbor_path: &CborPath) -> (names: Vec<Reply>)
    requires
        path_safe(path_expr(*cbor_path)),
    ensures
        replies_view(names@) == Seq::new(
            selected(path_expr(*cbor_path), existing@).len(),
            |i: int|
                ReplyView::BulkString(
                    kind_name(kind_of(selected(path_expr(*cbor_path), existing@)[i])),
                ),
        ),
{
    let replies = collect(cbor_path, existing, &TypeName);
    proof {
        assert(replies_view(replies@) =~= Seq::new(
            selected(path_expr(*cbor_path), existing@).len(),
            |i: int|
                ReplyView::BulkString(
                    kind_name(kind_of(selected(path_expr(*cbor_path), existing@)[i])),
                ),
        ));
    }
    replies
}

/// The command `key [path]`: answers with the list of [`_type`]. Fails where the key is
/// missing from the arguments, the path is no path expression, the lookup
/// failed or the key holds no document, in this order.
pub fn cbor_type(args: &Vec<Arg>, stored: Stored) -> (result: Result<Reply, CommandError>)
    ensures
        answered(result, read_command(TypeName, args_view(args@), stored@)),
        result is Ok ==> default_is_root(args_view(args@), 2),
{
    run_read(&TypeName, args, stored)
}

} // verus!

//! The length of the text strings that a path selects.

use cborpath::CborPath;

use vstd::prelude::*;
use vstd::string::StringSliceAdditionalSpecFns;
use vstd::utf8::encode_utf8;

use crate::args::{
    answered, args_view, default_is_root, read_command, run_read, Arg, CommandError, Stored,
};
use crate::codec::{kind_of, node_kind, node_text, text_of, NodeKind};
use crate::document::Document;
use crate::path::path_expr;
use crate::protocol::{collect, selected, NodeReader};
use crate::reply::{length_reply, replies_view, Reply, ReplyView};
use crate::slices::path_safe;

verus! {

/// The reply for one node: the length in bytes of a text string's UTF-8
/// form, null for any other node.
pub open spec fn str_len_reply(node: Seq<u8>) -> ReplyView {
    if kind_of(node) == NodeKind::Str {
        length_reply(encode_utf8(text_of(node)).len())
    } else {
        ReplyView::Null
    }
}

/// The per-node part of the string length operator.
pub struct StringLength;

impl NodeReader for StringLength {
    open spec fn ready(&self) -> bool {
        true
    }

    open spec fn reads(&self, node: Seq<u8>) -> ReplyView {
        str_len_reply(node)
    }

    fn read(&self, node: &[u8]) -> (reply: Reply) {
        match node_kind(node) {
            NodeKind::Str => {
                let text = node_text(node);
                Reply::length(text.as_str().as_bytes().len())
            },
            _ => Reply::Null,
        }
    }
}

/// Answers, for each node that the path selects in turn, with the length
/// of a text string, or with null for a node that is no text string.
pub fn str_len(existing: &Document, cbor_path: &CborPath) -> (lengths: Vec<Reply>)
    requires
        path_safe(path_expr(*cbor_path)),
    ensures
        replies_view(lengths@) == Seq::new(
            selected(path_expr(*cbor_path), existing@).len(),
            |i: int| str_len_reply(selected(path_expr(*cbor_path), existing@)[i]),
        ),
{
    let replies = collect(cbor_path, existing, &StringLength);
    proof {
        assert(replies_view(replies@) =~= Seq::new(
            selected(path_expr(*cbor_path), existing@).len(),
            |i: int| str_len_reply(selected(path_expr(*cbor_path), existing@)[i]),
        ));
    }
    replies
}

/// The command `key [path]`: answers with the list of [`str_len`]. Fails where the key is
/// missing from the arguments, the path is no path expression, the lookup
/// failed or the key holds no document, in this order.
pub fn cbor_str_len(args: &Vec<Arg>, stored: Stored) -> (result: Result<Reply, CommandError>)
    ensures
        answered(result, read_command(StringLength, args_view(args@), stored@)),
        result is Ok ==> default_is_root(args_view(args@), 2),
{
    run_read(&StringLength, args, stored)
}

} // verus!

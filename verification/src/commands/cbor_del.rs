//! Deletion of the nodes that a path selects.

use cborpath::CborPath;

use vstd::prelude::*;

use crate::args::{
    args_view, default_is_root, ended, existing_document, optional_path, path_or_root,
    stored_document, Arg, ArgView, CommandError, Stored, StoredView, Written, WrittenView,
};
use crate::document::Document;
use crate::path::{is_root, path_expr, path_is_root, rebuilt, write_targets};
use crate::protocol::{
    apply, doc_view, edited, lemma_applied_function, lemma_emitted_each, replacements, Edit,
    NodeEditor, Outcome, Transform,
};
use crate::reply::{length_reply, replies_view, Reply, ReplyView};
use crate::slices::path_safe;

verus! {

/// What a deletion decides on every node: the node leaves its container.
pub open spec fn del_outcome() -> Outcome {
    Outcome { replacement: None, reply: Some(ReplyView::Null) }
}

/// The per-node part of a deletion. It answers once for each node, so
/// that the nodes can be counted.
pub struct Delete;

impl NodeEditor for Delete {
    open spec fn ready(&self) -> bool {
        true
    }

    open spec fn edits(&self, node: Seq<u8>, outcome: Outcome) -> bool {
        outcome == del_outcome()
    }

    fn edit(&self, node: &[u8]) -> (edit: Edit) {
        Edit { transform: Transform::Delete, reply: Some(Reply::Null) }
    }
}

/// The document without the nodes that the path selects, and their
/// number. The root has no container to leave: the root path deletes
/// nothing.
pub open spec fn del_result(expr: Seq<u8>, doc: Seq<u8>) -> (Option<Seq<u8>>, nat) {
    if path_is_root(expr) {
        (None, 0)
    } else {
        let count = write_targets(expr, doc).len();
        (rebuilt(expr, doc, Seq::new(count, |i: int| None)), count)
    }
}

/// Removes every node that the path selects from its enclosing container.
/// Answers with the number of nodes removed; there is a new document
/// whenever that number is not zero.
pub fn del(existing: &Document, cbor_path: &CborPath) -> (result: (Option<Document>, usize))
    requires
        path_safe(path_expr(*cbor_path)),
    ensures
        doc_view(result.0) == del_result(path_expr(*cbor_path), existing@).0,
        result.1 == del_result(path_expr(*cbor_path), existing@).1,
        result.1 > 0 ==> result.0 is Some,
{
    if is_root(cbor_path) {
        return (None, 0);
    }
    let (new_value, replies) = apply(cbor_path, existing, &Delete);
    proof {
        let expr = path_expr(*cbor_path);
        let decide = |node: Seq<u8>| del_outcome();
        lemma_applied_function(
            Delete,
            decide,
            expr,
            existing@,
            doc_view(new_value),
            replies_view(replies@),
        );
        let outcomes = edited(expr, existing@, decide);
        lemma_emitted_each(outcomes);
        assert(replies_view(replies@).len() == outcomes.len());
        assert(replacements(outcomes) =~= Seq::new(
            write_targets(expr, existing@).len(),
            |i: int| None::<Seq<u8>>,
        ));
    }
    let num_deleted = replies.len();
    (new_value, num_deleted)
}

/// What the command `key [path]` yields.
pub open spec fn del_command(args: Seq<ArgView>, stored: StoredView) -> Result<
    WrittenView,
    CommandError,
> {
    if args.len() < 2 {
        Err(CommandError::WrongArity)
    } else {
        match optional_path(args, 2) {
            Err(e) => Err(e),
            Ok(expr) => match stored_document(stored) {
                Err(e) => Err(e),
                Ok(doc) => Ok(
                    WrittenView {
                        new_value: del_result(expr, doc).0,
                        reply: length_reply(del_result(expr, doc).1),
                        event: "cbor.del"@,
                    },
                ),
            },
        }
    }
}

/// The command `key [path]`: deletes as [`del`] does and answers with the
/// number of nodes removed. Fails where the key is missing from the
/// arguments, the path is no path expression, the lookup failed or the
/// key holds no document, in this order.
pub fn cbor_del(args: &Vec<Arg>, stored: Stored) -> (result: Result<Written, CommandError>)
    ensures
        ended(result, del_command(args_view(args@), stored@)),
        result is Ok ==> default_is_root(args_view(args@), 2),
{
    if args.len() < 2 {
        return Err(CommandError::WrongArity);
    }
    let cbor_path = match path_or_root(args, 2) {
        Ok(value) => value,
        Err(e) => {
            return Err(e);
        },
    };
    let existing = match existing_document(&stored) {
        Ok(value) => value,
        Err(e) => {
            return Err(e);
        },
    };
    let (new_value, num_deleted) = del(existing, &cbor_path);
    Ok(Written { new_value, reply: Reply::length(num_deleted), event: "cbor.del" })
}

} // verus!

//! Toggling the booleans that a path selects.

use cborpath::CborPath;

use vstd::prelude::*;

use crate::args::{
    args_view, ended, existing_document, explicit_path, finish, stored_document, written_each, Arg,
    ArgView, CommandError, Stored, StoredView, Written, WrittenView,
};
use crate::codec::{encode_bool, kind_of, node_kind, NodeKind};
use crate::document::Document;
use crate::format::bool_encoding;
use crate::path::path_expr;
use crate::protocol::{
    apply, doc_view, edited, lemma_applied_function, lemma_emitted_each, none_only_without_targets,
    replacements, replies_of, rewritten, targets, Edit, NodeEditor, Outcome, Transform,
};
use crate::reply::{replies_view, Reply, ReplyView};
use crate::slices::path_safe;
use crate::util::CborPathExt;

verus! {

/// What a toggle decides on one node: a boolean gives way to its
/// negation, which is also the answer; any other node stays and answers
/// with null.
pub open spec fn toggle_outcome(node: Seq<u8>) -> Outcome {
    match kind_of(node) {
        NodeKind::Bool(b) => Outcome {
            replacement: Some(bool_encoding(!b)),
            reply: Some(ReplyView::Boolean(!b)),
        },
        _ => Outcome { replacement: Some(node), reply: Some(ReplyView::Null) },
    }
}

/// The per-node part of a toggle.
pub struct Toggle;

impl NodeEditor for Toggle {
    open spec fn ready(&self) -> bool {
        true
    }

    open spec fn edits(&self, node: Seq<u8>, outcome: Outcome) -> bool {
        outcome == toggle_outcome(node)
    }

    fn edit(&self, node: &[u8]) -> (edit: Edit) {
        match node_kind(node) {
            NodeKind::Bool(b) => Edit {
                transform: Transform::Replace(encode_bool(!b)),
                reply: Some(Reply::Boolean(!b)),
            },
            _ => Edit { transform: Transform::Unchanged, reply: Some(Reply::Null) },
        }
    }
}

/// Negates every boolean that the path selects. Answers, for each
/// selected node in turn, with the new boolean, or with null for a node
/// that is no boolean.
pub fn toggle(existing: &Document, cbor_path: &CborPath) -> (result: (Option<Document>, Vec<Reply>))
    requires
        path_safe(path_expr(*cbor_path)),
    ensures
        ({
            let outcomes = edited(
                path_expr(*cbor_path),
                existing@,
                |node: Seq<u8>| toggle_outcome(node),
            );
            &&& replies_view(result.1@) == replies_of(outcomes)
            &&& doc_view(result.0) == rewritten(path_expr(*cbor_path), existing@, replacements(outcomes))
        }),
        none_only_without_targets(
            path_expr(*cbor_path),
            doc_view(result.0),
            targets(path_expr(*cbor_path), existing@).len(),
        ),
{
    let result = apply(cbor_path, existing, &Toggle);
    proof {
        let decide = |node: Seq<u8>| toggle_outcome(node);
        lemma_applied_function(
            Toggle,
            decide,
            path_expr(*cbor_path),
            existing@,
            doc_view(result.0),
            replies_view(result.1@),
        );
        lemma_emitted_each(edited(path_expr(*cbor_path), existing@, decide));
    }
    result
}

/// What the command `key path` yields.
pub open spec fn toggle_command(args: Seq<ArgView>, stored: StoredView) -> Result<
    WrittenView,
    CommandError,
> {
    if args.len() < 3 {
        Err(CommandError::WrongArity)
    } else {
        match explicit_path(args[2]) {
            Err(e) => Err(e),
            Ok(expr) => match stored_document(stored) {
                Err(e) => Err(e),
                Ok(doc) => Ok(
                    written_each(expr, doc, |node: Seq<u8>| toggle_outcome(node), "cbor.toggle"@),
                ),
            },
        }
    }
}

/// The command `key path`: toggles as [`toggle`] does and answers with
/// the list of its replies. Fails where the key or the path is missing,
/// the path is no path expression, the lookup failed or the key holds no
/// document, in this order.
pub fn cbor_toggle(args: &Vec<Arg>, stored: Stored) -> (result: Result<Written, CommandError>)
    ensures
        ended(result, toggle_command(args_view(args@), stored@)),
{
    if args.len() < 3 {
        return Err(CommandError::WrongArity);
    }
    let cbor_path = match CborPath::from_arg(&args[2]) {
        Ok(value) => value,
        Err(e) => {
            return Err(e);
        },
    };
    let existing = match existing_document(&stored) {
        Ok(value) => value,
        Err(e) => {
            return Err(e);
        },
    };
    Ok(finish(toggle(existing, &cbor_path), "cbor.toggle"))
}

} // verus!

//! Appending text to the text strings that a path selects.

use cborpath::CborPath;

use vstd::prelude::*;
use vstd::string::StringSliceAdditionalSpecFns;
use vstd::utf8::encode_utf8;

use crate::args::{
    args_view, as_text, ended, existing_document, explicit_path, finish, stored_document, text,
    written_each, Arg, ArgView, CommandError, Stored, StoredView, Written, WrittenView,
};
use crate::codec::{encode_text_pair, kind_of, node_kind, node_text, text_of, NodeKind};
use crate::document::Document;
use crate::format::text_encoding;
use crate::path::path_expr;
use crate::protocol::{
    apply, doc_view, edited, lemma_applied_function, lemma_emitted_each, none_only_without_targets,
    replacements, replies_of, rewritten, targets, Edit, NodeEditor, Outcome, Transform,
};
use crate::reply::{length_reply, replies_view, Reply, ReplyView};
use crate::slices::path_safe;
use crate::util::CborPathExt;

verus! {

/// What a string append decides on one node: a text string gives way to
/// the text string of its text followed by the text whose UTF-8 form is
/// `value`, and answers with the length in bytes of the new text; any
/// other node stays and answers with null.
pub open spec fn str_append_outcome(node: Seq<u8>, value: Seq<u8>) -> Outcome {
    if kind_of(node) == NodeKind::Str {
        let text = encode_utf8(text_of(node)) + value;
        Outcome { replacement: Some(text_encoding(text)), reply: Some(length_reply(text.len())) }
    } else {
        Outcome { replacement: Some(node), reply: Some(ReplyView::Null) }
    }
}

/// The per-node part of a string append.
pub struct StringAppend<'a> {
    pub value: &'a str,
}

impl<'a> NodeEditor for StringAppend<'a> {
    open spec fn ready(&self) -> bool {
        true
    }

    open spec fn edits(&self, node: Seq<u8>, outcome: Outcome) -> bool {
        outcome == str_append_outcome(node, self.value.spec_bytes())
    }

    fn edit(&self, node: &[u8]) -> (edit: Edit) {
        match node_kind(node) {
            NodeKind::Str => {
                let text = node_text(node);
                let bytes = encode_text_pair(text.as_str(), self.value);
                let old_len: u128 = text.as_str().as_bytes().len() as u128;
                let added: u128 = self.value.as_bytes().len() as u128;
                Edit {
                    transform: Transform::Replace(bytes),
                    reply: Some(Reply::wide_length(old_len + added)),
                }
            },
            _ => Edit { transform: Transform::Unchanged, reply: Some(Reply::Null) },
        }
    }
}

/// Appends `value` to every text string that the path selects. Answers,
/// for each selected node in turn, with the length of the new text, or
/// with null for a node that is no text string.
pub fn str_append(existing: &Document, cbor_path: &CborPath, value: &str) -> (result: (
    Option<Document>,
    Vec<Reply>,
))
    requires
        path_safe(path_expr(*cbor_path)),
    ensures
        ({
            let outcomes = edited(
                path_expr(*cbor_path),
                existing@,
                |node: Seq<u8>| str_append_outcome(node, value.spec_bytes()),
            );
            &&& replies_view(result.1@) == replies_of(outcomes)
            &&& doc_view(result.0) == rewritten(path_expr(*cbor_path), existing@, replacements(outcomes))
        }),
        none_only_without_targets(
            path_expr(*cbor_path),
            doc_view(result.0),
            targets(path_expr(*cbor_path), existing@).len(),
        ),
{
    let editor = StringAppend { value };
    let result = apply(cbor_path, existing, &editor);
    proof {
        let decide = |node: Seq<u8>| str_append_outcome(node, value.spec_bytes());
        lemma_applied_function(
            editor,
            decide,
            path_expr(*cbor_path),
            existing@,
            doc_view(result.0),
            replies_view(result.1@),
        );
        lemma_emitted_each(edited(path_expr(*cbor_path), existing@, decide));
    }
    result
}

/// What the command `key path value` yields.
pub open spec fn str_append_command(args: Seq<ArgView>, stored: StoredView) -> Result<
    WrittenView,
    CommandError,
> {
    if args.len() < 4 {
        Err(CommandError::WrongArity)
    } else {
        match explicit_path(args[2]) {
            Err(e) => Err(e),
            Ok(expr) => match text(args[3]) {
                Err(e) => Err(e),
                Ok(value) => match stored_document(stored) {
                    Err(e) => Err(e),
                    Ok(doc) => Ok(
                        written_each(
                            expr,
                            doc,
                            |node: Seq<u8>| str_append_outcome(node, value),
                            "cbor.strappend"@,
                        ),
                    ),
                },
            },
        }
    }
}

/// The command `key path value`: appends the text as [`str_append`] does
/// and answers with the list of its replies. Fails where the key, the
/// path or the value is missing, the path is no path expression, the
/// value is not UTF-8, the lookup failed or the key holds no document, in
/// this order.
pub fn cbor_str_append(args: &Vec<Arg>, stored: Stored) -> (result: Result<Written, CommandError>)
    ensures
        ended(result, str_append_command(args_view(args@), stored@)),
{
    if args.len() < 4 {
        return Err(CommandError::WrongArity);
    }
    let cbor_path = match CborPath::from_arg(&args[2]) {
        Ok(value) => value,
        Err(e) => {
            return Err(e);
        },
    };
    let value = match as_text(args[3].bytes) {
        Some(value) => value,
        None => {
            return Err(CommandError::NotUtf8);
        },
    };
    let existing = match existing_document(&stored) {
        Ok(value) => value,
        Err(e) => {
            return Err(e);
        },
    };
    Ok(finish(str_append(existing, &cbor_path, value), "cbor.strappend"))
}

} // verus!

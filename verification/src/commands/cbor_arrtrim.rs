//! Trimming the arrays that a path selects to a range.

use cborpath::CborPath;

use vstd::prelude::*;

use crate::args::{
    args_view, default_is_root, ended, existing_document, finish, integer_or, lemma_same_edited,
    optional_integer, optional_path, path_or_root, stored_document, written_each, Arg, ArgView,
    CommandError, Stored, StoredView, Written, WrittenView,
};
use crate::codec::{array_items, encode_array, items_of, kind_of, node_kind, slices_view, NodeKind};
use crate::document::Document;
use crate::format::array_encoding;
use crate::index::{normalize_index, slice_range, trim_to};
use crate::path::path_expr;
use crate::protocol::{
    apply, doc_view, edited, lemma_applied_function, lemma_emitted_each, none_only_without_targets,
    replacements, replies_of, rewritten, targets, Edit, NodeEditor, Outcome, Transform,
};
use crate::reply::{length_reply, replies_view, Reply, ReplyView};
use crate::slices::path_safe;

verus! {

/// What a trim decides on one node: an array gives way to the array of its
/// elements from the position of `start` to that of `stop`, both included,
/// and answers with the length of what is left; any other node stays and
/// answers with null.
pub open spec fn trim_outcome(node: Seq<u8>, start: int, stop: int) -> Outcome {
    if kind_of(node) == NodeKind::Array {
        let items = trim_to(items_of(node), start, stop);
        Outcome {
            replacement: Some(array_encoding(items)),
            reply: Some(length_reply(items.len())),
        }
    } else {
        Outcome { replacement: Some(node), reply: Some(ReplyView::Null) }
    }
}

/// The per-node part of a trim.
pub struct ArrayTrim {
    pub start: i64,
    pub stop: i64,
}

impl NodeEditor for ArrayTrim {
    open spec fn ready(&self) -> bool {
        true
    }

    open spec fn edits(&self, node: Seq<u8>, outcome: Outcome) -> bool {
        outcome == trim_outcome(node, self.start as int, self.stop as int)
    }

    fn edit(&self, node: &[u8]) -> (edit: Edit) {
        match node_kind(node) {
            NodeKind::Array => {
                let items = array_items(node);
                let first = normalize_index(self.start, items.len());
                let last = normalize_index(self.stop, items.len());
                let new_items = write_array(&items, first, last);
                let bytes = encode_array(&new_items);
                Edit { transform: Transform::Replace(bytes), reply: Some(Reply::length(new_items.len())) }
            },
            _ => Edit { transform: Transform::Unchanged, reply: Some(Reply::Null) },
        }
    }
}

/// The items from `start` to `stop`, both included, as far as there are
/// any; none if `start` lies behind `stop`.
pub(crate) fn write_array<'a>(existing_items: &Vec<&'a [u8]>, start: usize, stop: usize) -> (items: Vec<
    &'a [u8],
>)
    requires
        start <= existing_items.len(),
        stop <= existing_items.len(),
    ensures
        slices_view(items@) == trim_to(slices_view(existing_items@), start as int, stop as int),
        crate::codec::all_cbor(slices_view(existing_items@)) ==> crate::codec::all_cbor(
            slices_view(items@),
        ),
{
    if start > stop {
        let items = slice_range(existing_items, 0, 0);
        proof {
            assert(slices_view(items@) =~= Seq::<Seq<u8>>::empty());
        }
        items
    } else if stop < existing_items.len() {
        slice_range(existing_items, start, stop + 1)
    } else {
        slice_range(existing_items, start, existing_items.len())
    }
}

/// Trims every array that the path selects to the elements from the
/// position of `start` to that of `stop`. Answers, for each selected node
/// in turn, with the length of what is left, or with null for a node that
/// is no array.
pub fn array_trim(existing: &Document, cbor_path: &CborPath, start: i64, stop: i64) -> (result: (
    Option<Document>,
    Vec<Reply>,
))
    requires
        path_safe(path_expr(*cbor_path)),
    ensures
        ({
            let outcomes = edited(
                path_expr(*cbor_path),
                existing@,
                |node: Seq<u8>| trim_outcome(node, start as int, stop as int),
            );
            &&& replies_view(result.1@) == replies_of(outcomes)
            &&& doc_view(result.0) == rewritten(path_expr(*cbor_path), existing@, replacements(outcomes))
        }),
        none_only_without_targets(
            path_expr(*cbor_path),
            doc_view(result.0),
            targets(path_expr(*cbor_path), existing@).len(),
        ),
{
    let editor = ArrayTrim { start, stop };
    let result = apply(cbor_path, existing, &editor);
    proof {
        let decide = |node: Seq<u8>| trim_outcome(node, start as int, stop as int);
        lemma_applied_function(
            editor,
            decide,
            path_expr(*cbor_path),
            existing@,
            doc_view(result.0),
            replies_view(result.1@),
        );
        lemma_emitted_each(edited(path_expr(*cbor_path), existing@, decide));
    }
    result
}

/// What the command `key [path [start [stop]]]` yields. The path defaults
/// to the root, `start` to 0 and `stop` to -1.
pub open spec fn arr_trim_command(args: Seq<ArgView>, stored: StoredView) -> Result<
    WrittenView,
    CommandError,
> {
    if args.len() < 2 {
        Err(CommandError::WrongArity)
    } else {
        match optional_path(args, 2) {
            Err(e) => Err(e),
            Ok(expr) => match optional_integer(args, 3, 0i64) {
                Err(e) => Err(e),
                Ok(start) => match optional_integer(args, 4, -1i64) {
                    Err(e) => Err(e),
                    Ok(stop) => match stored_document(stored) {
                        Err(e) => Err(e),
                        Ok(doc) => Ok(
                            written_each(
                                expr,
                                doc,
                                |node: Seq<u8>| trim_outcome(node, start as int, stop as int),
                                "cbor.arrtrim"@,
                            ),
                        ),
                    },
                },
            },
        }
    }
}

/// The command `key [path [start [stop]]]`: trims as [`array_trim`] does
/// and answers with the list of its replies. Fails where the key is
/// missing from the arguments, the path is no path expression, `start` or
/// `stop` is no integer, the lookup failed or the key holds no document,
/// in this order.
pub fn cbor_arr_trim(args: &Vec<Arg>, stored: Stored) -> (result: Result<Written, CommandError>)
    ensures
        ended(result, arr_trim_command(args_view(args@), stored@)),
        result is Ok ==> default_is_root(args_view(args@), 2),
{
    if args.len() < 2 {
        return Err(CommandError::WrongArity);
    }
    let cbor_path = match path_or_root(args, 2) {
        Ok(value) => value,
        Err(e) => {
            return Err(e);
        },
    };
    let start = match integer_or(args, 3, 0) {
        Ok(value) => value,
        Err(e) => {
            return Err(e);
        },
    };
    let stop = match integer_or(args, 4, -1) {
        Ok(value) => value,
        Err(e) => {
            return Err(e);
        },
    };
    let existing = match existing_document(&stored) {
        Ok(value) => value,
        Err(e) => {
            return Err(e);
        },
    };
    proof {
        lemma_same_edited(
            path_expr(cbor_path),
            optional_path(args_view(args@), 2)->Ok_0,
            existing@,
            |node: Seq<u8>| trim_outcome(node, start as int, stop as int),
        );
    }
    Ok(finish(array_trim(existing, &cbor_path, start, stop), "cbor.arrtrim"))
}

} // verus!

//! Removal of one element from the arrays that a path selects.

use cborpath::CborPath;

use vstd::prelude::*;

use crate::args::{
    args_view, default_is_root, ended, existing_document, finish, integer_or, lemma_same_edited,
    optional_integer, optional_path, path_or_root, stored_document, Arg, ArgView, CommandError,
    Stored, StoredView, Written, WrittenView,
};
use crate::codec::{
    all_cbor, array_items, encode_array, items_of, kind_of, node_kind, slices_view, NodeKind,
};
use crate::document::Document;
use crate::format::array_encoding;
use crate::index::{normalize_index, pop_at, pop_position, splice};
use crate::path::path_expr;
use crate::protocol::{
    apply, doc_view, edited, emitted, lemma_applied_function, none_only_without_targets,
    replacements, rewritten, targets, Edit, NodeEditor, Outcome, Transform,
};
use crate::reply::{replies_view, Reply, ReplyView};
use crate::slices::path_safe;

verus! {

/// What a pop decides on one node: an array gives way to the array
/// without the element at the position of `index`, and answers with that
/// element's bytes; where the position lies behind the last element, the
/// array is written anew with all its items and nothing is answered. Any
/// other node stays and answers with null.
pub open spec fn pop_outcome(node: Seq<u8>, index: int) -> Outcome {
    if kind_of(node) == NodeKind::Array {
        let items = items_of(node);
        Outcome {
            replacement: Some(array_encoding(pop_at(items, index))),
            reply: match pop_position(index, items.len()) {
                Some(position) => Some(ReplyView::StringBuffer(items[position as int])),
                None => None,
            },
        }
    } else {
        Outcome { replacement: Some(node), reply: Some(ReplyView::Null) }
    }
}

/// The per-node part of a pop.
pub struct ArrayPop {
    pub index: i64,
}

impl NodeEditor for ArrayPop {
    open spec fn ready(&self) -> bool {
        true
    }

    open spec fn edits(&self, node: Seq<u8>, outcome: Outcome) -> bool {
        outcome == pop_outcome(node, self.index as int)
    }

    fn edit(&self, node: &[u8]) -> (edit: Edit) {
        match node_kind(node) {
            NodeKind::Array => {
                let items = array_items(node);
                let position = normalize_index(self.index, items.len());
                let (new_items, popped) = write_array(&items, position);
                let bytes = encode_array(&new_items);
                let reply = match popped {
                    Some(item) => Some(Reply::bytes(item)),
                    None => None,
                };
                Edit { transform: Transform::Replace(bytes), reply }
            },
            _ => Edit { transform: Transform::Unchanged, reply: Some(Reply::Null) },
        }
    }
}

/// The items without the one at `index`, and that one; all the items and
/// nothing where there is none at `index`.
pub(crate) fn write_array<'a>(existing_items: &Vec<&'a [u8]>, index: usize) -> (result: (
    Vec<&'a [u8]>,
    Option<&'a [u8]>,
))
    ensures
        slices_view(result.0@) == pop_at(slices_view(existing_items@), index as int),
        match result.1 {
            Some(item) => pop_position(index as int, existing_items@.len()) == Some(index as nat)
                && item@ == slices_view(existing_items@)[index as int],
            None => pop_position(index as int, existing_items@.len()) is None,
        },
        all_cbor(slices_view(existing_items@)) ==> all_cbor(slices_view(result.0@)),
{
    let nothing: Vec<&'a [u8]> = Vec::new();
    proof {
        assert(slices_view(nothing@) =~= Seq::<Seq<u8>>::empty());
    }
    if index < existing_items.len() {
        let popped = existing_items[index];
        let items = splice(existing_items, index, &nothing, index + 1);
        proof {
            assert(slices_view(items@) =~= slices_view(existing_items@).remove(index as int));
        }
        (items, Some(popped))
    } else {
        let items = splice(existing_items, existing_items.len(), &nothing, existing_items.len());
        proof {
            assert(slices_view(items@) =~= slices_view(existing_items@));
        }
        (items, None)
    }
}

/// Removes, from every array that the path selects, the element at the
/// position that `index` denotes in that array. Answers, for each selected
/// node in turn, with the bytes of the removed element, with nothing at
/// all for an array that has no element there, or with null for a node
/// that is no array.
pub fn array_pop(existing: &Document, cbor_path: &CborPath, index: i64) -> (result: (
    Option<Document>,
    Vec<Reply>,
))
    requires
        path_safe(path_expr(*cbor_path)),
    ensures
        ({
            let outcomes = edited(
                path_expr(*cbor_path),
                existing@,
                |node: Seq<u8>| pop_outcome(node, index as int),
            );
            &&& replies_view(result.1@) == emitted(outcomes)
            &&& doc_view(result.0) == rewritten(path_expr(*cbor_path), existing@, replacements(outcomes))
        }),
        none_only_without_targets(
            path_expr(*cbor_path),
            doc_view(result.0),
            targets(path_expr(*cbor_path), existing@).len(),
        ),
{
    let editor = ArrayPop { index };
    let result = apply(cbor_path, existing, &editor);
    proof {
        lemma_applied_function(
            editor,
            |node: Seq<u8>| pop_outcome(node, index as int),
            path_expr(*cbor_path),
            existing@,
            doc_view(result.0),
            replies_view(result.1@),
        );
    }
    result
}

/// What the command `key [path [index]]` yields. The path defaults to
/// the root and the index to -1.
pub open spec fn arr_pop_command(args: Seq<ArgView>, stored: StoredView) -> Result<
    WrittenView,
    CommandError,
> {
    if args.len() < 2 {
        Err(CommandError::WrongArity)
    } else {
        match optional_path(args, 2) {
            Err(e) => Err(e),
            Ok(expr) => match optional_integer(args, 3, -1i64) {
                Err(e) => Err(e),
                Ok(index) => match stored_document(stored) {
                    Err(e) => Err(e),
                    Ok(doc) => {
                        let outcomes = edited(expr, doc, |node: Seq<u8>| pop_outcome(node, index as int));
                        Ok(
                            WrittenView {
                                new_value: rewritten(expr, doc, replacements(outcomes)),
                                reply: ReplyView::Array(emitted(outcomes)),
                                event: "cbor.arrpop"@,
                            },
                        )
                    },
                },
            },
        }
    }
}

/// The command `key [path [index]]`: pops as [`array_pop`] does and
/// answers with the list of its replies. Fails where the key is missing
/// from the arguments, the path is no path expression, the index is no
/// integer, the lookup failed or the key holds no document, in this
/// order.
pub fn cbor_arr_pop(args: &Vec<Arg>, stored: Stored) -> (result: Result<Written, CommandError>)
    ensures
        ended(result, arr_pop_command(args_view(args@), stored@)),
        result is Ok ==> default_is_root(args_view(args@), 2),
{
    if args.len() < 2 {
        return Err(CommandError::WrongArity);
    }
    let cbor_path = match path_or_root(args, 2) {
        Ok(value) => value,
        Err(e) => {
            return Err(e);
        },
    };
    let index = match integer_or(args, 3, -1) {
        Ok(value) => value,
        Err(e) => {
            return Err(e);
        },
    };
    let existing = match existing_document(&stored) {
        Ok(value) => value,
        Err(e) => {
            return Err(e);
        },
    };
    proof {
        lemma_same_edited(
            path_expr(cbor_path),
            optional_path(args_view(args@), 2)->Ok_0,
            existing@,
            |node: Seq<u8>| pop_outcome(node, index as int),
        );
    }
    Ok(finish(array_pop(existing, &cbor_path, index), "cbor.arrpop"))
}

} // verus!

//! Insertion of values into the arrays that a path selects.

use cborpath::CborPath;

use vstd::prelude::*;

use crate::args::{
    args_view, doc_refs, documents_from, ended, existing_document, explicit_path, finish,
    integer_or, literals, optional_integer, stored_document, written_each, Arg, ArgView,
    CommandError, Stored, StoredView, Written, WrittenView,
};
use crate::codec::{
    all_cbor, array_items, encode_array, items_of, kind_of, node_kind, slices_view, NodeKind,
};
use crate::commands::cbor_arrpop::pop_outcome;
use crate::document::Document;
use crate::format::array_encoding;
use crate::index::{
    doc_slices, docs_view, insert_at, lemma_insert_then_pop, normalize, normalize_index, splice,
};
use crate::path::path_expr;
use crate::protocol::{
    apply, doc_view, edited, emitted, follows, lemma_applied_function, lemma_emitted_each,
    none_only_without_targets, replacements, replies_of, rewritten, targets, Edit, NodeEditor,
    Outcome, Transform,
};
use crate::reply::{length_reply, replies_view, Reply, ReplyView};
use crate::slices::path_safe;
use crate::util::CborPathExt;

verus! {

/// What an insertion decides on one node: an array gives way to the array
/// with the values put before the position of `index`, and answers with
/// its new length; any other node stays and answers with null.
pub open spec fn insert_outcome(node: Seq<u8>, index: int, values: Seq<Seq<u8>>) -> Outcome {
    if kind_of(node) == NodeKind::Array {
        let items = insert_at(items_of(node), index, values);
        Outcome {
            replacement: Some(array_encoding(items)),
            reply: Some(length_reply(items.len())),
        }
    } else {
        Outcome { replacement: Some(node), reply: Some(ReplyView::Null) }
    }
}

/// The array written for `items` reads back as an array of those items.
pub open spec fn reads_back(items: Seq<Seq<u8>>) -> bool {
    kind_of(array_encoding(items)) == NodeKind::Array && items_of(array_encoding(items)) == items
}

/// Where one value was inserted into an array at an index that denotes
/// the same position before and after, and the array written reads back,
/// a pop at that index answers with the value and writes the array of the
/// items that were there before.
pub proof fn lemma_insert_then_pop_node(node: Seq<u8>, index: int, value: Seq<u8>)
    requires
        kind_of(node) == NodeKind::Array,
        0 <= index <= items_of(node).len() || index <= -(items_of(node).len() as int) - 1,
        reads_back(insert_at(items_of(node), index, seq![value])),
    ensures
        ({
            let inserted = insert_outcome(node, index, seq![value]).replacement->Some_0;
            pop_outcome(inserted, index) == Outcome {
                replacement: Some(array_encoding(items_of(node))),
                reply: Some(ReplyView::StringBuffer(value)),
            }
        }),
{
    let items = items_of(node);
    let longer = insert_at(items, index, seq![value]);
    lemma_insert_then_pop(items, index, value);
    let position = normalize(index, items.len()) as int;
    assert(longer.len() == items.len() + 1);
    assert(normalize(index, longer.len()) == position);
    assert(longer[position] == value);
}

/// The per-node part of an insertion.
pub struct ArrayInsert<'a> {
    pub index: i64,
    pub values: &'a Vec<&'a [u8]>,
}

impl<'a> NodeEditor for ArrayInsert<'a> {
    open spec fn ready(&self) -> bool {
        all_cbor(slices_view(self.values@))
    }

    open spec fn edits(&self, node: Seq<u8>, outcome: Outcome) -> bool {
        &&& outcome == insert_outcome(node, self.index as int, slices_view(self.values@))
        &&& kind_of(node) == NodeKind::Array ==> reads_back(
            insert_at(items_of(node), self.index as int, slices_view(self.values@)),
        )
    }

    fn edit(&self, node: &[u8]) -> (edit: Edit) {
        match node_kind(node) {
            NodeKind::Array => {
                let items = array_items(node);
                let position = normalize_index(self.index, items.len());
                let new_items = write_array(&items, position, self.values);
                let bytes = encode_array(&new_items);
                Edit { transform: Transform::Replace(bytes), reply: Some(Reply::length(new_items.len())) }
            },
            _ => Edit { transform: Transform::Unchanged, reply: Some(Reply::Null) },
        }
    }
}

/// The items with the values put before `index`, which is held at the
/// number of items.
pub(crate) fn write_array<'a>(existing_items: &Vec<&'a [u8]>, index: usize, values: &Vec<&'a [u8]>) -> (items:
    Vec<&'a [u8]>)
    ensures
        slices_view(items@) == insert_at(
            slices_view(existing_items@),
            index as int,
            slices_view(values@),
        ),
        all_cbor(slices_view(existing_items@)) && all_cbor(slices_view(values@)) ==> all_cbor(
            slices_view(items@),
        ),
{
    let position = if index <= existing_items.len() {
        index
    } else {
        existing_items.len()
    };
    splice(existing_items, position, values, position)
}

/// Inserts the values into every array that the path selects, before the
/// position that `index` denotes in that array. Answers, for each
/// selected node in turn, with the array's new length, or with null for a
/// node that is no array. Every array written reads back as an array of
/// the items put into it.
pub fn array_insert(existing: &Document, cbor_path: &CborPath, index: i64, values: Vec<&Document>) -> (result:
    (Option<Document>, Vec<Reply>))
    requires
        path_safe(path_expr(*cbor_path)),
    ensures
        ({
            let outcomes = edited(
                path_expr(*cbor_path),
                existing@,
                |node: Seq<u8>| insert_outcome(node, index as int, docs_view(values@)),
            );
            &&& replies_view(result.1@) == replies_of(outcomes)
            &&& doc_view(result.0) == rewritten(path_expr(*cbor_path), existing@, replacements(outcomes))
        }),
        forall|i: int|
            0 <= i < targets(path_expr(*cbor_path), existing@).len() && kind_of(
                #[trigger] targets(path_expr(*cbor_path), existing@)[i],
            ) == NodeKind::Array ==> reads_back(
                insert_at(
                    items_of(targets(path_expr(*cbor_path), existing@)[i]),
                    index as int,
                    docs_view(values@),
                ),
            ),
        none_only_without_targets(
            path_expr(*cbor_path),
            doc_view(result.0),
            targets(path_expr(*cbor_path), existing@).len(),
        ),
{
    let slices = doc_slices(&values);
    let editor = ArrayInsert { index, values: &slices };
    let result = apply(cbor_path, existing, &editor);
    proof {
        let decide = |node: Seq<u8>| insert_outcome(node, index as int, docs_view(values@));
        lemma_applied_function(
            editor,
            decide,
            path_expr(*cbor_path),
            existing@,
            doc_view(result.0),
            replies_view(result.1@),
        );
        lemma_emitted_each(edited(path_expr(*cbor_path), existing@, decide));
        let nodes = targets(path_expr(*cbor_path), existing@);
        let outcomes = choose|outcomes: Seq<Outcome>|
            {
                &&& #[trigger] follows(editor, nodes, outcomes)
                &&& replies_view(result.1@) == emitted(outcomes)
                &&& doc_view(result.0) == rewritten(
                    path_expr(*cbor_path),
                    existing@,
                    replacements(outcomes),
                )
                &&& none_only_without_targets(
                    path_expr(*cbor_path),
                    doc_view(result.0),
                    outcomes.len(),
                )
            };
        assert forall|i: int|
            0 <= i < nodes.len() && kind_of(#[trigger] nodes[i]) == NodeKind::Array implies reads_back(
            insert_at(items_of(nodes[i]), index as int, docs_view(values@)),
        ) by {
            assert(editor.edits(nodes[i], outcomes[i]));
        }
    }
    result
}

/// What the command `key path index value [value ...]` yields.
pub open spec fn arr_insert_command(args: Seq<ArgView>, stored: StoredView) -> Result<
    WrittenView,
    CommandError,
> {
    if args.len() < 4 {
        Err(CommandError::WrongArity)
    } else {
        match optional_integer(args, 3, 0i64) {
            Err(e) => Err(e),
            Ok(index) => if args.len() < 5 {
                Err(CommandError::WrongArity)
            } else {
                match literals(args, 4) {
                    Err(e) => Err(e),
                    Ok(values) => match explicit_path(args[2]) {
                        Err(e) => Err(e),
                        Ok(expr) => match stored_document(stored) {
                            Err(e) => Err(e),
                            Ok(doc) => Ok(
                                written_each(
                                    expr,
                                    doc,
                                    |node: Seq<u8>| insert_outcome(node, index as int, values),
                                    "cbor.arrinsert"@,
                                ),
                            ),
                        },
                    },
                }
            },
        }
    }
}

/// The command `key path index value [value ...]`: inserts the values as
/// [`array_insert`] does and answers with the list of its replies. Fails
/// where the key, the path or the index is missing, the index is no
/// integer, the first value is missing, a value is no CBOR item, the path
/// is no path expression, the lookup failed or the key holds no document,
/// in this order.
pub fn cbor_arr_insert(args: &Vec<Arg>, stored: Stored) -> (result: Result<Written, CommandError>)
    ensures
        ended(result, arr_insert_command(args_view(args@), stored@)),
{
    if args.len() < 4 {
        return Err(CommandError::WrongArity);
    }
    let index = match integer_or(args, 3, 0) {
        Ok(value) => value,
        Err(e) => {
            return Err(e);
        },
    };
    if args.len() < 5 {
        return Err(CommandError::WrongArity);
    }
    let values = match documents_from(args, 4) {
        Ok(value) => value,
        Err(e) => {
            return Err(e);
        },
    };
    let cbor_path = match CborPath::from_arg(&args[2]) {
        Ok(value) => value,
        Err(e) => {
            return Err(e);
        },
    };
    let existing = match existing_document(&stored) {
        Ok(value) => value,
        Err(e) => {
            return Err(e);
        },
    };
    Ok(finish(array_insert(existing, &cbor_path, index, doc_refs(&values)), "cbor.arrinsert"))
}

} // verus!

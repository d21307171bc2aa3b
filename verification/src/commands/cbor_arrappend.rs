//! Appending values to the arrays that a path selects.

use cborpath::CborPath;

use vstd::prelude::*;

use crate::args::{
    args_view, doc_refs, documents_from, ended, existing_document, explicit_path, literals,
    stored_document, Arg, ArgView, CommandError, Stored, StoredView, Written, WrittenView,
};
use crate::codec::{
    all_cbor, array_items, encode_array, items_of, kind_of, node_kind, slices_view, NodeKind,
};
use crate::document::Document;
use crate::format::array_encoding;
use crate::index::{doc_slices, docs_view, splice};
use crate::path::{path_expr, path_is_root};
use crate::protocol::{
    apply, doc_view, edited, lemma_applied_function, lemma_emitted_each, none_only_without_targets,
    replacements, replies_of, rewritten, targets, Edit, NodeEditor, Outcome, Transform,
};
use crate::reply::{length_reply, replies_view, Reply, ReplyView};
use crate::slices::path_safe;
use crate::util::CborPathExt;

verus! {

/// What an append decides on one node: an array gives way to the array
/// with the values behind its items, and answers with its new length; any
/// other node stays and answers with null.
pub open spec fn append_outcome(node: Seq<u8>, values: Seq<Seq<u8>>) -> Outcome {
    if kind_of(node) == NodeKind::Array {
        let items = items_of(node) + values;
        Outcome {
            replacement: Some(array_encoding(items)),
            reply: Some(length_reply(items.len())),
        }
    } else {
        Outcome { replacement: Some(node), reply: Some(ReplyView::Null) }
    }
}

/// An append of no values changes no array's items: every target is
/// answered for, an array is written anew from exactly its own items and
/// answers with their number, and any other node stays as it is.
pub proof fn lemma_append_nothing(expr: Seq<u8>, doc: Seq<u8>)
    ensures
        ({
            let nodes = targets(expr, doc);
            let outcomes = edited(expr, doc, |node: Seq<u8>| append_outcome(node, Seq::empty()));
            &&& outcomes.len() == nodes.len()
            &&& forall|i: int|
                0 <= i < nodes.len() ==> (#[trigger] outcomes[i]) == if kind_of(nodes[i])
                    == NodeKind::Array {
                    Outcome {
                        replacement: Some(array_encoding(items_of(nodes[i]))),
                        reply: Some(length_reply(items_of(nodes[i]).len())),
                    }
                } else {
                    Outcome { replacement: Some(nodes[i]), reply: Some(ReplyView::Null) }
                }
        }),
{
    let nodes = targets(expr, doc);
    assert forall|i: int| 0 <= i < nodes.len() implies items_of(nodes[i]) + Seq::<Seq<u8>>::empty()
        == items_of(nodes[i]) by {
        assert(items_of(nodes[i]) + Seq::<Seq<u8>>::empty() =~= items_of(nodes[i]));
    }
}

/// At the root path, an append of no values to an array that is written
/// as the engine writes arrays gives back the document, byte for byte.
pub proof fn lemma_append_nothing_at_root(expr: Seq<u8>, doc: Seq<u8>)
    requires
        path_is_root(expr),
        kind_of(doc) == NodeKind::Array,
        doc == array_encoding(items_of(doc)),
    ensures
        rewritten(
            expr,
            doc,
            replacements(edited(expr, doc, |node: Seq<u8>| append_outcome(node, Seq::empty()))),
        ) == Some(doc),
{
    lemma_append_nothing(expr, doc);
    let outcomes = edited(expr, doc, |node: Seq<u8>| append_outcome(node, Seq::empty()));
    assert(targets(expr, doc)[0] == doc);
    assert(replacements(outcomes)[0] == outcomes[0].replacement);
}

/// A reply as a size: the integer as a machine word, held at its ends;
/// nothing for any other reply.
pub open spec fn reply_size(reply: ReplyView) -> Option<usize> {
    match reply {
        ReplyView::Integer(i) => if i < 0 {
            Some(0usize)
        } else if i > usize::MAX {
            Some(usize::MAX)
        } else {
            Some(i as usize)
        },
        _ => None,
    }
}

/// The per-node part of an append.
pub struct ArrayAppend<'a> {
    pub values: &'a Vec<&'a [u8]>,
}

impl<'a> NodeEditor for ArrayAppend<'a> {
    open spec fn ready(&self) -> bool {
        all_cbor(slices_view(self.values@))
    }

    open spec fn edits(&self, node: Seq<u8>, outcome: Outcome) -> bool {
        outcome == append_outcome(node, slices_view(self.values@))
    }

    fn edit(&self, node: &[u8]) -> (edit: Edit) {
        match node_kind(node) {
            NodeKind::Array => {
                let items = array_items(node);
                let new_items = splice(&items, items.len(), self.values, items.len());
                proof {
                    assert(slices_view(new_items@) =~= items_of(node@) + slices_view(self.values@));
                }
                let bytes = encode_array(&new_items);
                Edit { transform: Transform::Replace(bytes), reply: Some(Reply::length(new_items.len())) }
            },
            _ => Edit { transform: Transform::Unchanged, reply: Some(Reply::Null) },
        }
    }
}

/// The size that a reply reports.
fn size_of_reply(reply: &Reply) -> (size: Option<usize>)
    ensures
        size == reply_size(reply@),
{
    match reply {
        Reply::Integer(i) => {
            if *i < 0 {
                Some(0)
            } else if (*i as u64) > (usize::MAX as u64) {
                Some(usize::MAX)
            } else {
                Some(*i as usize)
            }
        },
        _ => None,
    }
}

/// Appends the values to every array that the path selects. Answers, for
/// each selected node in turn, with the array's new size, or with nothing
/// for a node that is no array.
pub fn array_append(cbor_path: &CborPath, cbor: &Document, values: Vec<&Document>) -> (result: (
    Option<Document>,
    Vec<Option<usize>>,
))
    requires
        path_safe(path_expr(*cbor_path)),
    ensures
        ({
            let outcomes = edited(
                path_expr(*cbor_path),
                cbor@,
                |node: Seq<u8>| append_outcome(node, docs_view(values@)),
            );
            &&& result.1@.len() == targets(path_expr(*cbor_path), cbor@).len()
            &&& result.1@ == Seq::new(outcomes.len(), |i: int| reply_size(replies_of(outcomes)[i]))
            &&& doc_view(result.0) == rewritten(path_expr(*cbor_path), cbor@, replacements(outcomes))
        }),
        none_only_without_targets(
            path_expr(*cbor_path),
            doc_view(result.0),
            targets(path_expr(*cbor_path), cbor@).len(),
        ),
{
    let slices = doc_slices(&values);
    let editor = ArrayAppend { values: &slices };
    let (new_value, replies) = apply(cbor_path, cbor, &editor);
    let ghost outcomes = edited(
        path_expr(*cbor_path),
        cbor@,
        |node: Seq<u8>| append_outcome(node, docs_view(values@)),
    );
    proof {
        let decide = |node: Seq<u8>| append_outcome(node, docs_view(values@));
        lemma_applied_function(
            editor,
            decide,
            path_expr(*cbor_path),
            cbor@,
            doc_view(new_value),
            replies_view(replies@),
        );
        lemma_emitted_each(outcomes);
    }
    let mut array_sizes: Vec<Option<usize>> = Vec::new();
    let mut i: usize = 0;
    while i < replies.len()
        invariant
            i <= replies.len(),
            array_sizes@.len() == i,
            forall|j: int| 0 <= j < i ==> #[trigger] array_sizes@[j] == reply_size(replies@[j]@),
        decreases replies.len() - i,
    {
        array_sizes.push(size_of_reply(&replies[i]));
        i += 1;
    }
    proof {
        assert(replies_view(replies@).len() == outcomes.len());
        assert forall|j: int| 0 <= j < outcomes.len() implies array_sizes@[j] == reply_size(
            replies_of(outcomes)[j],
        ) by {
            assert(replies_view(replies@)[j] == replies_of(outcomes)[j]);
        }
        assert(array_sizes@ =~= Seq::new(
            outcomes.len(),
            |i: int| reply_size(replies_of(outcomes)[i]),
        ));
    }
    (new_value, array_sizes)
}

/// A size as a reply: the number, or null where there is none.
pub open spec fn size_reply(size: Option<usize>) -> ReplyView {
    match size {
        Some(n) => length_reply(n as nat),
        None => ReplyView::Null,
    }
}

/// What the command `key path value [value ...]` yields.
pub open spec fn arr_append_command(args: Seq<ArgView>, stored: StoredView) -> Result<
    WrittenView,
    CommandError,
> {
    if args.len() < 4 {
        Err(CommandError::WrongArity)
    } else {
        match literals(args, 3) {
            Err(e) => Err(e),
            Ok(values) => match explicit_path(args[2]) {
                Err(e) => Err(e),
                Ok(expr) => match stored_document(stored) {
                    Err(e) => Err(e),
                    Ok(doc) => {
                        let outcomes = edited(expr, doc, |node: Seq<u8>| append_outcome(node, values));
                        Ok(
                            WrittenView {
                                new_value: rewritten(expr, doc, replacements(outcomes)),
                                reply: ReplyView::Array(
                                    Seq::new(
                                        outcomes.len(),
                                        |i: int| size_reply(reply_size(replies_of(outcomes)[i])),
                                    ),
                                ),
                                event: "cbor.arrappend"@,
                            },
                        )
                    },
                },
            },
        }
    }
}

/// The command `key path value [value ...]`: appends the values as
/// [`array_append`] does and answers with the list of the sizes, null for
/// a node that is no array. Fails where the key, the path or the first
/// value is missing, a value is no CBOR item, the path is no path
/// expression, the lookup failed or the key holds no document, in this
/// order.
pub fn cbor_arr_append(args: &Vec<Arg>, stored: Stored) -> (result: Result<Written, CommandError>)
    ensures
        ended(result, arr_append_command(args_view(args@), stored@)),
{
    if args.len() < 4 {
        return Err(CommandError::WrongArity);
    }
    let values = match documents_from(args, 3) {
        Ok(value) => value,
        Err(e) => {
            return Err(e);
        },
    };
    let cbor_path = match CborPath::from_arg(&args[2]) {
        Ok(value) => value,
        Err(e) => {
            return Err(e);
        },
    };
    let existing_value = match existing_document(&stored) {
        Ok(value) => value,
        Err(e) => {
            return Err(e);
        },
    };
    let (new_value, array_sizes) = array_append(&cbor_path, existing_value, doc_refs(&values));
    let mut replies: Vec<Reply> = Vec::new();
    let mut i: usize = 0;
    while i < array_sizes.len()
        invariant
            i <= array_sizes.len(),
            replies@.len() == i,
            forall|j: int| 0 <= j < i ==> (#[trigger] replies@[j])@ == size_reply(array_sizes@[j]),
        decreases array_sizes.len() - i,
    {
        let reply = match array_sizes[i] {
            Some(size) => Reply::length(size),
            None => Reply::Null,
        };
        replies.push(reply);
        i += 1;
    }
    proof {
        let outcomes = edited(
            path_expr(cbor_path),
            existing_value@,
            |node: Seq<u8>| append_outcome(node, literals(args_view(args@), 3)->Ok_0),
        );
        assert(replies_view(replies@) =~= Seq::new(
            outcomes.len(),
            |i: int| size_reply(reply_size(replies_of(outcomes)[i])),
        ));
    }
    Ok(Written { new_value, reply: Reply::list(replies), event: "cbor.arrappend" })
}

} // verus!

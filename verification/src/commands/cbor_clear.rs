//! Clearing the containers and numbers that a path selects.

use cborpath::CborPath;

use vstd::prelude::*;

use crate::args::{
    args_view, default_is_root, ended, existing_document, lemma_same_edited, optional_path,
    path_or_root, stored_document, Arg, ArgView, CommandError, Stored, StoredView, Written,
    WrittenView,
};
use crate::codec::{
    encode_array, encode_dict, encode_half, encode_pos, is_cbor, kind_of, node_kind, pairs_view,
    slices_view, NodeKind,
};
use crate::document::Document;
use crate::format::{array_encoding, dict_encoding, half_encoding, pos_encoding};
use crate::path::{path_expr, path_is_root};
use crate::protocol::{
    apply, doc_view, edited, emitted, follows, lemma_applied_function, lemma_emitted_each,
    none_only_without_targets, replacements, rewritten, targets, Edit, NodeEditor, Outcome,
    Transform,
};
use crate::reply::{length_reply, replies_view, Reply, ReplyView};
use crate::slices::path_safe;

verus! {

/// Whether a node of this kind is cleared: integers, floats, arrays and
/// maps are; every other kind passes through.
pub open spec fn clearable(kind: NodeKind) -> bool {
    match kind {
        NodeKind::Pos(_) | NodeKind::Neg(_) | NodeKind::Float(_) | NodeKind::Array | NodeKind::Dict => true,
        _ => false,
    }
}

/// What stands in a node's place after a clear: the unsigned zero for an
/// integer, the half-precision zero for a float, the empty array for an
/// array, the empty map for a map, and the node itself otherwise.
pub open spec fn cleared(node: Seq<u8>) -> Seq<u8> {
    match kind_of(node) {
        NodeKind::Pos(_) | NodeKind::Neg(_) => pos_encoding(0),
        NodeKind::Float(_) => half_encoding(0),
        NodeKind::Array => array_encoding(Seq::empty()),
        NodeKind::Dict => dict_encoding(Seq::empty()),
        _ => node,
    }
}

/// What a clear decides on one node. The answer tells whether the node
/// was cleared.
pub open spec fn clear_outcome(node: Seq<u8>) -> Outcome {
    Outcome {
        replacement: Some(cleared(node)),
        reply: Some(ReplyView::Boolean(clearable(kind_of(node)))),
    }
}

/// How many of the nodes are cleared.
pub open spec fn count_cleared(nodes: Seq<Seq<u8>>) -> nat
    decreases nodes.len(),
{
    if nodes.len() == 0 {
        0
    } else {
        count_cleared(nodes.drop_last()) + if clearable(kind_of(nodes.last())) {
            1nat
        } else {
            0nat
        }
    }
}

/// Clears one node. Clearing what has been cleared changes nothing.
pub fn clear_node(node: &[u8]) -> (edit: Edit)
    requires
        is_cbor(node@),
    ensures
        edit.outcome(node@) == clear_outcome(node@),
        edit.sound(),
        cleared(cleared(node@)) == cleared(node@),
{
    match node_kind(node) {
        NodeKind::Pos(_) | NodeKind::Neg(_) => Edit {
            transform: Transform::Replace(encode_pos(0)),
            reply: Some(Reply::Boolean(true)),
        },
        NodeKind::Float(_) => Edit {
            transform: Transform::Replace(encode_half(0)),
            reply: Some(Reply::Boolean(true)),
        },
        NodeKind::Array => {
            let nothing: Vec<&[u8]> = Vec::new();
            proof {
                assert(slices_view(nothing@) =~= Seq::<Seq<u8>>::empty());
            }
            Edit {
                transform: Transform::Replace(encode_array(&nothing)),
                reply: Some(Reply::Boolean(true)),
            }
        },
        NodeKind::Dict => {
            let nothing: Vec<(&[u8], &[u8])> = Vec::new();
            proof {
                assert(pairs_view(nothing@) =~= Seq::<(Seq<u8>, Seq<u8>)>::empty());
            }
            Edit {
                transform: Transform::Replace(encode_dict(&nothing)),
                reply: Some(Reply::Boolean(true)),
            }
        },
        _ => Edit { transform: Transform::Unchanged, reply: Some(Reply::Boolean(false)) },
    }
}

/// At the root path, a clear of a document that a clear has written
/// gives that document again.
pub proof fn lemma_clear_twice_at_root(expr: Seq<u8>, doc: Seq<u8>)
    requires
        path_is_root(expr),
        cleared(cleared(doc)) == cleared(doc),
    ensures
        rewritten(
            expr,
            cleared(doc),
            replacements(edited(expr, cleared(doc), |node: Seq<u8>| clear_outcome(node))),
        ) == Some(cleared(doc)),
{
    let outcomes = edited(expr, cleared(doc), |node: Seq<u8>| clear_outcome(node));
    assert(targets(expr, cleared(doc))[0] == cleared(doc));
    assert(replacements(outcomes)[0] == outcomes[0].replacement);
}

/// The per-node part of a clear.
pub struct Clear;

impl NodeEditor for Clear {
    open spec fn ready(&self) -> bool {
        true
    }

    open spec fn edits(&self, node: Seq<u8>, outcome: Outcome) -> bool {
        outcome == clear_outcome(node) && cleared(cleared(node)) == cleared(node)
    }

    fn edit(&self, node: &[u8]) -> (edit: Edit) {
        clear_node(node)
    }
}

/// The outcomes that cleared a node are as many as the nodes that are
/// clearable.
proof fn lemma_count_cleared(nodes: Seq<Seq<u8>>, flags: Seq<ReplyView>)
    requires
        flags.len() == nodes.len(),
        forall|i: int|
            0 <= i < nodes.len() ==> #[trigger] flags[i] == ReplyView::Boolean(
                clearable(kind_of(nodes[i])),
            ),
    ensures
        count_true(flags) == count_cleared(nodes),
    decreases nodes.len(),
{
    if nodes.len() > 0 {
        lemma_count_cleared(nodes.drop_last(), flags.drop_last());
    }
}

/// How many of the replies are the boolean true.
pub open spec fn count_true(flags: Seq<ReplyView>) -> nat
    decreases flags.len(),
{
    if flags.len() == 0 {
        0
    } else {
        count_true(flags.drop_last()) + if flags.last() == ReplyView::Boolean(true) {
            1nat
        } else {
            0nat
        }
    }
}

/// Counts the replies that are the boolean true.
fn count_flags(flags: &Vec<Reply>) -> (count: usize)
    ensures
        count == count_true(replies_view(flags@)),
{
    let mut count: usize = 0;
    let mut i: usize = 0;
    while i < flags.len()
        invariant
            i <= flags.len(),
            count <= i,
            count == count_true(replies_view(flags@).take(i as int)),
        decreases flags.len() - i,
    {
        proof {
            assert(replies_view(flags@).take(i + 1).drop_last() =~= replies_view(flags@).take(
                i as int,
            ));
        }
        match &flags[i] {
            Reply::Boolean(true) => {
                count += 1;
            },
            _ => {},
        }
        i += 1;
    }
    proof {
        assert(replies_view(flags@).take(flags@.len() as int) =~= replies_view(flags@));
    }
    count
}

/// Clears every node that the path selects: a number becomes zero, an
/// array or a map becomes empty, every other node passes through. Answers
/// with the number of nodes cleared. What a clear puts in a node's place,
/// a second clear leaves as it is.
pub fn clear(existing: &Document, cbor_path: &CborPath) -> (result: (Option<Document>, usize))
    requires
        path_safe(path_expr(*cbor_path)),
    ensures
        ({
            let outcomes = edited(
                path_expr(*cbor_path),
                existing@,
                |node: Seq<u8>| clear_outcome(node),
            );
            doc_view(result.0) == rewritten(path_expr(*cbor_path), existing@, replacements(outcomes))
        }),
        result.1 == count_cleared(targets(path_expr(*cbor_path), existing@)),
        none_only_without_targets(
            path_expr(*cbor_path),
            doc_view(result.0),
            targets(path_expr(*cbor_path), existing@).len(),
        ),
        forall|i: int|
            0 <= i < targets(path_expr(*cbor_path), existing@).len() ==> cleared(
                cleared(#[trigger] targets(path_expr(*cbor_path), existing@)[i]),
            ) == cleared(targets(path_expr(*cbor_path), existing@)[i]),
{
    let (new_value, replies) = apply(cbor_path, existing, &Clear);
    proof {
        let decide = |node: Seq<u8>| clear_outcome(node);
        lemma_applied_function(
            Clear,
            decide,
            path_expr(*cbor_path),
            existing@,
            doc_view(new_value),
            replies_view(replies@),
        );
        lemma_emitted_each(edited(path_expr(*cbor_path), existing@, decide));
        lemma_count_cleared(targets(path_expr(*cbor_path), existing@), replies_view(replies@));
        let nodes = targets(path_expr(*cbor_path), existing@);
        let outcomes = choose|outcomes: Seq<Outcome>|
            {
                &&& #[trigger] follows(Clear, nodes, outcomes)
                &&& replies_view(replies@) == emitted(outcomes)
                &&& doc_view(new_value) == rewritten(
                    path_expr(*cbor_path),
                    existing@,
                    replacements(outcomes),
                )
                &&& none_only_without_targets(
                    path_expr(*cbor_path),
                    doc_view(new_value),
                    outcomes.len(),
                )
            };
        assert forall|i: int| 0 <= i < nodes.len() implies cleared(cleared(#[trigger] nodes[i]))
            == cleared(nodes[i]) by {
            assert(Clear.edits(nodes[i], outcomes[i]));
        }
    }
    let num_cleared = count_flags(&replies);
    (new_value, num_cleared)
}

/// What the command `key [path]` yields.
pub open spec fn clear_command(args: Seq<ArgView>, stored: StoredView) -> Result<
    WrittenView,
    CommandError,
> {
    if args.len() < 2 {
        Err(CommandError::WrongArity)
    } else {
        match optional_path(args, 2) {
            Err(e) => Err(e),
            Ok(expr) => match stored_document(stored) {
                Err(e) => Err(e),
                Ok(doc) => Ok(
                    WrittenView {
                        new_value: rewritten(
                            expr,
                            doc,
                            replacements(edited(expr, doc, |node: Seq<u8>| clear_outcome(node))),
                        ),
                        reply: length_reply(count_cleared(targets(expr, doc))),
                        event: "cbor.clear"@,
                    },
                ),
            },
        }
    }
}

/// The command `key [path]`: clears as [`clear`] does and answers with
/// the number of nodes cleared. Fails where the key is missing from the
/// arguments, the path is no path expression, the lookup failed or the
/// key holds no document, in this order.
pub fn cbor_clear(args: &Vec<Arg>, stored: Stored) -> (result: Result<Written, CommandError>)
    ensures
        ended(result, clear_command(args_view(args@), stored@)),
        result is Ok ==> default_is_root(args_view(args@), 2),
{
    if args.len() < 2 {
        return Err(CommandError::WrongArity);
    }
    let cbor_path = match path_or_root(args, 2) {
        Ok(value) => value,
        Err(e) => {
            return Err(e);
        },
    };
    let existing = match existing_document(&stored) {
        Ok(value) => value,
        Err(e) => {
            return Err(e);
        },
    };
    proof {
        lemma_same_edited(
            path_expr(cbor_path),
            optional_path(args_view(args@), 2)->Ok_0,
            existing@,
            |node: Seq<u8>| clear_outcome(node),
        );
    }
    let (new_value, num_cleared) = clear(existing, &cbor_path);
    Ok(Written { new_value, reply: Reply::length(num_cleared), event: "cbor.clear" })
}

} // verus!

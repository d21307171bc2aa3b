//! The match-transform protocol: every operator that changes a document
//! decides, for each node that a path selects, whether the node is
//! replaced, deleted or left as it is, and what it answers for that node.

use cborpath::CborPath;

use vstd::prelude::*;

use crate::codec::{all_cbor, is_cbor, slices_view};
use crate::document::Document;
use crate::path::{
    is_root, path_expr, path_is_root, read_matches, read_nodes, rebuilt, write_nodes, write_targets,
    wrote,
};
use crate::reply::{replies_view, Reply, ReplyView};
use crate::slices::path_safe;

verus! {

/// What becomes of one selected node.
pub enum Transform {
    /// The node gives way to the well-formed item with these bytes.
    Replace(Vec<u8>),
    /// The node leaves its enclosing container.
    Delete,
    /// The node stays as it is.
    Unchanged,
}

/// An editor's decision on one node: the transform, and the reply for the
/// node if the operator gives one.
pub struct Edit {
    pub transform: Transform,
    pub reply: Option<Reply>,
}

/// The mathematical content of an [`Edit`] of a given node: the bytes that
/// stand in the node's place afterwards, if any, and the reply.
pub struct Outcome {
    pub replacement: Option<Seq<u8>>,
    pub reply: Option<ReplyView>,
}

impl Edit {
    /// The outcome of this edit on `node`.
    pub open spec fn outcome(&self, node: Seq<u8>) -> Outcome {
        Outcome {
            replacement: match self.transform {
                Transform::Replace(bytes) => Some(bytes@),
                Transform::Delete => None,
                Transform::Unchanged => Some(node),
            },
            reply: match self.reply {
                Some(reply) => Some(reply@),
                None => None,
            },
        }
    }

    /// A replacement is a well-formed item.
    pub open spec fn sound(&self) -> bool {
        self.transform matches Transform::Replace(bytes) ==> is_cbor(bytes@)
    }
}

/// The per-node part of an operator.
pub trait NodeEditor {
    /// What must hold of the editor before it is asked.
    spec fn ready(&self) -> bool;

    /// Whether `outcome` is a decision that the editor may take on `node`.
    spec fn edits(&self, node: Seq<u8>, outcome: Outcome) -> bool;

    /// Decides on one node.
    fn edit(&self, node: &[u8]) -> (edit: Edit)
        requires
            self.ready(),
            is_cbor(node@),
        ensures
            self.edits(node@, edit.outcome(node@)),
            edit.sound(),
    ;
}

/// The outcomes are decisions of the editor on the targets, one for each.
pub open spec fn follows<E: NodeEditor>(editor: E, targets: Seq<Seq<u8>>, outcomes: Seq<
    Outcome,
>) -> bool {
    &&& outcomes.len() == targets.len()
    &&& forall|i: int| 0 <= i < targets.len() ==> editor.edits(targets[i], #[trigger] outcomes[i])
}

/// The replies of the outcomes that have one, in order.
pub open spec fn emitted(outcomes: Seq<Outcome>) -> Seq<ReplyView>
    decreases outcomes.len(),
{
    if outcomes.len() == 0 {
        Seq::empty()
    } else {
        match outcomes.last().reply {
            Some(reply) => emitted(outcomes.drop_last()).push(reply),
            None => emitted(outcomes.drop_last()),
        }
    }
}

/// What stands in each node's place.
pub open spec fn replacements(outcomes: Seq<Outcome>) -> Seq<Option<Seq<u8>>> {
    Seq::new(outcomes.len(), |i: int| outcomes[i].replacement)
}

/// The nodes that a path selects in a document for reading, in match
/// order. The root path selects the document itself.
pub open spec fn selected(expr: Seq<u8>, doc: Seq<u8>) -> Seq<Seq<u8>> {
    if path_is_root(expr) {
        seq![doc]
    } else {
        read_matches(expr, doc)
    }
}

/// The nodes that a path selects in a document for writing, in the order
/// in which an editor is asked. The root path selects the document itself.
/// A path may have a match in a document without any node being selected
/// for writing: the matcher finds a map key by its value and asks about it
/// by its bytes.
pub open spec fn targets(expr: Seq<u8>, doc: Seq<u8>) -> Seq<Seq<u8>> {
    if path_is_root(expr) {
        seq![doc]
    } else {
        write_targets(expr, doc)
    }
}

/// The document that results when each target gives way to its
/// replacement. At the root it is the replacement of the document itself,
/// and none when the root was deleted. Elsewhere it is what the path
/// matcher builds, and none where the path has no match in the document.
pub open spec fn rewritten(expr: Seq<u8>, doc: Seq<u8>, replacements: Seq<Option<Seq<u8>>>) -> Option<
    Seq<u8>,
> {
    if path_is_root(expr) {
        if replacements.len() > 0 {
            replacements[0]
        } else {
            None
        }
    } else {
        rebuilt(expr, doc, replacements)
    }
}

/// Where a path other than the root gives no document, no node was
/// selected for writing.
pub open spec fn none_only_without_targets(expr: Seq<u8>, new_doc: Option<Seq<u8>>, count: nat) -> bool {
    new_doc is None && !path_is_root(expr) ==> count == 0
}

/// The view of an optional document.
pub open spec fn doc_view(doc: Option<Document>) -> Option<Seq<u8>> {
    match doc {
        Some(d) => Some(d@),
        None => None,
    }
}

/// `new_doc` and `replies` are what the protocol yields for some run of
/// the editor over the targets of the path.
pub open spec fn applied<E: NodeEditor>(
    editor: E,
    expr: Seq<u8>,
    doc: Seq<u8>,
    new_doc: Option<Seq<u8>>,
    replies: Seq<ReplyView>,
) -> bool {
    exists|outcomes: Seq<Outcome>|
        {
            &&& #[trigger] follows(editor, targets(expr, doc), outcomes)
            &&& replies == emitted(outcomes)
            &&& new_doc == rewritten(expr, doc, replacements(outcomes))
            &&& none_only_without_targets(expr, new_doc, outcomes.len())
        }
}

/// Asks the editor about one node, appends its reply to `replies` and
/// hands back what stands in the node's place.
pub(crate) fn edit_node<E: NodeEditor>(editor: &E, node: &[u8], replies: &mut Vec<Reply>) -> (replacement:
    Option<Vec<u8>>)
    requires
        editor.ready(),
        is_cbor(node@),
    ensures
        replacement matches Some(bytes) ==> is_cbor(bytes@),
        exists|outcome: Outcome|
            {
                &&& #[trigger] editor.edits(node@, outcome)
                &&& outcome.replacement == match replacement {
                    Some(bytes) => Some(bytes@),
                    None => None,
                }
                &&& replies_view(final(replies)@) == match outcome.reply {
                    Some(reply) => replies_view(old(replies)@).push(reply),
                    None => replies_view(old(replies)@),
                }
            },
{
    let edit = editor.edit(node);
    let ghost outcome = edit.outcome(node@);
    match edit.reply {
        Some(reply) => {
            replies.push(reply);
            proof {
                assert(replies_view(replies@) =~= replies_view(old(replies)@).push(reply@));
            }
        },
        None => {},
    }
    let replacement = match edit.transform {
        Transform::Replace(bytes) => Some(bytes),
        Transform::Delete => None,
        Transform::Unchanged => Some(vstd::slice::slice_to_vec(node)),
    };
    proof {
        assert(editor.edits(node@, outcome));
    }
    replacement
}

/// The nodes that the path selects in the document for reading.
pub fn select<'a>(path: &CborPath, doc: &'a Document) -> (nodes: Vec<&'a [u8]>)
    requires
        path_safe(path_expr(*path)),
    ensures
        slices_view(nodes@) == selected(path_expr(*path), doc@),
        all_cbor(slices_view(nodes@)),
{
    if is_root(path) {
        let mut nodes: Vec<&'a [u8]> = Vec::new();
        nodes.push(doc.as_slice());
        proof {
            assert(slices_view(nodes@) =~= seq![doc@]);
        }
        nodes
    } else {
        read_nodes(path, doc.as_slice())
    }
}

/// Runs an editor over every node that the path selects for writing and
/// builds the document that results.
pub fn apply<E: NodeEditor>(path: &CborPath, doc: &Document, editor: &E) -> (result: (
    Option<Document>,
    Vec<Reply>,
))
    requires
        path_safe(path_expr(*path)),
        editor.ready(),
    ensures
        applied(*editor, path_expr(*path), doc@, doc_view(result.0), replies_view(result.1@)),
{
    if is_root(path) {
        let edit = editor.edit(doc.as_slice());
        let ghost outcome = edit.outcome(doc@);
        let mut replies: Vec<Reply> = Vec::new();
        match edit.reply {
            Some(reply) => {
                replies.push(reply);
            },
            None => {},
        }
        let new_doc = match edit.transform {
            Transform::Replace(bytes) => Some(Document::trusted(bytes)),
            Transform::Delete => None,
            Transform::Unchanged => Some(doc.copy()),
        };
        proof {
            let outcomes = seq![outcome];
            assert(outcomes.drop_last() =~= Seq::<Outcome>::empty());
            assert(emitted(outcomes.drop_last()) =~= Seq::<ReplyView>::empty());
            assert(replies_view(replies@) =~= emitted(outcomes));
            assert(follows(*editor, targets(path_expr(*path), doc@), outcomes));
            assert(replacements(outcomes)[0] == outcome.replacement);
        }
        (new_doc, replies)
    } else {
        let (item, replies) = write_nodes(path, doc.as_slice(), editor);
        let new_doc = match item {
            Some(item) => Some(Document::from_owned(item)),
            None => None,
        };
        proof {
            let expr = path_expr(*path);
            let outcomes = choose|outcomes: Seq<Outcome>| #[trigger]
                wrote(
                    *editor,
                    write_targets(expr, doc@),
                    outcomes,
                    rebuilt(expr, doc@, replacements(outcomes)),
                    item,
                    replies_view(replies@),
                );
            assert(follows(*editor, targets(expr, doc@), outcomes));
        }
        (new_doc, replies)
    }
}

/// The outcomes when each target's outcome is a function of the target.
pub open spec fn edited(expr: Seq<u8>, doc: Seq<u8>, decide: spec_fn(Seq<u8>) -> Outcome) -> Seq<
    Outcome,
> {
    let nodes = targets(expr, doc);
    Seq::new(nodes.len(), |i: int| decide(nodes[i]))
}

/// The replies of outcomes that each have one: one reply for each target,
/// in order.
pub open spec fn replies_of(outcomes: Seq<Outcome>) -> Seq<ReplyView> {
    Seq::new(outcomes.len(), |i: int| outcomes[i].reply->Some_0)
}

/// Where every outcome has a reply, the replies emitted are those
/// replies, one for each outcome.
pub proof fn lemma_emitted_each(outcomes: Seq<Outcome>)
    requires
        forall|i: int| 0 <= i < outcomes.len() ==> (#[trigger] outcomes[i]).reply is Some,
    ensures
        emitted(outcomes) == replies_of(outcomes),
    decreases outcomes.len(),
{
    if outcomes.len() > 0 {
        lemma_emitted_each(outcomes.drop_last());
        assert(emitted(outcomes) =~= replies_of(outcomes));
    } else {
        assert(emitted(outcomes) =~= replies_of(outcomes));
    }
}

/// Where an editor's decision is a function of the node, what the
/// protocol yields is determined: the outcomes are that function's values
/// on the targets.
pub proof fn lemma_applied_function<E: NodeEditor>(
    editor: E,
    decide: spec_fn(Seq<u8>) -> Outcome,
    expr: Seq<u8>,
    doc: Seq<u8>,
    new_doc: Option<Seq<u8>>,
    replies: Seq<ReplyView>,
)
    requires
        applied(editor, expr, doc, new_doc, replies),
        forall|node: Seq<u8>, outcome: Outcome| #[trigger]
            editor.edits(node, outcome) ==> outcome == decide(node),
    ensures
        replies == emitted(edited(expr, doc, decide)),
        new_doc == rewritten(expr, doc, replacements(edited(expr, doc, decide))),
        none_only_without_targets(expr, new_doc, targets(expr, doc).len()),
{
    let outcomes = choose|outcomes: Seq<Outcome>|
        {
            &&& #[trigger] follows(editor, targets(expr, doc), outcomes)
            &&& replies == emitted(outcomes)
            &&& new_doc == rewritten(expr, doc, replacements(outcomes))
            &&& none_only_without_targets(expr, new_doc, outcomes.len())
        };
    assert forall|i: int| 0 <= i < outcomes.len() implies outcomes[i] == edited(
        expr,
        doc,
        decide,
    )[i] by {
        assert(editor.edits(targets(expr, doc)[i], outcomes[i]));
    }
    assert(outcomes =~= edited(expr, doc, decide));
}

/// The per-node part of an operator that only reads.
pub trait NodeReader {
    /// What must hold of the reader before it is asked.
    spec fn ready(&self) -> bool;

    /// The reply for a node.
    spec fn reads(&self, node: Seq<u8>) -> ReplyView;

    /// Answers for one node.
    fn read(&self, node: &[u8]) -> (reply: Reply)
        requires
            self.ready(),
            is_cbor(node@),
        ensures
            reply@ == self.reads(node@),
    ;
}

/// The replies of a reader for the nodes, one for each, in order.
pub open spec fn answers<R: NodeReader>(reader: R, nodes: Seq<Seq<u8>>) -> Seq<ReplyView> {
    Seq::new(nodes.len(), |i: int| reader.reads(nodes[i]))
}

/// Asks a reader about every node that the path selects for reading.
pub fn collect<R: NodeReader>(path: &CborPath, doc: &Document, reader: &R) -> (replies: Vec<Reply>)
    requires
        path_safe(path_expr(*path)),
        reader.ready(),
    ensures
        replies_view(replies@) == answers(*reader, selected(path_expr(*path), doc@)),
{
    let nodes = select(path, doc);
    let mut replies: Vec<Reply> = Vec::new();
    let mut i: usize = 0;
    while i < nodes.len()
        invariant
            i <= nodes.len(),
            reader.ready(),
            all_cbor(slices_view(nodes@)),
            replies@.len() == i,
            forall|j: int| 0 <= j < i ==> (#[trigger] replies@[j])@ == reader.reads(nodes@[j]@),
        decreases nodes.len() - i,
    {
        proof {
            assert(is_cbor(slices_view(nodes@)[i as int]));
        }
        let reply = reader.read(nodes[i]);
        replies.push(reply);
        i += 1;
    }
    proof {
        assert(replies_view(replies@) =~= answers(*reader, slices_view(nodes@)));
    }
    replies
}

} // verus!

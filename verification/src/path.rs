//! What the engine takes from the `cborpath` crate: compiling a path
//! expression, and evaluating it over a document for reading or writing.
//!
//! Nothing in this module is proved: each function states what the
//! `cborpath` function it calls does.

use std::borrow::Cow;

use cbor_data::{Cbor, CborOwned};
use cborpath::CborPath;

use vstd::prelude::*;

use crate::codec::{all_cbor, is_cbor, owned_bytes, slices_view};
use crate::protocol::{edit_node, emitted, follows, replacements, NodeEditor, Outcome};
use crate::reply::{replies_view, Reply, ReplyView};
use crate::slices::slices_safe;

verus! {

/// `cborpath::CborPath`, a compiled path expression, taken as opaque.
#[verifier::external_type_specification]
#[verifier::external_body]
pub struct ExCborPath(CborPath);

/// The path that a compiled value holds, as one expression of it. Values
/// that hold the same segments have the same expression, whatever bytes
/// they were compiled from.
pub uninterp spec fn path_expr(path: CborPath) -> Seq<u8>;

/// The expression of the path that `CborPath::from_bytes` compiles from
/// the bytes.
pub uninterp spec fn compiled(bytes: Seq<u8>) -> Seq<u8>;

/// Whether `CborPath::read` and `CborPath::write` evaluate the path on
/// every well-formed document without fault.
pub uninterp spec fn faultless(expr: Seq<u8>) -> bool;

/// Whether `CborPath::from_bytes` accepts the bytes as a path expression.
pub uninterp spec fn path_valid(bytes: Seq<u8>) -> bool;

/// Whether the expression has no segment, so that it denotes the root.
pub uninterp spec fn path_is_root(expr: Seq<u8>) -> bool;

/// The nodes that `CborPath::read` returns for a document, in its order.
pub uninterp spec fn read_matches(expr: Seq<u8>, doc: Seq<u8>) -> Seq<Seq<u8>>;

/// The nodes that `CborPath::write` hands to its function for a document,
/// in the order of the calls.
pub uninterp spec fn write_targets(expr: Seq<u8>, doc: Seq<u8>) -> Seq<Seq<u8>>;

/// What `CborPath::write` returns when its function answers the calls
/// with the given values in turn, `Some` for a node to put in place of
/// the one handed in and `None` to leave the node out: the document that
/// it builds, or nothing where the path has no match in the document.
pub uninterp spec fn rebuilt(expr: Seq<u8>, doc: Seq<u8>, answers: Seq<Option<Seq<u8>>>) -> Option<
    Seq<u8>,
>;

/// `CborPath::from_bytes` on bytes that are a well-formed item whose
/// heads all fit: the compiled path, if the bytes spell a path expression.
/// The path holds what was compiled from the bytes, and it is evaluated
/// without fault if every slice that the bytes spell is safe.
#[verifier::external_body]
pub(crate) fn compile(bytes: &[u8]) -> (path: Option<CborPath>)
    requires
        is_cbor(bytes@),
    ensures
        path is Some <==> path_valid(bytes@),
        path matches Some(p) ==> path_expr(p) == compiled(bytes@),
        path matches Some(p) ==> (slices_safe(bytes@) ==> faultless(path_expr(p))),
{
    CborPath::from_bytes(bytes).ok()
}

/// `CborPath::root`: a path without segments.
#[verifier::external_body]
pub(crate) fn root() -> (path: CborPath)
    ensures
        path_is_root(path_expr(path)),
{
    CborPath::root()
}

/// `CborPath::is_root`: whether the path has no segment.
#[verifier::external_body]
pub(crate) fn is_root(path: &CborPath) -> (root: bool)
    ensures
        root == path_is_root(path_expr(*path)),
{
    path.is_root()
}

/// `CborPath::read` on a well-formed document and a path that is
/// evaluated without fault: the matched nodes, each a well-formed item
/// inside the document's bytes.
#[verifier::external_body]
pub(crate) fn read_nodes<'a>(path: &CborPath, doc: &'a [u8]) -> (nodes: Vec<&'a [u8]>)
    requires
        is_cbor(doc@),
        faultless(path_expr(*path)),
    ensures
        slices_view(nodes@) == read_matches(path_expr(*path), doc@),
        all_cbor(slices_view(nodes@)),
{
    path.read(Cbor::unchecked(doc)).into_iter().map(|node| node.as_slice()).collect()
}

/// The outcomes are a run of the editor over `targets` that emitted
/// `replies`, and `item` is what was `built` from it: a well-formed
/// document, or nothing, and then no node was handed out. A document may
/// come back although no node was handed out.
pub open spec fn wrote<E: NodeEditor>(
    editor: E,
    targets: Seq<Seq<u8>>,
    outcomes: Seq<Outcome>,
    built: Option<Seq<u8>>,
    item: Option<CborOwned>,
    replies: Seq<ReplyView>,
) -> bool {
    &&& follows(editor, targets, outcomes)
    &&& replies == emitted(outcomes)
    &&& match item {
        Some(item) => is_cbor(owned_bytes(item)) && built == Some(owned_bytes(item)),
        None => built is None && outcomes.len() == 0,
    }
}

/// `CborPath::write` on a well-formed document and a path other than the
/// root that is evaluated without fault, with [`edit_node`] as its
/// function. The editor is asked once for
/// each node that `write` hands out, in that order; the replies are those
/// that the editor gave, in that order; what comes back is what `write`
/// returns for the editor's answers: a well-formed document, or nothing
/// where the path has no match, and then no node was handed out.
#[verifier::external_body]
pub(crate) fn write_nodes<E: NodeEditor>(path: &CborPath, doc: &[u8], editor: &E) -> (result: (Option<CborOwned>, Vec<Reply>))
    requires
        is_cbor(doc@),
        editor.ready(),
        !path_is_root(path_expr(*path)),
        faultless(path_expr(*path)),
    ensures
        (exists|outcomes: Seq<Outcome>| #[trigger]
            wrote(
                *editor,
                write_targets(path_expr(*path), doc@),
                outcomes,
                rebuilt(path_expr(*path), doc@, replacements(outcomes)),
                result.0,
                replies_view(result.1@),
            )),
{
    let mut replies = Vec::new();
    let written = path.write(Cbor::unchecked(doc), |node| {
        Ok(edit_node(editor, node.as_slice(), &mut replies).map(|b| Cow::Owned(CborOwned::unchecked(b))))
    });
    (written.ok().flatten(), replies)
}

} // verus!

//! Appending pairs to the maps that a path selects.

use cborpath::CborPath;

use vstd::prelude::*;

use crate::args::{
    args_view, documents_from, ended, existing_document, explicit_path, finish, literals,
    owned_docs_view, stored_document, written_each, Arg, ArgView, CommandError, Stored, StoredView,
    Written, WrittenView,
};
use crate::codec::{
    all_cbor_pairs, dict_entries, encode_dict, entries_of, is_cbor, kind_of, node_kind, pairs_view,
    NodeKind,
};
use crate::document::Document;
use crate::format::dict_encoding;
use crate::path::path_expr;
use crate::protocol::{
    apply, doc_view, edited, lemma_applied_function, lemma_emitted_each, none_only_without_targets,
    replacements, replies_of, rewritten, targets, Edit, NodeEditor, Outcome, Transform,
};
use crate::reply::{length_reply, replies_view, Reply, ReplyView};
use crate::slices::path_safe;
use crate::util::CborPathExt;

verus! {

/// What a map append decides on one node: a map gives way to the map with
/// the pairs behind its own, whether or not a key is there already, and
/// answers with its new number of pairs; any other node stays and answers
/// with null.
pub open spec fn map_append_outcome(node: Seq<u8>, pairs: Seq<(Seq<u8>, Seq<u8>)>) -> Outcome {
    if kind_of(node) == NodeKind::Dict {
        let entries = entries_of(node) + pairs;
        Outcome {
            replacement: Some(dict_encoding(entries)),
            reply: Some(length_reply(entries.len())),
        }
    } else {
        Outcome { replacement: Some(node), reply: Some(ReplyView::Null) }
    }
}

/// The per-node part of a map append.
pub struct MapAppend<'a> {
    pub pairs: &'a Vec<(&'a [u8], &'a [u8])>,
}

/// Appends the pairs of `source` to `target`.
pub(crate) fn extend_pairs<'a>(target: &mut Vec<(&'a [u8], &'a [u8])>, source: &Vec<(&'a [u8], &'a [u8])>)
    ensures
        final(target)@ == old(target)@ + source@,
{
    let mut i: usize = 0;
    while i < source.len()
        invariant
            i <= source.len(),
            target@ == old(target)@ + source@.take(i as int),
        decreases source.len() - i,
    {
        target.push(source[i]);
        proof {
            assert(source@.take(i + 1) =~= source@.take(i as int).push(source@[i as int]));
            assert(target@ =~= old(target)@ + source@.take(i + 1));
        }
        i += 1;
    }
    proof {
        assert(source@.take(source@.len() as int) =~= source@);
    }
}

impl<'a> NodeEditor for MapAppend<'a> {
    open spec fn ready(&self) -> bool {
        all_cbor_pairs(pairs_view(self.pairs@))
    }

    open spec fn edits(&self, node: Seq<u8>, outcome: Outcome) -> bool {
        outcome == map_append_outcome(node, pairs_view(self.pairs@))
    }

    fn edit(&self, node: &[u8]) -> (edit: Edit) {
        match node_kind(node) {
            NodeKind::Dict => {
                let mut entries = dict_entries(node);
                let ghost own = entries@;
                extend_pairs(&mut entries, self.pairs);
                proof {
                    assert(pairs_view(entries@) =~= pairs_view(own) + pairs_view(self.pairs@));
                    assert forall|i: int| 0 <= i < pairs_view(entries@).len() implies is_cbor(
                        (#[trigger] pairs_view(entries@)[i]).0,
                    ) && is_cbor(pairs_view(entries@)[i].1) by {
                        if i < own.len() {
                            assert(pairs_view(entries@)[i] == pairs_view(own)[i]);
                        } else {
                            assert(pairs_view(entries@)[i] == pairs_view(self.pairs@)[i - own.len()]);
                        }
                    }
                }
                let bytes = encode_dict(&entries);
                Edit { transform: Transform::Replace(bytes), reply: Some(Reply::length(entries.len())) }
            },
            _ => Edit { transform: Transform::Unchanged, reply: Some(Reply::Null) },
        }
    }
}

/// The encoded bytes of each key and value.
pub open spec fn doc_pairs_view(pairs: Seq<(&Document, &Document)>) -> Seq<(Seq<u8>, Seq<u8>)> {
    Seq::new(pairs.len(), |i: int| (pairs[i].0@, pairs[i].1@))
}

/// The encoded bytes of each key and value, as slices.
pub(crate) fn pair_slices<'a>(pairs: &Vec<(&'a Document, &'a Document)>) -> (slices: Vec<(&'a [u8], &'a [u8])>)
    ensures
        pairs_view(slices@) == doc_pairs_view(pairs@),
        all_cbor_pairs(pairs_view(slices@)),
{
    let mut slices: Vec<(&'a [u8], &'a [u8])> = Vec::new();
    let mut i: usize = 0;
    while i < pairs.len()
        invariant
            i <= pairs.len(),
            slices@.len() == i,
            forall|j: int|
                0 <= j < i ==> (#[trigger] slices@[j]).0@ == pairs@[j].0@ && slices@[j].1@
                    == pairs@[j].1@ && is_cbor(slices@[j].0@) && is_cbor(slices@[j].1@),
        decreases pairs.len() - i,
    {
        let key = pairs[i].0.as_slice();
        let value = pairs[i].1.as_slice();
        slices.push((key, value));
        i += 1;
    }
    proof {
        assert(pairs_view(slices@) =~= doc_pairs_view(pairs@));
        assert forall|j: int| 0 <= j < pairs_view(slices@).len() implies is_cbor(
            (#[trigger] pairs_view(slices@)[j]).0,
        ) && is_cbor(pairs_view(slices@)[j].1) by {
            assert(is_cbor(slices@[j].0@));
        }
    }
    slices
}

/// Appends the pairs to every map that the path selects, in the order
/// given and without looking for keys that are there already. Answers,
/// for each selected node in turn, with the map's new number of pairs, or
/// with null for a node that is no map.
pub fn map_append(existing: &Document, cbor_path: &CborPath, key_value_pairs: Vec<(&Document, &Document)>) -> (result:
    (Option<Document>, Vec<Reply>))
    requires
        path_safe(path_expr(*cbor_path)),
    ensures
        ({
            let outcomes = edited(
                path_expr(*cbor_path),
                existing@,
                |node: Seq<u8>| map_append_outcome(node, doc_pairs_view(key_value_pairs@)),
            );
            &&& replies_view(result.1@) == replies_of(outcomes)
            &&& doc_view(result.0) == rewritten(path_expr(*cbor_path), existing@, replacements(outcomes))
        }),
        none_only_without_targets(
            path_expr(*cbor_path),
            doc_view(result.0),
            targets(path_expr(*cbor_path), existing@).len(),
        ),
{
    let slices = pair_slices(&key_value_pairs);
    let editor = MapAppend { pairs: &slices };
    let result = apply(cbor_path, existing, &editor);
    proof {
        let decide = |node: Seq<u8>| map_append_outcome(node, doc_pairs_view(key_value_pairs@));
        lemma_applied_function(
            editor,
            decide,
            path_expr(*cbor_path),
            existing@,
            doc_view(result.0),
            replies_view(result.1@),
        );
        lemma_emitted_each(edited(path_expr(*cbor_path), existing@, decide));
    }
    result
}

/// The items taken two by two: a key and its value.
pub open spec fn paired(items: Seq<Seq<u8>>) -> Seq<(Seq<u8>, Seq<u8>)> {
    Seq::new(items.len() / 2, |i: int| (items[2 * i], items[2 * i + 1]))
}

/// What the command `key path map_key map_value [map_key map_value ...]`
/// yields.
pub open spec fn map_append_command(args: Seq<ArgView>, stored: StoredView) -> Result<
    WrittenView,
    CommandError,
> {
    if args.len() < 5 || args.len() % 2 == 0 {
        Err(CommandError::WrongArity)
    } else {
        match literals(args, 3) {
            Err(e) => Err(e),
            Ok(items) => match explicit_path(args[2]) {
                Err(e) => Err(e),
                Ok(expr) => match stored_document(stored) {
                    Err(e) => Err(e),
                    Ok(doc) => Ok(
                        written_each(
                            expr,
                            doc,
                            |node: Seq<u8>| map_append_outcome(node, paired(items)),
                            "cbor.mapappend"@,
                        ),
                    ),
                },
            },
        }
    }
}

/// The documents taken two by two.
fn pair_up<'a>(docs: &'a Vec<Document>) -> (pairs: Vec<(&'a Document, &'a Document)>)
    requires
        docs.len() % 2 == 0,
    ensures
        doc_pairs_view(pairs@) == paired(owned_docs_view(docs@)),
{
    let mut pairs: Vec<(&'a Document, &'a Document)> = Vec::new();
    let mut i: usize = 0;
    while i < docs.len()
        invariant
            i <= docs.len(),
            i % 2 == 0,
            docs.len() % 2 == 0,
            pairs@.len() == i / 2,
            forall|j: int|
                0 <= j < i / 2 ==> (#[trigger] pairs@[j]).0@ == docs@[2 * j]@ && pairs@[j].1@
                    == docs@[2 * j + 1]@,
        decreases docs.len() - i,
    {
        pairs.push((&docs[i], &docs[i + 1]));
        i += 2;
    }
    proof {
        assert(doc_pairs_view(pairs@) =~= paired(owned_docs_view(docs@)));
    }
    pairs
}

/// The command `key path map_key map_value [map_key map_value ...]`:
/// appends the pairs as [`map_append`] does and answers with the list of
/// its replies. Fails where there are fewer than one pair or a key
/// without a value, a key or a value is no CBOR item, the path is no path
/// expression, the lookup failed or the key holds no document, in this
/// order.
pub fn cbor_map_append(args: &Vec<Arg>, stored: Stored) -> (result: Result<Written, CommandError>)
    ensures
        ended(result, map_append_command(args_view(args@), stored@)),
{
    if args.len() < 5 || args.len() % 2 == 0 {
        return Err(CommandError::WrongArity);
    }
    let items = match documents_from(args, 3) {
        Ok(value) => value,
        Err(e) => {
            return Err(e);
        },
    };
    let cbor_path = match CborPath::from_arg(&args[2]) {
        Ok(value) => value,
        Err(e) => {
            return Err(e);
        },
    };
    let existing = match existing_document(&stored) {
        Ok(value) => value,
        Err(e) => {
            return Err(e);
        },
    };
    Ok(finish(map_append(existing, &cbor_path, pair_up(&items)), "cbor.mapappend"))
}

} // verus!

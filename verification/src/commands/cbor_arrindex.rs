//! Search for a value in the arrays that a path selects.

use cborpath::CborPath;

use vstd::prelude::*;

use crate::args::{
    answered, args_view, existing_document, explicit_path, integer_or, literal, optional_integer,
    stored_document, Arg, ArgView, CommandError, Stored, StoredView,
};
use crate::codec::{array_items, items_of, kind_of, node_kind, slices_view, NodeKind};
use crate::document::Document;
use crate::index::{
    index_of, is_first_at, lemma_index_of_first, normalize_index, occurs_in, same_bytes,
};
use crate::path::path_expr;
use crate::protocol::{collect, selected, NodeReader};
use crate::reply::{length_reply, replies_view, Reply, ReplyView};
use crate::slices::path_safe;
use crate::util::{CborExt, CborPathExt};

verus! {

/// The reply of a search in one node: for an array, the position of the
/// first item equal to `value` within the range that `start` and `stop`
/// denote, or -1 if there is none; for any other node, null.
pub open spec fn index_reply(node: Seq<u8>, value: Seq<u8>, start: int, stop: int) -> ReplyView {
    if kind_of(node) == NodeKind::Array {
        let position = index_of(items_of(node), value, start, stop);
        if position < 0 {
            ReplyView::Integer(-1i64)
        } else {
            length_reply(position as nat)
        }
    } else {
        ReplyView::Null
    }
}

/// The per-node part of a search.
pub struct ArrayIndex<'a> {
    pub value: &'a [u8],
    pub start: i64,
    pub stop: i64,
}

/// The first position in `[from, until)` at which the items hold `value`.
pub(crate) fn first_position(items: &Vec<&[u8]>, value: &[u8], from: usize, until: usize) -> (found: Option<
    usize,
>)
    requires
        until <= items.len(),
    ensures
        match found {
            Some(position) => is_first_at(
                slices_view(items@),
                value@,
                from as nat,
                until as nat,
                position as int,
            ),
            None => !occurs_in(slices_view(items@), value@, from as nat, until as nat),
        },
{
    let mut i: usize = from;
    while i < until
        invariant
            until <= items.len(),
            from <= i,
            forall|j: int| from <= j < i && j < until ==> slices_view(items@)[j] != value@,
        decreases until - i,
    {
        if same_bytes(items[i], value) {
            return Some(i);
        }
        i += 1;
    }
    None
}

impl<'a> NodeReader for ArrayIndex<'a> {
    open spec fn ready(&self) -> bool {
        true
    }

    open spec fn reads(&self, node: Seq<u8>) -> ReplyView {
        index_reply(node, self.value@, self.start as int, self.stop as int)
    }

    fn read(&self, node: &[u8]) -> (reply: Reply) {
        match node_kind(node) {
            NodeKind::Array => {
                let items = array_items(node);
                let from = normalize_index(self.start, items.len());
                let until = if self.start >= 0 && self.stop == -1 {
                    items.len()
                } else {
                    normalize_index(self.stop, items.len())
                };
                match first_position(&items, self.value, from, until) {
                    Some(position) => {
                        proof {
                            lemma_index_of_first(
                                items_of(node@),
                                self.value@,
                                self.start as int,
                                self.stop as int,
                                position as int,
                            );
                        }
                        Reply::length(position)
                    },
                    None => Reply::Integer(-1),
                }
            },
            _ => Reply::Null,
        }
    }
}

/// Searches every array that the path selects for `value`, within the
/// range that `start` and `stop` denote in that array: from the position
/// of `start` up to, and without, that of `stop`, where a `stop` of -1
/// after a non-negative `start` stands for the array's end. Answers, for
/// each selected node in turn, with the position of the first item equal
/// to `value`, with -1 if there is none in the range, or with null for a
/// node that is no array.
pub fn array_index(existing: &Document, cbor_path: &CborPath, value: &Document, start: i64, stop: i64) -> (positions:
    Vec<Reply>)
    requires
        path_safe(path_expr(*cbor_path)),
    ensures
        replies_view(positions@) == Seq::new(
            selected(path_expr(*cbor_path), existing@).len(),
            |i: int|
                index_reply(
                    selected(path_expr(*cbor_path), existing@)[i],
                    value@,
                    start as int,
                    stop as int,
                ),
        ),
{
    let reader = ArrayIndex { value: value.as_slice(), start, stop };
    let replies = collect(cbor_path, existing, &reader);
    proof {
        assert(replies_view(replies@) =~= Seq::new(
            selected(path_expr(*cbor_path), existing@).len(),
            |i: int|
                index_reply(
                    selected(path_expr(*cbor_path), existing@)[i],
                    value@,
                    start as int,
                    stop as int,
                ),
        ));
    }
    replies
}

/// What the command `key path value [start [stop]]` answers. `start`
/// defaults to 0 and `stop` to -1.
pub open spec fn arr_index_command(args: Seq<ArgView>, stored: StoredView) -> Result<
    ReplyView,
    CommandError,
> {
    if args.len() < 4 {
        Err(CommandError::WrongArity)
    } else {
        match optional_integer(args, 4, 0i64) {
            Err(e) => Err(e),
            Ok(start) => match optional_integer(args, 5, -1i64) {
                Err(e) => Err(e),
                Ok(stop) => match explicit_path(args[2]) {
                    Err(e) => Err(e),
                    Ok(expr) => match literal(args[3]) {
                        Err(e) => Err(e),
                        Ok(value) => match stored_document(stored) {
                            Err(e) => Err(e),
                            Ok(doc) => Ok(
                                ReplyView::Array(
                                    Seq::new(
                                        selected(expr, doc).len(),
                                        |i: int|
                                            index_reply(
                                                selected(expr, doc)[i],
                                                value,
                                                start as int,
                                                stop as int,
                                            ),
                                    ),
                                ),
                            ),
                        },
                    },
                },
            },
        }
    }
}

/// The command `key path value [start [stop]]`: answers with the list of
/// [`array_index`]. Fails where an argument is missing, `start` or `stop`
/// is no integer, the path is no path expression, the value is no CBOR
/// item, the lookup failed or the key holds no document, in this order.
pub fn cbor_arr_index(args: &Vec<Arg>, stored: Stored) -> (result: Result<Reply, CommandError>)
    ensures
        answered(result, arr_index_command(args_view(args@), stored@)),
{
    if args.len() < 4 {
        return Err(CommandError::WrongArity);
    }
    let start = match integer_or(args, 4, 0) {
        Ok(value) => value,
        Err(e) => {
            return Err(e);
        },
    };
    let stop = match integer_or(args, 5, -1) {
        Ok(value) => value,
        Err(e) => {
            return Err(e);
        },
    };
    let cbor_path = match CborPath::from_arg(&args[2]) {
        Ok(value) => value,
        Err(e) => {
            return Err(e);
        },
    };
    let value = match Document::from_arg(&args[3]) {
        Ok(value) => value,
        Err(e) => {
            return Err(e);
        },
    };
    let existing = match existing_document(&stored) {
        Ok(value) => value,
        Err(e) => {
            return Err(e);
        },
    };
    Ok(Reply::list(array_index(existing, &cbor_path, &value, start, stop)))
}

} // verus!

//! Reading the nodes that a path selects in the documents of several keys.

use cborpath::CborPath;

use vstd::prelude::*;

use crate::args::{args_view, explicit_path, Arg, CommandError};
use crate::commands::cbor_get::{get, get_document};
use crate::document::Document;
use crate::path::path_expr;
use crate::reply::{replies_view, Reply, ReplyView};
use crate::slices::path_safe;
use crate::util::CborPathExt;

verus! {

/// The position of the first lookup that failed, if any did.
pub open spec fn first_failure<E>(lookups: Seq<Result<Option<&Document>, E>>) -> Option<int> {
    if exists|k: int| 0 <= k < lookups.len() && lookups[k] is Err {
        Some(
            choose|k: int|
                0 <= k < lookups.len() && lookups[k] is Err && forall|j: int|
                    0 <= j < k ==> lookups[j] is Ok,
        )
    } else {
        None
    }
}

/// The reply for one key whose lookup succeeded: the selected nodes as an
/// encoded array, or null where the key holds no document.
pub open spec fn key_reply<E>(lookup: Result<Option<&Document>, E>, expr: Seq<u8>) -> ReplyView {
    match lookup {
        Ok(Some(doc)) => ReplyView::StringBuffer(get_document(expr, doc@)),
        _ => ReplyView::Null,
    }
}

/// The index of the first failed lookup.
fn find_failure<E>(lookups: &Vec<Result<Option<&Document>, E>>) -> (found: Option<usize>)
    ensures
        match found {
            Some(k) => k < lookups.len() && first_failure(lookups@) == Some(k as int)
                && lookups@[k as int] is Err,
            None => first_failure(lookups@) is None && forall|j: int|
                0 <= j < lookups.len() ==> lookups@[j] is Ok,
        },
{
    let mut i: usize = 0;
    while i < lookups.len()
        invariant
            i <= lookups.len(),
            forall|j: int| 0 <= j < i ==> lookups@[j] is Ok,
        decreases lookups.len() - i,
    {
        if lookups[i].is_err() {
            proof {
                let chosen = choose|k: int|
                    0 <= k < lookups@.len() && lookups@[k] is Err && forall|j: int|
                        0 <= j < k ==> lookups@[j] is Ok;
                assert(0 <= chosen < lookups@.len() && lookups@[chosen] is Err && forall|j: int|
                    0 <= j < chosen ==> lookups@[j] is Ok);
                if chosen < i {
                    assert(lookups@[chosen] is Ok);
                }
                if i < chosen {
                    assert(lookups@[i as int] is Ok);
                }
            }
            return Some(i);
        }
        i += 1;
    }
    None
}

/// Reads the nodes that the path selects in the document of each key, in
/// the order of the keys. Answers with one list: for each key the selected
/// nodes as one encoded array, or null where the key holds no document.
/// The first lookup that failed, if any, fails the whole call with its
/// error.
pub fn multiple_get<E>(existing_values: Vec<Result<Option<&Document>, E>>, cbor_path: &CborPath) -> (result:
    Result<Reply, E>)
    requires
        path_safe(path_expr(*cbor_path)),
    ensures
        match first_failure(existing_values@) {
            Some(k) => result == Err::<Reply, E>(existing_values@[k]->Err_0),
            None => result matches Ok(reply) && reply@ == ReplyView::Array(
                Seq::new(
                    existing_values@.len(),
                    |i: int| key_reply(existing_values@[i], path_expr(*cbor_path)),
                ),
            ),
        },
{
    let mut existing_values = existing_values;
    let ghost lookups = existing_values@;
    match find_failure(&existing_values) {
        Some(k) => {
            match existing_values.swap_remove(k) {
                Err(e) => Err(e),
                Ok(_) => Ok(Reply::Null),
            }
        },
        None => {
            let mut replies: Vec<Reply> = Vec::new();
            let mut i: usize = 0;
            while i < existing_values.len()
                invariant
                    i <= existing_values.len(),
                    path_safe(path_expr(*cbor_path)),
                    existing_values@ == lookups,
                    replies@.len() == i,
                    forall|j: int| 0 <= j < lookups.len() ==> lookups[j] is Ok,
                    forall|j: int|
                        0 <= j < i ==> (#[trigger] replies@[j])@ == key_reply(
                            lookups[j],
                            path_expr(*cbor_path),
                        ),
                decreases existing_values.len() - i,
            {
                let reply = match &existing_values[i] {
                    Ok(Some(existing)) => {
                        match get(Some(*existing), cbor_path) {
                            Some(found) => Reply::bytes(found.as_slice()),
                            None => Reply::Null,
                        }
                    },
                    _ => Reply::Null,
                };
                replies.push(reply);
                i += 1;
            }
            proof {
                assert(replies_view(replies@) =~= Seq::new(
                    lookups.len(),
                    |i: int| key_reply(lookups[i], path_expr(*cbor_path)),
                ));
            }
            Ok(Reply::list(replies))
        },
    }
}

/// Why a read of several keys fails: for a reason of the command itself,
/// or with the error of the first lookup that failed.
pub enum MgetError<E> {
    Command(CommandError),
    Lookup(E),
}

/// The command `key [key ...] path`: reads as [`multiple_get`] does, the
/// lookups being those of the keys in order. Fails where there is not at
/// least one key and a path, where the last argument is no path
/// expression, or with the error of the first lookup that failed, in this
/// order.
pub fn cbor_mget<E>(args: &Vec<Arg>, lookups: Vec<Result<Option<&Document>, E>>) -> (result: Result<
    Reply,
    MgetError<E>,
>)
    ensures
        args.len() < 3 ==> result matches Err(MgetError::Command(CommandError::WrongArity)),
        args.len() >= 3 ==> match explicit_path(args_view(args@).last()) {
            Err(e) => result matches Err(MgetError::Command(error)) && error == e,
            Ok(expr) => match first_failure(lookups@) {
                Some(k) => result matches Err(MgetError::Lookup(error)) && error
                    == lookups@[k]->Err_0,
                None => result matches Ok(reply) && reply@ == ReplyView::Array(
                    Seq::new(lookups@.len(), |i: int| key_reply(lookups@[i], expr)),
                ),
            },
        },
{
    if args.len() < 3 {
        return Err(MgetError::Command(CommandError::WrongArity));
    }
    let cbor_path = match CborPath::from_arg(&args[args.len() - 1]) {
        Ok(path) => path,
        Err(e) => {
            return Err(MgetError::Command(e));
        },
    };
    match multiple_get(lookups, &cbor_path) {
        Ok(reply) => Ok(reply),
        Err(e) => Err(MgetError::Lookup(e)),
    }
}

} // verus!

//! Reading the nodes that a path selects.

use cborpath::CborPath;

use vstd::prelude::*;

use crate::args::{
    answered, args_view, default_is_root, lemma_same_path, optional_path, path_or_root, Arg,
    ArgView, CommandError, Stored, StoredView,
};
use crate::codec::encode_array;
use crate::document::Document;
use crate::format::array_encoding;
use crate::path::path_expr;
use crate::protocol::{select, selected};
use crate::reply::{Reply, ReplyView};
use crate::slices::path_safe;

verus! {

/// The array of the nodes that the path selects in the document.
pub open spec fn get_document(expr: Seq<u8>, doc: Seq<u8>) -> Seq<u8> {
    array_encoding(selected(expr, doc))
}

/// The nodes that the path selects in the stored document, in match
/// order, as one array; no document where the key holds none.
pub fn get(existing: Option<&Document>, cbor_path: &CborPath) -> (found: Option<Document>)
    requires
        path_safe(path_expr(*cbor_path)),
    ensures
        match existing {
            Some(doc) => found matches Some(array) && array@ == get_document(
                path_expr(*cbor_path),
                doc@,
            ),
            None => found is None,
        },
{
    match existing {
        Some(value) => {
            let results = select(cbor_path, value);
            Some(Document::trusted(encode_array(&results)))
        },
        None => None,
    }
}

/// What the command `key [path]` answers: the selected nodes as one
/// encoded array, or null where the key holds no document.
pub open spec fn get_command(args: Seq<ArgView>, stored: StoredView) -> Result<ReplyView, CommandError> {
    if args.len() < 2 {
        Err(CommandError::WrongArity)
    } else {
        match optional_path(args, 2) {
            Err(e) => Err(e),
            Ok(expr) => match stored {
                StoredView::Failed => Err(CommandError::LookupFailed),
                StoredView::Missing => Ok(ReplyView::Null),
                StoredView::Found(doc) => Ok(ReplyView::StringBuffer(get_document(expr, doc))),
            },
        }
    }
}

/// The command `key [path]`: reads the nodes that the path selects. A key
/// that holds no document is answered with null, never with an empty
/// array. Fails where the key is missing from the arguments, the path is
/// no path expression or the lookup failed, in this order.
pub fn cbor_get(args: &Vec<Arg>, stored: Stored) -> (result: Result<Reply, CommandError>)
    ensures
        answered(result, get_command(args_view(args@), stored@)),
        result is Ok ==> default_is_root(args_view(args@), 2),
{
    if args.len() < 2 {
        return Err(CommandError::WrongArity);
    }
    let cbor_path = match path_or_root(args, 2) {
        Ok(value) => value,
        Err(e) => {
            return Err(e);
        },
    };
    let existing = match stored {
        Stored::Failed => {
            return Err(CommandError::LookupFailed);
        },
        Stored::Missing => None,
        Stored::Found(doc) => Some(doc),
    };
    match get(existing, &cbor_path) {
        Some(value) => {
            proof {
                lemma_same_path(
                    path_expr(cbor_path),
                    optional_path(args_view(args@), 2)->Ok_0,
                    existing->Some_0@,
                );
            }
            Ok(Reply::bytes(value.as_slice()))
        },
        None => Ok(Reply::Null),
    }
}

} // verus!

//! The debug command: diagnostic notation and memory usage of a stored
//! document.

use vstd::prelude::*;
use vstd::string::StringSliceAdditionalSpecFns;
use vstd::utf8::{decode_utf8, encode_utf8, encode_utf8_decode_utf8, valid_utf8};

use crate::args::{answered, args_view, as_text, Arg, ArgView, CommandError, Stored, StoredView};
use crate::codec::{diagnostic, diagnostic_of};
use crate::index::same_bytes;
use crate::reply::{length_reply, replies_view, Reply, ReplyView};
use crate::util::{memory_cost, CborOwnedExt};

verus! {

/// The text in upper case, as `str::to_uppercase` gives it.
pub uninterp spec fn uppercase_of(text: Seq<char>) -> Seq<char>;

/// `str::to_uppercase`: the text with each character in upper case.
#[verifier::external_body]
pub(crate) fn to_uppercase(text: &str) -> (upper: String)
    ensures
        upper@ == uppercase_of(text@),
{
    text.to_uppercase()
}

/// The lines of help.
pub open spec fn help_lines() -> Seq<ReplyView> {
    seq![
        ReplyView::BulkString("DIAG <key> - display key in CBOR diagnostic notation"@),
        ReplyView::BulkString("MEMORY <key> - reports memory usage"@),
        ReplyView::BulkString("HELP                - this message"@),
    ]
}

/// What a subcommand that takes a key answers about what the key holds.
pub open spec fn about_key(memory: bool, stored: StoredView) -> Result<ReplyView, CommandError> {
    match stored {
        StoredView::Failed => Err(CommandError::LookupFailed),
        StoredView::Missing => if memory {
            Ok(ReplyView::Integer(0))
        } else {
            Ok(ReplyView::Null)
        },
        StoredView::Found(doc) => if memory {
            Ok(length_reply(memory_cost(doc.len()) as nat))
        } else {
            match diagnostic_of(doc) {
                Some(text) => Ok(ReplyView::BulkString(text)),
                None => Err(CommandError::NotPrintable),
            }
        },
    }
}

/// What the command `subcommand [key]` answers. The subcommand is read
/// in upper case: `DIAG key` gives the stored document in diagnostic
/// notation, or null where the key holds none; `MEMORY key` gives its
/// memory usage, or 0; `HELP` gives the lines of help.
pub open spec fn debug_command(args: Seq<ArgView>, stored: StoredView) -> Result<
    ReplyView,
    CommandError,
> {
    if args.len() < 2 {
        Err(CommandError::WrongArity)
    } else if !valid_utf8(args[1].bytes) {
        Err(CommandError::NotUtf8)
    } else {
        let word = encode_utf8(uppercase_of(decode_utf8(args[1].bytes)));
        if word == "DIAG".spec_bytes() || word == "MEMORY".spec_bytes() {
            if args.len() < 3 {
                Err(CommandError::WrongArity)
            } else {
                about_key(word == "MEMORY".spec_bytes(), stored)
            }
        } else if word == "HELP".spec_bytes() {
            Ok(ReplyView::Array(help_lines()))
        } else {
            Err(CommandError::UnknownSubcommand)
        }
    }
}

/// The command `subcommand [key]`, where `stored` is what the host found
/// under the key if one is given. Fails where the subcommand is missing
/// or not UTF-8, where it is none of `DIAG`, `MEMORY` and `HELP`, where
/// `DIAG` or `MEMORY` comes without a key or the lookup failed, or where
/// the document of `DIAG` cannot be put in diagnostic notation.
pub fn cbor_debug(args: &Vec<Arg>, stored: Stored) -> (result: Result<Reply, CommandError>)
    ensures
        answered(result, debug_command(args_view(args@), stored@)),
{
    if args.len() < 2 {
        return Err(CommandError::WrongArity);
    }
    let subcommand = match as_text(args[1].bytes) {
        Some(text) => text,
        None => {
            return Err(CommandError::NotUtf8);
        },
    };
    proof {
        encode_utf8_decode_utf8(subcommand@);
    }
    let upper = to_uppercase(subcommand);
    let word = upper.as_str().as_bytes();
    let diag = same_bytes(word, "DIAG".as_bytes());
    let memory = same_bytes(word, "MEMORY".as_bytes());
    if diag || memory {
        if args.len() < 3 {
            return Err(CommandError::WrongArity);
        }
        match stored {
            Stored::Failed => Err(CommandError::LookupFailed),
            Stored::Missing => if memory {
                Ok(Reply::Integer(0))
            } else {
                Ok(Reply::Null)
            },
            Stored::Found(doc) => if memory {
                Ok(Reply::length(doc.mem_usage()))
            } else {
                match diagnostic(doc.as_slice()) {
                    Some(text) => Ok(Reply::BulkString(text)),
                    None => Err(CommandError::NotPrintable),
                }
            },
        }
    } else if same_bytes(word, "HELP".as_bytes()) {
        let mut lines: Vec<Reply> = Vec::new();
        lines.push(Reply::BulkString("DIAG <key> - display key in CBOR diagnostic notation".to_owned()));
        lines.push(Reply::BulkString("MEMORY <key> - reports memory usage".to_owned()));
        lines.push(Reply::BulkString("HELP                - this message".to_owned()));
        proof {
            assert(replies_view(lines@) =~= help_lines());
        }
        Ok(Reply::list(lines))
    } else {
        Err(CommandError::UnknownSubcommand)
    }
}

} // verus!

//! Conditional replacement of a whole document or of the nodes that a path
//! selects by a literal value.

use cborpath::CborPath;

use vstd::prelude::*;
use vstd::utf8::valid_utf8;

use crate::args::{
    args_view, as_text, ended, explicit_path, literal, Arg, ArgView, CommandError, Stored,
    StoredView, Written, WrittenView,
};
use crate::document::Document;
use crate::path::{is_root, path_expr, path_is_root};
use crate::protocol::{
    apply, doc_view, emitted, follows, none_only_without_targets, replacements, rewritten, targets,
    Edit, NodeEditor, Outcome, Transform,
};
use crate::reply::{Reply, ReplyView};
use crate::slices::path_safe;
use crate::util::{CborExt, CborPathExt};

verus! {

/// The existence condition of a set.
#[derive(Clone, Copy, Debug, PartialEq, Eq)]
pub enum SetOptions {
    /// The key must not hold a document yet.
    NotExists,
    /// The key must hold a document already.
    AlreadyExists,
    /// No condition.
    NoCondition,
}

/// How a set ended.
#[derive(Debug, PartialEq, Eq)]
pub enum SetResult {
    /// The existence condition does not hold: nothing is to be stored.
    ErrConditionNotMet,
    /// The key holds no document and the path is not the root.
    ErrExpectedRoot,
    /// The document to store.
    Updated(Document),
    /// The path has no match in the stored document.
    NoMatch,
}

/// The mathematical value of a [`SetResult`].
pub enum SetResultView {
    ErrConditionNotMet,
    ErrExpectedRoot,
    Updated(Seq<u8>),
    NoMatch,
}

impl View for SetResult {
    type V = SetResultView;

    open spec fn view(&self) -> SetResultView {
        match self {
            SetResult::ErrConditionNotMet => SetResultView::ErrConditionNotMet,
            SetResult::ErrExpectedRoot => SetResultView::ErrExpectedRoot,
            SetResult::Updated(doc) => SetResultView::Updated(doc@),
            SetResult::NoMatch => SetResultView::NoMatch,
        }
    }
}

/// Replaces every node by one literal.
pub struct SetLiteral<'a> {
    pub value: &'a Document,
}

/// The outcome of setting a node to `value`.
pub open spec fn set_outcome(value: Seq<u8>) -> Outcome {
    Outcome { replacement: Some(value), reply: None }
}

impl<'a> NodeEditor for SetLiteral<'a> {
    open spec fn ready(&self) -> bool {
        true
    }

    open spec fn edits(&self, node: Seq<u8>, outcome: Outcome) -> bool {
        outcome == set_outcome(self.value@)
    }

    fn edit(&self, node: &[u8]) -> (edit: Edit) {
        let bytes = vstd::slice::slice_to_vec(self.value.as_slice());
        Edit { transform: Transform::Replace(bytes), reply: None }
    }
}

/// The document in which every target of the path is `value`, if the path
/// has a match.
pub open spec fn set_document(expr: Seq<u8>, doc: Seq<u8>, value: Seq<u8>) -> Option<Seq<u8>> {
    rewritten(
        expr,
        doc,
        Seq::new(targets(expr, doc).len(), |i: int| Some(value)),
    )
}

/// What a set yields.
pub open spec fn set_result(
    existing: Option<Seq<u8>>,
    expr: Seq<u8>,
    value: Seq<u8>,
    options: SetOptions,
) -> SetResultView {
    match (existing, options) {
        (Some(_), SetOptions::NotExists) => SetResultView::ErrConditionNotMet,
        (None, SetOptions::AlreadyExists) => SetResultView::ErrConditionNotMet,
        (Some(doc), _) => match set_document(expr, doc, value) {
            Some(updated) => SetResultView::Updated(updated),
            None => SetResultView::NoMatch,
        },
        (None, _) => if path_is_root(expr) {
            SetResultView::Updated(value)
        } else {
            SetResultView::ErrExpectedRoot
        },
    }
}

/// Sets the nodes that the path selects in the stored document to
/// `new_value`, or creates the document where the key holds none and the
/// path is the root, subject to the existence condition.
pub fn set(
    existing_value: Option<&Document>,
    cbor_path: &CborPath,
    new_value: &Document,
    options: SetOptions,
) -> (result: SetResult)
    requires
        path_safe(path_expr(*cbor_path)),
    ensures
        result@ == set_result(
            match existing_value {
                Some(doc) => Some(doc@),
                None => None,
            },
            path_expr(*cbor_path),
            new_value@,
            options,
        ),
{
    match (existing_value, options) {
        (Some(_), SetOptions::NotExists) => SetResult::ErrConditionNotMet,
        (None, SetOptions::AlreadyExists) => SetResult::ErrConditionNotMet,
        (Some(existing), _) => {
            let editor = SetLiteral { value: new_value };
            let (updated, replies) = apply(cbor_path, existing, &editor);
            proof {
                let expr = path_expr(*cbor_path);
                let outcomes = choose|outcomes: Seq<Outcome>|
                    {
                        &&& #[trigger] follows(editor, targets(expr, existing@), outcomes)
                        &&& crate::reply::replies_view(replies@) == emitted(outcomes)
                        &&& doc_view(updated) == rewritten(expr, existing@, replacements(outcomes))
                        &&& none_only_without_targets(expr, doc_view(updated), outcomes.len())
                    };
                assert(replacements(outcomes) =~= Seq::new(
                    targets(expr, existing@).len(),
                    |i: int| Some(new_value@),
                ));
            }
            match updated {
                Some(updated) => SetResult::Updated(updated),
                None => SetResult::NoMatch,
            }
        },
        (None, _) => {
            if is_root(cbor_path) {
                SetResult::Updated(new_value.copy())
            } else {
                SetResult::ErrExpectedRoot
            }
        },
    }
}

/// A letter in upper case; any other byte as it is.
pub open spec fn upper(byte: u8) -> u8 {
    if 97 <= byte <= 122 {
        (byte - 32) as u8
    } else {
        byte
    }
}

/// Whether the bytes spell the two-letter word, whatever the case of
/// their letters.
pub open spec fn is_word(bytes: Seq<u8>, first: u8, second: u8) -> bool {
    bytes.len() == 2 && upper(bytes[0]) == first && upper(bytes[1]) == second
}

/// The existence condition that the arguments from a position on spell,
/// given the one spelled so far. `NX` asks that the key hold no document
/// and `XX` that it hold one; a condition may be given once. Any other
/// argument is a syntax error if it is text, and otherwise not UTF-8.
pub open spec fn set_options(args: Seq<ArgView>, from: int, current: SetOptions) -> Result<
    SetOptions,
    CommandError,
>
    decreases args.len() - from,
{
    if from >= args.len() || from < 0 {
        Ok(current)
    } else if is_word(args[from].bytes, 78, 88) && current == SetOptions::NoCondition {
        set_options(args, from + 1, SetOptions::NotExists)
    } else if is_word(args[from].bytes, 88, 88) && current == SetOptions::NoCondition {
        set_options(args, from + 1, SetOptions::AlreadyExists)
    } else if valid_utf8(args[from].bytes) {
        Err(CommandError::Syntax)
    } else {
        Err(CommandError::NotUtf8)
    }
}

/// How a set ends as a command: a condition that does not hold is
/// answered with null and stores nothing; a selection that is empty is
/// acknowledged and stores nothing; an update is acknowledged and stored.
pub open spec fn set_ending(result: SetResultView) -> Result<WrittenView, CommandError> {
    match result {
        SetResultView::ErrConditionNotMet => Ok(
            WrittenView { new_value: None, reply: ReplyView::Null, event: "cbor.set"@ },
        ),
        SetResultView::ErrExpectedRoot => Err(CommandError::ExpectedRoot),
        SetResultView::Updated(doc) => Ok(
            WrittenView { new_value: Some(doc), reply: ReplyView::Okay, event: "cbor.set"@ },
        ),
        SetResultView::NoMatch => Ok(
            WrittenView { new_value: None, reply: ReplyView::Okay, event: "cbor.set"@ },
        ),
    }
}

/// What the command `key path value [NX | XX]` yields.
pub open spec fn set_command(args: Seq<ArgView>, stored: StoredView) -> Result<
    WrittenView,
    CommandError,
> {
    if args.len() < 4 {
        Err(CommandError::WrongArity)
    } else {
        match explicit_path(args[2]) {
            Err(e) => Err(e),
            Ok(expr) => match literal(args[3]) {
                Err(e) => Err(e),
                Ok(value) => match set_options(args, 4, SetOptions::NoCondition) {
                    Err(e) => Err(e),
                    Ok(options) => match stored {
                        StoredView::Failed => Err(CommandError::LookupFailed),
                        StoredView::Missing => set_ending(set_result(None, expr, value, options)),
                        StoredView::Found(doc) => set_ending(
                            set_result(Some(doc), expr, value, options),
                        ),
                    },
                },
            },
        }
    }
}

/// A set that must not find a document, on a key that holds one, stores
/// nothing and is answered with null.
pub proof fn lemma_set_must_not_exist(args: Seq<ArgView>, doc: Seq<u8>)
    requires
        args.len() == 5,
        explicit_path(args[2]) is Ok,
        literal(args[3]) is Ok,
        is_word(args[4].bytes, 78, 88),
    ensures
        set_command(args, StoredView::Found(doc)) == Ok::<WrittenView, CommandError>(
            WrittenView { new_value: None, reply: ReplyView::Null, event: "cbor.set"@ },
        ),
{
    reveal_with_fuel(set_options, 3);
}

/// Whether the bytes spell the two-letter word, whatever the case of
/// their letters.
fn spells(bytes: &[u8], first: u8, second: u8) -> (yes: bool)
    ensures
        yes == is_word(bytes@, first, second),
{
    bytes.len() == 2 && to_upper(bytes[0]) == first && to_upper(bytes[1]) == second
}

/// A letter in upper case; any other byte as it is.
fn to_upper(byte: u8) -> (result: u8)
    ensures
        result == upper(byte),
{
    if 97 <= byte && byte <= 122 {
        byte - 32
    } else {
        byte
    }
}

/// The existence condition that the arguments from the fifth on spell.
fn options_from_args(args: &Vec<Arg>) -> (result: Result<SetOptions, CommandError>)
    requires
        args.len() >= 4,
    ensures
        result == set_options(args_view(args@), 4, SetOptions::NoCondition),
{
    let mut options = SetOptions::NoCondition;
    let mut i: usize = 4;
    while i < args.len()
        invariant
            4 <= i <= args.len(),
            set_options(args_view(args@), 4, SetOptions::NoCondition) == set_options(
                args_view(args@),
                i as int,
                options,
            ),
        decreases args.len() - i,
    {
        let unset = match options {
            SetOptions::NoCondition => true,
            _ => false,
        };
        if spells(args[i].bytes, 78, 88) && unset {
            options = SetOptions::NotExists;
        } else if spells(args[i].bytes, 88, 88) && unset {
            options = SetOptions::AlreadyExists;
        } else if as_text(args[i].bytes).is_some() {
            return Err(CommandError::Syntax);
        } else {
            return Err(CommandError::NotUtf8);
        }
        i += 1;
    }
    Ok(options)
}

/// The command `key path value [NX | XX]`: sets as [`set`] does. Fails
/// where the key, the path or the value is missing, the path is no path
/// expression, the value is no CBOR item, an option is not UTF-8, an
/// option is unknown or a second one, the lookup failed, or the key holds
/// no document and the path is not the root, in this order.
pub fn cbor_set(args: &Vec<Arg>, stored: Stored) -> (result: Result<Written, CommandError>)
    ensures
        ended(result, set_command(args_view(args@), stored@)),
{
    if args.len() < 4 {
        return Err(CommandError::WrongArity);
    }
    let cbor_path = match CborPath::from_arg(&args[2]) {
        Ok(value) => value,
        Err(e) => {
            return Err(e);
        },
    };
    let new_value = match Document::from_arg(&args[3]) {
        Ok(value) => value,
        Err(e) => {
            return Err(e);
        },
    };
    let options = match options_from_args(args) {
        Ok(value) => value,
        Err(e) => {
            return Err(e);
        },
    };
    let existing_value = match stored {
        Stored::Failed => {
            return Err(CommandError::LookupFailed);
        },
        Stored::Missing => None,
        Stored::Found(doc) => Some(doc),
    };
    match set(existing_value, &cbor_path, &new_value, options) {
        SetResult::ErrConditionNotMet => Ok(
            Written { new_value: None, reply: Reply::Null, event: "cbor.set" },
        ),
        SetResult::ErrExpectedRoot => Err(CommandError::ExpectedRoot),
        SetResult::Updated(new_value) => Ok(
            Written { new_value: Some(new_value), reply: Reply::Okay, event: "cbor.set" },
        ),
        SetResult::NoMatch => Ok(Written { new_value: None, reply: Reply::Okay, event: "cbor.set" }),
    }
}

} // verus!

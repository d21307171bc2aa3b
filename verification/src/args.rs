//! The arguments of a command, what the host found under its key, and how
//! a command ends.

use cborpath::CborPath;

use vstd::prelude::*;
use vstd::string::StringSliceAdditionalSpecFns;
use vstd::utf8::valid_utf8;

use crate::codec::is_cbor;
use crate::document::Document;
use crate::index::docs_view;
use crate::path::{compiled, path_expr, path_is_root, path_valid, root};
use crate::protocol::{
    answers, collect, doc_view, edited, replacements, replies_of, rewritten, selected, targets,
    NodeReader, Outcome,
};
use crate::reply::{replies_view, Reply, ReplyView};
use crate::slices::{path_safe, slices_safe};
use crate::util::CborPathExt;

verus! {

/// Why a command fails.
#[derive(Clone, Copy, Debug, PartialEq, Eq)]
pub enum CommandError {
    /// An argument is missing, or the number of arguments is not one that
    /// the command takes.
    WrongArity,
    /// The path argument is no path expression, or one with a slice that
    /// the path matcher may fault on.
    InvalidPath,
    /// A value argument is not one well-formed CBOR item.
    InvalidCbor,
    /// An index argument is no integer.
    NotAnInteger,
    /// A text argument is not UTF-8.
    NotUtf8,
    /// An option is unknown or given twice.
    Syntax,
    /// An unknown subcommand.
    UnknownSubcommand,
    /// The host could not look the key up.
    LookupFailed,
    /// The key holds no document.
    NonexistentKey,
    /// A document can only be created at the root path.
    ExpectedRoot,
    /// The document cannot be put in diagnostic notation.
    NotPrintable,
}

/// One argument as the host hands it over: its bytes, and the integer
/// that the host reads it as, if it reads it as one.
pub struct Arg<'a> {
    pub bytes: &'a [u8],
    pub integer: Option<i64>,
}

/// The mathematical value of an [`Arg`].
pub struct ArgView {
    pub bytes: Seq<u8>,
    pub integer: Option<i64>,
}

impl<'a> View for Arg<'a> {
    type V = ArgView;

    open spec fn view(&self) -> ArgView {
        ArgView { bytes: self.bytes@, integer: self.integer }
    }
}

/// The values of a list of arguments.
pub open spec fn args_view(args: Seq<Arg>) -> Seq<ArgView> {
    Seq::new(args.len(), |i: int| args[i]@)
}

/// What the host found under the key of a command.
pub enum Stored<'a> {
    /// The lookup failed.
    Failed,
    /// The key holds nothing.
    Missing,
    /// The key holds this document.
    Found(&'a Document),
}

/// The mathematical value of a [`Stored`].
pub enum StoredView {
    Failed,
    Missing,
    Found(Seq<u8>),
}

impl<'a> View for Stored<'a> {
    type V = StoredView;

    open spec fn view(&self) -> StoredView {
        match self {
            Stored::Failed => StoredView::Failed,
            Stored::Missing => StoredView::Missing,
            Stored::Found(doc) => StoredView::Found(doc@),
        }
    }
}

/// How a command that may change the stored document ends well: the
/// document to store in place of the old one, if there is one; the reply;
/// and the name under which the change is announced when a document is
/// stored.
pub struct Written {
    pub new_value: Option<Document>,
    pub reply: Reply,
    pub event: &'static str,
}

/// The mathematical value of a [`Written`].
pub struct WrittenView {
    pub new_value: Option<Seq<u8>>,
    pub reply: ReplyView,
    pub event: Seq<char>,
}

impl View for Written {
    type V = WrittenView;

    open spec fn view(&self) -> WrittenView {
        WrittenView {
            new_value: match self.new_value {
                Some(doc) => Some(doc@),
                None => None,
            },
            reply: self.reply@,
            event: self.event@,
        }
    }
}

/// A writing command ended as expected.
pub open spec fn ended(result: Result<Written, CommandError>, expected: Result<
    WrittenView,
    CommandError,
>) -> bool {
    match result {
        Ok(written) => expected == Ok::<WrittenView, CommandError>(written@),
        Err(e) => expected == Err::<WrittenView, CommandError>(e),
    }
}

/// A reading command ended as expected.
pub open spec fn answered(result: Result<Reply, CommandError>, expected: Result<
    ReplyView,
    CommandError,
>) -> bool {
    match result {
        Ok(reply) => expected == Ok::<ReplyView, CommandError>(reply@),
        Err(e) => expected == Err::<ReplyView, CommandError>(e),
    }
}

/// Some expression of the root path.
pub open spec fn some_root() -> Seq<u8> {
    choose|expr: Seq<u8>| path_is_root(expr)
}

/// Where the arguments end before the position of the path, the
/// expression that stands for the path denotes the root.
pub open spec fn default_is_root(args: Seq<ArgView>, at: int) -> bool {
    at >= args.len() ==> path_is_root(some_root())
}

/// Two expressions stand for the same path as far as the engine can
/// tell: they are equal, or both denote the root.
pub open spec fn same_path(a: Seq<u8>, b: Seq<u8>) -> bool {
    a == b || (path_is_root(a) && path_is_root(b))
}

/// The path that an argument spells: the bytes are a well-formed item
/// that the path matcher compiles, and their slices are all safe.
pub open spec fn explicit_path(arg: ArgView) -> Result<Seq<u8>, CommandError> {
    if is_cbor(arg.bytes) && path_valid(arg.bytes) && slices_safe(arg.bytes) {
        Ok(compiled(arg.bytes))
    } else {
        Err(CommandError::InvalidPath)
    }
}

/// The path expression at a position, or the root where the arguments
/// end before it.
pub open spec fn optional_path(args: Seq<ArgView>, at: int) -> Result<Seq<u8>, CommandError> {
    if at < args.len() {
        explicit_path(args[at])
    } else {
        Ok(some_root())
    }
}

/// The integer at a position, or `default` where the arguments end before
/// it.
pub open spec fn optional_integer(args: Seq<ArgView>, at: int, default: i64) -> Result<
    i64,
    CommandError,
> {
    if at < args.len() {
        match args[at].integer {
            Some(i) => Ok(i),
            None => Err(CommandError::NotAnInteger),
        }
    } else {
        Ok(default)
    }
}

/// The CBOR item that an argument holds.
pub open spec fn literal(arg: ArgView) -> Result<Seq<u8>, CommandError> {
    if is_cbor(arg.bytes) {
        Ok(arg.bytes)
    } else {
        Err(CommandError::InvalidCbor)
    }
}

/// The CBOR items that the arguments from a position on hold.
pub open spec fn literals(args: Seq<ArgView>, from: int) -> Result<Seq<Seq<u8>>, CommandError> {
    if forall|i: int| from <= i < args.len() ==> is_cbor(#[trigger] args[i].bytes) {
        Ok(Seq::new((args.len() - from) as nat, |i: int| args[from + i].bytes))
    } else {
        Err(CommandError::InvalidCbor)
    }
}

/// The text that an argument holds.
pub open spec fn text(arg: ArgView) -> Result<Seq<u8>, CommandError> {
    if valid_utf8(arg.bytes) {
        Ok(arg.bytes)
    } else {
        Err(CommandError::NotUtf8)
    }
}

/// The document that a command works on.
pub open spec fn stored_document(stored: StoredView) -> Result<Seq<u8>, CommandError> {
    match stored {
        StoredView::Failed => Err(CommandError::LookupFailed),
        StoredView::Missing => Err(CommandError::NonexistentKey),
        StoredView::Found(doc) => Ok(doc),
    }
}

/// Paths that are the same select the same nodes and rebuild the same
/// documents.
pub proof fn lemma_same_path(a: Seq<u8>, b: Seq<u8>, doc: Seq<u8>)
    requires
        same_path(a, b),
    ensures
        selected(a, doc) == selected(b, doc),
        targets(a, doc) == targets(b, doc),
        forall|replacements: Seq<Option<Seq<u8>>>| #[trigger]
            rewritten(a, doc, replacements) == rewritten(b, doc, replacements),
{
}

/// `std::str::from_utf8`: the bytes as text, if and only if they are
/// valid UTF-8.
#[verifier::external_body]
pub(crate) fn as_text(bytes: &[u8]) -> (text: Option<&str>)
    ensures
        text is Some <==> valid_utf8(bytes@),
        text matches Some(s) ==> s.spec_bytes() == bytes@,
{
    core::str::from_utf8(bytes).ok()
}

/// Compiles the path at a position, or gives the root path where the
/// arguments end before it.
pub(crate) fn path_or_root(args: &Vec<Arg>, at: usize) -> (result: Result<CborPath, CommandError>)
    ensures
        match result {
            Ok(path) => optional_path(args_view(args@), at as int) matches Ok(expr) && same_path(
                path_expr(path),
                expr,
            ),
            Err(e) => optional_path(args_view(args@), at as int) == Err::<Seq<u8>, CommandError>(e),
        },
        result is Ok ==> default_is_root(args_view(args@), at as int),
        result matches Ok(path) ==> path_safe(path_expr(path)),
{
    if at < args.len() {
        CborPath::from_arg(&args[at])
    } else {
        let path = root();
        proof {
            assert(path_is_root(path_expr(path)));
            assert(path_is_root(some_root()));
        }
        Ok(path)
    }
}

/// The integer at a position, or `default` where the arguments end before
/// it.
pub(crate) fn integer_or(args: &Vec<Arg>, at: usize, default: i64) -> (result: Result<i64, CommandError>)
    ensures
        result == optional_integer(args_view(args@), at as int, default),
{
    if at < args.len() {
        match args[at].integer {
            Some(i) => Ok(i),
            None => Err(CommandError::NotAnInteger),
        }
    } else {
        Ok(default)
    }
}

/// The CBOR items that the arguments from a position on hold.
pub(crate) fn documents_from(args: &Vec<Arg>, from: usize) -> (result: Result<Vec<Document>, CommandError>)
    requires
        from <= args.len(),
    ensures
        match result {
            Ok(docs) => literals(args_view(args@), from as int) == Ok::<
                Seq<Seq<u8>>,
                CommandError,
            >(owned_docs_view(docs@)),
            Err(e) => literals(args_view(args@), from as int) == Err::<Seq<Seq<u8>>, CommandError>(
                e,
            ),
        },
{
    let mut docs: Vec<Document> = Vec::new();
    let mut i: usize = from;
    while i < args.len()
        invariant
            from <= i <= args.len(),
            docs@.len() == i - from,
            forall|j: int| from <= j < i ==> is_cbor(#[trigger] args_view(args@)[j].bytes),
            forall|j: int| 0 <= j < i - from ==> (#[trigger] docs@[j])@ == args@[from + j].bytes@,
        decreases args.len() - i,
    {
        match Document::checked(args[i].bytes) {
            Some(doc) => {
                docs.push(doc);
            },
            None => {
                proof {
                    assert(!is_cbor(args_view(args@)[i as int].bytes));
                }
                return Err(CommandError::InvalidCbor);
            },
        }
        i += 1;
    }
    proof {
        assert(owned_docs_view(docs@) =~= Seq::new(
            (args@.len() - from) as nat,
            |i: int| args_view(args@)[from + i].bytes,
        ));
    }
    Ok(docs)
}

/// The encoded bytes of each document.
pub open spec fn owned_docs_view(docs: Seq<Document>) -> Seq<Seq<u8>> {
    Seq::new(docs.len(), |i: int| docs[i]@)
}

/// References to the documents, in order.
pub(crate) fn doc_refs<'a>(docs: &'a Vec<Document>) -> (refs: Vec<&'a Document>)
    ensures
        docs_view(refs@) == owned_docs_view(docs@),
{
    let mut refs: Vec<&'a Document> = Vec::new();
    let mut i: usize = 0;
    while i < docs.len()
        invariant
            i <= docs.len(),
            refs@.len() == i,
            forall|j: int| 0 <= j < i ==> (#[trigger] refs@[j])@ == docs@[j]@,
        decreases docs.len() - i,
    {
        refs.push(&docs[i]);
        i += 1;
    }
    proof {
        assert(docs_view(refs@) =~= owned_docs_view(docs@));
    }
    refs
}

/// The document that a command works on.
pub(crate) fn existing_document<'a>(stored: &Stored<'a>) -> (result: Result<&'a Document, CommandError>)
    ensures
        match result {
            Ok(doc) => stored_document(stored@) == Ok::<Seq<u8>, CommandError>(doc@),
            Err(e) => stored_document(stored@) == Err::<Seq<u8>, CommandError>(e),
        },
{
    match stored {
        Stored::Failed => Err(CommandError::LookupFailed),
        Stored::Missing => Err(CommandError::NonexistentKey),
        Stored::Found(doc) => Ok(*doc),
    }
}

/// What a reading command of the form `key [path]` answers: one reply of
/// the reader for each node that the path selects in the stored document.
pub open spec fn read_command<R: NodeReader>(reader: R, args: Seq<ArgView>, stored: StoredView) -> Result<
    ReplyView,
    CommandError,
> {
    if args.len() < 2 {
        Err(CommandError::WrongArity)
    } else {
        match optional_path(args, 2) {
            Err(e) => Err(e),
            Ok(expr) => match stored_document(stored) {
                Err(e) => Err(e),
                Ok(doc) => Ok(ReplyView::Array(answers(reader, selected(expr, doc)))),
            },
        }
    }
}

/// Runs a reading command of the form `key [path]`: the path defaults to
/// the root, and the key must hold a document.
pub(crate) fn run_read<R: NodeReader>(reader: &R, args: &Vec<Arg>, stored: Stored) -> (result: Result<
    Reply,
    CommandError,
>)
    requires
        reader.ready(),
    ensures
        answered(result, read_command(*reader, args_view(args@), stored@)),
        result is Ok ==> default_is_root(args_view(args@), 2),
{
    if args.len() < 2 {
        return Err(CommandError::WrongArity);
    }
    let cbor_path = match path_or_root(args, 2) {
        Ok(path) => path,
        Err(e) => {
            return Err(e);
        },
    };
    let existing = match existing_document(&stored) {
        Ok(doc) => doc,
        Err(e) => {
            return Err(e);
        },
    };
    proof {
        lemma_same_path(
            path_expr(cbor_path),
            optional_path(args_view(args@), 2)->Ok_0,
            existing@,
        );
    }
    Ok(Reply::list(collect(&cbor_path, existing, reader)))
}

/// What a writing command yields when each target's outcome is a
/// function of the target and every target is answered for.
pub open spec fn written_each(
    expr: Seq<u8>,
    doc: Seq<u8>,
    decide: spec_fn(Seq<u8>) -> Outcome,
    event: Seq<char>,
) -> WrittenView {
    let outcomes = edited(expr, doc, decide);
    WrittenView {
        new_value: rewritten(expr, doc, replacements(outcomes)),
        reply: ReplyView::Array(replies_of(outcomes)),
        event,
    }
}

/// Paths that are the same yield the same outcomes.
pub proof fn lemma_same_edited(a: Seq<u8>, b: Seq<u8>, doc: Seq<u8>, decide: spec_fn(Seq<u8>) -> Outcome)
    requires
        same_path(a, b),
    ensures
        edited(a, doc, decide) == edited(b, doc, decide),
        rewritten(a, doc, replacements(edited(a, doc, decide))) == rewritten(
            b,
            doc,
            replacements(edited(b, doc, decide)),
        ),
{
    lemma_same_path(a, b, doc);
}

/// Puts the results of an operator together as the end of its command.
pub(crate) fn finish(result: (Option<Document>, Vec<Reply>), event: &'static str) -> (written: Written)
    ensures
        written@ == (WrittenView {
            new_value: doc_view(result.0),
            reply: ReplyView::Array(replies_view(result.1@)),
            event: event@,
        }),
{
    let (new_value, replies) = result;
    Written { new_value, reply: Reply::list(replies), event }
}

} // verus!

//! The number model of the arithmetic operators, and the operator that
//! combines every selected number with a given one.

use cborpath::CborPath;

use vstd::prelude::*;

use crate::args::{explicit_path, literal, stored_document, ArgView, CommandError, StoredView};
use crate::codec::{encode_double, encode_neg, encode_pos, is_cbor, kind_of, node_kind, NodeKind};
use crate::document::Document;
use crate::format::{double_encoding, neg_encoding, pos_encoding};
use crate::path::path_expr;
use crate::protocol::{applied, apply, doc_view, Edit, NodeEditor, Outcome, Transform};
use crate::reply::{replies_view, Reply, ReplyView};
use crate::slices::path_safe;

verus! {

/// A number taken from a numeric node for one arithmetic operation. A
/// float is held as the bit pattern of its double-precision value.
#[derive(Clone, Copy, Debug, PartialEq, Eq)]
pub enum Number {
    Signed(i64),
    Unsigned(u64),
    Float(u64),
}

/// The number that a node of this kind holds: an unsigned integer as it
/// is, a negative integer as the signed integer `-1 - x` if that fits, a
/// float as its bits. No other kind holds a number.
pub open spec fn number_of(kind: NodeKind) -> Option<Number> {
    match kind {
        NodeKind::Pos(value) => Some(Number::Unsigned(value)),
        NodeKind::Neg(value) => if value <= i64::MAX {
            Some(Number::Signed((-1 - value) as i64))
        } else {
            None
        },
        NodeKind::Float(bits) => Some(Number::Float(bits)),
        _ => None,
    }
}

/// The encoding of an integer that CBOR can hold in one head: unsigned
/// from 0 on, negative with the argument `-1 - value` below.
pub open spec fn int_encoding(value: int) -> Seq<u8> {
    if value >= 0 {
        pos_encoding(value as u64)
    } else {
        neg_encoding((-1 - value) as u64)
    }
}

/// Whether an integer fits one CBOR head of either sign.
pub open spec fn int_fits(value: int) -> bool {
    -0x1_0000_0000_0000_0000 <= value <= 0xffff_ffff_ffff_ffff
}

/// The node that holds a number.
pub open spec fn number_encoding(number: Number) -> Seq<u8> {
    match number {
        Number::Signed(value) => int_encoding(value as int),
        Number::Unsigned(value) => pos_encoding(value),
        Number::Float(bits) => double_encoding(bits),
    }
}

/// The outcome that puts a new number in a node's place and answers with
/// the new node's bytes.
pub open spec fn renumbered(bytes: Seq<u8>) -> Outcome {
    Outcome { replacement: Some(bytes), reply: Some(ReplyView::StringBuffer(bytes)) }
}

/// The outcome that leaves a node as it is and answers with null.
pub open spec fn passed_over(node: Seq<u8>) -> Outcome {
    Outcome { replacement: Some(node), reply: Some(ReplyView::Null) }
}

/// The node that holds the integer, which fits one head.
pub(crate) fn encode_int(value: i128) -> (bytes: Vec<u8>)
    requires
        int_fits(value as int),
    ensures
        bytes@ == int_encoding(value as int),
        is_cbor(bytes@),
{
    if value >= 0 {
        encode_pos(value as u64)
    } else {
        encode_neg((-1 - value) as u64)
    }
}

/// The edit that puts the node with these bytes in place and answers with
/// a copy of them.
pub(crate) fn renumber(bytes: Vec<u8>) -> (edit: Edit)
    requires
        is_cbor(bytes@),
    ensures
        edit.sound(),
        forall|node: Seq<u8>| edit.outcome(node) == renumbered(bytes@),
{
    let reply = Reply::bytes(bytes.as_slice());
    Edit { transform: Transform::Replace(bytes), reply: Some(reply) }
}

/// The edit that leaves the node as it is and answers with null.
pub(crate) fn pass_over() -> (edit: Edit)
    ensures
        edit.sound(),
        forall|node: Seq<u8>| edit.outcome(node) == passed_over(node),
{
    Edit { transform: Transform::Unchanged, reply: Some(Reply::Null) }
}

impl Number {
    /// The number that a node of this kind holds.
    pub fn from_kind(kind: NodeKind) -> (number: Option<Number>)
        ensures
            number == number_of(kind),
    {
        match kind {
            NodeKind::Pos(value) => Some(Number::Unsigned(value)),
            NodeKind::Neg(value) => {
                if value <= 0x7fff_ffff_ffff_ffff {
                    Some(Number::Signed(-1 - (value as i64)))
                } else {
                    None
                }
            },
            NodeKind::Float(bits) => Some(Number::Float(bits)),
            _ => None,
        }
    }

    /// The number that the document's root holds, if it is numeric.
    pub fn try_from(value: &Document) -> (number: Result<Number, ()>)
        ensures
            match number_of(kind_of(value@)) {
                Some(n) => number == Ok::<Number, ()>(n),
                None => number is Err,
            },
    {
        match Number::from_kind(value.kind()) {
            Some(number) => Ok(number),
            None => Err(()),
        }
    }

    /// The node that holds the number.
    pub fn encode(self) -> (bytes: Vec<u8>)
        ensures
            bytes@ == number_encoding(self),
            is_cbor(bytes@),
    {
        match self {
            Number::Signed(value) => encode_int(value as i128),
            Number::Unsigned(value) => encode_pos(value),
            Number::Float(bits) => encode_double(bits),
        }
    }
}

impl Document {
    /// The document that holds the number.
    pub fn from(num: Number) -> (doc: Document)
        ensures
            doc@ == number_encoding(num),
    {
        Document::trusted(num.encode())
    }
}

/// The per-node part of [`num_operation`]: the number of each numeric
/// node is combined with `value` by `operation`.
pub struct NumOperation<F> {
    pub value: Option<Number>,
    pub operation: F,
}

impl<F: Fn(Number, Number) -> Option<Number>> NodeEditor for NumOperation<F> {
    open spec fn ready(&self) -> bool {
        forall|v1: Number, v2: Number| self.operation.requires((v1, v2))
    }

    open spec fn edits(&self, node: Seq<u8>, outcome: Outcome) -> bool {
        match (number_of(kind_of(node)), self.value) {
            (Some(v1), Some(v2)) => exists|result: Option<Number>|
                {
                    &&& #[trigger] self.operation.ensures((v1, v2), result)
                    &&& outcome == match result {
                        Some(number) => renumbered(number_encoding(number)),
                        None => passed_over(node),
                    }
                },
            _ => outcome == passed_over(node),
        }
    }

    fn edit(&self, node: &[u8]) -> (edit: Edit) {
        match (Number::from_kind(node_kind(node)), self.value) {
            (Some(v1), Some(v2)) => {
                let result = (self.operation)(v1, v2);
                proof {
                    assert(self.operation.ensures((v1, v2), result));
                }
                match result {
                    Some(number) => renumber(number.encode()),
                    None => pass_over(),
                }
            },
            _ => pass_over(),
        }
    }
}

/// Combines the number of every numeric node that the path selects with
/// the number of `value`, by `operation`, which either gives the number
/// to put in the node's place or declines. Answers, for each selected
/// node in turn, with the bytes of the new node, or with null where the
/// node or `value` holds no number or `operation` declined; such a node
/// stays as it is.
pub fn num_operation<F>(existing: &Document, cbor_path: &CborPath, value: &Document, operation: F) -> (result:
    (Option<Document>, Vec<Reply>)) where F: Fn(Number, Number) -> Option<Number>
    requires
        path_safe(path_expr(*cbor_path)),
        forall|v1: Number, v2: Number| operation.requires((v1, v2)),
    ensures
        applied(
            (NumOperation { value: number_of(kind_of(value@)), operation }),
            path_expr(*cbor_path),
            existing@,
            doc_view(result.0),
            replies_view(result.1@),
        ),
{
    let editor = NumOperation { value: Number::from_kind(value.kind()), operation };
    apply(cbor_path, existing, &editor)
}

/// What an arithmetic command `key path value` works on: the path
/// expression, the value and the stored document.
pub open spec fn num_request(args: Seq<ArgView>, stored: StoredView) -> Result<
    (Seq<u8>, Seq<u8>, Seq<u8>),
    CommandError,
> {
    if args.len() < 4 {
        Err(CommandError::WrongArity)
    } else {
        match explicit_path(args[2]) {
            Err(e) => Err(e),
            Ok(expr) => match literal(args[3]) {
                Err(e) => Err(e),
                Ok(value) => match stored_document(stored) {
                    Err(e) => Err(e),
                    Ok(doc) => Ok((expr, value, doc)),
                },
            },
        }
    }
}

} // verus!

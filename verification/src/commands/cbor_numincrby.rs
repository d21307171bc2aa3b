//! Incrementing the numbers that a path selects.

use cborpath::CborPath;

use vstd::prelude::*;

use crate::args::{
    args_view, existing_document, finish, Arg, CommandError, Stored, Written, WrittenView,
};
use crate::codec::{encode_double, kind_of, node_kind, NodeKind};
use crate::commands::num_operation::{
    encode_int, int_encoding, int_fits, num_request, pass_over, passed_over, renumber, renumbered,
};
use crate::document::Document;
use crate::format::double_encoding;
use crate::path::path_expr;
use crate::protocol::{applied, apply, doc_view, Edit, NodeEditor, Outcome};
use crate::reply::{replies_view, Reply};
use crate::slices::path_safe;
use crate::util::{CborExt, CborPathExt};

verus! {

/// The integer that an integer node stands for: the argument of an
/// unsigned integer, and `-1 - x` for a negative integer of argument `x`.
pub open spec fn int_value(kind: NodeKind) -> Option<int> {
    match kind {
        NodeKind::Pos(value) => Some(value as int),
        NodeKind::Neg(value) => Some(-1 - value),
        _ => None,
    }
}

/// What an increment of two integers gives: a node of the sum where the
/// sum fits one head, and the node as it is where it does not.
pub open spec fn int_sum_outcome(node: Seq<u8>, v1: int, v2: int) -> Outcome {
    if int_fits(v1 + v2) {
        renumbered(int_encoding(v1 + v2))
    } else {
        passed_over(node)
    }
}

/// The per-node part of an increment. `float_sum` adds two doubles given
/// and returned as bit patterns.
pub struct Increment<F> {
    pub delta: NodeKind,
    pub float_sum: F,
}

impl<F: Fn(u64, u64) -> u64> NodeEditor for Increment<F> {
    open spec fn ready(&self) -> bool {
        forall|a: u64, b: u64| self.float_sum.requires((a, b))
    }

    /// Integers are added to integers and floats to floats; no other
    /// pairing is combined.
    open spec fn edits(&self, node: Seq<u8>, outcome: Outcome) -> bool {
        match (kind_of(node), self.delta) {
            (NodeKind::Float(a), NodeKind::Float(b)) => exists|bits: u64|
                {
                    &&& #[trigger] self.float_sum.ensures((a, b), bits)
                    &&& outcome == renumbered(double_encoding(bits))
                },
            (k1, k2) => match (int_value(k1), int_value(k2)) {
                (Some(v1), Some(v2)) => outcome == int_sum_outcome(node, v1, v2),
                _ => outcome == passed_over(node),
            },
        }
    }

    fn edit(&self, node: &[u8]) -> (edit: Edit) {
        match (node_kind(node), self.delta) {
            (NodeKind::Pos(v1), NodeKind::Pos(v2)) => add_integers(v1 as i128, v2 as i128),
            (NodeKind::Pos(v1), NodeKind::Neg(v2)) => add_integers(v1 as i128, -1 - (v2 as i128)),
            (NodeKind::Neg(v1), NodeKind::Pos(v2)) => add_integers(-1 - (v1 as i128), v2 as i128),
            (NodeKind::Neg(v1), NodeKind::Neg(v2)) => add_integers(
                -1 - (v1 as i128),
                -1 - (v2 as i128),
            ),
            (NodeKind::Float(v1), NodeKind::Float(v2)) => {
                let bits = (self.float_sum)(v1, v2);
                proof {
                    assert(self.float_sum.ensures((v1, v2), bits));
                }
                renumber(encode_double(bits))
            },
            _ => pass_over(),
        }
    }
}

/// The edit for the sum of two integers that each fit one head.
pub(crate) fn add_integers(v1: i128, v2: i128) -> (edit: Edit)
    requires
        int_fits(v1 as int),
        int_fits(v2 as int),
    ensures
        edit.sound(),
        forall|node: Seq<u8>| edit.outcome(node) == int_sum_outcome(node, v1 as int, v2 as int),
{
    let sum: i128 = v1 + v2;
    if -0x1_0000_0000_0000_0000 <= sum && sum <= 0xffff_ffff_ffff_ffff {
        renumber(encode_int(sum))
    } else {
        pass_over()
    }
}

/// Adds the number of `value` to every number that the path selects:
/// integers to integers, under the identity that a negative integer of
/// argument `x` stands for `-1 - x`, and floats to floats by `float_sum`.
/// Answers, for each selected node in turn, with the bytes of the new
/// node, or with null where the pairing is not one of these or the sum
/// fits no integer node; such a node stays as it is.
pub fn num_incr_by<F>(existing: &Document, cbor_path: &CborPath, value: &Document, float_sum: F) -> (result:
    (Option<Document>, Vec<Reply>)) where F: Fn(u64, u64) -> u64
    requires
        path_safe(path_expr(*cbor_path)),
        forall|a: u64, b: u64| float_sum.requires((a, b)),
    ensures
        applied(
            (Increment { delta: kind_of(value@), float_sum }),
            path_expr(*cbor_path),
            existing@,
            doc_view(result.0),
            replies_view(result.1@),
        ),
{
    let editor = Increment { delta: value.kind(), float_sum };
    apply(cbor_path, existing, &editor)
}

/// How the command ends well on a request: the change is announced under
/// the operator's name, and the reply lists what the editor answered for
/// the targets of the path.
pub open spec fn incremented<F: Fn(u64, u64) -> u64>(
    float_sum: F,
    request: (Seq<u8>, Seq<u8>, Seq<u8>),
    written: WrittenView,
) -> bool {
    &&& written.event == "cbor.numincrby"@
    &&& written.reply is Array
    &&& applied(
        (Increment { delta: kind_of(request.1), float_sum }),
        request.0,
        request.2,
        written.new_value,
        written.reply->Array_0,
    )
}

/// The command `key path value`: increments as [`num_incr_by`] does and
/// answers with the list of its replies. Fails where the key, the path or
/// the value is missing, the path is no path expression, the value is no
/// CBOR item, the lookup failed or the key holds no document, in this
/// order.
pub fn cbor_num_incr_by<F>(args: &Vec<Arg>, stored: Stored, float_sum: F) -> (result: Result<
    Written,
    CommandError,
>) where F: Fn(u64, u64) -> u64
    requires
        forall|a: u64, b: u64| float_sum.requires((a, b)),
    ensures
        match result {
            Err(e) => num_request(args_view(args@), stored@) == Err::<
                (Seq<u8>, Seq<u8>, Seq<u8>),
                CommandError,
            >(e),
            Ok(written) => num_request(args_view(args@), stored@) is Ok && incremented(
                float_sum,
                num_request(args_view(args@), stored@)->Ok_0,
                written@,
            ),
        },
{
    if args.len() < 4 {
        return Err(CommandError::WrongArity);
    }
    let cbor_path = match CborPath::from_arg(&args[2]) {
        Ok(value) => value,
        Err(e) => {
            return Err(e);
        },
    };
    let value = match Document::from_arg(&args[3]) {
        Ok(value) => value,
        Err(e) => {
            return Err(e);
        },
    };
    let existing = match existing_document(&stored) {
        Ok(value) => value,
        Err(e) => {
            return Err(e);
        },
    };
    Ok(finish(num_incr_by(existing, &cbor_path, &value, float_sum), "cbor.numincrby"))
}

} // verus!

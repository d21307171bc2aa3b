//! Multiplying the numbers that a path selects.

use cborpath::CborPath;

use vstd::prelude::*;

use crate::args::{
    args_view, existing_document, finish, Arg, CommandError, Stored, Written, WrittenView,
};
use crate::codec::{kind_of, node_kind};
use crate::commands::num_operation::{
    num_request, number_encoding, number_of, pass_over, passed_over, renumber, renumbered, Number,
};
use crate::document::Document;
use crate::path::path_expr;
use crate::protocol::{applied, apply, doc_view, Edit, NodeEditor, Outcome};
use crate::reply::{replies_view, Reply};
use crate::slices::path_safe;
use crate::util::{CborExt, CborPathExt};

verus! {

/// The integer that an integer number stands for.
pub open spec fn int_of(number: Number) -> int {
    match number {
        Number::Signed(value) => value as int,
        Number::Unsigned(value) => value as int,
        Number::Float(_) => 0,
    }
}

/// Whether `result` is the product of two numbers. Two unsigned integers
/// give an unsigned integer, any other two integers a signed one, each
/// only where the product fits; a pairing with a float gives the float
/// that `float_product` computes.
pub open spec fn product_of<F: Fn(Number, Number) -> u64>(
    float_product: F,
    v1: Number,
    v2: Number,
    result: Option<Number>,
) -> bool {
    if v1 is Float || v2 is Float {
        exists|bits: u64| #[trigger]
            float_product.ensures((v1, v2), bits) && result == Some(Number::Float(bits))
    } else if v1 is Unsigned && v2 is Unsigned {
        result == if int_of(v1) * int_of(v2) <= u64::MAX {
            Some(Number::Unsigned((int_of(v1) * int_of(v2)) as u64))
        } else {
            None
        }
    } else {
        result == if i64::MIN <= int_of(v1) * int_of(v2) <= i64::MAX {
            Some(Number::Signed((int_of(v1) * int_of(v2)) as i64))
        } else {
            None
        }
    }
}

/// The signed product of two integers, where it fits.
fn signed_product(a: i128, b: i128) -> (result: Option<Number>)
    requires
        -0x8000_0000_0000_0000 <= a <= 0x7fff_ffff_ffff_ffff,
        -0x8000_0000_0000_0000 <= b <= 0xffff_ffff_ffff_ffff,
    ensures
        result == if i64::MIN <= a * b <= i64::MAX {
            Some(Number::Signed((a * b) as i64))
        } else {
            None::<Number>
        },
{
    proof {
        assert(-0x8000_0000_0000_0000_0000_0000_0000_0000 <= a * b
            <= 0x7fff_ffff_ffff_ffff_ffff_ffff_ffff_ffff) by (nonlinear_arith)
            requires
                -0x8000_0000_0000_0000 <= a <= 0x7fff_ffff_ffff_ffff,
                -0x8000_0000_0000_0000 <= b <= 0xffff_ffff_ffff_ffff,
        ;
    }
    let product: i128 = a * b;
    if -0x8000_0000_0000_0000 <= product && product <= 0x7fff_ffff_ffff_ffff {
        Some(Number::Signed(product as i64))
    } else {
        None
    }
}

/// The product of two numbers.
pub fn multiply<F>(v1: Number, v2: Number, float_product: &F) -> (result: Option<Number>) where
    F: Fn(Number, Number) -> u64,

    requires
        float_product.requires((v1, v2)),
    ensures
        product_of(*float_product, v1, v2, result),
{
    match (v1, v2) {
        (Number::Signed(a), Number::Signed(b)) => signed_product(a as i128, b as i128),
        (Number::Signed(a), Number::Unsigned(b)) => signed_product(a as i128, b as i128),
        (Number::Unsigned(a), Number::Signed(b)) => {
            proof {
                assert((a as int) * (b as int) == (b as int) * (a as int)) by (nonlinear_arith);
            }
            signed_product(b as i128, a as i128)
        },
        (Number::Unsigned(a), Number::Unsigned(b)) => {
            match a.checked_mul(b) {
                Some(product) => Some(Number::Unsigned(product)),
                None => None,
            }
        },
        _ => {
            let bits = float_product(v1, v2);
            proof {
                assert(float_product.ensures((v1, v2), bits));
            }
            Some(Number::Float(bits))
        },
    }
}

/// What a multiplication by `factor` may decide on one node.
pub open spec fn mult_edits<F: Fn(Number, Number) -> u64>(
    float_product: F,
    factor: Option<Number>,
    node: Seq<u8>,
    outcome: Outcome,
) -> bool {
    match (number_of(kind_of(node)), factor) {
        (Some(v1), Some(v2)) => exists|result: Option<Number>|
            {
                &&& #[trigger] product_of(float_product, v1, v2, result)
                &&& outcome == match result {
                    Some(number) => renumbered(number_encoding(number)),
                    None => passed_over(node),
                }
            },
        _ => outcome == passed_over(node),
    }
}

/// The per-node part of a multiplication. `float_product` multiplies two
/// numbers of which at least one is a float, and gives the bits of the
/// product.
pub struct Multiply<F> {
    pub factor: Option<Number>,
    pub float_product: F,
}

impl<F: Fn(Number, Number) -> u64> NodeEditor for Multiply<F> {
    open spec fn ready(&self) -> bool {
        forall|v1: Number, v2: Number| self.float_product.requires((v1, v2))
    }

    open spec fn edits(&self, node: Seq<u8>, outcome: Outcome) -> bool {
        mult_edits(self.float_product, self.factor, node, outcome)
    }

    fn edit(&self, node: &[u8]) -> (edit: Edit) {
        match (Number::from_kind(node_kind(node)), self.factor) {
            (Some(v1), Some(v2)) => {
                let result = multiply(v1, v2, &self.float_product);
                match result {
                    Some(number) => renumber(number.encode()),
                    None => pass_over(),
                }
            },
            _ => pass_over(),
        }
    }
}

/// Multiplies every number that the path selects by the number of
/// `value`, across kinds: the product is a float whenever either number
/// is one, computed by `float_product` on the two numbers, and an integer
/// otherwise. Answers, for each selected node in turn, with the bytes of
/// the new node, or with null where the node or `value` holds no number or
/// the product fits no integer; such a node stays as it is.
pub fn num_mult_by<F>(existing: &Document, cbor_path: &CborPath, value: &Document, float_product: F) -> (result:
    (Option<Document>, Vec<Reply>)) where F: Fn(Number, Number) -> u64
    requires
        path_safe(path_expr(*cbor_path)),
        forall|v1: Number, v2: Number| float_product.requires((v1, v2)),
    ensures
        applied(
            (Multiply { factor: number_of(kind_of(value@)), float_product }),
            path_expr(*cbor_path),
            existing@,
            doc_view(result.0),
            replies_view(result.1@),
        ),
{
    let editor = Multiply { factor: Number::from_kind(value.kind()), float_product };
    apply(cbor_path, existing, &editor)
}

/// How the command ends well on a request: the change is announced under
/// the operator's name, and the reply lists what the editor answered for
/// the targets of the path.
pub open spec fn multiplied<F: Fn(Number, Number) -> u64>(
    float_product: F,
    request: (Seq<u8>, Seq<u8>, Seq<u8>),
    written: WrittenView,
) -> bool {
    &&& written.event == "cbor.nummultby"@
    &&& written.reply is Array
    &&& applied(
        (Multiply { factor: number_of(kind_of(request.1)), float_product }),
        request.0,
        request.2,
        written.new_value,
        written.reply->Array_0,
    )
}

/// The command `key path value`: multiplies as [`num_mult_by`] does and
/// answers with the list of its replies. Fails where the key, the path or
/// the value is missing, the path is no path expression, the value is no
/// CBOR item, the lookup failed or the key holds no document, in this
/// order.
pub fn cbor_num_mult_by<F>(args: &Vec<Arg>, stored: Stored, float_product: F) -> (result: Result<
    Written,
    CommandError,
>) where F: Fn(Number, Number) -> u64
    requires
        forall|v1: Number, v2: Number| float_product.requires((v1, v2)),
    ensures
        match result {
            Err(e) => num_request(args_view(args@), stored@) == Err::<
                (Seq<u8>, Seq<u8>, Seq<u8>),
                CommandError,
            >(e),
            Ok(written) => num_request(args_view(args@), stored@) is Ok && multiplied(
                float_product,
                num_request(args_view(args@), stored@)->Ok_0,
                written@,
            ),
        },
{
    if args.len() < 4 {
        return Err(CommandError::WrongArity);
    }
    let cbor_path = match CborPath::from_arg(&args[2]) {
        Ok(value) => value,
        Err(e) => {
            return Err(e);
        },
    };
    let value = match Document::from_arg(&args[3]) {
        Ok(value) => value,
        Err(e) => {
            return Err(e);
        },
    };
    let existing = match existing_document(&stored) {
        Ok(value) => value,
        Err(e) => {
            return Err(e);
        },
    };
    Ok(finish(num_mult_by(existing, &cbor_path, &value, float_product), "cbor.nummultby"))
}

} // verus!

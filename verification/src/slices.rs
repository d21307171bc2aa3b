//! Which path expressions the engine hands to the path matcher.
//!
//! The matcher evaluates a slice selector `{":": [start, end, step]}` by
//! arithmetic that faults for some bounds: for a step of zero always, and
//! for others on arrays of some lengths. The engine takes a path only if
//! every slice in its expression is one that is evaluated without fault on
//! an array of any length.

use vstd::prelude::*;
use vstd::string::StringSliceAdditionalSpecFns;
use vstd::utf8::encode_utf8;

use crate::codec::{
    all_cbor, all_cbor_pairs, array_items, dict_entries, entries_of, is_cbor, items_of, kind_of,
    node_kind, node_text, pairs_view, slices_view, text_of, NodeKind,
};
use crate::index::same_bytes;
use crate::path::{faultless, path_is_root};

verus! {

/// Largest magnitude of a bound or a step that is taken: one that fits
/// the signed machine word of every target with room for one more.
pub const MAX_SLICE_BOUND: u64 = 0x7fff_fffe;

/// The integer that a bound or a step of a slice spells, if it is an
/// integer within the magnitude that is taken.
pub open spec fn slice_bound(kind: NodeKind) -> Option<int> {
    match kind {
        NodeKind::Pos(value) => if value <= MAX_SLICE_BOUND {
            Some(value as int)
        } else {
            None
        },
        NodeKind::Neg(value) => if value <= MAX_SLICE_BOUND {
            Some(-1 - value)
        } else {
            None
        },
        _ => None,
    }
}

/// The slices that are evaluated without fault on an array of any length:
/// forward from a non-negative start to an end not before it, forward
/// from the first element to an end counted from the back, and backward
/// from a non-negative start to a non-negative end before it.
pub open spec fn slice_is_safe(start: int, end: int, step: int) -> bool {
    ||| step > 0 && 0 <= start <= end
    ||| step > 0 && start == 0 && end < 0
    ||| step < 0 && 0 <= end < start
}

/// Whether the node is an array of three bounds that make a safe slice.
pub open spec fn slice_bounds_safe(node: Seq<u8>) -> bool {
    &&& kind_of(node) == NodeKind::Array
    &&& items_of(node).len() == 3
    &&& match (
        slice_bound(kind_of(items_of(node)[0])),
        slice_bound(kind_of(items_of(node)[1])),
        slice_bound(kind_of(items_of(node)[2])),
    ) {
        (Some(start), Some(end), Some(step)) => slice_is_safe(start, end, step),
        _ => false,
    }
}

/// Whether a map's pairs are those of a slice selector: one pair whose key
/// is the text `:`.
pub open spec fn spells_slice(entries: Seq<(Seq<u8>, Seq<u8>)>) -> bool {
    &&& entries.len() == 1
    &&& kind_of(entries[0].0) == NodeKind::Str
    &&& encode_utf8(text_of(entries[0].0)) == ":".spec_bytes()
}

/// Whether every node among `items` that is shorter than `bound`, which in
/// a well-formed item all children are, has safe slices only.
pub open spec fn each_safe(items: Seq<Seq<u8>>, bound: nat) -> bool
    decreases bound, 0nat,
{
    forall|i: int|
        0 <= i < items.len() && (#[trigger] items[i]).len() < bound ==> slices_safe(items[i])
}

/// Whether every key and value that is shorter than `bound` has safe
/// slices only.
pub open spec fn each_pair_safe(entries: Seq<(Seq<u8>, Seq<u8>)>, bound: nat) -> bool
    decreases bound, 0nat,
{
    forall|i: int|
        0 <= i < entries.len() ==> ((#[trigger] entries[i]).0.len() < bound ==> slices_safe(
            entries[i].0,
        )) && (entries[i].1.len() < bound ==> slices_safe(entries[i].1))
}

/// Whether no map anywhere in the item spells a slice selector whose
/// bounds are not safe.
pub open spec fn slices_safe(node: Seq<u8>) -> bool
    decreases node.len(), 1nat,
{
    match kind_of(node) {
        NodeKind::Array => each_safe(items_of(node), node.len()),
        NodeKind::Dict => {
            &&& spells_slice(entries_of(node)) ==> slice_bounds_safe(entries_of(node)[0].1)
            &&& each_pair_safe(entries_of(node), node.len())
        },
        _ => true,
    }
}

/// Whether the engine works with a path: the root path, which it
/// evaluates itself, and every path that the matcher evaluates without
/// fault, as it does every path compiled from bytes whose slices are safe.
pub open spec fn path_safe(expr: Seq<u8>) -> bool {
    path_is_root(expr) || faultless(expr)
}

/// The integer that a bound or a step of a slice spells.
fn bound_from(kind: NodeKind) -> (bound: Option<i64>)
    ensures
        match bound {
            Some(value) => slice_bound(kind) == Some(value as int),
            None => slice_bound(kind) is None,
        },
{
    match kind {
        NodeKind::Pos(value) => {
            if value <= MAX_SLICE_BOUND {
                Some(value as i64)
            } else {
                None
            }
        },
        NodeKind::Neg(value) => {
            if value <= MAX_SLICE_BOUND {
                Some(-1 - (value as i64))
            } else {
                None
            }
        },
        _ => None,
    }
}

/// Whether the node is an array of three bounds that make a safe slice.
fn bounds_are_safe(node: &[u8]) -> (safe: bool)
    requires
        is_cbor(node@),
    ensures
        safe == slice_bounds_safe(node@),
{
    match node_kind(node) {
        NodeKind::Array => {
            let items = array_items(node);
            if items.len() != 3 {
                return false;
            }
            proof {
                assert(is_cbor(slices_view(items@)[0]));
                assert(is_cbor(slices_view(items@)[1]));
                assert(is_cbor(slices_view(items@)[2]));
            }
            let start = bound_from(node_kind(items[0]));
            let end = bound_from(node_kind(items[1]));
            let step = bound_from(node_kind(items[2]));
            match (start, end, step) {
                (Some(start), Some(end), Some(step)) => {
                    (step > 0 && 0 <= start && start <= end) || (step > 0 && start == 0 && end < 0)
                        || (step < 0 && 0 <= end && end < start)
                },
                _ => false,
            }
        },
        _ => false,
    }
}

/// Whether a map's pairs are those of a slice selector.
fn is_slice(entries: &Vec<(&[u8], &[u8])>) -> (yes: bool)
    requires
        all_cbor_pairs(pairs_view(entries@)),
    ensures
        yes == spells_slice(pairs_view(entries@)),
{
    if entries.len() != 1 {
        return false;
    }
    proof {
        assert(is_cbor(pairs_view(entries@)[0].0));
    }
    match node_kind(entries[0].0) {
        NodeKind::Str => {
            let text = node_text(entries[0].0);
            same_bytes(text.as_str().as_bytes(), ":".as_bytes())
        },
        _ => false,
    }
}

/// Whether no map anywhere in the item spells a slice selector whose
/// bounds are not safe.
pub fn check_slices(node: &[u8]) -> (safe: bool)
    requires
        is_cbor(node@),
    ensures
        safe == slices_safe(node@),
    decreases node@.len(),
{
    match node_kind(node) {
        NodeKind::Array => {
            let items = array_items(node);
            let mut i: usize = 0;
            while i < items.len()
                invariant
                    i <= items.len(),
                    kind_of(node@) == NodeKind::Array,
                    slices_view(items@) == items_of(node@),
                    all_cbor(slices_view(items@)),
                    forall|j: int| 0 <= j < items@.len() ==> (#[trigger] items@[j])@.len() < node@.len(),
                    forall|j: int| 0 <= j < i ==> slices_safe(#[trigger] items_of(node@)[j]),
                decreases items.len() - i,
            {
                proof {
                    assert(is_cbor(slices_view(items@)[i as int]));
                    assert(items_of(node@)[i as int] == items@[i as int]@);
                }
                if !check_slices(items[i]) {
                    proof {
                        assert(items_of(node@)[i as int].len() < node@.len());
                        assert(!slices_safe(items_of(node@)[i as int]));
                        assert(!each_safe(items_of(node@), node@.len()));
                    }
                    return false;
                }
                i += 1;
            }
            true
        },
        NodeKind::Dict => {
            let entries = dict_entries(node);
            if is_slice(&entries) {
                proof {
                    assert(is_cbor(pairs_view(entries@)[0].1));
                }
                if !bounds_are_safe(entries[0].1) {
                    return false;
                }
            }
            let mut i: usize = 0;
            while i < entries.len()
                invariant
                    i <= entries.len(),
                    kind_of(node@) == NodeKind::Dict,
                    pairs_view(entries@) == entries_of(node@),
                    all_cbor_pairs(pairs_view(entries@)),
                    forall|j: int|
                        0 <= j < entries@.len() ==> (#[trigger] entries@[j]).0@.len() < node@.len()
                            && entries@[j].1@.len() < node@.len(),
                    forall|j: int|
                        0 <= j < i ==> slices_safe((#[trigger] entries_of(node@)[j]).0)
                            && slices_safe(entries_of(node@)[j].1),
                decreases entries.len() - i,
            {
                proof {
                    assert(is_cbor(pairs_view(entries@)[i as int].0));
                    assert(is_cbor(pairs_view(entries@)[i as int].1));
                    assert(entries_of(node@)[i as int] == (entries@[i as int].0@, entries@[i as int].1@));
                }
                if !check_slices(entries[i].0) || !check_slices(entries[i].1) {
                    proof {
                        assert(entries_of(node@)[i as int].0.len() < node@.len());
                        assert(entries_of(node@)[i as int].1.len() < node@.len());
                        assert(!slices_safe(entries_of(node@)[i as int].0) || !slices_safe(
                            entries_of(node@)[i as int].1,
                        ));
                        assert(!each_pair_safe(entries_of(node@), node@.len()));
                    }
                    return false;
                }
                i += 1;
            }
            true
        },
        _ => true,
    }
}

} // verus!

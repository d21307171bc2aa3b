//! Index normalization and the edits of a sequence that the array
//! operators are built from.

use vstd::prelude::*;

use crate::codec::{all_cbor, slices_view};
use crate::document::Document;

verus! {

/// The position that a raw index denotes in a sequence of `len` elements.
/// A non-negative index is held at `len`; a negative one counts from the
/// end and is held at 0.
pub open spec fn normalize(index: int, len: nat) -> nat {
    if index >= 0 {
        if index <= len {
            index as nat
        } else {
            len
        }
    } else if len + index >= 0 {
        (len + index) as nat
    } else {
        0
    }
}

/// `values` put before the position that `index` denotes.
pub open spec fn insert_at<A>(items: Seq<A>, index: int, values: Seq<A>) -> Seq<A> {
    let position = normalize(index, items.len()) as int;
    items.take(position) + values + items.skip(position)
}

/// The position of the element that a pop at `index` removes, if there is
/// one there.
pub open spec fn pop_position(index: int, len: nat) -> Option<nat> {
    if normalize(index, len) < len {
        Some(normalize(index, len))
    } else {
        None
    }
}

/// What is left after a pop at `index`.
pub open spec fn pop_at<A>(items: Seq<A>, index: int) -> Seq<A> {
    match pop_position(index, items.len()) {
        Some(position) => items.remove(position as int),
        None => items,
    }
}

/// The elements from the position of `start` to that of `stop`, both
/// included; nothing if the first lies behind the second.
pub open spec fn trim_to<A>(items: Seq<A>, start: int, stop: int) -> Seq<A> {
    let first = normalize(start, items.len()) as int;
    let last = normalize(stop, items.len()) as int;
    if first > last {
        Seq::empty()
    } else if last < items.len() {
        items.subrange(first, last + 1)
    } else {
        items.subrange(first, items.len() as int)
    }
}

/// Where a search from `start` begins.
pub open spec fn search_from(start: int, len: nat) -> nat {
    normalize(start, len)
}

/// Where a search up to `stop` ends (exclusive). A `stop` of -1 after a
/// non-negative `start` stands for the end of the sequence.
pub open spec fn search_until(start: int, stop: int, len: nat) -> nat {
    if start >= 0 && stop == -1 {
        len
    } else {
        normalize(stop, len)
    }
}

/// Whether `position` is the first one in `[from, until)` at which
/// `items` holds `value`.
pub open spec fn is_first_at<A>(items: Seq<A>, value: A, from: nat, until: nat, position: int) -> bool {
    &&& from <= position < until
    &&& position < items.len()
    &&& items[position] == value
    &&& forall|j: int| from <= j < position ==> items[j] != value
}

/// Whether `value` occurs in `items` within `[from, until)`.
pub open spec fn occurs_in<A>(items: Seq<A>, value: A, from: nat, until: nat) -> bool {
    exists|j: int| from <= j < until && j < items.len() && items[j] == value
}

/// The position of the first occurrence of `value` in `items` within the
/// range that `start` and `stop` denote, or -1 if there is none.
pub open spec fn index_of<A>(items: Seq<A>, value: A, start: int, stop: int) -> int {
    let from = search_from(start, items.len());
    let until = search_until(start, stop, items.len());
    if occurs_in(items, value, from, until) {
        choose|position: int| is_first_at(items, value, from, until, position)
    } else {
        -1
    }
}

/// Normalizing twice is normalizing once.
pub proof fn lemma_normalize_idempotent(index: int, len: nat)
    ensures
        normalize(normalize(index, len) as int, len) == normalize(index, len),
{
}

/// Inserting one value at an index that denotes the same position before
/// and after, and popping at that index again, gives back the sequence.
/// These are the indices from 0 to the length, and those that reach back
/// to the front or beyond it.
pub proof fn lemma_insert_then_pop<A>(items: Seq<A>, index: int, value: A)
    requires
        0 <= index <= items.len() || index <= -(items.len() as int) - 1,
    ensures
        pop_at(insert_at(items, index, seq![value]), index) == items,
{
    let position = normalize(index, items.len()) as int;
    let longer = insert_at(items, index, seq![value]);
    assert(longer.len() == items.len() + 1);
    assert(normalize(index, longer.len()) == position);
    assert(longer.remove(position) =~= items);
}

/// Where a value occurs in the range, the first position is determined.
pub proof fn lemma_index_of_first<A>(items: Seq<A>, value: A, start: int, stop: int, position: int)
    requires
        is_first_at(
            items,
            value,
            search_from(start, items.len()),
            search_until(start, stop, items.len()),
            position,
        ),
    ensures
        index_of(items, value, start, stop) == position,
{
    let from = search_from(start, items.len());
    let until = search_until(start, stop, items.len());
    assert(occurs_in(items, value, from, until));
    let chosen = choose|p: int| is_first_at(items, value, from, until, p);
    assert(is_first_at(items, value, from, until, chosen));
    if chosen < position {
        assert(items[chosen] != value);
    }
    if position < chosen {
        assert(items[position] != value);
    }
}

/// The position that a raw index denotes in a sequence of `length`
/// elements.
pub fn normalize_index(raw_index: i64, length: usize) -> (position: usize)
    ensures
        position == normalize(raw_index as int, length as nat),
        position <= length,
{
    if raw_index >= 0 {
        let wide: u64 = raw_index as u64;
        if wide <= length as u64 {
            wide as usize
        } else {
            length
        }
    } else {
        // The distance from the end, which is at most 2^63.
        let back: u64 = (-(raw_index as i128)) as u64;
        if back <= length as u64 {
            length - (back as usize)
        } else {
            0
        }
    }
}

/// Appends the elements of `source` from `from` up to `until` to `target`.
pub(crate) fn extend_from<'a>(target: &mut Vec<&'a [u8]>, source: &Vec<&'a [u8]>, from: usize, until: usize)
    requires
        from <= until <= source.len(),
    ensures
        final(target)@ == old(target)@ + source@.subrange(from as int, until as int),
{
    let mut i: usize = from;
    while i < until
        invariant
            from <= i <= until <= source.len(),
            target@ == old(target)@ + source@.subrange(from as int, i as int),
        decreases until - i,
    {
        target.push(source[i]);
        proof {
            assert(source@.subrange(from as int, i + 1) =~= source@.subrange(
                from as int,
                i as int,
            ).push(source@[i as int]));
            assert(target@ =~= old(target)@ + source@.subrange(from as int, i + 1));
        }
        i += 1;
    }
}

/// The encoded bytes of each document.
pub open spec fn docs_view(docs: Seq<&Document>) -> Seq<Seq<u8>> {
    Seq::new(docs.len(), |i: int| docs[i]@)
}

/// The encoded bytes of each document, as slices.
pub(crate) fn doc_slices<'a>(docs: &Vec<&'a Document>) -> (slices: Vec<&'a [u8]>)
    ensures
        slices_view(slices@) == docs_view(docs@),
        all_cbor(docs_view(docs@)),
{
    let mut slices: Vec<&'a [u8]> = Vec::new();
    let mut i: usize = 0;
    while i < docs.len()
        invariant
            i <= docs.len(),
            slices@.len() == i,
            forall|j: int| 0 <= j < i ==> (#[trigger] slices@[j])@ == docs@[j]@,
            forall|j: int| 0 <= j < i ==> crate::codec::is_cbor((#[trigger] docs@[j])@),
        decreases docs.len() - i,
    {
        slices.push(docs[i].as_slice());
        i += 1;
    }
    proof {
        assert(slices_view(slices@) =~= docs_view(docs@));
        assert forall|j: int| 0 <= j < docs_view(docs@).len() implies crate::codec::is_cbor(
            #[trigger] docs_view(docs@)[j],
        ) by {
            assert(crate::codec::is_cbor(docs@[j]@));
        }
    }
    slices
}

/// Whether two byte slices hold the same bytes.
pub fn same_bytes(a: &[u8], b: &[u8]) -> (same: bool)
    ensures
        same == (a@ == b@),
{
    if a.len() != b.len() {
        return false;
    }
    let mut i: usize = 0;
    while i < a.len()
        invariant
            i <= a.len(),
            a.len() == b.len(),
            forall|j: int| 0 <= j < i ==> a@[j] == b@[j],
        decreases a.len() - i,
    {
        if a[i] != b[i] {
            return false;
        }
        i += 1;
    }
    proof {
        assert(a@ =~= b@);
    }
    true
}

/// The elements before `keep_until`, then `values`, then the elements
/// from `resume_at` on.
pub(crate) fn splice<'a>(items: &Vec<&'a [u8]>, keep_until: usize, values: &Vec<&'a [u8]>, resume_at: usize) -> (out:
    Vec<&'a [u8]>)
    requires
        keep_until <= items.len(),
        resume_at <= items.len(),
    ensures
        slices_view(out@) == slices_view(items@).take(keep_until as int) + slices_view(values@)
            + slices_view(items@).skip(resume_at as int),
        all_cbor(slices_view(items@)) && all_cbor(slices_view(values@)) ==> all_cbor(
            slices_view(out@),
        ),
{
    let mut out: Vec<&'a [u8]> = Vec::new();
    extend_from(&mut out, items, 0, keep_until);
    extend_from(&mut out, values, 0, values.len());
    extend_from(&mut out, items, resume_at, items.len());
    proof {
        assert(out@ =~= items@.take(keep_until as int) + values@ + items@.skip(resume_at as int));
        assert(slices_view(out@) =~= slices_view(items@).take(keep_until as int) + slices_view(
            values@,
        ) + slices_view(items@).skip(resume_at as int));
        if all_cbor(slices_view(items@)) && all_cbor(slices_view(values@)) {
            assert forall|i: int| 0 <= i < slices_view(out@).len() implies crate::codec::is_cbor(
                #[trigger] slices_view(out@)[i],
            ) by {
                if i < keep_until {
                    assert(slices_view(out@)[i] == slices_view(items@)[i]);
                } else if i < keep_until + values@.len() {
                    assert(slices_view(out@)[i] == slices_view(values@)[i - keep_until]);
                } else {
                    assert(slices_view(out@)[i] == slices_view(items@)[i - keep_until
                        - values@.len() + resume_at]);
                }
            }
        }
    }
    out
}

/// The elements from `from` up to `until`.
pub(crate) fn slice_range<'a>(items: &Vec<&'a [u8]>, from: usize, until: usize) -> (out: Vec<&'a [u8]>)
    requires
        from <= until <= items.len(),
    ensures
        slices_view(out@) == slices_view(items@).subrange(from as int, until as int),
        all_cbor(slices_view(items@)) ==> all_cbor(slices_view(out@)),
{
    let mut out: Vec<&'a [u8]> = Vec::new();
    extend_from(&mut out, items, from, until);
    proof {
        assert(out@ =~= items@.subrange(from as int, until as int));
        assert(slices_view(out@) =~= slices_view(items@).subrange(from as int, until as int));
        if all_cbor(slices_view(items@)) {
            assert forall|i: int| 0 <= i < slices_view(out@).len() implies crate::codec::is_cbor(
                #[trigger] slices_view(out@)[i],
            ) by {
                assert(slices_view(out@)[i] == slices_view(items@)[i + from]);
            }
        }
    }
    out
}

} // verus!

//! What the engine takes from the `cbor_data` crate: validation, decoding of
//! a node's kind and children, and the builder that writes new nodes.
//!
//! Nodes travel as byte slices. Nothing in this module is proved: each
//! function states what the `cbor_data` function it calls does.

use std::fmt::Write;

use cbor_data::{ArrayWriter, Cbor, CborBuilder, CborOwned, DictWriter, ItemKind, Literal, Writer};

use vstd::prelude::*;
use vstd::string::StringSliceAdditionalSpecFns;

use crate::format::{
    array_encoding, bool_encoding, dict_encoding, double_encoding, half_encoding, neg_encoding,
    pos_encoding, text_encoding,
};
use crate::heads::{heads_fit, scan_heads};

verus! {

/// `cbor_data::CborOwned`, an owned CBOR item, taken as opaque.
#[verifier::external_type_specification]
#[verifier::external_body]
pub struct ExCborOwned(CborOwned);

/// `cbor_data::ArrayWriter`, the writer of an array's items, taken as
/// opaque.
#[verifier::external_type_specification]
#[verifier::external_body]
pub struct ExArrayWriter<'a>(ArrayWriter<'a>);

/// `cbor_data::DictWriter`, the writer of a map's pairs, taken as opaque.
#[verifier::external_type_specification]
#[verifier::external_body]
pub struct ExDictWriter<'a>(DictWriter<'a>);

/// The low-level kind of a node, with the value of the kinds that carry one
/// in the head. A float is held as the bit pattern of its value widened to
/// double precision, and as [`QUIET_NAN`] if it is not a number.
#[derive(Clone, Copy, Debug, PartialEq, Eq)]
pub enum NodeKind {
    Pos(u64),
    Neg(u64),
    Float(u64),
    Str,
    Bytes,
    Bool(bool),
    Null,
    Undefined,
    Simple(u8),
    Array,
    Dict,
}

/// Whether `Cbor::checked` accepts the bytes: exactly one well-formed item.
pub uninterp spec fn accepted(bytes: Seq<u8>) -> bool;

/// Whether the bytes are an item that the engine works on: one that the
/// decoder accepts and whose heads all fit. The items inside such an item
/// are such items too: the scan of an item goes through the heads of each
/// item inside it, from its first head to its last.
pub open spec fn is_cbor(bytes: Seq<u8>) -> bool {
    heads_fit(bytes) && accepted(bytes)
}

/// What `Cbor::kind` reports of an item, tags skipped. Of a float that is
/// not a number it reports bits that are not fixed; there the name stands
/// for one such report.
pub uninterp spec fn reported_kind(bytes: Seq<u8>) -> NodeKind;

/// The bit pattern that stands for every float that is not a number.
pub const QUIET_NAN: u64 = 0x7ff8_0000_0000_0000;

/// Whether the bits are those of a double that is not a number.
pub open spec fn is_nan(bits: u64) -> bool {
    bits & 0x7ff0_0000_0000_0000 == 0x7ff0_0000_0000_0000 && bits & 0x000f_ffff_ffff_ffff != 0
}

/// A kind with the bits of a float that is not a number brought to
/// [`QUIET_NAN`].
pub open spec fn settled(kind: NodeKind) -> NodeKind {
    match kind {
        NodeKind::Float(bits) => if is_nan(bits) {
            NodeKind::Float(QUIET_NAN)
        } else {
            NodeKind::Float(bits)
        },
        _ => kind,
    }
}

/// Two kinds are the same but for the bits of a float that is not a
/// number.
pub open spec fn same_report(a: NodeKind, b: NodeKind) -> bool {
    a == b || (a matches NodeKind::Float(x) && b matches NodeKind::Float(y) && is_nan(x) && is_nan(
        y,
    ))
}

/// The kind of an item: what `Cbor::kind` reports of it, with every float
/// that is not a number held as [`QUIET_NAN`].
pub open spec fn kind_of(bytes: Seq<u8>) -> NodeKind {
    settled(reported_kind(bytes))
}

/// The items that iterating an array item yields, in order.
pub uninterp spec fn items_of(bytes: Seq<u8>) -> Seq<Seq<u8>>;

/// The key-value pairs that iterating a map item yields, in order.
pub uninterp spec fn entries_of(bytes: Seq<u8>) -> Seq<(Seq<u8>, Seq<u8>)>;

/// The text of a string item, its fragments joined.
pub uninterp spec fn text_of(bytes: Seq<u8>) -> Seq<char>;

/// The content of a byte string item, its fragments joined.
pub uninterp spec fn content_of(bytes: Seq<u8>) -> Seq<u8>;

/// The item in diagnostic notation, as the `Display` of `Cbor` prints it,
/// or nothing where its formatter gives up.
pub uninterp spec fn diagnostic_of(bytes: Seq<u8>) -> Option<Seq<char>>;

/// The bytes that an owned item holds.
pub uninterp spec fn owned_bytes(item: CborOwned) -> Seq<u8>;

/// The items written through an array writer so far.
pub uninterp spec fn array_written(writer: ArrayWriter) -> Seq<Seq<u8>>;

/// The key-value pairs written through a map writer so far.
pub uninterp spec fn dict_written(writer: DictWriter) -> Seq<(Seq<u8>, Seq<u8>)>;

/// The byte sequences behind a sequence of slices.
pub open spec fn slices_view(slices: Seq<&[u8]>) -> Seq<Seq<u8>> {
    Seq::new(slices.len(), |i: int| slices[i]@)
}

/// The byte sequences behind a sequence of pairs of slices.
pub open spec fn pairs_view(pairs: Seq<(&[u8], &[u8])>) -> Seq<(Seq<u8>, Seq<u8>)> {
    Seq::new(pairs.len(), |i: int| (pairs[i].0@, pairs[i].1@))
}

/// Every byte sequence is a well-formed item.
pub open spec fn all_cbor(items: Seq<Seq<u8>>) -> bool {
    forall|i: int| 0 <= i < items.len() ==> is_cbor(#[trigger] items[i])
}

/// Every key and every value is a well-formed item.
pub open spec fn all_cbor_pairs(entries: Seq<(Seq<u8>, Seq<u8>)>) -> bool {
    forall|i: int|
        0 <= i < entries.len() ==> is_cbor((#[trigger] entries[i]).0) && is_cbor(entries[i].1)
}

/// `Cbor::checked` on bytes whose heads all fit, so that it doubles no
/// length that is too large: accepts the bytes if and only if they are one
/// well-formed item with nothing after it.
#[verifier::external_body]
pub(crate) fn check(bytes: &[u8]) -> (ok: bool)
    requires
        heads_fit(bytes@),
    ensures
        ok == accepted(bytes@),
{
    Cbor::checked(bytes).is_ok()
}

/// Whether the bytes are an item that the engine works on.
pub fn valid(bytes: &[u8]) -> (ok: bool)
    ensures
        ok == is_cbor(bytes@),
{
    scan_heads(bytes) && check(bytes)
}

/// `Cbor::kind` on a well-formed item, each variant carried over; a
/// float's value is handed on as its bits. The report is the named one,
/// but for the bits of a float that is not a number.
#[verifier::external_body]
pub(crate) fn reported(node: &[u8]) -> (kind: NodeKind)
    requires
        is_cbor(node@),
    ensures
        same_report(kind, reported_kind(node@)),
{
    match Cbor::unchecked(node).kind() {
        ItemKind::Pos(v) => NodeKind::Pos(v),
        ItemKind::Neg(v) => NodeKind::Neg(v),
        ItemKind::Float(v) => NodeKind::Float(v.to_bits()),
        ItemKind::Str(_) => NodeKind::Str,
        ItemKind::Bytes(_) => NodeKind::Bytes,
        ItemKind::Bool(b) => NodeKind::Bool(b),
        ItemKind::Null => NodeKind::Null,
        ItemKind::Undefined => NodeKind::Undefined,
        ItemKind::Simple(v) => NodeKind::Simple(v),
        ItemKind::Array(_) => NodeKind::Array,
        ItemKind::Dict(_) => NodeKind::Dict,
    }
}

/// The kind of a well-formed item.
pub(crate) fn node_kind(node: &[u8]) -> (kind: NodeKind)
    requires
        is_cbor(node@),
    ensures
        kind == kind_of(node@),
{
    match reported(node) {
        NodeKind::Float(bits) => {
            if bits & 0x7ff0_0000_0000_0000 == 0x7ff0_0000_0000_0000 && bits
                & 0x000f_ffff_ffff_ffff != 0 {
                NodeKind::Float(QUIET_NAN)
            } else {
                NodeKind::Float(bits)
            }
        },
        kind => kind,
    }
}

/// The iterator of `ItemKind::Array`, run to its end: the array's items in
/// order, each an item that lies inside the array's bytes, accepted as the
/// array is and with heads that fit as the array's do.
#[verifier::external_body]
pub(crate) fn array_items<'a>(node: &'a [u8]) -> (items: Vec<&'a [u8]>)
    requires
        is_cbor(node@),
        kind_of(node@) == NodeKind::Array,
    ensures
        slices_view(items@) == items_of(node@),
        all_cbor(slices_view(items@)),
        forall|i: int| 0 <= i < items@.len() ==> (#[trigger] items@[i])@.len() < node@.len(),
{
    match Cbor::unchecked(node).kind() {
        ItemKind::Array(array) => array.map(|item| item.as_slice()).collect(),
        _ => Vec::new(),
    }
}

/// The iterator of `ItemKind::Dict`, run to its end: the map's pairs in
/// order, each key and value an item inside the map's bytes, accepted as
/// the map is and with heads that fit as the map's do.
#[verifier::external_body]
pub(crate) fn dict_entries<'a>(node: &'a [u8]) -> (entries: Vec<(&'a [u8], &'a [u8])>)
    requires
        is_cbor(node@),
        kind_of(node@) == NodeKind::Dict,
    ensures
        pairs_view(entries@) == entries_of(node@),
        all_cbor_pairs(pairs_view(entries@)),
        forall|i: int|
            0 <= i < entries@.len() ==> (#[trigger] entries@[i]).0@.len() < node@.len()
                && entries@[i].1@.len() < node@.len(),
{
    match Cbor::unchecked(node).kind() {
        ItemKind::Dict(dict) => dict.map(|(k, v)| (k.as_slice(), v.as_slice())).collect(),
        _ => Vec::new(),
    }
}

/// `StringIter::as_cow` on a text string item whose head gives no length
/// that the iterator misreads: the whole text.
#[verifier::external_body]
pub(crate) fn node_text(node: &[u8]) -> (text: String)
    requires
        is_cbor(node@),
        kind_of(node@) == NodeKind::Str,
    ensures
        text@ == text_of(node@),
{
    match Cbor::unchecked(node).kind() {
        ItemKind::Str(s) => s.as_cow().into_owned(),
        _ => String::new(),
    }
}

/// `BytesIter::as_cow` on a byte string item whose head gives no length
/// that the iterator misreads: the whole content.
#[verifier::external_body]
pub(crate) fn node_content(node: &[u8]) -> (content: Vec<u8>)
    requires
        is_cbor(node@),
        kind_of(node@) == NodeKind::Bytes,
    ensures
        content@ == content_of(node@),
{
    match Cbor::unchecked(node).kind() {
        ItemKind::Bytes(b) => b.as_cow().into_owned(),
        _ => Vec::new(),
    }
}

/// `Display` of `Cbor`, written into a text, on an item in which no
/// string's head gives a length that the iterators misread: the item in
/// diagnostic notation, or nothing where the formatter gives up, as it
/// does on a float whose digits exceed its buffer.
#[verifier::external_body]
pub(crate) fn diagnostic(node: &[u8]) -> (text: Option<String>)
    requires
        is_cbor(node@),
    ensures
        match text {
            Some(t) => diagnostic_of(node@) == Some(t@),
            None => diagnostic_of(node@) is None,
        },
{
    let mut text = String::new();
    match write!(text, "{}", Cbor::unchecked(node)) {
        Ok(()) => Some(text),
        Err(_) => None,
    }
}

/// `Writer::write_pos` without tags: the head of major type 0, which
/// reads back as the same unsigned integer.
#[verifier::external_body]
pub(crate) fn encode_pos(value: u64) -> (bytes: Vec<u8>)
    ensures
        bytes@ == pos_encoding(value),
        is_cbor(bytes@),
        kind_of(bytes@) == NodeKind::Pos(value),
{
    CborBuilder::new().write_pos(value, None).into_vec()
}

/// `Writer::write_neg` without tags: the head of major type 1, which
/// reads back with the same argument.
#[verifier::external_body]
pub(crate) fn encode_neg(value: u64) -> (bytes: Vec<u8>)
    ensures
        bytes@ == neg_encoding(value),
        is_cbor(bytes@),
        kind_of(bytes@) == NodeKind::Neg(value),
{
    CborBuilder::new().write_neg(value, None).into_vec()
}

/// `Writer::write_bool` without tags: the one-byte literal, which reads
/// back as the same boolean.
#[verifier::external_body]
pub(crate) fn encode_bool(value: bool) -> (bytes: Vec<u8>)
    ensures
        bytes@ == bool_encoding(value),
        is_cbor(bytes@),
        kind_of(bytes@) == NodeKind::Bool(value),
{
    CborBuilder::new().write_bool(value, None).into_vec()
}

/// `Writer::write_lit` with a two-byte literal: a half-precision float
/// with the given bits. The all-zero pattern reads back as the float zero.
#[verifier::external_body]
pub(crate) fn encode_half(bits: u16) -> (bytes: Vec<u8>)
    ensures
        bytes@ == half_encoding(bits),
        is_cbor(bytes@),
        bits == 0 ==> kind_of(bytes@) == NodeKind::Float(0),
{
    CborBuilder::new().write_lit(Literal::L2(bits), None).into_vec()
}

/// `Writer::write_lit` with an eight-byte literal: a double-precision
/// float with the given bits.
#[verifier::external_body]
pub(crate) fn encode_double(bits: u64) -> (bytes: Vec<u8>)
    ensures
        bytes@ == double_encoding(bits),
        is_cbor(bytes@),
{
    CborBuilder::new().write_lit(Literal::L8(bits), None).into_vec()
}

/// `Writer::write_str_chunked` on two fragments, without tags: one
/// definite-length text string holding the first text and then the second.
#[verifier::external_body]
pub(crate) fn encode_text_pair(first: &str, second: &str) -> (bytes: Vec<u8>)
    ensures
        bytes@ == text_encoding(first.spec_bytes() + second.spec_bytes()),
        is_cbor(bytes@),
        kind_of(bytes@) == NodeKind::Str,
{
    CborBuilder::new().write_str_chunked([first, second], None).into_vec()
}

/// `Writer::write_item` on an array writer: the item's bytes are copied
/// and count as one more item.
#[verifier::external_body]
pub(crate) fn push_item(writer: &mut ArrayWriter<'_>, item: &[u8])
    ensures
        array_written(*final(writer)) == array_written(*old(writer)).push(item@),
{
    writer.write_item(Cbor::unchecked(item));
}

/// `DictWriter::with_cbor_key` with key and value copied by
/// `Writer::write_item`: one more pair.
#[verifier::external_body]
pub(crate) fn push_entry(writer: &mut DictWriter<'_>, key: &[u8], value: &[u8])
    ensures
        dict_written(*final(writer)) == dict_written(*old(writer)).push((key@, value@)),
{
    writer.with_cbor_key(|b| b.write_item(Cbor::unchecked(key)), |b| b.write_item(Cbor::unchecked(value)));
}

/// Writes the items to the writer in order.
pub(crate) fn fill_array(writer: &mut ArrayWriter<'_>, items: &Vec<&[u8]>)
    ensures
        array_written(*final(writer)) == array_written(*old(writer)) + slices_view(items@),
{
    let mut i: usize = 0;
    while i < items.len()
        invariant
            i <= items.len(),
            array_written(*writer) == array_written(*old(writer)) + slices_view(items@).take(i as int),
        decreases items.len() - i,
    {
        push_item(writer, items[i]);
        proof {
            assert(slices_view(items@).take(i + 1) =~= slices_view(items@).take(i as int).push(
                items@[i as int]@,
            ));
            assert(array_written(*writer) =~= array_written(*old(writer)) + slices_view(
                items@,
            ).take(i + 1));
        }
        i += 1;
    }
    proof {
        assert(slices_view(items@).take(items@.len() as int) =~= slices_view(items@));
    }
}

/// Writes the pairs to the writer in order.
pub(crate) fn fill_dict(writer: &mut DictWriter<'_>, entries: &Vec<(&[u8], &[u8])>)
    ensures
        dict_written(*final(writer)) == dict_written(*old(writer)) + pairs_view(entries@),
{
    let mut i: usize = 0;
    while i < entries.len()
        invariant
            i <= entries.len(),
            dict_written(*writer) == dict_written(*old(writer)) + pairs_view(entries@).take(i as int),
        decreases entries.len() - i,
    {
        push_entry(writer, entries[i].0, entries[i].1);
        proof {
            assert(pairs_view(entries@).take(i + 1) =~= pairs_view(entries@).take(i as int).push(
                (entries@[i as int].0@, entries@[i as int].1@),
            ));
            assert(dict_written(*writer) =~= dict_written(*old(writer)) + pairs_view(
                entries@,
            ).take(i + 1));
        }
        i += 1;
    }
    proof {
        assert(pairs_view(entries@).take(entries@.len() as int) =~= pairs_view(entries@));
    }
}

/// `Writer::write_array` without tags, on a writer that starts empty and
/// is filled by [`fill_array`]: the array of those items, which reads back
/// as an array of the same items.
#[verifier::external_body]
pub(crate) fn encode_array(items: &Vec<&[u8]>) -> (bytes: Vec<u8>)
    requires
        all_cbor(slices_view(items@)),
    ensures
        bytes@ == array_encoding(slices_view(items@)),
        is_cbor(bytes@),
        kind_of(bytes@) == NodeKind::Array,
        items_of(bytes@) == slices_view(items@),
{
    CborBuilder::new().write_array(None, |writer| fill_array(writer, items)).into_vec()
}

/// `Writer::write_dict` without tags, on a writer that starts empty and
/// is filled by [`fill_dict`]: the map of those pairs in that order, which
/// reads back as a map of the same pairs.
#[verifier::external_body]
pub(crate) fn encode_dict(entries: &Vec<(&[u8], &[u8])>) -> (bytes: Vec<u8>)
    requires
        all_cbor_pairs(pairs_view(entries@)),
    ensures
        bytes@ == dict_encoding(pairs_view(entries@)),
        is_cbor(bytes@),
        kind_of(bytes@) == NodeKind::Dict,
        entries_of(bytes@) == pairs_view(entries@),
{
    CborBuilder::new().write_dict(None, |writer| fill_dict(writer, entries)).into_vec()
}

/// `CborOwned::unchecked`: an owned item holding exactly these bytes.
#[verifier::external_body]
pub(crate) fn owned_from(bytes: Vec<u8>) -> (item: CborOwned)
    ensures
        owned_bytes(item) == bytes@,
{
    CborOwned::unchecked(bytes)
}

/// `Cbor::as_slice` through an owned item: the bytes it holds.
#[verifier::external_body]
pub(crate) fn owned_slice(item: &CborOwned) -> (bytes: &[u8])
    ensures
        bytes@ == owned_bytes(*item),
{
    item.as_slice()
}

} // verus!

//! The byte layout of the CBOR items that the engine writes.

use vstd::prelude::*;

verus! {

/// Major type of an unsigned integer.
pub const MAJOR_POS: u8 = 0;

/// Major type of a negative integer.
pub const MAJOR_NEG: u8 = 1;

/// Major type of a text string.
pub const MAJOR_STR: u8 = 3;

/// Major type of an array.
pub const MAJOR_ARRAY: u8 = 4;

/// Major type of a map.
pub const MAJOR_DICT: u8 = 5;

/// Major type of literals and floats.
pub const MAJOR_LIT: u8 = 7;

/// Largest number of children that an array or a map is written with in
/// definite-length form.
pub const MAX_DEFINITE: u64 = 255;

/// The lowest `width` bytes of `value`, most significant first.
pub open spec fn big_endian(value: nat, width: nat) -> Seq<u8>
    decreases width,
{
    if width == 0 {
        Seq::empty()
    } else {
        big_endian(value / 256, (width - 1) as nat).push((value % 256) as u8)
    }
}

/// The initial byte of an item: major type in the top three bits,
/// additional information in the low five.
pub open spec fn initial_byte(major: u8, info: nat) -> u8 {
    (major * 32 + info) as u8
}

/// The head of an item of the given major type whose argument is `value`,
/// in the shortest of the five forms.
pub open spec fn head(major: u8, value: u64) -> Seq<u8> {
    if value < 24 {
        seq![initial_byte(major, value as nat)]
    } else if value < 0x100 {
        seq![initial_byte(major, 24)] + big_endian(value as nat, 1)
    } else if value < 0x1_0000 {
        seq![initial_byte(major, 25)] + big_endian(value as nat, 2)
    } else if value < 0x1_0000_0000 {
        seq![initial_byte(major, 26)] + big_endian(value as nat, 4)
    } else {
        seq![initial_byte(major, 27)] + big_endian(value as nat, 8)
    }
}

/// An unsigned integer.
pub open spec fn pos_encoding(value: u64) -> Seq<u8> {
    head(MAJOR_POS, value)
}

/// The negative integer `-1 - value`.
pub open spec fn neg_encoding(value: u64) -> Seq<u8> {
    head(MAJOR_NEG, value)
}

/// A boolean.
pub open spec fn bool_encoding(value: bool) -> Seq<u8> {
    seq![initial_byte(MAJOR_LIT, if value { 21 } else { 20 })]
}

/// A half-precision float with the given bit pattern.
pub open spec fn half_encoding(bits: u16) -> Seq<u8> {
    seq![initial_byte(MAJOR_LIT, 25)] + big_endian(bits as nat, 2)
}

/// A double-precision float with the given bit pattern.
pub open spec fn double_encoding(bits: u64) -> Seq<u8> {
    seq![initial_byte(MAJOR_LIT, 27)] + big_endian(bits as nat, 8)
}

/// A definite-length text string holding the given UTF-8 bytes.
pub open spec fn text_encoding(utf8: Seq<u8>) -> Seq<u8> {
    head(MAJOR_STR, utf8.len() as u64) + utf8
}

/// The items one after the other.
pub open spec fn concat(items: Seq<Seq<u8>>) -> Seq<u8>
    decreases items.len(),
{
    if items.len() == 0 {
        Seq::empty()
    } else {
        concat(items.drop_last()) + items.last()
    }
}

/// Keys and values in turn, as a map's content is laid out.
pub open spec fn interleave(entries: Seq<(Seq<u8>, Seq<u8>)>) -> Seq<Seq<u8>>
    decreases entries.len(),
{
    if entries.len() == 0 {
        Seq::empty()
    } else {
        interleave(entries.drop_last()).push(entries.last().0).push(entries.last().1)
    }
}

/// A container of `count` children: definite length up to
/// [`MAX_DEFINITE`] children, indefinite length with a stop byte beyond.
pub open spec fn container_encoding(major: u8, count: nat, content: Seq<u8>) -> Seq<u8> {
    if count <= MAX_DEFINITE {
        head(major, count as u64) + content
    } else {
        seq![initial_byte(major, 31)] + content + seq![0xffu8]
    }
}

/// An array of the given items.
pub open spec fn array_encoding(items: Seq<Seq<u8>>) -> Seq<u8> {
    container_encoding(MAJOR_ARRAY, items.len(), concat(items))
}

/// A map of the given key-value pairs, in the order given.
pub open spec fn dict_encoding(entries: Seq<(Seq<u8>, Seq<u8>)>) -> Seq<u8> {
    container_encoding(MAJOR_DICT, entries.len(), concat(interleave(entries)))
}

} // verus!

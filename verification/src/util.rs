//! What the engine adds to the types that it takes from outside: reading
//! a path and a value from a command's argument, and memory accounting
//! for stored documents.

use cbor_data::CborOwned;
use cborpath::CborPath;

use vstd::layout::size_of;
use vstd::prelude::*;

use crate::args::{explicit_path, literal, Arg, CommandError};
use crate::codec::{owned_bytes, owned_slice, valid};
use crate::document::Document;
use crate::path::{compile, path_expr};
use crate::slices::{check_slices, path_safe};

verus! {

/// Reading a path from an argument. A path is taken only if its slices
/// are all safe.
pub trait CborPathExt: Sized {
    /// The path expression that the path holds.
    spec fn expr(&self) -> Seq<u8>;

    /// Compiles the path that an argument spells.
    fn from_arg(arg: &Arg) -> (result: Result<Self, CommandError>)
        ensures
            match result {
                Ok(path) => explicit_path(arg@) == Ok::<Seq<u8>, CommandError>(path.expr())
                    && path_safe(path.expr()),
                Err(e) => explicit_path(arg@) == Err::<Seq<u8>, CommandError>(e),
            },
    ;
}

impl CborPathExt for CborPath {
    open spec fn expr(&self) -> Seq<u8> {
        path_expr(*self)
    }

    fn from_arg(arg: &Arg) -> (result: Result<Self, CommandError>) {
        if !valid(arg.bytes) {
            return Err(CommandError::InvalidPath);
        }
        match compile(arg.bytes) {
            Some(path) => {
                if check_slices(arg.bytes) {
                    Ok(path)
                } else {
                    Err(CommandError::InvalidPath)
                }
            },
            None => Err(CommandError::InvalidPath),
        }
    }
}

/// Reading a CBOR item from an argument.
pub trait CborExt: Sized {
    /// The encoded bytes of the item.
    spec fn encoded(&self) -> Seq<u8>;

    /// The CBOR item that an argument holds, taken as it is.
    fn from_arg(arg: &Arg) -> (result: Result<Self, CommandError>)
        ensures
            match result {
                Ok(item) => literal(arg@) == Ok::<Seq<u8>, CommandError>(item.encoded()),
                Err(e) => literal(arg@) == Err::<Seq<u8>, CommandError>(e),
            },
    ;
}

impl CborExt for Document {
    open spec fn encoded(&self) -> Seq<u8> {
        self@
    }

    fn from_arg(arg: &Arg) -> (result: Result<Self, CommandError>) {
        match Document::checked(arg.bytes) {
            Some(doc) => Ok(doc),
            None => Err(CommandError::InvalidCbor),
        }
    }
}

/// Longest encoding that an owned item holds inline, without a buffer of
/// its own.
pub const INLINE_CAPACITY: usize = 16;

/// The memory that an owned item of `len` encoded bytes accounts for: the
/// fixed size of the item itself and, when the bytes do not fit inline,
/// the bytes as well. The sum is held at the largest machine word.
pub open spec fn memory_cost(len: nat) -> int {
    let header = size_of::<CborOwned>() as int;
    if len > INLINE_CAPACITY {
        if header + len > usize::MAX {
            usize::MAX as int
        } else {
            header + len
        }
    } else {
        header
    }
}

/// Memory accounting for a stored item.
pub trait CborOwnedExt {
    /// Number of encoded bytes that the item holds.
    spec fn encoded_len(&self) -> nat;

    /// The memory that the item accounts for.
    fn mem_usage(&self) -> (usage: usize)
        ensures
            usage as int == memory_cost(self.encoded_len()),
    ;
}

impl CborOwnedExt for CborOwned {
    open spec fn encoded_len(&self) -> nat {
        owned_bytes(*self).len()
    }

    fn mem_usage(&self) -> (usage: usize) {
        let len: usize = owned_slice(self).len();
        let header: usize = core::mem::size_of::<CborOwned>();
        if len > INLINE_CAPACITY {
            header.saturating_add(len)
        } else {
            header
        }
    }
}

impl CborOwnedExt for Document {
    open spec fn encoded_len(&self) -> nat {
        self@.len()
    }

    fn mem_usage(&self) -> (usage: usize) {
        self.as_owned().mem_usage()
    }
}

} // verus!

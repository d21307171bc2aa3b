//! The stored document: one well-formed CBOR item, owned.

use cbor_data::CborOwned;

use vstd::prelude::*;
use vstd::slice::slice_to_vec;

use crate::codec::{
    is_cbor, kind_of, node_kind, owned_bytes, owned_from, owned_slice, valid, NodeKind,
};

verus! {

/// A CBOR document. Its view is its encoded bytes, which always form one
/// well-formed item.
#[derive(Debug, PartialEq, Eq)]
pub struct Document {
    item: CborOwned,
}

impl View for Document {
    type V = Seq<u8>;

    closed spec fn view(&self) -> Seq<u8> {
        owned_bytes(self.item)
    }
}

impl Document {
    #[verifier::type_invariant]
    spec fn well_formed(self) -> bool {
        is_cbor(owned_bytes(self.item))
    }

    /// The document that the bytes encode, if they are one well-formed
    /// item.
    pub fn checked(bytes: &[u8]) -> (doc: Option<Document>)
        ensures
            doc is Some <==> is_cbor(bytes@),
            doc matches Some(d) ==> d@ == bytes@,
    {
        if valid(bytes) {
            Some(Document { item: owned_from(slice_to_vec(bytes)) })
        } else {
            None
        }
    }

    /// Wraps bytes already known to be one well-formed item.
    pub(crate) fn trusted(bytes: Vec<u8>) -> (doc: Document)
        requires
            is_cbor(bytes@),
        ensures
            doc@ == bytes@,
    {
        Document { item: owned_from(bytes) }
    }

    /// Wraps an owned item already known to be well-formed.
    pub(crate) fn from_owned(item: CborOwned) -> (doc: Document)
        requires
            is_cbor(owned_bytes(item)),
        ensures
            doc@ == owned_bytes(item),
    {
        Document { item }
    }

    /// The encoded bytes.
    pub fn as_slice(&self) -> (bytes: &[u8])
        ensures
            bytes@ == self@,
            is_cbor(bytes@),
    {
        proof {
            use_type_invariant(self);
        }
        owned_slice(&self.item)
    }

    /// The owned item inside.
    pub fn as_owned(&self) -> (item: &CborOwned)
        ensures
            owned_bytes(*item) == self@,
    {
        &self.item
    }

    /// The kind of the document's root node.
    pub fn kind(&self) -> (kind: NodeKind)
        ensures
            kind == kind_of(self@),
    {
        node_kind(self.as_slice())
    }

    /// An independent copy with the same bytes.
    pub fn copy(&self) -> (doc: Document)
        ensures
            doc@ == self@,
    {
        Document::trusted(slice_to_vec(self.as_slice()))
    }
}

} // verus!

//! The persisted container: how a stored document is saved, loaded,
//! accounted for and copied.

use vstd::prelude::*;

use crate::codec::is_cbor;
use crate::document::Document;
use crate::util::{memory_cost, CborOwnedExt};

verus! {

/// Name of the module.
pub const MODULE_NAME: &'static str = "ReCBOR";

/// Name of the stored type: nine characters, as the host asks.
pub const MODULE_TYPE_NAME: &'static str = "ReCBORTyp";

/// Version tag that accompanies the saved bytes.
pub const REDIS_CBOR_TYPE_VERSION: i32 = 1;

/// The bytes that are saved for a document: its encoding, as it is.
pub open spec fn saved(doc: Seq<u8>) -> Seq<u8> {
    doc
}

/// The document that is loaded from saved bytes: the bytes themselves,
/// provided they are one well-formed item.
pub open spec fn loaded(bytes: Seq<u8>) -> Option<Seq<u8>> {
    if is_cbor(bytes) {
        Some(bytes)
    } else {
        None
    }
}

/// Saving a document and loading what was saved gives the document back,
/// byte for byte.
pub proof fn lemma_save_load_round_trip(doc: Seq<u8>)
    requires
        is_cbor(doc),
    ensures
        loaded(saved(doc)) == Some(doc),
{
}

/// The document held in a loaded buffer. The bytes are taken as they
/// are, without being brought to canonical form; a buffer that is not one
/// well-formed item gives no document.
pub fn rdb_load(buffer: &[u8], encver: i32) -> (value: Option<Document>)
    ensures
        match value {
            Some(doc) => loaded(buffer@) == Some(doc@),
            None => loaded(buffer@) is None,
        },
{
    Document::checked(buffer)
}

/// The bytes to save for a document.
pub fn rdb_save(value: &Document) -> (bytes: &[u8])
    ensures
        bytes@ == saved(value@),
        loaded(bytes@) == Some(value@),
{
    value.as_slice()
}

/// The memory that a stored document accounts for.
pub fn mem_usage(value: &Document) -> (usage: usize)
    ensures
        usage as int == memory_cost(value@.len()),
{
    value.mem_usage()
}

/// An independent copy of a stored document.
pub fn copy(value: &Document) -> (duplicate: Document)
    ensures
        duplicate@ == value@,
{
    value.copy()
}

} // verus!

//! The operators, one module each.

pub mod cbor_arrappend;
pub mod cbor_arrindex;
pub mod cbor_arrinsert;
pub mod cbor_arrlen;
pub mod cbor_arrpop;
pub mod cbor_arrtrim;
pub mod cbor_clear;
pub mod cbor_debug;
pub mod cbor_del;
pub mod cbor_get;
pub mod cbor_mapappend;
pub mod cbor_mapkeys;
pub mod cbor_maplen;
pub mod cbor_mget;
pub mod cbor_numincrby;
pub mod cbor_nummultby;
pub mod cbor_resp;
pub mod cbor_set;
pub mod cbor_strappend;
pub mod cbor_strlen;
pub mod cbor_toggle;
pub mod cbor_type;
pub mod num_operation;

//! Mutation and query engine for documents stored as CBOR values and
//! addressed by CBORPath expressions.

pub mod args;
pub mod codec;
pub mod commands;
pub mod document;
pub mod format;
pub mod heads;
pub mod index;
pub mod path;
pub mod protocol;
pub mod redis_cbor_type;
pub mod reply;
pub mod slices;
pub mod util;

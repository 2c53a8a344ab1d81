//! Build-time resolution for the SQLite / SQLCipher native library: which
//! library to link or compile, with which definitions, and how the typed
//! interface to its C functions is produced.
#![allow(non_camel_case_types)]

pub mod text;
pub mod features;
pub mod link;
pub mod compile;
pub mod crypto;
pub mod error;
pub mod header;
pub mod bindings;
pub mod plan;
pub mod laws;
pub mod limit;
pub use limit::Limit;

//! A client-side layer for a modular ledger whose storage layout and call
//! encodings are resolved at runtime against a metadata document.
pub mod builder;
pub mod bytes;
pub mod client;
pub mod codec;
pub mod error;
pub mod metadata;
pub mod srml;
pub mod storage;

//! The errors of the library.
use vstd::prelude::*;
use crate::metadata::MetadataError;

verus! {

/// What can go wrong on a request to the ledger.
#[derive(Clone, Debug, PartialEq, Eq)]
pub enum Error {
    /// The metadata document has no such module, item or call.
    Metadata(MetadataError),
    /// The transport failed: connection, timeout or rejection.
    Transport(String),
    /// Bytes from the node do not decode as the expected type.
    Codec,
}

} // verus!

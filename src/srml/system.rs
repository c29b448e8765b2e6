//! The system module: account nonces, the runtime's signed extra data, and
//! code upgrades.
use vstd::prelude::*;
use vstd::string::StringSliceAdditionalSpecFns;
use crate::builder::{Unvalidated, Valid, XtBuilder};
use crate::bytes::append_bytes;
use crate::client::{AccountId, Client, StorageRead};
use crate::codec::{compact_bytes, encode_compact};
use crate::error::Error;
use crate::metadata::{call_error_matches, map_error_matches, resolved_call, resolved_map, Metadata, MetadataError};
use crate::storage::storage_key;

verus! {

/// What a runtime binds for the system module: the data it signs beside
/// each call, made from the account nonce.
pub trait System {
    /// The signed extra data for a nonce.
    spec fn spec_extra(nonce: u64) -> Seq<u8>;

    /// Creates the signed extra data from the account nonce.
    fn extra(nonce: u64) -> (r: Vec<u8>)
        ensures
            r@ == Self::spec_extra(nonce);
}

/// A runtime whose signed extra data is the compact account nonce.
#[derive(Clone, Copy, Debug)]
pub struct DefaultRuntime;

impl System for DefaultRuntime {
    open spec fn spec_extra(nonce: u64) -> Seq<u8> {
        compact_bytes(nonce as u128)
    }

    fn extra(nonce: u64) -> (r: Vec<u8>) {
        encode_compact(nonce as u128)
    }
}

/// The read of the account nonce of `account`, or the lookup error.
pub open spec fn nonce_read_ok(md: Metadata, account: AccountId, r: Result<StorageRead, Error>) -> bool {
    match resolved_map(md, "System".spec_bytes(), "AccountNonce".spec_bytes()) {
        Some((h, d)) => r matches Ok(s)
            && s.key@ == storage_key(h, "System".spec_bytes(), "AccountNonce".spec_bytes(), account.bytes@)
            && s.default@ == d,
        None => r matches Err(Error::Metadata(e))
            && map_error_matches(md, "System".spec_bytes(), "AccountNonce".spec_bytes(), e),
    }
}

/// The call that sets new runtime code, or the lookup error.
pub open spec fn set_code_ok(md: Metadata, code: Seq<u8>, r: Result<Seq<u8>, MetadataError>) -> bool {
    match resolved_call(md, "System".spec_bytes(), "set_code".spec_bytes(),
        compact_bytes(code.len() as u128) + code) {
        Some(b) => r == Ok::<Seq<u8>, MetadataError>(b),
        None => r matches Err(e) && call_error_matches(md, "System".spec_bytes(), "set_code".spec_bytes(), e),
    }
}

/// The outcome of a call attached to a builder, seen as the call's bytes.
pub open spec fn attached<T>(r: Result<XtBuilder<T, Valid>, MetadataError>) -> Result<Seq<u8>, MetadataError> {
    match r {
        Ok(x) => Ok(x.state.call.bytes@),
        Err(e) => Err(e),
    }
}

/// The same metadata and signer carried over to a valid builder.
pub open spec fn carried<T>(md: Metadata, signer: AccountId, r: Result<XtBuilder<T, Valid>, MetadataError>) -> bool {
    r matches Ok(x) ==> x.metadata == md && x.signer == signer
}

/// Reads of the system module.
pub trait SystemStore {
    /// The metadata document names are resolved against.
    spec fn store_metadata(&self) -> Metadata;

    /// The storage read that yields the account nonce of `account_id`; its
    /// value comes from `StorageRead::finish_u64`.
    fn account_nonce(&self, account_id: AccountId) -> (r: Result<StorageRead, Error>)
        ensures
            nonce_read_ok(self.store_metadata(), account_id, r);
}

impl SystemStore for Client {
    open spec fn store_metadata(&self) -> Metadata {
        self.metadata
    }

    fn account_nonce(&self, account_id: AccountId) -> (r: Result<StorageRead, Error>) {
        match self.metadata.storage_map("System", "AccountNonce") {
            Ok(map) => Ok(StorageRead::of_map(&map, account_id.bytes.as_slice())),
            Err(e) => Err(Error::Metadata(e)),
        }
    }
}

/// Calls of the system module.
pub trait SystemCalls<T: System>: Sized {
    /// The metadata document names are resolved against.
    spec fn calls_metadata(&self) -> Metadata;

    /// The account that signs the call.
    spec fn calls_signer(&self) -> AccountId;

    /// Attaches a call that sets new runtime code.
    fn set_code(self, code: &[u8]) -> (r: Result<XtBuilder<T, Valid>, MetadataError>)
        ensures
            set_code_ok(self.calls_metadata(), code@, attached(r)),
            carried(self.calls_metadata(), self.calls_signer(), r);
}

impl<T: System> SystemCalls<T> for XtBuilder<T, Unvalidated> {
    open spec fn calls_metadata(&self) -> Metadata {
        self.metadata
    }

    open spec fn calls_signer(&self) -> AccountId {
        self.signer
    }

    fn set_code(self, code: &[u8]) -> (r: Result<XtBuilder<T, Valid>, MetadataError>) {
        let mut args = encode_compact(code.len() as u128);
        append_bytes(&mut args, code);
        self.module_call("System", "set_code", args.as_slice())
    }
}

} // verus!

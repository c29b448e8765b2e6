//! The balances module: free balances and transfers.
use vstd::prelude::*;
use vstd::string::StringSliceAdditionalSpecFns;
use crate::builder::{Unvalidated, Valid, XtBuilder};
use crate::bytes::append_bytes;
use crate::client::{AccountId, Client, StorageRead};
use crate::codec::{compact_bytes, encode_compact};
use crate::error::Error;
use crate::metadata::{call_error_matches, map_error_matches, resolved_call, resolved_map, Metadata, MetadataError};
use crate::srml::system::{attached, carried, System};
use crate::storage::storage_key;

verus! {

/// A runtime with a balances module; balances are 128-bit.
pub trait Balances: System {
}

impl Balances for crate::srml::system::DefaultRuntime {
}

/// The read of the free balance of `account`, or the lookup error.
pub open spec fn balance_read_ok(md: Metadata, account: AccountId, r: Result<StorageRead, Error>) -> bool {
    match resolved_map(md, "Balances".spec_bytes(), "FreeBalance".spec_bytes()) {
        Some((h, d)) => r matches Ok(s)
            && s.key@ == storage_key(h, "Balances".spec_bytes(), "FreeBalance".spec_bytes(), account.bytes@)
            && s.default@ == d,
        None => r matches Err(Error::Metadata(e))
            && map_error_matches(md, "Balances".spec_bytes(), "FreeBalance".spec_bytes(), e),
    }
}

/// The encoded arguments of a transfer: the destination, then the compact
/// amount.
pub open spec fn transfer_args(to: AccountId, amount: u128) -> Seq<u8> {
    to.bytes@ + compact_bytes(amount)
}

/// The transfer call, or the lookup error.
pub open spec fn transfer_ok(md: Metadata, to: AccountId, amount: u128, r: Result<Seq<u8>, MetadataError>) -> bool {
    match resolved_call(md, "Balances".spec_bytes(), "transfer".spec_bytes(), transfer_args(to, amount)) {
        Some(b) => r == Ok::<Seq<u8>, MetadataError>(b),
        None => r matches Err(e) && call_error_matches(md, "Balances".spec_bytes(), "transfer".spec_bytes(), e),
    }
}

/// Reads of the balances module.
pub trait BalancesStore {
    /// The metadata document names are resolved against.
    spec fn balances_metadata(&self) -> Metadata;

    /// The storage read that yields the free balance of `account_id`; its
    /// value comes from `StorageRead::finish_u128`.
    fn free_balance(&self, account_id: AccountId) -> (r: Result<StorageRead, Error>)
        ensures
            balance_read_ok(self.balances_metadata(), account_id, r);
}

impl BalancesStore for Client {
    open spec fn balances_metadata(&self) -> Metadata {
        self.metadata
    }

    fn free_balance(&self, account_id: AccountId) -> (r: Result<StorageRead, Error>) {
        match self.metadata.storage_map("Balances", "FreeBalance") {
            Ok(map) => Ok(StorageRead::of_map(&map, account_id.bytes.as_slice())),
            Err(e) => Err(Error::Metadata(e)),
        }
    }
}

/// Calls of the balances module.
pub trait BalancesCalls<T: Balances>: Sized {
    /// The metadata document names are resolved against.
    spec fn transfer_metadata(&self) -> Metadata;

    /// The account that signs the call.
    spec fn transfer_signer(&self) -> AccountId;

    /// Attaches a transfer of `amount` of free balance to `to`.
    fn transfer(self, to: AccountId, amount: u128) -> (r: Result<XtBuilder<T, Valid>, MetadataError>)
        ensures
            transfer_ok(self.transfer_metadata(), to, amount, attached(r)),
            carried(self.transfer_metadata(), self.transfer_signer(), r);
}

impl<T: Balances> BalancesCalls<T> for XtBuilder<T, Unvalidated> {
    open spec fn transfer_metadata(&self) -> Metadata {
        self.metadata
    }

    open spec fn transfer_signer(&self) -> AccountId {
        self.signer
    }

    fn transfer(self, to: AccountId, amount: u128) -> (r: Result<XtBuilder<T, Valid>, MetadataError>) {
        let mut args: Vec<u8> = Vec::new();
        append_bytes(&mut args, to.bytes.as_slice());
        let amt = encode_compact(amount);
        append_bytes(&mut args, amt.as_slice());
        assert(args@ =~= transfer_args(to, amount));
        self.module_call("Balances", "transfer", args.as_slice())
    }
}

} // verus!

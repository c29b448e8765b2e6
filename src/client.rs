//! The read path: storage keys to fetch and the values that come back.
use vstd::prelude::*;
use crate::codec::{decode_u128, decode_u64, le_value};
use crate::error::Error;
use crate::metadata::{Metadata, StorageMap};

verus! {

/// An account identifier: thirty-two bytes, encoded as they are.
#[derive(Clone, Copy, Debug, PartialEq, Eq)]
pub struct AccountId {
    pub bytes: [u8; 32],
}

/// A client bound to a metadata document.
#[derive(Clone, Debug)]
pub struct Client {
    pub metadata: Metadata,
}

/// A storage read to hand to the transport: the key to fetch and the encoded
/// value that stands for an absent entry.
#[derive(Clone, Debug)]
pub struct StorageRead {
    pub key: Vec<u8>,
    pub default: Vec<u8>,
}

/// What a fetch resolves to, given the transport's answer.
pub open spec fn fetched_or(fetched: Result<Option<Vec<u8>>, Error>, default: Seq<u8>) -> Result<Seq<u8>, Error> {
    match fetched {
        Ok(Some(v)) => Ok(v@),
        Ok(None) => Ok(default),
        Err(e) => Err(e),
    }
}

/// Folds an absent entry into the default; passes a value or an error on.
pub fn fetch_or(fetched: Result<Option<Vec<u8>>, Error>, default: Vec<u8>) -> (r: Result<Vec<u8>, Error>)
    ensures
        match fetched_or(fetched, default@) {
            Ok(v) => r matches Ok(w) && w@ == v,
            Err(e) => r == Err::<Vec<u8>, Error>(e),
        },
{
    match fetched {
        Ok(Some(v)) => Ok(v),
        Ok(None) => Ok(default),
        Err(e) => Err(e),
    }
}

impl Client {
    /// A client over a metadata document.
    pub fn new(metadata: Metadata) -> (r: Client)
        ensures
            r.metadata == metadata,
    {
        Client { metadata }
    }

    /// The metadata document this client resolves names against.
    pub fn metadata(&self) -> (r: &Metadata)
        ensures
            r == &self.metadata,
    {
        &self.metadata
    }
}

impl StorageRead {
    /// The read of the entry of `map` under an encoded map key.
    pub fn of_map(map: &StorageMap, map_key: &[u8]) -> (r: StorageRead)
        ensures
            r.key@ == crate::storage::storage_key(map.hasher, map.module_name@, map.item_name@, map_key@),
            r.default@ == map.default@,
    {
        StorageRead { key: map.key(map_key), default: map.default() }
    }

    /// The 128-bit value this read resolves to, given the transport's answer.
    pub fn finish_u128(self, fetched: Result<Option<Vec<u8>>, Error>) -> (r: Result<u128, Error>)
        ensures
            match fetched_or(fetched, self.default@) {
                Ok(v) => if v.len() == 16 {
                    r matches Ok(x) && x as nat == le_value(v)
                } else {
                    r == Err::<u128, Error>(Error::Codec)
                },
                Err(e) => r == Err::<u128, Error>(e),
            },
    {
        let bytes = fetch_or(fetched, self.default)?;
        match decode_u128(bytes.as_slice()) {
            Some(x) => Ok(x),
            None => Err(Error::Codec),
        }
    }

    /// The 64-bit value this read resolves to, given the transport's answer.
    pub fn finish_u64(self, fetched: Result<Option<Vec<u8>>, Error>) -> (r: Result<u64, Error>)
        ensures
            match fetched_or(fetched, self.default@) {
                Ok(v) => if v.len() == 8 {
                    r matches Ok(x) && x as nat == le_value(v)
                } else {
                    r == Err::<u64, Error>(Error::Codec)
                },
                Err(e) => r == Err::<u64, Error>(e),
            },
    {
        let bytes = fetch_or(fetched, self.default)?;
        match decode_u64(bytes.as_slice()) {
            Some(x) => Ok(x),
            None => Err(Error::Codec),
        }
    }
}

} // verus!

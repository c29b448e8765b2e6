//! Storage key derivation for resolved storage items.
use vstd::prelude::*;
use crate::bytes::{append_bytes, to_bytes};
use crate::metadata::{StorageHasher, StorageMap};

verus! {

/// The Blake2 128-bit digest of some bytes.
pub uninterp spec fn blake2_128_of(b: Seq<u8>) -> [u8; 16];

/// The Blake2 256-bit digest of some bytes.
pub uninterp spec fn blake2_256_of(b: Seq<u8>) -> [u8; 32];

/// The xxHash 64-bit digest of some bytes.
pub uninterp spec fn twox_64_of(b: Seq<u8>) -> [u8; 8];

/// The xxHash 128-bit digest of some bytes.
pub uninterp spec fn twox_128_of(b: Seq<u8>) -> [u8; 16];

/// The xxHash 256-bit digest of some bytes.
pub uninterp spec fn twox_256_of(b: Seq<u8>) -> [u8; 32];

/// Relies on sp_crypto_hashing::blake2_128, a function of its input alone.
#[verifier::external_body]
fn blake2_128(b: &[u8]) -> (r: [u8; 16])
    ensures
        r == blake2_128_of(b@),
{
    sp_crypto_hashing::blake2_128(b)
}

/// Relies on sp_crypto_hashing::blake2_256, a function of its input alone.
#[verifier::external_body]
fn blake2_256(b: &[u8]) -> (r: [u8; 32])
    ensures
        r == blake2_256_of(b@),
{
    sp_crypto_hashing::blake2_256(b)
}

/// Relies on sp_crypto_hashing::twox_64, a function of its input alone.
#[verifier::external_body]
fn twox_64(b: &[u8]) -> (r: [u8; 8])
    ensures
        r == twox_64_of(b@),
{
    sp_crypto_hashing::twox_64(b)
}

/// Relies on sp_crypto_hashing::twox_128, a function of its input alone.
#[verifier::external_body]
fn twox_128(b: &[u8]) -> (r: [u8; 16])
    ensures
        r == twox_128_of(b@),
{
    sp_crypto_hashing::twox_128(b)
}

/// Relies on sp_crypto_hashing::twox_256, a function of its input alone.
#[verifier::external_body]
fn twox_256(b: &[u8]) -> (r: [u8; 32])
    ensures
        r == twox_256_of(b@),
{
    sp_crypto_hashing::twox_256(b)
}

/// The bytes a hasher makes of its input. The concatenating hashers append
/// the input itself after the digest.
pub open spec fn hashed(h: StorageHasher, b: Seq<u8>) -> Seq<u8> {
    match h {
        StorageHasher::Blake2_128 => blake2_128_of(b)@,
        StorageHasher::Blake2_256 => blake2_256_of(b)@,
        StorageHasher::Blake2_128Concat => blake2_128_of(b)@ + b,
        StorageHasher::Twox128 => twox_128_of(b)@,
        StorageHasher::Twox256 => twox_256_of(b)@,
        StorageHasher::Twox64Concat => twox_64_of(b)@ + b,
    }
}

/// Whether a hasher keeps its input after the digest.
pub open spec fn is_concat(h: StorageHasher) -> bool {
    h == StorageHasher::Blake2_128Concat || h == StorageHasher::Twox64Concat
}

/// The storage key of an entry: the hasher applied to the module name, the
/// item name and the encoded map key, in that order.
pub open spec fn storage_key(h: StorageHasher, module: Seq<u8>, item: Seq<u8>, key: Seq<u8>) -> Seq<u8> {
    hashed(h, module + item + key)
}

/// Applies a storage hasher to some bytes.
pub fn hash_with(h: StorageHasher, b: &[u8]) -> (r: Vec<u8>)
    ensures
        r@ == hashed(h, b@),
{
    let mut r: Vec<u8> = Vec::new();
    match h {
        StorageHasher::Blake2_128 => {
            let d = blake2_128(b);
            append_bytes(&mut r, d.as_slice());
        },
        StorageHasher::Blake2_256 => {
            let d = blake2_256(b);
            append_bytes(&mut r, d.as_slice());
        },
        StorageHasher::Blake2_128Concat => {
            let d = blake2_128(b);
            append_bytes(&mut r, d.as_slice());
            append_bytes(&mut r, b);
        },
        StorageHasher::Twox128 => {
            let d = twox_128(b);
            append_bytes(&mut r, d.as_slice());
        },
        StorageHasher::Twox256 => {
            let d = twox_256(b);
            append_bytes(&mut r, d.as_slice());
        },
        StorageHasher::Twox64Concat => {
            let d = twox_64(b);
            append_bytes(&mut r, d.as_slice());
            append_bytes(&mut r, b);
        },
    }
    assert(r@ =~= hashed(h, b@));
    r
}

impl StorageMap {
    /// The storage key of the entry for an encoded map key.
    pub fn key(&self, map_key: &[u8]) -> (r: Vec<u8>)
        ensures
            r@ == storage_key(self.hasher, self.module_name@, self.item_name@, map_key@),
    {
        let mut input: Vec<u8> = to_bytes(self.module_name.as_slice());
        append_bytes(&mut input, self.item_name.as_slice());
        append_bytes(&mut input, map_key);
        hash_with(self.hasher, input.as_slice())
    }

    /// The encoded value that stands for an absent entry.
    pub fn default(&self) -> (r: Vec<u8>)
        ensures
            r@ == self.default@,
    {
        to_bytes(self.default.as_slice())
    }
}

/// Deriving a key twice from the same inputs gives the same bytes: two
/// resolved items with the same hasher, module and item names, and equal map
/// keys, give equal storage keys.
pub proof fn lemma_key_deterministic(m1: StorageMap, m2: StorageMap, k1: Seq<u8>, k2: Seq<u8>)
    requires
        m1.hasher == m2.hasher,
        m1.module_name@ == m2.module_name@,
        m1.item_name@ == m2.item_name@,
        k1 == k2,
    ensures
        storage_key(m1.hasher, m1.module_name@, m1.item_name@, k1)
            == storage_key(m2.hasher, m2.module_name@, m2.item_name@, k2),
{
}

/// With a concatenating hasher, two distinct map keys of the same item give
/// distinct storage keys.
pub proof fn lemma_concat_keys_distinct(
    h: StorageHasher,
    module: Seq<u8>,
    item: Seq<u8>,
    k1: Seq<u8>,
    k2: Seq<u8>,
)
    requires
        is_concat(h),
        k1 != k2,
    ensures
        storage_key(h, module, item, k1) != storage_key(h, module, item, k2),
{
    let a = module + item + k1;
    let b = module + item + k2;
    let p = (module + item).len();
    if a == b {
        assert(k1 =~= a.subrange(p as int, a.len() as int));
        assert(k2 =~= b.subrange(p as int, b.len() as int));
    }
    let d: nat = if h == StorageHasher::Blake2_128Concat { 16 } else { 8 };
    let ka = storage_key(h, module, item, k1);
    let kb = storage_key(h, module, item, k2);
    if h == StorageHasher::Blake2_128Concat {
        assert(blake2_128_of(a)@.len() == 16);
        assert(blake2_128_of(b)@.len() == 16);
    } else {
        assert(twox_64_of(a)@.len() == 8);
        assert(twox_64_of(b)@.len() == 8);
    }
    assert(ka.subrange(d as int, ka.len() as int) =~= a);
    assert(kb.subrange(d as int, kb.len() as int) =~= b);
}

} // verus!

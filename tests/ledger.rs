use substrate_subxt::builder::XtBuilder;
use substrate_subxt::client::{fetch_or, AccountId, Client, StorageRead};
use substrate_subxt::codec::{decode_compact, encode_compact};
use substrate_subxt::error::Error;
use substrate_subxt::metadata::{
    CallMetadata, Metadata, MetadataError, ModuleMetadata, StorageHasher, StorageKind,
    StorageMetadata,
};
use substrate_subxt::srml::balances::{BalancesCalls, BalancesStore};
use substrate_subxt::srml::system::{DefaultRuntime, SystemCalls, SystemStore};
use substrate_subxt::storage::hash_with;

fn item(name: &str, kind: StorageKind, hasher: StorageHasher, default: Vec<u8>) -> StorageMetadata {
    StorageMetadata { name: name.as_bytes().to_vec(), kind, hasher, default }
}

fn call(name: &str, index: u8) -> CallMetadata {
    CallMetadata { name: name.as_bytes().to_vec(), index }
}

fn fixture() -> Metadata {
    Metadata {
        modules: vec![
            ModuleMetadata {
                name: b"System".to_vec(),
                index: 0,
                storage: vec![
                    item("AccountNonce", StorageKind::Keyed, StorageHasher::Blake2_256, vec![0; 8]),
                    item("Number", StorageKind::Plain, StorageHasher::Twox128, vec![0; 8]),
                ],
                calls: vec![call("remark", 0), call("set_code", 1)],
            },
            ModuleMetadata {
                name: b"Balances".to_vec(),
                index: 3,
                storage: vec![
                    item("TotalIssuance", StorageKind::Plain, StorageHasher::Twox128, vec![0; 16]),
                    item("FreeBalance", StorageKind::Keyed, StorageHasher::Twox64Concat, vec![0; 16]),
                ],
                calls: vec![call("transfer", 0), call("set_balance", 1)],
            },
        ],
    }
}

fn account(b: u8) -> AccountId {
    AccountId { bytes: [b; 32] }
}

#[test]
fn known_pairs_resolve_with_matching_names() {
    let md = fixture();
    for (m, i) in [("System", "AccountNonce"), ("System", "Number"), ("Balances", "FreeBalance"), ("Balances", "TotalIssuance")] {
        let module = md.module(m).unwrap();
        assert_eq!(module.name, m.as_bytes().to_vec());
        let s = module.storage(i).unwrap();
        assert_eq!(s.name, i.as_bytes().to_vec());
    }
    let map = md.storage_map("Balances", "FreeBalance").unwrap();
    assert_eq!(map.module_name, b"Balances".to_vec());
    assert_eq!(map.item_name, b"FreeBalance".to_vec());
    assert_eq!(map.hasher, StorageHasher::Twox64Concat);
    assert_eq!(map.default, vec![0; 16]);
}

#[test]
fn absent_module_and_item_are_distinguished() {
    let md = fixture();
    assert_eq!(md.module("Staking").unwrap_err(), MetadataError::ModuleNotFound(b"Staking".to_vec()));
    assert_eq!(md.module("balances").unwrap_err(), MetadataError::ModuleNotFound(b"balances".to_vec()));
    let balances = md.module("Balances").unwrap();
    assert_eq!(balances.storage("Reserved").unwrap_err(), MetadataError::StorageNotFound(b"Reserved".to_vec()));
    assert_eq!(
        md.storage_map("Staking", "FreeBalance").unwrap_err(),
        MetadataError::ModuleNotFound(b"Staking".to_vec())
    );
    assert_eq!(
        md.storage_map("Balances", "Reserved").unwrap_err(),
        MetadataError::StorageNotFound(b"Reserved".to_vec())
    );
    assert_eq!(
        md.storage_map("System", "Number").unwrap_err(),
        MetadataError::StorageKindMismatch(b"Number".to_vec())
    );
    assert_eq!(
        md.encode_call("Balances", "burn", &[]).unwrap_err(),
        MetadataError::CallNotFound(b"burn".to_vec())
    );
    assert_eq!(
        md.encode_call("Staking", "transfer", &[]).unwrap_err(),
        MetadataError::ModuleNotFound(b"Staking".to_vec())
    );
}

#[test]
fn call_encoding_is_indices_then_arguments() {
    let md = fixture();
    let e = md.encode_call("Balances", "set_balance", &[7, 8, 9]).unwrap();
    assert_eq!(e.bytes, vec![3, 1, 7, 8, 9]);
    let e = md.encode_call("System", "remark", &[]).unwrap();
    assert_eq!(e.bytes, vec![0, 0]);
}

#[test]
fn key_derivation_is_deterministic_and_separates_map_keys() {
    let md = fixture();
    let map = md.storage_map("Balances", "FreeBalance").unwrap();
    let k1 = map.key(&[1; 32]);
    assert_eq!(k1, map.key(&[1; 32]));
    let k2 = map.key(&[2; 32]);
    assert_ne!(k1, k2);
    let nonce = md.storage_map("System", "AccountNonce").unwrap();
    let n1 = nonce.key(&[1; 32]);
    let n2 = nonce.key(&[2; 32]);
    assert_eq!(n1.len(), 32);
    assert_ne!(n1, n2);
    assert_eq!(n1, nonce.key(&[1; 32]));
}

#[test]
fn key_is_hash_of_module_item_and_key() {
    let md = fixture();
    let map = md.storage_map("Balances", "FreeBalance").unwrap();
    let mut input = b"BalancesFreeBalance".to_vec();
    input.extend_from_slice(&[5; 32]);
    let key = map.key(&[5; 32]);
    assert_eq!(key, hash_with(StorageHasher::Twox64Concat, &input));
    assert_eq!(key.len(), 8 + input.len());
    assert_eq!(key[8..].to_vec(), input);
    assert_ne!(key[..8].to_vec(), input[..8].to_vec());
}

#[test]
fn hashers_give_their_digest_lengths() {
    let data = b"abc";
    assert_eq!(hash_with(StorageHasher::Blake2_128, data).len(), 16);
    assert_eq!(hash_with(StorageHasher::Blake2_256, data).len(), 32);
    assert_eq!(hash_with(StorageHasher::Twox128, data).len(), 16);
    assert_eq!(hash_with(StorageHasher::Twox256, data).len(), 32);
    assert_eq!(hash_with(StorageHasher::Blake2_128Concat, data).len(), 19);
    assert_ne!(hash_with(StorageHasher::Blake2_128, data), hash_with(StorageHasher::Twox128, data));
}

#[test]
fn compact_encoding_round_trips() {
    let values: [u128; 11] = [
        0,
        1,
        63,
        64,
        16383,
        16384,
        (1 << 30) - 1,
        1 << 30,
        u64::MAX as u128,
        (u64::MAX as u128) + 1,
        u128::MAX,
    ];
    for x in values {
        let b = encode_compact(x);
        assert_eq!(decode_compact(&b), Some((x, 0)));
    }
}

#[test]
fn compact_encoding_exact_bytes() {
    assert_eq!(encode_compact(0), vec![0x00]);
    assert_eq!(encode_compact(63), vec![0xfc]);
    assert_eq!(encode_compact(64), vec![0x01, 0x01]);
    assert_eq!(encode_compact(16383), vec![0xfd, 0xff]);
    assert_eq!(encode_compact(16384), vec![0x02, 0x00, 0x01, 0x00]);
    assert_eq!(encode_compact((1 << 30) - 1), vec![0xfe, 0xff, 0xff, 0xff]);
    assert_eq!(encode_compact(1 << 30), vec![0x03, 0x00, 0x00, 0x00, 0x40]);
    assert_eq!(encode_compact(1000), vec![0xa1, 0x0f]);
    let max = encode_compact(u128::MAX);
    assert_eq!(max.len(), 17);
    assert_eq!(max[0], 0x33);
}

#[test]
fn compact_decoding_rejects_non_canonical_and_short_input() {
    assert_eq!(decode_compact(&[0x01, 0x00]), None);
    assert_eq!(decode_compact(&[0x01]), None);
    assert_eq!(decode_compact(&[]), None);
    assert_eq!(decode_compact(&[0xfc, 0xaa, 0xbb]), Some((63, 2)));
}

#[test]
fn fixed_width_decoding() {
    let read = StorageRead { key: vec![], default: vec![0; 16] };
    assert_eq!(read.clone().finish_u64(Ok(Some(vec![1, 0, 0, 0, 0, 0, 0, 0]))), Ok(1));
    assert_eq!(read.clone().finish_u64(Ok(Some(vec![0, 1, 0, 0, 0, 0, 0, 0]))), Ok(256));
    assert_eq!(read.clone().finish_u64(Ok(Some(vec![0; 7]))), Err(Error::Codec));
    assert_eq!(read.clone().finish_u64(Ok(Some(vec![0; 9]))), Err(Error::Codec));
    assert_eq!(read.clone().finish_u64(Ok(None)), Err(Error::Codec));
    let mut b = vec![0u8; 16];
    b[0] = 0xe8;
    b[1] = 0x03;
    assert_eq!(read.clone().finish_u128(Ok(Some(b.clone()))), Ok(1000));
    assert_eq!(read.clone().finish_u128(Ok(Some(b[..15].to_vec()))), Err(Error::Codec));
    assert_eq!(read.finish_u128(Ok(None)), Ok(0));
}

#[test]
fn fetch_falls_back_to_default_only_when_absent() {
    assert_eq!(fetch_or(Ok(None), vec![9, 9]), Ok(vec![9, 9]));
    assert_eq!(fetch_or(Ok(Some(vec![1])), vec![9, 9]), Ok(vec![1]));
    assert_eq!(fetch_or(Err(Error::Codec), vec![9, 9]), Err(Error::Codec));
    assert_eq!(
        fetch_or(Err(Error::Transport("connection refused".to_string())), vec![0]),
        Err(Error::Transport("connection refused".to_string()))
    );
}

#[test]
fn storage_read_decodes_value_or_reports_errors() {
    let read = StorageRead { key: vec![1], default: vec![0; 8] };
    assert_eq!(read.clone().finish_u64(Ok(None)), Ok(0));
    assert_eq!(read.clone().finish_u64(Ok(Some(vec![5, 0, 0, 0, 0, 0, 0, 0]))), Ok(5));
    assert_eq!(read.clone().finish_u64(Ok(Some(vec![5]))), Err(Error::Codec));
    assert_eq!(read.finish_u64(Err(Error::Codec)), Err(Error::Codec));
}

#[test]
fn valid_builder_comes_only_from_a_known_call() {
    let md = fixture();
    let b = XtBuilder::<DefaultRuntime, _>::new(md.clone(), account(1));
    let valid = b.module_call("Balances", "set_balance", &[4]).unwrap();
    assert_eq!(valid.call().bytes, vec![3, 1, 4]);
    assert_eq!(valid.signing_payload(2), vec![3, 1, 4, 0x08]);

    let b = XtBuilder::<DefaultRuntime, _>::new(md.clone(), account(1));
    match b.module_call("Staking", "bond", &[]) {
        Err(e) => assert_eq!(e, MetadataError::ModuleNotFound(b"Staking".to_vec())),
        Ok(_) => panic!("an unknown module must not yield a builder"),
    }
    let b = XtBuilder::<DefaultRuntime, _>::new(md, account(1));
    match b.module_call("Balances", "bond", &[]) {
        Err(e) => assert_eq!(e, MetadataError::CallNotFound(b"bond".to_vec())),
        Ok(_) => panic!("an unknown call must not yield a builder"),
    }
}

#[test]
fn extrinsic_layout() {
    let md = fixture();
    let valid = XtBuilder::<DefaultRuntime, _>::new(md, account(7))
        .module_call("System", "remark", &[])
        .unwrap();
    let xt = valid.extrinsic(1, &[0xaa; 4]);
    let mut body = vec![0x84];
    body.extend_from_slice(&[7; 32]);
    body.extend_from_slice(&[0xaa; 4]);
    body.push(0x04);
    body.extend_from_slice(&[0, 0]);
    let mut expected = encode_compact(body.len() as u128);
    expected.extend_from_slice(&body);
    assert_eq!(xt, expected);
    assert_eq!(xt[0], (body.len() as u8) << 2);
}

#[test]
fn set_code_call_carries_compact_length_and_code() {
    let md = fixture();
    let valid = XtBuilder::<DefaultRuntime, _>::new(md, account(1)).set_code(&[1, 2, 3]).unwrap();
    assert_eq!(valid.call().bytes, vec![0, 1, 0x0c, 1, 2, 3]);
}

#[test]
fn balances_end_to_end() {
    let client = Client::new(fixture());
    let x = account(0x11);
    let y = account(0x22);

    let read = client.free_balance(x).unwrap();
    let map = client.metadata().storage_map("Balances", "FreeBalance").unwrap();
    assert_eq!(read.key, map.key(&x.bytes));
    let stub_fetch = |_key: &[u8]| -> Result<Option<Vec<u8>>, Error> { Ok(None) };
    assert_eq!(read.clone().finish_u128(stub_fetch(&read.key)), Ok(0));

    let nonce_read = client.account_nonce(x).unwrap();
    let nonce = nonce_read.finish_u64(Ok(None)).unwrap();
    assert_eq!(nonce, 0);

    let valid = XtBuilder::<DefaultRuntime, _>::new(client.metadata().clone(), x)
        .transfer(y, 1000)
        .unwrap();
    let mut call = vec![3, 0];
    call.extend_from_slice(&[0x22; 32]);
    call.extend_from_slice(&[0xa1, 0x0f]);
    assert_eq!(valid.call().bytes, call);

    let xt = valid.extrinsic(nonce, &[0x55; 64]);
    let mut hash = [0u8; 32];
    hash[0] = 0x0a;
    hash[1] = 0xbc;
    let stub_submit = |_xt: &[u8]| -> Result<[u8; 32], Error> { Ok(hash) };
    assert_eq!(stub_submit(&xt), Ok(hash));
}

#[test]
fn missing_balances_module_fails_before_any_request() {
    let mut md = fixture();
    md.modules.remove(1);
    let client = Client::new(md.clone());
    assert_eq!(
        client.free_balance(account(1)).unwrap_err(),
        Error::Metadata(MetadataError::ModuleNotFound(b"Balances".to_vec()))
    );
    match XtBuilder::<DefaultRuntime, _>::new(md, account(1)).transfer(account(2), 5) {
        Err(e) => assert_eq!(e, MetadataError::ModuleNotFound(b"Balances".to_vec())),
        Ok(_) => panic!("transfer must fail without the module"),
    }
}

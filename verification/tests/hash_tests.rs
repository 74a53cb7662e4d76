use arweave_crypto::hash::deep_hash;
use arweave_crypto::hash::DeepHashItem;
use arweave_crypto::provider::Provider;
use sha2::Digest;

fn sha384_of(data: &[u8]) -> Vec<u8> {
    sha2::Sha384::digest(data).to_vec()
}

fn joined(a: &[u8], b: &[u8]) -> Vec<u8> {
    let mut v = a.to_vec();
    v.extend_from_slice(b);
    v
}

#[test]
fn test_deep_hash_blob_known() {
    // A blob is hashed as H(H("blob" ++ decimal length) ++ H(bytes)).
    let data = b"hello".to_vec();
    let tag = b"blob5".to_vec();
    let expected = sha384_of(&joined(&sha384_of(&tag), &sha384_of(&data)));
    let digest = deep_hash(&DeepHashItem::Blob(data));
    assert_eq!(digest.to_vec(), expected);
}

#[test]
fn test_deep_hash_list_known() {
    // A list folds H(acc ++ child digest) over its children, starting from
    // H("list" ++ decimal count).
    let a = b"alpha".to_vec();
    let b = b"beta".to_vec();
    let da = deep_hash(&DeepHashItem::Blob(a.clone()));
    let db = deep_hash(&DeepHashItem::Blob(b.clone()));
    let mut acc = sha384_of(b"list2");
    acc = sha384_of(&joined(&acc, &da));
    acc = sha384_of(&joined(&acc, &db));
    let digest = deep_hash(
        &DeepHashItem::List(vec![DeepHashItem::Blob(a), DeepHashItem::Blob(b)]),
    );
    assert_eq!(digest.to_vec(), acc);
}

#[test]
fn test_deep_hash_deterministic() {
    let tree = DeepHashItem::List(vec![
        DeepHashItem::Blob(vec![1, 2, 3]),
        DeepHashItem::List(vec![DeepHashItem::Blob(vec![]), DeepHashItem::Blob(vec![4])]),
    ]);
    let first = deep_hash(&tree);
    let second = deep_hash(&tree);
    assert_eq!(first, second);
}

#[test]
fn test_deep_hash_order_sensitive() {
    let a = vec![1u8, 2, 3];
    let b = vec![9u8, 8, 7];
    let forward = deep_hash(
        &DeepHashItem::List(vec![
            DeepHashItem::Blob(a.clone()),
            DeepHashItem::Blob(b.clone()),
        ]),
    );
    let backward = deep_hash(
        &DeepHashItem::List(vec![DeepHashItem::Blob(b), DeepHashItem::Blob(a)]),
    );
    assert_ne!(forward.to_vec(), backward.to_vec());
}

#[test]
fn test_deep_hash_length_sensitive() {
    // Heavily overlapping content, different lengths.
    let x = vec![0u8; 31];
    let y = vec![0u8; 32];
    let dx = deep_hash(&DeepHashItem::Blob(x));
    let dy = deep_hash(&DeepHashItem::Blob(y));
    assert_ne!(dx.to_vec(), dy.to_vec());
}

#[test]
fn test_deep_hash_digest_is_48_bytes() {
    let digest = deep_hash(&DeepHashItem::List(vec![]));
    assert_eq!(digest.len(), 48);
    let digest2 = deep_hash(&DeepHashItem::Blob(vec![0; 1000]));
    assert_eq!(digest2.len(), 48);
}

#[test]
fn test_deep_hash_deep_nesting() {
    let mut tree = DeepHashItem::Blob(vec![42]);
    for _ in 0..100 {
        tree = DeepHashItem::List(vec![tree]);
    }
    let digest = deep_hash(&tree);
    assert_eq!(digest.len(), 48);
}

#[test]
fn test_hash_sha256_known() {
    let provider = Provider::new(None);
    let digest = provider.hash_sha256(b"");
    let expected: [u8; 32] = [
        0xe3, 0xb0, 0xc4, 0x42, 0x98, 0xfc, 0x1c, 0x14, 0x9a, 0xfb, 0xf4, 0xc8, 0x99, 0x6f,
        0xb9, 0x24, 0x27, 0xae, 0x41, 0xe4, 0x64, 0x9b, 0x93, 0x4c, 0xa4, 0x95, 0x99, 0x1b,
        0x78, 0x52, 0xb8, 0x55,
    ];
    assert_eq!(digest, expected);
}

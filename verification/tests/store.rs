use nft_data_sharing::identity::{copy_bytes, same_bytes};
use nft_data_sharing::table::Key;
use nft_data_sharing::{Identity, Permission, StorageKey, StorageValue, Store};

fn id(text: &str) -> Identity {
    Identity::new(text.as_bytes().to_vec())
}

fn all_keys() -> Vec<StorageKey> {
    vec![
        StorageKey::Admin,
        StorageKey::TokenCounter,
        StorageKey::TokenRecord(0),
        StorageKey::TokenRecord(1),
        StorageKey::PublicData(0),
        StorageKey::PublicData(1),
        StorageKey::EncryptedData(0),
        StorageKey::EncryptedData(1),
        StorageKey::AccessCount(0),
        StorageKey::AccessCount(1),
        StorageKey::AccessGrant(Permission::Read, id("a"), 0),
        StorageKey::AccessGrant(Permission::Read, id("a"), 1),
        StorageKey::AccessGrant(Permission::Read, id("b"), 0),
        StorageKey::AccessGrant(Permission::Write, id("a"), 0),
    ]
}

#[test]
fn keys_of_different_kinds_or_identifiers_never_collide() {
    let keys = all_keys();
    for (i, a) in keys.iter().enumerate() {
        for (j, b) in keys.iter().enumerate() {
            assert_eq!(a.same_as(b), i == j, "{:?} against {:?}", a, b);
        }
    }
}

#[test]
fn a_copied_key_is_the_same_key() {
    for key in all_keys() {
        assert!(key.duplicate().same_as(&key));
    }
}

#[test]
fn store_keeps_one_value_per_key() {
    let mut store = Store::new();
    for (n, key) in all_keys().into_iter().enumerate() {
        store.set(key, StorageValue::Count(n as u32));
    }
    assert_eq!(store.keys().len(), all_keys().len());
    for (n, key) in all_keys().iter().enumerate() {
        assert!(store.has(key));
        assert!(matches!(store.get(key), Some(StorageValue::Count(m)) if *m == n as u32));
    }
    store.set(StorageKey::AccessCount(1), StorageValue::Flag(true));
    assert_eq!(store.keys().len(), all_keys().len());
    assert!(matches!(store.get(&StorageKey::AccessCount(1)), Some(StorageValue::Flag(true))));
    assert!(matches!(store.get(&StorageKey::AccessCount(0)), Some(StorageValue::Count(8))));
}

#[test]
fn empty_store_has_nothing() {
    let store = Store::new();
    assert_eq!(store.keys().len(), 0);
    for key in all_keys() {
        assert!(!store.has(&key));
        assert!(store.get(&key).is_none());
    }
}

#[test]
fn store_keys_list_every_key_once() {
    let mut store = Store::new();
    store.set(StorageKey::TokenCounter, StorageValue::Count(1));
    store.set(StorageKey::Admin, StorageValue::Identity(id("a")));
    store.set(StorageKey::TokenCounter, StorageValue::Count(2));
    let keys = store.keys();
    assert_eq!(keys.len(), 2);
    assert!(keys.iter().any(|k| k.same_as(&StorageKey::Admin)));
    assert!(keys.iter().any(|k| k.same_as(&StorageKey::TokenCounter)));
}

#[test]
fn identities_are_the_same_when_their_text_is() {
    assert!(id("GABC").same(&id("GABC")));
    assert!(!id("GABC").same(&id("GABD")));
    assert!(!id("GABC").same(&id("gabc")));
    assert!(!id("").same(&id(" ")));
    assert!(id("").same(&id("")));
    assert_eq!(id("GABC").as_bytes(), &b"GABC".to_vec());
    assert!(!id("GABC").same(&id("GABCD")));
    assert!(Identity::new(vec![0xff, 0x00]).same(&Identity::new(vec![0xff, 0x00])));
    assert!(id("GABC").clone().same(&id("GABC")));
    assert_eq!(id("GABC"), id("GABC"));
}

#[test]
fn bytes_are_compared_and_copied_whole() {
    assert!(same_bytes(&vec![], &vec![]));
    assert!(same_bytes(&vec![1, 2, 3], &vec![1, 2, 3]));
    assert!(!same_bytes(&vec![1, 2, 3], &vec![1, 2, 4]));
    assert!(!same_bytes(&vec![1, 2, 3], &vec![1, 2]));
    assert!(!same_bytes(&vec![0], &vec![]));
    assert_eq!(copy_bytes(&[9, 8, 7]), vec![9, 8, 7]);
    assert_eq!(copy_bytes(&[]), Vec::<u8>::new());
}

use soroban_sdk::{Env, String};
use nft_data_sharing::{Identity, NFTDataSharing, StorageKey, StorageValue, Store};

fn id(text: &str) -> Identity {
    Identity::new(text.as_bytes().to_vec())
}

fn text(s: &str) -> Vec<u8> {
    s.as_bytes().to_vec()
}

fn host(env: &Env, s: &str) -> String {
    String::from_str(env, s)
}

fn fresh() -> (Env, Store, Identity) {
    let env = Env::default();
    let mut store = Store::new();
    NFTDataSharing::initialize(&mut store, id("GADMIN"));
    (env, store, id("GADMIN"))
}

#[test]
fn every_public_read_counts_once() {
    let (env, mut store, admin) = fresh();
    NFTDataSharing::add_public_data(&env, &mut store, &admin, 0, text("k"), text("v")).unwrap();
    assert_eq!(NFTDataSharing::get_data_sharing_count(&store, 0), 0);
    for n in 1u32..=4 {
        NFTDataSharing::read_public_data(&mut store, 0, text("k"));
        assert_eq!(NFTDataSharing::get_data_sharing_count(&store, 0), n);
    }
    NFTDataSharing::read_public_data(&mut store, 0, text("missing"));
    assert_eq!(NFTDataSharing::get_data_sharing_count(&store, 0), 5);
    assert_eq!(NFTDataSharing::get_data_sharing_count(&store, 1), 0);
}

#[test]
fn writes_and_queries_are_not_counted() {
    let (env, mut store, admin) = fresh();
    NFTDataSharing::create_nft(&mut store, &admin, text("n"), text("d")).unwrap();
    NFTDataSharing::add_public_data(&env, &mut store, &admin, 0, text("k"), text("v")).unwrap();
    NFTDataSharing::add_encrypted_data(&env, &mut store, &admin, 0, text("k"), vec![1]).unwrap();
    NFTDataSharing::grant_read_access(&mut store, &admin, id("GSYS"), 0).unwrap();
    NFTDataSharing::get_all_public_data(&env, &store, 0);
    NFTDataSharing::get_nft_info(&store, 0);
    NFTDataSharing::verify_data_integrity(&env, &store, 0);
    NFTDataSharing::get_access_stats(&env, &store, 0);
    NFTDataSharing::has_read_access(&store, id("GSYS"), 0);
    assert_eq!(NFTDataSharing::get_data_sharing_count(&store, 0), 0);
    assert_eq!(NFTDataSharing::get_total_accesses(&store), 0);
}

#[test]
fn total_accesses_sums_the_counts_of_created_tokens() {
    let (_env, mut store, admin) = fresh();
    for _ in 0..3 {
        NFTDataSharing::create_nft(&mut store, &admin, text("n"), text("d")).unwrap();
    }
    NFTDataSharing::read_public_data(&mut store, 0, text("k"));
    NFTDataSharing::read_public_data(&mut store, 2, text("k"));
    NFTDataSharing::get_encrypted_data(&mut store, 2, text("k"));
    NFTDataSharing::grant_read_access(&mut store, &admin, id("GSYS"), 1).unwrap();
    NFTDataSharing::read_encrypted_data(&mut store, 1, text("k"), id("GSYS"));
    NFTDataSharing::read_encrypted_data(&mut store, 0, text("k"), id("GSYS"));

    let counts: Vec<u32> = (0..3).map(|t| NFTDataSharing::get_data_sharing_count(&store, t)).collect();
    assert_eq!(counts, vec![2, 1, 2]);
    assert_eq!(NFTDataSharing::get_total_accesses(&store), 5);
    assert_eq!(NFTDataSharing::checked_total_accesses(&store), Some(5));
}

#[test]
fn reads_of_tokens_not_yet_created_enter_the_total_once_they_are() {
    let (_env, mut store, admin) = fresh();
    NFTDataSharing::read_public_data(&mut store, 0, text("k"));
    NFTDataSharing::read_public_data(&mut store, 1, text("k"));
    NFTDataSharing::read_public_data(&mut store, 1, text("k"));
    assert_eq!(NFTDataSharing::get_total_accesses(&store), 0);
    NFTDataSharing::create_nft(&mut store, &admin, text("n"), text("d")).unwrap();
    assert_eq!(NFTDataSharing::get_total_accesses(&store), 1);
    NFTDataSharing::create_nft(&mut store, &admin, text("n"), text("d")).unwrap();
    assert_eq!(NFTDataSharing::get_total_accesses(&store), 3);
}

#[test]
fn total_accesses_of_an_empty_registry_is_zero() {
    let store = Store::new();
    assert_eq!(NFTDataSharing::get_total_accesses(&store), 0);
    assert_eq!(NFTDataSharing::checked_total_accesses(&store), Some(0));
    assert_eq!(NFTDataSharing::get_total_nfts(&store), 0);
}

#[test]
fn checked_total_reports_a_sum_that_does_not_fit() {
    let mut store = Store::new();
    store.set(StorageKey::TokenCounter, StorageValue::Count(3));
    store.set(StorageKey::AccessCount(0), StorageValue::Count(u32::MAX - 1));
    store.set(StorageKey::AccessCount(1), StorageValue::Count(1));
    assert_eq!(NFTDataSharing::checked_total_accesses(&store), Some(u32::MAX));
    assert_eq!(NFTDataSharing::get_total_accesses(&store), u32::MAX);
    store.set(StorageKey::AccessCount(2), StorageValue::Count(1));
    assert_eq!(NFTDataSharing::checked_total_accesses(&store), None);
    store.set(StorageKey::TokenCounter, StorageValue::Count(2));
    assert_eq!(NFTDataSharing::checked_total_accesses(&store), Some(u32::MAX));
}

#[test]
fn access_stats_bundle_count_and_identifier() {
    let (env, mut store, _admin) = fresh();
    NFTDataSharing::read_public_data(&mut store, 9, text("k"));
    NFTDataSharing::read_public_data(&mut store, 9, text("k"));
    let stats = NFTDataSharing::get_access_stats(&env, &store, 9);
    assert_eq!(stats.len(), 2);
    assert_eq!(stats.get(host(&env, "total_accesses")), Some(2));
    assert_eq!(stats.get(host(&env, "nft_id")), Some(9));
    let stats = NFTDataSharing::get_access_stats(&env, &store, 10);
    assert_eq!(stats.get(host(&env, "total_accesses")), Some(0));
    assert_eq!(stats.get(host(&env, "nft_id")), Some(10));
}

#[test]
fn system_stats_bundle_tokens_and_accesses() {
    let (env, mut store, admin) = fresh();
    let stats = NFTDataSharing::get_system_stats(&env, &store);
    assert_eq!(stats.get(host(&env, "total_nfts")), Some(0));
    assert_eq!(stats.get(host(&env, "total_accesses")), Some(0));
    NFTDataSharing::create_nft(&mut store, &admin, text("n"), text("d")).unwrap();
    NFTDataSharing::create_nft(&mut store, &admin, text("n"), text("d")).unwrap();
    NFTDataSharing::read_public_data(&mut store, 1, text("k"));
    NFTDataSharing::read_public_data(&mut store, 1, text("k"));
    NFTDataSharing::read_public_data(&mut store, 0, text("k"));
    NFTDataSharing::read_public_data(&mut store, 2, text("k"));
    let stats = NFTDataSharing::get_system_stats(&env, &store);
    assert_eq!(stats.len(), 2);
    assert_eq!(stats.get(host(&env, "total_nfts")), Some(2));
    assert_eq!(stats.get(host(&env, "total_accesses")), Some(3));
}

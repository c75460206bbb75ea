use soroban_sdk::{Env, String};
use nft_data_sharing::{AuthorizationError, Identity, NFTDataSharing, Store};

fn id(text: &str) -> Identity {
    Identity::new(text.as_bytes().to_vec())
}

fn text(s: &str) -> Vec<u8> {
    s.as_bytes().to_vec()
}

fn host(env: &Env, s: &str) -> String {
    String::from_str(env, s)
}

fn fresh() -> (Env, Store, Identity) {
    let env = Env::default();
    let mut store = Store::new();
    NFTDataSharing::initialize(&mut store, id("admin"));
    (env, store, id("admin"))
}

#[test]
fn create_nft_assigns_consecutive_identifiers_from_zero() {
    let (_env, mut store, admin) = fresh();
    assert_eq!(NFTDataSharing::get_total_nfts(&store), 0);
    for expected in 0u32..5 {
        let got = NFTDataSharing::create_nft(&mut store, &admin, text("name"), text("description"));
        assert_eq!(got, Ok(expected));
        assert_eq!(NFTDataSharing::get_total_nfts(&store), expected + 1);
    }
}

#[test]
fn create_nft_keeps_name_and_description() {
    let (_env, mut store, admin) = fresh();
    NFTDataSharing::create_nft(&mut store, &admin, text("first"), text("the first token")).unwrap();
    NFTDataSharing::create_nft(&mut store, &admin, text("second"), text("")).unwrap();
    assert_eq!(NFTDataSharing::get_nft_info(&store, 0), vec![text("first"), text("the first token")]);
    assert_eq!(NFTDataSharing::get_nft_info(&store, 1), vec![text("second"), text("")]);
}

#[test]
fn get_nft_info_of_unknown_token_is_empty() {
    let (_env, mut store, admin) = fresh();
    assert!(NFTDataSharing::get_nft_info(&store, 0).is_empty());
    NFTDataSharing::create_nft(&mut store, &admin, text("a"), text("b")).unwrap();
    assert!(NFTDataSharing::get_nft_info(&store, 1).is_empty());
    assert!(NFTDataSharing::get_nft_info(&store, u32::MAX).is_empty());
}

#[test]
fn create_nft_by_non_admin_fails_and_changes_nothing() {
    let (_env, mut store, _admin) = fresh();
    let got = NFTDataSharing::create_nft(&mut store, &id("mallory"), text("n"), text("d"));
    assert_eq!(got, Err(AuthorizationError));
    assert_eq!(NFTDataSharing::get_total_nfts(&store), 0);
    assert!(NFTDataSharing::get_nft_info(&store, 0).is_empty());
    assert_eq!(store.keys().len(), 1);
}

#[test]
fn nobody_is_admin_before_initialize() {
    let env = Env::default();
    let mut store = Store::new();
    let got = NFTDataSharing::create_nft(&mut store, &id("admin"), text("n"), text("d"));
    assert_eq!(got, Err(AuthorizationError));
    assert_eq!(NFTDataSharing::add_public_data(&env, &mut store, &id(""), 0, text("k"), text("v")), Err(AuthorizationError));
    assert_eq!(store.keys().len(), 0);
}

#[test]
fn initialize_again_replaces_the_admin() {
    let (_env, mut store, admin) = fresh();
    NFTDataSharing::initialize(&mut store, id("successor"));
    assert_eq!(NFTDataSharing::create_nft(&mut store, &admin, text("n"), text("d")), Err(AuthorizationError));
    assert_eq!(NFTDataSharing::create_nft(&mut store, &id("successor"), text("n"), text("d")), Ok(0));
}

#[test]
fn admin_identity_is_compared_by_its_whole_text() {
    let (_env, mut store, _admin) = fresh();
    for other in ["Admin", "admin ", "admi", "", "administrator"] {
        let got = NFTDataSharing::create_nft(&mut store, &id(other), text("n"), text("d"));
        assert_eq!(got, Err(AuthorizationError));
    }
    assert_eq!(NFTDataSharing::get_total_nfts(&store), 0);
}

#[test]
fn integrity_reports_existence_only_after_creation() {
    let (env, mut store, admin) = fresh();
    let before = NFTDataSharing::verify_data_integrity(&env, &store, 0);
    assert_eq!(before.get(host(&env, "nft_exists")), Some(false));
    assert_eq!(before.get(host(&env, "public_data_exists")), Some(false));
    assert_eq!(before.get(host(&env, "encrypted_data_exists")), Some(false));
    assert_eq!(before.len(), 3);

    NFTDataSharing::create_nft(&mut store, &admin, text("n"), text("d")).unwrap();
    let after = NFTDataSharing::verify_data_integrity(&env, &store, 0);
    assert_eq!(after.get(host(&env, "nft_exists")), Some(true));
    assert_eq!(after.get(host(&env, "public_data_exists")), Some(false));
    assert_eq!(after.get(host(&env, "encrypted_data_exists")), Some(false));

    let next = NFTDataSharing::verify_data_integrity(&env, &store, 1);
    assert_eq!(next.get(host(&env, "nft_exists")), Some(false));
}

#[test]
fn integrity_probes_are_independent() {
    let (env, mut store, admin) = fresh();
    NFTDataSharing::add_public_data(&env, &mut store, &admin, 7, text("k"), text("v")).unwrap();
    let report = NFTDataSharing::verify_data_integrity(&env, &store, 7);
    assert_eq!(report.get(host(&env, "nft_exists")), Some(false));
    assert_eq!(report.get(host(&env, "public_data_exists")), Some(true));
    assert_eq!(report.get(host(&env, "encrypted_data_exists")), Some(false));

    NFTDataSharing::add_encrypted_data(&env, &mut store, &admin, 8, text("k"), vec![1, 2]).unwrap();
    let report = NFTDataSharing::verify_data_integrity(&env, &store, 8);
    assert_eq!(report.get(host(&env, "nft_exists")), Some(false));
    assert_eq!(report.get(host(&env, "public_data_exists")), Some(false));
    assert_eq!(report.get(host(&env, "encrypted_data_exists")), Some(true));
}

#[test]
fn existence_does_not_depend_on_data() {
    let (env, mut store, admin) = fresh();
    NFTDataSharing::create_nft(&mut store, &admin, text("n"), text("d")).unwrap();
    NFTDataSharing::add_public_data(&env, &mut store, &admin, 0, text("k"), text("v")).unwrap();
    NFTDataSharing::add_encrypted_data(&env, &mut store, &admin, 0, text("k"), vec![9]).unwrap();
    let report = NFTDataSharing::verify_data_integrity(&env, &store, 0);
    assert_eq!(report.get(host(&env, "nft_exists")), Some(true));
    assert_eq!(report.get(host(&env, "public_data_exists")), Some(true));
    assert_eq!(report.get(host(&env, "encrypted_data_exists")), Some(true));
    assert!(NFTDataSharing::has_public_data(&store, 0));
    assert!(NFTDataSharing::has_encrypted_data(&store, 0));
    assert!(!NFTDataSharing::has_public_data(&store, 1));
    assert!(!NFTDataSharing::has_encrypted_data(&store, 1));
}

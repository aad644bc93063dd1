use nft_factory::account_id::{derive_sub_account_id, is_valid_account_id, is_valid_segment};
use nft_factory::factory::{NFTFactory, ProvisionRequest, INITIAL_BALANCE};
use nft_factory::FactoryError;

fn owned(s: &str) -> String {
    String::from(s)
}

#[test]
pub fn deploy_new_nft_contract() {
    let nft_factory = NFTFactory::new(owned("alice_near"));
    let before_len = nft_factory.len();
    println!("Before Len: {}", before_len);
    let _ = nft_factory.create_new_nft_contract(
        &owned("alice_near"),
        &owned("factory.near"),
        &owned("sub"),
    );
}

#[test]
fn owner_provisions_and_confirmation_registers() {
    let mut factory = NFTFactory::new(owned("alice"));
    let factory_account = owned("factory.near");
    let req: ProvisionRequest = factory
        .create_new_nft_contract(&owned("alice"), &factory_account, &owned("sub"))
        .unwrap();
    assert_eq!(req.sub_account_id, "sub.factory.near");
    assert_eq!(req.funding_amount, INITIAL_BALANCE);
    assert_eq!(req.funding_amount, 3_000_000_000_000_000_000_000_000_u128);
    // Submitted but not yet confirmed: nothing is listed.
    assert_eq!(factory.get_nfts_contract_accounts(), Vec::<String>::new());
    factory.after_create_new_nft_contract(
        &factory_account,
        &factory_account,
        req.sub_account_id.clone(),
        true,
    );
    assert_eq!(
        factory.get_nfts_contract_accounts(),
        vec![owned("sub.factory.near")]
    );
    let entries = factory.to_ordered_sequence();
    assert_eq!(entries.len(), 1);
    assert_eq!(entries[0].0, 0);
    assert_eq!(entries[0].1, "sub.factory.near");
}

#[test]
fn non_owner_request_is_unauthorized() {
    let factory = NFTFactory::new(owned("alice"));
    let result = factory.create_new_nft_contract(
        &owned("mallory"),
        &owned("factory.near"),
        &owned("evil"),
    );
    assert_eq!(result.unwrap_err(), FactoryError::Unauthorized);
    assert_eq!(factory.get_nfts_contract_accounts().len(), 0);
    assert_eq!(factory.len(), 0);
}

#[test]
fn indices_follow_confirmation_arrival_order() {
    let mut factory = NFTFactory::new(owned("alice"));
    let factory_account = owned("factory.near");
    let req_a = factory
        .create_new_nft_contract(&owned("alice"), &factory_account, &owned("a"))
        .unwrap();
    let req_b = factory
        .create_new_nft_contract(&owned("alice"), &factory_account, &owned("b"))
        .unwrap();
    // The confirmation for "b" arrives before the one for "a".
    factory.after_create_new_nft_contract(
        &factory_account,
        &factory_account,
        req_b.sub_account_id,
        true,
    );
    factory.after_create_new_nft_contract(
        &factory_account,
        &factory_account,
        req_a.sub_account_id,
        true,
    );
    let entries = factory.to_ordered_sequence();
    assert_eq!(entries.len(), 2);
    assert_eq!(entries[0].0, 0);
    assert_eq!(entries[0].1, "b.factory.near");
    assert_eq!(entries[1].0, 1);
    assert_eq!(entries[1].1, "a.factory.near");
}

#[test]
fn empty_prefix_is_invalid_and_nothing_is_submitted() {
    let factory = NFTFactory::new(owned("alice"));
    let result =
        factory.create_new_nft_contract(&owned("alice"), &owned("factory.near"), &owned(""));
    assert_eq!(result.unwrap_err(), FactoryError::InvalidIdentifier);
    assert_eq!(factory.len(), 0);
}

#[test]
fn failed_confirmation_leaves_registry_unchanged() {
    let mut factory = NFTFactory::new(owned("alice"));
    let factory_account = owned("factory.near");
    let req = factory
        .create_new_nft_contract(&owned("alice"), &factory_account, &owned("sub"))
        .unwrap();
    factory.after_create_new_nft_contract(
        &factory_account,
        &factory_account,
        req.sub_account_id,
        false,
    );
    assert_eq!(factory.len(), 0);
    assert_eq!(factory.get_nfts_contract_accounts(), Vec::<String>::new());
}

#[test]
fn derivation_is_deterministic() {
    let first = derive_sub_account_id("sub", "factory.near").unwrap();
    let second = derive_sub_account_id("sub", "factory.near").unwrap();
    assert_eq!(first, second);
    assert_eq!(first, "sub.factory.near");
}

#[test]
fn derivation_rejects_bad_prefixes() {
    assert_eq!(
        derive_sub_account_id("EVIL", "factory.near").unwrap_err(),
        FactoryError::InvalidIdentifier
    );
    assert_eq!(
        derive_sub_account_id("a..b", "factory.near").unwrap_err(),
        FactoryError::InvalidIdentifier
    );
    assert_eq!(
        derive_sub_account_id("-a", "factory.near").unwrap_err(),
        FactoryError::InvalidIdentifier
    );
    assert_eq!(
        derive_sub_account_id("a-", "factory.near").unwrap_err(),
        FactoryError::InvalidIdentifier
    );
    assert_eq!(
        derive_sub_account_id("a b", "factory.near").unwrap_err(),
        FactoryError::InvalidIdentifier
    );
}

#[test]
fn derivation_accepts_interior_separators() {
    assert_eq!(
        derive_sub_account_id("a-b_c.d", "factory.near").unwrap(),
        "a-b_c.d.factory.near"
    );
}

#[test]
fn derivation_respects_the_length_limit() {
    // "factory.near" is 12 characters, so the longest admissible prefix has
    // 64 - 1 - 12 = 51 characters.
    let longest = "a".repeat(51);
    let derived = derive_sub_account_id(&longest, "factory.near").unwrap();
    assert_eq!(derived.len(), 64);
    let too_long = "a".repeat(52);
    assert_eq!(
        derive_sub_account_id(&too_long, "factory.near").unwrap_err(),
        FactoryError::InvalidIdentifier
    );
}

#[test]
fn segment_and_account_id_grammar_edges() {
    assert!(is_valid_segment("a"));
    assert!(is_valid_segment("a-b"));
    assert!(!is_valid_segment(""));
    assert!(!is_valid_segment("-"));
    assert!(!is_valid_segment("a--b"));
    assert!(!is_valid_segment("A"));
    assert!(!is_valid_segment("a!b"));
    assert!(is_valid_account_id("ab"));
    assert!(is_valid_account_id("sub.factory.near"));
    assert!(!is_valid_account_id("a"));
    assert!(is_valid_account_id(&"a".repeat(64)));
    assert!(!is_valid_account_id(&"a".repeat(65)));
    assert!(!is_valid_account_id("a.b."));
    assert!(!is_valid_account_id(".a.b"));
}

#[test]
fn unauthorized_request_checked_before_prefix() {
    // Authorization is checked before the prefix, as the protocol orders it.
    let factory = NFTFactory::new(owned("alice"));
    let result =
        factory.create_new_nft_contract(&owned("mallory"), &owned("factory.near"), &owned(""));
    assert_eq!(result.unwrap_err(), FactoryError::Unauthorized);
}

#[test]
fn load_restores_a_persisted_factory() {
    let factory = NFTFactory::load(
        owned("alice"),
        vec![owned("b.factory.near"), owned("a.factory.near")],
    );
    assert_eq!(factory.owner().as_str(), "alice");
    assert_eq!(factory.len(), 2);
    let entries = factory.to_ordered_sequence();
    assert_eq!(entries[0].0, 0);
    assert_eq!(entries[0].1, "b.factory.near");
    assert_eq!(entries[1].0, 1);
    assert_eq!(entries[1].1, "a.factory.near");
}

use general_kit::resources::Bucket;
use general_kit::resources::FungibleResourceManager;
use general_kit::resources::MemberError;
use general_kit::resources::NonFungibleResourceManager;
use general_kit::resources::Vault;

#[test]
fn fungible_mint_grows_supply_by_the_minted_amount() {
    let mut manager = FungibleResourceManager::create_with_no_initial_supply(11);
    assert_eq!(manager.total_supply, 0);
    let bucket = manager.mint(5);
    assert_eq!(bucket.resource_kind, 11);
    assert_eq!(bucket.amount, 5);
    let empty = manager.mint(0);
    assert_eq!(empty.amount, 0);
    assert_eq!(manager.total_supply, 5);
}

#[test]
fn duplicate_identifier_is_refused() {
    let mut manager = NonFungibleResourceManager::create_with_no_initial_supply(7);
    let minted = manager.mint_non_fungible(4, "data");
    assert!(minted.is_ok());
    let again = manager.mint_non_fungible(4, "other data");
    assert_eq!(again.unwrap_err(), MemberError::DuplicateIdentity);
    assert_eq!(manager.minted_ids, vec![4]);
}

#[test]
fn non_fungible_mint_records_ids_in_order() {
    let mut manager = NonFungibleResourceManager::create_with_no_initial_supply(7);
    let unit = manager.mint_non_fungible(2, 60i64).unwrap();
    assert_eq!(unit.resource_kind, 7);
    assert_eq!(unit.id, 2);
    assert_eq!(unit.data, 60i64);
    manager.mint_non_fungible(9, 120i64).unwrap();
    assert!(manager.is_minted(2));
    assert!(manager.is_minted(9));
    assert!(!manager.is_minted(3));
    assert_eq!(manager.minted_ids, vec![2, 9]);
}

#[test]
fn vault_accumulates_deposits() {
    let mut vault = Vault::new(0);
    assert_eq!(vault.amount, 0);
    vault.put(Bucket { resource_kind: 0, amount: 30 });
    vault.put(Bucket { resource_kind: 0, amount: 12 });
    assert_eq!(vault.resource_kind, 0);
    assert_eq!(vault.amount, 42);
}

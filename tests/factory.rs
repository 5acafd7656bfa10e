use nft_factory::calls::resolve_single;
use nft_factory::{CallResult, Contract, FactoryError};

fn s(x: &str) -> String {
    x.to_string()
}

fn token_json(ids: &[&str], owner: &str) -> Vec<u8> {
    let items: Vec<String> = ids
        .iter()
        .map(|id| {
            format!(
                "{{\"token_id\":\"{}\",\"owner_id\":\"{}\",\"metadata\":null,\"approved_account_ids\":null}}",
                id, owner
            )
        })
        .collect();
    format!("[{}]", items.join(",")).into_bytes()
}

fn ready_factory() -> Contract {
    let owner = s("root");
    let mut c = Contract::new(owner.clone(), 10);
    c.set_loot_box_id(&owner, s("lootbox")).unwrap();
    c.set_hero_id(&owner, s("hero")).unwrap();
    c
}

#[test]
fn test_new() {
    let contract = Contract::new(s("alice"), 10);
    assert_eq!(*contract.hero_id(), None);
    assert_eq!(*contract.loot_box_id(), None);
}

#[test]
fn test_transfer_ownership_with_not_owner() {
    let mut contract = Contract::new(s("alice"), 10);
    let r = contract.transfer_ownership(&s("bob"), s("alice"));
    assert_eq!(r, Err(FactoryError::Authorization));
    assert_eq!(r.unwrap_err().message(), "Only owner can do this");
}

#[test]
fn test_set_hero_id_with_not_owner() {
    let mut contract = Contract::new(s("alice"), 10);
    let r = contract.set_hero_id(&s("bob"), s("alice"));
    assert_eq!(r, Err(FactoryError::Authorization));
    assert_eq!(*contract.hero_id(), None);
}

#[test]
fn test_set_loot_box_id_with_not_owner() {
    let mut contract = Contract::new(s("alice"), 10);
    let r = contract.set_loot_box_id(&s("bob"), s("alice"));
    assert_eq!(r, Err(FactoryError::Authorization));
    assert_eq!(*contract.loot_box_id(), None);
}

#[test]
fn simulate_purchase_box() {
    let root = s("root");
    let mut factory = Contract::new(root.clone(), 10);
    factory.set_loot_box_id(&root, s("lootbox")).unwrap();

    let query = factory.purchase_box(root.clone(), s("factory")).unwrap();
    assert_eq!(query.loot_box_id, "lootbox");
    assert_eq!(query.account_id, "factory");
    assert_eq!(query.sender, "root");

    let listing = CallResult::Successful(token_json(&["0"], "factory"));
    let transfer = factory.nft_tokens_for_owner_callback(query.sender, 1, listing).unwrap();
    assert_eq!(transfer.loot_box_id, "lootbox");
    assert_eq!(transfer.token_id, "0");
    assert_eq!(transfer.receiver_id, "root");
    assert_eq!(factory.nft_transfer_callback(1, CallResult::Successful(Vec::new())), Ok(()));
}

#[test]
fn simulate_unpack_box() {
    let mut factory = ready_factory();
    let mut minted: Vec<String> = Vec::new();
    for i in 0..10u64 {
        let req = factory.unpack(&s("lootbox"), 1_000 + 7 * i, i.to_string()).unwrap();
        assert_eq!(req.hero_id, "hero");
        assert_eq!(req.receiver_id, i.to_string());
        minted.push(req.token_id);
    }
    minted.sort();
    let mut expected: Vec<String> = (0..10).map(|i| i.to_string()).collect();
    expected.sort();
    assert_eq!(minted, expected);
    assert!(factory.heros_to_be_minted().is_empty());
}

#[test]
fn construct_pool_in_order() {
    let factory = Contract::new(s("root"), 10);
    let expected: Vec<String> = ["0", "1", "2", "3", "4", "5", "6", "7", "8", "9"]
        .iter()
        .map(|x| x.to_string())
        .collect();
    assert_eq!(*factory.heros_to_be_minted(), expected);
    assert_eq!(factory.owner_id(), "root");
}

#[test]
fn construct_empty_and_multi_digit_pools() {
    assert!(Contract::new(s("root"), 0).heros_to_be_minted().is_empty());
    let big = Contract::new(s("root"), 12);
    assert_eq!(big.heros_to_be_minted()[10], "10");
    assert_eq!(big.heros_to_be_minted()[11], "11");
}

#[test]
fn unpack_timestamp_selects_index() {
    let mut factory = ready_factory();
    let req = factory.unpack(&s("lootbox"), 13, s("carol")).unwrap();
    assert_eq!(req.token_id, "3");
    assert_eq!(req.receiver_id, "carol");
    assert_eq!(req.hero_id, "hero");
    let pool = factory.heros_to_be_minted();
    assert_eq!(pool.len(), 9);
    assert!(!pool.contains(&s("3")));
}

#[test]
fn unpack_removes_one_each_time() {
    let mut factory = ready_factory();
    let first = factory.unpack(&s("lootbox"), 4, s("carol")).unwrap();
    assert_eq!(factory.heros_to_be_minted().len(), 9);
    for t in 0..9u64 {
        let next = factory.unpack(&s("lootbox"), t * 31, s("carol")).unwrap();
        assert_ne!(next.token_id, first.token_id);
        assert!(!factory.heros_to_be_minted().contains(&first.token_id));
        assert_eq!(factory.heros_to_be_minted().len(), 8 - t as usize);
    }
}

#[test]
fn unpack_only_by_inventory_service() {
    let mut factory = ready_factory();
    assert_eq!(factory.unpack(&s("root"), 3, s("carol")).unwrap_err(), FactoryError::Authorization);
    assert_eq!(factory.heros_to_be_minted().len(), 10);
}

#[test]
fn unpack_without_services() {
    let owner = s("root");
    let mut factory = Contract::new(owner.clone(), 10);
    assert_eq!(factory.unpack(&s("lootbox"), 3, s("carol")).unwrap_err(), FactoryError::StateNotInitialized);
    factory.set_loot_box_id(&owner, s("lootbox")).unwrap();
    assert_eq!(factory.unpack(&s("lootbox"), 3, s("carol")).unwrap_err(), FactoryError::StateNotInitialized);
    assert_eq!(factory.heros_to_be_minted().len(), 10);
}

#[test]
fn unpack_empty_pool() {
    let owner = s("root");
    let mut factory = Contract::new(owner.clone(), 0);
    factory.set_loot_box_id(&owner, s("lootbox")).unwrap();
    factory.set_hero_id(&owner, s("hero")).unwrap();
    assert_eq!(factory.unpack(&s("lootbox"), 3, s("carol")).unwrap_err(), FactoryError::EmptyInventory);
}

#[test]
fn owner_operations() {
    let mut factory = Contract::new(s("root"), 2);
    factory.transfer_ownership(&s("root"), s("dave")).unwrap();
    assert_eq!(factory.owner_id(), "dave");
    assert_eq!(factory.set_hero_id(&s("root"), s("hero")).unwrap_err(), FactoryError::Authorization);
    factory.set_hero_id(&s("dave"), s("hero")).unwrap();
    factory.set_hero_id(&s("dave"), s("hero2")).unwrap();
    assert_eq!(*factory.hero_id(), Some(s("hero2")));
    assert_eq!(factory.assert_owner(&s("dave")), Ok(()));
    assert_eq!(factory.assert_owner(&s("root")), Err(FactoryError::Authorization));
}

#[test]
fn purchase_without_inventory_service() {
    let factory = Contract::new(s("root"), 10);
    assert_eq!(factory.purchase_box(s("bob"), s("factory")).unwrap_err(), FactoryError::StateNotInitialized);
}

#[test]
fn purchase_sold_out() {
    let factory = ready_factory();
    let r = factory.nft_tokens_for_owner_callback(s("bob"), 1, CallResult::Successful(b"[]".to_vec()));
    assert_eq!(r.unwrap_err(), FactoryError::EmptyInventory);
    assert_eq!(factory.select_box(s("bob"), Vec::new()).unwrap_err(), FactoryError::EmptyInventory);
}

#[test]
fn purchase_picks_first_box() {
    let factory = ready_factory();
    let r = factory
        .nft_tokens_for_owner_callback(s("bob"), 1, CallResult::Successful(token_json(&["5", "6"], "factory")))
        .unwrap();
    assert_eq!(r.token_id, "5");
    assert_eq!(r.receiver_id, "bob");
    assert_eq!(r.loot_box_id, "lootbox");
    let r2 = factory.select_box(s("bob"), vec![s("5"), s("6")]).unwrap();
    assert_eq!(r2.token_id, "5");
}

#[test]
fn purchase_callback_errors() {
    let factory = ready_factory();
    let ok = CallResult::Successful(token_json(&["5"], "factory"));
    assert_eq!(
        factory.nft_tokens_for_owner_callback(s("bob"), 2, ok.clone()).unwrap_err(),
        FactoryError::InvariantViolation
    );
    assert_eq!(
        factory.nft_tokens_for_owner_callback(s("bob"), 0, ok).unwrap_err(),
        FactoryError::InvariantViolation
    );
    assert_eq!(
        factory.nft_tokens_for_owner_callback(s("bob"), 1, CallResult::Failed).unwrap_err(),
        FactoryError::ExternalCall
    );
    assert_eq!(
        factory.nft_tokens_for_owner_callback(s("bob"), 1, CallResult::NotReady).unwrap_err(),
        FactoryError::ExternalCall
    );
    assert_eq!(
        factory
            .nft_tokens_for_owner_callback(s("bob"), 1, CallResult::Successful(b"not json".to_vec()))
            .unwrap_err(),
        FactoryError::InvariantViolation
    );
}

#[test]
fn select_box_without_inventory_service() {
    let factory = Contract::new(s("root"), 10);
    assert_eq!(factory.select_box(s("bob"), vec![s("5")]).unwrap_err(), FactoryError::StateNotInitialized);
}

#[test]
fn transfer_callback_outcomes() {
    let factory = ready_factory();
    assert_eq!(factory.nft_transfer_callback(1, CallResult::Successful(Vec::new())), Ok(()));
    assert_eq!(factory.nft_transfer_callback(1, CallResult::Failed), Err(FactoryError::ExternalCall));
    assert_eq!(
        factory.nft_transfer_callback(2, CallResult::Successful(Vec::new())),
        Err(FactoryError::InvariantViolation)
    );
}

#[test]
fn single_result_dispatch() {
    assert_eq!(resolve_single(1, CallResult::Successful(vec![1, 2])), Ok(vec![1, 2]));
    assert_eq!(resolve_single(3, CallResult::Successful(vec![1])), Err(FactoryError::InvariantViolation));
    assert_eq!(resolve_single(1, CallResult::Failed), Err(FactoryError::ExternalCall));
}

#[test]
fn restored_state_round_trip() {
    let c = Contract::from_parts(s("o"), Some(s("l")), None, vec![s("7")]);
    assert_eq!(c.owner_id(), "o");
    assert_eq!(*c.loot_box_id(), Some(s("l")));
    assert_eq!(*c.hero_id(), None);
    assert_eq!(*c.heros_to_be_minted(), vec![s("7")]);
}

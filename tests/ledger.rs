use badge_ledger::{
    badge_request, initialize_collection, mint_badge, CollectionConfig, ErrorCode, Pubkey,
    BADGE_SYMBOL, ROYALTY_BASIS_POINTS,
};

fn key(b: u8) -> Pubkey {
    Pubkey { bytes: [b; 32] }
}

fn fresh(max_capacity: u64) -> CollectionConfig {
    let mut slot: Option<CollectionConfig> = None;
    initialize_collection(&mut slot, key(1), key(2), 254, max_capacity).unwrap();
    slot.unwrap()
}

#[test]
fn initialize_records_a_fresh_ledger() {
    let mut slot: Option<CollectionConfig> = None;
    assert_eq!(initialize_collection(&mut slot, key(1), key(2), 253, 10), Ok(()));
    let c = slot.unwrap();
    assert_eq!(c.authority, key(1));
    assert_eq!(c.collection_mint, key(2));
    assert_eq!(c.total_minted, 0);
    assert_eq!(c.max_capacity, 10);
    assert_eq!(c.bump, 253);
}

#[test]
fn initialize_twice_is_duplicate_and_keeps_ledger() {
    let mut slot: Option<CollectionConfig> = None;
    initialize_collection(&mut slot, key(1), key(2), 253, 10).unwrap();
    mint_badge(slot.as_mut().unwrap(), true).unwrap();
    let before = slot.unwrap();
    assert_eq!(
        initialize_collection(&mut slot, key(7), key(2), 200, 99),
        Err(ErrorCode::DuplicateLedger)
    );
    assert_eq!(slot, Some(before));
    assert_eq!(slot.unwrap().total_minted, 1);
    assert_eq!(slot.unwrap().max_capacity, 10);
}

#[test]
fn three_badges_then_full() {
    let mut c = fresh(3);
    assert_eq!(c.total_minted, 0);
    assert_eq!(mint_badge(&mut c, true), Ok(0));
    assert_eq!(mint_badge(&mut c, true), Ok(1));
    assert_eq!(mint_badge(&mut c, true), Ok(2));
    assert_eq!(c.total_minted, 3);
    assert_eq!(mint_badge(&mut c, true), Err(ErrorCode::CollectionFull));
    assert_eq!(c.total_minted, 3);
}

#[test]
fn successful_mints_are_numbered_in_order() {
    let mut c = fresh(8);
    for i in 0..5u64 {
        assert_eq!(mint_badge(&mut c, true), Ok(i));
    }
    assert_eq!(c.total_minted, 5);
    assert_eq!(c.max_capacity, 8);
}

#[test]
fn full_ledger_refuses_every_attempt() {
    let mut c = fresh(2);
    mint_badge(&mut c, true).unwrap();
    mint_badge(&mut c, true).unwrap();
    let before = c;
    for ok in [true, false, true] {
        assert_eq!(mint_badge(&mut c, ok), Err(ErrorCode::CollectionFull));
        assert_eq!(c, before);
    }
}

#[test]
fn zero_capacity_refuses_first_mint() {
    let mut c = fresh(0);
    assert_eq!(mint_badge(&mut c, true), Err(ErrorCode::CollectionFull));
    assert_eq!(c.total_minted, 0);
    let r = badge_request(&c, key(3), key(4), "a".to_string(), "b".to_string());
    assert_eq!(r.unwrap_err(), ErrorCode::CollectionFull);
}

#[test]
fn last_badge_goes_to_one_of_two_attempts() {
    let mut c = fresh(4);
    for _ in 0..3 {
        mint_badge(&mut c, true).unwrap();
    }
    let first = mint_badge(&mut c, true);
    let second = mint_badge(&mut c, true);
    assert_eq!(first, Ok(3));
    assert_eq!(second, Err(ErrorCode::CollectionFull));
    assert_eq!(c.total_minted, 4);
}

#[test]
fn collaborator_failure_leaves_counter() {
    let mut c = fresh(3);
    mint_badge(&mut c, true).unwrap();
    assert_eq!(mint_badge(&mut c, false), Err(ErrorCode::CollaboratorFailure));
    assert_eq!(c.total_minted, 1);
    assert_eq!(mint_badge(&mut c, true), Ok(1));
}

#[test]
fn badge_request_describes_next_badge() {
    let mut c = fresh(5);
    mint_badge(&mut c, true).unwrap();
    let q = badge_request(&c, key(3), key(4), "Badge".to_string(), "https://x/1".to_string())
        .unwrap();
    assert_eq!(q.leaf_index, 1);
    assert_eq!(q.leaf_owner, key(3));
    assert_eq!(q.leaf_delegate, key(3));
    assert_eq!(q.payer, key(4));
    assert_eq!(q.tree_creator_or_delegate, key(4));
    assert_eq!(q.collection_authority, key(4));
    let m = q.metadata;
    assert_eq!(m.name, "Badge");
    assert_eq!(m.symbol, "Y100GO");
    assert_eq!(m.symbol, BADGE_SYMBOL);
    assert_eq!(m.uri, "https://x/1");
    assert_eq!(m.seller_fee_basis_points, 500);
    assert_eq!(ROYALTY_BASIS_POINTS, 500);
    assert!(!m.primary_sale_happened);
    assert!(m.is_mutable);
    assert_eq!(m.edition_nonce, Some(0));
    assert_eq!(m.collection.key, key(2));
    assert!(!m.collection.verified);
    assert_eq!(m.creators.len(), 1);
    assert_eq!(m.creators[0].address, key(4));
    assert!(!m.creators[0].verified);
    assert_eq!(m.creators[0].share, 100);
    assert_eq!(c.total_minted, 1);
}

#[test]
fn ledger_record_size() {
    assert_eq!(CollectionConfig::LEN, 89);
}

#[test]
fn mint_is_open_to_any_payer() {
    // No authority check guards minting: a payer other than the recorded
    // authority is served like any other.
    let c = fresh(1);
    assert_ne!(c.authority, key(9));
    let q = badge_request(&c, key(3), key(9), "n".to_string(), "u".to_string()).unwrap();
    assert_eq!(q.payer, key(9));
    assert_eq!(q.collection_authority, key(9));
}

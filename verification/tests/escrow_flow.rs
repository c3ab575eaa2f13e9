use marketx::{
    Address, Contract, ContractError, Effect, EscrowCreatedEvent, EscrowItem, EscrowStatus, Event,
    FundsReleasedEvent, StatusChangeEvent, VolumeUpdatedEvent, MAX_ITEMS_PER_ESCROW, MAX_METADATA_SIZE,
};

const LEDGER: u32 = 5_000;

fn addr(n: u8) -> Address {
    let mut xdr = vec![0u8, 0, 0, 18, 0, 0, 0, 0, 0, 0, 0, 0];
    xdr.extend(std::iter::repeat(n).take(32));
    Address { xdr }
}

fn init(fee_bps: u32) -> (Contract, Address) {
    let mut c = Contract::new();
    let admin = addr(1);
    c.initialize(admin.clone(), admin.clone(), fee_bps, 0, 0, LEDGER).unwrap();
    (c, admin)
}

fn create(
    c: &mut Contract,
    buyer: &Address,
    seller: &Address,
    token: &Address,
    amount: i128,
    metadata: Option<Vec<u8>>,
    arbiter: Option<Address>,
    items: Option<Vec<EscrowItem>>,
) -> Result<u64, ContractError> {
    c.create_escrow(
        buyer.clone(),
        seller.clone(),
        token.clone(),
        amount,
        metadata,
        arbiter,
        items,
        None,
        LEDGER,
    )
    .map(|(id, _)| id)
}

fn events(effects: &[Effect]) -> Vec<Event> {
    effects
        .iter()
        .filter_map(|e| match e {
            Effect::Emit(ev) => Some(ev.clone()),
            _ => None,
        })
        .collect()
}

fn paid_out_to(effects: &[Effect], who: &Address) -> i128 {
    effects
        .iter()
        .map(|e| match e {
            Effect::TransferOut { to, amount, .. } if to == who => *amount,
            _ => 0,
        })
        .sum()
}

fn set_status(c: &mut Contract, id: u64, status: EscrowStatus) {
    let mut e = c.get_escrow(id).unwrap();
    e.status = status;
    c.escrows.insert(id, e);
}

fn item(amount: i128) -> EscrowItem {
    EscrowItem { amount, released: false, description: None }
}

#[test]
fn admin_can_pause_and_unpause() {
    let mut c = Contract::new();
    let admin = addr(1);
    let collector = addr(2);
    c.initialize(admin.clone(), collector, 250, 0, 0, LEDGER).unwrap();

    assert!(!c.is_paused());

    let effects = c.pause().unwrap();
    assert_eq!(effects, vec![Effect::RequireAuth(admin.clone())]);
    assert!(c.is_paused());

    c.unpause().unwrap();
    assert!(!c.is_paused());
}

#[test]
fn admin_rotation_flow() {
    let mut c = Contract::new();
    let admin = addr(1);
    let new_admin = addr(2);
    let collector = addr(3);
    c.initialize(admin.clone(), collector, 250, 0, 0, LEDGER).unwrap();

    c.transfer_admin(new_admin.clone()).unwrap();
    let effects = c.accept_admin().unwrap();
    assert_eq!(effects[0], Effect::RequireAuth(new_admin.clone()));

    assert_eq!(c.get_admin().unwrap(), new_admin);
}

#[test]
fn accept_admin_fails_if_none_proposed() {
    let mut c = Contract::new();
    let admin = addr(1);
    c.initialize(admin, addr(2), 250, 0, 0, LEDGER).unwrap();

    assert_eq!(c.accept_admin(), Err(ContractError::NotProposedAdmin));
}

#[test]
fn escrow_actions_blocked_when_paused() {
    let (mut c, _admin) = init(250);
    c.pause().unwrap();

    assert_eq!(c.fund_escrow(1), Err(ContractError::ContractPaused));
}

#[test]
fn escrow_ids_increment_sequentially() {
    let (mut c, _admin) = init(250);
    let seller = addr(20);
    let token = addr(30);

    let id1 = create(&mut c, &addr(41), &seller, &token, 1000, None, None, None).unwrap();
    let id2 = create(&mut c, &addr(42), &seller, &token, 2000, None, None, None).unwrap();
    let id3 = create(&mut c, &addr(43), &seller, &token, 3000, None, None, None).unwrap();

    assert_eq!(id1, 1);
    assert_eq!(id2, 2);
    assert_eq!(id3, 3);
}

#[test]
fn no_escrow_id_collision() {
    let (mut c, _admin) = init(250);
    let seller = addr(20);
    let token = addr(30);

    let mut ids = Vec::new();
    for n in 0..10u8 {
        let buyer = addr(100 + n);
        let id = create(&mut c, &buyer, &seller, &token, 100, None, None, None).unwrap();
        assert!(!ids.contains(&id));
        ids.push(id);
    }
}

#[test]
fn escrow_counter_overflow_fails() {
    let (mut c, _admin) = init(250);
    c.escrow_counter = u64::MAX;

    let result = create(&mut c, &addr(10), &addr(20), &addr(30), 100, None, None, None);
    assert_eq!(result, Err(ContractError::EscrowIdOverflow));
}

#[test]
fn test_metadata_stored_successfully() {
    let (mut c, _admin) = init(250);
    let buyer = addr(10);
    let metadata = b"order_ref:12345".to_vec();

    let id = create(&mut c, &buyer, &addr(20), &addr(30), 1000, Some(metadata.clone()), None, None).unwrap();

    let escrow = c.get_escrow(id).unwrap();
    assert_eq!(escrow.metadata, Some(metadata.clone()));

    let (retrieved, _) = c.get_escrow_metadata(id, &buyer).unwrap();
    assert_eq!(retrieved.unwrap(), metadata);
}

#[test]
fn test_metadata_none_stored_successfully() {
    let (mut c, _admin) = init(250);
    let buyer = addr(10);

    let id = create(&mut c, &buyer, &addr(20), &addr(30), 1000, None, None, None).unwrap();

    let escrow = c.get_escrow(id).unwrap();
    assert_eq!(escrow.metadata, None);

    let (retrieved, _) = c.get_escrow_metadata(id, &buyer).unwrap();
    assert_eq!(retrieved, None);
}

#[test]
fn test_get_escrow_metadata_for_nonexistent_escrow() {
    let (c, admin) = init(250);

    let (metadata, _) = c.get_escrow_metadata(999, &admin).unwrap();
    assert_eq!(metadata, None);
}

#[test]
fn test_oversized_metadata_rejected() {
    let (mut c, _admin) = init(250);
    let oversized = vec![0u8; (MAX_METADATA_SIZE + 1) as usize];

    let result = create(&mut c, &addr(10), &addr(20), &addr(30), 1000, Some(oversized), None, None);
    assert_eq!(result, Err(ContractError::MetadataTooLarge));
}

#[test]
fn test_metadata_at_max_size_accepted() {
    let (mut c, _admin) = init(250);
    let max_data = vec![0u8; MAX_METADATA_SIZE as usize];

    let id = create(&mut c, &addr(10), &addr(20), &addr(30), 1000, Some(max_data), None, None).unwrap();

    let escrow = c.get_escrow(id).unwrap();
    assert!(escrow.metadata.is_some());
}

#[test]
fn test_duplicate_escrow_rejected() {
    let (mut c, _admin) = init(250);
    let (buyer, seller, token) = (addr(10), addr(20), addr(30));
    let metadata = Some(b"order_ref:12345".to_vec());

    let id1 = create(&mut c, &buyer, &seller, &token, 1000, metadata.clone(), None, None).unwrap();
    assert_eq!(id1, 1);

    let result = create(&mut c, &buyer, &seller, &token, 2000, metadata, None, None);
    assert_eq!(result, Err(ContractError::DuplicateEscrow));
}

#[test]
fn test_distinct_escrows_allowed() {
    let (mut c, _admin) = init(250);
    let (buyer, seller, token) = (addr(10), addr(20), addr(30));
    let metadata1 = Some(b"order_ref:12345".to_vec());
    let metadata2 = Some(b"order_ref:67890".to_vec());

    assert_eq!(create(&mut c, &buyer, &seller, &token, 1000, metadata1.clone(), None, None), Ok(1));
    assert_eq!(create(&mut c, &buyer, &seller, &token, 2000, metadata2, None, None), Ok(2));
    assert_eq!(create(&mut c, &buyer, &seller, &token, 3000, None, None, None), Ok(3));

    let buyer2 = addr(11);
    assert_eq!(create(&mut c, &buyer2, &seller, &token, 4000, metadata1.clone(), None, None), Ok(4));

    let seller2 = addr(21);
    assert_eq!(create(&mut c, &buyer, &seller2, &token, 5000, metadata1, None, None), Ok(5));
}

#[test]
fn test_duplicate_escrow_with_none_metadata() {
    let (mut c, _admin) = init(250);
    let (buyer, seller, token) = (addr(10), addr(20), addr(30));

    assert_eq!(create(&mut c, &buyer, &seller, &token, 1000, None, None, None), Ok(1));

    let result = create(&mut c, &buyer, &seller, &token, 2000, None, None, None);
    assert_eq!(result, Err(ContractError::DuplicateEscrow));
}

#[test]
fn test_escrow_hash_stored_correctly() {
    let (mut c, _admin) = init(250);
    let (buyer, seller, token) = (addr(10), addr(20), addr(30));
    let metadata = Some(b"order_ref:unique_hash_test".to_vec());

    let id = create(&mut c, &buyer, &seller, &token, 1000, metadata.clone(), None, None).unwrap();

    let escrow = c.get_escrow(id).unwrap();
    assert_eq!(escrow.buyer, buyer);
    assert_eq!(escrow.seller, seller);
    assert_eq!(escrow.metadata, metadata);
}

#[test]
fn test_analytics_aggregation() {
    let (mut c, _admin) = init(250);
    let (buyer, seller, token) = (addr(10), addr(20), addr(30));

    assert_eq!(c.get_total_escrows(), 0);
    assert_eq!(c.get_total_funded_amount(), 0);

    create(&mut c, &buyer, &seller, &token, 1000, None, None, None).unwrap();
    create(&mut c, &buyer, &seller, &token, 2500, Some(b"meta1".to_vec()), None, None).unwrap();
    create(&mut c, &buyer, &seller, &token, 500, Some(b"meta2".to_vec()), None, None).unwrap();

    assert_eq!(c.get_total_escrows(), 3);
    assert_eq!(c.get_total_funded_amount(), 4000);
}

#[test]
fn buyer_can_release_escrow() {
    let (mut c, _admin) = init(0);
    let (buyer, seller, token) = (addr(10), addr(20), addr(30));

    let id = create(&mut c, &buyer, &seller, &token, 1000, None, None, None).unwrap();

    let effects = c.release_escrow(id, LEDGER).unwrap();

    assert_eq!(paid_out_to(&effects, &seller), 1000);
    assert_eq!(c.get_escrow(id).unwrap().status, EscrowStatus::Released);
}

#[test]
fn release_fails_if_not_pending() {
    let (mut c, _admin) = init(0);
    let id = create(&mut c, &addr(10), &addr(20), &addr(30), 1000, None, None, None).unwrap();
    set_status(&mut c, id, EscrowStatus::Released);

    assert_eq!(c.release_escrow(id, LEDGER), Err(ContractError::InvalidEscrowState));
}

#[test]
fn release_fails_for_nonexistent_escrow() {
    let (mut c, _admin) = init(0);

    assert_eq!(c.release_escrow(999, LEDGER), Err(ContractError::EscrowNotFound));
}

#[test]
fn buyer_can_fund_escrow() {
    let (mut c, _admin) = init(0);
    let (buyer, seller, token) = (addr(10), addr(20), addr(30));

    let id = create(&mut c, &buyer, &seller, &token, 1000, None, None, None).unwrap();

    let effects = c.fund_escrow(id).unwrap();
    assert_eq!(
        effects,
        vec![
            Effect::RequireAuth(buyer.clone()),
            Effect::TransferIn { token: token.clone(), from: buyer.clone(), amount: 1000 },
        ]
    );

    assert_eq!(c.get_escrow(id).unwrap().status, EscrowStatus::Pending);
}

#[test]
fn fund_fails_if_not_pending() {
    let (mut c, _admin) = init(0);
    let id = create(&mut c, &addr(10), &addr(20), &addr(30), 1000, None, None, None).unwrap();
    set_status(&mut c, id, EscrowStatus::Released);

    assert_eq!(c.fund_escrow(id), Err(ContractError::InvalidEscrowState));
}

#[test]
fn fund_fails_for_nonexistent_escrow() {
    let (mut c, _admin) = init(0);

    assert_eq!(c.fund_escrow(999), Err(ContractError::EscrowNotFound));
}

#[test]
fn seller_can_accept_buyer_cancellation_and_refund_immediately() {
    let (mut c, _admin) = init(0);
    let (buyer, seller, token) = (addr(10), addr(20), addr(30));

    let id = create(&mut c, &buyer, &seller, &token, 1000, None, None, None).unwrap();
    c.fund_escrow(id).unwrap();

    c.propose_cancellation(id, buyer.clone()).unwrap();
    let effects = c.accept_cancellation(id, seller.clone()).unwrap();

    assert_eq!(paid_out_to(&effects, &buyer), 1000);
    assert_eq!(c.get_total_refunded_amount(), 1000);

    let escrow = c.get_escrow(id).unwrap();
    assert_eq!(escrow.status, EscrowStatus::Refunded);
    assert_eq!(escrow.cancellation_proposer, None);
}

#[test]
fn accept_cancellation_fails_without_prior_proposal() {
    let (mut c, _admin) = init(0);
    let (buyer, seller, token) = (addr(10), addr(20), addr(30));

    let id = create(&mut c, &buyer, &seller, &token, 1000, None, None, None).unwrap();

    assert_eq!(c.accept_cancellation(id, seller), Err(ContractError::InvalidEscrowState));
}

#[test]
fn cancellation_fails_after_partial_item_release() {
    let (mut c, _admin) = init(0);
    let (buyer, seller, token) = (addr(10), addr(20), addr(30));

    let id = create(&mut c, &buyer, &seller, &token, 1000, None, None, Some(vec![item(400), item(600)])).unwrap();

    c.release_item(id, 0).unwrap();

    assert_eq!(c.propose_cancellation(id, buyer), Err(ContractError::InvalidEscrowState));
}

#[test]
fn test_create_escrow_stores_arbiter() {
    let (mut c, _admin) = init(250);
    let arbiter = addr(50);

    let id = create(&mut c, &addr(10), &addr(20), &addr(30), 1000, None, Some(arbiter.clone()), None).unwrap();

    assert_eq!(c.get_escrow(id).unwrap().arbiter, Some(arbiter));
}

#[test]
fn test_create_escrow_without_arbiter_stores_none() {
    let (mut c, _admin) = init(250);

    let id = create(&mut c, &addr(10), &addr(20), &addr(30), 1000, None, None, None).unwrap();

    assert_eq!(c.get_escrow(id).unwrap().arbiter, None);
}

#[test]
fn test_create_escrow_emits_indexable_event() {
    let (mut c, _admin) = init(250);
    let (buyer, seller, token, arbiter) = (addr(10), addr(20), addr(30), addr(50));

    let (escrow_id, effects) = c
        .create_escrow(
            buyer.clone(),
            seller.clone(),
            token.clone(),
            1000,
            Some(b"order_ref:indexable".to_vec()),
            Some(arbiter.clone()),
            None,
            None,
            LEDGER,
        )
        .unwrap();

    let expected = EscrowCreatedEvent {
        escrow_id,
        buyer,
        seller,
        token,
        amount: 1000,
        status: EscrowStatus::Pending,
        arbiter: Some(arbiter),
        tracking_id: None,
    };
    assert_eq!(events(&effects), vec![Event::EscrowCreated(expected)]);
}

#[test]
fn test_arbiter_can_resolve_dispute() {
    let (mut c, _admin) = init(0);
    let (buyer, seller, token, arbiter) = (addr(10), addr(20), addr(30), addr(50));

    let id = create(&mut c, &buyer, &seller, &token, 1000, None, Some(arbiter.clone()), None).unwrap();
    set_status(&mut c, id, EscrowStatus::Disputed);

    let effects = c.resolve_dispute(id, 0).unwrap();

    assert_eq!(effects[0], Effect::RequireAuth(arbiter));
    assert_eq!(paid_out_to(&effects, &seller), 1000);
    assert_eq!(c.get_escrow(id).unwrap().status, EscrowStatus::Released);
}

#[test]
fn test_arbiter_can_refund_buyer_on_dispute() {
    let (mut c, _admin) = init(0);
    let (buyer, seller, token, arbiter) = (addr(10), addr(20), addr(30), addr(50));

    let id = create(&mut c, &buyer, &seller, &token, 1000, None, Some(arbiter), None).unwrap();
    set_status(&mut c, id, EscrowStatus::Disputed);

    let effects = c.resolve_dispute(id, 1).unwrap();

    assert_eq!(paid_out_to(&effects, &buyer), 1000);
    assert_eq!(c.get_escrow(id).unwrap().status, EscrowStatus::Refunded);
}

#[test]
fn test_resolve_dispute_emits_status_change_with_actor() {
    let (mut c, _admin) = init(0);
    let (buyer, seller, token, arbiter) = (addr(10), addr(20), addr(30), addr(50));

    let id = create(&mut c, &buyer, &seller, &token, 1000, None, Some(arbiter.clone()), None).unwrap();
    set_status(&mut c, id, EscrowStatus::Disputed);

    let effects = c.resolve_dispute(id, 1).unwrap();

    let expected = StatusChangeEvent {
        escrow_id: id,
        from_status: EscrowStatus::Disputed,
        to_status: EscrowStatus::Refunded,
        actor: arbiter,
    };
    assert_eq!(events(&effects), vec![Event::StatusChange(expected)]);
}

#[test]
fn test_bump_escrow_extends_ttl_to_maximum() {
    let (mut c, _admin) = init(250);

    let id = create(&mut c, &addr(10), &addr(20), &addr(30), 1000, Some(b"ttl-test".to_vec()), None, None).unwrap();

    let effects = c.bump_escrow(id).unwrap();

    assert_eq!(effects[0], Effect::ExtendEscrowTtl(id));
    assert!(matches!(effects[1], Effect::ExtendHashTtl(_)));
}

#[test]
fn test_bump_escrow_rejects_missing_escrow() {
    let (c, _admin) = init(250);

    assert_eq!(c.bump_escrow(999), Err(ContractError::EscrowNotFound));
}

#[test]
fn test_resolve_dispute_fails_if_not_disputed() {
    let (mut c, _admin) = init(0);

    let id = create(&mut c, &addr(10), &addr(20), &addr(30), 1000, None, Some(addr(50)), None).unwrap();

    assert_eq!(c.resolve_dispute(id, 0), Err(ContractError::InvalidEscrowState));
}

#[test]
fn test_resolve_dispute_fails_for_nonexistent_escrow() {
    let (mut c, _admin) = init(0);

    assert_eq!(c.resolve_dispute(999, 0), Err(ContractError::EscrowNotFound));
}

#[test]
fn test_native_xlm_escrow_funding_and_release() {
    let (mut c, _admin) = init(0);
    let (buyer, seller, xlm) = (addr(10), addr(20), addr(77));
    let escrow_amount: i128 = 100_000_000;

    let id = create(&mut c, &buyer, &seller, &xlm, escrow_amount, None, None, None).unwrap();

    let escrow = c.get_escrow(id).unwrap();
    assert_eq!(escrow.token, xlm);
    assert_eq!(escrow.amount, escrow_amount);

    let funded = c.fund_escrow(id).unwrap();
    assert_eq!(funded[1], Effect::TransferIn { token: xlm.clone(), from: buyer.clone(), amount: escrow_amount });

    let released = c.release_escrow(id, LEDGER).unwrap();
    assert_eq!(paid_out_to(&released, &seller), escrow_amount);

    assert_eq!(c.get_escrow(id).unwrap().status, EscrowStatus::Released);
}

#[test]
fn test_native_xlm_dispute_resolution_refund() {
    let (mut c, _admin) = init(0);
    let (buyer, seller, xlm, arbiter) = (addr(10), addr(20), addr(77), addr(50));
    let escrow_amount: i128 = 50_000_000;

    let id = create(&mut c, &buyer, &seller, &xlm, escrow_amount, None, Some(arbiter), None).unwrap();
    set_status(&mut c, id, EscrowStatus::Disputed);

    let effects = c.resolve_dispute(id, 1).unwrap();

    assert_eq!(paid_out_to(&effects, &buyer), escrow_amount);
    assert_eq!(paid_out_to(&effects, &seller), 0);
    assert_eq!(c.get_escrow(id).unwrap().status, EscrowStatus::Refunded);
}

#[test]
fn test_native_xlm_dispute_resolution_release() {
    let (mut c, _admin) = init(0);
    let (buyer, seller, xlm, arbiter) = (addr(10), addr(20), addr(77), addr(50));
    let escrow_amount: i128 = 75_000_000;

    let id = create(&mut c, &buyer, &seller, &xlm, escrow_amount, None, Some(arbiter), None).unwrap();
    set_status(&mut c, id, EscrowStatus::Disputed);

    let effects = c.resolve_dispute(id, 0).unwrap();

    assert_eq!(paid_out_to(&effects, &seller), escrow_amount);
    assert_eq!(paid_out_to(&effects, &buyer), 0);
    assert_eq!(c.get_escrow(id).unwrap().status, EscrowStatus::Released);
}

#[test]
fn test_multi_item_escrow_creation_and_release() {
    let (mut c, _admin) = init(0);
    let (buyer, seller, token) = (addr(10), addr(20), addr(30));
    let items = vec![item(30_000_000), item(40_000_000), item(30_000_000)];
    let total_amount: i128 = 100_000_000;

    let id = create(&mut c, &buyer, &seller, &token, total_amount, None, None, Some(items)).unwrap();

    let escrow = c.get_escrow(id).unwrap();
    assert_eq!(escrow.amount, total_amount);
    assert_eq!(escrow.items.len(), 3);

    let stored = c.get_escrow_items(id).unwrap();
    assert_eq!(stored.len(), 3);
    assert_eq!(stored[0].amount, 30_000_000);
    assert_eq!(stored[1].amount, 40_000_000);
    assert_eq!(stored[2].amount, 30_000_000);

    let mut seller_balance: i128 = 0;

    let effects = c.release_item(id, 0).unwrap();
    seller_balance += paid_out_to(&effects, &seller);
    let escrow = c.get_escrow(id).unwrap();
    assert!(escrow.items[0].released);
    assert!(!escrow.items[1].released);
    assert!(!escrow.items[2].released);
    assert_eq!(seller_balance, 30_000_000);
    assert_eq!(escrow.status, EscrowStatus::Pending);

    let effects = c.release_item(id, 1).unwrap();
    seller_balance += paid_out_to(&effects, &seller);
    let escrow = c.get_escrow(id).unwrap();
    assert!(escrow.items[0].released);
    assert!(escrow.items[1].released);
    assert!(!escrow.items[2].released);
    assert_eq!(seller_balance, 70_000_000);
    assert_eq!(escrow.status, EscrowStatus::Pending);

    let effects = c.release_item(id, 2).unwrap();
    seller_balance += paid_out_to(&effects, &seller);
    let escrow = c.get_escrow(id).unwrap();
    assert!(escrow.items[0].released);
    assert!(escrow.items[1].released);
    assert!(escrow.items[2].released);
    assert_eq!(seller_balance, 100_000_000);
    assert_eq!(escrow.status, EscrowStatus::Released);
}

#[test]
fn test_release_item_already_released_fails() {
    let (mut c, _admin) = init(0);

    let id = create(&mut c, &addr(10), &addr(20), &addr(30), 50_000_000, None, None, Some(vec![item(50_000_000)])).unwrap();

    c.release_item(id, 0).unwrap();

    assert_eq!(c.release_item(id, 0), Err(ContractError::ItemAlreadyReleased));
}

#[test]
fn test_release_item_invalid_index_fails() {
    let (mut c, _admin) = init(0);

    let id = create(&mut c, &addr(10), &addr(20), &addr(30), 50_000_000, None, None, Some(vec![item(50_000_000)])).unwrap();

    assert_eq!(c.release_item(id, 5), Err(ContractError::ItemNotFound));
}

#[test]
fn test_item_amounts_must_sum_to_total() {
    let (mut c, _admin) = init(0);
    let items = vec![item(30_000_000), item(40_000_000)];

    let result = create(&mut c, &addr(10), &addr(20), &addr(30), 100_000_000, None, None, Some(items));
    assert_eq!(result, Err(ContractError::ItemAmountInvalid));
}

#[test]
fn test_too_many_items_rejected() {
    let (mut c, _admin) = init(0);
    let items: Vec<EscrowItem> = (0..=MAX_ITEMS_PER_ESCROW).map(|_| item(1)).collect();
    let total = items.len() as i128;

    let result = create(&mut c, &addr(10), &addr(20), &addr(30), total, None, None, Some(items));
    assert_eq!(result, Err(ContractError::TooManyItems));
}

#[test]
fn test_escrow_without_items_uses_full_release() {
    let (mut c, _admin) = init(0);
    let (buyer, seller, token) = (addr(10), addr(20), addr(30));

    let id = create(&mut c, &buyer, &seller, &token, 1000, None, None, None).unwrap();
    assert_eq!(c.get_escrow(id).unwrap().items.len(), 0);

    let effects = c.release_escrow(id, LEDGER).unwrap();

    assert_eq!(paid_out_to(&effects, &seller), 1000);
    assert_eq!(c.get_escrow(id).unwrap().status, EscrowStatus::Released);
    assert!(events(&effects).contains(&Event::FundsReleased(FundsReleasedEvent { escrow_id: id, amount: 1000, fee: 0 })));
}

#[test]
fn test_upgrade_state_persistence() {
    let (mut c, _admin) = init(500);

    let id = create(&mut c, &addr(10), &addr(20), &addr(30), 1000, None, None, None).unwrap();
    assert_eq!(c.get_escrow(id).unwrap().amount, 1000);

    let new_wasm_hash = vec![0u8; 32];
    let effects = c.upgrade(new_wasm_hash.clone()).unwrap();
    assert_eq!(effects[1], Effect::UpdateWasm(new_wasm_hash));

    assert_eq!(c.get_escrow(id).unwrap().amount, 1000);
}

#[test]
fn test_release_emits_funds_and_status_change_events() {
    let (mut c, _admin) = init(0);
    let (buyer, seller, token) = (addr(10), addr(20), addr(30));

    let id = create(&mut c, &buyer, &seller, &token, 1000, None, None, None).unwrap();
    let effects = c.release_escrow(id, LEDGER).unwrap();

    // The release event and the status change, in that order; the release
    // also reports the buyer's new volume for indexing.
    assert_eq!(
        events(&effects),
        vec![
            Event::FundsReleased(FundsReleasedEvent { escrow_id: id, amount: 1000, fee: 0 }),
            Event::StatusChange(StatusChangeEvent {
                escrow_id: id,
                from_status: EscrowStatus::Pending,
                to_status: EscrowStatus::Released,
                actor: buyer.clone(),
            }),
            Event::VolumeUpdated(VolumeUpdatedEvent { buyer, added_amount: 1000, new_volume: 1000 }),
        ]
    );
}

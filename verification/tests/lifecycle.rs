use marketx::{
    Address, BulkEscrowRequest, Contract, ContractError, DeliveryVerifiedEvent, Effect,
    EscrowExpiredEvent, EscrowItem, EscrowStatus, Event, MetadataVisibility, RefundReason,
    RefundStatus, UNFUNDED_EXPIRY_LEDGERS,
};

const LEDGER: u32 = 5_000;

fn addr(n: u8) -> Address {
    let mut xdr = vec![0u8, 0, 0, 18, 0, 0, 0, 0, 0, 0, 0, 0];
    xdr.extend(std::iter::repeat(n).take(32));
    Address { xdr }
}

fn zero_addr() -> Address {
    Address { xdr: vec![0u8; 44] }
}

fn init(fee_bps: u32) -> (Contract, Address) {
    let mut c = Contract::new();
    let admin = addr(1);
    c.initialize(admin.clone(), admin.clone(), fee_bps, 0, 0, LEDGER).unwrap();
    (c, admin)
}

fn create(c: &mut Contract, buyer: u8, seller: u8, amount: i128) -> u64 {
    c.create_escrow(addr(buyer), addr(seller), addr(9), amount, None, None, None, None, LEDGER)
        .unwrap()
        .0
}

fn request(seller: u8, amount: i128) -> BulkEscrowRequest {
    BulkEscrowRequest { seller: addr(seller), amount, metadata: None, arbiter: None, items: None }
}

#[test]
fn initialize_rejects_zero_address() {
    let mut c = Contract::new();
    assert_eq!(
        c.initialize(zero_addr(), addr(2), 100, 0, 0, LEDGER),
        Err(ContractError::ZeroAddress)
    );
    assert_eq!(c.get_admin(), None);
}

#[test]
fn create_rejects_zero_parties_and_bad_amounts() {
    let (mut c, _) = init(0);
    assert_eq!(
        c.create_escrow(zero_addr(), addr(3), addr(9), 10, None, None, None, None, LEDGER),
        Err(ContractError::ZeroAddress)
    );
    assert_eq!(
        c.create_escrow(addr(2), addr(3), addr(9), 0, None, None, None, None, LEDGER),
        Err(ContractError::InvalidEscrowAmount)
    );
    assert_eq!(
        c.create_escrow(addr(2), addr(3), addr(9), -1, None, None, None, None, LEDGER),
        Err(ContractError::InvalidEscrowAmount)
    );
    assert_eq!(c.get_total_escrows(), 0);
}

#[test]
fn error_codes_are_stable() {
    assert_eq!(ContractError::NotAdmin.code(), 1);
    assert_eq!(ContractError::EscrowNotFound.code(), 10);
    assert_eq!(ContractError::ZeroAddress.code(), 12);
    assert_eq!(ContractError::ContractPaused.code(), 31);
    assert_eq!(ContractError::DuplicateEscrow.code(), 70);
    assert_eq!(ContractError::ItemAlreadyReleased.code(), 81);
    assert_eq!(ContractError::EscrowNotExpired.code(), 90);
}

#[test]
fn bulk_creation_issues_consecutive_ids() {
    let (mut c, _) = init(0);
    create(&mut c, 2, 3, 10);
    let (ids, _) = c
        .create_bulk_escrows(addr(2), addr(9), vec![request(4, 10), request(5, 20), request(6, 30)], LEDGER)
        .unwrap();
    assert_eq!(ids, vec![2, 3, 4]);
    assert_eq!(c.get_total_escrows(), 4);
    assert_eq!(c.get_escrow(3).unwrap().amount, 20);
    assert_eq!(c.get_total_funded_amount(), 70);
}

#[test]
fn bulk_creation_is_all_or_nothing() {
    let (mut c, _) = init(0);
    let r = c.create_bulk_escrows(
        addr(2),
        addr(9),
        vec![request(4, 10), request(5, 0), request(6, 30)],
        LEDGER,
    );
    assert_eq!(r, Err(ContractError::InvalidEscrowAmount));
    assert_eq!(c.get_total_escrows(), 0);
    assert!(c.get_escrow(1).is_none());
    // The first request left no duplicate-detection hash behind.
    assert!(c.create_bulk_escrows(addr(2), addr(9), vec![request(4, 10)], LEDGER).is_ok());
}

#[test]
fn bulk_creation_refuses_duplicates_within_the_batch() {
    let (mut c, _) = init(0);
    let r = c.create_bulk_escrows(addr(2), addr(9), vec![request(4, 10), request(4, 20)], LEDGER);
    assert_eq!(r, Err(ContractError::DuplicateEscrow));
    assert_eq!(c.get_total_escrows(), 0);
}

#[test]
fn unfunded_escrow_expires_and_frees_its_hash() {
    let (mut c, _) = init(0);
    let id = create(&mut c, 2, 3, 10);
    assert_eq!(
        c.cancel_unfunded(id, LEDGER + UNFUNDED_EXPIRY_LEDGERS - 1),
        Err(ContractError::EscrowNotExpired)
    );
    let effects = c.cancel_unfunded(id, LEDGER + UNFUNDED_EXPIRY_LEDGERS).unwrap();
    assert_eq!(
        effects,
        vec![Effect::Emit(Event::EscrowExpired(EscrowExpiredEvent {
            escrow_id: id,
            buyer: addr(2),
            seller: addr(3),
        }))]
    );
    assert!(c.get_escrow(id).is_none());
    assert_eq!(c.cancel_unfunded(id, u32::MAX), Err(ContractError::EscrowNotFound));
    // The same parties may open a new escrow now.
    assert_eq!(create(&mut c, 2, 3, 10), 2);
}

#[test]
fn released_escrow_cannot_expire() {
    let (mut c, _) = init(0);
    let id = create(&mut c, 2, 3, 10);
    c.release_escrow(id, LEDGER).unwrap();
    assert_eq!(c.cancel_unfunded(id, u32::MAX), Err(ContractError::EscrowAlreadyFunded));
}

#[test]
fn oracle_verifies_delivery() {
    let (mut c, admin) = init(500);
    let oracle = addr(7);
    let id = c
        .create_escrow(addr(2), addr(3), addr(9), 10_000, None, None, None, Some(b"TRK-1".to_vec()), LEDGER)
        .unwrap()
        .0;
    assert_eq!(c.verify_delivery(id), Err(ContractError::NotOracle));
    c.set_oracle(oracle.clone()).unwrap();
    assert_eq!(c.get_oracle(), Some(oracle.clone()));
    let effects = c.verify_delivery(id).unwrap();
    assert_eq!(effects[0], Effect::RequireAuth(oracle));
    assert_eq!(
        effects[1],
        Effect::TransferOut { token: addr(9), to: addr(3), amount: 9_500 }
    );
    assert!(effects.contains(&Effect::Emit(Event::DeliveryVerified(DeliveryVerifiedEvent {
        escrow_id: id,
        tracking_id: b"TRK-1".to_vec(),
    }))));
    assert_eq!(c.get_escrow(id).unwrap().status, EscrowStatus::Released);
    assert_eq!(c.get_pending_fee(&admin, &addr(9)), 500);
    assert_eq!(c.verify_delivery(id), Err(ContractError::InvalidEscrowState));
}

#[test]
fn delivery_needs_tracking_id() {
    let (mut c, _) = init(500);
    c.set_oracle(addr(7)).unwrap();
    let id = create(&mut c, 2, 3, 10_000);
    assert_eq!(c.verify_delivery(id), Err(ContractError::Unauthorized));
}

#[test]
fn refund_request_opens_dispute_and_resolution_approves_it() {
    let (mut c, _) = init(0);
    let id = create(&mut c, 2, 3, 1_000);
    assert_eq!(
        c.refund_escrow(id, addr(3), 100, RefundReason::Other, vec![1, 2], 77).map(|r| r.0),
        Err(ContractError::Unauthorized)
    );
    assert_eq!(
        c.refund_escrow(id, addr(2), 1_001, RefundReason::Other, vec![1, 2], 77).map(|r| r.0),
        Err(ContractError::InvalidEscrowAmount)
    );
    let (req, _) = c
        .refund_escrow(id, addr(2), 400, RefundReason::ProductDefective, vec![1, 2], 77)
        .unwrap();
    assert_eq!(req, 1);
    assert_eq!(c.get_refund_count(), 1);
    assert_eq!(c.get_escrow(id).unwrap().status, EscrowStatus::Disputed);
    let r = c.get_refund_request(req).unwrap();
    assert_eq!(r.status, RefundStatus::Pending);
    assert_eq!(r.amount, 400);

    let effects = c.resolve_dispute(id, 1).unwrap();
    assert!(effects.contains(&Effect::TransferOut { token: addr(9), to: addr(2), amount: 1_000 }));
    assert_eq!(c.get_refund_request(req).unwrap().status, RefundStatus::Approved);
    assert_eq!(c.get_escrow(id).unwrap().status, EscrowStatus::Refunded);
    assert_eq!(c.get_total_refunded_amount(), 1_000);
}

#[test]
fn resolution_must_be_zero_or_one() {
    let (mut c, _) = init(0);
    let id = create(&mut c, 2, 3, 1_000);
    c.refund_escrow(id, addr(2), 400, RefundReason::Other, vec![], 1).unwrap();
    assert_eq!(c.resolve_dispute(id, 2), Err(ContractError::InvalidEscrowState));
    let effects = c.resolve_dispute(id, 0).unwrap();
    assert!(effects.contains(&Effect::TransferOut { token: addr(9), to: addr(3), amount: 1_000 }));
    assert_eq!(c.get_refund_request(1).unwrap().status, RefundStatus::Rejected);
    assert_eq!(c.get_total_released_amount(), 1_000);
}

#[test]
fn get_escrows_pages_through_ids() {
    let (mut c, _) = init(0);
    for s in 3..8u8 {
        create(&mut c, 2, s, 10 * s as i128);
    }
    let page = c.get_escrows(2, 2);
    assert_eq!(page.len(), 2);
    assert_eq!(page[0].as_ref().unwrap().amount, 40);
    assert_eq!(page[1].as_ref().unwrap().amount, 50);
    assert_eq!(c.get_escrows(4, 10).len(), 2);
    assert!(c.get_escrows(0, 3).is_empty());
    assert!(c.get_escrows(6, 3).is_empty());
    c.cancel_unfunded(1, u32::MAX).unwrap();
    let page = c.get_escrows(1, 2);
    assert!(page[0].is_none());
    assert!(page[1].is_some());
}

#[test]
fn metadata_visibility() {
    let (mut c, admin) = init(0);
    let id = c
        .create_escrow(addr(2), addr(3), addr(9), 10, Some(b"secret".to_vec()), Some(addr(4)), None, None, LEDGER)
        .unwrap()
        .0;
    let stranger = addr(6);
    assert_eq!(c.get_escrow_metadata(id, &stranger), Err(ContractError::MetadataAccessDenied));
    for who in [addr(2), addr(3), addr(4), admin] {
        let (m, effects) = c.get_escrow_metadata(id, &who).unwrap();
        assert_eq!(m, Some(b"secret".to_vec()));
        assert_eq!(effects, vec![Effect::RequireAuth(who)]);
    }
    c.set_metadata_visibility(id, MetadataVisibility::Public).unwrap();
    let (m, effects) = c.get_escrow_metadata(id, &stranger).unwrap();
    assert_eq!(m, Some(b"secret".to_vec()));
    assert!(effects.is_empty());
    assert_eq!(c.get_escrow_metadata(99, &stranger), Ok((None, vec![])));
}

#[test]
fn checked_operations_report_traps() {
    let (mut c, _) = init(0);
    let id = create(&mut c, 2, 3, 10);
    c.total_released = i128::MAX;
    let before = c.get_escrow(id);
    assert_eq!(c.release_escrow_checked(id, LEDGER), None);
    assert_eq!(c.get_escrow(id), before);
    assert_eq!(c.release_item_checked(id, 0), Some(Err(ContractError::ItemNotFound)));

    let (mut c, _) = init(0);
    c.total_funded = i128::MAX;
    assert_eq!(
        c.create_escrow_checked(addr(2), addr(3), addr(9), 1, None, None, None, None, LEDGER),
        None
    );
    assert_eq!(c.get_total_escrows(), 0);

    let (mut c, _) = init(0);
    let items = vec![
        EscrowItem { amount: i128::MAX, released: false, description: None },
        EscrowItem { amount: 1, released: false, description: None },
    ];
    assert_eq!(
        c.create_escrow_checked(addr(2), addr(3), addr(9), 5, None, None, Some(items), None, LEDGER),
        None
    );
}

#[test]
fn cancellation_by_both_parties_refunds_buyer() {
    let (mut c, _) = init(0);
    let id = create(&mut c, 2, 3, 700);
    assert_eq!(c.propose_cancellation(id, addr(6)), Err(ContractError::Unauthorized));
    c.propose_cancellation(id, addr(3)).unwrap();
    assert_eq!(c.accept_cancellation(id, addr(3)), Err(ContractError::Unauthorized));
    let effects = c.accept_cancellation(id, addr(2)).unwrap();
    assert!(effects.contains(&Effect::TransferOut { token: addr(9), to: addr(2), amount: 700 }));
    assert_eq!(c.get_escrow(id).unwrap().status, EscrowStatus::Refunded);
    assert_eq!(c.get_total_refunded_amount(), 700);
}

#[test]
fn proposing_after_the_other_party_cancels_at_once() {
    let (mut c, _) = init(0);
    let id = create(&mut c, 2, 3, 700);
    c.propose_cancellation(id, addr(2)).unwrap();
    c.propose_cancellation(id, addr(3)).unwrap();
    assert_eq!(c.get_escrow(id).unwrap().status, EscrowStatus::Refunded);
}

#[test]
fn paused_contract_still_reads_and_withdraws() {
    let (mut c, _) = init(0);
    let id = create(&mut c, 2, 3, 700);
    c.pause().unwrap();
    assert_eq!(c.release_escrow(id, LEDGER), Err(ContractError::ContractPaused));
    assert_eq!(c.release_item(id, 0), Err(ContractError::ContractPaused));
    assert_eq!(c.propose_cancellation(id, addr(2)), Err(ContractError::ContractPaused));
    assert!(c.get_escrow(id).is_some());
    assert!(c.bump_escrow(id).is_ok());
    c.unpause().unwrap();
    assert!(c.release_escrow(id, LEDGER).is_ok());
}

#[test]
fn non_admin_configuration_refused_without_admin() {
    let mut c = Contract::new();
    assert_eq!(c.pause(), Err(ContractError::NotAdmin));
    assert_eq!(c.set_fee_percentage(10), Err(ContractError::NotAdmin));
    assert_eq!(c.add_fee_whitelist(addr(2)), Err(ContractError::NotAdmin));
    assert_eq!(c.upgrade(vec![7u8; 32]), Err(ContractError::NotAdmin));
}

fn books(c: &Contract) -> i128 {
    c.get_total_funded_amount() - c.get_total_released_amount() - c.get_total_refunded_amount()
}

#[test]
fn books_track_what_is_held() {
    let (mut c, _) = init(500);
    let buyer = addr(2);
    let seller = addr(3);
    let arbiter = addr(4);
    assert_eq!(books(&c), 0);

    let id1 = c
        .create_escrow(buyer.clone(), seller.clone(), addr(9), 1000, None, None, None, None, LEDGER)
        .unwrap()
        .0;
    c.fund_escrow(id1).unwrap();
    assert_eq!(books(&c), 1000);

    let id2 = c
        .create_escrow(buyer.clone(), seller.clone(), addr(9), 2000, Some(b"2".to_vec()), Some(arbiter.clone()), None, None, LEDGER)
        .unwrap()
        .0;
    c.fund_escrow(id2).unwrap();
    assert_eq!(books(&c), 3000);

    c.release_escrow(id1, LEDGER).unwrap();
    assert_eq!(books(&c), 2000);

    c.refund_escrow(id2, buyer.clone(), 2000, RefundReason::ProductNotReceived, b"evidence".to_vec(), 1)
        .unwrap();
    assert_eq!(books(&c), 2000);
    let effects = c.resolve_dispute(id2, 1).unwrap();
    assert_eq!(effects[0], Effect::RequireAuth(arbiter));
    assert_eq!(books(&c), 0);
}

#[test]
fn item_releases_move_the_books_item_by_item() {
    let (mut c, _) = init(0);
    let items = vec![
        EscrowItem { amount: 300, released: false, description: None },
        EscrowItem { amount: 700, released: false, description: Some(b"second".to_vec()) },
    ];
    let id = c
        .create_escrow(addr(2), addr(3), addr(9), 1000, None, None, Some(items), None, LEDGER)
        .unwrap()
        .0;
    c.release_item(id, 1).unwrap();
    assert_eq!(books(&c), 300);
    assert_eq!(c.get_escrow(id).unwrap().status, EscrowStatus::Pending);
    c.release_item(id, 0).unwrap();
    assert_eq!(books(&c), 0);
    assert_eq!(c.get_escrow(id).unwrap().status, EscrowStatus::Released);
    assert_eq!(c.release_item(id, 0), Err(ContractError::ItemAlreadyReleased));
}

#[test]
fn funded_escrow_cannot_be_cancelled_as_unfunded() {
    let (mut c, _) = init(0);
    let id = create(&mut c, 2, 3, 10);
    assert!(!c.get_escrow(id).unwrap().funded);
    c.fund_escrow(id).unwrap();
    assert!(c.get_escrow(id).unwrap().funded);
    assert_eq!(c.cancel_unfunded(id, u32::MAX), Err(ContractError::EscrowAlreadyFunded));
    assert!(c.get_escrow(id).is_some());
    // Funding by a third party counts as well.
    let id2 = create(&mut c, 2, 4, 10);
    c.fund_escrow_by(id2, &addr(8)).unwrap();
    assert_eq!(c.cancel_unfunded(id2, u32::MAX), Err(ContractError::EscrowAlreadyFunded));
}

#[test]
fn release_item_checks_status_before_index() {
    let (mut c, _) = init(0);
    let id = create(&mut c, 2, 3, 10);
    c.release_escrow(id, LEDGER).unwrap();
    assert_eq!(c.release_item(id, 5), Err(ContractError::InvalidEscrowState));
}

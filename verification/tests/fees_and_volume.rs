use marketx::fees::{calculate_fee_bps_safe, cap_fee, release_fee, saturating_add_i128};
use marketx::hashing::generate_escrow_hash;
use marketx::volume::{add_volume, should_reset_volume};
use marketx::{
    Address, Contract, ContractError, Effect, Event, FeeCollectedEvent, FeesWithdrawnEvent,
    VolumeTierConfig, VolumeUpdatedEvent, VOLUME_RESET_INTERVAL,
};

const LEDGER: u32 = 5_000;
const FEE_BPS: u32 = 500;

fn addr(n: u8) -> Address {
    let mut xdr = vec![0u8, 0, 0, 18, 0, 0, 0, 0, 0, 0, 0, 0];
    xdr.extend(std::iter::repeat(n).take(32));
    Address { xdr }
}

/// A contract whose admin (address 1) also collects the fees.
fn setup(fee_bps: u32, min_fee: i128, max_fee: i128) -> (Contract, Address) {
    let mut c = Contract::new();
    let admin = addr(1);
    c.initialize(admin.clone(), admin.clone(), fee_bps, min_fee, max_fee, LEDGER).unwrap();
    (c, admin)
}

fn create_and_release(c: &mut Contract, buyer: &Address, seller: &Address, token: &Address, amount: i128) -> Vec<Effect> {
    let (id, _) = c
        .create_escrow(buyer.clone(), seller.clone(), token.clone(), amount, None, None, None, None, LEDGER)
        .unwrap();
    c.fund_escrow(id).unwrap();
    c.release_escrow(id, LEDGER).unwrap()
}

fn paid_out_to(effects: &[Effect], who: &Address) -> i128 {
    effects
        .iter()
        .map(|e| match e {
            Effect::TransferOut { to, amount, .. } if to == who => *amount,
            _ => 0,
        })
        .sum()
}

#[test]
fn test_exact_division() {
    let (mut c, admin) = setup(FEE_BPS, 0, 0);
    let buyer = addr(2);
    create_and_release(&mut c, &buyer, &admin, &addr(9), 10_000);
    assert_eq!(c.get_total_fees_collected(), 500);
}

#[test]
fn test_remainder_handled_correctly() {
    let (mut c, admin) = setup(FEE_BPS, 0, 0);
    let buyer = addr(2);
    create_and_release(&mut c, &buyer, &admin, &addr(9), 10_001);
    assert_eq!(c.get_total_fees_collected(), 500);
}

#[test]
fn test_large_amount_no_overflow() {
    let (mut c, admin) = setup(FEE_BPS, 0, 0);
    let buyer = addr(2);
    let (id, _) = c
        .create_escrow(buyer, admin, addr(9), 1_000_000_000, None, None, None, None, LEDGER)
        .unwrap();
    c.fund_escrow(id).unwrap();
    assert!(c.release_escrow(id, LEDGER).is_ok());
}

#[test]
fn test_zero_fee_bps_returns_zero() {
    let (mut c, admin) = setup(FEE_BPS, 0, 0);
    c.set_fee_percentage(0).unwrap();
    let buyer = addr(2);
    create_and_release(&mut c, &buyer, &admin, &addr(9), 10_000);
    assert_eq!(c.get_total_fees_collected(), 0);
}

#[test]
fn test_volume_updated_after_escrow_release() {
    let (mut c, _admin) = setup(FEE_BPS, 0, 0);
    let buyer = addr(2);
    let seller = addr(3);
    let effects = create_and_release(&mut c, &buyer, &seller, &addr(9), 100_000);
    assert_eq!(c.buyer_volume(&buyer, LEDGER), 100_000);
    assert!(effects.contains(&Effect::Emit(Event::VolumeUpdated(VolumeUpdatedEvent {
        buyer: buyer.clone(),
        added_amount: 100_000,
        new_volume: 100_000,
    }))));
}

#[test]
fn test_whitelist_prevents_fee() {
    let (mut c, _admin) = setup(FEE_BPS, 0, 0);
    let buyer = addr(2);
    let seller = addr(3);
    c.add_fee_whitelist(buyer.clone()).unwrap();
    let effects = create_and_release(&mut c, &buyer, &seller, &addr(9), 1_000_000);
    assert_eq!(paid_out_to(&effects, &seller), 1_000_000);
    assert_eq!(c.get_total_fees_collected(), 0);
}

#[test]
fn test_default_tiers_set_on_initialize() {
    let (c, _admin) = setup(FEE_BPS, 0, 0);
    let tiers = c.volume_tiers();
    assert_eq!(tiers.tier_1_threshold, 100_000);
    assert_eq!(tiers.tier_2_threshold, 1_000_000);
    assert_eq!(tiers.tier_3_threshold, 10_000_000);
    assert_eq!(tiers.tier_1_discount_bps, 100);
    assert_eq!(tiers.tier_2_discount_bps, 250);
    assert_eq!(tiers.tier_3_discount_bps, 500);
}

#[test]
fn fee_formula_exact_values() {
    assert_eq!(calculate_fee_bps_safe(10_000, 500), 500);
    assert_eq!(calculate_fee_bps_safe(10_001, 500), 500);
    // floor(9 999 * 500 / 10 000) = floor(499.95) = 499.
    assert_eq!(calculate_fee_bps_safe(9_999, 500), 499);
    assert_eq!(calculate_fee_bps_safe(123_456_789, 250), 3_086_419);
    assert_eq!(calculate_fee_bps_safe(0, 500), 0);
    assert_eq!(calculate_fee_bps_safe(-5, 500), 0);
    assert_eq!(calculate_fee_bps_safe(10_000, 0), 0);
}

#[test]
fn fee_formula_never_overflows() {
    // floor(i128::MAX * 1000 / 10000) fits, and is computed exactly.
    let expected = (i128::MAX / 10_000) * 1_000 + ((i128::MAX % 10_000) * 1_000) / 10_000;
    assert_eq!(calculate_fee_bps_safe(i128::MAX, 1_000), expected);
    // A rate above 100% saturates instead of wrapping.
    assert_eq!(calculate_fee_bps_safe(i128::MAX, u32::MAX), i128::MAX);
}

#[test]
fn cap_fee_bounds() {
    assert_eq!(cap_fee(5, 10, 0, 1_000), 10);
    assert_eq!(cap_fee(500, 0, 100, 1_000), 100);
    assert_eq!(cap_fee(500, 0, 0, 1_000), 500);
    assert_eq!(cap_fee(50, 100, 0, 60), 60);
}

#[test]
fn release_fee_discount_and_whitelist() {
    assert_eq!(release_fee(1_000_000, true, 500, 0, 0, 0), 0);
    assert_eq!(release_fee(1_000_000, false, 500, 100, 0, 0), 40_000);
    // The discount is capped at 500 basis points and never drives the rate below zero.
    assert_eq!(release_fee(1_000_000, false, 800, 900, 0, 0), 30_000);
    assert_eq!(release_fee(1_000_000, false, 200, 300, 0, 0), 0);
    assert_eq!(release_fee(1_000_000, false, 200, 300, 7, 0), 7);
}

#[test]
fn saturating_helpers() {
    assert_eq!(saturating_add_i128(i128::MAX, 1), i128::MAX);
    assert_eq!(saturating_add_i128(i128::MIN, -1), i128::MIN);
    assert_eq!(saturating_add_i128(2, 3), 5);
    assert_eq!(add_volume(i128::MAX - 1, 10), i128::MAX);
    assert_eq!(add_volume(100_000, 50_000), 150_000);
}

#[test]
fn volume_period_runs_out() {
    assert!(!should_reset_volume(VOLUME_RESET_INTERVAL - 1, 0));
    assert!(should_reset_volume(VOLUME_RESET_INTERVAL, 0));
    assert!(!should_reset_volume(10, 20));
}

#[test]
fn tiers_follow_thresholds() {
    let t = VolumeTierConfig::default();
    assert_eq!(t, VolumeTierConfig::standard(0));
    assert_eq!(t.get_tier(99_999), 0);
    assert_eq!(t.get_tier(100_000), 1);
    assert_eq!(t.get_tier(200_000), 1);
    assert_eq!(t.get_tier(1_000_000), 2);
    assert_eq!(t.get_tier(10_000_000), 3);
    assert_eq!(t.get_discount_bps(0), 0);
    assert_eq!(t.get_discount_bps(1), 100);
    assert_eq!(t.get_discount_bps(2), 250);
    assert_eq!(t.get_discount_bps(3), 500);
}

#[test]
fn volume_discount_lowers_later_fees() {
    let (mut c, _admin) = setup(FEE_BPS, 0, 0);
    let buyer = addr(2);
    // 1 000 000 of volume reaches tier 2: 250 bps off the 500 bps rate.
    create_and_release(&mut c, &buyer, &addr(3), &addr(9), 1_000_000);
    assert_eq!(c.get_total_fees_collected(), 50_000);
    assert_eq!(c.buyer_tier(&buyer, LEDGER), 2);
    let effects = create_and_release(&mut c, &buyer, &addr(4), &addr(9), 1_000_000);
    assert_eq!(paid_out_to(&effects, &addr(4)), 975_000);
    assert_eq!(c.get_total_fees_collected(), 75_000);
    assert_eq!(c.buyer_volume(&buyer, LEDGER), 2_000_000);
    // After a whole volume period the volume counts as zero again.
    assert_eq!(c.buyer_volume(&buyer, LEDGER + VOLUME_RESET_INTERVAL), 0);
}

#[test]
fn native_fee_overrides_rate() {
    let (mut c, _admin) = setup(FEE_BPS, 0, 0);
    let native = addr(8);
    c.set_native_fee(native.clone(), 100).unwrap();
    let effects = create_and_release(&mut c, &addr(2), &addr(3), &native, 10_000);
    assert_eq!(paid_out_to(&effects, &addr(3)), 9_900);
    assert_eq!(c.set_native_fee(native, 1_001), Err(ContractError::InvalidFeeConfig));
}

#[test]
fn fee_caps_apply_on_release() {
    let (mut c, _admin) = setup(FEE_BPS, 0, 0);
    c.set_fee_caps(10, 100).unwrap();
    let effects = create_and_release(&mut c, &addr(2), &addr(3), &addr(9), 1_000_000);
    assert_eq!(paid_out_to(&effects, &addr(3)), 999_900);
    assert_eq!(c.get_total_fees_collected(), 100);
    assert_eq!(c.set_fee_caps(100, 10), Err(ContractError::InvalidFeeConfig));
    // A non-positive maximum means no maximum.
    assert!(c.set_fee_caps(100, 0).is_ok());
}

#[test]
fn invalid_fee_rate_rejected() {
    let (mut c, _admin) = setup(FEE_BPS, 0, 0);
    assert_eq!(c.set_fee_percentage(1_001), Err(ContractError::InvalidFeeConfig));
    assert_eq!(c.get_fee_bps(), FEE_BPS);
    c.set_fee_percentage(1_000).unwrap();
    assert_eq!(c.get_fee_bps(), 1_000);
}

#[test]
fn fees_accrue_to_collector_and_withdraw_once() {
    let (mut c, admin) = setup(FEE_BPS, 0, 0);
    let token = addr(9);
    let effects = create_and_release(&mut c, &addr(2), &addr(3), &token, 10_000);
    assert!(effects.contains(&Effect::Emit(Event::FeeCollected(FeeCollectedEvent {
        escrow_id: 1,
        fee_collector: admin.clone(),
        fee: 500,
    }))));
    assert_eq!(c.get_pending_fee(&admin, &token), 500);
    let w = c.withdraw_fees(admin.clone(), token.clone()).unwrap();
    assert_eq!(
        w,
        vec![
            Effect::RequireAuth(admin.clone()),
            Effect::TransferOut { token: token.clone(), to: admin.clone(), amount: 500 },
            Effect::Emit(Event::FeesWithdrawn(FeesWithdrawnEvent {
                collector: admin.clone(),
                token: token.clone(),
                amount: 500,
            })),
        ]
    );
    assert_eq!(c.get_pending_fee(&admin, &token), 0);
    assert_eq!(c.withdraw_fees(admin, token), Err(ContractError::InvalidEscrowAmount));
}

#[test]
fn whitelist_add_and_remove() {
    let (mut c, _admin) = setup(FEE_BPS, 0, 0);
    let a = addr(5);
    assert!(!c.is_fee_exempt(&a));
    c.add_fee_whitelist(a.clone()).unwrap();
    assert!(c.is_fee_exempt(&a));
    c.remove_fee_whitelist(a.clone()).unwrap();
    assert!(!c.is_fee_exempt(&a));
}

#[test]
fn escrow_hash_is_sha256_of_parties_and_metadata() {
    let buyer = Address { xdr: b"a".to_vec() };
    let seller = Address { xdr: b"b".to_vec() };
    let h = generate_escrow_hash(&buyer, &seller, &Some(b"c".to_vec()));
    let expected: Vec<u8> = vec![
        0xba, 0x78, 0x16, 0xbf, 0x8f, 0x01, 0xcf, 0xea, 0x41, 0x41, 0x40, 0xde, 0x5d, 0xae, 0x22,
        0x23, 0xb0, 0x03, 0x61, 0xa3, 0x96, 0x17, 0x7a, 0x9c, 0xb4, 0x10, 0xff, 0x61, 0xf2, 0x00,
        0x15, 0xad,
    ];
    assert_eq!(h, expected);
    // Without metadata the preimage is the two encodings alone.
    let h2 = generate_escrow_hash(&buyer, &seller, &None);
    assert_eq!(h2.len(), 32);
    assert_ne!(h2, h);
}

/// Creates, funds and releases an escrow whose metadata tells it apart from
/// the other escrows of the same buyer and seller.
fn create_and_release_tagged(c: &mut Contract, buyer: &Address, seller: &Address, amount: i128, tag: u8) -> Vec<Effect> {
    let (id, _) = c
        .create_escrow(buyer.clone(), seller.clone(), addr(9), amount, Some(vec![tag]), None, None, None, LEDGER)
        .unwrap();
    c.fund_escrow(id).unwrap();
    c.release_escrow(id, LEDGER).unwrap()
}

#[test]
fn test_zero_amount_returns_zero_fee() {
    // An escrow of amount zero is refused at creation, so nothing is
    // released and no fee is taken.
    let (mut c, admin) = setup(FEE_BPS, 0, 0);
    let buyer = addr(2);
    let result = c.create_escrow(buyer, admin, addr(9), 0, None, None, None, None, LEDGER);
    assert_eq!(result, Err(ContractError::InvalidEscrowAmount));
    assert_eq!(c.get_total_fees_collected(), 0);
}

#[test]
fn test_small_amount_rounds_down() {
    // 9 999 at 500 basis points is 9 999 * 500 / 10 000 = 499.95, rounded
    // down to 499: the fee is floor(amount * bps / 10 000).
    let (mut c, admin) = setup(FEE_BPS, 0, 0);
    let buyer = addr(2);
    create_and_release(&mut c, &buyer, &admin, &addr(9), 9_999);
    assert_eq!(c.get_total_fees_collected(), 499);
}

#[test]
fn test_multiple_escrows_accumulate_safely() {
    let (mut c, admin) = setup(FEE_BPS, 0, 0);
    let buyer = addr(2);
    for (n, amount) in [1000i128, 2000, 3000, 4000, 5000].into_iter().enumerate() {
        create_and_release_tagged(&mut c, &buyer, &admin, amount, n as u8);
    }
    // (1000 + 2000 + 3000 + 4000 + 5000) * 500 / 10000 = 750
    assert_eq!(c.get_total_fees_collected(), 750);
}

#[test]
fn test_tier_calculation_from_volume() {
    let (mut c, _admin) = setup(FEE_BPS, 0, 0);
    let (buyer, seller) = (addr(2), addr(3));
    for n in 0..2u8 {
        create_and_release_tagged(&mut c, &buyer, &seller, 100_000, n);
    }
    assert_eq!(c.buyer_tier(&buyer, LEDGER), 1);
}

#[test]
fn test_volume_accumulates() {
    let (mut c, _admin) = setup(FEE_BPS, 0, 0);
    let (buyer, seller) = (addr(2), addr(3));
    create_and_release_tagged(&mut c, &buyer, &seller, 100_000, 1);
    create_and_release_tagged(&mut c, &buyer, &seller, 50_000, 2);
    assert_eq!(c.buyer_volume(&buyer, LEDGER), 150_000);
}

#[test]
fn test_high_volume_tier_3() {
    let (mut c, _admin) = setup(FEE_BPS, 0, 0);
    let (buyer, seller) = (addr(2), addr(3));
    for n in 0..10u8 {
        create_and_release_tagged(&mut c, &buyer, &seller, 1_000_000, n);
    }
    assert!(c.buyer_tier(&buyer, LEDGER) >= 3);
    assert_eq!(c.buyer_tier(&addr(4), LEDGER), 0);
}

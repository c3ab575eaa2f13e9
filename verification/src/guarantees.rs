//! Guarantees that each operation gives its users whatever the details of
//! its computation: lower bounds on the fee, which rate applies to which
//! token, what a created escrow's items add up to, when items may be
//! released, and who pays when an escrow is funded.
use vstd::prelude::*;
use crate::create::spec_items_sum;
use crate::errors::ContractError;
use crate::events::EffectView;
use crate::fees::spec_capped_fee;
use crate::state::ContractView;
use crate::types::{
    EscrowItemView, EscrowStatus, MetadataVisibility, MAX_FEE_BPS, UNFUNDED_EXPIRY_LEDGERS,
    VOLUME_RESET_INTERVAL,
};
use crate::volume::VolumeTierConfig;

verus! {

/// The least fee the minimum fee guarantees on `amount`: the minimum fee,
/// but never more than the amount itself.
pub open spec fn min_fee_floor(min_fee: int, amount: int) -> int {
    if min_fee < amount {
        min_fee
    } else {
        amount
    }
}

/// Bounding a raw fee never takes it below the minimum fee (or the amount,
/// when that is smaller), as long as the configured maximum does not itself
/// lie below the minimum; nor above a positive maximum or the amount.
pub proof fn law_capped_fee_respects_minimum(raw: int, min_fee: int, max_fee: int, amount: int)
    requires
        max_fee <= 0 || min_fee <= max_fee,
    ensures
        spec_capped_fee(raw, min_fee, max_fee, amount) >= min_fee_floor(min_fee, amount),
        spec_capped_fee(raw, min_fee, max_fee, amount) <= amount,
        max_fee > 0 ==> spec_capped_fee(raw, min_fee, max_fee, amount) <= max_fee,
        raw >= min_fee && (max_fee <= 0 || raw <= max_fee) && raw <= amount
            ==> spec_capped_fee(raw, min_fee, max_fee, amount) == raw,
{
}

/// A buyer who is not fee-exempt never pays less than the minimum fee (or
/// the whole amount, when that is smaller) on a release, whether or not a
/// maximum fee is set, provided the maximum does not lie below the minimum:
/// every payout is at most the amount less that floor, and a positive floor
/// is added to the total of fees.
pub proof fn law_release_charges_minimum_fee(s: ContractView, escrow_id: u64, ledger_sequence: u32)
    requires
        s.spec_release_escrow(escrow_id, ledger_sequence) is Ok,
        !s.spec_release_escrow_overflows(escrow_id, ledger_sequence),
        !s.spec_fee_exempt(s.escrows[escrow_id].buyer),
        s.max_fee <= 0 || s.min_fee <= s.max_fee,
    ensures
        ({
            let e = s.escrows[escrow_id];
            let floor = min_fee_floor(s.min_fee as int, e.amount as int);
            let (s2, effects) = s.spec_release_escrow(escrow_id, ledger_sequence)->Ok_0;
            &&& forall|k: int|
                0 <= k < effects.len() ==> (#[trigger] effects[k] matches EffectView::TransferOut { amount, .. }
                    ==> amount <= e.amount - floor)
            &&& floor > 0 ==> s2.total_fees_collected >= s.total_fees_collected + floor
        }),
{
    let e = s.escrows[escrow_id];
    let fee = s.spec_release_fee_of(e, ledger_sequence);
    let (s2, effects) = s.spec_release_escrow(escrow_id, ledger_sequence)->Ok_0;
    assert(fee >= min_fee_floor(s.min_fee as int, e.amount as int));
    assert forall|k: int|
        0 <= k < effects.len() implies (#[trigger] effects[k] matches EffectView::TransferOut { amount, .. }
            ==> amount <= e.amount - min_fee_floor(s.min_fee as int, e.amount as int)) by {
        if fee > 0 {
            assert(effects.len() == 6);
        } else {
            assert(effects.len() == 5);
        }
    }
}

/// The oracle's confirmation of delivery never charges less than the
/// minimum fee (or the whole amount, when that is smaller), provided the
/// maximum does not lie below the minimum.
pub proof fn law_delivery_charges_minimum_fee(s: ContractView, escrow_id: u64)
    requires
        s.spec_verify_delivery(escrow_id) is Ok,
        !s.spec_verify_delivery_overflows(escrow_id),
        s.max_fee <= 0 || s.min_fee <= s.max_fee,
    ensures
        ({
            let e = s.escrows[escrow_id];
            let floor = min_fee_floor(s.min_fee as int, e.amount as int);
            let (s2, effects) = s.spec_verify_delivery(escrow_id)->Ok_0;
            &&& forall|k: int|
                0 <= k < effects.len() ==> (#[trigger] effects[k] matches EffectView::TransferOut { amount, .. }
                    ==> amount <= e.amount - floor)
            &&& floor > 0 ==> s2.total_fees_collected >= s.total_fees_collected + floor
        }),
{
    let e = s.escrows[escrow_id];
    let fee = s.spec_delivery_fee_of(e);
    let (s2, effects) = s.spec_verify_delivery(escrow_id)->Ok_0;
    assert(fee >= min_fee_floor(s.min_fee as int, e.amount as int));
    assert forall|k: int|
        0 <= k < effects.len() implies (#[trigger] effects[k] matches EffectView::TransferOut { amount, .. }
            ==> amount <= e.amount - min_fee_floor(s.min_fee as int, e.amount as int)) by {
        if fee > 0 {
            assert(effects.len() == 6);
        } else {
            assert(effects.len() == 5);
        }
    }
}

/// The native rate applies to the native asset only: any other token is
/// charged the general rate, and the native asset the native rate once one
/// is set.
pub proof fn law_native_rate_only_for_native_asset(s: ContractView, token: Seq<u8>)
    ensures
        s.native_asset != Some(token) ==> s.spec_effective_bps(token) == s.fee_bps,
        s.native_asset == Some(token) && s.native_fee_bps is Some ==> s.spec_effective_bps(token)
            == s.native_fee_bps.unwrap(),
{
}

/// The state without a native-asset fee setting.
pub open spec fn without_native_fee(s: ContractView) -> ContractView {
    ContractView { native_asset: None, native_fee_bps: None, ..s }
}

/// Setting a native asset and its rate does not change what happens to an
/// escrow in another token: releasing it moves the same funds, publishes the
/// same events and leaves the same escrows, totals and pending fees as it
/// would with no native fee configured.
pub proof fn law_release_other_token_ignores_native_fee(s: ContractView, escrow_id: u64, ledger_sequence: u32)
    requires
        s.escrows.contains_key(escrow_id),
        s.native_asset != Some(s.escrows[escrow_id].token),
    ensures
        ({
            let r1 = s.spec_release_escrow(escrow_id, ledger_sequence);
            let r2 = without_native_fee(s).spec_release_escrow(escrow_id, ledger_sequence);
            &&& r1 is Ok <==> r2 is Ok
            &&& r1 is Ok ==> {
                &&& r1->Ok_0.1 == r2->Ok_0.1
                &&& r1->Ok_0.0 == ContractView {
                    native_asset: s.native_asset,
                    native_fee_bps: s.native_fee_bps,
                    ..r2->Ok_0.0
                }
            }
        }),
{
    let e = s.escrows[escrow_id];
    let t = without_native_fee(s);
    assert(s.spec_effective_bps(e.token) == t.spec_effective_bps(e.token));
    assert(s.spec_release_fee_of(e, ledger_sequence) == t.spec_release_fee_of(e, ledger_sequence));
}

/// Likewise for the oracle's confirmation of delivery: an escrow in a token
/// other than the native asset is settled exactly as with no native fee
/// configured.
pub proof fn law_delivery_other_token_ignores_native_fee(s: ContractView, escrow_id: u64)
    requires
        s.escrows.contains_key(escrow_id),
        s.native_asset != Some(s.escrows[escrow_id].token),
    ensures
        ({
            let r1 = s.spec_verify_delivery(escrow_id);
            let r2 = without_native_fee(s).spec_verify_delivery(escrow_id);
            &&& r1 is Ok <==> r2 is Ok
            &&& r1 is Ok ==> {
                &&& r1->Ok_0.1 == r2->Ok_0.1
                &&& r1->Ok_0.0 == ContractView {
                    native_asset: s.native_asset,
                    native_fee_bps: s.native_fee_bps,
                    ..r2->Ok_0.0
                }
            }
        }),
{
    let e = s.escrows[escrow_id];
    let t = without_native_fee(s);
    assert(s.spec_effective_bps(e.token) == t.spec_effective_bps(e.token));
    assert(s.spec_delivery_fee_of(e) == t.spec_delivery_fee_of(e));
}

/// A created escrow's items add up exactly to its amount: creation with
/// items succeeds only when they do, and any other sum is refused.
pub proof fn law_created_items_sum_to_amount(
    s: ContractView,
    buyer: Seq<u8>,
    seller: Seq<u8>,
    token: Seq<u8>,
    amount: i128,
    metadata: Option<Seq<u8>>,
    arbiter: Option<Seq<u8>>,
    items: Seq<EscrowItemView>,
    tracking_id: Option<Seq<u8>>,
    ledger_sequence: u32,
)
    ensures
        ({
            let r = s.spec_create_escrow(
                buyer,
                seller,
                token,
                amount,
                metadata,
                arbiter,
                Some(items),
                tracking_id,
                ledger_sequence,
            );
            &&& r is Ok ==> spec_items_sum(items) == amount
            &&& r is Ok ==> r->Ok_0.0.escrows[r->Ok_0.2].items == items
            &&& r is Ok ==> spec_items_sum(r->Ok_0.0.escrows[r->Ok_0.2].items) == r->Ok_0.0.escrows[r->Ok_0.2].amount
            &&& !s.paused && s.spec_create_precheck(buyer, seller, token, amount, metadata, arbiter, Some(items))
                is Ok && spec_items_sum(items) != amount ==> r == Err::<
                (ContractView, Seq<EffectView>, u64),
                ContractError,
            >(ContractError::ItemAmountInvalid)
        }),
{
}

/// Items are released only from a pending escrow: on an escrow in any other
/// state (disputed, released or refunded) the call is refused, with
/// `InvalidEscrowState` unless the item was released already, and nothing
/// moves; a successful release always started from a pending escrow.
pub proof fn law_release_item_only_while_pending(s: ContractView, escrow_id: u64, item_index: u32)
    requires
        !s.paused,
        s.escrows.contains_key(escrow_id),
    ensures
        ({
            let e = s.escrows[escrow_id];
            let r = s.spec_release_item(escrow_id, item_index);
            &&& e.status != EscrowStatus::Pending ==> r is Err
            &&& e.status != EscrowStatus::Pending && !(item_index < e.items.len() && e.items[item_index as int].released)
                ==> r == Err::<(ContractView, Seq<EffectView>), ContractError>(ContractError::InvalidEscrowState)
            &&& r is Ok ==> e.status == EscrowStatus::Pending
        }),
{
}

/// Funding draws the amount from the payer named in the call, on that
/// payer's authorisation: from the buyer for `fund_escrow`, from the funder
/// for `fund_escrow_by`, and never from anyone else.
pub proof fn law_fund_draws_from_payer(s: ContractView, escrow_id: u64, funder: Seq<u8>)
    ensures
        s.spec_fund(escrow_id, Some(funder)) is Ok ==> s.spec_fund(escrow_id, Some(funder))->Ok_0.1 == seq![
            EffectView::RequireAuth(funder),
            EffectView::TransferIn {
                token: s.escrows[escrow_id].token,
                from: funder,
                amount: s.escrows[escrow_id].amount,
            },
        ],
        s.spec_fund(escrow_id, None) is Ok ==> s.spec_fund(escrow_id, None)->Ok_0.1 == seq![
            EffectView::RequireAuth(s.escrows[escrow_id].buyer),
            EffectView::TransferIn {
                token: s.escrows[escrow_id].token,
                from: s.escrows[escrow_id].buyer,
                amount: s.escrows[escrow_id].amount,
            },
        ],
{
}

/// The first effect of a step, when it succeeds, is the authorisation of
/// `who`; without an admin the step is refused with `NotAdmin`.
pub open spec fn admin_gated(s: ContractView, r: crate::state::Step) -> bool {
    &&& s.admin is None ==> r == Err::<(ContractView, Seq<EffectView>), ContractError>(ContractError::NotAdmin)
    &&& r is Ok ==> s.admin is Some && r->Ok_0.1.len() > 0 && r->Ok_0.1[0] == EffectView::RequireAuth(s.admin.unwrap())
}

/// Every administrative setting needs the admin: with no admin configured
/// it is refused with `NotAdmin`, and when it succeeds the admin's
/// authorisation comes first. Rates above `MAX_FEE_BPS`, and a minimum fee
/// above a positive maximum, are refused with `InvalidFeeConfig`.
pub proof fn law_admin_settings_need_admin(
    s: ContractView,
    address: Seq<u8>,
    fee_bps: u32,
    min_fee: i128,
    max_fee: i128,
    exempt: bool,
    paused: bool,
    hash: Seq<u8>,
)
    ensures
        admin_gated(s, s.spec_set_paused(paused)),
        admin_gated(s, s.spec_set_oracle(address)),
        admin_gated(s, s.spec_transfer_admin(address)),
        admin_gated(s, s.spec_set_fee_percentage(fee_bps)),
        admin_gated(s, s.spec_set_fee_caps(min_fee, max_fee)),
        admin_gated(s, s.spec_set_native_fee(address, fee_bps)),
        admin_gated(s, s.spec_set_fee_whitelist(address, exempt)),
        admin_gated(s, s.spec_upgrade(hash)),
        s.admin is Some && fee_bps > MAX_FEE_BPS ==> s.spec_set_fee_percentage(fee_bps) == Err::<
            (ContractView, Seq<EffectView>),
            ContractError,
        >(ContractError::InvalidFeeConfig),
        s.admin is Some && fee_bps > MAX_FEE_BPS ==> s.spec_set_native_fee(address, fee_bps) == Err::<
            (ContractView, Seq<EffectView>),
            ContractError,
        >(ContractError::InvalidFeeConfig),
        s.admin is Some && max_fee > 0 && min_fee > max_fee ==> s.spec_set_fee_caps(min_fee, max_fee) == Err::<
            (ContractView, Seq<EffectView>),
            ContractError,
        >(ContractError::InvalidFeeConfig),
        s.spec_set_fee_percentage(fee_bps) is Ok ==> s.spec_set_fee_percentage(fee_bps)->Ok_0.0.fee_bps <= MAX_FEE_BPS,
{
}

/// A buyer's volume counts only within the current volume period: once
/// `VOLUME_RESET_INTERVAL` ledgers have passed since the period began it
/// reads zero, and before that it reads what releases have recorded.
pub proof fn law_volume_period(s: ContractView, buyer: Seq<u8>, ledger_sequence: u32)
    ensures
        ({
            let start = s.spec_tiers().reset_ledger;
            let recorded = if s.buyer_volume.contains_key(buyer) { s.buyer_volume[buyer] } else { 0 };
            &&& ledger_sequence >= start && ledger_sequence - start >= VOLUME_RESET_INTERVAL
                ==> s.spec_buyer_volume(buyer, ledger_sequence) == 0
            &&& ledger_sequence < start + VOLUME_RESET_INTERVAL ==> s.spec_buyer_volume(buyer, ledger_sequence) == recorded
        }),
{
}

/// A volume reaches exactly the tiers whose thresholds it meets, when the
/// thresholds are in increasing order: at least tier k when it meets the
/// k-th threshold, below tier k when it falls short of it.
pub proof fn law_tier_thresholds(c: VolumeTierConfig, volume: i128)
    requires
        c.tier_1_threshold <= c.tier_2_threshold <= c.tier_3_threshold,
    ensures
        volume >= c.tier_1_threshold <==> c.spec_tier(volume) >= 1,
        volume >= c.tier_2_threshold <==> c.spec_tier(volume) >= 2,
        volume >= c.tier_3_threshold <==> c.spec_tier(volume) >= 3,
        c.spec_tier(volume) <= 3,
{
}

/// Settling a dispute pays the whole escrow amount, in one payout, to the
/// seller for resolution 0 (the escrow becomes `Released`) or to the buyer
/// for resolution 1 (it becomes `Refunded`), on the authorisation of the
/// escrow's arbiter, or of the admin when it has none.
pub proof fn law_resolve_dispute_pays_the_winner(s: ContractView, escrow_id: u64, resolution: u32)
    requires
        s.spec_resolve_dispute(escrow_id, resolution) is Ok,
    ensures
        ({
            let e = s.escrows[escrow_id];
            let (s2, effects) = s.spec_resolve_dispute(escrow_id, resolution)->Ok_0;
            let resolver = match e.arbiter {
                Some(a) => a,
                None => s.admin.unwrap(),
            };
            &&& e.status == EscrowStatus::Disputed
            &&& resolution == 0 || resolution == 1
            &&& effects[0] == EffectView::RequireAuth(resolver)
            &&& crate::outcomes::single_payout(effects, 1)
            &&& resolution == 0 ==> effects[1] == (EffectView::TransferOut { token: e.token, to: e.seller, amount: e.amount })
            &&& resolution == 1 ==> effects[1] == (EffectView::TransferOut { token: e.token, to: e.buyer, amount: e.amount })
            &&& resolution == 0 ==> s2.escrows[escrow_id].status == EscrowStatus::Released
            &&& resolution == 1 ==> s2.escrows[escrow_id].status == EscrowStatus::Refunded
        }),
{
    let effects = s.spec_resolve_dispute(escrow_id, resolution)->Ok_0.1;
    assert forall|k: int| 0 <= k < effects.len() && k != 1 implies !((#[trigger] effects[k]) is TransferOut) by {
        assert(effects.len() == 3);
    }
}

/// Withdrawing fees pays the collector, on the collector's authorisation,
/// exactly the positive balance pending for it in that token, and clears
/// that balance; nothing is paid when none is pending.
pub proof fn law_withdraw_fees_pays_collector(s: ContractView, collector: Seq<u8>, token: Seq<u8>)
    ensures
        s.spec_pending_fee(collector, token) <= 0 ==> s.spec_withdraw_fees(collector, token) is Err,
        s.spec_pending_fee(collector, token) > 0 ==> {
            let r = s.spec_withdraw_fees(collector, token);
            &&& r is Ok
            &&& r->Ok_0.1[0] == EffectView::RequireAuth(collector)
            &&& crate::outcomes::single_payout(r->Ok_0.1, 1)
            &&& r->Ok_0.1[1] == (EffectView::TransferOut { token, to: collector, amount: s.spec_pending_fee(collector, token) })
            &&& r->Ok_0.0.spec_pending_fee(collector, token) == 0
        },
{
    if s.spec_pending_fee(collector, token) > 0 {
        let effects = s.spec_withdraw_fees(collector, token)->Ok_0.1;
        assert forall|k: int| 0 <= k < effects.len() && k != 1 implies !((#[trigger] effects[k]) is TransferOut) by {
            assert(effects.len() == 3);
        }
    }
}

/// Private metadata goes only to the escrow's buyer, seller or arbiter, or
/// the admin, on their authorisation; anyone else is refused with
/// `MetadataAccessDenied`. Public metadata goes to anyone, with no
/// authorisation. Either way the metadata given is the escrow's.
pub proof fn law_metadata_access(s: ContractView, escrow_id: u64, caller: Seq<u8>)
    requires
        s.escrows.contains_key(escrow_id),
    ensures
        ({
            let e = s.escrows[escrow_id];
            let public = s.metadata_visibility.contains_key(escrow_id)
                && s.metadata_visibility[escrow_id] == MetadataVisibility::Public;
            let allowed = caller == e.buyer || caller == e.seller || e.arbiter == Some(caller) || s.admin == Some(caller);
            let r = s.spec_get_escrow_metadata(escrow_id, caller);
            &&& !public && !allowed ==> r == Err::<(Option<Seq<u8>>, Seq<EffectView>), ContractError>(
                ContractError::MetadataAccessDenied,
            )
            &&& !public && allowed ==> r == Ok::<(Option<Seq<u8>>, Seq<EffectView>), ContractError>(
                (e.metadata, seq![EffectView::RequireAuth(caller)]),
            )
            &&& public ==> r == Ok::<(Option<Seq<u8>>, Seq<EffectView>), ContractError>((e.metadata, Seq::empty()))
        }),
{
}

/// An unfunded escrow cannot be cancelled before `UNFUNDED_EXPIRY_LEDGERS`
/// ledgers have passed since its creation; anyone may cancel it once they
/// have.
pub proof fn law_cancel_unfunded_waits_for_expiry(s: ContractView, escrow_id: u64, ledger_sequence: u32)
    requires
        s.escrows.contains_key(escrow_id),
        s.escrows[escrow_id].status == EscrowStatus::Pending,
        !s.escrows[escrow_id].funded,
    ensures
        ({
            let e = s.escrows[escrow_id];
            let r = s.spec_cancel_unfunded(escrow_id, ledger_sequence);
            &&& ledger_sequence < e.created_at + UNFUNDED_EXPIRY_LEDGERS && e.created_at + UNFUNDED_EXPIRY_LEDGERS
                <= u32::MAX ==> r == Err::<(ContractView, Seq<EffectView>), ContractError>(
                ContractError::EscrowNotExpired,
            )
            &&& ledger_sequence >= e.created_at + UNFUNDED_EXPIRY_LEDGERS ==> r is Ok
        }),
{
}

} // verus!

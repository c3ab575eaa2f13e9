use vstd::prelude::*;
use crate::create::BulkRequestView;
use crate::errors::ContractError;
use crate::events::EffectView;
use crate::fees::{spec_capped_fee, spec_discounted_bps, spec_fee_bps, spec_release_fee};
use crate::hashing::spec_escrow_hash;
use crate::release::spec_all_released;
use crate::state::ContractView;
use crate::types::{is_zero_xdr, EscrowItemView, EscrowStatus, RefundReason, MAX_METADATA_SIZE, MAX_ITEMS_PER_ESCROW};
use crate::volume::spec_standard_tiers;

verus! {

/// Every escrow identifier in use has been issued: it lies between 1 and the
/// escrow counter.
pub open spec fn ids_issued(s: ContractView) -> bool {
    forall|k: u64| #[trigger] s.escrows.contains_key(k) ==> 1 <= k <= s.escrow_counter
}

/// A successful creation returns the next identifier in sequence, which no
/// existing escrow uses when all identifiers in use were issued, and the
/// identifiers in use stay issued.
pub proof fn law_create_issues_next_id(
    s: ContractView,
    buyer: Seq<u8>,
    seller: Seq<u8>,
    token: Seq<u8>,
    amount: i128,
    metadata: Option<Seq<u8>>,
    arbiter: Option<Seq<u8>>,
    items: Option<Seq<EscrowItemView>>,
    tracking_id: Option<Seq<u8>>,
    ledger_sequence: u32,
)
    requires
        ids_issued(s),
        s.spec_create_escrow(buyer, seller, token, amount, metadata, arbiter, items, tracking_id, ledger_sequence) is Ok,
    ensures
        ({
            let (s2, _, id) = s.spec_create_escrow(
                buyer,
                seller,
                token,
                amount,
                metadata,
                arbiter,
                items,
                tracking_id,
                ledger_sequence,
            )->Ok_0;
            &&& id == s.escrow_counter + 1
            &&& s2.escrow_counter == id
            &&& !s.escrows.contains_key(id)
            &&& s2.escrows.contains_key(id)
            &&& s2.escrows[id].status == EscrowStatus::Pending
            &&& ids_issued(s2)
        }),
{
}

/// Once an escrow is created, creating another with the same buyer, seller
/// and metadata is refused as a duplicate, whatever else the request holds
/// (provided the request passes the checks that come first).
pub proof fn law_duplicate_escrow_refused(
    s: ContractView,
    buyer: Seq<u8>,
    seller: Seq<u8>,
    token: Seq<u8>,
    amount: i128,
    metadata: Option<Seq<u8>>,
    arbiter: Option<Seq<u8>>,
    items: Option<Seq<EscrowItemView>>,
    tracking_id: Option<Seq<u8>>,
    ledger_sequence: u32,
    token2: Seq<u8>,
    amount2: i128,
    arbiter2: Option<Seq<u8>>,
    items2: Option<Seq<EscrowItemView>>,
    tracking_id2: Option<Seq<u8>>,
    ledger_sequence2: u32,
)
    requires
        s.spec_create_escrow(buyer, seller, token, amount, metadata, arbiter, items, tracking_id, ledger_sequence) is Ok,
        !is_zero_xdr(token2),
        arbiter2 is Some ==> !is_zero_xdr(arbiter2.unwrap()),
        amount2 > 0,
    ensures
        s.spec_create_escrow(
            buyer,
            seller,
            token,
            amount,
            metadata,
            arbiter,
            items,
            tracking_id,
            ledger_sequence,
        )->Ok_0.0.spec_create_escrow(
            buyer,
            seller,
            token2,
            amount2,
            metadata,
            arbiter2,
            items2,
            tracking_id2,
            ledger_sequence2,
        ) == Err::<(ContractView, Seq<EffectView>, u64), ContractError>(ContractError::DuplicateEscrow),
{
}

/// Cancelling an unfunded escrow removes its duplicate-detection hash, so an
/// escrow with the same buyer, seller and metadata may be created again.
pub proof fn law_cancel_unfunded_frees_hash(s: ContractView, escrow_id: u64, ledger_sequence: u32)
    requires
        s.spec_cancel_unfunded(escrow_id, ledger_sequence) is Ok,
    ensures
        ({
            let e = s.escrows[escrow_id];
            let s2 = s.spec_cancel_unfunded(escrow_id, ledger_sequence)->Ok_0.0;
            &&& !s2.escrows.contains_key(escrow_id)
            &&& !s2.escrow_hashes.contains_key(spec_escrow_hash(e.buyer, e.seller, e.metadata))
        }),
{
}

/// While the contract is paused, every escrow operation that moves funds
/// or changes an escrow is refused with `ContractPaused`.
pub proof fn law_paused_blocks_escrow_actions(
    s: ContractView,
    escrow_id: u64,
    actor: Seq<u8>,
    buyer: Seq<u8>,
    seller: Seq<u8>,
    token: Seq<u8>,
    amount: i128,
    metadata: Option<Seq<u8>>,
    arbiter: Option<Seq<u8>>,
    items: Option<Seq<EscrowItemView>>,
    tracking_id: Option<Seq<u8>>,
    requests: Seq<BulkRequestView>,
    item_index: u32,
    resolution: u32,
    reason: crate::types::RefundReason,
    evidence_hash: Seq<u8>,
    ledger_sequence: u32,
    ledger_timestamp: u64,
)
    requires
        s.paused,
    ensures
        s.spec_create_escrow(buyer, seller, token, amount, metadata, arbiter, items, tracking_id, ledger_sequence)
            == Err::<(ContractView, Seq<EffectView>, u64), ContractError>(ContractError::ContractPaused),
        s.spec_create_bulk_escrows(buyer, token, requests, ledger_sequence)
            == Err::<(ContractView, Seq<EffectView>, Seq<u64>), ContractError>(ContractError::ContractPaused),
        s.spec_fund(escrow_id, None) == Err::<(ContractView, Seq<EffectView>), ContractError>(
            ContractError::ContractPaused,
        ),
        s.spec_fund(escrow_id, Some(actor)) == Err::<(ContractView, Seq<EffectView>), ContractError>(
            ContractError::ContractPaused,
        ),
        s.spec_release_escrow(escrow_id, ledger_sequence) == Err::<(ContractView, Seq<EffectView>), ContractError>(
            ContractError::ContractPaused,
        ),
        s.spec_release_item(escrow_id, item_index) == Err::<(ContractView, Seq<EffectView>), ContractError>(
            ContractError::ContractPaused,
        ),
        s.spec_verify_delivery(escrow_id) == Err::<(ContractView, Seq<EffectView>), ContractError>(
            ContractError::ContractPaused,
        ),
        s.spec_propose_cancellation(escrow_id, actor) == Err::<(ContractView, Seq<EffectView>), ContractError>(
            ContractError::ContractPaused,
        ),
        s.spec_accept_cancellation(escrow_id, actor) == Err::<(ContractView, Seq<EffectView>), ContractError>(
            ContractError::ContractPaused,
        ),
        s.spec_refund_escrow(escrow_id, actor, amount, reason, evidence_hash, ledger_timestamp)
            == Err::<(ContractView, Seq<EffectView>, u64), ContractError>(ContractError::ContractPaused),
        s.spec_resolve_dispute(escrow_id, resolution) == Err::<(ContractView, Seq<EffectView>), ContractError>(
            ContractError::ContractPaused,
        ),
        s.spec_release_partial() == Err::<(ContractView, Seq<EffectView>), ContractError>(
            ContractError::ContractPaused,
        ),
{
}

/// Pausing and then unpausing an unpaused contract gives back the state it
/// started from.
pub proof fn law_pause_unpause_roundtrip(s: ContractView)
    requires
        !s.paused,
        s.admin is Some,
    ensures
        s.spec_set_paused(true) is Ok,
        s.spec_set_paused(true)->Ok_0.0.paused,
        s.spec_set_paused(true)->Ok_0.0.spec_set_paused(false) is Ok,
        s.spec_set_paused(true)->Ok_0.0.spec_set_paused(false)->Ok_0.0 == s,
{
}

/// Proposing a new admin and having it accept makes it the admin and
/// clears the proposal.
pub proof fn law_admin_rotation(s: ContractView, new_admin: Seq<u8>)
    requires
        s.admin is Some,
    ensures
        s.spec_transfer_admin(new_admin) is Ok,
        s.spec_transfer_admin(new_admin)->Ok_0.0.spec_accept_admin() is Ok,
        s.spec_transfer_admin(new_admin)->Ok_0.0.spec_accept_admin()->Ok_0.0.admin == Some(new_admin),
        s.spec_transfer_admin(new_admin)->Ok_0.0.spec_accept_admin()->Ok_0.0.proposed_admin is None,
{
}

/// A settled escrow (released or refunded) is final: every operation on it
/// that moves funds or changes its status is refused.
pub proof fn law_settled_escrow_is_final(
    s: ContractView,
    escrow_id: u64,
    actor: Seq<u8>,
    amount: i128,
    item_index: u32,
    resolution: u32,
    reason: crate::types::RefundReason,
    evidence_hash: Seq<u8>,
    ledger_sequence: u32,
    ledger_timestamp: u64,
)
    requires
        s.escrows.contains_key(escrow_id),
        s.escrows[escrow_id].status == EscrowStatus::Released || s.escrows[escrow_id].status
            == EscrowStatus::Refunded,
    ensures
        s.spec_fund(escrow_id, None) is Err,
        s.spec_fund(escrow_id, Some(actor)) is Err,
        s.spec_release_escrow(escrow_id, ledger_sequence) is Err,
        s.spec_release_item(escrow_id, item_index) is Err,
        s.spec_verify_delivery(escrow_id) is Err,
        s.spec_propose_cancellation(escrow_id, actor) is Err,
        s.spec_accept_cancellation(escrow_id, actor) is Err,
        s.spec_refund_escrow(escrow_id, actor, amount, reason, evidence_hash, ledger_timestamp) is Err,
        s.spec_resolve_dispute(escrow_id, resolution) is Err,
        s.spec_cancel_unfunded(escrow_id, ledger_sequence) is Err,
{
}

/// The fee of a release is never negative and never more than the escrow
/// amount, never more than a positive maximum fee, and zero for a
/// whitelisted buyer; the seller receives the rest.
pub proof fn law_release_fee_bounds(
    amount: i128,
    whitelisted: bool,
    effective_bps: u32,
    discount_bps: u32,
    min_fee: i128,
    max_fee: i128,
)
    requires
        amount >= 0,
    ensures
        0 <= spec_release_fee(amount, whitelisted, effective_bps, discount_bps, min_fee, max_fee) <= amount,
        max_fee > 0 ==> spec_release_fee(amount, whitelisted, effective_bps, discount_bps, min_fee, max_fee)
            <= max_fee,
        whitelisted ==> spec_release_fee(amount, whitelisted, effective_bps, discount_bps, min_fee, max_fee)
            == 0,
{
    let raw = spec_fee_bps(amount as int, spec_discounted_bps(effective_bps, discount_bps) as int);
    assert(raw >= 0) by (nonlinear_arith)
        requires
            raw == spec_fee_bps(amount as int, spec_discounted_bps(effective_bps, discount_bps) as int),
            amount >= 0,
    ;
}

/// The fee charged on oracle-confirmed delivery lies between zero and the
/// escrow amount, and under a positive maximum fee.
pub proof fn law_delivery_fee_bounds(s: ContractView, e: crate::types::EscrowView)
    requires
        e.amount >= 0,
    ensures
        0 <= s.spec_delivery_fee_of(e) <= e.amount,
        s.max_fee > 0 ==> s.spec_delivery_fee_of(e) <= s.max_fee,
{
    let raw = spec_fee_bps(e.amount as int, s.spec_effective_bps(e.token) as int);
    assert(raw >= 0) by (nonlinear_arith)
        requires
            raw == spec_fee_bps(e.amount as int, s.spec_effective_bps(e.token) as int),
            e.amount >= 0,
    ;
}

/// A volume discount lowers the rate by at most `MAX_VOLUME_DISCOUNT_BPS`
/// basis points, and never below zero.
pub proof fn law_discount_is_capped(effective_bps: u32, discount_bps: u32)
    ensures
        spec_discounted_bps(effective_bps, discount_bps) <= effective_bps,
        spec_discounted_bps(effective_bps, discount_bps) + crate::types::MAX_VOLUME_DISCOUNT_BPS
            >= effective_bps,
{
}

/// Under the standard tiers, more volume never gives a lower tier.
pub proof fn law_standard_tiers_monotone(reset_ledger: u32, v1: i128, v2: i128)
    requires
        v1 <= v2,
    ensures
        spec_standard_tiers(reset_ledger).spec_tier(v1) <= spec_standard_tiers(reset_ledger).spec_tier(v2),
{
}

/// The whitelist reads back what was written: after adding an address it is
/// exempt, after removing it it is not.
pub proof fn law_whitelist_roundtrip(s: ContractView, address: Seq<u8>)
    requires
        s.admin is Some,
    ensures
        s.spec_set_fee_whitelist(address, true)->Ok_0.0.spec_fee_exempt(address),
        !s.spec_set_fee_whitelist(address, false)->Ok_0.0.spec_fee_exempt(address),
{
}

/// Fee settings read back what was written.
pub proof fn law_fee_settings_roundtrip(
    s: ContractView,
    fee_bps: u32,
    min_fee: i128,
    max_fee: i128,
    native_token: Seq<u8>,
    native_fee_bps: u32,
)
    requires
        s.admin is Some,
        fee_bps <= crate::types::MAX_FEE_BPS,
        native_fee_bps <= crate::types::MAX_FEE_BPS,
        !(max_fee > 0 && min_fee > max_fee),
    ensures
        s.spec_set_fee_percentage(fee_bps)->Ok_0.0.fee_bps == fee_bps,
        s.spec_set_fee_caps(min_fee, max_fee)->Ok_0.0.min_fee == min_fee,
        s.spec_set_fee_caps(min_fee, max_fee)->Ok_0.0.max_fee == max_fee,
        s.spec_set_native_fee(native_token, native_fee_bps)->Ok_0.0.spec_effective_bps(native_token)
            == native_fee_bps,
{
}

/// Withdrawing fees empties the pending balance, so a second withdrawal of
/// the same collector and token is refused.
pub proof fn law_withdraw_fees_once(s: ContractView, collector: Seq<u8>, token: Seq<u8>)
    requires
        s.spec_withdraw_fees(collector, token) is Ok,
    ensures
        s.spec_withdraw_fees(collector, token)->Ok_0.0.spec_pending_fee(collector, token) == 0,
        s.spec_withdraw_fees(collector, token)->Ok_0.0.spec_withdraw_fees(collector, token)
            == Err::<(ContractView, Seq<EffectView>), ContractError>(ContractError::InvalidEscrowAmount),
{
}

/// When one party proposes cancellation of a pending escrow and the other
/// accepts, the escrow is refunded: the buyer receives the whole amount and
/// the proposal is cleared.
pub proof fn law_mutual_cancellation_refunds(s: ContractView, escrow_id: u64, proposer: Seq<u8>, acceptor: Seq<u8>)
    requires
        s.spec_propose_cancellation(escrow_id, proposer) is Ok,
        s.escrows[escrow_id].cancellation_proposer is None,
        proposer != acceptor,
        acceptor == s.escrows[escrow_id].buyer || acceptor == s.escrows[escrow_id].seller,
        crate::release::fits_i128(s.total_refunded + s.escrows[escrow_id].amount),
    ensures
        ({
            let e = s.escrows[escrow_id];
            let s1 = s.spec_propose_cancellation(escrow_id, proposer)->Ok_0.0;
            let r = s1.spec_accept_cancellation(escrow_id, acceptor);
            &&& r is Ok
            &&& r->Ok_0.0.escrows[escrow_id].status == EscrowStatus::Refunded
            &&& r->Ok_0.0.escrows[escrow_id].cancellation_proposer is None
            &&& r->Ok_0.0.total_refunded == s.total_refunded + e.amount
            &&& r->Ok_0.1[1] == EffectView::TransferOut { token: e.token, to: e.buyer, amount: e.amount }
        }),
{
    let e = s.escrows[escrow_id];
    let s1 = s.spec_propose_cancellation(escrow_id, proposer)->Ok_0.0;
    assert(s1.escrows[escrow_id] == crate::types::EscrowView { cancellation_proposer: Some(proposer), ..e });
    assert(s1.spec_cancellation_escrow(escrow_id, acceptor) is Ok);
}

/// Releasing the last unreleased item completes the escrow; releasing any
/// other leaves it pending.
pub proof fn law_release_item_completes_on_last(s: ContractView, escrow_id: u64, item_index: u32)
    requires
        s.spec_release_item(escrow_id, item_index) is Ok,
        crate::release::fits_i128(s.total_released + s.escrows[escrow_id].items[item_index as int].amount),
    ensures
        ({
            let e = s.escrows[escrow_id];
            let items = e.items.update(
                item_index as int,
                EscrowItemView { released: true, ..e.items[item_index as int] },
            );
            let s2 = s.spec_release_item(escrow_id, item_index)->Ok_0.0;
            &&& s2.escrows[escrow_id].items[item_index as int].released
            &&& (s2.escrows[escrow_id].status == EscrowStatus::Released <==> spec_all_released(items))
            &&& s2.total_released == s.total_released + e.items[item_index as int].amount
        }),
{
}

proof fn lemma_bulk_ids_from(
    t: ContractView,
    buyer: Seq<u8>,
    token: Seq<u8>,
    requests: Seq<BulkRequestView>,
    i: int,
    ledger_sequence: u32,
)
    requires
        0 <= i <= requests.len(),
        t.spec_bulk_from(buyer, token, requests, i, ledger_sequence) is Ok,
    ensures
        ({
            let (t2, _, ids) = t.spec_bulk_from(buyer, token, requests, i, ledger_sequence)->Ok_0;
            &&& ids.len() == requests.len() - i
            &&& t2.escrow_counter == t.escrow_counter + ids.len()
            &&& forall|k: int| 0 <= k < ids.len() ==> #[trigger] ids[k] == t.escrow_counter + 1 + k
        }),
    decreases requests.len() - i,
{
    if i < requests.len() {
        let q = requests[i];
        let (t1, _, id) = t.spec_create_internal(
            buyer,
            q.seller,
            token,
            q.amount,
            q.metadata,
            q.arbiter,
            q.items,
            None,
            ledger_sequence,
        )->Ok_0;
        lemma_bulk_ids_from(t1, buyer, token, requests, i + 1, ledger_sequence);
        let (t2, _, rest) = t1.spec_bulk_from(buyer, token, requests, i + 1, ledger_sequence)->Ok_0;
        let ids = t.spec_bulk_from(buyer, token, requests, i, ledger_sequence)->Ok_0.2;
        assert(ids == seq![id] + rest);
        assert forall|k: int| 0 <= k < ids.len() implies #[trigger] ids[k] == t.escrow_counter + 1 + k by {
            if k > 0 {
                assert(ids[k] == rest[k - 1]);
            }
        }
    }
}

/// A bulk creation issues consecutive identifiers, one per request, in
/// request order, following the last identifier issued before.
pub proof fn law_bulk_ids_consecutive(
    s: ContractView,
    buyer: Seq<u8>,
    token: Seq<u8>,
    requests: Seq<BulkRequestView>,
    ledger_sequence: u32,
)
    requires
        s.spec_create_bulk_escrows(buyer, token, requests, ledger_sequence) is Ok,
    ensures
        ({
            let (s2, _, ids) = s.spec_create_bulk_escrows(buyer, token, requests, ledger_sequence)->Ok_0;
            &&& ids.len() == requests.len()
            &&& s2.escrow_counter == s.escrow_counter + requests.len()
            &&& forall|k: int| 0 <= k < ids.len() ==> #[trigger] ids[k] == s.escrow_counter + 1 + k
        }),
{
    lemma_bulk_ids_from(s, buyer, token, requests, 0, ledger_sequence);
}

/// Releasing an escrow accounts for every unit of it: the seller is paid
/// the amount less the fee, the fee is credited to the collector's pending
/// balance (saturating) and to the total of fees, the whole amount adds to
/// the total released and to the buyer's recorded volume (saturating), and
/// the escrow ends `Released`.
pub proof fn law_release_escrow_accounting(s: ContractView, escrow_id: u64, ledger_sequence: u32)
    requires
        s.spec_release_escrow(escrow_id, ledger_sequence) is Ok,
        !s.spec_release_escrow_overflows(escrow_id, ledger_sequence),
    ensures
        ({
            let e = s.escrows[escrow_id];
            let fee = s.spec_release_fee_of(e, ledger_sequence);
            let (s2, effects) = s.spec_release_escrow(escrow_id, ledger_sequence)->Ok_0;
            &&& effects[1] == EffectView::TransferOut { token: e.token, to: e.seller, amount: (e.amount - fee) as i128 }
            &&& s2.total_released == s.total_released + e.amount
            &&& fee > 0 ==> s2.total_fees_collected == s.total_fees_collected + fee
            &&& fee > 0 ==> s2.spec_pending_fee(s.fee_collector.unwrap(), e.token)
                == crate::fees::spec_sat_add(s.spec_pending_fee(s.fee_collector.unwrap(), e.token) as int, fee as int)
            &&& fee <= 0 ==> s2.total_fees_collected == s.total_fees_collected
            &&& s2.spec_recorded_volume(e.buyer)
                == crate::fees::spec_sat_add(s.spec_recorded_volume(e.buyer) as int, e.amount as int)
            &&& s2.escrows[escrow_id].status == EscrowStatus::Released
        }),
{
    let e = s.escrows[escrow_id];
    let fee = s.spec_release_fee_of(e, ledger_sequence);
    let s1 = s.spec_collect_fee(e.token, fee);
    assert(s1.spec_recorded_volume(e.buyer) == s.spec_recorded_volume(e.buyer));
}

/// A successful step leaves the buyers' volumes and the volume period as
/// they were.
pub open spec fn volume_kept(s: ContractView, r: crate::state::Step) -> bool {
    r is Ok ==> r->Ok_0.0.buyer_volume == s.buyer_volume && r->Ok_0.0.volume_tiers == s.volume_tiers
}

/// Buyer volume grows only when a buyer releases a whole escrow: creating
/// and funding escrows, releasing items, confirmed delivery, cancellation,
/// refund requests and dispute settlement leave every volume as it was.
pub proof fn law_volume_moves_only_on_release(
    s: ContractView,
    buyer: Seq<u8>,
    seller: Seq<u8>,
    token: Seq<u8>,
    amount: i128,
    metadata: Option<Seq<u8>>,
    arbiter: Option<Seq<u8>>,
    items: Option<Seq<EscrowItemView>>,
    tracking_id: Option<Seq<u8>>,
    ledger_sequence: u32,
    escrow_id: u64,
    item_index: u32,
    actor: Seq<u8>,
    reason: RefundReason,
    evidence_hash: Seq<u8>,
    ledger_timestamp: u64,
    resolution: u32,
)
    ensures
        ({
            let c = s.spec_create_escrow(
                buyer,
                seller,
                token,
                amount,
                metadata,
                arbiter,
                items,
                tracking_id,
                ledger_sequence,
            );
            c is Ok ==> c->Ok_0.0.buyer_volume == s.buyer_volume && c->Ok_0.0.volume_tiers == s.volume_tiers
        }),
        ({
            let r = s.spec_refund_escrow(escrow_id, actor, amount, reason, evidence_hash, ledger_timestamp);
            r is Ok ==> r->Ok_0.0.buyer_volume == s.buyer_volume && r->Ok_0.0.volume_tiers == s.volume_tiers
        }),
        volume_kept(s, s.spec_fund(escrow_id, None)),
        volume_kept(s, s.spec_fund(escrow_id, Some(actor))),
        volume_kept(s, s.spec_release_item(escrow_id, item_index)),
        volume_kept(s, s.spec_verify_delivery(escrow_id)),
        volume_kept(s, s.spec_propose_cancellation(escrow_id, actor)),
        volume_kept(s, s.spec_accept_cancellation(escrow_id, actor)),
        volume_kept(s, s.spec_resolve_dispute(escrow_id, resolution)),
        volume_kept(s, s.spec_cancel_unfunded(escrow_id, ledger_sequence)),
{
    let r = s.spec_resolve_dispute(escrow_id, resolution);
    if r is Ok {
        let e = s.escrows[escrow_id];
        let s1 = if resolution == 0 {
            crate::state::ContractView {
                escrows: s.escrows.insert(
                    escrow_id,
                    crate::types::EscrowView { status: EscrowStatus::Released, cancellation_proposer: None, ..e },
                ),
                total_released: (s.total_released + e.amount) as i128,
                ..s
            }
        } else {
            s.spec_refund_buyer(escrow_id, e)
        };
        assert(s1.buyer_volume == s.buyer_volume);
    }
    let v = s.spec_verify_delivery(escrow_id);
    if v is Ok {
        let e = s.escrows[escrow_id];
        let fee = s.spec_delivery_fee_of(e);
        assert(s.spec_collect_fee(e.token, fee).buyer_volume == s.buyer_volume);
    }
}

} // verus!

//! The outcome of each escrow operation on the inputs it accepts, stated
//! over the model: when it succeeds, which tokens move, what the fee is and
//! what the escrow becomes, and which error each refused input gets.
use vstd::prelude::*;
use crate::create::BulkRequestView;
use crate::errors::ContractError;
use crate::events::{EffectView, EventView};
use crate::fees::{spec_capped_fee, spec_discounted_bps, spec_fee_bps, spec_sat_add};
use crate::release::{fits_i128, spec_all_released};
use crate::state::ContractView;
use crate::disputes::spec_has_released_items;
use crate::types::{
    EscrowItemView, EscrowStatus, EscrowView, RefundReason, RefundRequestView, RefundStatus,
    MAX_VOLUME_DISCOUNT_BPS,
};

verus! {

/// Exactly one effect of the list moves tokens out of the contract: the one
/// at `index`.
pub open spec fn single_payout(effects: Seq<EffectView>, index: int) -> bool {
    &&& 0 <= index < effects.len()
    &&& effects[index] is TransferOut
    &&& forall|k: int| 0 <= k < effects.len() && k != index ==> !((#[trigger] effects[k]) is TransferOut)
}

/// No effect of the list moves tokens.
pub open spec fn no_transfer(effects: Seq<EffectView>) -> bool {
    forall|k: int|
        0 <= k < effects.len() ==> !((#[trigger] effects[k]) is TransferOut) && !(effects[k] is TransferIn)
}

/// A buyer releasing a pending escrow succeeds whenever a due fee has a
/// collector. The fee is zero for a whitelisted buyer; otherwise the token's
/// rate (the native rate for the native asset) less the buyer's tier
/// discount, itself capped at `MAX_VOLUME_DISCOUNT_BPS` and subtracted with
/// saturation, applied to the amount (rounded down), then raised to the
/// minimum fee, lowered to a positive maximum fee, and never more than the
/// amount. A buyer of tier 0 pays the undiscounted rate. The seller receives
/// the amount less the fee in the one payout; the fee is credited to the
/// collector and to the total of fees; the escrow alone changes, to
/// `Released` with no cancellation proposal.
pub proof fn law_release_escrow_outcome(s: ContractView, escrow_id: u64, ledger_sequence: u32)
    requires
        !s.paused,
        s.escrows.contains_key(escrow_id),
        s.escrows[escrow_id].status == EscrowStatus::Pending,
        s.escrows[escrow_id].amount >= 0,
        s.spec_release_fee_of(s.escrows[escrow_id], ledger_sequence) > 0 ==> s.fee_collector is Some,
        !s.spec_release_escrow_overflows(escrow_id, ledger_sequence),
    ensures
        ({
            let e = s.escrows[escrow_id];
            let tiers = s.spec_tiers();
            let tier = tiers.spec_tier(s.spec_buyer_volume(e.buyer, ledger_sequence));
            let b = s.spec_effective_bps(e.token);
            let d = tiers.spec_discount_bps(tier);
            let capped_d = if d < MAX_VOLUME_DISCOUNT_BPS { d } else { MAX_VOLUME_DISCOUNT_BPS };
            let fee = s.spec_release_fee_of(e, ledger_sequence);
            let r = s.spec_release_escrow(escrow_id, ledger_sequence);
            &&& r is Ok
            &&& s.spec_fee_exempt(e.buyer) ==> fee == 0
            &&& !s.spec_fee_exempt(e.buyer) ==> fee == spec_capped_fee(
                spec_fee_bps(e.amount as int, spec_discounted_bps(b, d) as int),
                s.min_fee as int,
                s.max_fee as int,
                e.amount as int,
            )
            &&& spec_discounted_bps(b, d) == if b >= capped_d { (b - capped_d) as u32 } else { 0 }
            &&& tier == 0 ==> d == 0
            &&& d == 0 ==> spec_discounted_bps(b, d) == b
            &&& 0 <= fee <= e.amount
            &&& s.max_fee > 0 ==> fee <= s.max_fee
            &&& single_payout(r->Ok_0.1, 1)
            &&& r->Ok_0.1[1] == (EffectView::TransferOut { token: e.token, to: e.seller, amount: (e.amount - fee) as i128 })
            &&& r->Ok_0.0.escrows == s.escrows.insert(
                escrow_id,
                EscrowView { status: EscrowStatus::Released, cancellation_proposer: None, ..e },
            )
            &&& r->Ok_0.0.total_released == s.total_released + e.amount
            &&& fee > 0 ==> r->Ok_0.0.total_fees_collected == s.total_fees_collected + fee
            &&& fee > 0 ==> r->Ok_0.0.spec_pending_fee(s.fee_collector.unwrap(), e.token) == spec_sat_add(
                s.spec_pending_fee(s.fee_collector.unwrap(), e.token) as int,
                fee as int,
            )
            &&& fee == 0 ==> r->Ok_0.0.total_fees_collected == s.total_fees_collected
            &&& fee == 0 ==> r->Ok_0.0.pending_fees == s.pending_fees
            &&& fee == 0 ==> forall|k: int| 0 <= k < r->Ok_0.1.len() ==> !((#[trigger] r->Ok_0.1[k]) matches EffectView::Emit(
                EventView::FeeCollected { .. },
            ))
        }),
{
    let e = s.escrows[escrow_id];
    let fee = s.spec_release_fee_of(e, ledger_sequence);
    crate::laws::law_release_fee_bounds(
        e.amount,
        s.spec_fee_exempt(e.buyer),
        s.spec_effective_bps(e.token),
        s.spec_tiers().spec_discount_bps(s.spec_tiers().spec_tier(s.spec_buyer_volume(e.buyer, ledger_sequence))),
        s.min_fee,
        s.max_fee,
    );
    let r = s.spec_release_escrow(escrow_id, ledger_sequence);
    let effects = r->Ok_0.1;
    let s1 = s.spec_collect_fee(e.token, fee);
    assert(s1.spec_recorded_volume(e.buyer) == s.spec_recorded_volume(e.buyer));
    assert forall|k: int| 0 <= k < effects.len() && k != 1 implies !((#[trigger] effects[k]) is TransferOut) by {
        if fee > 0 {
            assert(effects.len() == 6);
        } else {
            assert(effects.len() == 5);
        }
    }
    if fee == 0 {
        assert(effects.len() == 5);
        assert forall|k: int| 0 <= k < effects.len() implies !((#[trigger] effects[k]) matches EffectView::Emit(
            EventView::FeeCollected { .. },
        )) by {}
    }
}

/// Releasing an unreleased item of a pending escrow succeeds: the seller
/// receives the item's amount, without fee, in the one payout; that item
/// alone becomes released; the total released grows by its amount; and the
/// escrow becomes `Released` exactly when every item is now released.
pub proof fn law_release_item_outcome(s: ContractView, escrow_id: u64, item_index: u32)
    requires
        !s.paused,
        s.escrows.contains_key(escrow_id),
        s.escrows[escrow_id].status == EscrowStatus::Pending,
        item_index < s.escrows[escrow_id].items.len(),
        !s.escrows[escrow_id].items[item_index as int].released,
        fits_i128(s.total_released + s.escrows[escrow_id].items[item_index as int].amount),
    ensures
        ({
            let e = s.escrows[escrow_id];
            let i = item_index as int;
            let item = e.items[i];
            let items = e.items.update(i, EscrowItemView { released: true, ..item });
            let r = s.spec_release_item(escrow_id, item_index);
            &&& r is Ok
            &&& single_payout(r->Ok_0.1, 1)
            &&& r->Ok_0.1[1] == (EffectView::TransferOut { token: e.token, to: e.seller, amount: item.amount })
            &&& r->Ok_0.1[2] == EffectView::Emit(EventView::FundsReleased { escrow_id, amount: item.amount, fee: 0 })
            &&& r->Ok_0.0.escrows[escrow_id].items == items
            &&& forall|j: int| 0 <= j < e.items.len() && j != i ==> #[trigger] items[j] == e.items[j]
            &&& r->Ok_0.0.total_released == s.total_released + item.amount
            &&& r->Ok_0.0.escrows[escrow_id].status == if spec_all_released(items) {
                EscrowStatus::Released
            } else {
                EscrowStatus::Pending
            }
        }),
{
    let r = s.spec_release_item(escrow_id, item_index);
    let effects = r->Ok_0.1;
    assert forall|k: int| 0 <= k < effects.len() && k != 1 implies !((#[trigger] effects[k]) is TransferOut) by {
        assert(effects.len() == 3 || effects.len() == 4);
    }
}

/// Confirmation of delivery is refused, in this order: without an oracle
/// (`NotOracle`), for an unknown escrow (`EscrowNotFound`), for an escrow
/// that is not pending (`InvalidEscrowState`), for one without a tracking
/// identifier (`Unauthorized`).
pub proof fn law_verify_delivery_refusals(s: ContractView, escrow_id: u64)
    requires
        !s.paused,
    ensures
        s.oracle is None ==> s.spec_verify_delivery(escrow_id) == Err::<(ContractView, Seq<EffectView>), ContractError>(
            ContractError::NotOracle,
        ),
        s.oracle is Some && !s.escrows.contains_key(escrow_id) ==> s.spec_verify_delivery(escrow_id) == Err::<
            (ContractView, Seq<EffectView>),
            ContractError,
        >(ContractError::EscrowNotFound),
        s.oracle is Some && s.escrows.contains_key(escrow_id) && s.escrows[escrow_id].status != EscrowStatus::Pending
            ==> s.spec_verify_delivery(escrow_id) == Err::<(ContractView, Seq<EffectView>), ContractError>(
            ContractError::InvalidEscrowState,
        ),
        s.oracle is Some && s.escrows.contains_key(escrow_id) && s.escrows[escrow_id].status == EscrowStatus::Pending
            && s.escrows[escrow_id].tracking_id is None ==> s.spec_verify_delivery(escrow_id) == Err::<
            (ContractView, Seq<EffectView>),
            ContractError,
        >(ContractError::Unauthorized),
{
}

/// Confirmation of delivery of a pending escrow with a tracking identifier
/// succeeds whenever a due fee has a collector: the oracle authorises; the
/// fee is the token's rate on the amount (rounded down) within the minimum,
/// a positive maximum and the amount, with no whitelist or volume discount;
/// the seller receives the rest in the one payout; the fee is credited to
/// the collector; the delivery and the status change (by the oracle) are
/// published; the escrow alone changes, to `Released`.
pub proof fn law_verify_delivery_outcome(s: ContractView, escrow_id: u64)
    requires
        !s.paused,
        s.oracle is Some,
        s.escrows.contains_key(escrow_id),
        s.escrows[escrow_id].status == EscrowStatus::Pending,
        s.escrows[escrow_id].tracking_id is Some,
        s.escrows[escrow_id].amount >= 0,
        s.spec_delivery_fee_of(s.escrows[escrow_id]) > 0 ==> s.fee_collector is Some,
        !s.spec_verify_delivery_overflows(escrow_id),
    ensures
        ({
            let e = s.escrows[escrow_id];
            let oracle = s.oracle.unwrap();
            let fee = s.spec_delivery_fee_of(e);
            let r = s.spec_verify_delivery(escrow_id);
            &&& r is Ok
            &&& fee == spec_capped_fee(
                spec_fee_bps(e.amount as int, s.spec_effective_bps(e.token) as int),
                s.min_fee as int,
                s.max_fee as int,
                e.amount as int,
            )
            &&& 0 <= fee <= e.amount
            &&& r->Ok_0.1[0] == EffectView::RequireAuth(oracle)
            &&& single_payout(r->Ok_0.1, 1)
            &&& r->Ok_0.1[1] == (EffectView::TransferOut { token: e.token, to: e.seller, amount: (e.amount - fee) as i128 })
            &&& r->Ok_0.1.contains(
                EffectView::Emit(EventView::DeliveryVerified { escrow_id, tracking_id: e.tracking_id.unwrap() }),
            )
            &&& r->Ok_0.1.last() == EffectView::Emit(
                EventView::StatusChange {
                    escrow_id,
                    from_status: EscrowStatus::Pending,
                    to_status: EscrowStatus::Released,
                    actor: oracle,
                },
            )
            &&& r->Ok_0.0.escrows == s.escrows.insert(
                escrow_id,
                EscrowView { status: EscrowStatus::Released, cancellation_proposer: None, ..e },
            )
            &&& r->Ok_0.0.total_released == s.total_released + e.amount
            &&& fee > 0 ==> r->Ok_0.0.spec_pending_fee(s.fee_collector.unwrap(), e.token) == spec_sat_add(
                s.spec_pending_fee(s.fee_collector.unwrap(), e.token) as int,
                fee as int,
            )
            &&& fee > 0 ==> r->Ok_0.0.total_fees_collected == s.total_fees_collected + fee
        }),
{
    let e = s.escrows[escrow_id];
    crate::laws::law_delivery_fee_bounds(s, e);
    let r = s.spec_verify_delivery(escrow_id);
    let effects = r->Ok_0.1;
    let fee = s.spec_delivery_fee_of(e);
    let ev = EffectView::Emit(EventView::DeliveryVerified { escrow_id, tracking_id: e.tracking_id.unwrap() });
    if fee > 0 {
        assert(effects.len() == 6);
        assert(effects[4] == ev);
    } else {
        assert(effects.len() == 5);
        assert(effects[3] == ev);
    }
    assert forall|k: int| 0 <= k < effects.len() && k != 1 implies !((#[trigger] effects[k]) is TransferOut) by {}
}

/// A refund request by someone other than the buyer is refused with
/// `Unauthorized`; by the buyer, for an escrow that is not pending, with
/// `InvalidEscrowState`; for an amount that is not positive or exceeds the
/// escrow's, with `InvalidEscrowAmount`.
pub proof fn law_refund_escrow_refusals(
    s: ContractView,
    escrow_id: u64,
    initiator: Seq<u8>,
    amount: i128,
    reason: RefundReason,
    evidence_hash: Seq<u8>,
    ledger_timestamp: u64,
)
    requires
        !s.paused,
        s.escrows.contains_key(escrow_id),
    ensures
        ({
            let e = s.escrows[escrow_id];
            let r = s.spec_refund_escrow(escrow_id, initiator, amount, reason, evidence_hash, ledger_timestamp);
            &&& initiator != e.buyer ==> r == Err::<(ContractView, Seq<EffectView>, u64), ContractError>(
                ContractError::Unauthorized,
            )
            &&& initiator == e.buyer && e.status != EscrowStatus::Pending ==> r == Err::<
                (ContractView, Seq<EffectView>, u64),
                ContractError,
            >(ContractError::InvalidEscrowState)
            &&& initiator == e.buyer && e.status == EscrowStatus::Pending && (amount <= 0 || amount > e.amount)
                ==> r == Err::<(ContractView, Seq<EffectView>, u64), ContractError>(
                ContractError::InvalidEscrowAmount,
            )
        }),
{
}

/// A valid refund request by the buyer of a pending escrow records a pending
/// request under the next identifier, appends it to the escrow's requests,
/// puts the escrow into dispute and counts the dispute; no tokens move and
/// the totals of funds stay.
pub proof fn law_refund_escrow_outcome(
    s: ContractView,
    escrow_id: u64,
    amount: i128,
    reason: RefundReason,
    evidence_hash: Seq<u8>,
    ledger_timestamp: u64,
)
    requires
        !s.paused,
        s.escrows.contains_key(escrow_id),
        s.escrows[escrow_id].status == EscrowStatus::Pending,
        0 < amount <= s.escrows[escrow_id].amount,
        s.refund_count < u64::MAX,
        s.total_disputed < u32::MAX,
    ensures
        ({
            let e = s.escrows[escrow_id];
            let n = (s.refund_count + 1) as u64;
            let r = s.spec_refund_escrow(escrow_id, e.buyer, amount, reason, evidence_hash, ledger_timestamp);
            let s2 = r->Ok_0.0;
            let list = if s.escrow_refunds.contains_key(escrow_id) {
                s.escrow_refunds[escrow_id]
            } else {
                Seq::empty()
            };
            &&& r is Ok
            &&& r->Ok_0.2 == n
            &&& s2.refund_requests[n] == RefundRequestView {
                request_id: n,
                escrow_id,
                requester: e.buyer,
                amount,
                reason,
                status: RefundStatus::Pending,
                created_at: ledger_timestamp,
                evidence_hash: Some(evidence_hash),
                counter_evidence_hash: None,
            }
            &&& s2.escrow_refunds[escrow_id] == list.push(n)
            &&& s2.escrows[escrow_id].status == EscrowStatus::Disputed
            &&& s2.total_disputed == s.total_disputed + 1
            &&& s2.total_funded == s.total_funded
            &&& s2.total_released == s.total_released
            &&& s2.total_refunded == s.total_refunded
            &&& no_transfer(r->Ok_0.1)
        }),
{
}

/// A party's cancellation proposal on a pending escrow with no released
/// item: a stranger is refused (`Unauthorized`); a first proposal is only
/// recorded, with no tokens moving; proposing again changes nothing; a
/// proposal after the other party's refunds the buyer the whole amount and
/// settles the escrow as `Refunded`.
pub proof fn law_propose_cancellation_cases(s: ContractView, escrow_id: u64, actor: Seq<u8>)
    requires
        !s.paused,
        s.escrows.contains_key(escrow_id),
        s.escrows[escrow_id].status == EscrowStatus::Pending,
        !spec_has_released_items(s.escrows[escrow_id].items),
        fits_i128(s.total_refunded + s.escrows[escrow_id].amount),
    ensures
        ({
            let e = s.escrows[escrow_id];
            let r = s.spec_propose_cancellation(escrow_id, actor);
            &&& actor != e.buyer && actor != e.seller ==> r == Err::<(ContractView, Seq<EffectView>), ContractError>(
                ContractError::Unauthorized,
            )
            &&& (actor == e.buyer || actor == e.seller) && e.cancellation_proposer is None ==> {
                &&& r is Ok
                &&& r->Ok_0.0.escrows[escrow_id].cancellation_proposer == Some(actor)
                &&& r->Ok_0.0.escrows[escrow_id].status == EscrowStatus::Pending
                &&& no_transfer(r->Ok_0.1)
            }
            &&& (actor == e.buyer || actor == e.seller) && e.cancellation_proposer == Some(actor) ==> {
                &&& r is Ok
                &&& r->Ok_0.0 == s
                &&& no_transfer(r->Ok_0.1)
            }
            &&& (actor == e.buyer || actor == e.seller) && e.cancellation_proposer is Some
                && e.cancellation_proposer != Some(actor) ==> {
                &&& r is Ok
                &&& single_payout(r->Ok_0.1, 1)
                &&& r->Ok_0.1[1] == (EffectView::TransferOut { token: e.token, to: e.buyer, amount: e.amount })
                &&& r->Ok_0.0.escrows[escrow_id].status == EscrowStatus::Refunded
                &&& r->Ok_0.0.escrows[escrow_id].cancellation_proposer is None
                &&& r->Ok_0.0.total_refunded == s.total_refunded + e.amount
            }
        }),
{
}

/// The escrow listing from `start` gives, for each identifier from `start`
/// up to the lesser of `start + limit - 1` and the last identifier issued,
/// the escrow under it if any; nothing when no escrow was issued or `start`
/// is zero or past the last identifier.
pub proof fn law_get_escrows_listing(s: ContractView, start: u64, limit: u32)
    ensures
        ({
            let c = s.escrow_counter;
            let l = s.spec_get_escrows(start, limit);
            &&& l.len() == if c == 0 || start == 0 || start > c {
                0
            } else if limit <= c - start + 1 {
                limit as int
            } else {
                c - start + 1
            }
            &&& forall|k: int| 0 <= k < l.len() ==> #[trigger] l[k] == if s.escrows.contains_key((start + k) as u64) {
                Some(s.escrows[(start + k) as u64])
            } else {
                None
            }
        }),
{
}

/// The escrow that bulk creation makes for one request.
pub open spec fn bulk_escrow(buyer: Seq<u8>, token: Seq<u8>, q: BulkRequestView, ledger_sequence: u32) -> EscrowView {
    EscrowView {
        buyer,
        seller: q.seller,
        token,
        amount: q.amount,
        status: EscrowStatus::Pending,
        metadata: q.metadata,
        arbiter: q.arbiter,
        cancellation_proposer: None,
        items: match q.items {
            Some(i) => i,
            None => Seq::empty(),
        },
        created_at: ledger_sequence,
        tracking_id: None,
        funded: false,
    }
}

proof fn lemma_bulk_escrows_from(
    t: ContractView,
    buyer: Seq<u8>,
    token: Seq<u8>,
    requests: Seq<BulkRequestView>,
    i: int,
    ledger_sequence: u32,
)
    requires
        0 <= i <= requests.len(),
        t.spec_bulk_from(buyer, token, requests, i, ledger_sequence) is Ok,
    ensures
        ({
            let (t2, _, ids) = t.spec_bulk_from(buyer, token, requests, i, ledger_sequence)->Ok_0;
            &&& ids.len() == requests.len() - i
            &&& t2.escrow_counter == t.escrow_counter + ids.len()
            &&& forall|k: int| 0 <= k < ids.len() ==> #[trigger] ids[k] == t.escrow_counter + 1 + k
            &&& forall|k: int| 0 <= k < ids.len() ==> {
                &&& t2.escrows.contains_key(#[trigger] ids[k])
                &&& t2.escrows[ids[k]] == bulk_escrow(buyer, token, requests[i + k], ledger_sequence)
            }
            &&& forall|id: u64| id <= t.escrow_counter ==> {
                &&& #[trigger] t2.escrows.contains_key(id) == t.escrows.contains_key(id)
                &&& t.escrows.contains_key(id) ==> t2.escrows[id] == t.escrows[id]
            }
        }),
    decreases requests.len() - i,
{
    if i < requests.len() {
        let q = requests[i];
        let (t1, _, id) = t.spec_create_internal(
            buyer,
            q.seller,
            token,
            q.amount,
            q.metadata,
            q.arbiter,
            q.items,
            None,
            ledger_sequence,
        )->Ok_0;
        lemma_bulk_escrows_from(t1, buyer, token, requests, i + 1, ledger_sequence);
        let (t2, _, rest) = t1.spec_bulk_from(buyer, token, requests, i + 1, ledger_sequence)->Ok_0;
        let ids = t.spec_bulk_from(buyer, token, requests, i, ledger_sequence)->Ok_0.2;
        assert(ids == seq![id] + rest);
        assert(t1.escrows[id] == bulk_escrow(buyer, token, q, ledger_sequence));
        assert(id == t1.escrow_counter);
        assert(t1.escrows.contains_key(id));
        assert(t2.escrows.contains_key(id) == t1.escrows.contains_key(id));
        assert(t2.escrows[id] == t1.escrows[id]);
        assert forall|k: int| 0 <= k < ids.len() implies #[trigger] ids[k] == t.escrow_counter + 1 + k by {
            if k > 0 {
                assert(ids[k] == rest[k - 1]);
            }
        }
        assert forall|k: int| 0 <= k < ids.len() implies {
            &&& t2.escrows.contains_key(#[trigger] ids[k])
            &&& t2.escrows[ids[k]] == bulk_escrow(buyer, token, requests[i + k], ledger_sequence)
        } by {
            if k > 0 {
                assert(ids[k] == rest[k - 1]);
                assert(requests[i + k] == requests[(i + 1) + (k - 1)]);
            }
        }
    }
}

/// A successful bulk creation makes, for each request in order, the escrow
/// that creating it alone would make (pending, unfunded, no tracking
/// identifier), under consecutive identifiers after the last one issued;
/// the escrows that existed before are unchanged; and a single event lists
/// the identifiers. (When a request fails, the whole call fails and the
/// state is unchanged: the `ensures` of `create_bulk_escrows` states that.)
pub proof fn law_bulk_creation_outcome(
    s: ContractView,
    buyer: Seq<u8>,
    token: Seq<u8>,
    requests: Seq<BulkRequestView>,
    ledger_sequence: u32,
)
    requires
        s.spec_create_bulk_escrows(buyer, token, requests, ledger_sequence) is Ok,
    ensures
        ({
            let (s2, effects, ids) = s.spec_create_bulk_escrows(buyer, token, requests, ledger_sequence)->Ok_0;
            &&& ids.len() == requests.len()
            &&& forall|k: int| 0 <= k < ids.len() ==> #[trigger] ids[k] == s.escrow_counter + 1 + k
            &&& forall|k: int| 0 <= k < ids.len() ==> {
                &&& s2.escrows.contains_key(#[trigger] ids[k])
                &&& s2.escrows[ids[k]] == bulk_escrow(buyer, token, requests[k], ledger_sequence)
            }
            &&& forall|id: u64| id <= s.escrow_counter ==> {
                &&& #[trigger] s2.escrows.contains_key(id) == s.escrows.contains_key(id)
                &&& s.escrows.contains_key(id) ==> s2.escrows[id] == s.escrows[id]
            }
            &&& effects[0] == EffectView::RequireAuth(buyer)
            &&& effects.last() == EffectView::Emit(EventView::BulkEscrowCreated { buyer, token, escrow_ids: ids })
        }),
{
    lemma_bulk_escrows_from(s, buyer, token, requests, 0, ledger_sequence);
}

} // verus!

//! The contract's books: the totals of created, released and refunded
//! amounts, against what the contract still holds for each escrow.
//!
//! Each law here states, for one operation, that it changes at most one
//! escrow and moves the books by exactly the change in what the contract
//! holds for that escrow. By induction over a run of such operations, the
//! books then equal the sum of what is held for all escrows. Cancelling an
//! expired escrow is the one step that drops an escrow without moving the
//! books; it only ever removes an escrow that was never funded.
use vstd::prelude::*;
use crate::create::{spec_items_sum, BulkRequestView};
use crate::disputes::spec_has_released_items;
use crate::laws::ids_issued;
use crate::release::{fits_i128, spec_all_released};
use crate::state::ContractView;
use crate::types::{EscrowItemView, EscrowStatus, EscrowView, RefundReason};

verus! {

/// The sum of the amounts of the items already released.
pub open spec fn released_total(items: Seq<EscrowItemView>) -> int
    decreases items.len(),
{
    if items.len() == 0 {
        0
    } else {
        released_total(items.drop_last()) + if items.last().released {
            items.last().amount as int
        } else {
            0
        }
    }
}

/// What the contract holds for an escrow: while it is pending or disputed,
/// its amount less the items already released; nothing once it is settled.
pub open spec fn held_for(e: EscrowView) -> int {
    if e.status == EscrowStatus::Pending || e.status == EscrowStatus::Disputed {
        e.amount - released_total(e.items)
    } else {
        0
    }
}

/// What the contract holds for the escrow with this identifier, if any.
pub open spec fn held_in(s: ContractView, escrow_id: u64) -> int {
    if s.escrows.contains_key(escrow_id) {
        held_for(s.escrows[escrow_id])
    } else {
        0
    }
}

/// The books: created amounts less released and refunded amounts.
pub open spec fn books(s: ContractView) -> int {
    s.total_funded - s.total_released - s.total_refunded
}

/// From `s` to `s2` no escrow but `escrow_id` changes, and the books move by
/// exactly the change in what is held for it.
pub open spec fn books_follow(s: ContractView, s2: ContractView, escrow_id: u64) -> bool {
    &&& s2.escrows.remove(escrow_id) == s.escrows.remove(escrow_id)
    &&& books(s2) - books(s) == held_in(s2, escrow_id) - held_in(s, escrow_id)
}

proof fn lemma_released_total_none(items: Seq<EscrowItemView>)
    requires
        !spec_has_released_items(items),
    ensures
        released_total(items) == 0,
    decreases items.len(),
{
    if items.len() > 0 {
        let rest = items.drop_last();
        assert(!items[items.len() - 1].released);
        assert forall|j: int| 0 <= j < rest.len() implies !#[trigger] rest[j].released by {
            assert(rest[j] == items[j]);
        }
        lemma_released_total_none(rest);
    }
}

proof fn lemma_released_total_release(items: Seq<EscrowItemView>, i: int)
    requires
        0 <= i < items.len(),
        !items[i].released,
    ensures
        released_total(items.update(i, EscrowItemView { released: true, ..items[i] }))
            == released_total(items) + items[i].amount,
    decreases items.len(),
{
    let updated = items.update(i, EscrowItemView { released: true, ..items[i] });
    if i == items.len() - 1 {
        assert(updated.drop_last() =~= items.drop_last());
    } else {
        assert(updated.drop_last() =~= items.drop_last().update(
            i,
            EscrowItemView { released: true, ..items[i] },
        ));
        lemma_released_total_release(items.drop_last(), i);
    }
}

proof fn lemma_released_total_all(items: Seq<EscrowItemView>)
    requires
        spec_all_released(items),
    ensures
        released_total(items) == spec_items_sum(items),
    decreases items.len(),
{
    if items.len() > 0 {
        let rest = items.drop_last();
        assert(items[items.len() - 1].released);
        assert forall|j: int| 0 <= j < rest.len() implies #[trigger] rest[j].released by {
            assert(rest[j] == items[j]);
        }
        lemma_released_total_all(rest);
    }
}

/// Creating an escrow adds its amount to the books, and the contract holds
/// that amount for the new escrow; no other escrow changes.
pub proof fn law_books_create(
    s: ContractView,
    buyer: Seq<u8>,
    seller: Seq<u8>,
    token: Seq<u8>,
    amount: i128,
    metadata: Option<Seq<u8>>,
    arbiter: Option<Seq<u8>>,
    items: Option<Seq<EscrowItemView>>,
    tracking_id: Option<Seq<u8>>,
    ledger_sequence: u32,
)
    requires
        ids_issued(s),
        s.spec_create_escrow(buyer, seller, token, amount, metadata, arbiter, items, tracking_id, ledger_sequence) is Ok,
        fits_i128(s.total_funded + amount),
        items is Some ==> !spec_has_released_items(items.unwrap()),
    ensures
        ({
            let (s2, _, id) = s.spec_create_escrow(
                buyer,
                seller,
                token,
                amount,
                metadata,
                arbiter,
                items,
                tracking_id,
                ledger_sequence,
            )->Ok_0;
            &&& books_follow(s, s2, id)
            &&& held_in(s2, id) == amount
        }),
{
    let id = (s.escrow_counter + 1) as u64;
    assert(!s.escrows.contains_key(id));
    let (s2, _, _) = s.spec_create_escrow(
        buyer,
        seller,
        token,
        amount,
        metadata,
        arbiter,
        items,
        tracking_id,
        ledger_sequence,
    )->Ok_0;
    match items {
        Some(i) => lemma_released_total_none(i),
        None => assert(released_total(Seq::<EscrowItemView>::empty()) == 0),
    }
    assert(s2.escrows.remove(id) =~= s.escrows.remove(id));
}

/// Releasing a whole escrow takes its amount off the books, and the
/// contract holds nothing more for it.
pub proof fn law_books_release_escrow(s: ContractView, escrow_id: u64, ledger_sequence: u32)
    requires
        s.spec_release_escrow(escrow_id, ledger_sequence) is Ok,
        !s.spec_release_escrow_overflows(escrow_id, ledger_sequence),
        !spec_has_released_items(s.escrows[escrow_id].items),
    ensures
        books_follow(s, s.spec_release_escrow(escrow_id, ledger_sequence)->Ok_0.0, escrow_id),
{
    let s2 = s.spec_release_escrow(escrow_id, ledger_sequence)->Ok_0.0;
    lemma_released_total_none(s.escrows[escrow_id].items);
    assert(s2.escrows.remove(escrow_id) =~= s.escrows.remove(escrow_id));
}

/// Releasing an escrow on confirmed delivery takes its amount off the
/// books, and the contract holds nothing more for it.
pub proof fn law_books_verify_delivery(s: ContractView, escrow_id: u64)
    requires
        s.spec_verify_delivery(escrow_id) is Ok,
        !s.spec_verify_delivery_overflows(escrow_id),
        !spec_has_released_items(s.escrows[escrow_id].items),
    ensures
        books_follow(s, s.spec_verify_delivery(escrow_id)->Ok_0.0, escrow_id),
{
    let s2 = s.spec_verify_delivery(escrow_id)->Ok_0.0;
    lemma_released_total_none(s.escrows[escrow_id].items);
    assert(s2.escrows.remove(escrow_id) =~= s.escrows.remove(escrow_id));
}

/// Releasing one item takes its amount off the books and off what the
/// contract holds for the escrow; when the items sum to the escrow amount,
/// as creation ensures, releasing the last item leaves nothing held.
pub proof fn law_books_release_item(s: ContractView, escrow_id: u64, item_index: u32)
    requires
        s.spec_release_item(escrow_id, item_index) is Ok,
        !s.spec_release_item_overflows(escrow_id, item_index),
        spec_items_sum(s.escrows[escrow_id].items) == s.escrows[escrow_id].amount,
    ensures
        books_follow(s, s.spec_release_item(escrow_id, item_index)->Ok_0.0, escrow_id),
{
    let e = s.escrows[escrow_id];
    let i = item_index as int;
    let items = e.items.update(i, EscrowItemView { released: true, ..e.items[i] });
    let s2 = s.spec_release_item(escrow_id, item_index)->Ok_0.0;
    lemma_released_total_release(e.items, i);
    if spec_all_released(items) {
        lemma_released_total_all(items);
        assert(spec_items_sum(items) == spec_items_sum(e.items)) by {
            lemma_items_sum_ignores_release(e.items, i);
        }
    }
    assert(s2.escrows.remove(escrow_id) =~= s.escrows.remove(escrow_id));
}

proof fn lemma_items_sum_ignores_release(items: Seq<EscrowItemView>, i: int)
    requires
        0 <= i < items.len(),
    ensures
        spec_items_sum(items.update(i, EscrowItemView { released: true, ..items[i] }))
            == spec_items_sum(items),
    decreases items.len(),
{
    let updated = items.update(i, EscrowItemView { released: true, ..items[i] });
    if i == items.len() - 1 {
        assert(updated.drop_last() =~= items.drop_last());
    } else {
        assert(updated.drop_last() =~= items.drop_last().update(
            i,
            EscrowItemView { released: true, ..items[i] },
        ));
        lemma_items_sum_ignores_release(items.drop_last(), i);
    }
}

/// Proposing a cancellation either only records the proposal, or, when the
/// other party proposed already, refunds the buyer: the amount leaves the
/// books and nothing more is held for the escrow.
pub proof fn law_books_propose_cancellation(s: ContractView, escrow_id: u64, actor: Seq<u8>)
    requires
        s.spec_propose_cancellation(escrow_id, actor) is Ok,
        !s.spec_cancellation_overflows(escrow_id, actor),
    ensures
        books_follow(s, s.spec_propose_cancellation(escrow_id, actor)->Ok_0.0, escrow_id),
{
    let s2 = s.spec_propose_cancellation(escrow_id, actor)->Ok_0.0;
    lemma_released_total_none(s.escrows[escrow_id].items);
    assert(s2.escrows.remove(escrow_id) =~= s.escrows.remove(escrow_id));
}

/// Accepting a cancellation refunds the buyer: the amount leaves the books
/// and nothing more is held for the escrow.
pub proof fn law_books_accept_cancellation(s: ContractView, escrow_id: u64, actor: Seq<u8>)
    requires
        s.spec_accept_cancellation(escrow_id, actor) is Ok,
        !s.spec_cancellation_overflows(escrow_id, actor),
    ensures
        books_follow(s, s.spec_accept_cancellation(escrow_id, actor)->Ok_0.0, escrow_id),
{
    let s2 = s.spec_accept_cancellation(escrow_id, actor)->Ok_0.0;
    lemma_released_total_none(s.escrows[escrow_id].items);
    assert(s2.escrows.remove(escrow_id) =~= s.escrows.remove(escrow_id));
}

/// A refund request moves no funds: the books stay, and so does what is
/// held for the escrow, now disputed.
pub proof fn law_books_refund_escrow(
    s: ContractView,
    escrow_id: u64,
    initiator: Seq<u8>,
    amount: i128,
    reason: RefundReason,
    evidence_hash: Seq<u8>,
    ledger_timestamp: u64,
)
    requires
        s.spec_refund_escrow(escrow_id, initiator, amount, reason, evidence_hash, ledger_timestamp) is Ok,
    ensures
        books_follow(
            s,
            s.spec_refund_escrow(escrow_id, initiator, amount, reason, evidence_hash, ledger_timestamp)->Ok_0.0,
            escrow_id,
        ),
{
    let s2 = s.spec_refund_escrow(escrow_id, initiator, amount, reason, evidence_hash, ledger_timestamp)->Ok_0.0;
    assert(s2.escrows.remove(escrow_id) =~= s.escrows.remove(escrow_id));
}

/// Settling a dispute, either way, takes the escrow amount off the books,
/// and nothing more is held for the escrow.
pub proof fn law_books_resolve_dispute(s: ContractView, escrow_id: u64, resolution: u32)
    requires
        s.spec_resolve_dispute(escrow_id, resolution) is Ok,
        !s.spec_resolve_dispute_overflows(escrow_id, resolution),
        !spec_has_released_items(s.escrows[escrow_id].items),
    ensures
        books_follow(s, s.spec_resolve_dispute(escrow_id, resolution)->Ok_0.0, escrow_id),
{
    let s2 = s.spec_resolve_dispute(escrow_id, resolution)->Ok_0.0;
    lemma_released_total_none(s.escrows[escrow_id].items);
    assert(s2.escrows.remove(escrow_id) =~= s.escrows.remove(escrow_id));
}

/// The sum of the amounts of requests `i..`.
pub open spec fn requests_total(requests: Seq<BulkRequestView>, i: int) -> int
    decreases requests.len() - i,
{
    if i < 0 || i >= requests.len() {
        0
    } else {
        requests[i].amount + requests_total(requests, i + 1)
    }
}

/// No request of `i..` comes with an item already released.
pub open spec fn requests_unreleased(requests: Seq<BulkRequestView>, i: int) -> bool {
    forall|j: int|
        i <= j < requests.len() && (#[trigger] requests[j]).items is Some
            ==> !spec_has_released_items(requests[j].items.unwrap())
}

proof fn lemma_books_bulk_from(
    t: ContractView,
    buyer: Seq<u8>,
    token: Seq<u8>,
    requests: Seq<BulkRequestView>,
    i: int,
    ledger_sequence: u32,
)
    requires
        0 <= i <= requests.len(),
        ids_issued(t),
        t.spec_bulk_from(buyer, token, requests, i, ledger_sequence) is Ok,
        !t.spec_bulk_overflows_from(buyer, token, requests, i, ledger_sequence),
        requests_unreleased(requests, i),
    ensures
        ({
            let (t2, _, ids) = t.spec_bulk_from(buyer, token, requests, i, ledger_sequence)->Ok_0;
            &&& ids_issued(t2)
            &&& ids.len() == requests.len() - i
            &&& t2.escrow_counter == t.escrow_counter + ids.len()
            &&& forall|k: int| 0 <= k < ids.len() ==> #[trigger] ids[k] == t.escrow_counter + 1 + k
            &&& forall|k: int| 0 <= k < ids.len() ==> held_in(t2, #[trigger] ids[k]) == requests[i + k].amount
            &&& forall|id: u64| id <= t.escrow_counter ==> {
                &&& #[trigger] t2.escrows.contains_key(id) == t.escrows.contains_key(id)
                &&& t.escrows.contains_key(id) ==> t2.escrows[id] == t.escrows[id]
            }
            &&& books(t2) - books(t) == requests_total(requests, i)
        }),
    decreases requests.len() - i,
{
    if i < requests.len() {
        let q = requests[i];
        let (t1, _, id) = t.spec_create_internal(
            buyer,
            q.seller,
            token,
            q.amount,
            q.metadata,
            q.arbiter,
            q.items,
            None,
            ledger_sequence,
        )->Ok_0;
        assert(!t.escrows.contains_key(id));
        match q.items {
            Some(items) => lemma_released_total_none(items),
            None => assert(released_total(Seq::<EscrowItemView>::empty()) == 0),
        }
        assert(held_in(t1, id) == q.amount);
        assert(requests_unreleased(requests, i + 1));
        lemma_books_bulk_from(t1, buyer, token, requests, i + 1, ledger_sequence);
        let (t2, _, rest) = t1.spec_bulk_from(buyer, token, requests, i + 1, ledger_sequence)->Ok_0;
        let ids = t.spec_bulk_from(buyer, token, requests, i, ledger_sequence)->Ok_0.2;
        assert(ids == seq![id] + rest);
        assert(held_in(t2, id) == held_in(t1, id));
        assert forall|k: int| 0 <= k < ids.len() implies #[trigger] ids[k] == t.escrow_counter + 1 + k by {
            if k > 0 {
                assert(ids[k] == rest[k - 1]);
            }
        }
        assert forall|k: int| 0 <= k < ids.len() implies held_in(t2, #[trigger] ids[k]) == requests[i + k].amount by {
            if k > 0 {
                assert(ids[k] == rest[k - 1]);
                assert(held_in(t2, rest[k - 1]) == requests[i + 1 + (k - 1)].amount);
            }
        }
    }
}

/// A bulk creation adds the sum of the requested amounts to the books, and
/// the contract holds each requested amount for the escrow created for it;
/// the escrows that existed before are unchanged.
pub proof fn law_books_bulk(
    s: ContractView,
    buyer: Seq<u8>,
    token: Seq<u8>,
    requests: Seq<BulkRequestView>,
    ledger_sequence: u32,
)
    requires
        ids_issued(s),
        s.spec_create_bulk_escrows(buyer, token, requests, ledger_sequence) is Ok,
        !s.spec_bulk_traps(buyer, token, requests, ledger_sequence),
        requests_unreleased(requests, 0),
    ensures
        ({
            let (s2, _, ids) = s.spec_create_bulk_escrows(buyer, token, requests, ledger_sequence)->Ok_0;
            &&& ids.len() == requests.len()
            &&& forall|k: int| 0 <= k < ids.len() ==> held_in(s2, #[trigger] ids[k]) == requests[k].amount
            &&& forall|k: int| 0 <= k < ids.len() ==> !s.escrows.contains_key(#[trigger] ids[k])
            &&& forall|id: u64| #[trigger] s.escrows.contains_key(id)
                ==> s2.escrows.contains_key(id) && s2.escrows[id] == s.escrows[id]
            &&& books(s2) - books(s) == requests_total(requests, 0)
        }),
{
    lemma_books_bulk_from(s, buyer, token, requests, 0, ledger_sequence);
    let ids = s.spec_create_bulk_escrows(buyer, token, requests, ledger_sequence)->Ok_0.2;
    assert forall|k: int| 0 <= k < ids.len() implies !s.escrows.contains_key(#[trigger] ids[k]) by {
        assert(ids[k] == s.escrow_counter + 1 + k);
    }
}

/// Cancelling an expired escrow removes only an escrow that was never
/// funded: no tokens move, the books stay as they are, and no other escrow
/// changes.
pub proof fn law_books_cancel_unfunded(s: ContractView, escrow_id: u64, ledger_sequence: u32)
    requires
        s.spec_cancel_unfunded(escrow_id, ledger_sequence) is Ok,
    ensures
        ({
            let e = s.escrows[escrow_id];
            let (s2, effects) = s.spec_cancel_unfunded(escrow_id, ledger_sequence)->Ok_0;
            &&& s.escrows.contains_key(escrow_id)
            &&& !e.funded
            &&& e.status == EscrowStatus::Pending
            &&& s2.escrows == s.escrows.remove(escrow_id)
            &&& books(s2) == books(s)
            &&& forall|k: int| 0 <= k < effects.len() ==> !((#[trigger] effects[k]) is TransferIn)
                && !(effects[k] is TransferOut)
        }),
{
}

/// Funding an escrow records it as funded, so it can no longer be cancelled
/// as unfunded, however late.
pub proof fn law_funded_escrow_not_cancellable(
    s: ContractView,
    escrow_id: u64,
    payer: Option<Seq<u8>>,
    ledger_sequence: u32,
)
    requires
        s.spec_fund(escrow_id, payer) is Ok,
    ensures
        ({
            let s2 = s.spec_fund(escrow_id, payer)->Ok_0.0;
            &&& s2.escrows[escrow_id].funded
            &&& books(s2) == books(s)
            &&& s2.spec_cancel_unfunded(escrow_id, ledger_sequence) == Err::<
                (ContractView, Seq<crate::events::EffectView>),
                crate::errors::ContractError,
            >(crate::errors::ContractError::EscrowAlreadyFunded)
        }),
{
}

} // verus!

use vstd::prelude::*;
use crate::errors::ContractError;
use crate::events::{
    CancellationProposedEvent, Effect, EffectView, Event, EventView, FeesWithdrawnEvent,
    RefundRequestedEvent,
};
use crate::release::{fits_i128, pay_out, pay_out_ev};
use crate::state::{
    auth_effect, auth_ev, checked_step_matches, checked_step_with_matches, status_effect, status_ev,
    step_matches, step_with_matches, Contract, ContractView, Step, StepWith,
};
use crate::table::Dup;
use crate::types::{
    copy_bytes, escrow_hashable, Address, Escrow, EscrowItem, EscrowItemView, EscrowStatus, EscrowView,
    RefundReason, RefundRequest, RefundRequestView, RefundStatus,
};

verus! {

/// Whether some item has been released.
pub open spec fn spec_has_released_items(items: Seq<EscrowItemView>) -> bool {
    exists|j: int| 0 <= j < items.len() && #[trigger] items[j].released
}

/// The refund requests after a dispute is settled: each pending request in
/// `ids` becomes approved (`approve`) or rejected; others are left alone.
pub open spec fn spec_settle_requests(
    requests: Map<u64, RefundRequestView>,
    ids: Seq<u64>,
    approve: bool,
) -> Map<u64, RefundRequestView>
    decreases ids.len(),
{
    if ids.len() == 0 {
        requests
    } else {
        let id = ids[0];
        let next = if requests.contains_key(id) && requests[id].status == RefundStatus::Pending {
            requests.insert(
                id,
                RefundRequestView {
                    status: if approve {
                        RefundStatus::Approved
                    } else {
                        RefundStatus::Rejected
                    },
                    ..requests[id]
                },
            )
        } else {
            requests
        };
        spec_settle_requests(next, ids.drop_first(), approve)
    }
}

impl ContractView {
    /// The state after refunding the buyer of escrow `e`: the escrow becomes
    /// `Refunded` with no cancellation proposal, and the amount adds to the
    /// total of refunds.
    pub open spec fn spec_refund_buyer(self, escrow_id: u64, e: EscrowView) -> ContractView {
        ContractView {
            escrows: self.escrows.insert(
                escrow_id,
                EscrowView { status: EscrowStatus::Refunded, cancellation_proposer: None, ..e },
            ),
            total_refunded: (self.total_refunded + e.amount) as i128,
            ..self
        }
    }

    /// The checks shared by proposing and accepting a cancellation.
    pub open spec fn spec_cancellation_escrow(self, escrow_id: u64, actor: Seq<u8>) -> Result<
        EscrowView,
        ContractError,
    > {
        match self.spec_not_paused() {
            Err(err) => Err(err),
            Ok(_) => match self.spec_escrow(escrow_id) {
                Err(err) => Err(err),
                Ok(e) => if !(actor == e.buyer || actor == e.seller) {
                    Err(ContractError::Unauthorized)
                } else if e.status != EscrowStatus::Pending || spec_has_released_items(e.items) {
                    Err(ContractError::InvalidEscrowState)
                } else {
                    Ok(e)
                },
            },
        }
    }

    /// A party proposes mutual cancellation. When the other party proposed
    /// it already, the cancellation takes effect at once and the buyer is
    /// refunded; proposing twice changes nothing.
    pub open spec fn spec_propose_cancellation(self, escrow_id: u64, actor: Seq<u8>) -> Step {
        match self.spec_cancellation_escrow(escrow_id, actor) {
            Err(err) => Err(err),
            Ok(e) => match e.cancellation_proposer {
                Some(p) => if p == actor {
                    Ok((self, seq![auth_ev(actor)]))
                } else {
                    Ok(
                        (
                            self.spec_refund_buyer(escrow_id, e),
                            seq![
                                auth_ev(actor),
                                pay_out_ev(e.token, e.buyer, e.amount),
                                status_ev(escrow_id, EscrowStatus::Pending, EscrowStatus::Refunded, actor),
                            ],
                        ),
                    )
                },
                None => Ok(
                    (
                        ContractView {
                            escrows: self.escrows.insert(
                                escrow_id,
                                EscrowView { cancellation_proposer: Some(actor), ..e },
                            ),
                            ..self
                        },
                        seq![
                            auth_ev(actor),
                            EffectView::Emit(EventView::CancellationProposed { escrow_id, actor }),
                        ],
                    ),
                ),
            },
        }
    }

    /// The other party accepts a proposed cancellation and the buyer is
    /// refunded.
    pub open spec fn spec_accept_cancellation(self, escrow_id: u64, actor: Seq<u8>) -> Step {
        match self.spec_cancellation_escrow(escrow_id, actor) {
            Err(err) => Err(err),
            Ok(e) => match e.cancellation_proposer {
                None => Err(ContractError::InvalidEscrowState),
                Some(p) => if p == actor {
                    Err(ContractError::Unauthorized)
                } else {
                    Ok(
                        (
                            self.spec_refund_buyer(escrow_id, e),
                            seq![
                                auth_ev(actor),
                                pay_out_ev(e.token, e.buyer, e.amount),
                                status_ev(escrow_id, EscrowStatus::Pending, EscrowStatus::Refunded, actor),
                            ],
                        ),
                    )
                },
            },
        }
    }

    /// Whether a cancellation that refunds the buyer would overflow the total
    /// of refunds.
    pub open spec fn spec_cancellation_overflows(self, escrow_id: u64, actor: Seq<u8>) -> bool {
        &&& self.spec_cancellation_escrow(escrow_id, actor) is Ok
        &&& {
            let e = self.escrows[escrow_id];
            &&& e.cancellation_proposer is Some
            &&& e.cancellation_proposer.unwrap() != actor
            &&& !fits_i128(self.total_refunded + e.amount)
        }
    }

    /// The buyer asks for a refund of up to the escrow amount: a pending
    /// refund request is recorded under the next request identifier and the
    /// escrow goes into dispute.
    pub open spec fn spec_refund_escrow(
        self,
        escrow_id: u64,
        initiator: Seq<u8>,
        amount: i128,
        reason: RefundReason,
        evidence_hash: Seq<u8>,
        ledger_timestamp: u64,
    ) -> StepWith<u64> {
        match self.spec_not_paused() {
            Err(err) => Err(err),
            Ok(_) => match self.spec_escrow(escrow_id) {
                Err(err) => Err(err),
                Ok(e) => if initiator != e.buyer {
                    Err(ContractError::Unauthorized)
                } else if e.status != EscrowStatus::Pending {
                    Err(ContractError::InvalidEscrowState)
                } else if amount <= 0 || amount > e.amount {
                    Err(ContractError::InvalidEscrowAmount)
                } else if self.refund_count == u64::MAX {
                    Err(ContractError::EscrowIdOverflow)
                } else {
                    let request_id = (self.refund_count + 1) as u64;
                    let request = RefundRequestView {
                        request_id,
                        escrow_id,
                        requester: initiator,
                        amount,
                        reason,
                        status: RefundStatus::Pending,
                        created_at: ledger_timestamp,
                        evidence_hash: Some(evidence_hash),
                        counter_evidence_hash: None,
                    };
                    let list = if self.escrow_refunds.contains_key(escrow_id) {
                        self.escrow_refunds[escrow_id]
                    } else {
                        Seq::empty()
                    };
                    Ok(
                        (
                            ContractView {
                                refund_count: request_id,
                                refund_requests: self.refund_requests.insert(request_id, request),
                                escrow_refunds: self.escrow_refunds.insert(escrow_id, list.push(request_id)),
                                escrows: self.escrows.insert(
                                    escrow_id,
                                    EscrowView {
                                        status: EscrowStatus::Disputed,
                                        cancellation_proposer: None,
                                        ..e
                                    },
                                ),
                                total_disputed: (self.total_disputed + 1) as u32,
                                ..self
                            },
                            seq![
                                auth_ev(initiator),
                                EffectView::Emit(
                                    EventView::RefundRequested {
                                        request_id,
                                        escrow_id,
                                        requester: initiator,
                                        evidence_hash: Some(evidence_hash),
                                    },
                                ),
                                status_ev(escrow_id, EscrowStatus::Pending, EscrowStatus::Disputed, initiator),
                            ],
                            request_id,
                        ),
                    )
                },
            },
        }
    }

    /// Whether recording the refund request would overflow the count of
    /// disputes.
    pub open spec fn spec_refund_escrow_overflows(self, escrow_id: u64, initiator: Seq<u8>, amount: i128) -> bool {
        &&& !self.paused
        &&& self.escrows.contains_key(escrow_id)
        &&& initiator == self.escrows[escrow_id].buyer
        &&& self.escrows[escrow_id].status == EscrowStatus::Pending
        &&& 0 < amount <= self.escrows[escrow_id].amount
        &&& self.refund_count < u64::MAX
        &&& self.total_disputed + 1 > u32::MAX
    }

    /// The party that settles a dispute: the escrow's arbiter, or the admin
    /// when it has none.
    pub open spec fn spec_resolver(self, e: EscrowView) -> Result<Seq<u8>, ContractError> {
        match e.arbiter {
            Some(a) => Ok(a),
            None => self.spec_admin(),
        }
    }

    /// Settlement of a disputed escrow by its arbiter (or the admin):
    /// resolution 0 releases the whole amount to the seller, 1 refunds the
    /// buyer; the escrow's pending refund requests are rejected or approved
    /// accordingly.
    pub open spec fn spec_resolve_dispute(self, escrow_id: u64, resolution: u32) -> Step {
        match self.spec_not_paused() {
            Err(err) => Err(err),
            Ok(_) => match self.spec_escrow(escrow_id) {
                Err(err) => Err(err),
                Ok(e) => if e.status != EscrowStatus::Disputed {
                    Err(ContractError::InvalidEscrowState)
                } else {
                    match self.spec_resolver(e) {
                        Err(err) => Err(err),
                        Ok(actor) => if resolution != 0 && resolution != 1 {
                            Err(ContractError::InvalidEscrowState)
                        } else {
                            let s1 = if resolution == 0 {
                                ContractView {
                                    escrows: self.escrows.insert(
                                        escrow_id,
                                        EscrowView {
                                            status: EscrowStatus::Released,
                                            cancellation_proposer: None,
                                            ..e
                                        },
                                    ),
                                    total_released: (self.total_released + e.amount) as i128,
                                    ..self
                                }
                            } else {
                                self.spec_refund_buyer(escrow_id, e)
                            };
                            let ids = if self.escrow_refunds.contains_key(escrow_id) {
                                self.escrow_refunds[escrow_id]
                            } else {
                                Seq::empty()
                            };
                            let to = if resolution == 0 {
                                e.seller
                            } else {
                                e.buyer
                            };
                            let new_status = if resolution == 0 {
                                EscrowStatus::Released
                            } else {
                                EscrowStatus::Refunded
                            };
                            Ok(
                                (
                                    ContractView {
                                        refund_requests: spec_settle_requests(s1.refund_requests, ids, resolution == 1),
                                        ..s1
                                    },
                                    seq![
                                        auth_ev(actor),
                                        pay_out_ev(e.token, to, e.amount),
                                        status_ev(escrow_id, EscrowStatus::Disputed, new_status, actor),
                                    ],
                                ),
                            )
                        },
                    }
                },
            },
        }
    }

    /// Whether settling the dispute would overflow the total of releases or
    /// of refunds.
    pub open spec fn spec_resolve_dispute_overflows(self, escrow_id: u64, resolution: u32) -> bool {
        &&& !self.paused
        &&& self.escrows.contains_key(escrow_id)
        &&& self.escrows[escrow_id].status == EscrowStatus::Disputed
        &&& self.spec_resolver(self.escrows[escrow_id]) is Ok
        &&& {
            ||| (resolution == 0 && !fits_i128(self.total_released + self.escrows[escrow_id].amount))
            ||| (resolution == 1 && !fits_i128(self.total_refunded + self.escrows[escrow_id].amount))
        }
    }

    /// A collector withdraws its whole positive pending balance in a token.
    pub open spec fn spec_withdraw_fees(self, collector: Seq<u8>, token: Seq<u8>) -> Step {
        if !self.pending_fees.contains_key((collector, token)) {
            Err(ContractError::InvalidEscrowAmount)
        } else {
            let amount = self.pending_fees[(collector, token)];
            if amount <= 0 {
                Err(ContractError::InvalidEscrowAmount)
            } else {
                Ok(
                    (
                        ContractView { pending_fees: self.pending_fees.remove((collector, token)), ..self },
                        seq![
                            auth_ev(collector),
                            pay_out_ev(token, collector, amount),
                            EffectView::Emit(EventView::FeesWithdrawn { collector, token, amount }),
                        ],
                    ),
                )
            }
        }
    }
}

/// Whether some item has been released.
fn has_released_items(items: &Vec<EscrowItem>) -> (r: bool)
    ensures
        r == spec_has_released_items(items.deep_view()),
{
    let mut i: usize = 0;
    while i < items.len()
        invariant
            i <= items@.len(),
            forall|j: int| 0 <= j < i ==> !(#[trigger] items.deep_view()[j]).released,
        decreases items.len() - i,
    {
        assert(items.deep_view()[i as int] == items@[i as int]@);
        if items[i].released {
            assert(items.deep_view()[i as int].released);
            return true;
        }
        i = i + 1;
    }
    false
}

impl Contract {
    /// Refunds the buyer of an escrow, returning the transfer.
    fn refund_buyer(&mut self, escrow_id: u64, escrow: &Escrow) -> (e: Effect)
        requires
            old(self).wf(),
            escrow_hashable(escrow@),
            fits_i128(old(self)@.total_refunded + escrow@.amount),
        ensures
            final(self).wf(),
            final(self)@ == old(self)@.spec_refund_buyer(escrow_id, escrow@),
            e@ == pay_out_ev(escrow@.token, escrow@.buyer, escrow@.amount),
    {
        let transfer = pay_out(&escrow.token, &escrow.buyer, escrow.amount);
        let mut refunded = escrow.duplicate();
        refunded.status = EscrowStatus::Refunded;
        refunded.cancellation_proposer = None;
        let new_total = self.total_refunded + escrow.amount;
        self.escrows.insert(escrow_id, refunded);
        self.total_refunded = new_total;
        transfer
    }

    fn cancellation_escrow(&self, escrow_id: u64, actor: &Address) -> (r: Result<Escrow, ContractError>)
        requires
            self.wf(),
        ensures
            match r {
                Ok(e) => self@.spec_cancellation_escrow(escrow_id, actor@) == Ok::<EscrowView, ContractError>(e@),
                Err(err) => self@.spec_cancellation_escrow(escrow_id, actor@) == Err::<EscrowView, ContractError>(err),
            },
    {
        if let Err(e) = self.check_not_paused() {
            return Err(e);
        }
        let escrow = match self.escrows.get(&escrow_id) {
            Some(e) => e.duplicate(),
            None => return Err(ContractError::EscrowNotFound),
        };
        if !(actor.same(&escrow.buyer) || actor.same(&escrow.seller)) {
            return Err(ContractError::Unauthorized);
        }
        if escrow.status != EscrowStatus::Pending || has_released_items(&escrow.items) {
            return Err(ContractError::InvalidEscrowState);
        }
        Ok(escrow)
    }

    /// A party proposes mutual cancellation of a pending escrow. If the
    /// other party proposed it already, the buyer is refunded at once.
    ///
    /// # Errors
    /// * `ContractPaused` - the contract is paused
    /// * `EscrowNotFound` - no escrow has this identifier
    /// * `Unauthorized` - the actor is neither buyer nor seller
    /// * `InvalidEscrowState` - the escrow is not pending or has released items
    pub fn propose_cancellation(&mut self, escrow_id: u64, actor: Address) -> (r: Result<Vec<Effect>, ContractError>)
        requires
            old(self).wf(),
            !old(self)@.spec_cancellation_overflows(escrow_id, actor@),
        ensures
            final(self).wf(),
            step_matches(old(self)@.spec_propose_cancellation(escrow_id, actor@), old(self)@, final(self)@, r),
    {
        match self.propose_cancellation_checked(escrow_id, actor) {
            Some(r) => r,
            None => {
                assert(false);
                Err(ContractError::InvalidEscrowState)
            },
        }
    }

    /// `propose_cancellation`, returning `None` instead where the contract traps on an
    /// arithmetic overflow.
    pub fn propose_cancellation_checked(&mut self, escrow_id: u64, actor: Address) -> (r: Option<Result<Vec<Effect>, ContractError>>)
        requires
            old(self).wf(),
        ensures
            final(self).wf(),
            checked_step_matches(
                old(self)@.spec_cancellation_overflows(escrow_id, actor@),
                old(self)@.spec_propose_cancellation(escrow_id, actor@),
                old(self)@,
                final(self)@,
                r,
            ),
    {
        let escrow = match self.cancellation_escrow(escrow_id, &actor) {
            Ok(e) => e,
            Err(e) => return Some(Err(e)),
        };
        let ghost pre = self@;
        let mut effects: Vec<Effect> = Vec::new();
        effects.push(auth_effect(&actor));
        match &escrow.cancellation_proposer {
            Some(existing) => {
                if existing.same(&actor) {
                    assert(effects.deep_view() =~= seq![auth_ev(actor@)]);
                    return Some(Ok(effects));
                }
                if self.total_refunded.checked_add(escrow.amount).is_none() {
                    return None;
                }
                let transfer = self.refund_buyer(escrow_id, &escrow);
                effects.push(transfer);
                effects.push(status_effect(escrow_id, EscrowStatus::Pending, EscrowStatus::Refunded, &actor));
            },
            None => {
                let mut proposed = escrow.duplicate();
                proposed.cancellation_proposer = Some(actor.duplicate());
                self.escrows.insert(escrow_id, proposed);
                effects.push(
                    Effect::Emit(
                        Event::CancellationProposed(CancellationProposedEvent { escrow_id, actor: actor.duplicate() }),
                    ),
                );
            },
        }
        proof {
            let model = pre.spec_propose_cancellation(escrow_id, actor@);
            assert(effects.deep_view() =~= model->Ok_0.1);
            assert(self@ == model->Ok_0.0);
        }
        Some(Ok(effects))
    }

    /// The other party accepts a proposed cancellation; the buyer is refunded.
    ///
    /// # Errors
    /// * `ContractPaused` - the contract is paused
    /// * `EscrowNotFound` - no escrow has this identifier
    /// * `Unauthorized` - the actor is neither buyer nor seller, or is the proposer
    /// * `InvalidEscrowState` - the escrow is not pending, has released items,
    ///   or no cancellation was proposed
    pub fn accept_cancellation(&mut self, escrow_id: u64, actor: Address) -> (r: Result<Vec<Effect>, ContractError>)
        requires
            old(self).wf(),
            !old(self)@.spec_cancellation_overflows(escrow_id, actor@),
        ensures
            final(self).wf(),
            step_matches(old(self)@.spec_accept_cancellation(escrow_id, actor@), old(self)@, final(self)@, r),
    {
        match self.accept_cancellation_checked(escrow_id, actor) {
            Some(r) => r,
            None => {
                assert(false);
                Err(ContractError::InvalidEscrowState)
            },
        }
    }

    /// `accept_cancellation`, returning `None` instead where the contract traps on an
    /// arithmetic overflow.
    pub fn accept_cancellation_checked(&mut self, escrow_id: u64, actor: Address) -> (r: Option<Result<Vec<Effect>, ContractError>>)
        requires
            old(self).wf(),
        ensures
            final(self).wf(),
            checked_step_matches(
                old(self)@.spec_cancellation_overflows(escrow_id, actor@),
                old(self)@.spec_accept_cancellation(escrow_id, actor@),
                old(self)@,
                final(self)@,
                r,
            ),
    {
        let escrow = match self.cancellation_escrow(escrow_id, &actor) {
            Ok(e) => e,
            Err(e) => return Some(Err(e)),
        };
        let proposer = match &escrow.cancellation_proposer {
            Some(p) => p.duplicate(),
            None => return Some(Err(ContractError::InvalidEscrowState)),
        };
        if proposer.same(&actor) {
            return Some(Err(ContractError::Unauthorized));
        }
        if self.total_refunded.checked_add(escrow.amount).is_none() {
            return None;
        }
        let ghost pre = self@;
        let mut effects: Vec<Effect> = Vec::new();
        effects.push(auth_effect(&actor));
        let transfer = self.refund_buyer(escrow_id, &escrow);
        effects.push(transfer);
        effects.push(status_effect(escrow_id, EscrowStatus::Pending, EscrowStatus::Refunded, &actor));
        proof {
            let model = pre.spec_accept_cancellation(escrow_id, actor@);
            assert(effects.deep_view() =~= model->Ok_0.1);
        }
        Some(Ok(effects))
    }

    /// The buyer asks for a refund and puts the escrow into dispute,
    /// returning the refund request's identifier.
    ///
    /// # Errors
    /// * `ContractPaused` - the contract is paused
    /// * `EscrowNotFound` - no escrow has this identifier
    /// * `Unauthorized` - the initiator is not the buyer
    /// * `InvalidEscrowState` - the escrow is not pending
    /// * `InvalidEscrowAmount` - the amount is not positive or exceeds the escrow's
    /// * `EscrowIdOverflow` - no request identifier is left
    pub fn refund_escrow(
        &mut self,
        escrow_id: u64,
        initiator: Address,
        amount: i128,
        reason: RefundReason,
        evidence_hash: Vec<u8>,
        ledger_timestamp: u64,
    ) -> (r: Result<(u64, Vec<Effect>), ContractError>)
        requires
            old(self).wf(),
            !old(self)@.spec_refund_escrow_overflows(escrow_id, initiator@, amount),
        ensures
            final(self).wf(),
            step_with_matches(
                old(self)@.spec_refund_escrow(
                    escrow_id,
                    initiator@,
                    amount,
                    reason,
                    evidence_hash@,
                    ledger_timestamp,
                ),
                old(self)@,
                final(self)@,
                r,
                |v: u64| v,
            ),
    {
        match self.refund_escrow_checked(escrow_id, initiator, amount, reason, evidence_hash, ledger_timestamp) {
            Some(r) => r,
            None => {
                assert(false);
                Err(ContractError::InvalidEscrowState)
            },
        }
    }

    /// `refund_escrow`, returning `None` instead where the contract traps on an
    /// arithmetic overflow.
    pub fn refund_escrow_checked(
        &mut self,
        escrow_id: u64,
        initiator: Address,
        amount: i128,
        reason: RefundReason,
        evidence_hash: Vec<u8>,
        ledger_timestamp: u64,
    ) -> (r: Option<Result<(u64, Vec<Effect>), ContractError>>)
        requires
            old(self).wf(),
        ensures
            final(self).wf(),
            checked_step_with_matches(
                old(self)@.spec_refund_escrow_overflows(escrow_id, initiator@, amount),
                
                old(self)@.spec_refund_escrow(
                    escrow_id,
                    initiator@,
                    amount,
                    reason,
                    evidence_hash@,
                    ledger_timestamp,
                ),
                old(self)@,
                final(self)@,
                r,
                |v: u64| v,
            ),
    {
        if let Err(e) = self.check_not_paused() {
            return Some(Err(e));
        }
        let escrow = match self.escrows.get(&escrow_id) {
            Some(e) => e.duplicate(),
            None => return Some(Err(ContractError::EscrowNotFound)),
        };
        if !initiator.same(&escrow.buyer) {
            return Some(Err(ContractError::Unauthorized));
        }
        if escrow.status != EscrowStatus::Pending {
            return Some(Err(ContractError::InvalidEscrowState));
        }
        if amount <= 0 || amount > escrow.amount {
            return Some(Err(ContractError::InvalidEscrowAmount));
        }
        let request_id = match self.refund_count.checked_add(1) {
            Some(n) => n,
            None => return Some(Err(ContractError::EscrowIdOverflow)),
        };
        let ghost pre = self@;
        let new_disputed = match self.total_disputed.checked_add(1) {
            Some(n) => n,
            None => return None,
        };
        let request = RefundRequest {
            request_id,
            escrow_id,
            requester: initiator.duplicate(),
            amount,
            reason,
            status: RefundStatus::Pending,
            created_at: ledger_timestamp,
            evidence_hash: Some(copy_bytes(&evidence_hash)),
            counter_evidence_hash: None,
        };
        let mut list: Vec<u64> = match self.escrow_refunds.get(&escrow_id) {
            Some(l) => l.dup(),
            None => Vec::new(),
        };
        list.push(request_id);
        self.refund_count = request_id;
        self.refund_requests.insert(request_id, request);
        self.escrow_refunds.insert(escrow_id, list);
        let mut disputed = escrow.duplicate();
        disputed.status = EscrowStatus::Disputed;
        disputed.cancellation_proposer = None;
        self.escrows.insert(escrow_id, disputed);
        self.total_disputed = new_disputed;
        let mut effects: Vec<Effect> = Vec::new();
        effects.push(auth_effect(&initiator));
        let ghost ehv = evidence_hash@;
        assert(evidence_hash.deep_view() =~= ehv);
        effects.push(
            Effect::Emit(
                Event::RefundRequested(
                    RefundRequestedEvent {
                        request_id,
                        escrow_id,
                        requester: initiator.duplicate(),
                        evidence_hash: Some(evidence_hash),
                    },
                ),
            ),
        );
        effects.push(status_effect(escrow_id, EscrowStatus::Pending, EscrowStatus::Disputed, &initiator));
        proof {
            let model = pre.spec_refund_escrow(escrow_id, initiator@, amount, reason, ehv, ledger_timestamp);
            assert(model is Ok);
            assert(effects.deep_view() =~= model->Ok_0.1);
            assert(self@.escrow_refunds =~= model->Ok_0.0.escrow_refunds);
            assert(self@ == model->Ok_0.0);
        }
        Some(Ok((request_id, effects)))
    }

    /// Settles a disputed escrow: resolution 0 releases the amount to the
    /// seller, 1 refunds the buyer. Only the escrow's arbiter may settle it,
    /// or the admin when it has none.
    ///
    /// # Errors
    /// * `ContractPaused` - the contract is paused
    /// * `EscrowNotFound` - no escrow has this identifier
    /// * `InvalidEscrowState` - the escrow is not disputed, or the resolution
    ///   is neither 0 nor 1
    /// * `NotAdmin` - the escrow has no arbiter and no admin is configured
    pub fn resolve_dispute(&mut self, escrow_id: u64, resolution: u32) -> (r: Result<Vec<Effect>, ContractError>)
        requires
            old(self).wf(),
            !old(self)@.spec_resolve_dispute_overflows(escrow_id, resolution),
        ensures
            final(self).wf(),
            step_matches(old(self)@.spec_resolve_dispute(escrow_id, resolution), old(self)@, final(self)@, r),
    {
        match self.resolve_dispute_checked(escrow_id, resolution) {
            Some(r) => r,
            None => {
                assert(false);
                Err(ContractError::InvalidEscrowState)
            },
        }
    }

    /// `resolve_dispute`, returning `None` instead where the contract traps on an
    /// arithmetic overflow.
    pub fn resolve_dispute_checked(&mut self, escrow_id: u64, resolution: u32) -> (r: Option<Result<Vec<Effect>, ContractError>>)
        requires
            old(self).wf(),
        ensures
            final(self).wf(),
            checked_step_matches(
                old(self)@.spec_resolve_dispute_overflows(escrow_id, resolution),
                old(self)@.spec_resolve_dispute(escrow_id, resolution),
                old(self)@,
                final(self)@,
                r,
            ),
    {
        if let Err(e) = self.check_not_paused() {
            return Some(Err(e));
        }
        let escrow = match self.escrows.get(&escrow_id) {
            Some(e) => e.duplicate(),
            None => return Some(Err(ContractError::EscrowNotFound)),
        };
        if escrow.status != EscrowStatus::Disputed {
            return Some(Err(ContractError::InvalidEscrowState));
        }
        let actor = match &escrow.arbiter {
            Some(a) => a.duplicate(),
            None => match self.check_admin() {
                Ok(a) => a,
                Err(e) => return Some(Err(e)),
            },
        };
        if resolution != 0 && resolution != 1 {
            return Some(Err(ContractError::InvalidEscrowState));
        }
        let ghost pre = self@;
        let ids: Vec<u64> = match self.escrow_refunds.get(&escrow_id) {
            Some(l) => l.dup(),
            None => Vec::new(),
        };
        let mut effects: Vec<Effect> = Vec::new();
        effects.push(auth_effect(&actor));
        let new_status;
        if resolution == 0 {
            let new_total = match self.total_released.checked_add(escrow.amount) {
                Some(t) => t,
                None => return None,
            };
            effects.push(pay_out(&escrow.token, &escrow.seller, escrow.amount));
            let mut released = escrow.duplicate();
            released.status = EscrowStatus::Released;
            released.cancellation_proposer = None;
            self.escrows.insert(escrow_id, released);
            self.total_released = new_total;
            new_status = EscrowStatus::Released;
        } else {
            if self.total_refunded.checked_add(escrow.amount).is_none() {
                return None;
            }
            let transfer = self.refund_buyer(escrow_id, &escrow);
            effects.push(transfer);
            new_status = EscrowStatus::Refunded;
        }
        let ghost s1 = self@;
        let approve = resolution == 1;
        let mut i: usize = 0;
        assert(ids@.subrange(0, ids@.len() as int) =~= ids@);
        while i < ids.len()
            invariant
                self.wf(),
                i <= ids@.len(),
                spec_settle_requests(s1.refund_requests, ids@, approve)
                    == spec_settle_requests(self@.refund_requests, ids@.subrange(i as int, ids@.len() as int), approve),
                self@ == (ContractView { refund_requests: self@.refund_requests, ..s1 }),
            decreases ids.len() - i,
        {
            let rid = ids[i];
            let ghost before = self@.refund_requests;
            let current = match self.refund_requests.get(&rid) {
                Some(q) => if q.status == RefundStatus::Pending {
                    Some(q.duplicate())
                } else {
                    None
                },
                None => None,
            };
            match current {
                Some(q) => {
                    let mut settled = q;
                    settled.status = if approve {
                        RefundStatus::Approved
                    } else {
                        RefundStatus::Rejected
                    };
                    self.refund_requests.insert(rid, settled);
                },
                None => {},
            }
            proof {
                let rest = ids@.subrange(i as int, ids@.len() as int);
                assert(rest[0] == rid);
                assert(rest.drop_first() =~= ids@.subrange(i as int + 1, ids@.len() as int));
                assert(self@.refund_requests =~= if before.contains_key(rid) && before[rid].status
                    == RefundStatus::Pending {
                    before.insert(
                        rid,
                        RefundRequestView {
                            status: if approve {
                                RefundStatus::Approved
                            } else {
                                RefundStatus::Rejected
                            },
                            ..before[rid]
                        },
                    )
                } else {
                    before
                });
            }
            i = i + 1;
        }
        effects.push(status_effect(escrow_id, EscrowStatus::Disputed, new_status, &actor));
        proof {
            assert(ids@.subrange(ids@.len() as int, ids@.len() as int) =~= Seq::<u64>::empty());
            let model = pre.spec_resolve_dispute(escrow_id, resolution);
            assert(effects.deep_view() =~= model->Ok_0.1);
            assert(self@ == model->Ok_0.0);
        }
        Some(Ok(effects))
    }

    /// A collector withdraws its pending fees in a token.
    ///
    /// # Errors
    /// * `InvalidEscrowAmount` - nothing is pending for the collector in the token
    pub fn withdraw_fees(&mut self, collector: Address, token: Address) -> (r: Result<Vec<Effect>, ContractError>)
        requires
            old(self).wf(),
        ensures
            final(self).wf(),
            step_matches(old(self)@.spec_withdraw_fees(collector@, token@), old(self)@, final(self)@, r),
    {
        let key = (collector.duplicate(), token.duplicate());
        let amount: i128 = match self.pending_fees.get(&key) {
            Some(a) => *a,
            None => return Err(ContractError::InvalidEscrowAmount),
        };
        if amount <= 0 {
            return Err(ContractError::InvalidEscrowAmount);
        }
        self.pending_fees.remove(&key);
        let mut effects: Vec<Effect> = Vec::new();
        effects.push(auth_effect(&collector));
        effects.push(pay_out(&token, &collector, amount));
        effects.push(Effect::Emit(Event::FeesWithdrawn(FeesWithdrawnEvent { collector, token, amount })));
        proof {
            let model = old(self)@.spec_withdraw_fees(key.0@, key.1@);
            assert(effects.deep_view() =~= model->Ok_0.1);
        }
        Ok(effects)
    }
}

} // verus!

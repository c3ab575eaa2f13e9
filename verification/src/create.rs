use vstd::prelude::*;
use crate::errors::ContractError;
use crate::events::{
    BulkEscrowCreatedEvent, Effect, EffectView, EscrowCreatedEvent, Event, EventView,
};
use crate::hashing::{generate_escrow_hash, spec_escrow_hash};
use crate::state::{
    auth_effect, auth_ev, checked_step_with_matches, step_with_matches, Contract, ContractView,
    StepWith,
};
use crate::types::{
    copy_opt_address, copy_opt_bytes, is_zero_xdr, Address, BulkEscrowRequest, Escrow,
    EscrowItem, EscrowItemView, EscrowStatus, EscrowView, MAX_ITEMS_PER_ESCROW,
    MAX_ADDRESS_XDR_LEN, MAX_METADATA_SIZE,
};

verus! {

/// Sum of the item amounts.
pub open spec fn spec_items_sum(items: Seq<EscrowItemView>) -> int
    decreases items.len(),
{
    if items.len() == 0 {
        0
    } else {
        spec_items_sum(items.drop_last()) + items.last().amount
    }
}

/// Every running total of the item amounts, taken in order, fits in `i128`.
pub open spec fn spec_items_sums_fit(items: Seq<EscrowItemView>) -> bool {
    forall|k: int|
        0 <= k <= items.len() ==> i128::MIN <= #[trigger] spec_items_sum(items.take(k)) <= i128::MAX
}

/// Mathematical value of a bulk creation request.
pub struct BulkRequestView {
    pub seller: Seq<u8>,
    pub amount: i128,
    pub metadata: Option<Seq<u8>>,
    pub arbiter: Option<Seq<u8>>,
    pub items: Option<Seq<EscrowItemView>>,
}

impl View for BulkEscrowRequest {
    type V = BulkRequestView;

    open spec fn view(&self) -> BulkRequestView {
        BulkRequestView {
            seller: self.seller@,
            amount: self.amount,
            metadata: self.metadata.deep_view(),
            arbiter: self.arbiter.deep_view(),
            items: self.items.deep_view(),
        }
    }
}

impl DeepView for BulkEscrowRequest {
    type V = BulkRequestView;

    open spec fn deep_view(&self) -> BulkRequestView {
        self@
    }
}

impl ContractView {
    /// The checks of escrow creation that come before the items are summed.
    pub open spec fn spec_create_precheck(
        self,
        buyer: Seq<u8>,
        seller: Seq<u8>,
        token: Seq<u8>,
        amount: i128,
        metadata: Option<Seq<u8>>,
        arbiter: Option<Seq<u8>>,
        items: Option<Seq<EscrowItemView>>,
    ) -> Result<(), ContractError> {
        if metadata is Some && metadata.unwrap().len() > MAX_METADATA_SIZE {
            Err(ContractError::MetadataTooLarge)
        } else if is_zero_xdr(buyer) || is_zero_xdr(seller) || is_zero_xdr(token) {
            Err(ContractError::ZeroAddress)
        } else if arbiter is Some && is_zero_xdr(arbiter.unwrap()) {
            Err(ContractError::ZeroAddress)
        } else if amount <= 0 {
            Err(ContractError::InvalidEscrowAmount)
        } else if self.escrow_hashes.contains_key(spec_escrow_hash(buyer, seller, metadata)) {
            Err(ContractError::DuplicateEscrow)
        } else if items is Some && items.unwrap().len() > MAX_ITEMS_PER_ESCROW {
            Err(ContractError::TooManyItems)
        } else {
            Ok(())
        }
    }

    /// Creates a pending escrow under the next identifier and records its
    /// duplicate-detection hash; the items, when given, must sum to the amount.
    pub open spec fn spec_create_internal(
        self,
        buyer: Seq<u8>,
        seller: Seq<u8>,
        token: Seq<u8>,
        amount: i128,
        metadata: Option<Seq<u8>>,
        arbiter: Option<Seq<u8>>,
        items: Option<Seq<EscrowItemView>>,
        tracking_id: Option<Seq<u8>>,
        ledger_sequence: u32,
    ) -> StepWith<u64> {
        match self.spec_create_precheck(buyer, seller, token, amount, metadata, arbiter, items) {
            Err(e) => Err(e),
            Ok(_) => if items is Some && spec_items_sum(items.unwrap()) != amount {
                Err(ContractError::ItemAmountInvalid)
            } else if self.escrow_counter == u64::MAX {
                Err(ContractError::EscrowIdOverflow)
            } else {
                let id = (self.escrow_counter + 1) as u64;
                let escrow = EscrowView {
                    buyer,
                    seller,
                    token,
                    amount,
                    status: EscrowStatus::Pending,
                    metadata,
                    arbiter,
                    cancellation_proposer: None,
                    items: match items {
                        Some(i) => i,
                        None => Seq::empty(),
                    },
                    created_at: ledger_sequence,
                    tracking_id,
                    funded: false,
                };
                Ok(
                    (
                        ContractView {
                            escrow_counter: id,
                            escrows: self.escrows.insert(id, escrow),
                            escrow_hashes: self.escrow_hashes.insert(
                                spec_escrow_hash(buyer, seller, metadata),
                                id,
                            ),
                            total_funded: (self.total_funded + amount) as i128,
                            ..self
                        },
                        seq![
                            EffectView::Emit(
                                EventView::EscrowCreated {
                                    escrow_id: id,
                                    buyer,
                                    seller,
                                    token,
                                    amount,
                                    status: EscrowStatus::Pending,
                                    arbiter,
                                    tracking_id,
                                },
                            ),
                        ],
                        id,
                    ),
                )
            },
        }
    }

    /// Whether creating the escrow would overflow: a running total of the
    /// item amounts, or the total of created amounts, leaves `i128`.
    pub open spec fn spec_create_overflows(
        self,
        buyer: Seq<u8>,
        seller: Seq<u8>,
        token: Seq<u8>,
        amount: i128,
        metadata: Option<Seq<u8>>,
        arbiter: Option<Seq<u8>>,
        items: Option<Seq<EscrowItemView>>,
    ) -> bool {
        &&& self.spec_create_precheck(buyer, seller, token, amount, metadata, arbiter, items) is Ok
        &&& {
            ||| items is Some && !spec_items_sums_fit(items.unwrap())
            ||| {
                &&& items is None || spec_items_sum(items.unwrap()) == amount
                &&& self.escrow_counter < u64::MAX
                &&& !crate::release::fits_i128(self.total_funded + amount)
            }
        }
    }

    /// Whether creating the escrow would overflow while unpaused.
    pub open spec fn spec_create_escrow_traps(
        self,
        buyer: Seq<u8>,
        seller: Seq<u8>,
        token: Seq<u8>,
        amount: i128,
        metadata: Option<Seq<u8>>,
        arbiter: Option<Seq<u8>>,
        items: Option<Seq<EscrowItemView>>,
    ) -> bool {
        !self.paused && self.spec_create_overflows(buyer, seller, token, amount, metadata, arbiter, items)
    }

    /// Whether a bulk creation would overflow while unpaused.
    pub open spec fn spec_bulk_traps(
        self,
        buyer: Seq<u8>,
        token: Seq<u8>,
        requests: Seq<BulkRequestView>,
        ledger_sequence: u32,
    ) -> bool {
        !self.paused && self.spec_bulk_overflows_from(buyer, token, requests, 0, ledger_sequence)
    }

    /// Escrow creation by a buyer: refused while paused; otherwise the buyer
    /// authorises and the escrow is created.
    pub open spec fn spec_create_escrow(
        self,
        buyer: Seq<u8>,
        seller: Seq<u8>,
        token: Seq<u8>,
        amount: i128,
        metadata: Option<Seq<u8>>,
        arbiter: Option<Seq<u8>>,
        items: Option<Seq<EscrowItemView>>,
        tracking_id: Option<Seq<u8>>,
        ledger_sequence: u32,
    ) -> StepWith<u64> {
        match self.spec_not_paused() {
            Err(e) => Err(e),
            Ok(_) => match self.spec_create_internal(
                buyer,
                seller,
                token,
                amount,
                metadata,
                arbiter,
                items,
                tracking_id,
                ledger_sequence,
            ) {
                Err(e) => Err(e),
                Ok((s, effects, id)) => Ok((s, seq![auth_ev(buyer)] + effects, id)),
            },
        }
    }

    /// Creates the escrows of requests `i..` in order, stopping at the first
    /// failure.
    pub open spec fn spec_bulk_from(
        self,
        buyer: Seq<u8>,
        token: Seq<u8>,
        requests: Seq<BulkRequestView>,
        i: int,
        ledger_sequence: u32,
    ) -> StepWith<Seq<u64>>
        decreases requests.len() - i,
    {
        if i < 0 || i >= requests.len() {
            Ok((self, Seq::empty(), Seq::empty()))
        } else {
            let q = requests[i];
            match self.spec_create_internal(
                buyer,
                q.seller,
                token,
                q.amount,
                q.metadata,
                q.arbiter,
                q.items,
                None,
                ledger_sequence,
            ) {
                Err(e) => Err(e),
                Ok((s, effects, id)) => match s.spec_bulk_from(
                    buyer,
                    token,
                    requests,
                    i + 1,
                    ledger_sequence,
                ) {
                    Err(e) => Err(e),
                    Ok((s2, effects2, ids)) => Ok((s2, effects + effects2, seq![id] + ids)),
                },
            }
        }
    }

    /// Whether creating the escrows of requests `i..` would overflow before
    /// a failure stops it.
    pub open spec fn spec_bulk_overflows_from(
        self,
        buyer: Seq<u8>,
        token: Seq<u8>,
        requests: Seq<BulkRequestView>,
        i: int,
        ledger_sequence: u32,
    ) -> bool
        decreases requests.len() - i,
    {
        if i < 0 || i >= requests.len() {
            false
        } else {
            let q = requests[i];
            if self.spec_create_overflows(buyer, q.seller, token, q.amount, q.metadata, q.arbiter, q.items) {
                true
            } else {
                match self.spec_create_internal(
                    buyer,
                    q.seller,
                    token,
                    q.amount,
                    q.metadata,
                    q.arbiter,
                    q.items,
                    None,
                    ledger_sequence,
                ) {
                    Err(_) => false,
                    Ok((s, _, _)) => s.spec_bulk_overflows_from(buyer, token, requests, i + 1, ledger_sequence),
                }
            }
        }
    }

    /// Creation of several escrows for one buyer and token, all or none:
    /// refused while paused; otherwise the buyer authorises, the escrows are
    /// created in request order, and a summary event lists their identifiers.
    pub open spec fn spec_create_bulk_escrows(
        self,
        buyer: Seq<u8>,
        token: Seq<u8>,
        requests: Seq<BulkRequestView>,
        ledger_sequence: u32,
    ) -> StepWith<Seq<u64>> {
        match self.spec_not_paused() {
            Err(e) => Err(e),
            Ok(_) => match self.spec_bulk_from(buyer, token, requests, 0, ledger_sequence) {
                Err(e) => Err(e),
                Ok((s, effects, ids)) => Ok(
                    (
                        s,
                        seq![auth_ev(buyer)] + effects + seq![
                            EffectView::Emit(
                                EventView::BulkEscrowCreated { buyer, token, escrow_ids: ids },
                            ),
                        ],
                        ids,
                    ),
                ),
            },
        }
    }
}

proof fn lemma_items_sum_step(items: Seq<EscrowItemView>, i: int)
    requires
        0 <= i < items.len(),
    ensures
        spec_items_sum(items.take(i + 1)) == spec_items_sum(items.take(i)) + items[i].amount,
{
    assert(items.take(i + 1).drop_last() =~= items.take(i));
}

/// The sum of the item amounts, or `None` when a running total leaves
/// `i128`.
fn sum_items_checked(items: &Vec<EscrowItem>) -> (r: Option<i128>)
    ensures
        match r {
            Some(sum) => spec_items_sums_fit(items.deep_view()) && sum == spec_items_sum(items.deep_view()),
            None => !spec_items_sums_fit(items.deep_view()),
        },
{
    let ghost iv = items.deep_view();
    let mut sum: i128 = 0;
    let mut i: usize = 0;
    assert(iv.take(0) =~= Seq::<EscrowItemView>::empty());
    while i < items.len()
        invariant
            iv == items.deep_view(),
            i <= items@.len(),
            sum == spec_items_sum(iv.take(i as int)),
            forall|k: int| 0 <= k <= i ==> i128::MIN <= #[trigger] spec_items_sum(iv.take(k)) <= i128::MAX,
        decreases items.len() - i,
    {
        proof {
            lemma_items_sum_step(iv, i as int);
            assert(iv[i as int] == items@[i as int]@);
        }
        match sum.checked_add(items[i].amount) {
            Some(next) => {
                sum = next;
            },
            None => {
                assert(!(i128::MIN <= spec_items_sum(iv.take(i as int + 1)) <= i128::MAX));
                return None;
            },
        }
        i = i + 1;
    }
    assert(iv.take(iv.len() as int) =~= iv);
    Some(sum)
}

/// A copy of an optional list of items.
fn copy_opt_items(items: &Option<Vec<EscrowItem>>) -> (r: Option<Vec<EscrowItem>>)
    ensures
        r.deep_view() == items.deep_view(),
{
    match items {
        Some(v) => Some(crate::types::copy_items(v)),
        None => None,
    }
}

impl Contract {
    /// Creates a new escrow between a buyer and a seller, returning its
    /// identifier. Identifiers are issued in sequence from 1.
    ///
    /// `items`, when given, splits the amount into parts that the buyer can
    /// release one by one with `release_item`; they must sum to `amount`.
    ///
    /// # Errors
    /// * `ContractPaused` - the contract is paused
    /// * `MetadataTooLarge` - the metadata exceeds `MAX_METADATA_SIZE` bytes
    /// * `ZeroAddress` - the buyer, seller, token or arbiter is a zero address
    /// * `InvalidEscrowAmount` - the amount is not positive
    /// * `DuplicateEscrow` - an escrow with the same buyer, seller and metadata exists
    /// * `TooManyItems` - more than `MAX_ITEMS_PER_ESCROW` items
    /// * `ItemAmountInvalid` - the item amounts do not sum to the amount
    /// * `EscrowIdOverflow` - no identifier is left
    pub fn create_escrow(
        &mut self,
        buyer: Address,
        seller: Address,
        token: Address,
        amount: i128,
        metadata: Option<Vec<u8>>,
        arbiter: Option<Address>,
        items: Option<Vec<EscrowItem>>,
        tracking_id: Option<Vec<u8>>,
        ledger_sequence: u32,
    ) -> (r: Result<(u64, Vec<Effect>), ContractError>)
        requires
            old(self).wf(),
            buyer@.len() <= MAX_ADDRESS_XDR_LEN,
            seller@.len() <= MAX_ADDRESS_XDR_LEN,
            !old(self)@.spec_create_escrow_traps(
                buyer@,
                seller@,
                token@,
                amount,
                metadata.deep_view(),
                arbiter.deep_view(),
                items.deep_view(),
            ),
        ensures
            final(self).wf(),
            step_with_matches(
                old(self)@.spec_create_escrow(
                    buyer@,
                    seller@,
                    token@,
                    amount,
                    metadata.deep_view(),
                    arbiter.deep_view(),
                    items.deep_view(),
                    tracking_id.deep_view(),
                    ledger_sequence,
                ),
                old(self)@,
                final(self)@,
                r,
                |v: u64| v,
            ),
    {
        match self.create_escrow_checked(
            buyer,
            seller,
            token,
            amount,
            metadata,
            arbiter,
            items,
            tracking_id,
            ledger_sequence,
        ) {
            Some(r) => r,
            None => {
                assert(false);
                Err(ContractError::EscrowIdOverflow)
            },
        }
    }

    /// `create_escrow`, returning `None` instead when the creation would
    /// overflow a running total of the item amounts or the total of created
    /// amounts (where the contract traps).
    pub fn create_escrow_checked(
        &mut self,
        buyer: Address,
        seller: Address,
        token: Address,
        amount: i128,
        metadata: Option<Vec<u8>>,
        arbiter: Option<Address>,
        items: Option<Vec<EscrowItem>>,
        tracking_id: Option<Vec<u8>>,
        ledger_sequence: u32,
    ) -> (r: Option<Result<(u64, Vec<Effect>), ContractError>>)
        requires
            old(self).wf(),
            buyer@.len() <= MAX_ADDRESS_XDR_LEN,
            seller@.len() <= MAX_ADDRESS_XDR_LEN,
        ensures
            final(self).wf(),
            checked_step_with_matches(
                old(self)@.spec_create_escrow_traps(
                    buyer@,
                    seller@,
                    token@,
                    amount,
                    metadata.deep_view(),
                    arbiter.deep_view(),
                    items.deep_view(),
                ),
                old(self)@.spec_create_escrow(
                    buyer@,
                    seller@,
                    token@,
                    amount,
                    metadata.deep_view(),
                    arbiter.deep_view(),
                    items.deep_view(),
                    tracking_id.deep_view(),
                    ledger_sequence,
                ),
                old(self)@,
                final(self)@,
                r,
                |v: u64| v,
            ),
    {
        if let Err(e) = self.check_not_paused() {
            return Some(Err(e));
        }
        let auth = auth_effect(&buyer);
        let ghost bv = buyer@;
        match self.create_escrow_internal(
            buyer,
            seller,
            token,
            amount,
            metadata,
            arbiter,
            items,
            tracking_id,
            ledger_sequence,
        ) {
            None => None,
            Some(Err(e)) => Some(Err(e)),
            Some(Ok((id, created))) => {
                let mut effects: Vec<Effect> = Vec::new();
                effects.push(auth);
                let ghost c = created.deep_view();
                let mut created = created;
                effects.append(&mut created);
                assert(effects.deep_view() =~= seq![auth_ev(bv)] + c);
                Some(Ok((id, effects)))
            },
        }
    }

    /// Creates several escrows for one buyer and token in a single call,
    /// all or none, returning their identifiers in request order.
    ///
    /// # Errors
    /// * `ContractPaused` - the contract is paused
    /// * any error of `create_escrow`, for the first request that fails
    pub fn create_bulk_escrows(
        &mut self,
        buyer: Address,
        token: Address,
        requests: Vec<BulkEscrowRequest>,
        ledger_sequence: u32,
    ) -> (r: Result<(Vec<u64>, Vec<Effect>), ContractError>)
        requires
            old(self).wf(),
            buyer@.len() <= MAX_ADDRESS_XDR_LEN,
            forall|k: int| 0 <= k < requests@.len() ==> (#[trigger] requests@[k]).seller@.len() <= MAX_ADDRESS_XDR_LEN,
            !old(self)@.spec_bulk_traps(buyer@, token@, requests.deep_view(), ledger_sequence),
        ensures
            final(self).wf(),
            step_with_matches(
                old(self)@.spec_create_bulk_escrows(buyer@, token@, requests.deep_view(), ledger_sequence),
                old(self)@,
                final(self)@,
                r,
                |v: Vec<u64>| v@,
            ),
    {
        match self.create_bulk_escrows_checked(buyer, token, requests, ledger_sequence) {
            Some(r) => r,
            None => {
                assert(false);
                Err(ContractError::EscrowIdOverflow)
            },
        }
    }

    /// `create_bulk_escrows`, returning `None` instead when a creation would
    /// overflow before a failure stops the batch (where the contract traps).
    pub fn create_bulk_escrows_checked(
        &mut self,
        buyer: Address,
        token: Address,
        requests: Vec<BulkEscrowRequest>,
        ledger_sequence: u32,
    ) -> (r: Option<Result<(Vec<u64>, Vec<Effect>), ContractError>>)
        requires
            old(self).wf(),
            buyer@.len() <= MAX_ADDRESS_XDR_LEN,
            forall|k: int| 0 <= k < requests@.len() ==> (#[trigger] requests@[k]).seller@.len() <= MAX_ADDRESS_XDR_LEN,
        ensures
            final(self).wf(),
            checked_step_with_matches(
                old(self)@.spec_bulk_traps(buyer@, token@, requests.deep_view(), ledger_sequence),
                old(self)@.spec_create_bulk_escrows(buyer@, token@, requests.deep_view(), ledger_sequence),
                old(self)@,
                final(self)@,
                r,
                |v: Vec<u64>| v@,
            ),
    {
        if let Err(e) = self.check_not_paused() {
            return Some(Err(e));
        }
        let ghost pre = self@;
        let ghost reqs = requests.deep_view();
        let mut work = self.duplicate();
        let mut created: Vec<Effect> = Vec::new();
        let mut ids: Vec<u64> = Vec::new();
        let mut i: usize = 0;
        proof {
            let full = pre.spec_bulk_from(buyer@, token@, reqs, 0, ledger_sequence);
            match full {
                Ok((s, e, rest)) => {
                    assert(created.deep_view() + e =~= e);
                    assert(ids@ + rest =~= rest);
                },
                Err(_) => {},
            }
        }
        while i < requests.len()
            invariant
                work.wf(),
                self.wf(),
                self@ == pre,
                !pre.paused,
                reqs == requests.deep_view(),
                i <= requests@.len(),
                buyer@.len() <= MAX_ADDRESS_XDR_LEN,
                forall|k: int| 0 <= k < requests@.len() ==> (#[trigger] requests@[k]).seller@.len() <= MAX_ADDRESS_XDR_LEN,
                pre.spec_bulk_overflows_from(buyer@, token@, reqs, 0, ledger_sequence)
                    == work@.spec_bulk_overflows_from(buyer@, token@, reqs, i as int, ledger_sequence),
                pre.spec_bulk_from(buyer@, token@, reqs, 0, ledger_sequence) == match work@.spec_bulk_from(buyer@, token@, reqs, i as int, ledger_sequence) {
                    Ok((s, e, rest)) => Ok::<(ContractView, Seq<EffectView>, Seq<u64>), ContractError>(
                        (s, created.deep_view() + e, ids@ + rest),
                    ),
                    Err(err) => Err::<(ContractView, Seq<EffectView>, Seq<u64>), ContractError>(err),
                },
            decreases requests.len() - i,
        {
            let req = &requests[i];
            assert(reqs[i as int] == req@);
            let ghost w0 = work@;
            let r = work.create_escrow_internal(
                buyer.duplicate(),
                req.seller.duplicate(),
                token.duplicate(),
                req.amount,
                copy_opt_bytes(&req.metadata),
                copy_opt_address(&req.arbiter),
                copy_opt_items(&req.items),
                None,
                ledger_sequence,
            );
            match r {
                None => {
                    return None;
                },
                Some(Err(e)) => {
                    proof {
                        assert(w0.spec_bulk_from(buyer@, token@, reqs, i as int, ledger_sequence)
                            == Err::<(ContractView, Seq<EffectView>, Seq<u64>), ContractError>(e));
                        assert(pre.spec_bulk_from(buyer@, token@, reqs, 0, ledger_sequence)
                            == Err::<(ContractView, Seq<EffectView>, Seq<u64>), ContractError>(e));
                        assert(!w0.spec_bulk_overflows_from(buyer@, token@, reqs, i as int, ledger_sequence));
                    }
                    return Some(Err(e));
                },
                Some(Ok((id, step_effects))) => {
                    let ghost se = step_effects.deep_view();
                    let ghost c0 = created.deep_view();
                    let ghost i0 = ids@;
                    let mut step_effects = step_effects;
                    created.append(&mut step_effects);
                    ids.push(id);
                    proof {
                        assert(created.deep_view() =~= c0 + se);
                        match work@.spec_bulk_from(buyer@, token@, reqs, i as int + 1, ledger_sequence) {
                            Ok((s2, e2, rest2)) => {
                                assert(c0 + (se + e2) =~= created.deep_view() + e2);
                                assert(i0 + (seq![id] + rest2) =~= ids@ + rest2);
                            },
                            Err(_) => {},
                        }
                    }
                },
            }
            i = i + 1;
        }
        let mut effects: Vec<Effect> = Vec::new();
        effects.push(auth_effect(&buyer));
        let ghost c = created.deep_view();
        effects.append(&mut created);
        let ghost before_summary = effects.deep_view();
        let summary_ids = crate::table::Dup::dup(&ids);
        let ghost bv = buyer@;
        let ghost tv = token@;
        effects.push(
            Effect::Emit(
                Event::BulkEscrowCreated(
                    BulkEscrowCreatedEvent { buyer, token, escrow_ids: summary_ids },
                ),
            ),
        );
        proof {
            assert(work@.spec_bulk_from(bv, tv, reqs, i as int, ledger_sequence)
                == Ok::<(ContractView, Seq<EffectView>, Seq<u64>), ContractError>(
                (work@, Seq::empty(), Seq::empty())));
            assert(ids@ + Seq::<u64>::empty() =~= ids@);
            assert(c + Seq::<EffectView>::empty() =~= c);
            assert(pre.spec_bulk_from(bv, tv, reqs, 0, ledger_sequence)
                == Ok::<(ContractView, Seq<EffectView>, Seq<u64>), ContractError>((work@, c, ids@)));
            assert(before_summary =~= seq![auth_ev(bv)] + c);
            assert(effects.deep_view() =~= seq![auth_ev(bv)] + c + seq![
                EffectView::Emit(EventView::BulkEscrowCreated { buyer: bv, token: tv, escrow_ids: ids@ }),
            ]);
        }
        *self = work;
        Some(Ok((ids, effects)))
    }

    /// The creation shared by single and bulk creation; `None` when it would
    /// overflow.
    fn create_escrow_internal(
        &mut self,
        buyer: Address,
        seller: Address,
        token: Address,
        amount: i128,
        metadata: Option<Vec<u8>>,
        arbiter: Option<Address>,
        items: Option<Vec<EscrowItem>>,
        tracking_id: Option<Vec<u8>>,
        ledger_sequence: u32,
    ) -> (r: Option<Result<(u64, Vec<Effect>), ContractError>>)
        requires
            old(self).wf(),
            buyer@.len() <= MAX_ADDRESS_XDR_LEN,
            seller@.len() <= MAX_ADDRESS_XDR_LEN,
        ensures
            final(self).wf(),
            checked_step_with_matches(
                old(self)@.spec_create_overflows(
                    buyer@,
                    seller@,
                    token@,
                    amount,
                    metadata.deep_view(),
                    arbiter.deep_view(),
                    items.deep_view(),
                ),
                old(self)@.spec_create_internal(
                    buyer@,
                    seller@,
                    token@,
                    amount,
                    metadata.deep_view(),
                    arbiter.deep_view(),
                    items.deep_view(),
                    tracking_id.deep_view(),
                    ledger_sequence,
                ),
                old(self)@,
                final(self)@,
                r,
                |v: u64| v,
            ),
    {
        match &metadata {
            Some(data) => {
                if data.len() > MAX_METADATA_SIZE as usize {
                    return Some(Err(ContractError::MetadataTooLarge));
                }
            },
            None => {},
        }
        if buyer.is_zero() || seller.is_zero() || token.is_zero() {
            return Some(Err(ContractError::ZeroAddress));
        }
        match &arbiter {
            Some(a) => {
                if a.is_zero() {
                    return Some(Err(ContractError::ZeroAddress));
                }
            },
            None => {},
        }
        if amount <= 0 {
            return Some(Err(ContractError::InvalidEscrowAmount));
        }
        let hash = generate_escrow_hash(&buyer, &seller, &metadata);
        if self.escrow_hashes.contains_key(&hash) {
            return Some(Err(ContractError::DuplicateEscrow));
        }
        let ghost items_v = items.deep_view();
        let escrow_items: Vec<EscrowItem> = match items {
            Some(items_vec) => {
                if items_vec.len() > MAX_ITEMS_PER_ESCROW as usize {
                    return Some(Err(ContractError::TooManyItems));
                }
                let items_sum = match sum_items_checked(&items_vec) {
                    Some(s) => s,
                    None => return None,
                };
                if items_sum != amount {
                    return Some(Err(ContractError::ItemAmountInvalid));
                }
                items_vec
            },
            None => {
                let v: Vec<EscrowItem> = Vec::new();
                assert(v.deep_view() =~= Seq::<EscrowItemView>::empty());
                v
            },
        };
        assert(escrow_items.deep_view() == match items_v {
            Some(i) => i,
            None => Seq::<EscrowItemView>::empty(),
        });
        let escrow_id = match self.escrow_counter.checked_add(1) {
            Some(n) => n,
            None => return Some(Err(ContractError::EscrowIdOverflow)),
        };
        let new_total_funded = match self.total_funded.checked_add(amount) {
            Some(t) => t,
            None => return None,
        };
        let ghost pre = self@;
        let event = EscrowCreatedEvent {
            escrow_id,
            buyer: buyer.duplicate(),
            seller: seller.duplicate(),
            token: token.duplicate(),
            amount,
            status: EscrowStatus::Pending,
            arbiter: copy_opt_address(&arbiter),
            tracking_id: copy_opt_bytes(&tracking_id),
        };
        let escrow = Escrow {
            buyer,
            seller,
            token,
            amount,
            status: EscrowStatus::Pending,
            metadata,
            arbiter,
            cancellation_proposer: None,
            items: escrow_items,
            created_at: ledger_sequence,
            tracking_id,
            funded: false,
        };
        self.escrow_counter = escrow_id;
        self.escrows.insert(escrow_id, escrow);
        self.escrow_hashes.insert(hash, escrow_id);
        self.total_funded = new_total_funded;
        let mut effects: Vec<Effect> = Vec::new();
        effects.push(Effect::Emit(Event::EscrowCreated(event)));
        proof {
            let model = pre.spec_create_internal(
                buyer@,
                seller@,
                token@,
                amount,
                metadata.deep_view(),
                arbiter.deep_view(),
                items.deep_view(),
                tracking_id.deep_view(),
                ledger_sequence,
            );
            assert(model is Ok);
            assert(effects.deep_view() =~= model->Ok_0.1);
            assert(self@.escrows =~= model->Ok_0.0.escrows);
            assert(self@ == model->Ok_0.0);
        }
        Some(Ok((escrow_id, effects)))
    }
}

} // verus!

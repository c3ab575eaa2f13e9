use vstd::prelude::*;
use crate::errors::ContractError;
use crate::events::{Effect, EffectView, EscrowExpiredEvent, Event, EventView};
use crate::hashing::{generate_escrow_hash, spec_escrow_hash};
use crate::state::{auth_effect, auth_ev, step_matches, Contract, ContractView, Step};
use crate::types::{
    copy_opt_bytes, Address, Escrow, EscrowStatus, EscrowView, MetadataVisibility,
    UNFUNDED_EXPIRY_LEDGERS,
};

verus! {

/// `x + y` for `u32`, saturating at `u32::MAX`.
pub open spec fn spec_sat_add_u32(x: u32, y: u32) -> u32 {
    if x + y > u32::MAX {
        u32::MAX
    } else {
        (x + y) as u32
    }
}

impl ContractView {
    /// Funding of a pending escrow: `payer` (the buyer when `None`)
    /// authorises, the amount moves from it into the contract, and the
    /// escrow is recorded as funded.
    pub open spec fn spec_fund(self, escrow_id: u64, payer: Option<Seq<u8>>) -> Step {
        match self.spec_not_paused() {
            Err(err) => Err(err),
            Ok(_) => match self.spec_escrow(escrow_id) {
                Err(err) => Err(err),
                Ok(e) => if e.status != EscrowStatus::Pending {
                    Err(ContractError::InvalidEscrowState)
                } else {
                    let from = match payer {
                        Some(p) => p,
                        None => e.buyer,
                    };
                    Ok(
                        (
                            ContractView {
                                escrows: self.escrows.insert(escrow_id, EscrowView { funded: true, ..e }),
                                ..self
                            },
                            seq![
                                auth_ev(from),
                                EffectView::TransferIn { token: e.token, from, amount: e.amount },
                            ],
                        ),
                    )
                },
            },
        }
    }

    /// The placeholder for partial release: refused while paused, otherwise
    /// nothing happens.
    pub open spec fn spec_release_partial(self) -> Step {
        match self.spec_not_paused() {
            Err(err) => Err(err),
            Ok(_) => Ok((self, Seq::empty())),
        }
    }

    /// Removal of a pending escrow that was never funded, and of its
    /// duplicate-detection hash, once `UNFUNDED_EXPIRY_LEDGERS` ledgers have
    /// passed since its creation.
    pub open spec fn spec_cancel_unfunded(self, escrow_id: u64, ledger_sequence: u32) -> Step {
        match self.spec_escrow(escrow_id) {
            Err(err) => Err(err),
            Ok(e) => if e.status != EscrowStatus::Pending || e.funded {
                Err(ContractError::EscrowAlreadyFunded)
            } else if ledger_sequence < spec_sat_add_u32(e.created_at, UNFUNDED_EXPIRY_LEDGERS) {
                Err(ContractError::EscrowNotExpired)
            } else {
                Ok(
                    (
                        ContractView {
                            escrows: self.escrows.remove(escrow_id),
                            escrow_hashes: self.escrow_hashes.remove(
                                spec_escrow_hash(e.buyer, e.seller, e.metadata),
                            ),
                            ..self
                        },
                        seq![
                            EffectView::Emit(
                                EventView::EscrowExpired { escrow_id, buyer: e.buyer, seller: e.seller },
                            ),
                        ],
                    ),
                )
            },
        }
    }

    /// Extension of the storage lifetime of an escrow and, when present, of
    /// its duplicate-detection hash.
    pub open spec fn spec_bump_escrow(self, escrow_id: u64) -> Step {
        match self.spec_escrow(escrow_id) {
            Err(err) => Err(err),
            Ok(e) => {
                let h = spec_escrow_hash(e.buyer, e.seller, e.metadata);
                Ok(
                    (
                        self,
                        seq![EffectView::ExtendEscrowTtl(escrow_id)] + if self.escrow_hashes.contains_key(h) {
                            seq![EffectView::ExtendHashTtl(h)]
                        } else {
                            Seq::empty()
                        },
                    ),
                )
            },
        }
    }

    /// The escrows with identifiers `start` to `start + limit - 1`, stopping
    /// at the last identifier issued; empty when `start` is 0 or beyond it.
    /// Identifiers without an escrow give `None`.
    pub open spec fn spec_get_escrows(self, start: u64, limit: u32) -> Seq<Option<EscrowView>> {
        if self.escrow_counter == 0 || start == 0 || start > self.escrow_counter {
            Seq::empty()
        } else {
            let end = if start + limit - 1 < self.escrow_counter {
                start + limit - 1
            } else {
                self.escrow_counter as int
            };
            Seq::new(
                (end - start + 1) as nat,
                |k: int|
                    if self.escrows.contains_key((start + k) as u64) {
                        Some(self.escrows[(start + k) as u64])
                    } else {
                        None
                    },
            )
        }
    }

    /// The metadata of an escrow; none for an unknown escrow. Metadata is
    /// private unless the buyer made it public; private metadata is given
    /// only to the buyer, the seller, the arbiter or the admin, on their
    /// authorisation.
    pub open spec fn spec_get_escrow_metadata(self, escrow_id: u64, caller: Seq<u8>) -> Result<
        (Option<Seq<u8>>, Seq<EffectView>),
        ContractError,
    > {
        match self.spec_escrow(escrow_id) {
            Err(_) => Ok((None, Seq::empty())),
            Ok(e) => {
                let public = self.metadata_visibility.contains_key(escrow_id)
                    && self.metadata_visibility[escrow_id] == MetadataVisibility::Public;
                if public {
                    Ok((e.metadata, Seq::empty()))
                } else {
                    let is_party = caller == e.buyer || caller == e.seller || e.arbiter == Some(caller);
                    let is_admin = self.admin == Some(caller);
                    if !is_party && !is_admin {
                        Err(ContractError::MetadataAccessDenied)
                    } else {
                        Ok((e.metadata, seq![auth_ev(caller)]))
                    }
                }
            },
        }
    }

    /// Setting who may read an escrow's metadata; the buyer authorises.
    pub open spec fn spec_set_metadata_visibility(self, escrow_id: u64, visibility: MetadataVisibility) -> Step {
        match self.spec_escrow(escrow_id) {
            Err(err) => Err(err),
            Ok(e) => Ok(
                (
                    ContractView {
                        metadata_visibility: self.metadata_visibility.insert(escrow_id, visibility),
                        ..self
                    },
                    seq![auth_ev(e.buyer)],
                ),
            ),
        }
    }
}

impl Contract {
    fn fund(&mut self, escrow_id: u64, payer: Option<&Address>) -> (r: Result<Vec<Effect>, ContractError>)
        requires
            old(self).wf(),
        ensures
            final(self).wf(),
            step_matches(
                old(self)@.spec_fund(
                    escrow_id,
                    match payer {
                        Some(p) => Some(p@),
                        None => None,
                    },
                ),
                old(self)@,
                final(self)@,
                r,
            ),
    {
        if let Err(e) = self.check_not_paused() {
            return Err(e);
        }
        let escrow = match self.escrows.get(&escrow_id) {
            Some(e) => e.duplicate(),
            None => return Err(ContractError::EscrowNotFound),
        };
        if escrow.status != EscrowStatus::Pending {
            return Err(ContractError::InvalidEscrowState);
        }
        let ghost pre = self@;
        let from = match payer {
            Some(p) => p.duplicate(),
            None => escrow.buyer.duplicate(),
        };
        let mut effects: Vec<Effect> = Vec::new();
        effects.push(auth_effect(&from));
        effects.push(Effect::TransferIn { token: escrow.token.duplicate(), from, amount: escrow.amount });
        let mut funded = escrow;
        funded.funded = true;
        self.escrows.insert(escrow_id, funded);
        proof {
            let model = pre.spec_fund(
                escrow_id,
                match payer {
                    Some(p) => Some(p@),
                    None => None,
                },
            );
            assert(effects.deep_view() =~= model->Ok_0.1);
            assert(self@ == model->Ok_0.0);
        }
        Ok(effects)
    }

    /// The buyer funds a pending escrow: the amount moves from the buyer
    /// into the contract and the escrow is recorded as funded.
    ///
    /// # Errors
    /// * `ContractPaused` - the contract is paused
    /// * `EscrowNotFound` - no escrow has this identifier
    /// * `InvalidEscrowState` - the escrow is not pending
    pub fn fund_escrow(&mut self, escrow_id: u64) -> (r: Result<Vec<Effect>, ContractError>)
        requires
            old(self).wf(),
        ensures
            final(self).wf(),
            step_matches(old(self)@.spec_fund(escrow_id, None), old(self)@, final(self)@, r),
    {
        self.fund(escrow_id, None)
    }

    /// A third party funds a pending escrow on the buyer's behalf: the
    /// amount moves from `funder` into the contract and the escrow is
    /// recorded as funded.
    ///
    /// # Errors
    /// * `ContractPaused` - the contract is paused
    /// * `EscrowNotFound` - no escrow has this identifier
    /// * `InvalidEscrowState` - the escrow is not pending
    pub fn fund_escrow_by(&mut self, escrow_id: u64, funder: &Address) -> (r: Result<Vec<Effect>, ContractError>)
        requires
            old(self).wf(),
        ensures
            final(self).wf(),
            step_matches(old(self)@.spec_fund(escrow_id, Some(funder@)), old(self)@, final(self)@, r),
    {
        self.fund(escrow_id, Some(funder))
    }

    /// Partial release is not offered; the call only checks the pause flag.
    ///
    /// # Errors
    /// * `ContractPaused` - the contract is paused
    pub fn release_partial(&self, _escrow_id: u64, _amount: i128) -> (r: Result<Vec<Effect>, ContractError>)
        ensures
            step_matches(self@.spec_release_partial(), self@, self@, r),
    {
        if let Err(e) = self.check_not_paused() {
            return Err(e);
        }
        let effects: Vec<Effect> = Vec::new();
        assert(effects.deep_view() =~= Seq::<EffectView>::empty());
        Ok(effects)
    }

    /// Cancels an escrow that was never funded once the expiry window has
    /// passed; anyone may call it. The escrow and its duplicate-detection
    /// hash are removed, so the same escrow can be created again.
    ///
    /// # Errors
    /// * `EscrowNotFound` - no escrow has this identifier
    /// * `EscrowAlreadyFunded` - the escrow was funded or is no longer pending
    /// * `EscrowNotExpired` - the expiry window has not passed
    pub fn cancel_unfunded(&mut self, escrow_id: u64, ledger_sequence: u32) -> (r: Result<Vec<Effect>, ContractError>)
        requires
            old(self).wf(),
        ensures
            final(self).wf(),
            step_matches(old(self)@.spec_cancel_unfunded(escrow_id, ledger_sequence), old(self)@, final(self)@, r),
    {
        let escrow = match self.escrows.get(&escrow_id) {
            Some(e) => e.duplicate(),
            None => return Err(ContractError::EscrowNotFound),
        };
        if escrow.status != EscrowStatus::Pending || escrow.funded {
            return Err(ContractError::EscrowAlreadyFunded);
        }
        let expiry_ledger = escrow.created_at.saturating_add(UNFUNDED_EXPIRY_LEDGERS);
        if ledger_sequence < expiry_ledger {
            return Err(ContractError::EscrowNotExpired);
        }
        let ghost pre = self@;
        self.escrows.remove(&escrow_id);
        let hash = generate_escrow_hash(&escrow.buyer, &escrow.seller, &escrow.metadata);
        self.escrow_hashes.remove(&hash);
        let mut effects: Vec<Effect> = Vec::new();
        effects.push(
            Effect::Emit(
                Event::EscrowExpired(
                    EscrowExpiredEvent { escrow_id, buyer: escrow.buyer, seller: escrow.seller },
                ),
            ),
        );
        proof {
            let model = pre.spec_cancel_unfunded(escrow_id, ledger_sequence);
            assert(effects.deep_view() =~= model->Ok_0.1);
        }
        Ok(effects)
    }

    /// Extends the storage lifetime of an escrow and of its
    /// duplicate-detection hash to the maximum.
    ///
    /// # Errors
    /// * `EscrowNotFound` - no escrow has this identifier
    pub fn bump_escrow(&self, escrow_id: u64) -> (r: Result<Vec<Effect>, ContractError>)
        requires
            self.wf(),
        ensures
            step_matches(self@.spec_bump_escrow(escrow_id), self@, self@, r),
    {
        let escrow = match self.escrows.get(&escrow_id) {
            Some(e) => e,
            None => return Err(ContractError::EscrowNotFound),
        };
        let mut effects: Vec<Effect> = Vec::new();
        effects.push(Effect::ExtendEscrowTtl(escrow_id));
        let hash = generate_escrow_hash(&escrow.buyer, &escrow.seller, &escrow.metadata);
        if self.escrow_hashes.contains_key(&hash) {
            effects.push(Effect::ExtendHashTtl(hash));
        }
        proof {
            let model = self@.spec_bump_escrow(escrow_id);
            assert(effects.deep_view() =~= model->Ok_0.1);
        }
        Ok(effects)
    }

    /// A page of escrows: identifiers `start` to `start + limit - 1`, up to
    /// the last identifier issued; `None` where an escrow was removed.
    pub fn get_escrows(&self, start: u64, limit: u32) -> (r: Vec<Option<Escrow>>)
        requires
            self.wf(),
            self@.escrow_counter == 0 || start == 0 || start > self@.escrow_counter || start
                + limit <= u64::MAX,
        ensures
            r.deep_view() == self@.spec_get_escrows(start, limit),
    {
        let counter = self.escrow_counter;
        let mut result: Vec<Option<Escrow>> = Vec::new();
        if counter == 0 || start == 0 || start > counter {
            assert(result.deep_view() =~= self@.spec_get_escrows(start, limit));
            return result;
        }
        let sum = start + limit as u64 - 1;
        let end = if sum < counter {
            sum
        } else {
            counter
        };
        let count = if end >= start {
            end - start + 1
        } else {
            0
        };
        let ghost model = self@.spec_get_escrows(start, limit);
        let mut k: u64 = 0;
        while k < count
            invariant
                self.wf(),
                model == self@.spec_get_escrows(start, limit),
                model.len() == count,
                start + count - 1 <= u64::MAX,
                k <= count,
                result@.len() == k,
                result.deep_view() == model.subrange(0, k as int),
            decreases count - k,
        {
            let id = start + k;
            let item = match self.escrows.get(&id) {
                Some(e) => Some(e.duplicate()),
                None => None,
            };
            assert(id as int == start + k);
            assert(item.deep_view() == model[k as int]);
            let ghost before = result@;
            let ghost iv = item.deep_view();
            result.push(item);
            proof {
                assert forall|j: int| 0 <= j < k + 1 implies #[trigger] result.deep_view()[j] == model[j] by {
                    if j < k {
                        assert(result@[j] == before[j]);
                        assert(before[j].deep_view() == model.subrange(0, k as int)[j]);
                    } else {
                        assert(result@[j].deep_view() == iv);
                    }
                }
            }
            k = k + 1;
            assert(result.deep_view() =~= model.subrange(0, k as int));
        }
        assert(model.subrange(0, count as int) =~= model);
        result
    }

    /// The metadata of an escrow, subject to its visibility; `None` when no
    /// escrow has this identifier.
    ///
    /// # Errors
    /// * `MetadataAccessDenied` - the metadata is private and the caller is
    ///   neither a party of the escrow nor the admin
    pub fn get_escrow_metadata(&self, escrow_id: u64, caller: &Address) -> (r: Result<
        (Option<Vec<u8>>, Vec<Effect>),
        ContractError,
    >)
        requires
            self.wf(),
        ensures
            match r {
                Ok((m, effects)) => self@.spec_get_escrow_metadata(escrow_id, caller@) == Ok::<
                    (Option<Seq<u8>>, Seq<EffectView>),
                    ContractError,
                >((m.deep_view(), effects.deep_view())),
                Err(e) => self@.spec_get_escrow_metadata(escrow_id, caller@) == Err::<
                    (Option<Seq<u8>>, Seq<EffectView>),
                    ContractError,
                >(e),
            },
    {
        let escrow = match self.escrows.get(&escrow_id) {
            Some(e) => e,
            None => {
                let effects: Vec<Effect> = Vec::new();
                assert(effects.deep_view() =~= Seq::<EffectView>::empty());
                return Ok((None, effects));
            },
        };
        let public = match self.metadata_visibility.get(&escrow_id) {
            Some(v) => *v == MetadataVisibility::Public,
            None => false,
        };
        let mut effects: Vec<Effect> = Vec::new();
        if !public {
            let is_arbiter = match &escrow.arbiter {
                Some(a) => a.same(caller),
                None => false,
            };
            let is_party = caller.same(&escrow.buyer) || caller.same(&escrow.seller) || is_arbiter;
            let is_admin = match &self.admin {
                Some(a) => a.same(caller),
                None => false,
            };
            if !is_party && !is_admin {
                return Err(ContractError::MetadataAccessDenied);
            }
            effects.push(auth_effect(caller));
        }
        let metadata = copy_opt_bytes(&escrow.metadata);
        proof {
            let model = self@.spec_get_escrow_metadata(escrow_id, caller@);
            assert(effects.deep_view() =~= model->Ok_0.1);
        }
        Ok((metadata, effects))
    }

    /// Sets who may read an escrow's metadata; the buyer authorises.
    ///
    /// # Errors
    /// * `EscrowNotFound` - no escrow has this identifier
    pub fn set_metadata_visibility(&mut self, escrow_id: u64, visibility: MetadataVisibility) -> (r: Result<
        Vec<Effect>,
        ContractError,
    >)
        requires
            old(self).wf(),
        ensures
            final(self).wf(),
            step_matches(
                old(self)@.spec_set_metadata_visibility(escrow_id, visibility),
                old(self)@,
                final(self)@,
                r,
            ),
    {
        let buyer = match self.escrows.get(&escrow_id) {
            Some(e) => e.buyer.duplicate(),
            None => return Err(ContractError::EscrowNotFound),
        };
        let mut effects: Vec<Effect> = Vec::new();
        effects.push(auth_effect(&buyer));
        self.metadata_visibility.insert(escrow_id, visibility);
        proof {
            assert(effects.deep_view() =~= seq![auth_ev(buyer@)]);
        }
        Ok(effects)
    }
}

} // verus!

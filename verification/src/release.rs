use vstd::prelude::*;
use crate::errors::ContractError;
use crate::events::{
    DeliveryVerifiedEvent, Effect, EffectView, Event, EventView, FeeCollectedEvent,
    FundsReleasedEvent, VolumeUpdatedEvent,
};
use crate::fees::{
    calculate_fee_bps_safe, cap_fee, release_fee, spec_capped_fee, spec_fee_bps, spec_release_fee,
    spec_sat_add,
};
use crate::state::{
    auth_effect, auth_ev, status_effect, status_ev, checked_step_matches, step_matches, Contract, ContractView,
    Step,
};
use crate::types::{copy_opt_bytes, Address, Escrow, EscrowItem, EscrowItemView, EscrowStatus, EscrowView};
use crate::volume::{add_volume, should_reset_volume, spec_should_reset, VolumeTierConfig};

verus! {

/// The effect that pays `amount` of `token` out of the contract to `to`.
pub open spec fn pay_out_ev(token: Seq<u8>, to: Seq<u8>, amount: i128) -> EffectView {
    EffectView::TransferOut { token, to, amount }
}

/// The effect that publishes a release of funds.
pub open spec fn funds_released_ev(escrow_id: u64, amount: i128, fee: i128) -> EffectView {
    EffectView::Emit(EventView::FundsReleased { escrow_id, amount, fee })
}

/// The effects of crediting a fee to the collector: an event when the fee
/// is positive, nothing otherwise.
pub open spec fn fee_evs(escrow_id: u64, collector: Option<Seq<u8>>, fee: i128) -> Seq<EffectView> {
    if fee > 0 {
        seq![EffectView::Emit(EventView::FeeCollected { escrow_id, fee_collector: collector.unwrap(), fee })]
    } else {
        Seq::empty()
    }
}

/// Whether a value lies within the range of `i128`.
pub open spec fn fits_i128(x: int) -> bool {
    i128::MIN <= x <= i128::MAX
}

/// Whether every item has been released.
pub open spec fn spec_all_released(items: Seq<EscrowItemView>) -> bool {
    forall|j: int| 0 <= j < items.len() ==> #[trigger] items[j].released
}

impl ContractView {
    /// A buyer's volume at ledger `ledger_sequence`: zero once the volume
    /// period has run out, otherwise the recorded volume.
    pub open spec fn spec_buyer_volume(self, buyer: Seq<u8>, ledger_sequence: u32) -> i128 {
        if spec_should_reset(ledger_sequence, self.spec_tiers().reset_ledger) {
            0
        } else if self.buyer_volume.contains_key(buyer) {
            self.buyer_volume[buyer]
        } else {
            0
        }
    }

    /// The recorded volume of a buyer, without regard to the volume period.
    pub open spec fn spec_recorded_volume(self, buyer: Seq<u8>) -> i128 {
        if self.buyer_volume.contains_key(buyer) {
            self.buyer_volume[buyer]
        } else {
            0
        }
    }

    /// The fee charged when the buyer of `e` releases it at ledger
    /// `ledger_sequence`.
    pub open spec fn spec_release_fee_of(self, e: EscrowView, ledger_sequence: u32) -> i128 {
        let tiers = self.spec_tiers();
        spec_release_fee(
            e.amount,
            self.spec_fee_exempt(e.buyer),
            self.spec_effective_bps(e.token),
            tiers.spec_discount_bps(tiers.spec_tier(self.spec_buyer_volume(e.buyer, ledger_sequence))),
            self.min_fee,
            self.max_fee,
        ) as i128
    }

    /// The fee charged when the oracle confirms delivery of `e`: the rate
    /// of its token, without whitelist or volume discount, within the caps.
    pub open spec fn spec_delivery_fee_of(self, e: EscrowView) -> i128 {
        spec_capped_fee(
            spec_fee_bps(e.amount as int, self.spec_effective_bps(e.token) as int),
            self.min_fee as int,
            self.max_fee as int,
            e.amount as int,
        ) as i128
    }

    /// The state after crediting a positive fee to the collector's pending
    /// balance and to the total of fees.
    pub open spec fn spec_collect_fee(self, token: Seq<u8>, fee: i128) -> ContractView {
        if fee > 0 {
            ContractView {
                total_fees_collected: (self.total_fees_collected + fee) as i128,
                ..self.spec_add_pending_fee(self.fee_collector.unwrap(), token, fee)
            }
        } else {
            self
        }
    }

    /// The state after adding a release to a buyer's volume, starting a new
    /// volume period when the current one has run out.
    pub open spec fn spec_record_volume(self, buyer: Seq<u8>, amount: i128, ledger_sequence: u32) -> ContractView {
        let tiers = self.spec_tiers();
        ContractView {
            volume_tiers: if spec_should_reset(ledger_sequence, tiers.reset_ledger) {
                Some(VolumeTierConfig { reset_ledger: ledger_sequence, ..tiers })
            } else {
                self.volume_tiers
            },
            buyer_volume: self.buyer_volume.insert(
                buyer,
                spec_sat_add(self.spec_recorded_volume(buyer) as int, amount as int) as i128,
            ),
            ..self
        }
    }

    /// The event published when a release adds to a buyer's volume.
    pub open spec fn spec_volume_ev(self, buyer: Seq<u8>, amount: i128) -> EffectView {
        EffectView::Emit(
            EventView::VolumeUpdated {
                buyer,
                added_amount: amount,
                new_volume: spec_sat_add(self.spec_recorded_volume(buyer) as int, amount as int) as i128,
            },
        )
    }

    /// Release of a whole pending escrow by its buyer: the seller receives
    /// the amount less the fee, the fee is credited to the collector, the
    /// escrow becomes `Released`, and the amount adds to the buyer's volume.
    pub open spec fn spec_release_escrow(self, escrow_id: u64, ledger_sequence: u32) -> Step {
        match self.spec_not_paused() {
            Err(err) => Err(err),
            Ok(_) => match self.spec_escrow(escrow_id) {
                Err(err) => Err(err),
                Ok(e) => if e.status != EscrowStatus::Pending {
                    Err(ContractError::InvalidEscrowState)
                } else {
                    let fee = self.spec_release_fee_of(e, ledger_sequence);
                    if fee > 0 && self.fee_collector is None {
                        Err(ContractError::InvalidFeeConfig)
                    } else {
                        let s1 = self.spec_collect_fee(e.token, fee);
                        let s2 = ContractView {
                            escrows: s1.escrows.insert(
                                escrow_id,
                                EscrowView {
                                    status: EscrowStatus::Released,
                                    cancellation_proposer: None,
                                    ..e
                                },
                            ),
                            total_released: (s1.total_released + e.amount) as i128,
                            ..s1
                        };
                        Ok(
                            (
                                s2.spec_record_volume(e.buyer, e.amount, ledger_sequence),
                                seq![auth_ev(e.buyer), pay_out_ev(e.token, e.seller, (e.amount - fee) as i128)]
                                    + fee_evs(escrow_id, self.fee_collector, fee) + seq![
                                    funds_released_ev(escrow_id, e.amount, fee),
                                    status_ev(escrow_id, EscrowStatus::Pending, EscrowStatus::Released, e.buyer),
                                    s2.spec_volume_ev(e.buyer, e.amount),
                                ],
                            ),
                        )
                    }
                },
            },
        }
    }

    /// Whether releasing the escrow would overflow the total of fees or the
    /// total of released amounts.
    pub open spec fn spec_release_escrow_overflows(self, escrow_id: u64, ledger_sequence: u32) -> bool {
        &&& !self.paused
        &&& self.escrows.contains_key(escrow_id)
        &&& self.escrows[escrow_id].status == EscrowStatus::Pending
        &&& {
            let e = self.escrows[escrow_id];
            let fee = self.spec_release_fee_of(e, ledger_sequence);
            &&& !(fee > 0 && self.fee_collector is None)
            &&& {
                ||| (fee > 0 && !fits_i128(self.total_fees_collected + fee))
                ||| !fits_i128(self.total_released + e.amount)
            }
        }
    }

    /// Release of a pending escrow on the oracle's confirmation of delivery;
    /// the escrow must carry a tracking identifier.
    pub open spec fn spec_verify_delivery(self, escrow_id: u64) -> Step {
        match self.spec_not_paused() {
            Err(err) => Err(err),
            Ok(_) => match self.oracle {
                None => Err(ContractError::NotOracle),
                Some(oracle) => match self.spec_escrow(escrow_id) {
                    Err(err) => Err(err),
                    Ok(e) => if e.status != EscrowStatus::Pending {
                        Err(ContractError::InvalidEscrowState)
                    } else if e.tracking_id is None {
                        Err(ContractError::Unauthorized)
                    } else {
                        let fee = self.spec_delivery_fee_of(e);
                        if fee > 0 && self.fee_collector is None {
                            Err(ContractError::InvalidFeeConfig)
                        } else {
                            let s1 = self.spec_collect_fee(e.token, fee);
                            Ok(
                                (
                                    ContractView {
                                        escrows: s1.escrows.insert(
                                            escrow_id,
                                            EscrowView {
                                                status: EscrowStatus::Released,
                                                cancellation_proposer: None,
                                                ..e
                                            },
                                        ),
                                        total_released: (s1.total_released + e.amount) as i128,
                                        ..s1
                                    },
                                    seq![auth_ev(oracle), pay_out_ev(e.token, e.seller, (e.amount - fee) as i128)]
                                        + fee_evs(escrow_id, self.fee_collector, fee) + seq![
                                        funds_released_ev(escrow_id, e.amount, fee),
                                        EffectView::Emit(
                                            EventView::DeliveryVerified {
                                                escrow_id,
                                                tracking_id: e.tracking_id.unwrap(),
                                            },
                                        ),
                                        status_ev(escrow_id, EscrowStatus::Pending, EscrowStatus::Released, oracle),
                                    ],
                                ),
                            )
                        }
                    },
                },
            },
        }
    }

    /// Whether confirming delivery would overflow the total of fees or the
    /// total of released amounts.
    pub open spec fn spec_verify_delivery_overflows(self, escrow_id: u64) -> bool {
        &&& !self.paused
        &&& self.oracle is Some
        &&& self.escrows.contains_key(escrow_id)
        &&& self.escrows[escrow_id].status == EscrowStatus::Pending
        &&& self.escrows[escrow_id].tracking_id is Some
        &&& {
            let e = self.escrows[escrow_id];
            let fee = self.spec_delivery_fee_of(e);
            &&& !(fee > 0 && self.fee_collector is None)
            &&& {
                ||| (fee > 0 && !fits_i128(self.total_fees_collected + fee))
                ||| !fits_i128(self.total_released + e.amount)
            }
        }
    }

    /// Release of one item of a pending escrow by its buyer; once every item
    /// is released the escrow becomes `Released`.
    pub open spec fn spec_release_item(self, escrow_id: u64, item_index: u32) -> Step {
        match self.spec_not_paused() {
            Err(err) => Err(err),
            Ok(_) => match self.spec_escrow(escrow_id) {
                Err(err) => Err(err),
                Ok(e) => if item_index < e.items.len() && e.items[item_index as int].released {
                    Err(ContractError::ItemAlreadyReleased)
                } else if e.status != EscrowStatus::Pending {
                    Err(ContractError::InvalidEscrowState)
                } else if item_index >= e.items.len() {
                    Err(ContractError::ItemNotFound)
                } else {
                    let item = e.items[item_index as int];
                    let items = e.items.update(item_index as int, EscrowItemView { released: true, ..item });
                    let all = spec_all_released(items);
                    Ok(
                        (
                            ContractView {
                                escrows: self.escrows.insert(
                                    escrow_id,
                                    EscrowView {
                                        items,
                                        status: if all {
                                            EscrowStatus::Released
                                        } else {
                                            EscrowStatus::Pending
                                        },
                                        ..e
                                    },
                                ),
                                total_released: (self.total_released + item.amount) as i128,
                                ..self
                            },
                            seq![
                                auth_ev(e.buyer),
                                pay_out_ev(e.token, e.seller, item.amount),
                                funds_released_ev(escrow_id, item.amount, 0),
                            ] + if all {
                                seq![status_ev(escrow_id, EscrowStatus::Pending, EscrowStatus::Released, e.buyer)]
                            } else {
                                Seq::empty()
                            },
                        ),
                    )
                },
            },
        }
    }

    /// Whether releasing the item would overflow the total of released amounts.
    pub open spec fn spec_release_item_overflows(self, escrow_id: u64, item_index: u32) -> bool {
        &&& !self.paused
        &&& self.escrows.contains_key(escrow_id)
        &&& self.escrows[escrow_id].status == EscrowStatus::Pending
        &&& item_index < self.escrows[escrow_id].items.len()
        &&& !self.escrows[escrow_id].items[item_index as int].released
        &&& !fits_i128(self.total_released + self.escrows[escrow_id].items[item_index as int].amount)
    }
}

/// The effect that pays `amount` of `token` out of the contract to `to`.
pub fn pay_out(token: &Address, to: &Address, amount: i128) -> (e: Effect)
    ensures
        e@ == pay_out_ev(token@, to@, amount),
{
    Effect::TransferOut { token: token.duplicate(), to: to.duplicate(), amount }
}

fn funds_released(escrow_id: u64, amount: i128, fee: i128) -> (e: Effect)
    ensures
        e@ == funds_released_ev(escrow_id, amount, fee),
{
    Effect::Emit(Event::FundsReleased(FundsReleasedEvent { escrow_id, amount, fee }))
}

/// Whether every item has been released.
fn all_items_released(items: &Vec<EscrowItem>) -> (r: bool)
    ensures
        r == spec_all_released(items.deep_view()),
{
    let mut i: usize = 0;
    while i < items.len()
        invariant
            i <= items@.len(),
            forall|j: int| 0 <= j < i ==> #[trigger] items.deep_view()[j].released,
        decreases items.len() - i,
    {
        assert(items.deep_view()[i as int] == items@[i as int]@);
        if !items[i].released {
            assert(!items.deep_view()[i as int].released);
            return false;
        }
        i = i + 1;
    }
    true
}

impl Contract {
    /// Releases one item of a pending escrow to the seller, without fee.
    /// When this was the last unreleased item, the escrow becomes `Released`.
    ///
    /// # Errors
    /// * `ContractPaused` - the contract is paused
    /// * `EscrowNotFound` - no escrow has this identifier
    /// * `ItemAlreadyReleased` - the item was released before, also once the
    ///   escrow as a whole has left `Pending`
    /// * `InvalidEscrowState` - the escrow is not pending
    /// * `ItemNotFound` - the index is out of range
    pub fn release_item(&mut self, escrow_id: u64, item_index: u32) -> (r: Result<Vec<Effect>, ContractError>)
        requires
            old(self).wf(),
            !old(self)@.spec_release_item_overflows(escrow_id, item_index),
        ensures
            final(self).wf(),
            step_matches(old(self)@.spec_release_item(escrow_id, item_index), old(self)@, final(self)@, r),
    {
        match self.release_item_checked(escrow_id, item_index) {
            Some(r) => r,
            None => {
                assert(false);
                Err(ContractError::InvalidEscrowState)
            },
        }
    }

    /// `release_item`, returning `None` instead where the contract traps on an
    /// arithmetic overflow.
    pub fn release_item_checked(&mut self, escrow_id: u64, item_index: u32) -> (r: Option<Result<Vec<Effect>, ContractError>>)
        requires
            old(self).wf(),
        ensures
            final(self).wf(),
            checked_step_matches(
                old(self)@.spec_release_item_overflows(escrow_id, item_index),
                old(self)@.spec_release_item(escrow_id, item_index),
                old(self)@,
                final(self)@,
                r,
            ),
    {
        if let Err(e) = self.check_not_paused() {
            return Some(Err(e));
        }
        let escrow = match self.escrows.get(&escrow_id) {
            Some(e) => e.duplicate(),
            None => return Some(Err(ContractError::EscrowNotFound)),
        };
        let idx = item_index as usize;
        if idx < escrow.items.len() {
            assert(escrow@.items[idx as int] == escrow.items@[idx as int]@);
            if escrow.items[idx].released {
                return Some(Err(ContractError::ItemAlreadyReleased));
            }
        }
        if escrow.status != EscrowStatus::Pending {
            return Some(Err(ContractError::InvalidEscrowState));
        }
        if idx >= escrow.items.len() {
            return Some(Err(ContractError::ItemNotFound));
        }
        assert(escrow@.items[idx as int] == escrow.items@[idx as int]@);
        let ghost pre = self@;
        let ghost ev = escrow@;
        let item_amount = escrow.items[idx].amount;
        let new_total_released = match self.total_released.checked_add(item_amount) {
            Some(t) => t,
            None => return None,
        };
        let mut updated = escrow.duplicate();
        let released_item = EscrowItem {
            amount: item_amount,
            released: true,
            description: copy_opt_bytes(&escrow.items[idx].description),
        };
        updated.items.set(idx, released_item);
        proof {
            let item = ev.items[idx as int];
            assert(updated.items.deep_view() =~= ev.items.update(
                idx as int,
                EscrowItemView { released: true, ..item },
            ));
        }
        let all = all_items_released(&updated.items);
        if all {
            updated.status = EscrowStatus::Released;
        }
        let mut effects: Vec<Effect> = Vec::new();
        effects.push(auth_effect(&escrow.buyer));
        effects.push(pay_out(&escrow.token, &escrow.seller, item_amount));
        effects.push(funds_released(escrow_id, item_amount, 0));
        if all {
            effects.push(status_effect(escrow_id, EscrowStatus::Pending, EscrowStatus::Released, &escrow.buyer));
        }
        self.escrows.insert(escrow_id, updated);
        self.total_released = new_total_released;
        proof {
            let model = pre.spec_release_item(escrow_id, item_index);
            assert(effects.deep_view() =~= model->Ok_0.1);
            assert(self@.escrows =~= model->Ok_0.0.escrows);
            assert(self@ == model->Ok_0.0);
        }
        Some(Ok(effects))
    }

    /// The recorded volume of a buyer.
    fn recorded_volume(&self, buyer: &Address) -> (v: i128)
        requires
            self.wf(),
        ensures
            v == self@.spec_recorded_volume(buyer@),
    {
        match self.buyer_volume.get(buyer) {
            Some(v) => *v,
            None => 0,
        }
    }

    /// A buyer's volume in the current volume period.
    pub fn buyer_volume(&self, buyer: &Address, ledger_sequence: u32) -> (v: i128)
        requires
            self.wf(),
        ensures
            v == self@.spec_buyer_volume(buyer@, ledger_sequence),
    {
        let config = self.tiers();
        if should_reset_volume(ledger_sequence, config.reset_ledger) {
            return 0;
        }
        self.recorded_volume(buyer)
    }

    /// A buyer's tier (0 to 3); zero when the buyer has no volume.
    pub fn buyer_tier(&self, buyer: &Address, ledger_sequence: u32) -> (t: u32)
        requires
            self.wf(),
        ensures
            t == (if self@.spec_buyer_volume(buyer@, ledger_sequence) == 0 {
                0
            } else {
                self@.spec_tiers().spec_tier(self@.spec_buyer_volume(buyer@, ledger_sequence)) as u32
            }),
    {
        let volume = self.buyer_volume(buyer, ledger_sequence);
        if volume == 0 {
            return 0;
        }
        let config = self.tiers();
        config.get_tier(volume) as u32
    }

    /// The fee charged when the buyer of `escrow` releases it.
    fn release_fee_for(&self, escrow: &Escrow, ledger_sequence: u32) -> (fee: i128)
        requires
            self.wf(),
        ensures
            fee == self@.spec_release_fee_of(escrow@, ledger_sequence),
    {
        let whitelisted = self.is_fee_exempt(&escrow.buyer);
        let bps = self.effective_bps(&escrow.token);
        let config = self.tiers();
        let tier = config.get_tier(self.buyer_volume(&escrow.buyer, ledger_sequence));
        let discount = config.get_discount_bps(tier);
        release_fee(escrow.amount, whitelisted, bps, discount, self.min_fee, self.max_fee)
    }

    /// Credits a positive fee to the collector and to the total of fees,
    /// returning the effects that report it.
    fn collect_fee(&mut self, escrow_id: u64, token: &Address, fee: i128) -> (effects: Vec<Effect>)
        requires
            old(self).wf(),
            fee > 0 ==> old(self)@.fee_collector is Some,
            fee > 0 ==> fits_i128(old(self)@.total_fees_collected + fee),
        ensures
            final(self).wf(),
            final(self)@ == old(self)@.spec_collect_fee(token@, fee),
            effects.deep_view() == fee_evs(escrow_id, old(self)@.fee_collector, fee),
    {
        let mut effects: Vec<Effect> = Vec::new();
        if fee > 0 {
            let collector = match &self.fee_collector {
                Some(c) => c.duplicate(),
                None => return effects,
            };
            self.add_pending_fee(&collector, token, fee);
            self.total_fees_collected = self.total_fees_collected + fee;
            effects.push(
                Effect::Emit(
                    Event::FeeCollected(FeeCollectedEvent { escrow_id, fee_collector: collector, fee }),
                ),
            );
        }
        assert(effects.deep_view() =~= fee_evs(escrow_id, old(self)@.fee_collector, fee));
        effects
    }

    /// Adds a release to a buyer's volume, returning the event that reports it.
    fn update_buyer_volume(&mut self, buyer: &Address, amount: i128, ledger_sequence: u32) -> (e: Effect)
        requires
            old(self).wf(),
        ensures
            final(self).wf(),
            final(self)@ == old(self)@.spec_record_volume(buyer@, amount, ledger_sequence),
            e@ == old(self)@.spec_volume_ev(buyer@, amount),
    {
        let mut config = self.tiers();
        if should_reset_volume(ledger_sequence, config.reset_ledger) {
            config.reset_ledger = ledger_sequence;
            self.volume_tiers = Some(config);
        }
        let current = self.recorded_volume(buyer);
        let new_volume = add_volume(current, amount);
        self.buyer_volume.insert(buyer.duplicate(), new_volume);
        Effect::Emit(
            Event::VolumeUpdated(
                VolumeUpdatedEvent { buyer: buyer.duplicate(), added_amount: amount, new_volume },
            ),
        )
    }

    /// Releases a whole pending escrow to its seller, less the fee.
    ///
    /// The fee is zero for a whitelisted buyer; otherwise the token's rate,
    /// lowered by the buyer's volume discount (at most
    /// `MAX_VOLUME_DISCOUNT_BPS`), applied to the amount and bounded by the
    /// minimum fee, the maximum fee when positive, and the amount. The
    /// released amount then adds to the buyer's volume.
    ///
    /// # Errors
    /// * `ContractPaused` - the contract is paused
    /// * `EscrowNotFound` - no escrow has this identifier
    /// * `InvalidEscrowState` - the escrow is not pending
    /// * `InvalidFeeConfig` - a fee is due and no fee collector is configured
    pub fn release_escrow(&mut self, escrow_id: u64, ledger_sequence: u32) -> (r: Result<Vec<Effect>, ContractError>)
        requires
            old(self).wf(),
            !old(self)@.spec_release_escrow_overflows(escrow_id, ledger_sequence),
        ensures
            final(self).wf(),
            step_matches(old(self)@.spec_release_escrow(escrow_id, ledger_sequence), old(self)@, final(self)@, r),
    {
        match self.release_escrow_checked(escrow_id, ledger_sequence) {
            Some(r) => r,
            None => {
                assert(false);
                Err(ContractError::InvalidEscrowState)
            },
        }
    }

    /// `release_escrow`, returning `None` instead where the contract traps on an
    /// arithmetic overflow.
    pub fn release_escrow_checked(&mut self, escrow_id: u64, ledger_sequence: u32) -> (r: Option<Result<Vec<Effect>, ContractError>>)
        requires
            old(self).wf(),
        ensures
            final(self).wf(),
            checked_step_matches(
                old(self)@.spec_release_escrow_overflows(escrow_id, ledger_sequence),
                old(self)@.spec_release_escrow(escrow_id, ledger_sequence),
                old(self)@,
                final(self)@,
                r,
            ),
    {
        if let Err(e) = self.check_not_paused() {
            return Some(Err(e));
        }
        let escrow = match self.escrows.get(&escrow_id) {
            Some(e) => e.duplicate(),
            None => return Some(Err(ContractError::EscrowNotFound)),
        };
        if escrow.status != EscrowStatus::Pending {
            return Some(Err(ContractError::InvalidEscrowState));
        }
        let fee = self.release_fee_for(&escrow, ledger_sequence);
        if fee > 0 && self.fee_collector.is_none() {
            return Some(Err(ContractError::InvalidFeeConfig));
        }
        assert(escrow@ == self@.escrows[escrow_id]);
        let new_total_released = match self.total_released.checked_add(escrow.amount) {
            Some(t) => t,
            None => return None,
        };
        if fee > 0 && self.total_fees_collected.checked_add(fee).is_none() {
            return None;
        }
        let ghost pre = self@;
        let ghost ev = escrow@;
        let mut effects: Vec<Effect> = Vec::new();
        effects.push(auth_effect(&escrow.buyer));
        effects.push(pay_out(&escrow.token, &escrow.seller, escrow.amount - fee));
        let mut fee_effects = self.collect_fee(escrow_id, &escrow.token, fee);
        effects.append(&mut fee_effects);
        let ghost s1 = self@;
        assert(s1.total_released == pre.total_released);
        let mut released = escrow.duplicate();
        released.status = EscrowStatus::Released;
        released.cancellation_proposer = None;
        self.escrows.insert(escrow_id, released);
        self.total_released = new_total_released;
        let ghost s2 = self@;
        effects.push(funds_released(escrow_id, escrow.amount, fee));
        effects.push(status_effect(escrow_id, EscrowStatus::Pending, EscrowStatus::Released, &escrow.buyer));
        let vol = self.update_buyer_volume(&escrow.buyer, escrow.amount, ledger_sequence);
        effects.push(vol);
        proof {
            let model = pre.spec_release_escrow(escrow_id, ledger_sequence);
            assert(s2 == ContractView {
                escrows: s1.escrows.insert(
                    escrow_id,
                    EscrowView { status: EscrowStatus::Released, cancellation_proposer: None, ..ev },
                ),
                total_released: (s1.total_released + ev.amount) as i128,
                ..s1
            });
            assert(effects.deep_view() =~= model->Ok_0.1);
        }
        Some(Ok(effects))
    }

    /// Releases a pending escrow when the configured oracle confirms
    /// delivery; the fee is the token's rate within the caps.
    ///
    /// # Errors
    /// * `ContractPaused` - the contract is paused
    /// * `NotOracle` - no oracle is configured
    /// * `EscrowNotFound` - no escrow has this identifier
    /// * `InvalidEscrowState` - the escrow is not pending
    /// * `Unauthorized` - the escrow has no tracking identifier
    /// * `InvalidFeeConfig` - a fee is due and no fee collector is configured
    pub fn verify_delivery(&mut self, escrow_id: u64) -> (r: Result<Vec<Effect>, ContractError>)
        requires
            old(self).wf(),
            !old(self)@.spec_verify_delivery_overflows(escrow_id),
        ensures
            final(self).wf(),
            step_matches(old(self)@.spec_verify_delivery(escrow_id), old(self)@, final(self)@, r),
    {
        match self.verify_delivery_checked(escrow_id) {
            Some(r) => r,
            None => {
                assert(false);
                Err(ContractError::InvalidEscrowState)
            },
        }
    }

    /// `verify_delivery`, returning `None` instead where the contract traps on an
    /// arithmetic overflow.
    pub fn verify_delivery_checked(&mut self, escrow_id: u64) -> (r: Option<Result<Vec<Effect>, ContractError>>)
        requires
            old(self).wf(),
        ensures
            final(self).wf(),
            checked_step_matches(
                old(self)@.spec_verify_delivery_overflows(escrow_id),
                old(self)@.spec_verify_delivery(escrow_id),
                old(self)@,
                final(self)@,
                r,
            ),
    {
        if let Err(e) = self.check_not_paused() {
            return Some(Err(e));
        }
        let oracle = match &self.oracle {
            Some(o) => o.duplicate(),
            None => return Some(Err(ContractError::NotOracle)),
        };
        let escrow = match self.escrows.get(&escrow_id) {
            Some(e) => e.duplicate(),
            None => return Some(Err(ContractError::EscrowNotFound)),
        };
        if escrow.status != EscrowStatus::Pending {
            return Some(Err(ContractError::InvalidEscrowState));
        }
        let tracking_id = match &escrow.tracking_id {
            Some(t) => crate::types::copy_bytes(t),
            None => return Some(Err(ContractError::Unauthorized)),
        };
        let bps = self.effective_bps(&escrow.token);
        let raw = calculate_fee_bps_safe(escrow.amount, bps);
        let fee = cap_fee(raw, self.min_fee, self.max_fee, escrow.amount);
        if fee > 0 && self.fee_collector.is_none() {
            return Some(Err(ContractError::InvalidFeeConfig));
        }
        assert(escrow@ == self@.escrows[escrow_id]);
        assert(fee == self@.spec_delivery_fee_of(escrow@));
        let new_total_released = match self.total_released.checked_add(escrow.amount) {
            Some(t) => t,
            None => return None,
        };
        if fee > 0 && self.total_fees_collected.checked_add(fee).is_none() {
            return None;
        }
        let ghost pre = self@;
        let ghost ev = escrow@;
        let mut effects: Vec<Effect> = Vec::new();
        effects.push(auth_effect(&oracle));
        effects.push(pay_out(&escrow.token, &escrow.seller, escrow.amount - fee));
        let mut fee_effects = self.collect_fee(escrow_id, &escrow.token, fee);
        effects.append(&mut fee_effects);
        assert(self@.total_released == pre.total_released);
        let mut released = escrow.duplicate();
        released.status = EscrowStatus::Released;
        released.cancellation_proposer = None;
        self.escrows.insert(escrow_id, released);
        self.total_released = new_total_released;
        effects.push(funds_released(escrow_id, escrow.amount, fee));
        assert(tracking_id@ =~= ev.tracking_id.unwrap());
        effects.push(
            Effect::Emit(Event::DeliveryVerified(DeliveryVerifiedEvent { escrow_id, tracking_id })),
        );
        effects.push(status_effect(escrow_id, EscrowStatus::Pending, EscrowStatus::Released, &oracle));
        proof {
            let model = pre.spec_verify_delivery(escrow_id);
            assert(model is Ok);
            assert(pre.oracle == Some(oracle@));
            assert(model->Ok_0.1 == seq![auth_ev(oracle@), pay_out_ev(ev.token, ev.seller, (ev.amount - fee) as i128)]
                + fee_evs(escrow_id, pre.fee_collector, fee) + seq![
                funds_released_ev(escrow_id, ev.amount, fee),
                EffectView::Emit(EventView::DeliveryVerified { escrow_id, tracking_id: ev.tracking_id.unwrap() }),
                status_ev(escrow_id, EscrowStatus::Pending, EscrowStatus::Released, oracle@),
            ]);
            assert(effects.deep_view() =~= model->Ok_0.1);
            assert(self@ == model->Ok_0.0);
        }
        Some(Ok(effects))
    }
}

} // verus!

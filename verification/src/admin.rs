use vstd::prelude::*;
use crate::errors::ContractError;
use crate::events::{
    AdminTransferredEvent, Effect, EffectView, Event, EventView, FeeCapsChangedEvent,
    FeeChangedEvent, FeeExemptionEvent,
};
use crate::state::{auth_effect, auth_ev, step_matches, Contract, ContractView, Step};
use crate::types::{is_zero_xdr, Address, MAX_FEE_BPS};
use crate::volume::{spec_standard_tiers, VolumeTierConfig};

verus! {

impl ContractView {
    /// Sets up the admin, the fee collector and the fee settings, and resets
    /// the counters and totals; both addresses must be non-zero.
    pub open spec fn spec_initialize(
        self,
        admin: Seq<u8>,
        fee_collector: Seq<u8>,
        fee_bps: u32,
        min_fee: i128,
        max_fee: i128,
        ledger_sequence: u32,
    ) -> Step {
        if is_zero_xdr(admin) || is_zero_xdr(fee_collector) {
            Err(ContractError::ZeroAddress)
        } else {
            Ok(
                (
                    ContractView {
                        admin: Some(admin),
                        fee_collector: Some(fee_collector),
                        fee_bps,
                        min_fee,
                        max_fee,
                        paused: false,
                        escrow_counter: 0,
                        refund_count: 0,
                        total_funded: 0,
                        total_refunded: 0,
                        total_disputed: 0,
                        total_fees_collected: 0,
                        volume_tiers: Some(spec_standard_tiers(ledger_sequence)),
                        ..self
                    },
                    seq![auth_ev(admin)],
                ),
            )
        }
    }

    /// Sets the pause flag; admin only.
    pub open spec fn spec_set_paused(self, paused: bool) -> Step {
        match self.spec_admin() {
            Err(e) => Err(e),
            Ok(admin) => Ok((ContractView { paused, ..self }, seq![auth_ev(admin)])),
        }
    }

    /// Sets the oracle; admin only.
    pub open spec fn spec_set_oracle(self, oracle: Seq<u8>) -> Step {
        match self.spec_admin() {
            Err(e) => Err(e),
            Ok(admin) => Ok((ContractView { oracle: Some(oracle), ..self }, seq![auth_ev(admin)])),
        }
    }

    /// Proposes a new admin; admin only.
    pub open spec fn spec_transfer_admin(self, new_admin: Seq<u8>) -> Step {
        match self.spec_admin() {
            Err(e) => Err(e),
            Ok(admin) => Ok(
                (ContractView { proposed_admin: Some(new_admin), ..self }, seq![auth_ev(admin)]),
            ),
        }
    }

    /// The proposed admin takes over the role.
    pub open spec fn spec_accept_admin(self) -> Step {
        match self.proposed_admin {
            None => Err(ContractError::NotProposedAdmin),
            Some(p) => Ok(
                (
                    ContractView { admin: Some(p), proposed_admin: None, ..self },
                    seq![
                        auth_ev(p),
                        EffectView::Emit(
                            EventView::AdminTransferred { old_admin: self.admin.unwrap(), new_admin: p },
                        ),
                    ],
                ),
            ),
        }
    }

    /// Sets the general fee rate, at most `MAX_FEE_BPS`; admin only.
    pub open spec fn spec_set_fee_percentage(self, fee_bps: u32) -> Step {
        match self.spec_admin() {
            Err(e) => Err(e),
            Ok(admin) => if fee_bps > MAX_FEE_BPS {
                Err(ContractError::InvalidFeeConfig)
            } else {
                Ok(
                    (
                        ContractView { fee_bps, ..self },
                        seq![
                            auth_ev(admin),
                            EffectView::Emit(
                                EventView::FeeChanged {
                                    old_fee_bps: self.fee_bps,
                                    new_fee_bps: fee_bps,
                                    actor: admin,
                                },
                            ),
                        ],
                    ),
                )
            },
        }
    }

    /// Sets the fee caps; the minimum may not exceed a positive maximum;
    /// admin only.
    pub open spec fn spec_set_fee_caps(self, min_fee: i128, max_fee: i128) -> Step {
        match self.spec_admin() {
            Err(e) => Err(e),
            Ok(admin) => if max_fee > 0 && min_fee > max_fee {
                Err(ContractError::InvalidFeeConfig)
            } else {
                Ok(
                    (
                        ContractView { min_fee, max_fee, ..self },
                        seq![
                            auth_ev(admin),
                            EffectView::Emit(
                                EventView::FeeCapsChanged {
                                    old_min_fee: self.min_fee,
                                    new_min_fee: min_fee,
                                    old_max_fee: self.max_fee,
                                    new_max_fee: max_fee,
                                    actor: admin,
                                },
                            ),
                        ],
                    ),
                )
            },
        }
    }

    /// Sets the native asset and its fee rate, at most `MAX_FEE_BPS`; admin only.
    pub open spec fn spec_set_native_fee(self, native_token: Seq<u8>, native_fee_bps: u32) -> Step {
        match self.spec_admin() {
            Err(e) => Err(e),
            Ok(admin) => if native_fee_bps > MAX_FEE_BPS {
                Err(ContractError::InvalidFeeConfig)
            } else {
                Ok(
                    (
                        ContractView {
                            native_asset: Some(native_token),
                            native_fee_bps: Some(native_fee_bps),
                            ..self
                        },
                        seq![auth_ev(admin)],
                    ),
                )
            },
        }
    }

    /// Adds an address to (`exempt`) or removes it from the fee whitelist;
    /// admin only.
    pub open spec fn spec_set_fee_whitelist(self, address: Seq<u8>, exempt: bool) -> Step {
        match self.spec_admin() {
            Err(e) => Err(e),
            Ok(admin) => Ok(
                (
                    ContractView {
                        fee_whitelist: if exempt {
                            self.fee_whitelist.insert(address, true)
                        } else {
                            self.fee_whitelist.remove(address)
                        },
                        ..self
                    },
                    seq![
                        auth_ev(admin),
                        EffectView::Emit(
                            EventView::FeeExemption { address, exempted: exempt, actor: admin },
                        ),
                    ],
                ),
            ),
        }
    }

    /// Replaces the contract's code; admin only; the stored state is kept.
    pub open spec fn spec_upgrade(self, new_wasm_hash: Seq<u8>) -> Step {
        match self.spec_admin() {
            Err(e) => Err(e),
            Ok(admin) => Ok((self, seq![auth_ev(admin), EffectView::UpdateWasm(new_wasm_hash)])),
        }
    }
}

impl Contract {
    /// Initialises the contract with its admin, fee collector and fee
    /// settings.
    ///
    /// # Errors
    /// * `ZeroAddress` - the admin or the fee collector is a zero address
    pub fn initialize(
        &mut self,
        admin: Address,
        fee_collector: Address,
        fee_bps: u32,
        min_fee: i128,
        max_fee: i128,
        ledger_sequence: u32,
    ) -> (r: Result<Vec<Effect>, ContractError>)
        requires
            old(self).wf(),
        ensures
            final(self).wf(),
            step_matches(
                old(self)@.spec_initialize(admin@, fee_collector@, fee_bps, min_fee, max_fee, ledger_sequence),
                old(self)@,
                final(self)@,
                r,
            ),
    {
        if admin.is_zero() || fee_collector.is_zero() {
            return Err(ContractError::ZeroAddress);
        }
        let mut effects: Vec<Effect> = Vec::new();
        effects.push(auth_effect(&admin));
        self.admin = Some(admin);
        self.fee_collector = Some(fee_collector);
        self.fee_bps = fee_bps;
        self.min_fee = min_fee;
        self.max_fee = max_fee;
        self.paused = false;
        self.escrow_counter = 0;
        self.refund_count = 0;
        self.total_funded = 0;
        self.total_refunded = 0;
        self.total_disputed = 0;
        self.total_fees_collected = 0;
        self.volume_tiers = Some(VolumeTierConfig::standard(ledger_sequence));
        proof {
            assert(effects.deep_view() =~= seq![auth_ev(self@.admin.unwrap())]);
        }
        Ok(effects)
    }

    fn set_paused(&mut self, paused: bool) -> (r: Result<Vec<Effect>, ContractError>)
        requires
            old(self).wf(),
        ensures
            final(self).wf(),
            step_matches(old(self)@.spec_set_paused(paused), old(self)@, final(self)@, r),
    {
        let admin = match self.check_admin() {
            Ok(a) => a,
            Err(e) => return Err(e),
        };
        let mut effects: Vec<Effect> = Vec::new();
        effects.push(auth_effect(&admin));
        self.paused = paused;
        proof {
            assert(effects.deep_view() =~= seq![auth_ev(admin@)]);
        }
        Ok(effects)
    }

    /// Pauses the contract; escrow operations then fail with `ContractPaused`.
    ///
    /// # Errors
    /// * `NotAdmin` - no admin is configured
    pub fn pause(&mut self) -> (r: Result<Vec<Effect>, ContractError>)
        requires
            old(self).wf(),
        ensures
            final(self).wf(),
            step_matches(old(self)@.spec_set_paused(true), old(self)@, final(self)@, r),
    {
        self.set_paused(true)
    }

    /// Unpauses the contract.
    ///
    /// # Errors
    /// * `NotAdmin` - no admin is configured
    pub fn unpause(&mut self) -> (r: Result<Vec<Effect>, ContractError>)
        requires
            old(self).wf(),
        ensures
            final(self).wf(),
            step_matches(old(self)@.spec_set_paused(false), old(self)@, final(self)@, r),
    {
        self.set_paused(false)
    }

    /// Sets the oracle that may confirm deliveries.
    pub fn set_oracle(&mut self, oracle: Address) -> (r: Result<Vec<Effect>, ContractError>)
        requires
            old(self).wf(),
        ensures
            final(self).wf(),
            step_matches(old(self)@.spec_set_oracle(oracle@), old(self)@, final(self)@, r),
    {
        let admin = match self.check_admin() {
            Ok(a) => a,
            Err(e) => return Err(e),
        };
        let mut effects: Vec<Effect> = Vec::new();
        effects.push(auth_effect(&admin));
        self.oracle = Some(oracle);
        proof {
            assert(effects.deep_view() =~= seq![auth_ev(admin@)]);
        }
        Ok(effects)
    }

    /// Proposes a new admin; the transfer completes when the proposed admin
    /// accepts.
    pub fn transfer_admin(&mut self, new_admin: Address) -> (r: Result<Vec<Effect>, ContractError>)
        requires
            old(self).wf(),
        ensures
            final(self).wf(),
            step_matches(old(self)@.spec_transfer_admin(new_admin@), old(self)@, final(self)@, r),
    {
        let admin = match self.check_admin() {
            Ok(a) => a,
            Err(e) => return Err(e),
        };
        let mut effects: Vec<Effect> = Vec::new();
        effects.push(auth_effect(&admin));
        self.proposed_admin = Some(new_admin);
        proof {
            assert(effects.deep_view() =~= seq![auth_ev(admin@)]);
        }
        Ok(effects)
    }

    /// The proposed admin accepts the role.
    ///
    /// # Errors
    /// * `NotProposedAdmin` - no transfer has been proposed
    pub fn accept_admin(&mut self) -> (r: Result<Vec<Effect>, ContractError>)
        requires
            old(self).wf(),
            old(self)@.proposed_admin is Some ==> old(self)@.admin is Some,
        ensures
            final(self).wf(),
            step_matches(old(self)@.spec_accept_admin(), old(self)@, final(self)@, r),
    {
        let proposed = match &self.proposed_admin {
            Some(p) => p.duplicate(),
            None => return Err(ContractError::NotProposedAdmin),
        };
        let old_admin = match &self.admin {
            Some(a) => a.duplicate(),
            None => return Err(ContractError::NotProposedAdmin),
        };
        let mut effects: Vec<Effect> = Vec::new();
        effects.push(auth_effect(&proposed));
        effects.push(
            Effect::Emit(
                Event::AdminTransferred(
                    AdminTransferredEvent { old_admin, new_admin: proposed.duplicate() },
                ),
            ),
        );
        self.admin = Some(proposed);
        self.proposed_admin = None;
        proof {
            assert(effects.deep_view() =~= old(self)@.spec_accept_admin()->Ok_0.1);
            assert(self@ == old(self)@.spec_accept_admin()->Ok_0.0);
        }
        Ok(effects)
    }

    /// Sets the general fee rate in basis points.
    ///
    /// # Errors
    /// * `NotAdmin` - no admin is configured
    /// * `InvalidFeeConfig` - the rate exceeds `MAX_FEE_BPS`
    pub fn set_fee_percentage(&mut self, fee_bps: u32) -> (r: Result<Vec<Effect>, ContractError>)
        requires
            old(self).wf(),
        ensures
            final(self).wf(),
            step_matches(old(self)@.spec_set_fee_percentage(fee_bps), old(self)@, final(self)@, r),
    {
        let admin = match self.check_admin() {
            Ok(a) => a,
            Err(e) => return Err(e),
        };
        let old_fee_bps = self.fee_bps;
        if fee_bps > MAX_FEE_BPS {
            return Err(ContractError::InvalidFeeConfig);
        }
        let mut effects: Vec<Effect> = Vec::new();
        effects.push(auth_effect(&admin));
        effects.push(
            Effect::Emit(
                Event::FeeChanged(FeeChangedEvent { old_fee_bps, new_fee_bps: fee_bps, actor: admin }),
            ),
        );
        self.fee_bps = fee_bps;
        proof {
            assert(effects.deep_view() =~= old(self)@.spec_set_fee_percentage(fee_bps)->Ok_0.1);
        }
        Ok(effects)
    }

    /// Sets the minimum and maximum fee; a maximum of zero means none.
    ///
    /// # Errors
    /// * `NotAdmin` - no admin is configured
    /// * `InvalidFeeConfig` - the minimum exceeds a positive maximum
    pub fn set_fee_caps(&mut self, min_fee: i128, max_fee: i128) -> (r: Result<Vec<Effect>, ContractError>)
        requires
            old(self).wf(),
        ensures
            final(self).wf(),
            step_matches(old(self)@.spec_set_fee_caps(min_fee, max_fee), old(self)@, final(self)@, r),
    {
        let admin = match self.check_admin() {
            Ok(a) => a,
            Err(e) => return Err(e),
        };
        if max_fee > 0 && min_fee > max_fee {
            return Err(ContractError::InvalidFeeConfig);
        }
        let mut effects: Vec<Effect> = Vec::new();
        effects.push(auth_effect(&admin));
        effects.push(
            Effect::Emit(
                Event::FeeCapsChanged(
                    FeeCapsChangedEvent {
                        old_min_fee: self.min_fee,
                        new_min_fee: min_fee,
                        old_max_fee: self.max_fee,
                        new_max_fee: max_fee,
                        actor: admin,
                    },
                ),
            ),
        );
        self.min_fee = min_fee;
        self.max_fee = max_fee;
        proof {
            assert(effects.deep_view() =~= old(self)@.spec_set_fee_caps(min_fee, max_fee)->Ok_0.1);
        }
        Ok(effects)
    }

    /// Sets the native asset and the fee rate that applies to it.
    ///
    /// # Errors
    /// * `NotAdmin` - no admin is configured
    /// * `InvalidFeeConfig` - the rate exceeds `MAX_FEE_BPS`
    pub fn set_native_fee(&mut self, native_token: Address, native_fee_bps: u32) -> (r: Result<
        Vec<Effect>,
        ContractError,
    >)
        requires
            old(self).wf(),
        ensures
            final(self).wf(),
            step_matches(
                old(self)@.spec_set_native_fee(native_token@, native_fee_bps),
                old(self)@,
                final(self)@,
                r,
            ),
    {
        let admin = match self.check_admin() {
            Ok(a) => a,
            Err(e) => return Err(e),
        };
        if native_fee_bps > MAX_FEE_BPS {
            return Err(ContractError::InvalidFeeConfig);
        }
        let mut effects: Vec<Effect> = Vec::new();
        effects.push(auth_effect(&admin));
        self.native_asset = Some(native_token);
        self.native_fee_bps = Some(native_fee_bps);
        proof {
            assert(effects.deep_view() =~= seq![auth_ev(admin@)]);
        }
        Ok(effects)
    }

    /// Adds an address to the fee whitelist.
    pub fn add_fee_whitelist(&mut self, address: Address) -> (r: Result<Vec<Effect>, ContractError>)
        requires
            old(self).wf(),
        ensures
            final(self).wf(),
            step_matches(old(self)@.spec_set_fee_whitelist(address@, true), old(self)@, final(self)@, r),
    {
        let admin = match self.check_admin() {
            Ok(a) => a,
            Err(e) => return Err(e),
        };
        let mut effects: Vec<Effect> = Vec::new();
        effects.push(auth_effect(&admin));
        effects.push(
            Effect::Emit(
                Event::FeeExemption(
                    FeeExemptionEvent { address: address.duplicate(), exempted: true, actor: admin },
                ),
            ),
        );
        self.fee_whitelist.insert(address, true);
        proof {
            assert(effects.deep_view() =~= old(self)@.spec_set_fee_whitelist(address@, true)->Ok_0.1);
        }
        Ok(effects)
    }

    /// Removes an address from the fee whitelist.
    pub fn remove_fee_whitelist(&mut self, address: Address) -> (r: Result<Vec<Effect>, ContractError>)
        requires
            old(self).wf(),
        ensures
            final(self).wf(),
            step_matches(old(self)@.spec_set_fee_whitelist(address@, false), old(self)@, final(self)@, r),
    {
        let admin = match self.check_admin() {
            Ok(a) => a,
            Err(e) => return Err(e),
        };
        let mut effects: Vec<Effect> = Vec::new();
        effects.push(auth_effect(&admin));
        self.fee_whitelist.remove(&address);
        effects.push(
            Effect::Emit(
                Event::FeeExemption(FeeExemptionEvent { address, exempted: false, actor: admin }),
            ),
        );
        proof {
            assert(effects.deep_view() =~= old(self)@.spec_set_fee_whitelist(address@, false)->Ok_0.1);
        }
        Ok(effects)
    }

    /// Replaces the contract's code with the code of the given hash.
    pub fn upgrade(&self, new_wasm_hash: Vec<u8>) -> (r: Result<Vec<Effect>, ContractError>)
        requires
            self.wf(),
        ensures
            step_matches(self@.spec_upgrade(new_wasm_hash@), self@, self@, r),
    {
        let admin = match self.check_admin() {
            Ok(a) => a,
            Err(e) => return Err(e),
        };
        let mut effects: Vec<Effect> = Vec::new();
        effects.push(auth_effect(&admin));
        let ghost h = new_wasm_hash@;
        effects.push(Effect::UpdateWasm(new_wasm_hash));
        proof {
            assert(effects.deep_view() =~= seq![auth_ev(admin@), EffectView::UpdateWasm(h)]);
        }
        Ok(effects)
    }
}

} // verus!

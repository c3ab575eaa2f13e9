use vstd::prelude::*;
use crate::errors::ContractError;
use crate::events::{Effect, EffectView, Event, EventView};
use crate::table::{Dup, Table};
use crate::types::{
    escrow_hashable, Address, Escrow, EscrowStatus, EscrowView, MetadataVisibility, RefundRequest,
    RefundRequestView,
};
use crate::volume::{spec_standard_tiers, VolumeTierConfig};

verus! {

/// Mathematical value of the contract's stored state.
pub struct ContractView {
    pub admin: Option<Seq<u8>>,
    pub proposed_admin: Option<Seq<u8>>,
    pub fee_collector: Option<Seq<u8>>,
    pub fee_bps: u32,
    pub min_fee: i128,
    pub max_fee: i128,
    pub native_asset: Option<Seq<u8>>,
    pub native_fee_bps: Option<u32>,
    pub paused: bool,
    pub escrow_counter: u64,
    pub refund_count: u64,
    pub total_funded: i128,
    pub total_released: i128,
    pub total_refunded: i128,
    pub total_fees_collected: i128,
    pub total_disputed: u32,
    pub oracle: Option<Seq<u8>>,
    pub volume_tiers: Option<VolumeTierConfig>,
    pub escrows: Map<u64, EscrowView>,
    pub escrow_hashes: Map<Seq<u8>, u64>,
    pub refund_requests: Map<u64, RefundRequestView>,
    pub escrow_refunds: Map<u64, Seq<u64>>,
    pub pending_fees: Map<(Seq<u8>, Seq<u8>), i128>,
    pub fee_whitelist: Map<Seq<u8>, bool>,
    pub metadata_visibility: Map<u64, MetadataVisibility>,
    pub buyer_volume: Map<Seq<u8>, i128>,
}

/// The stored state of the escrow contract.
///
/// Values that the contract reads with a default when absent (counters,
/// totals, fee rates and caps, the pause flag) are held with that default.
pub struct Contract {
    pub admin: Option<Address>,
    pub proposed_admin: Option<Address>,
    pub fee_collector: Option<Address>,
    pub fee_bps: u32,
    pub min_fee: i128,
    pub max_fee: i128,
    pub native_asset: Option<Address>,
    pub native_fee_bps: Option<u32>,
    pub paused: bool,
    pub escrow_counter: u64,
    pub refund_count: u64,
    pub total_funded: i128,
    pub total_released: i128,
    pub total_refunded: i128,
    pub total_fees_collected: i128,
    pub total_disputed: u32,
    pub oracle: Option<Address>,
    pub volume_tiers: Option<VolumeTierConfig>,
    pub escrows: Table<u64, Escrow>,
    pub escrow_hashes: Table<Vec<u8>, u64>,
    pub refund_requests: Table<u64, RefundRequest>,
    pub escrow_refunds: Table<u64, Vec<u64>>,
    pub pending_fees: Table<(Address, Address), i128>,
    pub fee_whitelist: Table<Address, bool>,
    pub metadata_visibility: Table<u64, MetadataVisibility>,
    pub buyer_volume: Table<Address, i128>,
}

impl View for Contract {
    type V = ContractView;

    open spec fn view(&self) -> ContractView {
        ContractView {
            admin: self.admin.deep_view(),
            proposed_admin: self.proposed_admin.deep_view(),
            fee_collector: self.fee_collector.deep_view(),
            fee_bps: self.fee_bps,
            min_fee: self.min_fee,
            max_fee: self.max_fee,
            native_asset: self.native_asset.deep_view(),
            native_fee_bps: self.native_fee_bps,
            paused: self.paused,
            escrow_counter: self.escrow_counter,
            refund_count: self.refund_count,
            total_funded: self.total_funded,
            total_released: self.total_released,
            total_refunded: self.total_refunded,
            total_fees_collected: self.total_fees_collected,
            total_disputed: self.total_disputed,
            oracle: self.oracle.deep_view(),
            volume_tiers: self.volume_tiers,
            escrows: self.escrows@,
            escrow_hashes: self.escrow_hashes@,
            refund_requests: self.refund_requests@,
            escrow_refunds: self.escrow_refunds@,
            pending_fees: self.pending_fees@,
            fee_whitelist: self.fee_whitelist@,
            metadata_visibility: self.metadata_visibility@,
            buyer_volume: self.buyer_volume@,
        }
    }
}

/// The outcome of an operation in the model: the new state and the effects
/// to perform, or the error.
pub type Step = Result<(ContractView, Seq<EffectView>), ContractError>;

/// An operation's result agrees with its model: on success the new state and
/// the effects are those of the model; on failure the error is the model's and
/// the state is unchanged.
pub open spec fn step_matches(
    model: Step,
    pre: ContractView,
    post: ContractView,
    r: Result<Vec<Effect>, ContractError>,
) -> bool {
    match r {
        Ok(effects) => model == Ok::<(ContractView, Seq<EffectView>), ContractError>(
            (post, effects.deep_view()),
        ),
        Err(e) => model == Err::<(ContractView, Seq<EffectView>), ContractError>(e) && post == pre,
    }
}

/// The outcome of an operation that also returns a value.
pub type StepWith<T> = Result<(ContractView, Seq<EffectView>, T), ContractError>;

/// Like `step_matches`, for an operation that also returns a value.
pub open spec fn step_with_matches<T, U>(
    model: StepWith<U>,
    pre: ContractView,
    post: ContractView,
    r: Result<(T, Vec<Effect>), ContractError>,
    value: spec_fn(T) -> U,
) -> bool {
    match r {
        Ok((v, effects)) => model == Ok::<(ContractView, Seq<EffectView>, U), ContractError>(
            (post, effects.deep_view(), value(v)),
        ),
        Err(e) => model == Err::<(ContractView, Seq<EffectView>, U), ContractError>(e) && post == pre,
    }
}

/// A checked operation's result agrees with its model: `None` exactly when
/// the operation would overflow (`traps`), leaving the state unchanged;
/// otherwise the result of the operation itself.
pub open spec fn checked_step_matches(
    traps: bool,
    model: Step,
    pre: ContractView,
    post: ContractView,
    r: Option<Result<Vec<Effect>, ContractError>>,
) -> bool {
    match r {
        None => traps && post == pre,
        Some(res) => !traps && step_matches(model, pre, post, res),
    }
}

/// Like `checked_step_matches`, for an operation that also returns a value.
pub open spec fn checked_step_with_matches<T, U>(
    traps: bool,
    model: StepWith<U>,
    pre: ContractView,
    post: ContractView,
    r: Option<Result<(T, Vec<Effect>), ContractError>>,
    value: spec_fn(T) -> U,
) -> bool {
    match r {
        None => traps && post == pre,
        Some(res) => !traps && step_with_matches(model, pre, post, res, value),
    }
}

/// Every escrow of the map can be hashed for duplicate detection.
pub open spec fn escrows_hashable(m: Map<u64, EscrowView>) -> bool {
    forall|id: u64| #[trigger] m.contains_key(id) ==> escrow_hashable(m[id])
}

/// The state of a contract whose storage is empty.
pub open spec fn spec_empty_state() -> ContractView {
    ContractView {
        admin: None,
        proposed_admin: None,
        fee_collector: None,
        fee_bps: 0,
        min_fee: 0,
        max_fee: 0,
        native_asset: None,
        native_fee_bps: None,
        paused: false,
        escrow_counter: 0,
        refund_count: 0,
        total_funded: 0,
        total_released: 0,
        total_refunded: 0,
        total_fees_collected: 0,
        total_disputed: 0,
        oracle: None,
        volume_tiers: None,
        escrows: Map::empty(),
        escrow_hashes: Map::empty(),
        refund_requests: Map::empty(),
        escrow_refunds: Map::empty(),
        pending_fees: Map::empty(),
        fee_whitelist: Map::empty(),
        metadata_visibility: Map::empty(),
        buyer_volume: Map::empty(),
    }
}

impl ContractView {
    /// Operations refused while the contract is paused fail here.
    pub open spec fn spec_not_paused(self) -> Result<(), ContractError> {
        if self.paused {
            Err(ContractError::ContractPaused)
        } else {
            Ok(())
        }
    }

    /// The configured admin, whose authorisation admin operations need.
    pub open spec fn spec_admin(self) -> Result<Seq<u8>, ContractError> {
        match self.admin {
            Some(a) => Ok(a),
            None => Err(ContractError::NotAdmin),
        }
    }

    /// The escrow with this identifier.
    pub open spec fn spec_escrow(self, escrow_id: u64) -> Result<EscrowView, ContractError> {
        if self.escrows.contains_key(escrow_id) {
            Ok(self.escrows[escrow_id])
        } else {
            Err(ContractError::EscrowNotFound)
        }
    }

    /// The tier configuration, or the standard one when none is stored.
    pub open spec fn spec_tiers(self) -> VolumeTierConfig {
        match self.volume_tiers {
            Some(c) => c,
            None => spec_standard_tiers(0),
        }
    }

    /// Whether an address is on the fee whitelist.
    pub open spec fn spec_fee_exempt(self, address: Seq<u8>) -> bool {
        self.fee_whitelist.contains_key(address) && self.fee_whitelist[address]
    }

    /// The fee balance waiting for a collector in a token.
    pub open spec fn spec_pending_fee(self, collector: Seq<u8>, token: Seq<u8>) -> i128 {
        if self.pending_fees.contains_key((collector, token)) {
            self.pending_fees[(collector, token)]
        } else {
            0
        }
    }

    /// The rate applied to an escrow in `token`: the native rate when the
    /// token is the configured native asset, otherwise the general rate.
    pub open spec fn spec_effective_bps(self, token: Seq<u8>) -> u32 {
        match self.native_asset {
            Some(n) => if n == token {
                match self.native_fee_bps {
                    Some(b) => b,
                    None => self.fee_bps,
                }
            } else {
                self.fee_bps
            },
            None => self.fee_bps,
        }
    }

    /// The state with `amount` added to the pending fees of the collector in
    /// the token (saturating); amounts that are not positive are ignored.
    pub open spec fn spec_add_pending_fee(self, collector: Seq<u8>, token: Seq<u8>, amount: i128) -> ContractView {
        if amount <= 0 {
            self
        } else {
            ContractView {
                pending_fees: self.pending_fees.insert(
                    (collector, token),
                    crate::fees::spec_sat_add(self.spec_pending_fee(collector, token) as int, amount as int) as i128,
                ),
                ..self
            }
        }
    }
}

/// The effect that asks for an address's authorisation.
pub open spec fn auth_ev(a: Seq<u8>) -> EffectView {
    EffectView::RequireAuth(a)
}

/// The effect that publishes a status change.
pub open spec fn status_ev(escrow_id: u64, from: EscrowStatus, to: EscrowStatus, actor: Seq<u8>) -> EffectView {
    EffectView::Emit(EventView::StatusChange { escrow_id, from_status: from, to_status: to, actor })
}

/// The effect that asks for an address's authorisation.
pub fn auth_effect(a: &Address) -> (e: Effect)
    ensures
        e@ == auth_ev(a@),
{
    Effect::RequireAuth(a.duplicate())
}

/// The effect that publishes a status change.
pub fn status_effect(escrow_id: u64, from: EscrowStatus, to: EscrowStatus, actor: &Address) -> (e: Effect)
    ensures
        e@ == status_ev(escrow_id, from, to, actor@),
{
    Effect::Emit(Event::StatusChange(crate::events::StatusChangeEvent {
        escrow_id,
        from_status: from,
        to_status: to,
        actor: actor.duplicate(),
    }))
}

impl Dup for Escrow {
    fn dup(&self) -> (r: Self) {
        self.duplicate()
    }
}

impl Dup for RefundRequest {
    fn dup(&self) -> (r: Self) {
        self.duplicate()
    }
}

impl Dup for MetadataVisibility {
    fn dup(&self) -> (r: Self) {
        *self
    }
}

impl Contract {
    /// A copy of the whole state.
    pub fn duplicate(&self) -> (r: Contract)
        requires
            self.wf(),
        ensures
            r.wf(),
            r@ == self@,
    {
        Contract {
            admin: crate::types::copy_opt_address(&self.admin),
            proposed_admin: crate::types::copy_opt_address(&self.proposed_admin),
            fee_collector: crate::types::copy_opt_address(&self.fee_collector),
            fee_bps: self.fee_bps,
            min_fee: self.min_fee,
            max_fee: self.max_fee,
            native_asset: crate::types::copy_opt_address(&self.native_asset),
            native_fee_bps: self.native_fee_bps,
            paused: self.paused,
            escrow_counter: self.escrow_counter,
            refund_count: self.refund_count,
            total_funded: self.total_funded,
            total_released: self.total_released,
            total_refunded: self.total_refunded,
            total_fees_collected: self.total_fees_collected,
            total_disputed: self.total_disputed,
            oracle: crate::types::copy_opt_address(&self.oracle),
            volume_tiers: self.volume_tiers,
            escrows: self.escrows.duplicate(),
            escrow_hashes: self.escrow_hashes.duplicate(),
            refund_requests: self.refund_requests.duplicate(),
            escrow_refunds: self.escrow_refunds.duplicate(),
            pending_fees: self.pending_fees.duplicate(),
            fee_whitelist: self.fee_whitelist.duplicate(),
            metadata_visibility: self.metadata_visibility.duplicate(),
            buyer_volume: self.buyer_volume.duplicate(),
        }
    }

    /// All tables are well formed, and every stored escrow can be hashed.
    pub open spec fn wf(&self) -> bool {
        &&& escrows_hashable(self.escrows@)
        &&& self.escrows.wf()
        &&& self.escrow_hashes.wf()
        &&& self.refund_requests.wf()
        &&& self.escrow_refunds.wf()
        &&& self.pending_fees.wf()
        &&& self.fee_whitelist.wf()
        &&& self.metadata_visibility.wf()
        &&& self.buyer_volume.wf()
    }

    /// A contract with empty storage.
    pub fn new() -> (c: Contract)
        ensures
            c.wf(),
            c@ == spec_empty_state(),
    {
        let c = Contract {
            admin: None,
            proposed_admin: None,
            fee_collector: None,
            fee_bps: 0,
            min_fee: 0,
            max_fee: 0,
            native_asset: None,
            native_fee_bps: None,
            paused: false,
            escrow_counter: 0,
            refund_count: 0,
            total_funded: 0,
            total_released: 0,
            total_refunded: 0,
            total_fees_collected: 0,
            total_disputed: 0,
            oracle: None,
            volume_tiers: None,
            escrows: Table::new(),
            escrow_hashes: Table::new(),
            refund_requests: Table::new(),
            escrow_refunds: Table::new(),
            pending_fees: Table::new(),
            fee_whitelist: Table::new(),
            metadata_visibility: Table::new(),
            buyer_volume: Table::new(),
        };
        assert(c@ == spec_empty_state());
        c
    }

    pub(crate) fn check_not_paused(&self) -> (r: Result<(), ContractError>)
        ensures
            r == self@.spec_not_paused(),
    {
        if self.paused {
            Err(ContractError::ContractPaused)
        } else {
            Ok(())
        }
    }

    pub(crate) fn check_admin(&self) -> (r: Result<Address, ContractError>)
        ensures
            match r {
                Ok(a) => self@.spec_admin() == Ok::<Seq<u8>, ContractError>(a@),
                Err(e) => self@.spec_admin() == Err::<Seq<u8>, ContractError>(e),
            },
    {
        match &self.admin {
            Some(a) => Ok(a.duplicate()),
            None => Err(ContractError::NotAdmin),
        }
    }

    pub(crate) fn tiers(&self) -> (c: VolumeTierConfig)
        ensures
            c == self@.spec_tiers(),
    {
        match self.volume_tiers {
            Some(c) => c,
            None => VolumeTierConfig::standard(0),
        }
    }

    pub(crate) fn effective_bps(&self, token: &Address) -> (b: u32)
        ensures
            b == self@.spec_effective_bps(token@),
    {
        match &self.native_asset {
            Some(n) => if n.same(token) {
                match self.native_fee_bps {
                    Some(b) => b,
                    None => self.fee_bps,
                }
            } else {
                self.fee_bps
            },
            None => self.fee_bps,
        }
    }

    /// Adds a fee to a collector's pending balance in a token.
    pub(crate) fn add_pending_fee(&mut self, collector: &Address, token: &Address, amount: i128)
        requires
            old(self).wf(),
        ensures
            final(self).wf(),
            final(self)@ == old(self)@.spec_add_pending_fee(collector@, token@, amount),
    {
        if amount <= 0 {
            return;
        }
        let key = (collector.duplicate(), token.duplicate());
        let current: i128 = match self.pending_fees.get(&key) {
            Some(v) => *v,
            None => 0,
        };
        let updated = crate::fees::saturating_add_i128(current, amount);
        self.pending_fees.insert(key, updated);
    }

    // ----- getters -----

    /// Whether the contract is paused.
    pub fn is_paused(&self) -> (r: bool)
        ensures
            r == self@.paused,
    {
        self.paused
    }

    /// The number of escrows created so far.
    pub fn get_total_escrows(&self) -> (r: u64)
        ensures
            r == self@.escrow_counter,
    {
        self.escrow_counter
    }

    /// The total amount of escrows created.
    pub fn get_total_funded_amount(&self) -> (r: i128)
        ensures
            r == self@.total_funded,
    {
        self.total_funded
    }

    /// The total amount released to sellers.
    pub fn get_total_released_amount(&self) -> (r: i128)
        ensures
            r == self@.total_released,
    {
        self.total_released
    }

    /// The total amount refunded to buyers.
    pub fn get_total_refunded_amount(&self) -> (r: i128)
        ensures
            r == self@.total_refunded,
    {
        self.total_refunded
    }

    /// The total of all fees charged.
    pub fn get_total_fees_collected(&self) -> (r: i128)
        ensures
            r == self@.total_fees_collected,
    {
        self.total_fees_collected
    }

    /// The configured oracle.
    pub fn get_oracle(&self) -> (r: Option<Address>)
        ensures
            r.deep_view() == self@.oracle,
    {
        crate::types::copy_opt_address(&self.oracle)
    }

    /// The configured admin.
    pub fn get_admin(&self) -> (r: Option<Address>)
        ensures
            r.deep_view() == self@.admin,
    {
        crate::types::copy_opt_address(&self.admin)
    }

    /// The general fee rate in basis points.
    pub fn get_fee_bps(&self) -> (r: u32)
        ensures
            r == self@.fee_bps,
    {
        self.fee_bps
    }

    /// The native-asset fee rate in basis points; zero when none is set.
    pub fn get_native_fee_bps(&self) -> (r: u32)
        ensures
            r == match self@.native_fee_bps {
                Some(b) => b,
                None => 0,
            },
    {
        match self.native_fee_bps {
            Some(b) => b,
            None => 0,
        }
    }

    /// The configured native asset.
    pub fn get_native_asset(&self) -> (r: Option<Address>)
        ensures
            r.deep_view() == self@.native_asset,
    {
        crate::types::copy_opt_address(&self.native_asset)
    }

    /// The minimum fee.
    pub fn get_min_fee(&self) -> (r: i128)
        ensures
            r == self@.min_fee,
    {
        self.min_fee
    }

    /// The maximum fee; zero means no maximum.
    pub fn get_max_fee(&self) -> (r: i128)
        ensures
            r == self@.max_fee,
    {
        self.max_fee
    }

    /// Whether an address is exempt from fees.
    pub fn is_fee_exempt(&self, address: &Address) -> (r: bool)
        requires
            self.wf(),
        ensures
            r == self@.spec_fee_exempt(address@),
    {
        match self.fee_whitelist.get(address) {
            Some(b) => *b,
            None => false,
        }
    }

    /// The number of refund requests made so far.
    pub fn get_refund_count(&self) -> (r: u64)
        ensures
            r == self@.refund_count,
    {
        self.refund_count
    }

    /// The refund request with this identifier.
    pub fn get_refund_request(&self, request_id: u64) -> (r: Option<RefundRequest>)
        requires
            self.wf(),
        ensures
            match r {
                Some(q) => self@.refund_requests.contains_key(request_id)
                    && q@ == self@.refund_requests[request_id],
                None => !self@.refund_requests.contains_key(request_id),
            },
    {
        match self.refund_requests.get(&request_id) {
            Some(q) => Some(q.duplicate()),
            None => None,
        }
    }

    /// The fee balance waiting for a collector in a token.
    pub fn get_pending_fee(&self, collector: &Address, token: &Address) -> (r: i128)
        requires
            self.wf(),
        ensures
            r == self@.spec_pending_fee(collector@, token@),
    {
        let key = (collector.duplicate(), token.duplicate());
        match self.pending_fees.get(&key) {
            Some(v) => *v,
            None => 0,
        }
    }

    /// The escrow with this identifier.
    pub fn get_escrow(&self, escrow_id: u64) -> (r: Option<Escrow>)
        requires
            self.wf(),
        ensures
            match r {
                Some(e) => self@.escrows.contains_key(escrow_id) && e@ == self@.escrows[escrow_id],
                None => !self@.escrows.contains_key(escrow_id),
            },
    {
        match self.escrows.get(&escrow_id) {
            Some(e) => Some(e.duplicate()),
            None => None,
        }
    }

    /// The items of the escrow with this identifier.
    pub fn get_escrow_items(&self, escrow_id: u64) -> (r: Option<Vec<crate::types::EscrowItem>>)
        requires
            self.wf(),
        ensures
            match r {
                Some(items) => self@.escrows.contains_key(escrow_id)
                    && items.deep_view() == self@.escrows[escrow_id].items,
                None => !self@.escrows.contains_key(escrow_id),
            },
    {
        match self.escrows.get(&escrow_id) {
            Some(e) => Some(crate::types::copy_items(&e.items)),
            None => None,
        }
    }

    /// The tier configuration in force.
    pub fn volume_tiers(&self) -> (c: VolumeTierConfig)
        ensures
            c == self@.spec_tiers(),
    {
        self.tiers()
    }
}

} // verus!

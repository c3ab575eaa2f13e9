use vstd::prelude::*;
use crate::types::{Address, EscrowStatus};

verus! {

/// Published when an unfunded escrow is cancelled after its expiry window.
#[derive(Clone, Debug, PartialEq, Eq)]
pub struct EscrowExpiredEvent {
    pub escrow_id: u64,
    pub buyer: Address,
    pub seller: Address,
}

/// Published when an escrow is created.
#[derive(Clone, Debug, PartialEq, Eq)]
pub struct EscrowCreatedEvent {
    pub escrow_id: u64,
    pub buyer: Address,
    pub seller: Address,
    pub token: Address,
    pub amount: i128,
    pub status: EscrowStatus,
    pub arbiter: Option<Address>,
    pub tracking_id: Option<Vec<u8>>,
}

/// Published when funds leave an escrow towards the seller.
#[derive(Clone, Copy, Debug, PartialEq, Eq, Structural)]
pub struct FundsReleasedEvent {
    pub escrow_id: u64,
    pub amount: i128,
    pub fee: i128,
}

/// Published when the oracle confirms delivery.
#[derive(Clone, Debug, PartialEq, Eq)]
pub struct DeliveryVerifiedEvent {
    pub escrow_id: u64,
    pub tracking_id: Vec<u8>,
}

/// Published when a release credits a fee to the fee collector.
#[derive(Clone, Debug, PartialEq, Eq)]
pub struct FeeCollectedEvent {
    pub escrow_id: u64,
    pub fee_collector: Address,
    pub fee: i128,
}

/// Published when a collector withdraws its pending fees.
#[derive(Clone, Debug, PartialEq, Eq)]
pub struct FeesWithdrawnEvent {
    pub collector: Address,
    pub token: Address,
    pub amount: i128,
}

/// Published when an escrow changes status.
#[derive(Clone, Debug, PartialEq, Eq)]
pub struct StatusChangeEvent {
    pub escrow_id: u64,
    pub from_status: EscrowStatus,
    pub to_status: EscrowStatus,
    pub actor: Address,
}

/// Published when a party proposes mutual cancellation.
#[derive(Clone, Debug, PartialEq, Eq)]
pub struct CancellationProposedEvent {
    pub escrow_id: u64,
    pub actor: Address,
}

/// Published when the fee percentage changes.
#[derive(Clone, Debug, PartialEq, Eq)]
pub struct FeeChangedEvent {
    pub old_fee_bps: u32,
    pub new_fee_bps: u32,
    pub actor: Address,
}

/// Published when the fee caps change.
#[derive(Clone, Debug, PartialEq, Eq)]
pub struct FeeCapsChangedEvent {
    pub old_min_fee: i128,
    pub new_min_fee: i128,
    pub old_max_fee: i128,
    pub new_max_fee: i128,
    pub actor: Address,
}

/// Published when a proposed admin accepts the role.
#[derive(Clone, Debug, PartialEq, Eq)]
pub struct AdminTransferredEvent {
    pub old_admin: Address,
    pub new_admin: Address,
}

/// Published when a buyer requests a refund.
#[derive(Clone, Debug, PartialEq, Eq)]
pub struct RefundRequestedEvent {
    pub request_id: u64,
    pub escrow_id: u64,
    pub requester: Address,
    pub evidence_hash: Option<Vec<u8>>,
}

/// Published when the other party answers a refund request with evidence.
#[derive(Clone, Debug, PartialEq, Eq)]
pub struct CounterEvidenceSubmittedEvent {
    pub request_id: u64,
    pub escrow_id: u64,
    pub responder: Address,
    pub counter_evidence_hash: Option<Vec<u8>>,
}

/// Published after a bulk creation, with the identifiers in request order.
#[derive(Clone, Debug, PartialEq, Eq)]
pub struct BulkEscrowCreatedEvent {
    pub buyer: Address,
    pub token: Address,
    pub escrow_ids: Vec<u64>,
}

/// Published when an address enters or leaves the fee whitelist.
#[derive(Clone, Debug, PartialEq, Eq)]
pub struct FeeExemptionEvent {
    pub address: Address,
    pub exempted: bool,
    pub actor: Address,
}

/// Published when a milestone is completed.
#[derive(Clone, Copy, Debug, PartialEq, Eq, Structural)]
pub struct MilestoneCompletedEvent {
    pub escrow_id: u64,
    pub milestone_index: u32,
    pub amount: i128,
}

/// Published when a time-locked escrow is released.
#[derive(Clone, Copy, Debug, PartialEq, Eq, Structural)]
pub struct TimeLockReleasedEvent {
    pub escrow_id: u64,
    pub amount: i128,
}

/// Published when a group-buy participant funds its share.
#[derive(Clone, Debug, PartialEq, Eq)]
pub struct GroupBuyFundedEvent {
    pub escrow_id: u64,
    pub buyer: Address,
    pub amount: i128,
}

/// Published when a group purchase is completely funded.
#[derive(Clone, Copy, Debug, PartialEq, Eq, Structural)]
pub struct GroupBuyCompletedEvent {
    pub escrow_id: u64,
    pub total_amount: i128,
}

/// Published when fees of several escrows are collected at once.
#[derive(Clone, Debug, PartialEq, Eq)]
pub struct BatchFeesCollectedEvent {
    pub collector: Address,
    pub token: Address,
    pub total_amount: i128,
    pub escrow_count: u32,
}

/// Published when a release adds to a buyer's trading volume.
#[derive(Clone, Debug, PartialEq, Eq)]
pub struct VolumeUpdatedEvent {
    pub buyer: Address,
    pub added_amount: i128,
    pub new_volume: i128,
}

/// An event that an operation publishes.
#[derive(Clone, Debug, PartialEq, Eq)]
pub enum Event {
    EscrowCreated(EscrowCreatedEvent),
    BulkEscrowCreated(BulkEscrowCreatedEvent),
    FundsReleased(FundsReleasedEvent),
    FeeCollected(FeeCollectedEvent),
    DeliveryVerified(DeliveryVerifiedEvent),
    StatusChange(StatusChangeEvent),
    CancellationProposed(CancellationProposedEvent),
    RefundRequested(RefundRequestedEvent),
    EscrowExpired(EscrowExpiredEvent),
    AdminTransferred(AdminTransferredEvent),
    FeeChanged(FeeChangedEvent),
    FeeCapsChanged(FeeCapsChangedEvent),
    FeeExemption(FeeExemptionEvent),
    FeesWithdrawn(FeesWithdrawnEvent),
    VolumeUpdated(VolumeUpdatedEvent),
}

/// Mathematical value of an event; addresses and byte strings as sequences.
pub enum EventView {
    EscrowCreated {
        escrow_id: u64,
        buyer: Seq<u8>,
        seller: Seq<u8>,
        token: Seq<u8>,
        amount: i128,
        status: EscrowStatus,
        arbiter: Option<Seq<u8>>,
        tracking_id: Option<Seq<u8>>,
    },
    BulkEscrowCreated { buyer: Seq<u8>, token: Seq<u8>, escrow_ids: Seq<u64> },
    FundsReleased { escrow_id: u64, amount: i128, fee: i128 },
    FeeCollected { escrow_id: u64, fee_collector: Seq<u8>, fee: i128 },
    DeliveryVerified { escrow_id: u64, tracking_id: Seq<u8> },
    StatusChange {
        escrow_id: u64,
        from_status: EscrowStatus,
        to_status: EscrowStatus,
        actor: Seq<u8>,
    },
    CancellationProposed { escrow_id: u64, actor: Seq<u8> },
    RefundRequested {
        request_id: u64,
        escrow_id: u64,
        requester: Seq<u8>,
        evidence_hash: Option<Seq<u8>>,
    },
    EscrowExpired { escrow_id: u64, buyer: Seq<u8>, seller: Seq<u8> },
    AdminTransferred { old_admin: Seq<u8>, new_admin: Seq<u8> },
    FeeChanged { old_fee_bps: u32, new_fee_bps: u32, actor: Seq<u8> },
    FeeCapsChanged {
        old_min_fee: i128,
        new_min_fee: i128,
        old_max_fee: i128,
        new_max_fee: i128,
        actor: Seq<u8>,
    },
    FeeExemption { address: Seq<u8>, exempted: bool, actor: Seq<u8> },
    FeesWithdrawn { collector: Seq<u8>, token: Seq<u8>, amount: i128 },
    VolumeUpdated { buyer: Seq<u8>, added_amount: i128, new_volume: i128 },
}

impl View for Event {
    type V = EventView;

    open spec fn view(&self) -> EventView {
        match self {
            Event::EscrowCreated(e) => EventView::EscrowCreated {
                escrow_id: e.escrow_id,
                buyer: e.buyer@,
                seller: e.seller@,
                token: e.token@,
                amount: e.amount,
                status: e.status,
                arbiter: e.arbiter.deep_view(),
                tracking_id: e.tracking_id.deep_view(),
            },
            Event::BulkEscrowCreated(e) => EventView::BulkEscrowCreated {
                buyer: e.buyer@,
                token: e.token@,
                escrow_ids: e.escrow_ids@,
            },
            Event::FundsReleased(e) => EventView::FundsReleased {
                escrow_id: e.escrow_id,
                amount: e.amount,
                fee: e.fee,
            },
            Event::FeeCollected(e) => EventView::FeeCollected {
                escrow_id: e.escrow_id,
                fee_collector: e.fee_collector@,
                fee: e.fee,
            },
            Event::DeliveryVerified(e) => EventView::DeliveryVerified {
                escrow_id: e.escrow_id,
                tracking_id: e.tracking_id@,
            },
            Event::StatusChange(e) => EventView::StatusChange {
                escrow_id: e.escrow_id,
                from_status: e.from_status,
                to_status: e.to_status,
                actor: e.actor@,
            },
            Event::CancellationProposed(e) => EventView::CancellationProposed {
                escrow_id: e.escrow_id,
                actor: e.actor@,
            },
            Event::RefundRequested(e) => EventView::RefundRequested {
                request_id: e.request_id,
                escrow_id: e.escrow_id,
                requester: e.requester@,
                evidence_hash: e.evidence_hash.deep_view(),
            },
            Event::EscrowExpired(e) => EventView::EscrowExpired {
                escrow_id: e.escrow_id,
                buyer: e.buyer@,
                seller: e.seller@,
            },
            Event::AdminTransferred(e) => EventView::AdminTransferred {
                old_admin: e.old_admin@,
                new_admin: e.new_admin@,
            },
            Event::FeeChanged(e) => EventView::FeeChanged {
                old_fee_bps: e.old_fee_bps,
                new_fee_bps: e.new_fee_bps,
                actor: e.actor@,
            },
            Event::FeeCapsChanged(e) => EventView::FeeCapsChanged {
                old_min_fee: e.old_min_fee,
                new_min_fee: e.new_min_fee,
                old_max_fee: e.old_max_fee,
                new_max_fee: e.new_max_fee,
                actor: e.actor@,
            },
            Event::FeeExemption(e) => EventView::FeeExemption {
                address: e.address@,
                exempted: e.exempted,
                actor: e.actor@,
            },
            Event::FeesWithdrawn(e) => EventView::FeesWithdrawn {
                collector: e.collector@,
                token: e.token@,
                amount: e.amount,
            },
            Event::VolumeUpdated(e) => EventView::VolumeUpdated {
                buyer: e.buyer@,
                added_amount: e.added_amount,
                new_volume: e.new_volume,
            },
        }
    }
}

/// Something the host must do on the contract's behalf once an operation
/// succeeds, in the order given.
#[derive(Clone, Debug, PartialEq, Eq)]
pub enum Effect {
    /// The address must have authorised the invocation.
    RequireAuth(Address),
    /// Move `amount` of `token` from `from` into the contract's balance.
    TransferIn { token: Address, from: Address, amount: i128 },
    /// Move `amount` of `token` from the contract's balance to `to`.
    TransferOut { token: Address, to: Address, amount: i128 },
    /// Publish an event.
    Emit(Event),
    /// Extend the storage lifetime of an escrow record to the maximum.
    ExtendEscrowTtl(u64),
    /// Extend the storage lifetime of a duplicate-detection hash to the maximum.
    ExtendHashTtl(Vec<u8>),
    /// Replace the contract's code by the code with this hash.
    UpdateWasm(Vec<u8>),
}

/// Mathematical value of an effect.
pub enum EffectView {
    RequireAuth(Seq<u8>),
    TransferIn { token: Seq<u8>, from: Seq<u8>, amount: i128 },
    TransferOut { token: Seq<u8>, to: Seq<u8>, amount: i128 },
    Emit(EventView),
    ExtendEscrowTtl(u64),
    ExtendHashTtl(Seq<u8>),
    UpdateWasm(Seq<u8>),
}

impl View for Effect {
    type V = EffectView;

    open spec fn view(&self) -> EffectView {
        match self {
            Effect::RequireAuth(a) => EffectView::RequireAuth(a@),
            Effect::TransferIn { token, from, amount } => EffectView::TransferIn {
                token: token@,
                from: from@,
                amount: *amount,
            },
            Effect::TransferOut { token, to, amount } => EffectView::TransferOut {
                token: token@,
                to: to@,
                amount: *amount,
            },
            Effect::Emit(e) => EffectView::Emit(e@),
            Effect::ExtendEscrowTtl(id) => EffectView::ExtendEscrowTtl(*id),
            Effect::ExtendHashTtl(h) => EffectView::ExtendHashTtl(h@),
            Effect::UpdateWasm(h) => EffectView::UpdateWasm(h@),
        }
    }
}

impl DeepView for Effect {
    type V = EffectView;

    open spec fn deep_view(&self) -> EffectView {
        self@
    }
}

} // verus!

//! The verified logic of an escrow marketplace contract: escrow creation,
//! funding, release (whole, per item, or on an oracle's confirmation of
//! delivery), mutual cancellation, refund requests and dispute resolution,
//! fee computation with whitelist and volume discounts, and the
//! administrative configuration around them.
//!
//! [`Contract`] holds the stored state. Each public operation is a step of a
//! state machine: it takes the state and the call's arguments (and, where the
//! contract reads them, the ledger's sequence number or timestamp), and
//! returns either an error, leaving the state untouched, or the new state
//! together with the host effects ([`Effect`]: authorisations, token
//! transfers, events) that the host performs in order. Every operation's
//! contract states its outcome exactly against a model in `ContractView`.

pub mod admin;
pub mod books;
pub mod create;
pub mod disputes;
pub mod errors;
pub mod escrow_ops;
pub mod events;
pub mod fees;
pub mod guarantees;
pub mod hashing;
pub mod laws;
pub mod outcomes;
pub mod release;
pub mod state;
pub mod table;
pub mod types;
pub mod volume;

pub use errors::ContractError;
pub use events::{
    AdminTransferredEvent, BatchFeesCollectedEvent, BulkEscrowCreatedEvent,
    CancellationProposedEvent, CounterEvidenceSubmittedEvent, DeliveryVerifiedEvent, Effect,
    EscrowCreatedEvent, EscrowExpiredEvent, Event, FeeCapsChangedEvent, FeeChangedEvent,
    FeeCollectedEvent, FeeExemptionEvent, FeesWithdrawnEvent, FundsReleasedEvent,
    GroupBuyCompletedEvent, GroupBuyFundedEvent, MilestoneCompletedEvent, RefundRequestedEvent,
    StatusChangeEvent, TimeLockReleasedEvent, VolumeUpdatedEvent,
};
pub use state::Contract;
pub use table::Table;
pub use types::{
    Address, BulkEscrowRequest, BuyerContribution, Escrow, EscrowItem, EscrowStatus, GroupBuy,
    MetadataVisibility, Milestone, RefundHistoryEntry, RefundReason, RefundRequest, RefundStatus,
    TimeLock, BPS_DENOMINATOR, MAX_ADDRESS_XDR_LEN, MAX_FEE_BPS, MAX_ITEMS_PER_ESCROW, MAX_METADATA_SIZE,
    MAX_VOLUME_DISCOUNT_BPS, UNFUNDED_EXPIRY_LEDGERS, VOLUME_RESET_INTERVAL,
};
pub use volume::VolumeTierConfig;

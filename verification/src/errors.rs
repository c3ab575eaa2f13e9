use vstd::prelude::*;

verus! {

/// Errors that the escrow contract reports to its callers.
///
/// The variants are grouped by concern; `code` gives the stable numeric
/// code under which each one is published on chain.
#[derive(Clone, Copy, Debug, PartialEq, Eq, Structural)]
pub enum ContractError {
    /// Caller is not the contract admin, or no admin is configured.
    NotAdmin,
    /// Caller is not allowed to perform the requested action.
    Unauthorized,
    /// No admin transfer has been proposed.
    NotProposedAdmin,
    /// No oracle is configured.
    NotOracle,
    /// The escrow does not exist.
    EscrowNotFound,
    /// The escrow is not in the state the operation needs.
    InvalidEscrowState,
    /// An address serialises to nothing but zero bytes.
    ZeroAddress,
    /// The amount is zero, negative or larger than allowed.
    InvalidEscrowAmount,
    /// The contract is paused.
    ContractPaused,
    /// An identifier counter would exceed `u64::MAX`.
    EscrowIdOverflow,
    /// The fee configuration is invalid or incomplete.
    InvalidFeeConfig,
    /// Metadata is larger than `MAX_METADATA_SIZE`.
    MetadataTooLarge,
    /// The caller may not read private metadata.
    MetadataAccessDenied,
    /// An escrow with the same buyer, seller and metadata exists.
    DuplicateEscrow,
    /// The item index is out of range.
    ItemNotFound,
    /// The item was released before.
    ItemAlreadyReleased,
    /// More than `MAX_ITEMS_PER_ESCROW` items were given.
    TooManyItems,
    /// The item amounts do not add up to the escrow amount.
    ItemAmountInvalid,
    /// The unfunded expiry window has not elapsed yet.
    EscrowNotExpired,
    /// The escrow is no longer pending.
    EscrowAlreadyFunded,
    MilestoneNotFound,
    MilestoneAlreadyCompleted,
    TimeLockNotReached,
    TimeLockNotEnabled,
    GroupBuyNotFunded,
    GroupBuyAlreadyFunded,
    GroupBuyDeadlinePassed,
    InvalidGroupBuyAmount,
}

impl ContractError {
    /// The numeric code under which the error is published.
    pub open spec fn spec_code(self) -> u32 {
        match self {
            ContractError::NotAdmin => 1,
            ContractError::Unauthorized => 2,
            ContractError::NotProposedAdmin => 3,
            ContractError::NotOracle => 4,
            ContractError::EscrowNotFound => 10,
            ContractError::InvalidEscrowState => 11,
            ContractError::ZeroAddress => 12,
            ContractError::InvalidEscrowAmount => 13,
            ContractError::ContractPaused => 31,
            ContractError::EscrowIdOverflow => 40,
            ContractError::InvalidFeeConfig => 50,
            ContractError::MetadataTooLarge => 60,
            ContractError::MetadataAccessDenied => 61,
            ContractError::DuplicateEscrow => 70,
            ContractError::ItemNotFound => 80,
            ContractError::ItemAlreadyReleased => 81,
            ContractError::TooManyItems => 82,
            ContractError::ItemAmountInvalid => 83,
            ContractError::EscrowNotExpired => 90,
            ContractError::EscrowAlreadyFunded => 91,
            ContractError::MilestoneNotFound => 100,
            ContractError::MilestoneAlreadyCompleted => 101,
            ContractError::TimeLockNotReached => 110,
            ContractError::TimeLockNotEnabled => 111,
            ContractError::GroupBuyNotFunded => 120,
            ContractError::GroupBuyAlreadyFunded => 121,
            ContractError::GroupBuyDeadlinePassed => 122,
            ContractError::InvalidGroupBuyAmount => 123,
        }
    }

    /// Returns the numeric code of the error.
    pub fn code(&self) -> (c: u32)
        ensures
            c == self.spec_code(),
    {
        match self {
            ContractError::NotAdmin => 1,
            ContractError::Unauthorized => 2,
            ContractError::NotProposedAdmin => 3,
            ContractError::NotOracle => 4,
            ContractError::EscrowNotFound => 10,
            ContractError::InvalidEscrowState => 11,
            ContractError::ZeroAddress => 12,
            ContractError::InvalidEscrowAmount => 13,
            ContractError::ContractPaused => 31,
            ContractError::EscrowIdOverflow => 40,
            ContractError::InvalidFeeConfig => 50,
            ContractError::MetadataTooLarge => 60,
            ContractError::MetadataAccessDenied => 61,
            ContractError::DuplicateEscrow => 70,
            ContractError::ItemNotFound => 80,
            ContractError::ItemAlreadyReleased => 81,
            ContractError::TooManyItems => 82,
            ContractError::ItemAmountInvalid => 83,
            ContractError::EscrowNotExpired => 90,
            ContractError::EscrowAlreadyFunded => 91,
            ContractError::MilestoneNotFound => 100,
            ContractError::MilestoneAlreadyCompleted => 101,
            ContractError::TimeLockNotReached => 110,
            ContractError::TimeLockNotEnabled => 111,
            ContractError::GroupBuyNotFunded => 120,
            ContractError::GroupBuyAlreadyFunded => 121,
            ContractError::GroupBuyDeadlinePassed => 122,
            ContractError::InvalidGroupBuyAmount => 123,
        }
    }
}

} // verus!

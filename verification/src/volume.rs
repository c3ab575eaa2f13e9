use vstd::prelude::*;
use crate::fees::saturating_add_i128;
use crate::types::VOLUME_RESET_INTERVAL;

verus! {

/// Thresholds and discounts of the buyer volume tiers, and the ledger at
/// which volumes were last reset.
#[derive(Clone, Copy, Debug, PartialEq, Eq, Structural)]
pub struct VolumeTierConfig {
    pub tier_1_threshold: i128,
    pub tier_2_threshold: i128,
    pub tier_3_threshold: i128,
    pub tier_1_discount_bps: u32,
    pub tier_2_discount_bps: u32,
    pub tier_3_discount_bps: u32,
    pub reset_ledger: u32,
}

impl View for VolumeTierConfig {
    type V = VolumeTierConfig;

    open spec fn view(&self) -> VolumeTierConfig {
        *self
    }
}

/// The standard tiers: 100 000, 1 000 000 and 10 000 000 of volume give
/// 100, 250 and 500 basis points of discount.
pub open spec fn spec_standard_tiers(reset_ledger: u32) -> VolumeTierConfig {
    VolumeTierConfig {
        tier_1_threshold: 100_000,
        tier_2_threshold: 1_000_000,
        tier_3_threshold: 10_000_000,
        tier_1_discount_bps: 100,
        tier_2_discount_bps: 250,
        tier_3_discount_bps: 500,
        reset_ledger,
    }
}

/// Whether a volume period that started at `last_reset` has run out at
/// ledger `current_ledger`.
pub open spec fn spec_should_reset(current_ledger: u32, last_reset: u32) -> bool {
    current_ledger >= last_reset && current_ledger - last_reset >= VOLUME_RESET_INTERVAL
}

/// Returns whether a volume period that started at `last_reset` has run out
/// at ledger `current_ledger`.
pub fn should_reset_volume(current_ledger: u32, last_reset: u32) -> (r: bool)
    ensures
        r == spec_should_reset(current_ledger, last_reset),
{
    current_ledger.saturating_sub(last_reset) >= VOLUME_RESET_INTERVAL
}

/// A buyer's volume after adding `amount`, saturating at the bounds of `i128`.
pub fn add_volume(current: i128, amount: i128) -> (r: i128)
    ensures
        r == crate::fees::spec_sat_add(current as int, amount as int),
{
    saturating_add_i128(current, amount)
}

impl VolumeTierConfig {
    /// The standard tiers, with volumes last reset at `reset_ledger`.
    pub fn standard(reset_ledger: u32) -> (c: VolumeTierConfig)
        ensures
            c == spec_standard_tiers(reset_ledger),
    {
        VolumeTierConfig {
            tier_1_threshold: 100_000,
            tier_2_threshold: 1_000_000,
            tier_3_threshold: 10_000_000,
            tier_1_discount_bps: 100,
            tier_2_discount_bps: 250,
            tier_3_discount_bps: 500,
            reset_ledger,
        }
    }

    /// The tier (0 to 3) that a volume reaches: the highest tier whose
    /// threshold it meets.
    pub open spec fn spec_tier(self, volume: i128) -> u8 {
        if volume >= self.tier_3_threshold {
            3
        } else if volume >= self.tier_2_threshold {
            2
        } else if volume >= self.tier_1_threshold {
            1
        } else {
            0
        }
    }

    /// Returns the tier (0 to 3) that a volume reaches.
    pub fn get_tier(&self, volume: i128) -> (t: u8)
        ensures
            t == self.spec_tier(volume),
    {
        if volume >= self.tier_3_threshold {
            3
        } else if volume >= self.tier_2_threshold {
            2
        } else if volume >= self.tier_1_threshold {
            1
        } else {
            0
        }
    }

    /// The discount, in basis points, of a tier; none below tier 1.
    pub open spec fn spec_discount_bps(self, tier: u8) -> u32 {
        if tier == 1 {
            self.tier_1_discount_bps
        } else if tier == 2 {
            self.tier_2_discount_bps
        } else if tier == 3 {
            self.tier_3_discount_bps
        } else {
            0
        }
    }

    /// Returns the discount, in basis points, of a tier.
    pub fn get_discount_bps(&self, tier: u8) -> (d: u32)
        ensures
            d == self.spec_discount_bps(tier),
    {
        if tier == 1 {
            self.tier_1_discount_bps
        } else if tier == 2 {
            self.tier_2_discount_bps
        } else if tier == 3 {
            self.tier_3_discount_bps
        } else {
            0
        }
    }
}

impl Default for VolumeTierConfig {
    /// The standard tiers, with volumes last reset at ledger 0.
    fn default() -> (c: VolumeTierConfig)
        ensures
            c == spec_standard_tiers(0),
    {
        VolumeTierConfig::standard(0)
    }
}

} // verus!

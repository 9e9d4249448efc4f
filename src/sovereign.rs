//! External reputation: a tier level 1..=5 read from an identity record,
//! mapped onto the internal tier table and onto a table of benefits.

use vstd::prelude::*;
use crate::keys::Pubkey;
use crate::tiers::{fees_non_increasing, TierDefinition};

verus! {

/// Byte offset of the scores in a serialized identity record: an 8-byte
/// tag, the owner, the creation time and four authority keys.
pub const TRADING_SCORE_OFFSET: usize = 8 + 32 + 8 + (32 * 4);

/// Byte offset of the composite score: after the four 2-byte scores.
pub const COMPOSITE_SCORE_OFFSET: usize = 8 + 32 + 8 + (32 * 4) + (2 * 4);

/// Byte offset of the tier level: after the composite score.
pub const TIER_OFFSET: usize = 8 + 32 + 8 + (32 * 4) + (2 * 4) + 2;

/// Serialized size of an identity record.
pub const IDENTITY_SIZE: usize = 8 + 32 + 8 + 32 + 32 + 32 + 32 + 2 + 2 + 2 + 2 + 2 + 1 + 8 + 1;

/// A reputation identity as another registry keeps it.
#[derive(Debug, Clone, Copy)]
pub struct SovereignIdentity {
    pub owner: Pubkey,
    pub created_at: i64,
    pub trading_authority: Pubkey,
    pub civic_authority: Pubkey,
    pub developer_authority: Pubkey,
    pub infra_authority: Pubkey,
    pub trading_score: u16,
    pub civic_score: u16,
    pub developer_score: u16,
    pub infra_score: u16,
    pub composite_score: u16,
    pub tier: u8,
    pub last_updated: i64,
}

/// The tier level stored in a serialized record; level 1 when the record
/// is too short to hold one.
pub open spec fn tier_in_record(data: Seq<u8>) -> u8 {
    if data.len() > TIER_OFFSET {
        data[TIER_OFFSET as int]
    } else {
        1
    }
}

/// The little-endian 2-byte value at `offset`, or 0 when the record is too
/// short to hold it.
pub open spec fn u16_in_record(data: Seq<u8>, offset: int) -> u16 {
    if data.len() > offset + 1 {
        (data[offset] + 256 * data[offset + 1]) as u16
    } else {
        0
    }
}

/// Reads the tier level from a serialized identity record.
pub fn read_sovereign_tier(data: &[u8]) -> (r: u8)
    ensures
        r == tier_in_record(data@),
{
    if data.len() > TIER_OFFSET {
        data[TIER_OFFSET]
    } else {
        1
    }
}

fn read_u16_le(data: &[u8], offset: usize) -> (r: u16)
    requires
        offset < COMPOSITE_SCORE_OFFSET + 1,
    ensures
        r == u16_in_record(data@, offset as int),
{
    if data.len() > offset + 1 {
        let lo: u16 = data[offset] as u16;
        let hi: u16 = data[offset + 1] as u16;
        lo + hi * 256
    } else {
        0
    }
}

/// Reads the composite score from a serialized identity record.
pub fn read_sovereign_composite_score(data: &[u8]) -> (r: u16)
    ensures
        r == u16_in_record(data@, COMPOSITE_SCORE_OFFSET as int),
{
    read_u16_le(data, COMPOSITE_SCORE_OFFSET)
}

/// Reads the trading score from a serialized identity record.
pub fn read_sovereign_trading_score(data: &[u8]) -> (r: u16)
    ensures
        r == u16_in_record(data@, TRADING_SCORE_OFFSET as int),
{
    read_u16_le(data, TRADING_SCORE_OFFSET)
}

/// Internal tier index for an external level: level `n` in 1..=5 maps to
/// `n - 1`, anything else to 0.
pub open spec fn umbra_index_of(sovereign_tier: u8) -> int {
    if 1 <= sovereign_tier <= 5 {
        sovereign_tier - 1
    } else {
        0
    }
}

pub fn sovereign_tier_to_umbra_index(sovereign_tier: u8) -> (r: usize)
    ensures
        r == umbra_index_of(sovereign_tier),
        r < 5,
{
    match sovereign_tier {
        1 => 0,
        2 => 1,
        3 => 2,
        4 => 3,
        5 => 4,
        _ => 0,
    }
}

/// Score recorded for an external level: 10, 30, 50, 70, 90 for levels
/// 1..=5, and 0 otherwise.
pub open spec fn fairscore_of_level(sovereign_tier: u8) -> u8 {
    if 1 <= sovereign_tier <= 5 {
        (20 * sovereign_tier - 10) as u8
    } else {
        0
    }
}

pub fn sovereign_tier_to_fairscore(sovereign_tier: u8) -> (r: u8)
    ensures
        r == fairscore_of_level(sovereign_tier),
{
    match sovereign_tier {
        1 => 10,
        2 => 30,
        3 => 50,
        4 => 70,
        5 => 90,
        _ => 0,
    }
}

/// What an external level grants.
#[derive(Debug, Clone, Copy, PartialEq, Eq, Structural)]
pub struct PrivacyBenefits {
    /// Subtracted from the tier's fee rate, floored at zero.
    pub fee_discount_bps: u16,
    /// Largest input amount accepted.
    pub max_order_size: u64,
    pub batch_withdrawals: bool,
    /// Whether Dark orders are allowed.
    pub dark_pool_access: bool,
    /// Whether orders get the strongest protection level.
    pub priority_execution: bool,
}

/// The benefits table, keyed by external level; an unknown level gets the
/// benefits of level 1.
pub open spec fn benefits_of(sovereign_tier: u8) -> PrivacyBenefits {
    if sovereign_tier == 2 {
        PrivacyBenefits {
            fee_discount_bps: 500,
            max_order_size: 10_000_000_000,
            batch_withdrawals: false,
            dark_pool_access: false,
            priority_execution: false,
        }
    } else if sovereign_tier == 3 {
        PrivacyBenefits {
            fee_discount_bps: 1500,
            max_order_size: 100_000_000_000,
            batch_withdrawals: true,
            dark_pool_access: false,
            priority_execution: false,
        }
    } else if sovereign_tier == 4 {
        PrivacyBenefits {
            fee_discount_bps: 3000,
            max_order_size: 1_000_000_000_000,
            batch_withdrawals: true,
            dark_pool_access: true,
            priority_execution: false,
        }
    } else if sovereign_tier == 5 {
        PrivacyBenefits {
            fee_discount_bps: 5000,
            max_order_size: u64::MAX,
            batch_withdrawals: true,
            dark_pool_access: true,
            priority_execution: true,
        }
    } else {
        PrivacyBenefits {
            fee_discount_bps: 0,
            max_order_size: 1_000_000_000,
            batch_withdrawals: false,
            dark_pool_access: false,
            priority_execution: false,
        }
    }
}

pub fn get_privacy_benefits(sovereign_tier: u8) -> (r: PrivacyBenefits)
    ensures
        r == benefits_of(sovereign_tier),
{
    match sovereign_tier {
        2 => PrivacyBenefits {
            fee_discount_bps: 500,
            max_order_size: 10_000_000_000,
            batch_withdrawals: false,
            dark_pool_access: false,
            priority_execution: false,
        },
        3 => PrivacyBenefits {
            fee_discount_bps: 1500,
            max_order_size: 100_000_000_000,
            batch_withdrawals: true,
            dark_pool_access: false,
            priority_execution: false,
        },
        4 => PrivacyBenefits {
            fee_discount_bps: 3000,
            max_order_size: 1_000_000_000_000,
            batch_withdrawals: true,
            dark_pool_access: true,
            priority_execution: false,
        },
        5 => PrivacyBenefits {
            fee_discount_bps: 5000,
            max_order_size: u64::MAX,
            batch_withdrawals: true,
            dark_pool_access: true,
            priority_execution: true,
        },
        _ => PrivacyBenefits {
            fee_discount_bps: 0,
            max_order_size: 1_000_000_000,
            batch_withdrawals: false,
            dark_pool_access: false,
            priority_execution: false,
        },
    }
}

/// A base fee rate less a discount, never below zero.
pub open spec fn discounted_fee(base_fee_bps: u16, discount_bps: u16) -> u16 {
    if discount_bps >= base_fee_bps {
        0
    } else {
        (base_fee_bps - discount_bps) as u16
    }
}

/// A higher external level never gets a smaller discount nor a smaller
/// order-size limit, and never pays more on the same base rate.
pub proof fn lemma_benefits_monotonic(low: u8, high: u8, base_fee_bps: u16)
    requires
        1 <= low <= high <= 5,
    ensures
        benefits_of(low).fee_discount_bps <= benefits_of(high).fee_discount_bps,
        benefits_of(low).max_order_size <= benefits_of(high).max_order_size,
        discounted_fee(base_fee_bps, benefits_of(high).fee_discount_bps) <= discounted_fee(
            base_fee_bps,
            benefits_of(low).fee_discount_bps,
        ),
{
}

/// Under a table whose fee rates do not rise along the tiers, the fee rate
/// that an external level pays (its tier's rate less its discount) never
/// rises with the level.
pub proof fn lemma_sovereign_fee_monotonic(tiers: Seq<TierDefinition>, low: u8, high: u8)
    requires
        tiers.len() == 5,
        fees_non_increasing(tiers),
        1 <= low <= high <= 5,
    ensures
        discounted_fee(tiers[umbra_index_of(high)].fee_bps, benefits_of(high).fee_discount_bps)
            <= discounted_fee(tiers[umbra_index_of(low)].fee_bps, benefits_of(low).fee_discount_bps),
{
    let lo = umbra_index_of(low);
    let hi = umbra_index_of(high);
    assert(tiers[hi].fee_bps <= tiers[lo].fee_bps);
}

} // verus!

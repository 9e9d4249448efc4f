//! Reputation tiers: a table of five tier definitions, lowest first, and
//! the protocol-wide configuration and aggregates that hold it.

use vstd::prelude::*;
use crate::keys::Pubkey;

verus! {

/// Number of tiers in the table.
pub const NUM_TIERS: usize = 5;

/// Largest reputation score.
pub const MAX_FAIRSCORE: u8 = 100;

/// Order-type bits of `allowed_order_types`.
pub const ORDER_TYPE_MARKET: u8 = 1;
pub const ORDER_TYPE_LIMIT: u8 = 2;
pub const ORDER_TYPE_TWAP: u8 = 4;
pub const ORDER_TYPE_ICEBERG: u8 = 8;
pub const ORDER_TYPE_DARK: u8 = 16;

/// Derivative bits of `derivatives_access`.
pub const DERIVATIVES_PERPETUALS: u8 = 1;
pub const DERIVATIVES_VARIANCE: u8 = 2;
pub const DERIVATIVES_EXOTIC: u8 = 4;

/// How strongly an order is shielded from extraction by reordering.
#[derive(Debug, Clone, Copy, PartialEq, Eq, Structural)]
pub enum MevProtectionLevel {
    Unprotected,
    Basic,
    Full,
    Priority,
}

impl Default for MevProtectionLevel {
    fn default() -> (r: Self)
        ensures
            r == MevProtectionLevel::Unprotected,
    {
        MevProtectionLevel::Unprotected
    }
}

/// The protection level for a numeric code: 0, 1, 2, and any larger code
/// for the strongest level.
pub open spec fn mev_level_of(code: u8) -> MevProtectionLevel {
    if code == 0 {
        MevProtectionLevel::Unprotected
    } else if code == 1 {
        MevProtectionLevel::Basic
    } else if code == 2 {
        MevProtectionLevel::Full
    } else {
        MevProtectionLevel::Priority
    }
}

pub fn mev_level_from_code(code: u8) -> (r: MevProtectionLevel)
    ensures
        r == mev_level_of(code),
{
    match code {
        0 => MevProtectionLevel::Unprotected,
        1 => MevProtectionLevel::Basic,
        2 => MevProtectionLevel::Full,
        _ => MevProtectionLevel::Priority,
    }
}

/// One row of the tier table.
#[derive(Debug, Clone, Copy, PartialEq, Eq, Structural)]
pub struct TierDefinition {
    /// Least score that qualifies (0..=100).
    pub min_fairscore: u8,
    /// Fee rate in basis points.
    pub fee_bps: u16,
    pub mev_protection_level: MevProtectionLevel,
    /// Bitmask of permitted order types.
    pub allowed_order_types: u8,
    /// Bitmask of permitted derivative products.
    pub derivatives_access: u8,
}

impl Default for TierDefinition {
    fn default() -> (r: Self)
        ensures
            r == (TierDefinition {
                min_fairscore: 0,
                fee_bps: 50,
                mev_protection_level: MevProtectionLevel::Unprotected,
                allowed_order_types: ORDER_TYPE_MARKET,
                derivatives_access: 0,
            }),
    {
        TierDefinition {
            min_fairscore: 0,
            fee_bps: 50,
            mev_protection_level: MevProtectionLevel::Unprotected,
            allowed_order_types: ORDER_TYPE_MARKET,
            derivatives_access: 0,
        }
    }
}

/// The row at `i` of the initial table: None, Bronze, Silver, Gold, Diamond.
pub open spec fn default_tier(i: int) -> TierDefinition {
    if i == 0 {
        TierDefinition {
            min_fairscore: 0,
            fee_bps: 50,
            mev_protection_level: MevProtectionLevel::Unprotected,
            allowed_order_types: 1,
            derivatives_access: 0,
        }
    } else if i == 1 {
        TierDefinition {
            min_fairscore: 20,
            fee_bps: 30,
            mev_protection_level: MevProtectionLevel::Basic,
            allowed_order_types: 3,
            derivatives_access: 0,
        }
    } else if i == 2 {
        TierDefinition {
            min_fairscore: 40,
            fee_bps: 15,
            mev_protection_level: MevProtectionLevel::Full,
            allowed_order_types: 7,
            derivatives_access: 1,
        }
    } else if i == 3 {
        TierDefinition {
            min_fairscore: 60,
            fee_bps: 8,
            mev_protection_level: MevProtectionLevel::Priority,
            allowed_order_types: 15,
            derivatives_access: 3,
        }
    } else {
        TierDefinition {
            min_fairscore: 80,
            fee_bps: 5,
            mev_protection_level: MevProtectionLevel::Priority,
            allowed_order_types: 31,
            derivatives_access: 7,
        }
    }
}

/// Whether a table is exactly the initial one.
pub open spec fn has_default_tiers(tiers: Seq<TierDefinition>) -> bool {
    &&& tiers.len() == 5
    &&& tiers[0] == default_tier(0)
    &&& tiers[1] == default_tier(1)
    &&& tiers[2] == default_tier(2)
    &&& tiers[3] == default_tier(3)
    &&& tiers[4] == default_tier(4)
}

/// The highest index whose `min_fairscore` the score meets, scanning the
/// table from the top; index 0 when none above it qualifies.
pub open spec fn tier_index_of(tiers: Seq<TierDefinition>, score: u8) -> int {
    if score >= tiers[4].min_fairscore {
        4
    } else if score >= tiers[3].min_fairscore {
        3
    } else if score >= tiers[2].min_fairscore {
        2
    } else if score >= tiers[1].min_fairscore {
        1
    } else {
        0
    }
}

/// Fee rates that never rise from one tier to the next.
pub open spec fn fees_non_increasing(tiers: Seq<TierDefinition>) -> bool {
    forall|i: int, j: int| 0 <= i <= j < 5 ==> #[trigger] tiers[j].fee_bps <= #[trigger] tiers[i].fee_bps
}

/// Protocol-wide configuration: tier table, solver, fee account, and the
/// aggregates that execution accumulates.
#[derive(Debug, Clone, Copy)]
pub struct TierConfig {
    /// May update tiers and pause the protocol.
    pub authority: Pubkey,
    /// The only identity allowed to execute orders.
    pub solver_pubkey: Pubkey,
    pub tiers: [TierDefinition; 5],
    /// Account that receives execution fees.
    pub fee_vault: Pubkey,
    pub total_volume_by_tier: [u64; 5],
    pub total_fees_collected: u64,
    pub total_orders: u64,
    /// Gates every mutating operation.
    pub is_active: bool,
}

impl TierConfig {
    /// A fresh, active configuration with the initial tier table and zero
    /// aggregates.
    pub fn new(authority: Pubkey, solver_pubkey: Pubkey, fee_vault: Pubkey) -> (r: TierConfig)
        ensures
            r.authority == authority,
            r.solver_pubkey == solver_pubkey,
            r.fee_vault == fee_vault,
            has_default_tiers(r.tiers@),
            forall|i: int| 0 <= i < 5 ==> r.total_volume_by_tier@[i] == 0,
            r.total_fees_collected == 0,
            r.total_orders == 0,
            r.is_active,
    {
        let t = TierDefinition::default();
        let mut config = TierConfig {
            authority,
            solver_pubkey,
            tiers: [t, t, t, t, t],
            fee_vault,
            total_volume_by_tier: [0u64; 5],
            total_fees_collected: 0,
            total_orders: 0,
            is_active: true,
        };
        config.init_default_tiers();
        config
    }

    /// Index of the tier that a score falls in.
    pub fn get_tier_index(&self, fairscore: u8) -> (r: usize)
        ensures
            r == tier_index_of(self.tiers@, fairscore),
            r < 5,
    {
        let mut i: usize = 5;
        while i > 0
            invariant
                i <= 5,
                self.tiers@.len() == 5,
                forall|j: int| i <= j < 5 ==> fairscore < #[trigger] self.tiers@[j].min_fairscore,
            decreases i,
        {
            if fairscore >= self.tiers[i - 1].min_fairscore {
                return i - 1;
            }
            i -= 1;
        }
        0
    }

    /// The tier definition that a score falls in.
    pub fn get_tier(&self, fairscore: u8) -> (r: &TierDefinition)
        ensures
            *r == self.tiers@[tier_index_of(self.tiers@, fairscore)],
    {
        let index = self.get_tier_index(fairscore);
        &self.tiers[index]
    }

    /// Fee rate of the tier that a score falls in.
    pub fn get_fee_bps(&self, fairscore: u8) -> (r: u16)
        ensures
            r == self.tiers@[tier_index_of(self.tiers@, fairscore)].fee_bps,
    {
        self.get_tier(fairscore).fee_bps
    }

    /// Whether the tier that a score falls in permits any of the order-type
    /// bits in `order_type`.
    pub fn is_order_type_allowed(&self, fairscore: u8, order_type: u8) -> (r: bool)
        ensures
            r == (self.tiers@[tier_index_of(self.tiers@, fairscore)].allowed_order_types
                & order_type != 0),
    {
        let tier = self.get_tier(fairscore);
        (tier.allowed_order_types & order_type) != 0
    }

    /// Protection level of the tier that a score falls in.
    pub fn get_mev_protection(&self, fairscore: u8) -> (r: MevProtectionLevel)
        ensures
            r == self.tiers@[tier_index_of(self.tiers@, fairscore)].mev_protection_level,
    {
        self.get_tier(fairscore).mev_protection_level
    }

    /// Replaces the tier table with the initial one, leaving every other
    /// field as it was.
    pub fn init_default_tiers(&mut self)
        ensures
            has_default_tiers(final(self).tiers@),
            final(self).authority == old(self).authority,
            final(self).solver_pubkey == old(self).solver_pubkey,
            final(self).fee_vault == old(self).fee_vault,
            final(self).total_volume_by_tier == old(self).total_volume_by_tier,
            final(self).total_fees_collected == old(self).total_fees_collected,
            final(self).total_orders == old(self).total_orders,
            final(self).is_active == old(self).is_active,
    {
        self.tiers[0] = TierDefinition {
            min_fairscore: 0,
            fee_bps: 50,
            mev_protection_level: MevProtectionLevel::Unprotected,
            allowed_order_types: ORDER_TYPE_MARKET,
            derivatives_access: 0,
        };
        self.tiers[1] = TierDefinition {
            min_fairscore: 20,
            fee_bps: 30,
            mev_protection_level: MevProtectionLevel::Basic,
            allowed_order_types: ORDER_TYPE_MARKET | ORDER_TYPE_LIMIT,
            derivatives_access: 0,
        };
        self.tiers[2] = TierDefinition {
            min_fairscore: 40,
            fee_bps: 15,
            mev_protection_level: MevProtectionLevel::Full,
            allowed_order_types: 7,
            derivatives_access: DERIVATIVES_PERPETUALS,
        };
        self.tiers[3] = TierDefinition {
            min_fairscore: 60,
            fee_bps: 8,
            mev_protection_level: MevProtectionLevel::Priority,
            allowed_order_types: 15,
            derivatives_access: 3,
        };
        self.tiers[4] = TierDefinition {
            min_fairscore: 80,
            fee_bps: 5,
            mev_protection_level: MevProtectionLevel::Priority,
            allowed_order_types: 31,
            derivatives_access: 7,
        };
        assert(ORDER_TYPE_MARKET | ORDER_TYPE_LIMIT == 3) by (bit_vector);
    }
}

/// A higher score never lands in a lower tier, and, where fee rates do
/// not rise along the table, never pays a higher fee rate.
pub proof fn lemma_tier_monotonic(tiers: Seq<TierDefinition>, low: u8, high: u8)
    requires
        tiers.len() == 5,
        low <= high <= MAX_FAIRSCORE,
    ensures
        tier_index_of(tiers, low) <= tier_index_of(tiers, high),
        fees_non_increasing(tiers) ==> tiers[tier_index_of(tiers, high)].fee_bps
            <= tiers[tier_index_of(tiers, low)].fee_bps,
{
}

/// The initial table's fee rates do not rise from tier to tier.
pub proof fn lemma_default_fees_non_increasing(tiers: Seq<TierDefinition>)
    requires
        has_default_tiers(tiers),
    ensures
        fees_non_increasing(tiers),
{
}

} // verus!

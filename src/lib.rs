//! Settlement engine for confidential swap orders: escrowed order
//! lifecycle, reputation tiers, fee and constant-product arithmetic, and
//! nullifier-based replay protection.

pub mod errors;
pub mod fees;
pub mod keys;
pub mod tiers;
pub mod sovereign;
pub mod ledger;
pub mod orders;
pub mod replay;
pub mod dark;
pub mod router;
pub mod liquidity;
pub mod launch;
pub mod registry;

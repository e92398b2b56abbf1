//! A linear bonding-curve token market: the curve's pricing, the decisions of
//! each market instruction, and the arithmetic of lamport moves.

pub mod curve;
pub mod error;
pub mod instructions;
pub mod keys;

pub use curve::LinearBondingCurve;
pub use error::{CustomError, InitializeMigrateEvent};
pub use instructions::{buy, create_token_and_buy, initialize, migrate, sell, swap, withdraw_fees};

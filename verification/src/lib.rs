//! A time-metered payment escrow.
//!
//! A payer locks an upper bound of an asset in a vault, the asset accrues to
//! the payee at a fixed rate per second, and at settlement the accrued amount
//! goes to the payee while the remainder returns to the payer.

pub mod address;
pub mod settlement;
pub mod state;
mod table;
pub mod laws;
pub mod ledger;
pub mod record;

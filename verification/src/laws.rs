//! What holds of every operation, whatever the accounts hold: the laws of
//! the ledger, each stated over the same functions as the contracts of the
//! operations it speaks of, and proved.

pub mod administration;
pub mod collection;
pub mod settlement;
pub mod staking;
pub mod values;

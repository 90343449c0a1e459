//! The state machine of a rent wallet: an administrator credits and debits
//! per-account balances, and may pause the wallet, which freezes balances.

pub mod address;
pub mod balances;
pub mod laws;
pub mod wallet;

//! A custodial vault: one owner, one program-derived vault account, per-call
//! transfer limits and an automatic sweep of the vault back to its owner.

pub mod address;
pub mod state;
pub mod vault;
pub mod instructions;
pub mod laws;

use vstd::prelude::*;

verus! {

/// Largest amount, in minor units, that one deposit may move into the vault.
pub const ONE_UNIT_LIMIT: u64 = 1_000_000_000;

/// Largest amount, in minor units, that one withdrawal may move out of the vault.
pub const THREE_UNIT_LIMIT: u64 = 3_000_000_000;

/// Why a vault operation was rejected. A rejected operation changes nothing.
#[derive(Debug, Clone, Copy, PartialEq, Eq, Structural)]
pub enum ErrorCode {
    /// A deposit asked for more than `ONE_UNIT_LIMIT`.
    DepositExceedsLimit,
    /// A withdrawal asked for more than `THREE_UNIT_LIMIT`.
    WithdrawalExceedsLimit,
    /// A supplied account is not the one that its seeds and stored proof derive.
    AddressMismatch,
    /// The source of a transfer holds less than the amount asked for.
    InsufficientBalance,
    /// The owner already has a vault state record.
    AlreadyInitialized,
}

} // verus!

verus! {

/// The record that binds an owner to its vault: the target balance at which the
/// vault is swept, and the proof bytes (bumps) of the vault account's and the
/// record's own derived addresses.
#[derive(Debug, Clone, Copy, PartialEq, Eq, Structural)]
pub struct VaultState {
    pub amount: u64,
    pub vault_bump: u8,
    pub state_bump: u8,
}

impl VaultState {
    /// Bytes the stored record takes: an 8-byte account discriminator, the
    /// 8-byte target amount and the two proof bytes.
    pub const INIT_SPACE: usize = 8 + 8 + 1 + 1;
}

} // verus!

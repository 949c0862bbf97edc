use vstd::prelude::*;

use crate::address::{
    canonical_derivation, check_derivation, derive_address, pda_seeds, program_address_of, same_address,
    state_seed_tag, state_tag, vault_seed_tag, vault_tag, Address,
};
use crate::state::{ErrorCode, VaultState, ONE_UNIT_LIMIT, THREE_UNIT_LIMIT};

verus! {

/// The accounts of an `initialize` call: the owner, the state record's address,
/// the vault account's address, the program id, and the state record if the
/// address already holds one.
#[derive(Debug, Clone, Copy, PartialEq, Eq)]
pub struct Initialize {
    pub user: Address,
    pub state: Address,
    pub vault: Address,
    pub program_id: Address,
    pub record: Option<VaultState>,
}

impl Initialize {
    /// The canonical derivation of the owner's state record.
    pub open spec fn state_derivation(self) -> Option<(Seq<u8>, u8)> {
        canonical_derivation(state_seed_tag(), self.user@, self.program_id@)
    }

    /// The canonical derivation of the vault account from the state record.
    pub open spec fn vault_derivation(self) -> Option<(Seq<u8>, u8)> {
        canonical_derivation(vault_seed_tag(), self.state@, self.program_id@)
    }

    /// What `initialize(amount)` returns, and the accounts after it.
    pub open spec fn init_outcome(self, amount: u64) -> (Result<(), ErrorCode>, Initialize) {
        match self.state_derivation() {
            Some(s) if s.0 == self.state@ => {
                if self.record is Some {
                    (Err(ErrorCode::AlreadyInitialized), self)
                } else {
                    match self.vault_derivation() {
                        Some(v) if v.0 == self.vault@ => (
                            Ok(()),
                            Initialize {
                                record: Some(
                                    VaultState { amount, vault_bump: v.1, state_bump: s.1 },
                                ),
                                ..self
                            },
                        ),
                        _ => (Err(ErrorCode::AddressMismatch), self),
                    }
                }
            },
            _ => (Err(ErrorCode::AddressMismatch), self),
        }
    }

    /// Creates the owner's state record with target balance `amount` and the two
    /// derivation proofs found for the state record and the vault account. No
    /// balance moves. Fails with `AddressMismatch` where a supplied address is
    /// not the canonical one, and with `AlreadyInitialized` where the record
    /// exists.
    pub fn initialize(&mut self, amount: u64) -> (r: Result<(), ErrorCode>)
        ensures
            (r, *final(self)) == old(self).init_outcome(amount),
            r is Err ==> *final(self) == *old(self),
            old(self).record is Some ==> r is Err,
    {
        let st = state_tag();
        let (state_addr, state_bump) = match derive_address(st.as_slice(), &self.user, &self.program_id) {
            Some(p) => p,
            None => {
                return Err(ErrorCode::AddressMismatch);
            },
        };
        if !same_address(&state_addr, &self.state) {
            return Err(ErrorCode::AddressMismatch);
        }
        if self.record.is_some() {
            return Err(ErrorCode::AlreadyInitialized);
        }
        let vt = vault_tag();
        let (vault_addr, vault_bump) = match derive_address(vt.as_slice(), &self.state, &self.program_id) {
            Some(p) => p,
            None => {
                return Err(ErrorCode::AddressMismatch);
            },
        };
        if !same_address(&vault_addr, &self.vault) {
            return Err(ErrorCode::AddressMismatch);
        }
        self.record = Some(VaultState { amount, vault_bump, state_bump });
        Ok(())
    }
}

} // verus!

verus! {

/// Authority to move balance out of a derived account: the tag, seed and proof
/// byte from which the account's address is derived, presented in place of a
/// signature.
#[derive(Debug, PartialEq, Eq)]
pub struct DerivationAuthority {
    pub tag: Vec<u8>,
    pub seed: Address,
    pub proof: u8,
}

/// Checks a deposit amount against the per-call limit.
pub fn check_deposit_limit(amount: u64) -> (r: Result<(), ErrorCode>)
    ensures
        amount <= ONE_UNIT_LIMIT ==> r is Ok,
        amount > ONE_UNIT_LIMIT ==> r == Err::<(), ErrorCode>(ErrorCode::DepositExceedsLimit),
{
    if amount <= ONE_UNIT_LIMIT {
        Ok(())
    } else {
        Err(ErrorCode::DepositExceedsLimit)
    }
}

/// Checks a withdrawal amount against the per-call limit.
pub fn check_withdraw_limit(amount: u64) -> (r: Result<(), ErrorCode>)
    ensures
        amount <= THREE_UNIT_LIMIT ==> r is Ok,
        amount > THREE_UNIT_LIMIT ==> r == Err::<(), ErrorCode>(ErrorCode::WithdrawalExceedsLimit),
{
    if amount <= THREE_UNIT_LIMIT {
        Ok(())
    } else {
        Err(ErrorCode::WithdrawalExceedsLimit)
    }
}

/// Whether a vault holding `vault_balance` is due to be swept back to its owner.
pub fn sweep_due(vault_balance: u64, target_amount: u64) -> (r: bool)
    ensures
        r == (vault_balance >= target_amount),
{
    vault_balance >= target_amount
}

/// The accounts of a `deposit` or `withdraw` call: the owner and its balance,
/// the state record and its address, the vault account and its balance, and
/// the program id.
#[derive(Debug, Clone, Copy, PartialEq, Eq)]
pub struct Operations {
    pub user: Address,
    pub user_lamports: u64,
    pub state: Address,
    pub record: VaultState,
    pub vault: Address,
    pub vault_lamports: u64,
    pub program_id: Address,
}

impl Operations {
    /// The state record's address is derived from the owner with its stored proof.
    pub open spec fn state_valid(self) -> bool {
        program_address_of(pda_seeds(state_seed_tag(), self.user@, self.record.state_bump), self.program_id@)
            == Some(self.state@)
    }

    /// The vault's address is derived from the state record with its stored proof.
    pub open spec fn vault_valid(self) -> bool {
        program_address_of(pda_seeds(vault_seed_tag(), self.state@, self.record.vault_bump), self.program_id@)
            == Some(self.vault@)
    }

    pub open spec fn accounts_valid(self) -> bool {
        self.state_valid() && self.vault_valid()
    }

    /// The two balances together fit in a `u64`, as all balances do.
    pub open spec fn balances_fit(self) -> bool {
        self.user_lamports + self.vault_lamports <= u64::MAX
    }

    /// The owner's and the vault's balances together.
    pub open spec fn total(self) -> int {
        self.user_lamports + self.vault_lamports
    }

    /// The accounts after `amount` moved from the owner to the vault.
    pub open spec fn moved_to_vault(self, amount: u64) -> Operations {
        Operations {
            user_lamports: (self.user_lamports - amount) as u64,
            vault_lamports: (self.vault_lamports + amount) as u64,
            ..self
        }
    }

    /// The accounts after `amount` moved from the vault to the owner.
    pub open spec fn moved_to_user(self, amount: u64) -> Operations {
        Operations {
            user_lamports: (self.user_lamports + amount) as u64,
            vault_lamports: (self.vault_lamports - amount) as u64,
            ..self
        }
    }

    /// What `check_balance()` returns, and the accounts after it: a vault at or
    /// above its target is emptied into the owner's account.
    pub open spec fn sweep_outcome(self) -> (Result<(), ErrorCode>, Operations) {
        if self.vault_lamports < self.record.amount {
            (Ok(()), self)
        } else if self.vault_valid() {
            (Ok(()), self.moved_to_user(self.vault_lamports))
        } else {
            (Err(ErrorCode::AddressMismatch), self)
        }
    }

    /// What `deposit(amount)` returns, and the accounts after it.
    pub open spec fn deposit_outcome(self, amount: u64) -> (Result<(), ErrorCode>, Operations) {
        if !self.accounts_valid() {
            (Err(ErrorCode::AddressMismatch), self)
        } else if amount > ONE_UNIT_LIMIT {
            (Err(ErrorCode::DepositExceedsLimit), self)
        } else if self.user_lamports < amount {
            (Err(ErrorCode::InsufficientBalance), self)
        } else {
            self.moved_to_vault(amount).sweep_outcome()
        }
    }

    /// What `withdraw(amount)` returns, and the accounts after it.
    pub open spec fn withdraw_outcome(self, amount: u64) -> (Result<(), ErrorCode>, Operations) {
        if !self.accounts_valid() {
            (Err(ErrorCode::AddressMismatch), self)
        } else if amount > THREE_UNIT_LIMIT {
            (Err(ErrorCode::WithdrawalExceedsLimit), self)
        } else if self.vault_lamports < amount {
            (Err(ErrorCode::InsufficientBalance), self)
        } else {
            (Ok(()), self.moved_to_user(amount))
        }
    }

    /// Checks the state record's and the vault's addresses against their seeds
    /// and stored proofs.
    pub fn validate(&self) -> (r: Result<(), ErrorCode>)
        ensures
            r is Ok <==> self.accounts_valid(),
            r is Err ==> r == Err::<(), ErrorCode>(ErrorCode::AddressMismatch),
    {
        let st = state_tag();
        check_derivation(st.as_slice(), &self.user, self.record.state_bump, &self.program_id, &self.state)?;
        let vt = vault_tag();
        check_derivation(vt.as_slice(), &self.state, self.record.vault_bump, &self.program_id, &self.vault)
    }

    /// The authority with which the vault pays out: its tag, the state record's
    /// address and the stored vault proof.
    pub fn vault_authority(&self) -> (r: DerivationAuthority)
        ensures
            r.tag@ == vault_seed_tag(),
            r.seed == self.state,
            r.proof == self.record.vault_bump,
    {
        DerivationAuthority { tag: vault_tag(), seed: self.state, proof: self.record.vault_bump }
    }

    /// Moves `amount` from the owner, who signs the call, to the vault.
    fn transfer_to_vault(&mut self, amount: u64) -> (r: Result<(), ErrorCode>)
        requires
            old(self).balances_fit(),
        ensures
            old(self).user_lamports < amount ==> r == Err::<(), ErrorCode>(ErrorCode::InsufficientBalance)
                && *final(self) == *old(self),
            old(self).user_lamports >= amount ==> r is Ok && *final(self) == old(self).moved_to_vault(
                amount,
            ),
    {
        if self.user_lamports < amount {
            return Err(ErrorCode::InsufficientBalance);
        }
        self.user_lamports = self.user_lamports - amount;
        self.vault_lamports = self.vault_lamports + amount;
        Ok(())
    }

    /// Moves `amount` from the vault to the owner, authorised by `authority`,
    /// which must derive the vault's address.
    fn transfer_to_user(&mut self, amount: u64, authority: &DerivationAuthority) -> (r: Result<
        (),
        ErrorCode,
    >)
        requires
            old(self).balances_fit(),
            authority.tag@.len() <= 32,
        ensures
            ({
                let derives = program_address_of(
                    pda_seeds(authority.tag@, authority.seed@, authority.proof),
                    old(self).program_id@,
                ) == Some(old(self).vault@);
                &&& !derives ==> r == Err::<(), ErrorCode>(ErrorCode::AddressMismatch)
                &&& derives && old(self).vault_lamports < amount ==> r == Err::<(), ErrorCode>(
                    ErrorCode::InsufficientBalance,
                )
                &&& derives && old(self).vault_lamports >= amount ==> r == Ok::<(), ErrorCode>(())
                &&& r is Ok ==> *final(self) == old(self).moved_to_user(amount)
                &&& r is Err ==> *final(self) == *old(self)
            }),
    {
        check_derivation(authority.tag.as_slice(), &authority.seed, authority.proof, &self.program_id, &self.vault)?;
        if self.vault_lamports < amount {
            return Err(ErrorCode::InsufficientBalance);
        }
        self.vault_lamports = self.vault_lamports - amount;
        self.user_lamports = self.user_lamports + amount;
        Ok(())
    }

    /// Sweeps the vault: where its balance has reached the record's target, the
    /// whole balance goes back to the owner under the vault's own authority.
    pub fn check_balance(&mut self) -> (r: Result<(), ErrorCode>)
        requires
            old(self).balances_fit(),
        ensures
            (r, *final(self)) == old(self).sweep_outcome(),
    {
        if sweep_due(self.vault_lamports, self.record.amount) {
            let authority = self.vault_authority();
            let all = self.vault_lamports;
            self.transfer_to_user(all, &authority)
        } else {
            Ok(())
        }
    }

    /// Moves `amount` from the owner into the vault, then sweeps the vault.
    pub fn deposit(&mut self, amount: u64) -> (r: Result<(), ErrorCode>)
        requires
            old(self).balances_fit(),
        ensures
            (r, *final(self)) == old(self).deposit_outcome(amount),
            r is Err ==> *final(self) == *old(self),
            old(self).accounts_valid() && amount > ONE_UNIT_LIMIT ==> r == Err::<(), ErrorCode>(
                ErrorCode::DepositExceedsLimit,
            ),
            old(self).accounts_valid() && amount <= ONE_UNIT_LIMIT && old(self).user_lamports
                >= amount ==> r is Ok,
            r is Ok ==> final(self).total() == old(self).total(),
            r is Ok && old(self).record.amount == 0 ==> final(self).vault_lamports == 0,
            r is Ok && old(self).record.amount > 0 ==> final(self).vault_lamports < old(
                self,
            ).record.amount,
    {
        self.validate()?;
        check_deposit_limit(amount)?;
        self.transfer_to_vault(amount)?;
        self.check_balance()
    }

    /// Moves `amount` from the vault to the owner under the vault's own authority.
    pub fn withdraw(&mut self, amount: u64) -> (r: Result<(), ErrorCode>)
        requires
            old(self).balances_fit(),
        ensures
            (r, *final(self)) == old(self).withdraw_outcome(amount),
            r is Err ==> *final(self) == *old(self),
            old(self).accounts_valid() && amount > THREE_UNIT_LIMIT ==> r == Err::<(), ErrorCode>(
                ErrorCode::WithdrawalExceedsLimit,
            ),
            old(self).accounts_valid() && amount <= THREE_UNIT_LIMIT && old(self).vault_lamports
                >= amount ==> r is Ok,
            r is Ok ==> final(self).total() == old(self).total(),
            r is Ok ==> final(self).vault_lamports + amount == old(self).vault_lamports,
    {
        self.validate()?;
        check_withdraw_limit(amount)?;
        let authority = self.vault_authority();
        self.transfer_to_user(amount, &authority)
    }
}

} // verus!

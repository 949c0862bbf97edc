use vstd::prelude::*;

use crate::address::{canonical_derivation, canonical_from, pda_seeds, program_address_of};
use crate::state::{ErrorCode, VaultState};
use crate::vault::{Initialize, Operations};

verus! {

/// A canonical derivation found from bump `bump` down is re-derived by its own
/// proof byte: the stored bump gives back the same address.
pub proof fn lemma_canonical_from_rederives(tag: Seq<u8>, key: Seq<u8>, program: Seq<u8>, bump: int)
    requires
        canonical_from(tag, key, program, bump) is Some,
    ensures
        ({
            let (a, b) = canonical_from(tag, key, program, bump)->Some_0;
            program_address_of(pda_seeds(tag, key, b), program) == Some(a)
        }),
    decreases bump,
{
    if bump >= 1 {
        if program_address_of(pda_seeds(tag, key, bump as u8), program) is None {
            lemma_canonical_from_rederives(tag, key, program, bump - 1);
        }
    }
}

/// The canonical derivation of `(tag, key)` is re-derived by its own proof byte.
pub proof fn lemma_canonical_rederives(tag: Seq<u8>, key: Seq<u8>, program: Seq<u8>)
    requires
        canonical_derivation(tag, key, program) is Some,
    ensures
        ({
            let (a, b) = canonical_derivation(tag, key, program)->Some_0;
            program_address_of(pda_seeds(tag, key, b), program) == Some(a)
        }),
{
    lemma_canonical_from_rederives(tag, key, program, 255);
}

/// Initializing an owner's vault a second time fails with `AlreadyInitialized`
/// and leaves the record of the first call as it was.
pub proof fn lemma_reinitialize_rejected(accounts: Initialize, first: u64, second: u64)
    requires
        accounts.init_outcome(first).0 is Ok,
    ensures
        ({
            let after = accounts.init_outcome(first).1;
            after.init_outcome(second) == (Err::<(), ErrorCode>(ErrorCode::AlreadyInitialized), after)
        }),
{
}

/// The record that `initialize` writes validates the accounts it was written
/// for: any later `deposit` or `withdraw` on those accounts passes the address
/// checks, whatever the balances.
pub proof fn lemma_initialized_accounts_valid(
    accounts: Initialize,
    amount: u64,
    user_lamports: u64,
    vault_lamports: u64,
)
    requires
        accounts.init_outcome(amount).0 is Ok,
    ensures
        ({
            let record: VaultState = accounts.init_outcome(amount).1.record->Some_0;
            Operations {
                user: accounts.user,
                user_lamports,
                state: accounts.state,
                record,
                vault: accounts.vault,
                vault_lamports,
                program_id: accounts.program_id,
            }.accounts_valid()
        }),
{
    lemma_canonical_rederives(crate::address::state_seed_tag(), accounts.user@, accounts.program_id@);
    lemma_canonical_rederives(crate::address::vault_seed_tag(), accounts.state@, accounts.program_id@);
}

} // verus!

verus! {

/// An owner has one state record address and one vault address: two
/// successful initializations for the same owner and program were made on
/// the same two addresses, and store the same proof bytes.
pub proof fn lemma_addresses_determined_by_owner(a: Initialize, b: Initialize, x: u64, y: u64)
    requires
        a.init_outcome(x).0 is Ok,
        b.init_outcome(y).0 is Ok,
        a.user@ == b.user@,
        a.program_id@ == b.program_id@,
    ensures
        a.state@ == b.state@,
        a.vault@ == b.vault@,
        a.init_outcome(x).1.record->Some_0.state_bump == b.init_outcome(y).1.record->Some_0.state_bump,
        a.init_outcome(x).1.record->Some_0.vault_bump == b.init_outcome(y).1.record->Some_0.vault_bump,
{
}

} // verus!

use anchor_vault_2::address::{derive_address, rederive, same_address, state_tag, vault_tag, Address};
use anchor_vault_2::instructions;
use anchor_vault_2::state::{ErrorCode, VaultState, ONE_UNIT_LIMIT, THREE_UNIT_LIMIT};
use anchor_vault_2::vault::{
    check_deposit_limit, check_withdraw_limit, sweep_due, Initialize, Operations,
};

fn program_id() -> Address {
    Address { bytes: [7u8; 32] }
}

fn owner() -> Address {
    let mut bytes = [0u8; 32];
    for (i, b) in bytes.iter_mut().enumerate() {
        *b = (i as u8).wrapping_mul(13).wrapping_add(1);
    }
    Address { bytes }
}

fn fresh_accounts() -> Initialize {
    let program = program_id();
    let user = owner();
    let (state, _) = derive_address(&state_tag(), &user, &program).unwrap();
    let (vault, _) = derive_address(&vault_tag(), &state, &program).unwrap();
    Initialize { user, state, vault, program_id: program, record: None }
}

fn vault_with(target: u64, user_lamports: u64, vault_lamports: u64) -> Operations {
    let mut accounts = fresh_accounts();
    assert_eq!(accounts.initialize(target), Ok(()));
    Operations {
        user: accounts.user,
        user_lamports,
        state: accounts.state,
        record: accounts.record.unwrap(),
        vault: accounts.vault,
        vault_lamports,
        program_id: accounts.program_id,
    }
}

#[test]
fn tags_are_state_and_vault() {
    assert_eq!(state_tag(), b"state".to_vec());
    assert_eq!(vault_tag(), b"vault".to_vec());
}

#[test]
fn derived_address_is_rederived_by_its_bump() {
    let program = program_id();
    let user = owner();
    let (state, bump) = derive_address(&state_tag(), &user, &program).unwrap();
    assert_ne!(state, user);
    assert_ne!(state, program);
    assert_eq!(rederive(&state_tag(), &user, bump, &program), Some(state));
    let again = derive_address(&state_tag(), &user, &program).unwrap();
    assert_eq!(again, (state, bump));
    let (vault, _) = derive_address(&vault_tag(), &state, &program).unwrap();
    assert_ne!(vault, state);
}

#[test]
fn same_address_compares_every_byte() {
    let a = owner();
    let mut b = owner();
    assert!(same_address(&a, &b));
    b.bytes[31] ^= 1;
    assert!(!same_address(&a, &b));
}

#[test]
fn initialize_stores_target_and_bumps() {
    let mut accounts = fresh_accounts();
    let (_, state_bump) = derive_address(&state_tag(), &accounts.user, &accounts.program_id).unwrap();
    let (_, vault_bump) = derive_address(&vault_tag(), &accounts.state, &accounts.program_id).unwrap();
    assert_eq!(instructions::initialize(&mut accounts, 2_000_000_000), Ok(()));
    assert_eq!(
        accounts.record,
        Some(VaultState { amount: 2_000_000_000, vault_bump, state_bump })
    );
}

#[test]
fn initialize_twice_fails_and_keeps_first_record() {
    let mut accounts = fresh_accounts();
    assert_eq!(accounts.initialize(2_000_000_000), Ok(()));
    let first = accounts;
    assert_eq!(accounts.initialize(5), Err(ErrorCode::AlreadyInitialized));
    assert_eq!(accounts, first);
    assert_eq!(accounts.record.unwrap().amount, 2_000_000_000);
}

#[test]
fn initialize_rejects_foreign_state_address() {
    let mut accounts = fresh_accounts();
    accounts.state = owner();
    let before = accounts;
    assert_eq!(accounts.initialize(1), Err(ErrorCode::AddressMismatch));
    assert_eq!(accounts, before);
}

#[test]
fn initialize_rejects_foreign_vault_address() {
    let mut accounts = fresh_accounts();
    accounts.vault = program_id();
    assert_eq!(accounts.initialize(1), Err(ErrorCode::AddressMismatch));
    assert_eq!(accounts.record, None);
}

#[test]
fn deposit_below_target_stays_in_vault() {
    let mut ops = vault_with(2_000_000_000, 10_000_000_000, 0);
    assert_eq!(instructions::deposit(&mut ops, 500_000_000), Ok(()));
    assert_eq!(ops.vault_lamports, 500_000_000);
    assert_eq!(ops.user_lamports, 9_500_000_000);
}

#[test]
fn deposit_reaching_target_sweeps_everything_back() {
    let mut ops = vault_with(2_000_000_000, 10_000_000_000, 0);
    assert_eq!(ops.deposit(500_000_000), Ok(()));
    // A single deposit of 1,500,000,000 is over the per-call limit.
    let before = ops;
    assert_eq!(ops.deposit(1_500_000_000), Err(ErrorCode::DepositExceedsLimit));
    assert_eq!(ops, before);
    assert_eq!(ops.deposit(1_000_000_000), Ok(()));
    assert_eq!(ops.vault_lamports, 1_500_000_000);
    assert_eq!(ops.deposit(500_000_000), Ok(()));
    assert_eq!(ops.vault_lamports, 0);
    assert_eq!(ops.user_lamports, 10_000_000_000);
}

#[test]
fn deposit_past_target_sweeps_whole_balance() {
    let mut ops = vault_with(2_000_000_000, 10_000_000_000, 1_600_000_000);
    assert_eq!(ops.deposit(900_000_000), Ok(()));
    assert_eq!(ops.vault_lamports, 0);
    assert_eq!(ops.user_lamports, 11_600_000_000);
}

#[test]
fn deposit_over_limit_is_rejected() {
    let mut ops = vault_with(2_000_000_000, 10_000_000_000, 0);
    let before = ops;
    assert_eq!(ops.deposit(1_000_000_001), Err(ErrorCode::DepositExceedsLimit));
    assert_eq!(ops, before);
    assert_eq!(ops.vault_lamports, 0);
}

#[test]
fn deposit_of_exactly_the_limit_is_accepted() {
    let mut ops = vault_with(5_000_000_000, 10_000_000_000, 0);
    assert_eq!(ops.deposit(ONE_UNIT_LIMIT), Ok(()));
    assert_eq!(ops.vault_lamports, 1_000_000_000);
    assert_eq!(ops.user_lamports, 9_000_000_000);
}

#[test]
fn deposit_with_zero_target_always_sweeps() {
    let mut ops = vault_with(0, 3_000_000_000, 0);
    assert_eq!(ops.deposit(700), Ok(()));
    assert_eq!(ops.vault_lamports, 0);
    assert_eq!(ops.user_lamports, 3_000_000_000);
    assert_eq!(ops.deposit(0), Ok(()));
    assert_eq!(ops.vault_lamports, 0);
}

#[test]
fn deposit_beyond_owner_balance_is_rejected() {
    let mut ops = vault_with(2_000_000_000, 100, 0);
    let before = ops;
    assert_eq!(ops.deposit(101), Err(ErrorCode::InsufficientBalance));
    assert_eq!(ops, before);
}

#[test]
fn deposit_with_wrong_vault_bump_is_rejected() {
    let mut ops = vault_with(2_000_000_000, 10_000_000_000, 0);
    ops.record.vault_bump = ops.record.vault_bump.wrapping_sub(1);
    let before = ops;
    assert_eq!(ops.deposit(10), Err(ErrorCode::AddressMismatch));
    assert_eq!(ops, before);
}

#[test]
fn deposit_with_wrong_state_bump_is_rejected() {
    let mut ops = vault_with(2_000_000_000, 10_000_000_000, 0);
    ops.record.state_bump = ops.record.state_bump.wrapping_sub(1);
    assert_eq!(ops.deposit(10), Err(ErrorCode::AddressMismatch));
    assert_eq!(ops.withdraw(0), Err(ErrorCode::AddressMismatch));
}

#[test]
fn withdraw_over_limit_then_beyond_balance() {
    let mut ops = vault_with(5_000_000_000, 0, 1_000_000_000);
    let before = ops;
    assert_eq!(ops.withdraw(3_000_000_001), Err(ErrorCode::WithdrawalExceedsLimit));
    assert_eq!(ops, before);
    assert_eq!(ops.withdraw(1_500_000_000), Err(ErrorCode::InsufficientBalance));
    assert_eq!(ops, before);
    assert_eq!(ops.vault_lamports, 1_000_000_000);
}

#[test]
fn withdraw_moves_amount_to_owner_without_sweep() {
    let mut ops = vault_with(500, 10, 1_000_000_000);
    assert_eq!(instructions::withdraw(&mut ops, 400_000_000), Ok(()));
    assert_eq!(ops.vault_lamports, 600_000_000);
    assert_eq!(ops.user_lamports, 400_000_010);
}

#[test]
fn withdraw_of_exactly_the_limit_is_accepted() {
    let mut ops = vault_with(9_000_000_000, 0, 4_000_000_000);
    assert_eq!(ops.withdraw(THREE_UNIT_LIMIT), Ok(()));
    assert_eq!(ops.vault_lamports, 1_000_000_000);
    assert_eq!(ops.user_lamports, 3_000_000_000);
}

#[test]
fn check_balance_sweeps_only_at_target() {
    let mut ops = vault_with(1_000, 5, 999);
    assert_eq!(ops.check_balance(), Ok(()));
    assert_eq!((ops.user_lamports, ops.vault_lamports), (5, 999));
    ops.vault_lamports = 1_000;
    assert_eq!(ops.check_balance(), Ok(()));
    assert_eq!((ops.user_lamports, ops.vault_lamports), (1_005, 0));
}

#[test]
fn check_balance_with_foreign_vault_is_rejected() {
    let mut ops = vault_with(10, 5, 50);
    ops.vault = owner();
    assert_eq!(ops.check_balance(), Err(ErrorCode::AddressMismatch));
    assert_eq!((ops.user_lamports, ops.vault_lamports), (5, 50));
}

#[test]
fn validate_accepts_initialized_accounts() {
    let ops = vault_with(10, 0, 0);
    assert_eq!(ops.validate(), Ok(()));
    let authority = ops.vault_authority();
    assert_eq!(authority.tag, b"vault".to_vec());
    assert_eq!(authority.seed, ops.state);
    assert_eq!(rederive(&authority.tag, &authority.seed, authority.proof, &ops.program_id), Some(ops.vault));
}

#[test]
fn limits_and_sweep_rule() {
    assert_eq!(check_deposit_limit(1_000_000_000), Ok(()));
    assert_eq!(check_deposit_limit(1_000_000_001), Err(ErrorCode::DepositExceedsLimit));
    assert_eq!(check_withdraw_limit(3_000_000_000), Ok(()));
    assert_eq!(check_withdraw_limit(3_000_000_001), Err(ErrorCode::WithdrawalExceedsLimit));
    assert!(sweep_due(2_000_000_000, 2_000_000_000));
    assert!(!sweep_due(1_999_999_999, 2_000_000_000));
    assert!(sweep_due(0, 0));
    assert_eq!(VaultState::INIT_SPACE, 18);
}

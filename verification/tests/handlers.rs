use balance_ledger::error::ProgramError;
use balance_ledger::instruction::{
    deposit, initialize_account, initialize_commit, withdraw, AccountSlot, InitializeStep,
};
use balance_ledger::processor::{process_instruction, ProgramInstruction};
use balance_ledger::state::{AccountState, Pubkey};

fn key(b: u8) -> Pubkey {
    Pubkey { bytes: [b; 32] }
}

fn system_key() -> Pubkey {
    Pubkey { bytes: [0; 32] }
}

fn record(owner: Pubkey, balance: u64) -> Vec<u8> {
    AccountState { owner, balance }.encode()
}

fn slot(k: Pubkey, lamports: u64, owner_program: Pubkey, data: Vec<u8>, is_signer: bool) -> AccountSlot {
    AccountSlot { key: k, lamports, owner_program, data, is_signer }
}

fn funded_target(pid: Pubkey, owner: Pubkey, balance: u64, lamports: u64) -> AccountSlot {
    slot(key(2), lamports, pid, record(owner, balance), false)
}

fn signer(owner: Pubkey, lamports: u64) -> AccountSlot {
    slot(owner, lamports, system_key(), Vec::new(), true)
}

const FUNDED: u64 = 10_000_000_000;

#[test]
fn scenario_initialize_deposit_withdraw() {
    let pid = key(9);
    let owner_key = key(1);
    let mut account = slot(key(2), 0, system_key(), Vec::new(), false);
    let mut owner = signer(owner_key, 10_000);

    // Initialize on an empty slot asks for the allocation call.
    let step = initialize_account(&mut account, &owner, &system_key(), &pid).unwrap();
    let params = match step {
        InitializeStep::CreateRequired(params) => params,
        InitializeStep::Done => panic!("an empty slot must be created first"),
    };
    assert_eq!(params.funder, owner_key);
    assert_eq!(params.new_account, key(2));
    assert_eq!(params.space, 40);
    assert_eq!(params.owner_program, pid);
    assert!(params.lamports > 0);

    // The system service creates the slot; then the record is written.
    account.lamports = params.lamports;
    account.owner_program = pid;
    account.data = vec![0; 40];
    initialize_commit(&mut account, &owner_key).unwrap();
    let state = AccountState::decode(&account.data).unwrap();
    assert_eq!(state.owner, owner_key);
    assert_eq!(state.balance, 0);

    // Deposit 500: the record and the target's funding grow, the owner's
    // funding shrinks.
    deposit(&mut account, &mut owner, 500, &pid).unwrap();
    let state = AccountState::decode(&account.data).unwrap();
    assert_eq!(state.balance, 500);
    assert_eq!(account.lamports, params.lamports + 500);
    assert_eq!(owner.lamports, 9_500);

    // Withdraw pays out a tenth of the recorded balance.
    withdraw(&mut account, &mut owner, &pid).unwrap();
    let state = AccountState::decode(&account.data).unwrap();
    assert_eq!(state.balance, 450);
    assert_eq!(account.lamports, params.lamports + 450);
    assert_eq!(owner.lamports, 9_550);
}

#[test]
fn withdraw_on_zero_balance_succeeds_without_transfer() {
    let pid = key(9);
    let owner_key = key(1);
    let mut account = funded_target(pid, owner_key, 0, FUNDED);
    let mut owner = signer(owner_key, 777);
    assert_eq!(withdraw(&mut account, &mut owner, &pid), Ok(()));
    assert_eq!(account.lamports, FUNDED);
    assert_eq!(owner.lamports, 777);
    assert_eq!(AccountState::decode(&account.data).unwrap().balance, 0);
}

#[test]
fn withdraw_rounds_down() {
    let pid = key(9);
    let owner_key = key(1);
    let mut account = funded_target(pid, owner_key, 45, FUNDED);
    let mut owner = signer(owner_key, 100);
    withdraw(&mut account, &mut owner, &pid).unwrap();
    assert_eq!(AccountState::decode(&account.data).unwrap().balance, 41);
    assert_eq!(account.lamports, FUNDED - 4);
    assert_eq!(owner.lamports, 104);
}

#[test]
fn deposit_wraps_on_overflow() {
    let pid = key(9);
    let owner_key = key(1);
    let mut account = funded_target(pid, owner_key, u64::MAX, 3);
    let mut owner = signer(owner_key, 1);
    deposit(&mut account, &mut owner, 5, &pid).unwrap();
    assert_eq!(AccountState::decode(&account.data).unwrap().balance, 4);
    assert_eq!(account.lamports, 8);
    assert_eq!(owner.lamports, 1u64.wrapping_sub(5));
}

#[test]
fn initialize_requires_signature() {
    let pid = key(9);
    let mut account = slot(key(2), 0, system_key(), Vec::new(), false);
    let owner = slot(key(1), 100, system_key(), Vec::new(), false);
    let before = account.clone();
    assert_eq!(
        initialize_account(&mut account, &owner, &system_key(), &pid),
        Err(ProgramError::MissingRequiredSignature)
    );
    assert_eq!(account, before);
}

#[test]
fn initialize_rejects_wrong_system_program() {
    let pid = key(9);
    let mut account = slot(key(2), 0, system_key(), Vec::new(), false);
    let owner = signer(key(1), 100);
    assert_eq!(
        initialize_account(&mut account, &owner, &key(8), &pid),
        Err(ProgramError::IncorrectProgramId)
    );
}

#[test]
fn initialize_rejects_foreign_funded_slot() {
    let pid = key(9);
    let foreign = key(8);
    let mut account = slot(key(2), FUNDED, foreign, vec![0; 40], false);
    let owner = signer(key(1), 100);
    let before = account.clone();
    assert_eq!(
        initialize_account(&mut account, &owner, &system_key(), &pid),
        Err(ProgramError::IncorrectProgramId)
    );
    assert_eq!(account, before);
}

#[test]
fn initialize_reuses_funded_slot_destructively() {
    let pid = key(9);
    let owner_key = key(1);
    // The slot already holds a record with a balance; re-initialization
    // overwrites it with a fresh zero-balance record.
    let mut account = funded_target(pid, owner_key, 888, FUNDED);
    let owner = signer(owner_key, 100);
    assert_eq!(
        initialize_account(&mut account, &owner, &system_key(), &pid),
        Ok(InitializeStep::Done)
    );
    let state = AccountState::decode(&account.data).unwrap();
    assert_eq!(state.owner, owner_key);
    assert_eq!(state.balance, 0);
    assert_eq!(account.lamports, FUNDED);
}

#[test]
fn initialize_commit_rejects_underfunded_slot() {
    let owner_key = key(1);
    let mut account = slot(key(2), 100, key(9), vec![0; 40], false);
    let before = account.clone();
    assert_eq!(
        initialize_commit(&mut account, &owner_key),
        Err(ProgramError::AccountNotRentExempt)
    );
    assert_eq!(account, before);
}

#[test]
fn initialize_commit_rejects_short_storage() {
    let owner_key = key(1);
    let mut account = slot(key(2), u64::MAX, key(9), vec![0; 10], false);
    assert_eq!(
        initialize_commit(&mut account, &owner_key),
        Err(ProgramError::BorshIoError)
    );
}

#[test]
fn initialize_commit_keeps_bytes_beyond_the_record() {
    let owner_key = key(1);
    let mut data = vec![0xcc; 44];
    data[40] = 0xdd;
    let mut account = slot(key(2), u64::MAX, key(9), data, false);
    initialize_commit(&mut account, &owner_key).unwrap();
    assert_eq!(account.data.len(), 44);
    assert_eq!(&account.data[0..32], &[1u8; 32]);
    assert_eq!(&account.data[32..40], &[0u8; 8]);
    assert_eq!(&account.data[40..], &[0xdd, 0xcc, 0xcc, 0xcc]);
}

#[test]
fn deposit_rejects_foreign_program() {
    let pid = key(9);
    let owner_key = key(1);
    let mut account = funded_target(key(8), owner_key, 10, FUNDED);
    let mut owner = signer(owner_key, 100);
    let before = (account.clone(), owner.clone());
    assert_eq!(
        deposit(&mut account, &mut owner, 5, &pid),
        Err(ProgramError::IncorrectProgramId)
    );
    assert_eq!((account, owner), before);
}

#[test]
fn deposit_requires_signature() {
    let pid = key(9);
    let owner_key = key(1);
    let mut account = funded_target(pid, owner_key, 10, FUNDED);
    let mut owner = slot(owner_key, 100, system_key(), Vec::new(), false);
    let before = (account.clone(), owner.clone());
    assert_eq!(
        deposit(&mut account, &mut owner, 5, &pid),
        Err(ProgramError::MissingRequiredSignature)
    );
    assert_eq!((account, owner), before);
}

#[test]
fn deposit_rejects_foreign_record_owner() {
    let pid = key(9);
    let mut account = funded_target(pid, key(7), 10, FUNDED);
    let mut owner = signer(key(1), 100);
    let before = (account.clone(), owner.clone());
    assert_eq!(
        deposit(&mut account, &mut owner, 5, &pid),
        Err(ProgramError::InvalidAccountData)
    );
    assert_eq!((account, owner), before);
}

#[test]
fn deposit_rejects_malformed_record() {
    let pid = key(9);
    let mut account = slot(key(2), FUNDED, pid, vec![0; 39], false);
    let mut owner = signer(key(1), 100);
    assert_eq!(
        deposit(&mut account, &mut owner, 5, &pid),
        Err(ProgramError::BorshIoError)
    );
}

#[test]
fn withdraw_requires_signature() {
    let pid = key(9);
    let owner_key = key(1);
    let mut account = funded_target(pid, owner_key, 10, FUNDED);
    let mut owner = slot(owner_key, 100, system_key(), Vec::new(), false);
    assert_eq!(
        withdraw(&mut account, &mut owner, &pid),
        Err(ProgramError::MissingRequiredSignature)
    );
}

#[test]
fn withdraw_rejects_foreign_record_owner() {
    let pid = key(9);
    let mut account = funded_target(pid, key(7), 10, FUNDED);
    let mut owner = signer(key(1), 100);
    assert_eq!(
        withdraw(&mut account, &mut owner, &pid),
        Err(ProgramError::InvalidAccountData)
    );
}

#[test]
fn process_dispatches_deposit() {
    let pid = key(9);
    let owner_key = key(1);
    let mut account = funded_target(pid, owner_key, 100, FUNDED);
    let mut owner = signer(owner_key, 1_000);
    let input = ProgramInstruction::Deposit { amount: 250, args: 0 }.encode();
    let r = process_instruction(&pid, &mut account, &mut owner, None, &input);
    assert_eq!(r, Ok(InitializeStep::Done));
    assert_eq!(AccountState::decode(&account.data).unwrap().balance, 350);
    assert_eq!(owner.lamports, 750);
}

#[test]
fn process_dispatches_withdraw() {
    let pid = key(9);
    let owner_key = key(1);
    let mut account = funded_target(pid, owner_key, 100, FUNDED);
    let mut owner = signer(owner_key, 1_000);
    let input = ProgramInstruction::Withdraw { args: 5 }.encode();
    let r = process_instruction(&pid, &mut account, &mut owner, None, &input);
    assert_eq!(r, Ok(InitializeStep::Done));
    assert_eq!(AccountState::decode(&account.data).unwrap().balance, 90);
    assert_eq!(owner.lamports, 1_010);
}

#[test]
fn process_dispatches_initialize() {
    let pid = key(9);
    let owner_key = key(1);
    let mut account = slot(key(2), 0, system_key(), Vec::new(), false);
    let mut owner = signer(owner_key, 1_000);
    let input = ProgramInstruction::Initialize { args: 0 }.encode();
    let sys = system_key();
    let r = process_instruction(&pid, &mut account, &mut owner, Some(&sys), &input).unwrap();
    assert!(matches!(r, InitializeStep::CreateRequired(_)));
}

#[test]
fn process_initialize_needs_a_system_account() {
    let pid = key(9);
    let mut account = slot(key(2), 0, system_key(), Vec::new(), false);
    let mut owner = signer(key(1), 1_000);
    let input = ProgramInstruction::Initialize { args: 0 }.encode();
    assert_eq!(
        process_instruction(&pid, &mut account, &mut owner, None, &input),
        Err(ProgramError::NotEnoughAccountKeys)
    );
}

#[test]
fn process_rejects_invalid_payload() {
    let pid = key(9);
    let owner_key = key(1);
    let mut account = funded_target(pid, owner_key, 100, FUNDED);
    let mut owner = signer(owner_key, 1_000);
    let before = (account.clone(), owner.clone());
    assert_eq!(
        process_instruction(&pid, &mut account, &mut owner, None, &[9, 9, 9]),
        Err(ProgramError::InvalidInstructionData)
    );
    assert_eq!((account, owner), before);
}

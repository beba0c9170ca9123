use vstd::prelude::*;

use crate::error::ProgramError;
use crate::state::{
    spec_state_balance, spec_state_bytes, spec_state_owner, AccountState, Pubkey,
};
use vstd::wrapping::u64_specs;

verus! {

/// One account handle, as the handlers read it: the slot's address, its
/// native funding, the program that owns the slot, its byte storage, and
/// whether its holder signed the current call.
#[derive(Clone, Debug, PartialEq, Eq)]
pub struct AccountSlot {
    pub key: Pubkey,
    pub lamports: u64,
    pub owner_program: Pubkey,
    pub data: Vec<u8>,
    pub is_signer: bool,
}

/// The arguments of the one cross-program call the program makes: asking
/// the system allocation service to create the record's slot.
#[derive(Clone, Copy, Debug, PartialEq, Eq)]
pub struct CreateAccountParams {
    pub funder: Pubkey,
    pub new_account: Pubkey,
    pub lamports: u64,
    pub space: u64,
    pub owner_program: Pubkey,
}

/// What an initialize call asks of its caller: either perform the
/// allocation call with the given arguments and then finish with
/// [`initialize_commit`], or nothing more — the record is written.
#[derive(Clone, Copy, Debug, PartialEq, Eq)]
pub enum InitializeStep {
    CreateRequired(CreateAccountParams),
    Done,
}

/// The minimum funding the host demands of a slot of `size` bytes.
/// Only the host's rent configuration defines the value.
pub uninterp spec fn rent_min_balance(size: nat) -> u64;

/// Relies on `solana_program::rent::Rent::minimum_balance` under the default
/// rent configuration: the result depends on the byte size alone.
#[verifier::external_body]
fn rent_minimum_balance(size: usize) -> (r: u64)
    ensures
        r == rent_min_balance(size as nat),
{
    solana_program::rent::Rent::default().minimum_balance(size)
}

/// The system allocation service's well-known identity: 32 zero bytes.
pub open spec fn spec_system_program_id() -> Seq<u8> {
    Seq::new(32, |i: int| 0u8)
}

/// Relies on `solana_program::system_program::ID`, the system program's
/// fixed identity, whose 32 bytes are all zero.
#[verifier::external_body]
fn system_program_id() -> (r: Pubkey)
    ensures
        r.bytes@ == spec_system_program_id(),
{
    Pubkey { bytes: solana_program::system_program::ID.to_bytes() }
}

/// The slot keeps its address, owning program and signer flag, and holds
/// the given funding and bytes.
pub open spec fn slot_updated(
    pre: AccountSlot,
    post: AccountSlot,
    lamports: u64,
    data: Seq<u8>,
) -> bool {
    &&& post.key == pre.key
    &&& post.owner_program == pre.owner_program
    &&& post.is_signer == pre.is_signer
    &&& post.lamports == lamports
    &&& post.data@ == data
}

/// The slot is exactly as it was.
pub open spec fn slot_unchanged(pre: AccountSlot, post: AccountSlot) -> bool {
    slot_updated(pre, post, pre.lamports, pre.data@)
}

/// Everything a deposit call does, as a relation between the two slots
/// before (`a0`, `o0`) and after (`a1`, `o1`) and the result `r`: the
/// checks in their order, first failure winning and leaving both slots
/// untouched; on success the record's balance and the target's funding
/// grow by `amount` (mod 2^64) and the owner's funding shrinks by it.
pub open spec fn deposit_post(
    a0: AccountSlot,
    o0: AccountSlot,
    amount: u64,
    program_id: Pubkey,
    a1: AccountSlot,
    o1: AccountSlot,
    r: Result<(), ProgramError>,
) -> bool {
    if a0.owner_program.bytes@ != program_id.bytes@ {
        r == Err::<(), ProgramError>(ProgramError::IncorrectProgramId) && slot_unchanged(a0, a1)
            && slot_unchanged(o0, o1)
    } else if !o0.is_signer {
        r == Err::<(), ProgramError>(ProgramError::MissingRequiredSignature) && slot_unchanged(
            a0,
            a1,
        ) && slot_unchanged(o0, o1)
    } else if a0.data@.len() != 40 {
        r == Err::<(), ProgramError>(ProgramError::BorshIoError) && slot_unchanged(a0, a1)
            && slot_unchanged(o0, o1)
    } else if spec_state_owner(a0.data@) != o0.key.bytes@ {
        r == Err::<(), ProgramError>(ProgramError::InvalidAccountData) && slot_unchanged(a0, a1)
            && slot_unchanged(o0, o1)
    } else {
        &&& r == Ok::<(), ProgramError>(())
        &&& slot_updated(
            a0,
            a1,
            u64_specs::wrapping_add(a0.lamports, amount),
            spec_state_bytes(
                spec_state_owner(a0.data@),
                u64_specs::wrapping_add(spec_state_balance(a0.data@), amount),
            ),
        )
        &&& slot_updated(o0, o1, u64_specs::wrapping_sub(o0.lamports, amount), o0.data@)
    }
}

/// Everything a withdraw call does: the same checks as a deposit; on
/// success exactly one tenth of the recorded balance, rounded down, leaves
/// the record and the target's funding and reaches the owner's funding.
pub open spec fn withdraw_post(
    a0: AccountSlot,
    o0: AccountSlot,
    program_id: Pubkey,
    a1: AccountSlot,
    o1: AccountSlot,
    r: Result<(), ProgramError>,
) -> bool {
    if a0.owner_program.bytes@ != program_id.bytes@ {
        r == Err::<(), ProgramError>(ProgramError::IncorrectProgramId) && slot_unchanged(a0, a1)
            && slot_unchanged(o0, o1)
    } else if !o0.is_signer {
        r == Err::<(), ProgramError>(ProgramError::MissingRequiredSignature) && slot_unchanged(
            a0,
            a1,
        ) && slot_unchanged(o0, o1)
    } else if a0.data@.len() != 40 {
        r == Err::<(), ProgramError>(ProgramError::BorshIoError) && slot_unchanged(a0, a1)
            && slot_unchanged(o0, o1)
    } else if spec_state_owner(a0.data@) != o0.key.bytes@ {
        r == Err::<(), ProgramError>(ProgramError::InvalidAccountData) && slot_unchanged(a0, a1)
            && slot_unchanged(o0, o1)
    } else {
        let balance = spec_state_balance(a0.data@);
        let withdraw_amount = balance / 10;
        &&& r == Ok::<(), ProgramError>(())
        &&& slot_updated(
            a0,
            a1,
            u64_specs::wrapping_sub(a0.lamports, withdraw_amount),
            spec_state_bytes(spec_state_owner(a0.data@), (balance - withdraw_amount) as u64),
        )
        &&& slot_updated(o0, o1, u64_specs::wrapping_add(o0.lamports, withdraw_amount), o0.data@)
    }
}

/// Everything the final step of initialization does: re-check that the
/// slot's funding meets the rent-exemption minimum for its size, then
/// overwrite the first 40 bytes with a fresh record owned by `owner_key`
/// with balance zero.
pub open spec fn commit_post(
    a0: AccountSlot,
    owner_key: Pubkey,
    a1: AccountSlot,
    r: Result<(), ProgramError>,
) -> bool {
    if a0.lamports < rent_min_balance(a0.data@.len()) {
        r == Err::<(), ProgramError>(ProgramError::AccountNotRentExempt) && slot_unchanged(a0, a1)
    } else if a0.data@.len() < 40 {
        r == Err::<(), ProgramError>(ProgramError::BorshIoError) && slot_unchanged(a0, a1)
    } else {
        &&& r == Ok::<(), ProgramError>(())
        &&& slot_updated(
            a0,
            a1,
            a0.lamports,
            spec_state_bytes(owner_key.bytes@, 0) + a0.data@.subrange(40, a0.data@.len() as int),
        )
    }
}

/// The success value of an initialize result, with the step dropped.
pub open spec fn drop_step(r: Result<InitializeStep, ProgramError>) -> Result<(), ProgramError> {
    match r {
        Ok(_) => Ok(()),
        Err(e) => Err(e),
    }
}

/// Everything an initialize call does: the signature and system-service
/// checks; on an unfunded slot, the allocation request with the exact
/// arguments the handler fixes; on a funded slot, the hijack check
/// and then the final step of initialization.
pub open spec fn initialize_post(
    a0: AccountSlot,
    o0: AccountSlot,
    system_key: Pubkey,
    program_id: Pubkey,
    a1: AccountSlot,
    r: Result<InitializeStep, ProgramError>,
) -> bool {
    if !o0.is_signer {
        r == Err::<InitializeStep, ProgramError>(ProgramError::MissingRequiredSignature)
            && slot_unchanged(a0, a1)
    } else if system_key.bytes@ != spec_system_program_id() {
        r == Err::<InitializeStep, ProgramError>(ProgramError::IncorrectProgramId)
            && slot_unchanged(a0, a1)
    } else if a0.lamports == 0 {
        r == Ok::<InitializeStep, ProgramError>(
            InitializeStep::CreateRequired(
                CreateAccountParams {
                    funder: o0.key,
                    new_account: a0.key,
                    lamports: rent_min_balance(40),
                    space: 40,
                    owner_program: program_id,
                },
            ),
        ) && slot_unchanged(a0, a1)
    } else if a0.owner_program.bytes@ != program_id.bytes@ {
        r == Err::<InitializeStep, ProgramError>(ProgramError::IncorrectProgramId)
            && slot_unchanged(a0, a1)
    } else {
        &&& (r matches Ok(step) ==> step == InitializeStep::Done)
        &&& commit_post(a0, o0.key, a1, drop_step(r))
    }
}

/// Initializes the record's slot for the signing owner.
///
/// On an unfunded slot the caller is handed the arguments of the
/// allocation call to perform, and finishes with [`initialize_commit`]
/// afterwards; on a funded slot owned by this program the record is
/// written at once.
pub fn initialize_account(
    account: &mut AccountSlot,
    owner: &AccountSlot,
    system_program_key: &Pubkey,
    program_id: &Pubkey,
) -> (r: Result<InitializeStep, ProgramError>)
    ensures
        initialize_post(
            *old(account),
            *owner,
            *system_program_key,
            *program_id,
            *final(account),
            r,
        ),
{
    if !owner.is_signer {
        return Err(ProgramError::MissingRequiredSignature);
    }
    let sys_id = system_program_id();
    if !system_program_key.eq_bytes(&sys_id) {
        return Err(ProgramError::IncorrectProgramId);
    }
    if account.lamports == 0 {
        let lamports = rent_minimum_balance(AccountState::LEN);
        return Ok(
            InitializeStep::CreateRequired(
                CreateAccountParams {
                    funder: owner.key,
                    new_account: account.key,
                    lamports,
                    space: 40,
                    owner_program: *program_id,
                },
            ),
        );
    }
    if !account.owner_program.eq_bytes(program_id) {
        return Err(ProgramError::IncorrectProgramId);
    }
    match initialize_commit(account, &owner.key) {
        Ok(()) => Ok(InitializeStep::Done),
        Err(e) => Err(e),
    }
}

/// The final step of initialization, run after the allocation call (or
/// directly on a slot that was already funded): the rent re-check and the
/// destructive write of a fresh record.
pub fn initialize_commit(account: &mut AccountSlot, owner_key: &Pubkey) -> (r: Result<
    (),
    ProgramError,
>)
    ensures
        commit_post(*old(account), *owner_key, *final(account), r),
{
    let min = rent_minimum_balance(account.data.len());
    if account.lamports < min {
        return Err(ProgramError::AccountNotRentExempt);
    }
    if account.data.len() < 40 {
        return Err(ProgramError::BorshIoError);
    }
    let fresh = AccountState { owner: *owner_key, balance: 0 };
    let mut new_data = fresh.encode();
    let mut i: usize = 40;
    while i < account.data.len()
        invariant
            40 <= i <= account.data@.len(),
            *account == *old(account),
            new_data@ == spec_state_bytes(owner_key.bytes@, 0) + account.data@.subrange(
                40,
                i as int,
            ),
        decreases account.data@.len() - i,
    {
        new_data.push(account.data[i]);
        proof {
            assert(new_data@ =~= spec_state_bytes(owner_key.bytes@, 0) + account.data@.subrange(
                40,
                i + 1,
            ));
        }
        i += 1;
    }
    account.data = new_data;
    Ok(())
}

/// Moves `amount` into the record: the balance and the target's funding
/// grow by it, the owner's funding shrinks by it, all modulo 2^64 as the
/// unchecked 64-bit arithmetic of the ledger has it.
pub fn deposit(
    account: &mut AccountSlot,
    owner: &mut AccountSlot,
    amount: u64,
    program_id: &Pubkey,
) -> (r: Result<(), ProgramError>)
    ensures
        deposit_post(
            *old(account),
            *old(owner),
            amount,
            *program_id,
            *final(account),
            *final(owner),
            r,
        ),
{
    if !account.owner_program.eq_bytes(program_id) {
        return Err(ProgramError::IncorrectProgramId);
    }
    if !owner.is_signer {
        return Err(ProgramError::MissingRequiredSignature);
    }
    let state = match AccountState::decode(account.data.as_slice()) {
        Ok(s) => s,
        Err(e) => {
            return Err(e);
        },
    };
    if !state.owner.eq_bytes(&owner.key) {
        return Err(ProgramError::InvalidAccountData);
    }
    let updated = AccountState { owner: state.owner, balance: state.balance.wrapping_add(amount) };
    account.data = updated.encode();
    account.lamports = account.lamports.wrapping_add(amount);
    owner.lamports = owner.lamports.wrapping_sub(amount);
    Ok(())
}

/// Pays out one tenth of the recorded balance, rounded down: the record
/// and the target's funding shrink by that amount and the owner's funding
/// grows by it.  On a zero balance nothing moves and the call succeeds.
pub fn withdraw(account: &mut AccountSlot, owner: &mut AccountSlot, program_id: &Pubkey) -> (r:
    Result<(), ProgramError>)
    ensures
        withdraw_post(
            *old(account),
            *old(owner),
            *program_id,
            *final(account),
            *final(owner),
            r,
        ),
{
    if !account.owner_program.eq_bytes(program_id) {
        return Err(ProgramError::IncorrectProgramId);
    }
    if !owner.is_signer {
        return Err(ProgramError::MissingRequiredSignature);
    }
    let state = match AccountState::decode(account.data.as_slice()) {
        Ok(s) => s,
        Err(e) => {
            return Err(e);
        },
    };
    if !state.owner.eq_bytes(&owner.key) {
        return Err(ProgramError::InvalidAccountData);
    }
    let withdraw_amount = state.balance / 10;
    let updated = AccountState { owner: state.owner, balance: state.balance - withdraw_amount };
    account.data = updated.encode();
    account.lamports = account.lamports.wrapping_sub(withdraw_amount);
    owner.lamports = owner.lamports.wrapping_add(withdraw_amount);
    Ok(())
}

/// Law: when the final step of initialization succeeds, the slot holds a
/// fresh record — owner identity equal to the signer's, balance zero —
/// and stays funded at or above the rent-exemption minimum for its size.
pub proof fn lemma_initialize_writes_fresh_record(
    a0: AccountSlot,
    owner_key: Pubkey,
    a1: AccountSlot,
    r: Result<(), ProgramError>,
)
    requires
        commit_post(a0, owner_key, a1, r),
        r is Ok,
    ensures
        spec_state_owner(a1.data@) == owner_key.bytes@,
        spec_state_balance(a1.data@) == 0,
        a1.data@.len() == a0.data@.len(),
        a1.lamports >= rent_min_balance(a1.data@.len()),
{
    crate::state::lemma_state_bytes_round_trip(owner_key.bytes@, 0);
    let fresh = spec_state_bytes(owner_key.bytes@, 0);
    assert(a1.data@.subrange(0, 32) =~= fresh.subrange(0, 32));
    assert(a1.data@.subrange(32, 40) =~= fresh.subrange(32, 40));
}

/// Law: an initialize call on a slot that is already funded but owned by
/// a foreign program fails with the wrong-program error and changes
/// nothing.
pub proof fn lemma_initialize_rejects_foreign_slot(
    a0: AccountSlot,
    o0: AccountSlot,
    system_key: Pubkey,
    program_id: Pubkey,
    a1: AccountSlot,
    r: Result<InitializeStep, ProgramError>,
)
    requires
        initialize_post(a0, o0, system_key, program_id, a1, r),
        o0.is_signer,
        system_key.bytes@ == spec_system_program_id(),
        a0.lamports > 0,
        a0.owner_program.bytes@ != program_id.bytes@,
    ensures
        r == Err::<InitializeStep, ProgramError>(ProgramError::IncorrectProgramId),
        slot_unchanged(a0, a1),
{
}

/// Law: a deposit that passes its checks grows the recorded balance and
/// the target's funding by the amount and shrinks the owner's funding by
/// it, each modulo 2^64; the record keeps its owner.
pub proof fn lemma_deposit_moves_amount(
    a0: AccountSlot,
    o0: AccountSlot,
    amount: u64,
    program_id: Pubkey,
    a1: AccountSlot,
    o1: AccountSlot,
    r: Result<(), ProgramError>,
)
    requires
        deposit_post(a0, o0, amount, program_id, a1, o1, r),
        r is Ok,
    ensures
        spec_state_balance(a1.data@) == u64_specs::wrapping_add(
            spec_state_balance(a0.data@),
            amount,
        ),
        spec_state_owner(a1.data@) == spec_state_owner(a0.data@),
        a1.lamports == u64_specs::wrapping_add(a0.lamports, amount),
        o1.lamports == u64_specs::wrapping_sub(o0.lamports, amount),
        o1.data@ == o0.data@,
{
    crate::state::lemma_state_bytes_round_trip(
        spec_state_owner(a0.data@),
        u64_specs::wrapping_add(spec_state_balance(a0.data@), amount),
    );
}

/// Law: a withdraw that passes its checks pays out exactly one tenth of
/// the recorded balance, rounded down — the record and the target's
/// funding shrink by it, the owner's funding grows by it.
pub proof fn lemma_withdraw_pays_one_tenth(
    a0: AccountSlot,
    o0: AccountSlot,
    program_id: Pubkey,
    a1: AccountSlot,
    o1: AccountSlot,
    r: Result<(), ProgramError>,
)
    requires
        withdraw_post(a0, o0, program_id, a1, o1, r),
        r is Ok,
    ensures
        spec_state_balance(a1.data@) == spec_state_balance(a0.data@) - spec_state_balance(
            a0.data@,
        ) / 10,
        spec_state_owner(a1.data@) == spec_state_owner(a0.data@),
        a1.lamports == u64_specs::wrapping_sub(a0.lamports, spec_state_balance(a0.data@) / 10),
        o1.lamports == u64_specs::wrapping_add(o0.lamports, spec_state_balance(a0.data@) / 10),
        o1.data@ == o0.data@,
{
    let balance = spec_state_balance(a0.data@);
    crate::state::lemma_state_bytes_round_trip(
        spec_state_owner(a0.data@),
        (balance - balance / 10) as u64,
    );
}

/// Law: a deposit whose stored record names a different owner than the
/// signer fails with the invalid-account-data error and changes nothing.
pub proof fn lemma_deposit_rejects_foreign_record(
    a0: AccountSlot,
    o0: AccountSlot,
    amount: u64,
    program_id: Pubkey,
    a1: AccountSlot,
    o1: AccountSlot,
    r: Result<(), ProgramError>,
)
    requires
        deposit_post(a0, o0, amount, program_id, a1, o1, r),
        a0.owner_program.bytes@ == program_id.bytes@,
        o0.is_signer,
        a0.data@.len() == 40,
        spec_state_owner(a0.data@) != o0.key.bytes@,
    ensures
        r == Err::<(), ProgramError>(ProgramError::InvalidAccountData),
        slot_unchanged(a0, a1),
        slot_unchanged(o0, o1),
{
}

/// Law: a withdraw whose stored record names a different owner than the
/// signer fails with the invalid-account-data error and changes nothing.
pub proof fn lemma_withdraw_rejects_foreign_record(
    a0: AccountSlot,
    o0: AccountSlot,
    program_id: Pubkey,
    a1: AccountSlot,
    o1: AccountSlot,
    r: Result<(), ProgramError>,
)
    requires
        withdraw_post(a0, o0, program_id, a1, o1, r),
        a0.owner_program.bytes@ == program_id.bytes@,
        o0.is_signer,
        a0.data@.len() == 40,
        spec_state_owner(a0.data@) != o0.key.bytes@,
    ensures
        r == Err::<(), ProgramError>(ProgramError::InvalidAccountData),
        slot_unchanged(a0, a1),
        slot_unchanged(o0, o1),
{
}

/// Law: an initialize call without the owner's signature fails with the
/// missing-signature error and changes nothing.
pub proof fn lemma_initialize_requires_signature(
    a0: AccountSlot,
    o0: AccountSlot,
    system_key: Pubkey,
    program_id: Pubkey,
    a1: AccountSlot,
    r: Result<InitializeStep, ProgramError>,
)
    requires
        initialize_post(a0, o0, system_key, program_id, a1, r),
        !o0.is_signer,
    ensures
        r == Err::<InitializeStep, ProgramError>(ProgramError::MissingRequiredSignature),
        slot_unchanged(a0, a1),
{
}

/// Law: a deposit on a slot this program owns, made without the owner's
/// signature, fails with the missing-signature error and changes nothing.
/// (On a slot owned elsewhere the ownership check fires first.)
pub proof fn lemma_deposit_requires_signature(
    a0: AccountSlot,
    o0: AccountSlot,
    amount: u64,
    program_id: Pubkey,
    a1: AccountSlot,
    o1: AccountSlot,
    r: Result<(), ProgramError>,
)
    requires
        deposit_post(a0, o0, amount, program_id, a1, o1, r),
        a0.owner_program.bytes@ == program_id.bytes@,
        !o0.is_signer,
    ensures
        r == Err::<(), ProgramError>(ProgramError::MissingRequiredSignature),
        slot_unchanged(a0, a1),
        slot_unchanged(o0, o1),
{
}

/// Law: a withdraw on a slot this program owns, made without the owner's
/// signature, fails with the missing-signature error and changes nothing.
/// (On a slot owned elsewhere the ownership check fires first.)
pub proof fn lemma_withdraw_requires_signature(
    a0: AccountSlot,
    o0: AccountSlot,
    program_id: Pubkey,
    a1: AccountSlot,
    o1: AccountSlot,
    r: Result<(), ProgramError>,
)
    requires
        withdraw_post(a0, o0, program_id, a1, o1, r),
        a0.owner_program.bytes@ == program_id.bytes@,
        !o0.is_signer,
    ensures
        r == Err::<(), ProgramError>(ProgramError::MissingRequiredSignature),
        slot_unchanged(a0, a1),
        slot_unchanged(o0, o1),
{
}

} // verus!

use vstd::prelude::*;

verus! {

/// The failure kinds an invocation can end with.  Every check in the
/// handlers returns one of these immediately on its first failure; the
/// hosting runtime then discards all effects of the invocation as a whole.
#[derive(Clone, Copy, Debug, PartialEq, Eq)]
pub enum ProgramError {
    /// The required authorizer did not sign the call.
    MissingRequiredSignature,
    /// An account is owned by, or a reference points to, the wrong program.
    IncorrectProgramId,
    /// The slot's funding is below the minimum required for its byte size.
    AccountNotRentExempt,
    /// The stored record's owner does not match the signing owner.
    InvalidAccountData,
    /// The instruction payload did not decode into a known instruction.
    InvalidInstructionData,
    /// The caller supplied fewer accounts than the instruction needs.
    NotEnoughAccountKeys,
    /// The account's byte storage does not hold a record of the right size.
    BorshIoError,
}

} // verus!

use vstd::prelude::*;

use crate::codec::{lemma_u64_le_round_trip, push_u64_le, read_u64_le, spec_le_u64, spec_u64_le};
use crate::error::ProgramError;
use crate::instruction::{
    deposit, deposit_post, drop_step, initialize_account, initialize_post, slot_unchanged,
    withdraw, withdraw_post, AccountSlot, InitializeStep,
};
use crate::state::Pubkey;

verus! {

/// The three operations the program accepts.  The `args` field is part of
/// the wire contract on every variant but is never consulted by a handler.
#[derive(Clone, Copy, Debug, PartialEq, Eq)]
pub enum ProgramInstruction {
    Initialize { args: u64 },
    Deposit { amount: u64, args: u64 },
    Withdraw { args: u64 },
}

/// The canonical tagged encoding of an instruction: a one-byte tag (0 for
/// initialize, 1 for deposit, 2 for withdraw) followed by each field as
/// eight little-endian bytes.
pub open spec fn spec_instruction_bytes(i: ProgramInstruction) -> Seq<u8> {
    match i {
        ProgramInstruction::Initialize { args } => seq![0u8] + spec_u64_le(args),
        ProgramInstruction::Deposit { amount, args } => seq![1u8] + spec_u64_le(amount)
            + spec_u64_le(args),
        ProgramInstruction::Withdraw { args } => seq![2u8] + spec_u64_le(args),
    }
}

/// The instruction a byte buffer holds, if any: the buffer must consist of
/// a known tag and exactly the fields of that variant.
pub open spec fn spec_parse_instruction(b: Seq<u8>) -> Option<ProgramInstruction> {
    if b.len() == 9 && b[0] == 0u8 {
        Some(ProgramInstruction::Initialize { args: spec_le_u64(b.subrange(1, 9)) })
    } else if b.len() == 17 && b[0] == 1u8 {
        Some(
            ProgramInstruction::Deposit {
                amount: spec_le_u64(b.subrange(1, 9)),
                args: spec_le_u64(b.subrange(9, 17)),
            },
        )
    } else if b.len() == 9 && b[0] == 2u8 {
        Some(ProgramInstruction::Withdraw { args: spec_le_u64(b.subrange(1, 9)) })
    } else {
        None
    }
}

impl ProgramInstruction {
    /// Serializes the instruction into its tagged wire encoding.
    pub fn encode(&self) -> (r: Vec<u8>)
        ensures
            r@ == spec_instruction_bytes(*self),
    {
        let mut out: Vec<u8> = Vec::new();
        match self {
            ProgramInstruction::Initialize { args } => {
                out.push(0);
                push_u64_le(&mut out, *args);
                proof {
                    assert(out@ =~= seq![0u8] + spec_u64_le(*args));
                }
            },
            ProgramInstruction::Deposit { amount, args } => {
                out.push(1);
                push_u64_le(&mut out, *amount);
                push_u64_le(&mut out, *args);
                proof {
                    assert(out@ =~= seq![1u8] + spec_u64_le(*amount) + spec_u64_le(*args));
                }
            },
            ProgramInstruction::Withdraw { args } => {
                out.push(2);
                push_u64_le(&mut out, *args);
                proof {
                    assert(out@ =~= seq![2u8] + spec_u64_le(*args));
                }
            },
        }
        out
    }

    /// Parses an instruction from the raw payload; a buffer that matches no
    /// known tag and layout is rejected as invalid instruction data.
    pub fn decode(input: &[u8]) -> (r: Result<ProgramInstruction, ProgramError>)
        ensures
            match spec_parse_instruction(input@) {
                Some(i) => r == Ok::<ProgramInstruction, ProgramError>(i),
                None => r == Err::<ProgramInstruction, ProgramError>(
                    ProgramError::InvalidInstructionData,
                ),
            },
    {
        if input.len() == 9 && input[0] == 0 {
            Ok(ProgramInstruction::Initialize { args: read_u64_le(input, 1) })
        } else if input.len() == 17 && input[0] == 1 {
            Ok(
                ProgramInstruction::Deposit {
                    amount: read_u64_le(input, 1),
                    args: read_u64_le(input, 9),
                },
            )
        } else if input.len() == 9 && input[0] == 2 {
            Ok(ProgramInstruction::Withdraw { args: read_u64_le(input, 1) })
        } else {
            Err(ProgramError::InvalidInstructionData)
        }
    }
}

/// Law: an instruction survives a trip through its wire encoding.
pub proof fn lemma_instruction_round_trip(i: ProgramInstruction)
    ensures
        spec_parse_instruction(spec_instruction_bytes(i)) == Some(i),
{
    let b = spec_instruction_bytes(i);
    match i {
        ProgramInstruction::Initialize { args } => {
            assert(b.len() == 9 && b[0] == 0u8);
            assert(b.subrange(1, 9) =~= spec_u64_le(args));
            lemma_u64_le_round_trip(args);
        },
        ProgramInstruction::Deposit { amount, args } => {
            assert(b.len() == 17 && b[0] == 1u8);
            assert(b.subrange(1, 9) =~= spec_u64_le(amount));
            assert(b.subrange(9, 17) =~= spec_u64_le(args));
            lemma_u64_le_round_trip(amount);
            lemma_u64_le_round_trip(args);
        },
        ProgramInstruction::Withdraw { args } => {
            assert(b.len() == 9 && b[0] == 2u8);
            assert(b.subrange(1, 9) =~= spec_u64_le(args));
            lemma_u64_le_round_trip(args);
        },
    }
}

/// Decodes the payload and runs the matching handler on the supplied
/// accounts: the target slot, the signing owner, and — consulted only by
/// initialize — the reference to the system allocation service, whose
/// absence fails exactly as a too-short account list fails.
pub fn process_instruction(
    program_id: &Pubkey,
    account: &mut AccountSlot,
    owner: &mut AccountSlot,
    system_program_key: Option<&Pubkey>,
    input: &[u8],
) -> (r: Result<InitializeStep, ProgramError>)
    ensures
        ({
            let a0 = *old(account);
            let o0 = *old(owner);
            let a1 = *final(account);
            let o1 = *final(owner);
            match spec_parse_instruction(input@) {
                None => r == Err::<InitializeStep, ProgramError>(
                    ProgramError::InvalidInstructionData,
                ) && slot_unchanged(a0, a1) && slot_unchanged(o0, o1),
                Some(ProgramInstruction::Initialize { args }) => match system_program_key {
                    None => r == Err::<InitializeStep, ProgramError>(
                        ProgramError::NotEnoughAccountKeys,
                    ) && slot_unchanged(a0, a1) && slot_unchanged(o0, o1),
                    Some(k) => initialize_post(a0, o0, *k, *program_id, a1, r) && slot_unchanged(
                        o0,
                        o1,
                    ),
                },
                Some(ProgramInstruction::Deposit { amount, args }) => {
                    &&& deposit_post(a0, o0, amount, *program_id, a1, o1, drop_step(r))
                    &&& (r matches Ok(step) ==> step == InitializeStep::Done)
                },
                Some(ProgramInstruction::Withdraw { args }) => {
                    &&& withdraw_post(a0, o0, *program_id, a1, o1, drop_step(r))
                    &&& (r matches Ok(step) ==> step == InitializeStep::Done)
                },
            }
        }),
{
    let instruction = match ProgramInstruction::decode(input) {
        Ok(i) => i,
        Err(e) => {
            return Err(e);
        },
    };
    match instruction {
        ProgramInstruction::Initialize { args: _ } => match system_program_key {
            None => Err(ProgramError::NotEnoughAccountKeys),
            Some(k) => initialize_account(account, owner, k, program_id),
        },
        ProgramInstruction::Deposit { amount, args: _ } => match deposit(
            account,
            owner,
            amount,
            program_id,
        ) {
            Ok(()) => Ok(InitializeStep::Done),
            Err(e) => Err(e),
        },
        ProgramInstruction::Withdraw { args: _ } => match withdraw(account, owner, program_id) {
            Ok(()) => Ok(InitializeStep::Done),
            Err(e) => Err(e),
        },
    }
}

} // verus!

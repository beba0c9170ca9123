use vstd::prelude::*;

use crate::codec::{lemma_u64_le_round_trip, push_u64_le, read_u64_le, spec_le_u64, spec_u64_le};
use crate::error::ProgramError;

verus! {

/// A 32-byte public identity, as the host hands it to the program.
#[derive(Clone, Copy, Debug, PartialEq, Eq)]
pub struct Pubkey {
    pub bytes: [u8; 32],
}

impl Pubkey {
    /// Byte-for-byte comparison of two identities.
    pub fn eq_bytes(&self, other: &Pubkey) -> (r: bool)
        ensures
            r == (self.bytes@ == other.bytes@),
    {
        let mut i: usize = 0;
        while i < 32
            invariant
                i <= 32,
                forall|j: int| 0 <= j < i ==> self.bytes@[j] == other.bytes@[j],
            decreases 32 - i,
        {
            if self.bytes[i] != other.bytes[i] {
                return false;
            }
            i += 1;
        }
        proof {
            assert(self.bytes@ =~= other.bytes@);
        }
        true
    }
}

/// The record one account slot persists: the owner's identity and the
/// application-level balance.
#[derive(Clone, Copy, Debug, PartialEq, Eq)]
pub struct AccountState {
    pub owner: Pubkey,
    pub balance: u64,
}

/// The fixed record layout: the 32 owner bytes, then the balance as eight
/// little-endian bytes.
pub open spec fn spec_state_bytes(owner: Seq<u8>, balance: u64) -> Seq<u8> {
    owner + spec_u64_le(balance)
}

/// The owner identity stored in a 40-byte record.
pub open spec fn spec_state_owner(b: Seq<u8>) -> Seq<u8>
    recommends
        b.len() == 40,
{
    b.subrange(0, 32)
}

/// The balance stored in a 40-byte record.
pub open spec fn spec_state_balance(b: Seq<u8>) -> u64
    recommends
        b.len() == 40,
{
    spec_le_u64(b.subrange(32, 40))
}

impl AccountState {
    /// The record's byte length: a 32-byte owner and an 8-byte balance.
    pub const LEN: usize = 32 + 8;

    /// Serializes the record into its fixed 40-byte layout.
    pub fn encode(&self) -> (r: Vec<u8>)
        ensures
            r@ == spec_state_bytes(self.owner.bytes@, self.balance),
            r@.len() == 40,
    {
        let mut out: Vec<u8> = Vec::new();
        let mut i: usize = 0;
        while i < 32
            invariant
                i <= 32,
                out@ == self.owner.bytes@.subrange(0, i as int),
            decreases 32 - i,
        {
            out.push(self.owner.bytes[i]);
            proof {
                assert(out@ =~= self.owner.bytes@.subrange(0, i + 1));
            }
            i += 1;
        }
        proof {
            assert(out@ =~= self.owner.bytes@);
        }
        push_u64_le(&mut out, self.balance);
        out
    }

    /// Deserializes a record from exactly 40 bytes; any other length is
    /// rejected, as the host's record reader rejects it.
    pub fn decode(data: &[u8]) -> (r: Result<AccountState, ProgramError>)
        ensures
            data@.len() == 40 ==> (r matches Ok(s) && s.owner.bytes@ == spec_state_owner(data@)
                && s.balance == spec_state_balance(data@)),
            data@.len() != 40 ==> r == Err::<AccountState, ProgramError>(
                ProgramError::BorshIoError,
            ),
    {
        if data.len() != 40 {
            return Err(ProgramError::BorshIoError);
        }
        let mut owner: [u8; 32] = [0; 32];
        let mut i: usize = 0;
        while i < 32
            invariant
                i <= 32,
                data@.len() == 40,
                forall|j: int| 0 <= j < i ==> owner@[j] == data@[j],
            decreases 32 - i,
        {
            owner[i] = data[i];
            i += 1;
        }
        proof {
            assert(owner@ =~= spec_state_owner(data@));
        }
        let balance = read_u64_le(data, 32);
        Ok(AccountState { owner: Pubkey { bytes: owner }, balance })
    }
}

/// Reading an owner and a balance back out of the record layout they were
/// written into returns the same pair.
pub proof fn lemma_state_bytes_round_trip(owner: Seq<u8>, balance: u64)
    requires
        owner.len() == 32,
    ensures
        spec_state_owner(spec_state_bytes(owner, balance)) == owner,
        spec_state_balance(spec_state_bytes(owner, balance)) == balance,
{
    let b = spec_state_bytes(owner, balance);
    assert(b.subrange(0, 32) =~= owner);
    assert(b.subrange(32, 40) =~= spec_u64_le(balance));
    lemma_u64_le_round_trip(balance);
}

/// Law: encoding a record and decoding the bytes yields the identical
/// owner and balance pair.
pub proof fn lemma_state_round_trip(s: AccountState)
    ensures
        spec_state_owner(spec_state_bytes(s.owner.bytes@, s.balance)) == s.owner.bytes@,
        spec_state_balance(spec_state_bytes(s.owner.bytes@, s.balance)) == s.balance,
{
    lemma_state_bytes_round_trip(s.owner.bytes@, s.balance);
}

} // verus!

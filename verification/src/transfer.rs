//! A second, small program: it moves lamports from the first account to the
//! second. Its payload is the amount as eight little-endian bytes.

use vstd::prelude::*;
use crate::account::{Account, AccountView};
use crate::bytes::{le_bytes, le_u64, lemma_le_u64_of_le_bytes, read_u64_le, u64_le_bytes};

verus! {

/// Why a transfer was turned down.
#[derive(Clone, Copy, Debug, PartialEq, Eq, Structural)]
pub enum TransferError {
    /// The payload is shorter than eight bytes.
    InvalidInstructionData,
    /// The instruction came with fewer than two accounts.
    NotEnoughAccountKeys,
    /// The source holds less than the amount.
    InsufficientFunds,
}

impl TransferError {
    /// The status under which the ledger reports the rejection: one of the
    /// statuses that it has for every program, a small number times 2^32.
    pub open spec fn status(self) -> u64 {
        match self {
            TransferError::InvalidInstructionData => 0x3_0000_0000,
            TransferError::NotEnoughAccountKeys => 0xb_0000_0000,
            TransferError::InsufficientFunds => 0x6_0000_0000,
        }
    }

    /// The status under which the ledger reports the rejection.
    pub fn code(&self) -> (code: u64)
        ensures
            code == self.status(),
    {
        match self {
            TransferError::InvalidInstructionData => 0x3_0000_0000,
            TransferError::NotEnoughAccountKeys => 0xb_0000_0000,
            TransferError::InsufficientFunds => 0x6_0000_0000,
        }
    }
}

/// The one instruction of the transfer program.
#[derive(Clone, Copy, Debug, PartialEq, Eq, Structural)]
pub struct TransferInstruction {
    /// How many lamports to move.
    pub amount: u64,
}

impl TransferInstruction {
    /// The bytes that stand for the instruction.
    pub open spec fn packed(self) -> Seq<u8> {
        le_bytes(self.amount)
    }

    /// What a payload stands for. Bytes after the eighth are not looked at.
    pub open spec fn unpacked(input: Seq<u8>) -> Result<TransferInstruction, TransferError> {
        if input.len() >= 8 {
            Ok(TransferInstruction { amount: le_u64(input.subrange(0, 8)) })
        } else {
            Err(TransferError::InvalidInstructionData)
        }
    }

    /// Decodes a payload.
    pub fn unpack(input: &[u8]) -> (r: Result<TransferInstruction, TransferError>)
        ensures
            r == Self::unpacked(input@),
    {
        match Self::unpack_amount(input) {
            Ok(amount) => Ok(TransferInstruction { amount }),
            Err(e) => Err(e),
        }
    }

    /// Reads the amount from the first eight bytes.
    pub fn unpack_amount(input: &[u8]) -> (r: Result<u64, TransferError>)
        ensures
            input.len() >= 8 ==> r == Ok::<u64, TransferError>(le_u64(input@.subrange(0, 8))),
            input.len() < 8 ==> r == Err::<u64, TransferError>(
                TransferError::InvalidInstructionData,
            ),
    {
        if input.len() < 8 {
            return Err(TransferError::InvalidInstructionData);
        }
        Ok(read_u64_le(input, 0))
    }

    /// Encodes the instruction: always eight bytes.
    pub fn pack(&self) -> (bytes: Vec<u8>)
        ensures
            bytes@ == self.packed(),
            bytes.len() == 8,
    {
        let field = u64_le_bytes(self.amount);
        let mut bytes: Vec<u8> = Vec::with_capacity(8);
        let mut i: usize = 0;
        while i < 8
            invariant
                i <= 8,
                bytes@ == field@.subrange(0, i as int),
            decreases 8 - i,
        {
            bytes.push(field[i]);
            i += 1;
        }
        bytes
    }

    /// Decoding what `pack` wrote gives the instruction back.
    pub proof fn lemma_unpack_pack(self)
        ensures
            Self::unpacked(self.packed()) == Ok::<TransferInstruction, TransferError>(self),
    {
        lemma_le_u64_of_le_bytes(self.amount);
    }
}

/// Why the transfer program turns an instruction down, if it does: the first
/// check that fails, in this order.
pub open spec fn transfer_rejection(accounts: Seq<Account>, instruction_data: Seq<u8>) -> Option<
    TransferError,
> {
    if instruction_data.len() < 8 {
        Some(TransferError::InvalidInstructionData)
    } else if accounts.len() < 2 {
        Some(TransferError::NotEnoughAccountKeys)
    } else if accounts[0].lamports < le_u64(instruction_data.subrange(0, 8)) {
        Some(TransferError::InsufficientFunds)
    } else {
        None
    }
}

/// Whether `after` is `before` with `amount` moved from the first account to
/// the second.
pub open spec fn lamports_moved(before: Seq<Account>, after: Seq<Account>, amount: u64) -> bool
    recommends
        before.len() >= 2,
{
    &&& after.len() == before.len()
    &&& forall|j: int| 2 <= j < before.len() ==> #[trigger] after[j] == before[j]
    &&& after[0]@ == (AccountView {
        lamports: (before[0].lamports - amount) as u64,
        ..before[0]@
    })
    &&& after[1]@ == (AccountView {
        lamports: (before[1].lamports + amount) as u64,
        ..before[1]@
    })
}

/// Moves the amount in the payload from the first account to the second. The
/// destination has to have room for it. Nothing is changed where the
/// instruction is turned down.
pub fn process_instruction(
    _program_id: &[u8; 32],
    accounts: &mut Vec<Account>,
    instruction_data: &[u8],
) -> (r: Result<(), TransferError>)
    requires
        transfer_rejection(old(accounts)@, instruction_data@) is None ==> old(
            accounts,
        )[1].lamports + le_u64(instruction_data@.subrange(0, 8)) <= u64::MAX,
    ensures
        match transfer_rejection(old(accounts)@, instruction_data@) {
            Some(e) => r == Err::<(), TransferError>(e) && final(accounts)@ == old(accounts)@,
            None => r is Ok && lamports_moved(
                old(accounts)@,
                final(accounts)@,
                le_u64(instruction_data@.subrange(0, 8)),
            ),
        },
{
    let amount = match TransferInstruction::unpack(instruction_data) {
        Ok(instruction) => instruction.amount,
        Err(e) => { return Err(e); },
    };
    if accounts.len() < 2 {
        return Err(TransferError::NotEnoughAccountKeys);
    }
    if accounts[0].lamports < amount {
        return Err(TransferError::InsufficientFunds);
    }
    accounts[0].lamports = accounts[0].lamports - amount;
    accounts[1].lamports = accounts[1].lamports + amount;
    Ok(())
}

} // verus!

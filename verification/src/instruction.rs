//! The two instructions of the escrow program and their wire format: one tag
//! byte, then the amount as eight little-endian bytes.

use vstd::prelude::*;
use vstd::slice::slice_subrange;
use crate::bytes::{
    le_bytes, le_u64, lemma_le_bytes_of_le_u64, lemma_le_u64_of_le_bytes, read_u64_le,
    u64_le_bytes,
};
use crate::error::EscrowError;

verus! {

/// An instruction as the program understands it.
#[derive(Clone, Copy, Debug, PartialEq, Eq, Structural)]
pub enum EscrowInstruction {
    /// Starts the trade: fills the escrow record and hands the temporary token
    /// account over to the custody address.
    ///
    /// Accounts, in order: the initializer (signer); the temporary token
    /// account (writable); the initializer's token account for what they are to
    /// receive; the escrow account (writable); the token program.
    InitEscrow {
        /// What the initializer wants in return.
        amount: u64,
    },
    /// Takes the trade.
    ///
    /// Accounts, in order: the taker (signer); the taker's token account that
    /// pays (writable); the taker's token account that receives (writable); the
    /// custody token account (writable); the initializer's main account
    /// (writable); the initializer's receiving token account (writable); the
    /// escrow account (writable); the token program; the custody address.
    Exchange {
        /// What the taker expects to get out of custody.
        amount: u64,
    },
}

impl EscrowInstruction {
    /// The length of every encoded instruction.
    pub open spec fn packed_len() -> nat {
        9
    }

    /// The tag byte of the instruction.
    pub open spec fn tag(self) -> u8 {
        match self {
            EscrowInstruction::InitEscrow { .. } => 0,
            EscrowInstruction::Exchange { .. } => 1,
        }
    }

    /// The amount that the instruction carries.
    pub open spec fn amount(self) -> u64 {
        match self {
            EscrowInstruction::InitEscrow { amount } => amount,
            EscrowInstruction::Exchange { amount } => amount,
        }
    }

    /// The bytes that stand for the instruction.
    pub open spec fn packed(self) -> Seq<u8> {
        seq![self.tag()] + le_bytes(self.amount())
    }

    /// What a payload stands for. Bytes after the ninth are not looked at.
    pub open spec fn unpacked(input: Seq<u8>) -> Result<EscrowInstruction, EscrowError> {
        if input.len() >= 9 && input[0] == 0 {
            Ok(EscrowInstruction::InitEscrow { amount: le_u64(input.subrange(1, 9)) })
        } else if input.len() >= 9 && input[0] == 1 {
            Ok(EscrowInstruction::Exchange { amount: le_u64(input.subrange(1, 9)) })
        } else {
            Err(EscrowError::InvalidInstruction)
        }
    }

    /// Decodes a payload.
    pub fn unpack(input: &[u8]) -> (r: Result<EscrowInstruction, EscrowError>)
        ensures
            r == Self::unpacked(input@),
            input.len() < 9 || input[0] > 1 ==> r == Err::<EscrowInstruction, EscrowError>(
                EscrowError::InvalidInstruction,
            ),
    {
        if input.len() == 0 {
            return Err(EscrowError::InvalidInstruction);
        }
        let tag = input[0];
        let rest = slice_subrange(input, 1, input.len());
        if tag == 0 {
            match Self::unpack_amount(rest) {
                Ok(amount) => {
                    Ok(EscrowInstruction::InitEscrow { amount })
                },
                Err(e) => Err(e),
            }
        } else if tag == 1 {
            match Self::unpack_amount(rest) {
                Ok(amount) => {
                    Ok(EscrowInstruction::Exchange { amount })
                },
                Err(e) => Err(e),
            }
        } else {
            Err(EscrowError::InvalidInstruction)
        }
    }

    /// Reads the amount from the first eight bytes of what follows the tag.
    pub fn unpack_amount(input: &[u8]) -> (r: Result<u64, EscrowError>)
        ensures
            input.len() >= 8 ==> r == Ok::<u64, EscrowError>(le_u64(input@.subrange(0, 8))),
            input.len() < 8 ==> r == Err::<u64, EscrowError>(EscrowError::InvalidInstruction),
    {
        if input.len() < 8 {
            return Err(EscrowError::InvalidInstruction);
        }
        Ok(read_u64_le(input, 0))
    }

    /// Encodes the instruction: always nine bytes.
    pub fn pack(&self) -> (bytes: Vec<u8>)
        ensures
            bytes@ == self.packed(),
            bytes.len() == 9,
    {
        let (tag, amount): (u8, u64) = match self {
            EscrowInstruction::InitEscrow { amount } => (0, *amount),
            EscrowInstruction::Exchange { amount } => (1, *amount),
        };
        let field = u64_le_bytes(amount);
        let mut bytes: Vec<u8> = Vec::with_capacity(9);
        bytes.push(tag);
        let mut i: usize = 0;
        while i < 8
            invariant
                i <= 8,
                bytes@ == seq![tag] + field@.subrange(0, i as int),
            decreases 8 - i,
        {
            bytes.push(field[i]);
            i += 1;
        }
        bytes
    }

    /// Decoding what `pack` wrote gives the instruction back.
    pub proof fn lemma_unpack_pack(self)
        ensures
            self.packed().len() == 9,
            Self::unpacked(self.packed()) == Ok::<EscrowInstruction, EscrowError>(self),
    {
        lemma_le_u64_of_le_bytes(self.amount());
    }

    /// A payload of nine bytes that decodes is the encoding of what it decodes to.
    pub proof fn lemma_pack_unpack(input: Seq<u8>)
        requires
            input.len() == 9,
            Self::unpacked(input) is Ok,
        ensures
            Self::unpacked(input)->Ok_0.packed() == input,
    {
        lemma_le_bytes_of_le_u64(input.subrange(1, 9));
    }

    /// A payload is rejected exactly when it is shorter than nine bytes or its
    /// tag is neither 0 nor 1.
    pub proof fn lemma_unpack_rejects(input: Seq<u8>)
        ensures
            Self::unpacked(input) is Err <==> input.len() < 9 || input[0] > 1,
            Self::unpacked(input) is Err ==> Self::unpacked(input) == Err::<
                EscrowInstruction,
                EscrowError,
            >(EscrowError::InvalidInstruction),
    {
    }
}

} // verus!

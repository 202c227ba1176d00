//! The reasons for which an instruction is rejected.

use vstd::prelude::*;

verus! {

/// Why an instruction was rejected. Every rejection is a returned value; the
/// first check that fails decides which one.
#[derive(Clone, Copy, Debug, PartialEq, Eq, Structural)]
pub enum EscrowError {
    /// The payload has an unknown tag or is cut short.
    InvalidInstruction,
    /// An account that has to sign the transaction did not.
    MissingRequiredSignature,
    /// An account is not owned by the token program, or the account given as
    /// the token program is another one.
    IncorrectProgramId,
    /// The escrow account holds too little to keep its data.
    NotRentExempt,
    /// The escrow record is already active.
    AccountAlreadyInitialized,
    /// The custody account does not hold the amount that the taker declared.
    ExpectedAmountMismatch,
    /// Stored data cannot be read as what it should be, or the accounts given
    /// are not the ones that the escrow record names.
    InvalidAccountData,
    /// Adding two balances would exceed what a balance can hold.
    AmountOverflow,
    /// The instruction came with fewer accounts than it reads.
    NotEnoughAccountKeys,
    /// Stored data reads as a record that was never activated.
    UninitializedAccount,
    /// No custody address exists for the label and program identity.
    InvalidSeeds,
}

impl EscrowError {
    /// The status under which the ledger reports the rejection to whoever
    /// sent the transaction. `InvalidInstruction`, `NotRentExempt`,
    /// `ExpectedAmountMismatch` and `AmountOverflow` are the program's own, with
    /// the codes 0 to 3; the ledger reports a code as it is, but 0 as 2^32. The
    /// others are statuses that the ledger has for every program: a small
    /// number times 2^32.
    pub open spec fn status(self) -> u64 {
        match self {
            EscrowError::InvalidInstruction => 0x1_0000_0000,
            EscrowError::NotRentExempt => 1,
            EscrowError::ExpectedAmountMismatch => 2,
            EscrowError::AmountOverflow => 3,
            EscrowError::InvalidAccountData => 0x4_0000_0000,
            EscrowError::IncorrectProgramId => 0x7_0000_0000,
            EscrowError::MissingRequiredSignature => 0x8_0000_0000,
            EscrowError::AccountAlreadyInitialized => 0x9_0000_0000,
            EscrowError::UninitializedAccount => 0xa_0000_0000,
            EscrowError::NotEnoughAccountKeys => 0xb_0000_0000,
            EscrowError::InvalidSeeds => 0xe_0000_0000,
        }
    }

    /// The status under which the ledger reports the rejection.
    pub fn code(&self) -> (code: u64)
        ensures
            code == self.status(),
    {
        match self {
            EscrowError::InvalidInstruction => 0x1_0000_0000,
            EscrowError::NotRentExempt => 1,
            EscrowError::ExpectedAmountMismatch => 2,
            EscrowError::AmountOverflow => 3,
            EscrowError::InvalidAccountData => 0x4_0000_0000,
            EscrowError::IncorrectProgramId => 0x7_0000_0000,
            EscrowError::MissingRequiredSignature => 0x8_0000_0000,
            EscrowError::AccountAlreadyInitialized => 0x9_0000_0000,
            EscrowError::UninitializedAccount => 0xa_0000_0000,
            EscrowError::NotEnoughAccountKeys => 0xb_0000_0000,
            EscrowError::InvalidSeeds => 0xe_0000_0000,
        }
    }

    /// No two rejections are reported under one status, and no rejection is
    /// reported as success, which is the status 0.
    pub proof fn lemma_status_tells_apart(a: EscrowError, b: EscrowError)
        ensures
            a.status() == b.status() ==> a == b,
            a.status() != 0,
    {
    }
}

} // verus!

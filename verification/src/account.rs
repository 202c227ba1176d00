//! Ledger accounts, and the invocations of other programs that the processor
//! asks its host for, all as plain values.

use vstd::prelude::*;

verus! {

/// A ledger account as a program sees it while it handles one instruction.
#[derive(Clone, Debug, PartialEq, Eq)]
pub struct Account {
    /// The account's identity.
    pub key: [u8; 32],
    /// Whether the transaction was signed for this account.
    pub is_signer: bool,
    /// Whether the instruction may change the account.
    pub is_writable: bool,
    /// The account's balance.
    pub lamports: u64,
    /// What the account stores.
    pub data: Vec<u8>,
    /// The program that owns the account.
    pub owner: [u8; 32],
}

/// An account as plain values: what the contracts speak of.
pub struct AccountView {
    pub key: Seq<u8>,
    pub is_signer: bool,
    pub is_writable: bool,
    pub lamports: u64,
    pub data: Seq<u8>,
    pub owner: Seq<u8>,
}

impl View for Account {
    type V = AccountView;

    open spec fn view(&self) -> AccountView {
        AccountView {
            key: self.key@,
            is_signer: self.is_signer,
            is_writable: self.is_writable,
            lamports: self.lamports,
            data: self.data@,
            owner: self.owner@,
        }
    }
}

/// The views of a list of accounts, in order.
pub open spec fn account_views(accounts: Seq<Account>) -> Seq<AccountView> {
    Seq::new(accounts.len(), |i: int| accounts[i]@)
}

/// How an instruction for another program refers to one account.
#[derive(Clone, Copy, Debug, PartialEq, Eq)]
pub struct AccountMeta {
    /// The account's identity.
    pub pubkey: [u8; 32],
    /// Whether the instruction needs a signature for the account.
    pub is_signer: bool,
    /// Whether the instruction may change the account.
    pub is_writable: bool,
}

/// An account reference as plain values.
pub struct AccountMetaView {
    pub pubkey: Seq<u8>,
    pub is_signer: bool,
    pub is_writable: bool,
}

impl View for AccountMeta {
    type V = AccountMetaView;

    open spec fn view(&self) -> AccountMetaView {
        AccountMetaView {
            pubkey: self.pubkey@,
            is_signer: self.is_signer,
            is_writable: self.is_writable,
        }
    }
}

impl AccountMeta {
    /// A reference to an account with the flags given.
    pub fn new(pubkey: [u8; 32], is_signer: bool, is_writable: bool) -> (meta: AccountMeta)
        ensures
            meta@ == (AccountMetaView { pubkey: pubkey@, is_signer, is_writable }),
    {
        AccountMeta { pubkey, is_signer, is_writable }
    }
}

/// An instruction for another program.
#[derive(Clone, Debug, PartialEq, Eq)]
pub struct Instruction {
    /// The program that is to run the instruction.
    pub program_id: [u8; 32],
    /// The accounts that the instruction refers to.
    pub accounts: Vec<AccountMeta>,
    /// The instruction's payload.
    pub data: Vec<u8>,
}

/// An instruction as plain values.
pub struct InstructionView {
    pub program_id: Seq<u8>,
    pub accounts: Seq<AccountMetaView>,
    pub data: Seq<u8>,
}

impl View for Instruction {
    type V = InstructionView;

    open spec fn view(&self) -> InstructionView {
        InstructionView {
            program_id: self.program_id@,
            accounts: Seq::new(self.accounts@.len(), |i: int| self.accounts@[i]@),
            data: self.data@,
        }
    }
}

/// A request to the host: run `instruction` with the accounts at the given
/// positions of the current instruction's account list.
#[derive(Clone, Debug, PartialEq, Eq)]
pub struct Invocation {
    /// What is to run.
    pub instruction: Instruction,
    /// The positions, in the account list of the instruction being handled, of
    /// the accounts to hand on.
    pub accounts: Vec<usize>,
    /// `None`: the signatures of the transaction authorise the invocation.
    /// `Some(bump)`: the program itself signs as the custody address, which the
    /// host re-derives from the escrow label and `bump`.
    pub signer_bump: Option<u8>,
}

/// A request to the host as plain values.
pub struct InvocationView {
    pub instruction: InstructionView,
    pub accounts: Seq<usize>,
    pub signer_bump: Option<u8>,
}

impl View for Invocation {
    type V = InvocationView;

    open spec fn view(&self) -> InvocationView {
        InvocationView {
            instruction: self.instruction@,
            accounts: self.accounts@,
            signer_bump: self.signer_bump,
        }
    }
}

/// The views of a list of requests, in order.
pub open spec fn invocation_views(invocations: Seq<Invocation>) -> Seq<InvocationView> {
    Seq::new(invocations.len(), |i: int| invocations[i]@)
}

} // verus!

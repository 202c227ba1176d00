//! The processor: it checks the accounts and the payload of an instruction,
//! changes the escrow record, and says which invocations of the token program
//! the host has to perform.

use vstd::prelude::*;
use vstd::slice::slice_to_vec;
use crate::account::{
    account_views, invocation_views, Account, AccountView, Invocation, InvocationView,
};
use crate::bytes::same_key;
use crate::error::EscrowError;
use crate::instruction::EscrowInstruction;
use crate::ledger::{
    close_account, close_account_instruction, derived_view, find_program_address, program_address,
    rent_exempt_minimum, rent_is_exempt, set_account_owner, set_account_owner_instruction,
    token_account_amount, token_account_balance, token_program_id, token_program_key, transfer,
    transfer_instruction, MAX_ACCOUNT_DATA_LEN,
};
use crate::state::{Escrow, EscrowView};

verus! {

/// The label from which the custody address is derived: the bytes of the
/// word "escrow".
pub open spec fn escrow_label() -> Seq<u8> {
    seq![101u8, 115, 99, 114, 111, 119]
}

/// The record that `init` stores: active, naming the first three accounts.
pub open spec fn init_record(accounts: Seq<AccountView>, amount: u64) -> EscrowView
    recommends
        accounts.len() >= 3,
{
    EscrowView {
        is_initialized: true,
        initializer_pubkey: accounts[0].key,
        tmp_token_account_pubkey: accounts[1].key,
        initializer_token_to_receive_account_pubkey: accounts[2].key,
        expected_amount: amount,
    }
}

/// Why `init` rejects the accounts, if it does: the first check that fails,
/// in this order. The record is read leniently, so that blank storage is no
/// error.
pub open spec fn init_rejection(
    accounts: Seq<AccountView>,
    custody: Option<(Seq<u8>, u8)>,
) -> Option<EscrowError> {
    if accounts.len() < 1 {
        Some(EscrowError::NotEnoughAccountKeys)
    } else if !accounts[0].is_signer {
        Some(EscrowError::MissingRequiredSignature)
    } else if accounts.len() < 3 {
        Some(EscrowError::NotEnoughAccountKeys)
    } else if accounts[2].owner != token_program_key() {
        Some(EscrowError::IncorrectProgramId)
    } else if accounts.len() < 4 {
        Some(EscrowError::NotEnoughAccountKeys)
    } else if accounts[3].lamports < rent_exempt_minimum(accounts[3].data.len()) {
        Some(EscrowError::NotRentExempt)
    } else if EscrowView::unpacked_unchecked(accounts[3].data) is Err {
        Some(EscrowView::unpacked_unchecked(accounts[3].data)->Err_0)
    } else if EscrowView::unpacked_unchecked(accounts[3].data)->Ok_0.is_initialized {
        Some(EscrowError::AccountAlreadyInitialized)
    } else if custody is None {
        Some(EscrowError::InvalidSeeds)
    } else if accounts.len() < 5 {
        Some(EscrowError::NotEnoughAccountKeys)
    } else if accounts[4].key != token_program_key() {
        Some(EscrowError::IncorrectProgramId)
    } else {
        None
    }
}

/// What `init` asks of the host: the token program makes the custody address
/// the owner of the temporary token account, on the initializer's signature.
pub open spec fn init_invocation(accounts: Seq<AccountView>, custody: Seq<u8>) -> InvocationView
    recommends
        accounts.len() >= 5,
{
    InvocationView {
        instruction: set_account_owner_instruction(
            accounts[4].key,
            accounts[1].key,
            custody,
            accounts[0].key,
        ),
        accounts: seq![1usize, 0usize, 4usize],
        signer_bump: None,
    }
}

/// Whether `after` is `before` with new data in the account at `at`, and
/// nothing else changed.
pub open spec fn data_stored(
    before: Seq<Account>,
    after: Seq<Account>,
    at: int,
    data: Seq<u8>,
) -> bool
    recommends
        0 <= at < before.len(),
{
    &&& after.len() == before.len()
    &&& forall|j: int| 0 <= j < before.len() && j != at ==> #[trigger] after[j] == before[j]
    &&& after[at]@ == (AccountView { data, ..before[at]@ })
}

/// Whether the accounts pass every check that `init` makes before it looks at
/// the record: the initializer signed, the receiving account belongs to the
/// token program, the escrow account is exempt from rent.
pub open spec fn init_reaches_record(accounts: Seq<AccountView>) -> bool {
    &&& accounts.len() >= 4
    &&& accounts[0].is_signer
    &&& accounts[2].owner == token_program_key()
    &&& accounts[3].lamports >= rent_exempt_minimum(accounts[3].data.len())
}

/// Whether `r` and `after` are what `init` makes of `before`: the first
/// rejection and no change, or else the invocation and the stored record.
pub open spec fn init_outcome(
    before: Seq<Account>,
    after: Seq<Account>,
    amount: u64,
    custody: Option<(Seq<u8>, u8)>,
    r: Result<Invocation, EscrowError>,
) -> bool {
    match init_rejection(account_views(before), custody) {
        Some(e) => r == Err::<Invocation, EscrowError>(e) && after == before,
        None => {
            &&& r is Ok
            &&& r->Ok_0@ == init_invocation(account_views(before), custody->Some_0.0)
            &&& data_stored(before, after, 3, init_record(account_views(before), amount).packed())
        },
    }
}

/// What the token program's account format makes of the fourth account, the
/// one in custody.
pub open spec fn custody_balance(accounts: Seq<AccountView>) -> Result<u64, EscrowError> {
    if accounts.len() >= 4 {
        token_account_balance(accounts[3].data)
    } else {
        Err(EscrowError::NotEnoughAccountKeys)
    }
}

/// Why `exchange` rejects the accounts, if it does: the first check that
/// fails, in this order. `balance` is what was read from the custody account.
pub open spec fn exchange_rejection(
    accounts: Seq<AccountView>,
    amount: u64,
    balance: Result<u64, EscrowError>,
    custody: Option<(Seq<u8>, u8)>,
) -> Option<EscrowError> {
    if accounts.len() < 1 {
        Some(EscrowError::NotEnoughAccountKeys)
    } else if !accounts[0].is_signer {
        Some(EscrowError::MissingRequiredSignature)
    } else if accounts.len() < 4 {
        Some(EscrowError::NotEnoughAccountKeys)
    } else if balance is Err {
        Some(balance->Err_0)
    } else if balance->Ok_0 != amount {
        Some(EscrowError::ExpectedAmountMismatch)
    } else if custody is None {
        Some(EscrowError::InvalidSeeds)
    } else if accounts.len() < 7 {
        Some(EscrowError::NotEnoughAccountKeys)
    } else if EscrowView::unpacked(accounts[6].data) is Err {
        Some(EscrowView::unpacked(accounts[6].data)->Err_0)
    } else if !record_names(EscrowView::unpacked(accounts[6].data)->Ok_0, accounts) {
        Some(EscrowError::InvalidAccountData)
    } else if accounts.len() < 9 {
        Some(EscrowError::NotEnoughAccountKeys)
    } else if accounts[7].key != token_program_key() {
        Some(EscrowError::IncorrectProgramId)
    } else {
        None
    }
}

/// Whether the accounts pass every check that `exchange` makes before it
/// compares them with the record: the taker signed, custody holds what the
/// taker declared, a custody address exists, and the escrow account stores an
/// active record.
pub open spec fn exchange_reaches_record(
    accounts: Seq<AccountView>,
    amount: u64,
    balance: Result<u64, EscrowError>,
    custody: Option<(Seq<u8>, u8)>,
) -> bool {
    &&& accounts.len() >= 7
    &&& accounts[0].is_signer
    &&& balance == Ok::<u64, EscrowError>(amount)
    &&& custody is Some
    &&& EscrowView::unpacked(accounts[6].data) is Ok
}

/// Whether the record names the custody account, the initializer and the
/// initializer's receiving account that came with the instruction.
pub open spec fn record_names(record: EscrowView, accounts: Seq<AccountView>) -> bool
    recommends
        accounts.len() >= 6,
{
    &&& record.tmp_token_account_pubkey == accounts[3].key
    &&& record.initializer_pubkey == accounts[4].key
    &&& record.initializer_token_to_receive_account_pubkey == accounts[5].key
}

/// What `exchange` asks of the host, in this order: the taker pays the
/// initializer what the record asks for, on the taker's signature; custody
/// pays out all it holds to the taker; the custody account is closed in favour
/// of the initializer. The program signs the last two as the custody address.
pub open spec fn exchange_invocations(
    accounts: Seq<AccountView>,
    balance: u64,
    custody: (Seq<u8>, u8),
) -> Seq<InvocationView>
    recommends
        accounts.len() >= 9,
{
    seq![
        InvocationView {
            instruction: transfer_instruction(
                accounts[7].key,
                accounts[1].key,
                accounts[5].key,
                accounts[0].key,
                EscrowView::unpacked(accounts[6].data)->Ok_0.expected_amount,
            ),
            accounts: seq![1usize, 5usize, 0usize, 7usize],
            signer_bump: None,
        },
        InvocationView {
            instruction: transfer_instruction(
                accounts[7].key,
                accounts[3].key,
                accounts[2].key,
                custody.0,
                balance,
            ),
            accounts: seq![3usize, 2usize, 8usize, 7usize],
            signer_bump: Some(custody.1),
        },
        InvocationView {
            instruction: close_account_instruction(
                accounts[7].key,
                accounts[3].key,
                accounts[4].key,
                custody.0,
            ),
            accounts: seq![3usize, 4usize, 8usize, 7usize],
            signer_bump: Some(custody.1),
        },
    ]
}

/// Whether `r` is what `exchange` makes of the accounts: the first rejection,
/// or else the three invocations.
pub open spec fn exchange_outcome(
    accounts: Seq<Account>,
    amount: u64,
    balance: Result<u64, EscrowError>,
    custody: Option<(Seq<u8>, u8)>,
    r: Result<Vec<Invocation>, EscrowError>,
) -> bool {
    match exchange_rejection(account_views(accounts), amount, balance, custody) {
        Some(e) => r == Err::<Vec<Invocation>, EscrowError>(e),
        None => r is Ok && invocation_views(r->Ok_0@) == exchange_invocations(
            account_views(accounts),
            balance->Ok_0,
            custody->Some_0,
        ),
    }
}

/// Why `close_escrow` rejects the accounts, if it does.
pub open spec fn close_rejection(accounts: Seq<AccountView>) -> Option<EscrowError> {
    if accounts.len() < 7 {
        Some(EscrowError::NotEnoughAccountKeys)
    } else if accounts[4].lamports + accounts[6].lamports > u64::MAX {
        Some(EscrowError::AmountOverflow)
    } else {
        None
    }
}

/// Whether `after` is `before` with the escrow account reclaimed: its whole
/// balance has gone to the initializer's main account, and it stores nothing.
pub open spec fn escrow_closed(before: Seq<Account>, after: Seq<Account>) -> bool
    recommends
        before.len() >= 7,
{
    &&& after.len() == before.len()
    &&& forall|j: int|
        0 <= j < before.len() && j != 4 && j != 6 ==> #[trigger] after[j] == before[j]
    &&& after[4]@ == (AccountView {
        lamports: (before[4].lamports + before[6].lamports) as u64,
        ..before[4]@
    })
    &&& after[6]@ == (AccountView { lamports: 0, data: Seq::empty(), ..before[6]@ })
}

/// Whether `r` and `after` are what `close_escrow` makes of `before`.
pub open spec fn close_outcome(
    before: Seq<Account>,
    after: Seq<Account>,
    r: Result<(), EscrowError>,
) -> bool {
    match close_rejection(account_views(before)) {
        Some(e) => r == Err::<(), EscrowError>(e) && after == before,
        None => r is Ok && escrow_closed(before, after),
    }
}

/// What is left to do once an instruction has been accepted.
#[derive(Clone, Debug, PartialEq, Eq)]
pub struct Plan {
    /// The invocations that the host performs, in this order. Where one of
    /// them fails, the instruction fails with it.
    pub invocations: Vec<Invocation>,
    /// Whether the escrow account is reclaimed, by `Processor::close_escrow`,
    /// once the last invocation has succeeded.
    pub closes_escrow: bool,
}

/// Whether `r` and `after` are what `process` makes of the payload and of
/// `before`, with the custody address `custody`.
pub open spec fn process_outcome(
    before: Seq<Account>,
    after: Seq<Account>,
    instruction_data: Seq<u8>,
    custody: Option<(Seq<u8>, u8)>,
    r: Result<Plan, EscrowError>,
) -> bool {
    match EscrowInstruction::unpacked(instruction_data) {
        Err(e) => r == Err::<Plan, EscrowError>(e) && after == before,
        Ok(EscrowInstruction::InitEscrow { amount }) => match init_rejection(
            account_views(before),
            custody,
        ) {
            Some(e) => r == Err::<Plan, EscrowError>(e) && after == before,
            None => {
                &&& r is Ok
                &&& !r->Ok_0.closes_escrow
                &&& invocation_views(r->Ok_0.invocations@) == seq![
                    init_invocation(account_views(before), custody->Some_0.0),
                ]
                &&& data_stored(
                    before,
                    after,
                    3,
                    init_record(account_views(before), amount).packed(),
                )
            },
        },
        Ok(EscrowInstruction::Exchange { amount }) => after == before && match exchange_rejection(
            account_views(before),
            amount,
            custody_balance(account_views(before)),
            custody,
        ) {
            Some(e) => r == Err::<Plan, EscrowError>(e),
            None => {
                &&& r is Ok
                &&& r->Ok_0.closes_escrow
                &&& invocation_views(r->Ok_0.invocations@) == exchange_invocations(
                    account_views(before),
                    amount,
                    custody->Some_0,
                )
            },
        },
    }
}

/// The account whose size `process` has to be able to price: the escrow
/// account of an `InitEscrow`.
pub open spec fn priced_account_fits(accounts: Seq<Account>, instruction_data: Seq<u8>) -> bool {
    EscrowInstruction::unpacked(instruction_data) is Ok && EscrowInstruction::unpacked(
        instruction_data,
    )->Ok_0 is InitEscrow && accounts.len() > 3 ==> accounts[3].data.len()
        <= MAX_ACCOUNT_DATA_LEN
}

/// The processor of the escrow program.
pub struct Processor;

impl Processor {
    /// The label from which the custody address is derived.
    pub fn label() -> (label: [u8; 6])
        ensures
            label@ == escrow_label(),
    {
        let label: [u8; 6] = [101, 115, 99, 114, 111, 119];
        label
    }

    /// The custody address of the program `program_id`, with its bump: the
    /// address that the ledger derives from the escrow label and the program's
    /// identity. It has no private key; only the program can sign for it, by
    /// naming the label and the bump. `None` where the ledger derives none.
    pub fn custody_address(program_id: &[u8; 32]) -> (r: Option<([u8; 32], u8)>)
        ensures
            derived_view(r) == program_address(escrow_label(), program_id@),
    {
        let label = Self::label();
        find_program_address(label.as_slice(), program_id)
    }

    /// Handles one instruction: decodes the payload and hands the accounts to
    /// the handler of that instruction. Nothing is changed unless the
    /// instruction is accepted.
    pub fn process(
        program_id: &[u8; 32],
        accounts: &mut Vec<Account>,
        instruction_data: &[u8],
    ) -> (r: Result<Plan, EscrowError>)
        requires
            priced_account_fits(old(accounts)@, instruction_data@),
        ensures
            process_outcome(
                old(accounts)@,
                final(accounts)@,
                instruction_data@,
                program_address(escrow_label(), program_id@),
                r,
            ),
    {
        let instruction = match EscrowInstruction::unpack(instruction_data) {
            Ok(instruction) => instruction,
            Err(e) => { return Err(e); },
        };
        match instruction {
            EscrowInstruction::InitEscrow { amount } => {
                match Self::process_init_escrow(program_id, accounts, amount) {
                    Ok(invocation) => {
                        let mut invocations: Vec<Invocation> = Vec::with_capacity(1);
                        invocations.push(invocation);
                        assert(invocation_views(invocations@) =~= seq![invocation@]);
                        Ok(Plan { invocations, closes_escrow: false })
                    },
                    Err(e) => Err(e),
                }
            },
            EscrowInstruction::Exchange { amount } => {
                match Self::process_exchange(program_id, accounts, amount) {
                    Ok(invocations) => Ok(Plan { invocations, closes_escrow: true }),
                    Err(e) => Err(e),
                }
            },
        }
    }

    /// Opens a trade for the program `program_id`: derives the custody address
    /// and hands on to `init`.
    pub fn process_init_escrow(
        program_id: &[u8; 32],
        accounts: &mut Vec<Account>,
        amount: u64,
    ) -> (r: Result<Invocation, EscrowError>)
        requires
            old(accounts).len() > 3 ==> old(accounts)[3].data.len() <= MAX_ACCOUNT_DATA_LEN,
        ensures
            init_outcome(
                old(accounts)@,
                final(accounts)@,
                amount,
                program_address(escrow_label(), program_id@),
                r,
            ),
    {
        let custody = Self::custody_address(program_id);
        Self::init(accounts, amount, custody)
    }

    /// Opens a trade, given the custody address that was derived for the
    /// program.
    ///
    /// The initializer has to have signed, the receiving account has to belong
    /// to the token program, the escrow account has to be exempt from rent and
    /// to hold 105 bytes that are no active record. The record is then stored,
    /// and the host is asked to hand the temporary token account over to the
    /// custody address. Nothing is changed unless every check passes.
    pub fn init(
        accounts: &mut Vec<Account>,
        amount: u64,
        custody: Option<([u8; 32], u8)>,
    ) -> (r: Result<Invocation, EscrowError>)
        requires
            old(accounts).len() > 3 ==> old(accounts)[3].data.len() <= MAX_ACCOUNT_DATA_LEN,
        ensures
            init_outcome(old(accounts)@, final(accounts)@, amount, derived_view(custody), r),
            old(accounts).len() >= 1 && !old(accounts)[0].is_signer ==> r == Err::<
                Invocation,
                EscrowError,
            >(EscrowError::MissingRequiredSignature),
            init_reaches_record(account_views(old(accounts)@)) && EscrowView::unpacked(
                old(accounts)[3].data@,
            ) is Ok ==> r == Err::<Invocation, EscrowError>(
                EscrowError::AccountAlreadyInitialized,
            ),
    {
        if accounts.len() < 1 {
            return Err(EscrowError::NotEnoughAccountKeys);
        }
        if !accounts[0].is_signer {
            return Err(EscrowError::MissingRequiredSignature);
        }
        if accounts.len() < 3 {
            return Err(EscrowError::NotEnoughAccountKeys);
        }
        let token_program_id = token_program_id();
        if !same_key(&accounts[2].owner, &token_program_id) {
            return Err(EscrowError::IncorrectProgramId);
        }
        if accounts.len() < 4 {
            return Err(EscrowError::NotEnoughAccountKeys);
        }
        if !rent_is_exempt(accounts[3].lamports, accounts[3].data.len()) {
            return Err(EscrowError::NotRentExempt);
        }
        let mut escrow_state = match Escrow::unpack_unchecked(accounts[3].data.as_slice()) {
            Ok(escrow) => escrow,
            Err(e) => { return Err(e); },
        };
        if escrow_state.is_initialized() {
            return Err(EscrowError::AccountAlreadyInitialized);
        }
        escrow_state.is_initialized = true;
        escrow_state.initializer_pubkey = accounts[0].key;
        escrow_state.tmp_token_account_pubkey = accounts[1].key;
        escrow_state.initializer_token_to_receive_account_pubkey = accounts[2].key;
        escrow_state.expected_amount = amount;

        let pda = match custody {
            Some(found) => found.0,
            None => { return Err(EscrowError::InvalidSeeds); },
        };
        if accounts.len() < 5 {
            return Err(EscrowError::NotEnoughAccountKeys);
        }
        let owner_change_ix = match set_account_owner(
            &accounts[4].key,
            &accounts[1].key,
            &pda,
            &accounts[0].key,
        ) {
            Some(instruction) => instruction,
            None => { return Err(EscrowError::IncorrectProgramId); },
        };

        escrow_state.pack_into_slice(accounts[3].data.as_mut_slice());
        let handed_on: [usize; 3] = [1, 0, 4];
        Ok(
            Invocation {
                instruction: owner_change_ix,
                accounts: slice_to_vec(handed_on.as_slice()),
                signer_bump: None,
            },
        )
    }

    /// Takes a trade for the program `program_id`: reads the balance in
    /// custody, derives the custody address and hands on to `exchange`.
    pub fn process_exchange(
        program_id: &[u8; 32],
        accounts: &Vec<Account>,
        amount: u64,
    ) -> (r: Result<Vec<Invocation>, EscrowError>)
        ensures
            exchange_outcome(
                accounts@,
                amount,
                custody_balance(account_views(accounts@)),
                program_address(escrow_label(), program_id@),
                r,
            ),
    {
        let balance = if accounts.len() >= 4 {
            token_account_amount(accounts[3].data.as_slice())
        } else {
            Err(EscrowError::NotEnoughAccountKeys)
        };
        let custody = Self::custody_address(program_id);
        Self::exchange(accounts, amount, balance, custody)
    }

    /// Takes a trade, given what was read from the custody account and the
    /// custody address that was derived for the program.
    ///
    /// The taker has to have signed, custody has to hold exactly `amount`, and
    /// the escrow account has to store an active record that names the custody
    /// account, the initializer's main account and the initializer's receiving
    /// account that came with the instruction. No account is changed: the
    /// transfers are left to the host, and the escrow account is reclaimed by
    /// `close_escrow` once they are done.
    pub fn exchange(
        accounts: &Vec<Account>,
        amount: u64,
        balance: Result<u64, EscrowError>,
        custody: Option<([u8; 32], u8)>,
    ) -> (r: Result<Vec<Invocation>, EscrowError>)
        ensures
            exchange_outcome(accounts@, amount, balance, derived_view(custody), r),
            accounts.len() >= 4 && accounts[0].is_signer && balance is Ok && balance->Ok_0
                != amount ==> r == Err::<Vec<Invocation>, EscrowError>(
                EscrowError::ExpectedAmountMismatch,
            ),
            exchange_reaches_record(
                account_views(accounts@),
                amount,
                balance,
                derived_view(custody),
            ) && !record_names(
                EscrowView::unpacked(accounts[6].data@)->Ok_0,
                account_views(accounts@),
            ) ==> r == Err::<Vec<Invocation>, EscrowError>(EscrowError::InvalidAccountData),
    {
        if accounts.len() < 1 {
            return Err(EscrowError::NotEnoughAccountKeys);
        }
        if !accounts[0].is_signer {
            return Err(EscrowError::MissingRequiredSignature);
        }
        if accounts.len() < 4 {
            return Err(EscrowError::NotEnoughAccountKeys);
        }
        let held = match balance {
            Ok(held) => held,
            Err(e) => { return Err(e); },
        };
        if amount != held {
            return Err(EscrowError::ExpectedAmountMismatch);
        }
        let (pda, bump_seed) = match custody {
            Some(found) => found,
            None => { return Err(EscrowError::InvalidSeeds); },
        };
        if accounts.len() < 7 {
            return Err(EscrowError::NotEnoughAccountKeys);
        }
        let escrow_info = match Escrow::unpack(accounts[6].data.as_slice()) {
            Ok(escrow) => escrow,
            Err(e) => { return Err(e); },
        };
        if !same_key(&escrow_info.tmp_token_account_pubkey, &accounts[3].key) {
            return Err(EscrowError::InvalidAccountData);
        }
        if !same_key(&escrow_info.initializer_pubkey, &accounts[4].key) {
            return Err(EscrowError::InvalidAccountData);
        }
        if !same_key(
            &escrow_info.initializer_token_to_receive_account_pubkey,
            &accounts[5].key,
        ) {
            return Err(EscrowError::InvalidAccountData);
        }
        if accounts.len() < 9 {
            return Err(EscrowError::NotEnoughAccountKeys);
        }
        let token_program = &accounts[7].key;

        let transfer_to_initializer_ix = match transfer(
            token_program,
            &accounts[1].key,
            &accounts[5].key,
            &accounts[0].key,
            escrow_info.expected_amount,
        ) {
            Some(instruction) => instruction,
            None => { return Err(EscrowError::IncorrectProgramId); },
        };
        let transfer_to_taker_ix = match transfer(
            token_program,
            &accounts[3].key,
            &accounts[2].key,
            &pda,
            held,
        ) {
            Some(instruction) => instruction,
            None => { return Err(EscrowError::IncorrectProgramId); },
        };
        let close_pdas_tmp_acc_ix = match close_account(
            token_program,
            &accounts[3].key,
            &accounts[4].key,
            &pda,
        ) {
            Some(instruction) => instruction,
            None => { return Err(EscrowError::IncorrectProgramId); },
        };

        let payment: [usize; 4] = [1, 5, 0, 7];
        let release: [usize; 4] = [3, 2, 8, 7];
        let closing: [usize; 4] = [3, 4, 8, 7];
        let mut invocations: Vec<Invocation> = Vec::with_capacity(3);
        invocations.push(
            Invocation {
                instruction: transfer_to_initializer_ix,
                accounts: slice_to_vec(payment.as_slice()),
                signer_bump: None,
            },
        );
        invocations.push(
            Invocation {
                instruction: transfer_to_taker_ix,
                accounts: slice_to_vec(release.as_slice()),
                signer_bump: Some(bump_seed),
            },
        );
        invocations.push(
            Invocation {
                instruction: close_pdas_tmp_acc_ix,
                accounts: slice_to_vec(closing.as_slice()),
                signer_bump: Some(bump_seed),
            },
        );
        assert(invocation_views(invocations@) =~= exchange_invocations(
            account_views(accounts@),
            held,
            derived_view(custody)->Some_0,
        ));
        Ok(invocations)
    }

    /// Reclaims the escrow account after the invocations of an exchange: its
    /// whole balance goes to the initializer's main account, and its data is
    /// dropped. Nothing is changed where the sum does not fit.
    pub fn close_escrow(accounts: &mut Vec<Account>) -> (r: Result<(), EscrowError>)
        ensures
            close_outcome(old(accounts)@, final(accounts)@, r),
    {
        if accounts.len() < 7 {
            return Err(EscrowError::NotEnoughAccountKeys);
        }
        let sum = match accounts[4].lamports.checked_add(accounts[6].lamports) {
            Some(sum) => sum,
            None => { return Err(EscrowError::AmountOverflow); },
        };
        accounts[4].lamports = sum;
        accounts[6].lamports = 0;
        accounts[6].data.clear();
        Ok(())
    }
}

} // verus!

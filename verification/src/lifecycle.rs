//! What holds of every run of the processor: when an instruction is turned
//! down, and the one path that an escrow account takes, from blank storage to
//! an active record to a closed account.

use vstd::prelude::*;
use crate::account::{account_views, Account, AccountView, Invocation};
use crate::error::EscrowError;
use crate::processor::{
    close_outcome, exchange_invocations, exchange_reaches_record, exchange_rejection,
    init_invocation, init_outcome, init_reaches_record, init_record, init_rejection,
};
use crate::state::{lemma_unpack_pack, EscrowView};

verus! {

/// Where an escrow account stands in the life of a trade.
pub enum Stage {
    /// Storage of 105 bytes that holds no active record: a trade can be opened.
    Blank,
    /// An active record: the trade can be taken.
    Active,
    /// No storage for a record: the trade is over.
    Closed,
}

/// The stage that the data of an escrow account shows.
pub open spec fn stage(data: Seq<u8>) -> Stage {
    if data.len() != 105 {
        Stage::Closed
    } else if data[0] == 1 {
        Stage::Active
    } else {
        Stage::Blank
    }
}

/// `init` turns the instruction down with `MissingRequiredSignature` whenever
/// the initializer has not signed.
pub proof fn lemma_init_needs_signature(accounts: Seq<AccountView>, custody: Option<(Seq<u8>, u8)>)
    requires
        accounts.len() >= 1,
        !accounts[0].is_signer,
    ensures
        init_rejection(accounts, custody) == Some(EscrowError::MissingRequiredSignature),
{
}

/// `init` turns the instruction down with `AccountAlreadyInitialized` whenever
/// it gets as far as the record and finds it active.
pub proof fn lemma_init_rejects_active_record(
    accounts: Seq<AccountView>,
    custody: Option<(Seq<u8>, u8)>,
)
    requires
        init_reaches_record(accounts),
        stage(accounts[3].data) == Stage::Active,
    ensures
        init_rejection(accounts, custody) == Some(EscrowError::AccountAlreadyInitialized),
{
}

/// `exchange` turns the instruction down with `ExpectedAmountMismatch`
/// whenever the taker has signed and custody holds another amount than the
/// taker declared.
pub proof fn lemma_exchange_rejects_amount_mismatch(
    accounts: Seq<AccountView>,
    amount: u64,
    held: u64,
    custody: Option<(Seq<u8>, u8)>,
)
    requires
        accounts.len() >= 4,
        accounts[0].is_signer,
        held != amount,
    ensures
        exchange_rejection(accounts, amount, Ok(held), custody) == Some(
            EscrowError::ExpectedAmountMismatch,
        ),
{
}

/// `exchange` turns the instruction down with `InvalidAccountData` whenever
/// it gets as far as the record and one of the three accounts that the record
/// names is not the one that came with the instruction.
pub proof fn lemma_exchange_rejects_other_accounts(
    accounts: Seq<AccountView>,
    amount: u64,
    balance: Result<u64, EscrowError>,
    custody: Option<(Seq<u8>, u8)>,
)
    requires
        exchange_reaches_record(accounts, amount, balance, custody),
        ({
            let record = EscrowView::unpacked(accounts[6].data)->Ok_0;
            ||| record.tmp_token_account_pubkey != accounts[3].key
            ||| record.initializer_pubkey != accounts[4].key
            ||| record.initializer_token_to_receive_account_pubkey != accounts[5].key
        }),
    ensures
        exchange_rejection(accounts, amount, balance, custody) == Some(
            EscrowError::InvalidAccountData,
        ),
{
}

/// The stage decides how the record is read: only an active record is read
/// as one, and it is read the same way strictly and leniently.
pub proof fn lemma_stage_decides_reading(data: Seq<u8>)
    ensures
        stage(data) == Stage::Active <==> EscrowView::unpacked(data) is Ok,
        stage(data) == Stage::Active ==> EscrowView::unpacked(data)
            == EscrowView::unpacked_unchecked(data) && EscrowView::unpacked(
            data,
        )->Ok_0.is_initialized,
        stage(data) == Stage::Blank ==> EscrowView::unpacked_unchecked(data) is Ok
            && !EscrowView::unpacked_unchecked(data)->Ok_0.is_initialized,
        stage(data) == Stage::Closed <==> EscrowView::unpacked_unchecked(data) is Err,
{
}

/// Blank to active, and no other way: `init` goes through only on a blank
/// escrow account and leaves it active, storing the record of the trade. Where
/// it is turned down, nothing has changed. A further `init` on the same
/// accounts is turned down with `AccountAlreadyInitialized`, whatever it asks
/// for.
pub proof fn lemma_init_once(
    before: Seq<Account>,
    after: Seq<Account>,
    amount: u64,
    custody: Option<(Seq<u8>, u8)>,
    r: Result<Invocation, EscrowError>,
    again: Option<(Seq<u8>, u8)>,
)
    requires
        init_outcome(before, after, amount, custody, r),
    ensures
        r is Err ==> after == before,
        r is Ok ==> stage(before[3]@.data) == Stage::Blank,
        r is Ok ==> stage(after[3]@.data) == Stage::Active,
        r is Ok ==> EscrowView::unpacked(after[3]@.data) == Ok::<EscrowView, EscrowError>(
            init_record(account_views(before), amount),
        ),
        r is Ok ==> init_rejection(account_views(after), again) == Some(
            EscrowError::AccountAlreadyInitialized,
        ),
{
    if r is Ok {
        let views = account_views(before);
        let record = init_record(views, amount);
        lemma_unpack_pack(record);
    }
}

/// While a record is active, `init` changes nothing, whatever else holds of
/// the accounts: the identities and the amount of a trade stay as they were
/// stored.
pub proof fn lemma_active_record_is_kept(
    before: Seq<Account>,
    after: Seq<Account>,
    amount: u64,
    custody: Option<(Seq<u8>, u8)>,
    r: Result<Invocation, EscrowError>,
)
    requires
        init_outcome(before, after, amount, custody, r),
        before.len() >= 4,
        stage(before[3]@.data) == Stage::Active,
    ensures
        r is Err,
        after == before,
{
}

/// `exchange` goes through only on an active record that names the accounts
/// given, and only where custody holds the amount declared.
pub proof fn lemma_exchange_needs_active_record(
    accounts: Seq<AccountView>,
    amount: u64,
    balance: Result<u64, EscrowError>,
    custody: Option<(Seq<u8>, u8)>,
)
    requires
        exchange_rejection(accounts, amount, balance, custody) is None,
    ensures
        exchange_reaches_record(accounts, amount, balance, custody),
        stage(accounts[6].data) == Stage::Active,
        EscrowView::unpacked(accounts[6].data)->Ok_0.tmp_token_account_pubkey == accounts[3].key,
        EscrowView::unpacked(accounts[6].data)->Ok_0.initializer_pubkey == accounts[4].key,
        EscrowView::unpacked(accounts[6].data)->Ok_0.initializer_token_to_receive_account_pubkey
            == accounts[5].key,
{
}

/// A closed escrow account takes part in no trade: `exchange` turns down
/// every instruction that names it, with `InvalidAccountData` where it gets as
/// far as the record, and `init` turns down every instruction that names it.
pub proof fn lemma_closed_is_final(
    accounts: Seq<AccountView>,
    amount: u64,
    balance: Result<u64, EscrowError>,
    custody: Option<(Seq<u8>, u8)>,
)
    ensures
        accounts.len() >= 7 && stage(accounts[6].data) == Stage::Closed ==> exchange_rejection(
            accounts,
            amount,
            balance,
            custody,
        ) is Some,
        accounts.len() >= 7 && stage(accounts[6].data) == Stage::Closed && accounts[0].is_signer
            && balance == Ok::<u64, EscrowError>(amount) && custody is Some
            ==> exchange_rejection(accounts, amount, balance, custody) == Some(
            EscrowError::InvalidAccountData,
        ),
        accounts.len() >= 4 && stage(accounts[3].data) == Stage::Closed ==> init_rejection(
            accounts,
            custody,
        ) is Some,
{
}

/// Active to closed, and not back: once `close_escrow` has gone through, the
/// escrow account holds no balance and no data, the initializer's main account
/// has gained what it held, and a second `exchange` on the same accounts is
/// turned down, whatever it declares and whatever custody then holds.
pub proof fn lemma_exchange_once(
    before: Seq<Account>,
    after: Seq<Account>,
    r: Result<(), EscrowError>,
    amount: u64,
    balance: Result<u64, EscrowError>,
    custody: Option<(Seq<u8>, u8)>,
)
    requires
        close_outcome(before, after, r),
    ensures
        r is Err ==> after == before,
        r is Ok ==> after[6]@.lamports == 0,
        r is Ok ==> stage(after[6]@.data) == Stage::Closed,
        r is Ok ==> after[4]@.lamports == before[4]@.lamports + before[6]@.lamports,
        r is Ok ==> exchange_rejection(account_views(after), amount, balance, custody) is Some,
{
    if r is Ok {
        lemma_closed_is_final(account_views(after), amount, balance, custody);
    }
}

/// The address to which `init` hands the temporary token account is the one
/// in whose name `exchange` pays out and closes it, and both invocations that
/// the program signs carry the bump of that address.
pub proof fn lemma_custody_address_agrees(
    opening: Seq<AccountView>,
    taking: Seq<AccountView>,
    balance: u64,
    custody: (Seq<u8>, u8),
)
    requires
        custody.0.len() == 32,
    ensures
        init_invocation(opening, custody.0).instruction.data.subrange(3, 35) == custody.0,
        exchange_invocations(taking, balance, custody)[1].instruction.accounts[3].pubkey
            == custody.0,
        exchange_invocations(taking, balance, custody)[2].instruction.accounts[3].pubkey
            == custody.0,
        exchange_invocations(taking, balance, custody)[1].signer_bump == Some(custody.1),
        exchange_invocations(taking, balance, custody)[2].signer_bump == Some(custody.1),
{
}

} // verus!

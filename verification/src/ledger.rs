//! What the library takes from the ledger's own crates, `solana_program` and
//! `spl_token`. Each function here hands plain values to one of their
//! functions and plain values back. Its contract is taken from that
//! function's source and is not proved.

use vstd::prelude::*;
use solana_program::pubkey::Pubkey;
use solana_program::rent::Rent;
use spl_token::solana_program::program_error::ProgramError;
use spl_token::solana_program::program_pack::Pack;
use crate::account::{AccountMeta, AccountMetaView, Instruction, InstructionView};
use crate::bytes::le_bytes;
use crate::error::EscrowError;

verus! {

/// The longest data that the ledger lets an account hold.
pub const MAX_ACCOUNT_DATA_LEN: usize = 10_485_760;

/// The identity of the token program, byte by byte.
pub open spec fn token_program_key() -> Seq<u8> {
    seq![
        6u8, 221, 246, 225, 215, 101, 161, 147, 217, 203, 225, 70, 206, 235, 121, 172,
        28, 180, 133, 237, 95, 91, 55, 145, 58, 140, 245, 133, 126, 255, 0, 169,
    ]
}

/// The least balance with which an account of `data_len` bytes is exempt from
/// rent under the ledger's default schedule: 6960 per byte, counting 128
/// bytes of overhead.
pub open spec fn rent_exempt_minimum(data_len: nat) -> nat {
    (128 + data_len) * 6960
}

/// The address that the ledger derives from one label and a program's
/// identity, with the bump that completes the label, or `None` where it
/// derives none.
pub uninterp spec fn program_address(label: Seq<u8>, program_id: Seq<u8>) -> Option<(Seq<u8>, u8)>;

/// The balance that the data of a token account records, or the reason for
/// which the token program's account format rejects the data.
pub uninterp spec fn token_account_balance(data: Seq<u8>) -> Result<u64, EscrowError>;

/// A reference to an account, for an instruction.
pub open spec fn meta(pubkey: Seq<u8>, is_signer: bool, is_writable: bool) -> AccountMetaView {
    AccountMetaView { pubkey, is_signer, is_writable }
}

/// The token program's instruction that makes `new_owner` the owner of the
/// token account `account`, by the authority of the present owner.
pub open spec fn set_account_owner_instruction(
    token_program: Seq<u8>,
    account: Seq<u8>,
    new_owner: Seq<u8>,
    authority: Seq<u8>,
) -> InstructionView {
    InstructionView {
        program_id: token_program,
        accounts: seq![
            meta(account, false, true),
            meta(authority, false, false),
            meta(authority, true, false),
        ],
        data: seq![6u8, 2u8, 1u8] + new_owner,
    }
}

/// The token program's instruction that moves `amount` from `source` to
/// `destination`, by the authority of `authority`.
pub open spec fn transfer_instruction(
    token_program: Seq<u8>,
    source: Seq<u8>,
    destination: Seq<u8>,
    authority: Seq<u8>,
    amount: u64,
) -> InstructionView {
    InstructionView {
        program_id: token_program,
        accounts: seq![
            meta(source, false, true),
            meta(destination, false, true),
            meta(authority, false, false),
            meta(authority, true, false),
        ],
        data: seq![3u8] + le_bytes(amount),
    }
}

/// The token program's instruction that closes the token account `account`
/// and sends its balance to `destination`, by the authority of `authority`.
pub open spec fn close_account_instruction(
    token_program: Seq<u8>,
    account: Seq<u8>,
    destination: Seq<u8>,
    authority: Seq<u8>,
) -> InstructionView {
    InstructionView {
        program_id: token_program,
        accounts: seq![
            meta(account, false, true),
            meta(destination, false, true),
            meta(authority, false, false),
            meta(authority, true, false),
        ],
        data: seq![9u8],
    }
}

/// The view of what an instruction builder returned.
pub open spec fn built_view(r: Option<Instruction>) -> Option<InstructionView> {
    match r {
        Some(instruction) => Some(instruction@),
        None => None,
    }
}

/// The view of what a derivation returned.
pub open spec fn derived_view(r: Option<([u8; 32], u8)>) -> Option<(Seq<u8>, u8)> {
    match r {
        Some((address, bump)) => Some((address@, bump)),
        None => None,
    }
}

/// `spl_token::id`: the token program's identity. The contract gives its 32
/// bytes, which are what the identity `TokenkegQfeZyiNwAJbNbGKPFXCWuBvf9Ss623VQ5DA`
/// in that crate decodes to.
#[verifier::external_body]
pub(crate) fn token_program_id() -> (id: [u8; 32])
    ensures
        id@ == token_program_key(),
{
    spl_token::id().to_bytes()
}

/// `Rent::is_exempt` of `solana_program::rent`, on the default schedule
/// (`Rent::default`): whether `lamports` is at least the minimum balance for an
/// account of `data_len` bytes. That minimum is (128 + `data_len`) * 3480,
/// doubled; up to the length admitted here the doubling is exact.
#[verifier::external_body]
pub(crate) fn rent_is_exempt(lamports: u64, data_len: usize) -> (exempt: bool)
    requires
        data_len <= MAX_ACCOUNT_DATA_LEN,
    ensures
        exempt == (lamports >= rent_exempt_minimum(data_len as nat)),
{
    Rent::default().is_exempt(lamports, data_len)
}

/// `Pubkey::try_find_program_address` of `solana_program::pubkey`, with
/// `label` as the only seed: the derived address and its bump. The function
/// computes them from its arguments alone, so the contract names the result.
#[verifier::external_body]
pub(crate) fn find_program_address(label: &[u8], program_id: &[u8; 32]) -> (r: Option<
    ([u8; 32], u8),
>)
    ensures
        derived_view(r) == program_address(label@, program_id@),
{
    Pubkey::try_find_program_address(&[label], &Pubkey::new_from_array(*program_id)).map(
        |found| (found.0.to_bytes(), found.1),
    )
}

/// `Pack::unpack` for `spl_token::state::Account`: the field `amount` of the
/// token account that `data` holds. The source rejects data that is not 165
/// bytes long or holds an invalid field with `InvalidAccountData`, and an
/// account that was never set up with `UninitializedAccount`. What it returns
/// depends on `data` alone, so the contract names the result.
#[verifier::external_body]
pub(crate) fn token_account_amount(data: &[u8]) -> (r: Result<u64, EscrowError>)
    ensures
        r == token_account_balance(data@),
{
    match spl_token::state::Account::unpack(data) {
        Ok(account) => Ok(account.amount),
        Err(ProgramError::UninitializedAccount) => Err(EscrowError::UninitializedAccount),
        Err(_) => Err(EscrowError::InvalidAccountData),
    }
}

/// `spl_token::instruction::set_authority` for the authority type
/// `AccountOwner`, with `authority` as present owner and only signer. The
/// source returns an error exactly when `token_program` is not the token
/// program. Else the instruction names the account (writable), the owner and
/// the owner again as signer, and its data is the tag 6, the authority type 2
/// and the new owner behind a 1.
#[verifier::external_body]
pub(crate) fn set_account_owner(
    token_program: &[u8; 32],
    account: &[u8; 32],
    new_owner: &[u8; 32],
    authority: &[u8; 32],
) -> (r: Option<Instruction>)
    ensures
        r is Some <==> token_program@ == token_program_key(),
        r is Some ==> built_view(r) == Some(
            set_account_owner_instruction(token_program@, account@, new_owner@, authority@),
        ),
{
    let authority = Pubkey::new_from_array(*authority);
    let built = spl_token::instruction::set_authority(
        &Pubkey::new_from_array(*token_program),
        &Pubkey::new_from_array(*account),
        Some(&Pubkey::new_from_array(*new_owner)),
        spl_token::instruction::AuthorityType::AccountOwner,
        &authority,
        &[&authority],
    ).ok()?;
    let accounts = built.accounts.iter().map(
        |m| AccountMeta::new(m.pubkey.to_bytes(), m.is_signer, m.is_writable),
    ).collect();
    Some(Instruction { program_id: built.program_id.to_bytes(), accounts, data: built.data })
}

/// `spl_token::instruction::transfer`, with `authority` as the source's
/// authority and only signer. The source returns an error exactly when
/// `token_program` is not the token program. Else the instruction names the
/// source and the destination (writable), the authority and the authority
/// again as signer, and its data is the tag 3 and the amount, little-endian.
#[verifier::external_body]
pub(crate) fn transfer(
    token_program: &[u8; 32],
    source: &[u8; 32],
    destination: &[u8; 32],
    authority: &[u8; 32],
    amount: u64,
) -> (r: Option<Instruction>)
    ensures
        r is Some <==> token_program@ == token_program_key(),
        r is Some ==> built_view(r) == Some(
            transfer_instruction(token_program@, source@, destination@, authority@, amount),
        ),
{
    let authority = Pubkey::new_from_array(*authority);
    let built = spl_token::instruction::transfer(
        &Pubkey::new_from_array(*token_program),
        &Pubkey::new_from_array(*source),
        &Pubkey::new_from_array(*destination),
        &authority,
        &[&authority],
        amount,
    ).ok()?;
    let accounts = built.accounts.iter().map(
        |m| AccountMeta::new(m.pubkey.to_bytes(), m.is_signer, m.is_writable),
    ).collect();
    Some(Instruction { program_id: built.program_id.to_bytes(), accounts, data: built.data })
}

/// `spl_token::instruction::close_account`, with `authority` as the
/// account's owner and only signer. The source returns an error exactly when
/// `token_program` is not the token program. Else the instruction names the
/// account and the destination (writable), the authority and the authority
/// again as signer, and its data is the tag 9.
#[verifier::external_body]
pub(crate) fn close_account(
    token_program: &[u8; 32],
    account: &[u8; 32],
    destination: &[u8; 32],
    authority: &[u8; 32],
) -> (r: Option<Instruction>)
    ensures
        r is Some <==> token_program@ == token_program_key(),
        r is Some ==> built_view(r) == Some(
            close_account_instruction(token_program@, account@, destination@, authority@),
        ),
{
    let authority = Pubkey::new_from_array(*authority);
    let built = spl_token::instruction::close_account(
        &Pubkey::new_from_array(*token_program),
        &Pubkey::new_from_array(*account),
        &Pubkey::new_from_array(*destination),
        &authority,
        &[&authority],
    ).ok()?;
    let accounts = built.accounts.iter().map(
        |m| AccountMeta::new(m.pubkey.to_bytes(), m.is_signer, m.is_writable),
    ).collect();
    Some(Instruction { program_id: built.program_id.to_bytes(), accounts, data: built.data })
}

} // verus!

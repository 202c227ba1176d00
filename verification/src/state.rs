//! The escrow record and its fixed layout of 105 bytes:
//! `[0:1]` the flag, `[1:33]` the initializer, `[33:65]` the custody account,
//! `[65:97]` the initializer's receiving account, `[97:105]` the expected
//! amount, little-endian.

use vstd::prelude::*;
use crate::bytes::{
    le_bytes, le_u64, lemma_le_bytes_of_le_u64, lemma_le_u64_of_le_bytes, read_key, read_u64_le,
    u64_le_bytes, write_bytes,
};
use crate::error::EscrowError;

verus! {

/// The state of one trade, as it is kept in the escrow account.
#[derive(Clone, Copy, Debug, PartialEq, Eq)]
pub struct Escrow {
    /// Whether the record is in use.
    pub is_initialized: bool,
    /// The party that opened the trade.
    pub initializer_pubkey: [u8; 32],
    /// The token account that holds what the initializer offers. The program
    /// pays the taker from it.
    pub tmp_token_account_pubkey: [u8; 32],
    /// The token account to which the taker's payment goes.
    pub initializer_token_to_receive_account_pubkey: [u8; 32],
    /// What the initializer wants in return.
    pub expected_amount: u64,
}

/// A record as plain values: what the contracts speak of.
pub struct EscrowView {
    pub is_initialized: bool,
    pub initializer_pubkey: Seq<u8>,
    pub tmp_token_account_pubkey: Seq<u8>,
    pub initializer_token_to_receive_account_pubkey: Seq<u8>,
    pub expected_amount: u64,
}

impl View for Escrow {
    type V = EscrowView;

    open spec fn view(&self) -> EscrowView {
        EscrowView {
            is_initialized: self.is_initialized,
            initializer_pubkey: self.initializer_pubkey@,
            tmp_token_account_pubkey: self.tmp_token_account_pubkey@,
            initializer_token_to_receive_account_pubkey: self
                .initializer_token_to_receive_account_pubkey@,
            expected_amount: self.expected_amount,
        }
    }
}

impl EscrowView {
    /// The record that blank storage stands for: not in use, every identity
    /// and the amount zero.
    pub open spec fn blank() -> EscrowView {
        EscrowView {
            is_initialized: false,
            initializer_pubkey: Seq::new(32, |i: int| 0u8),
            tmp_token_account_pubkey: Seq::new(32, |i: int| 0u8),
            initializer_token_to_receive_account_pubkey: Seq::new(32, |i: int| 0u8),
            expected_amount: 0,
        }
    }

    /// Every identity has 32 bytes.
    pub open spec fn wf(self) -> bool {
        &&& self.initializer_pubkey.len() == 32
        &&& self.tmp_token_account_pubkey.len() == 32
        &&& self.initializer_token_to_receive_account_pubkey.len() == 32
    }

    /// The 105 bytes that stand for the record.
    pub open spec fn packed(self) -> Seq<u8> {
        seq![if self.is_initialized { 1u8 } else { 0u8 }] + self.initializer_pubkey
            + self.tmp_token_account_pubkey + self.initializer_token_to_receive_account_pubkey
            + le_bytes(self.expected_amount)
    }

    /// The record whose fields stand at their places in `src`, with the flag given.
    pub open spec fn fields_of(src: Seq<u8>, is_initialized: bool) -> EscrowView {
        EscrowView {
            is_initialized,
            initializer_pubkey: src.subrange(1, 33),
            tmp_token_account_pubkey: src.subrange(33, 65),
            initializer_token_to_receive_account_pubkey: src.subrange(65, 97),
            expected_amount: le_u64(src.subrange(97, 105)),
        }
    }

    /// What the first 105 bytes of `src` stand for when the flag is read
    /// strictly: it has to be 0 or 1.
    pub open spec fn unpacked_from_slice(src: Seq<u8>) -> Result<EscrowView, EscrowError> {
        if src[0] == 0 {
            Ok(Self::fields_of(src, false))
        } else if src[0] == 1 {
            Ok(Self::fields_of(src, true))
        } else {
            Err(EscrowError::InvalidAccountData)
        }
    }

    /// What stored data stands for when the flag is read leniently: any byte
    /// but 1 reads as "not in use", so that blank storage is no error.
    pub open spec fn unpacked_unchecked(input: Seq<u8>) -> Result<EscrowView, EscrowError> {
        if input.len() != 105 {
            Err(EscrowError::InvalidAccountData)
        } else {
            Ok(Self::fields_of(input, input[0] == 1))
        }
    }

    /// What stored data stands for when an active record is expected.
    pub open spec fn unpacked(input: Seq<u8>) -> Result<EscrowView, EscrowError> {
        if input.len() != 105 {
            Err(EscrowError::InvalidAccountData)
        } else if input[0] == 1 {
            Ok(Self::fields_of(input, true))
        } else if input[0] == 0 {
            Err(EscrowError::UninitializedAccount)
        } else {
            Err(EscrowError::InvalidAccountData)
        }
    }
}

/// The view of what a read returned.
pub open spec fn read_view(r: Result<Escrow, EscrowError>) -> Result<EscrowView, EscrowError> {
    match r {
        Ok(escrow) => Ok(escrow@),
        Err(e) => Err(e),
    }
}

impl Default for Escrow {
    /// The blank record, which is stored as 105 zero bytes.
    fn default() -> (escrow: Escrow)
        ensures
            escrow@ == EscrowView::blank(),
            escrow@.packed() == Seq::new(105, |i: int| 0u8),
    {
        let escrow = Escrow {
            is_initialized: false,
            initializer_pubkey: [0u8; 32],
            tmp_token_account_pubkey: [0u8; 32],
            initializer_token_to_receive_account_pubkey: [0u8; 32],
            expected_amount: 0,
        };
        assert(escrow.initializer_pubkey@ =~= Seq::new(32, |i: int| 0u8));
        assert(escrow.tmp_token_account_pubkey@ =~= Seq::new(32, |i: int| 0u8));
        assert(escrow.initializer_token_to_receive_account_pubkey@ =~= Seq::new(
            32,
            |i: int| 0u8,
        ));
        assert(escrow@.packed() =~= Seq::new(105, |i: int| 0u8));
        escrow
    }
}

impl Escrow {
    /// The length of a stored record.
    pub const LEN: usize = 105;

    /// Whether the record is in use.
    pub fn is_initialized(&self) -> (b: bool)
        ensures
            b == self.is_initialized,
    {
        self.is_initialized
    }

    /// Writes the record over the first 105 bytes of `dst`.
    pub fn pack_into_slice(&self, dst: &mut [u8])
        requires
            old(dst).len() >= 105,
        ensures
            final(dst)@ == self@.packed() + old(dst)@.subrange(105, old(dst).len() as int),
    {
        let flag: [u8; 1] = [if self.is_initialized { 1u8 } else { 0u8 }];
        let amount = u64_le_bytes(self.expected_amount);
        write_bytes(dst, 0, flag.as_slice());
        write_bytes(dst, 1, self.initializer_pubkey.as_slice());
        write_bytes(dst, 33, self.tmp_token_account_pubkey.as_slice());
        write_bytes(dst, 65, self.initializer_token_to_receive_account_pubkey.as_slice());
        write_bytes(dst, 97, amount.as_slice());
    }

    /// Reads a record from the first 105 bytes of `src`. The flag byte has to
    /// be 0 or 1.
    pub fn unpack_from_slice(src: &[u8]) -> (r: Result<Escrow, EscrowError>)
        requires
            src.len() >= 105,
        ensures
            read_view(r) == EscrowView::unpacked_from_slice(src@),
    {
        let is_initialized = if src[0] == 0 {
            false
        } else if src[0] == 1 {
            true
        } else {
            return Err(EscrowError::InvalidAccountData);
        };
        Ok(Self::read_fields(src, is_initialized))
    }

    /// Reads the four fields behind the flag.
    fn read_fields(src: &[u8], is_initialized: bool) -> (escrow: Escrow)
        requires
            src.len() >= 105,
        ensures
            escrow@ == EscrowView::fields_of(src@, is_initialized),
    {
        Escrow {
            is_initialized,
            initializer_pubkey: read_key(src, 1),
            tmp_token_account_pubkey: read_key(src, 33),
            initializer_token_to_receive_account_pubkey: read_key(src, 65),
            expected_amount: read_u64_le(src, 97),
        }
    }

    /// Reads stored data that may be blank: the length has to be 105, and any
    /// flag byte but 1 reads as "not in use".
    pub fn unpack_unchecked(input: &[u8]) -> (r: Result<Escrow, EscrowError>)
        ensures
            read_view(r) == EscrowView::unpacked_unchecked(input@),
    {
        if input.len() != 105 {
            return Err(EscrowError::InvalidAccountData);
        }
        Ok(Self::read_fields(input, input[0] == 1))
    }

    /// Reads an active record: the length has to be 105, the flag 0 or 1, and
    /// the record in use.
    pub fn unpack(input: &[u8]) -> (r: Result<Escrow, EscrowError>)
        ensures
            read_view(r) == EscrowView::unpacked(input@),
    {
        if input.len() != 105 {
            return Err(EscrowError::InvalidAccountData);
        }
        match Self::unpack_from_slice(input) {
            Ok(escrow) => {
                if escrow.is_initialized() {
                    Ok(escrow)
                } else {
                    Err(EscrowError::UninitializedAccount)
                }
            },
            Err(e) => Err(e),
        }
    }

    /// Stores the record in `dst`, which has to be 105 bytes long.
    pub fn pack(src: Escrow, dst: &mut [u8]) -> (r: Result<(), EscrowError>)
        ensures
            old(dst).len() == 105 ==> r is Ok && final(dst)@ == src@.packed(),
            old(dst).len() != 105 ==> r == Err::<(), EscrowError>(EscrowError::InvalidAccountData)
                && final(dst)@ == old(dst)@,
    {
        if dst.len() != 105 {
            return Err(EscrowError::InvalidAccountData);
        }
        src.pack_into_slice(dst);
        Ok(())
    }
}

/// A stored record is 105 bytes long, and reading it back gives the record:
/// strictly in any case, leniently too, and as an active record if it is in use.
pub proof fn lemma_unpack_pack(record: EscrowView)
    requires
        record.wf(),
    ensures
        record.packed().len() == 105,
        EscrowView::unpacked_from_slice(record.packed()) == Ok::<EscrowView, EscrowError>(record),
        EscrowView::unpacked_unchecked(record.packed()) == Ok::<EscrowView, EscrowError>(record),
        record.is_initialized ==> EscrowView::unpacked(record.packed()) == Ok::<
            EscrowView,
            EscrowError,
        >(record),
        !record.is_initialized ==> EscrowView::unpacked(record.packed()) == Err::<
            EscrowView,
            EscrowError,
        >(EscrowError::UninitializedAccount),
{
    let p = record.packed();
    lemma_le_u64_of_le_bytes(record.expected_amount);
    assert(p.subrange(1, 33) =~= record.initializer_pubkey);
    assert(p.subrange(33, 65) =~= record.tmp_token_account_pubkey);
    assert(p.subrange(65, 97) =~= record.initializer_token_to_receive_account_pubkey);
    assert(p.subrange(97, 105) =~= le_bytes(record.expected_amount));
}

/// Data of 105 bytes that reads strictly as a record is the packing of that
/// record: no two different byte strings store the same record.
pub proof fn lemma_pack_unpack(src: Seq<u8>)
    requires
        src.len() == 105,
        EscrowView::unpacked_from_slice(src) is Ok,
    ensures
        EscrowView::unpacked_from_slice(src)->Ok_0.packed() == src,
{
    lemma_le_bytes_of_le_u64(src.subrange(97, 105));
}

/// Whatever record the program holds, storing it and reading it back gives
/// the same record.
pub proof fn lemma_stored_record_reads_back(escrow: Escrow)
    ensures
        escrow@.packed().len() == 105,
        EscrowView::unpacked_from_slice(escrow@.packed()) == Ok::<EscrowView, EscrowError>(
            escrow@,
        ),
{
    lemma_unpack_pack(escrow@);
}

} // verus!

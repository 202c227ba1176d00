use escrow::account::Account;
use escrow::transfer::{process_instruction, TransferError, TransferInstruction};
use spl_token::solana_program::program_error::ProgramError;

fn account(key: u8, lamports: u64) -> Account {
    Account {
        key: [key; 32],
        is_signer: false,
        is_writable: true,
        lamports,
        data: Vec::new(),
        owner: [0u8; 32],
    }
}

#[test]
fn transfer_instruction_is_eight_little_endian_bytes() {
    let packed = TransferInstruction { amount: 9 }.pack();
    assert_eq!(packed, vec![9, 0, 0, 0, 0, 0, 0, 0]);
    assert_eq!(TransferInstruction::unpack(&packed), Ok(TransferInstruction { amount: 9 }));
    let packed = TransferInstruction { amount: 0x0102_0304_0506_0708 }.pack();
    assert_eq!(packed, vec![8, 7, 6, 5, 4, 3, 2, 1]);
}

#[test]
fn transfer_instruction_round_trips() {
    for amount in [0u64, 5, 500, 1 << 40, u64::MAX] {
        let instruction = TransferInstruction { amount };
        assert_eq!(instruction.pack(), amount.to_le_bytes().to_vec());
        assert_eq!(TransferInstruction::unpack(&instruction.pack()), Ok(instruction));
    }
}

#[test]
fn transfer_instruction_rejects_short_payloads() {
    for len in 0..8 {
        assert_eq!(
            TransferInstruction::unpack(&[1u8; 8][..len]),
            Err(TransferError::InvalidInstructionData)
        );
    }
    assert_eq!(
        TransferInstruction::unpack(&[1, 0, 0, 0, 0, 0, 0, 0, 77]),
        Ok(TransferInstruction { amount: 1 })
    );
}

#[test]
fn functional_lamport_tx_success() {
    let lamports = 9;
    let mut accounts = vec![account(1, lamports), account(2, 5)];
    let data = TransferInstruction { amount: lamports }.pack();
    assert_eq!(process_instruction(&[7u8; 32], &mut accounts, &data), Ok(()));
    assert_eq!(accounts[0].lamports, 0, "source looses transferred lamports");
    assert_eq!(accounts[1].lamports, 5 + lamports, "destination gains transferred lamports");
}

#[test]
fn lamport_transfer_moves_part_of_the_balance() {
    let mut accounts = vec![account(1, 10), account(2, 5), account(3, 8)];
    let data = TransferInstruction { amount: 5 }.pack();
    assert_eq!(process_instruction(&[7u8; 32], &mut accounts, &data), Ok(()));
    assert_eq!(accounts[0].lamports, 5, "source looses 5 lamports");
    assert_eq!(accounts[1].lamports, 10, "destination gains 5 lamports");
    assert_eq!(accounts[2], account(3, 8));
}

#[test]
fn functional_lamport_tx_not_enough_source_lamports() {
    let lamports = 9;
    let mut accounts = vec![account(1, lamports - 1), account(2, 5)];
    let data = TransferInstruction { amount: lamports }.pack();
    assert_eq!(
        process_instruction(&[7u8; 32], &mut accounts, &data),
        Err(TransferError::InsufficientFunds)
    );
    assert_eq!(accounts, vec![account(1, lamports - 1), account(2, 5)]);
}

#[test]
fn lamport_transfer_needs_two_accounts() {
    let data = TransferInstruction { amount: 1 }.pack();
    let mut none: Vec<Account> = Vec::new();
    assert_eq!(
        process_instruction(&[7u8; 32], &mut none, &data),
        Err(TransferError::NotEnoughAccountKeys)
    );
    let mut one = vec![account(1, 10)];
    assert_eq!(
        process_instruction(&[7u8; 32], &mut one, &data),
        Err(TransferError::NotEnoughAccountKeys)
    );
    assert_eq!(one, vec![account(1, 10)]);
}

#[test]
fn lamport_transfer_reads_the_payload_first() {
    let mut none: Vec<Account> = Vec::new();
    assert_eq!(
        process_instruction(&[7u8; 32], &mut none, &[1, 2, 3]),
        Err(TransferError::InvalidInstructionData)
    );
}

#[test]
fn transfer_rejections_have_the_status_of_the_ledger() {
    assert_eq!(
        TransferError::InvalidInstructionData.code(),
        u64::from(ProgramError::InvalidInstructionData)
    );
    assert_eq!(
        TransferError::NotEnoughAccountKeys.code(),
        u64::from(ProgramError::NotEnoughAccountKeys)
    );
    assert_eq!(
        TransferError::InsufficientFunds.code(),
        u64::from(ProgramError::InsufficientFunds)
    );
    assert_eq!(TransferError::InsufficientFunds.code(), 6 << 32);
}

use escrow::error::EscrowError;
use escrow::instruction::EscrowInstruction;

#[test]
fn unpack_escrow_init() {
    let init_escrow = EscrowInstruction::InitEscrow { amount: 10 };
    let packed = init_escrow.pack();
    let unpacked_escrow = EscrowInstruction::unpack(&packed);
    assert_eq!(unpacked_escrow, Ok(init_escrow));
}

#[test]
fn unpack_escrow_exchange() {
    let exchange = EscrowInstruction::Exchange { amount: 10 };
    let packed = exchange.pack();
    let unpacked_escrow = EscrowInstruction::unpack(&packed);
    assert_eq!(unpacked_escrow, Ok(exchange));
}

#[test]
fn pack_writes_tag_then_little_endian_amount() {
    let init = EscrowInstruction::InitEscrow { amount: 10 };
    assert_eq!(init.pack(), vec![0, 10, 0, 0, 0, 0, 0, 0, 0]);
    let exchange = EscrowInstruction::Exchange { amount: 0x0102_0304_0506_0708 };
    assert_eq!(exchange.pack(), vec![1, 8, 7, 6, 5, 4, 3, 2, 1]);
    let most = EscrowInstruction::Exchange { amount: u64::MAX };
    assert_eq!(most.pack(), vec![1, 255, 255, 255, 255, 255, 255, 255, 255]);
}

#[test]
fn pack_agrees_with_the_standard_library() {
    let amounts =
        [0u64, 1, 255, 256, 65_535, 65_536, 1 << 32, (1 << 56) + 3, u64::MAX - 1, u64::MAX];
    for amount in amounts {
        let packed = EscrowInstruction::InitEscrow { amount }.pack();
        assert_eq!(packed.len(), 9);
        assert_eq!(&packed[1..], &amount.to_le_bytes());
        let mut payload = vec![1u8];
        payload.extend_from_slice(&amount.to_le_bytes());
        assert_eq!(EscrowInstruction::unpack(&payload), Ok(EscrowInstruction::Exchange { amount }));
    }
}

#[test]
fn unpack_round_trips_both_variants() {
    for amount in [0u64, 7, 10, 1_000_000_007, u64::MAX] {
        for instruction in [
            EscrowInstruction::InitEscrow { amount },
            EscrowInstruction::Exchange { amount },
        ] {
            assert_eq!(EscrowInstruction::unpack(&instruction.pack()), Ok(instruction));
        }
    }
}

#[test]
fn unpack_rejects_unknown_tags() {
    for tag in 2u8..=255 {
        let payload = [tag, 10, 0, 0, 0, 0, 0, 0, 0];
        assert_eq!(EscrowInstruction::unpack(&payload), Err(EscrowError::InvalidInstruction));
    }
}

#[test]
fn unpack_rejects_short_payloads() {
    let full = [0u8, 10, 0, 0, 0, 0, 0, 0, 0];
    for len in 0..9 {
        assert_eq!(
            EscrowInstruction::unpack(&full[..len]),
            Err(EscrowError::InvalidInstruction)
        );
    }
    let full = [1u8, 10, 0, 0, 0, 0, 0, 0, 0];
    for len in 0..9 {
        assert_eq!(
            EscrowInstruction::unpack(&full[..len]),
            Err(EscrowError::InvalidInstruction)
        );
    }
}

#[test]
fn unpack_ignores_what_follows_the_amount() {
    let payload = [1u8, 10, 0, 0, 0, 0, 0, 0, 0, 99, 98];
    assert_eq!(
        EscrowInstruction::unpack(&payload),
        Ok(EscrowInstruction::Exchange { amount: 10 })
    );
}

#[test]
fn unpack_amount_reads_eight_bytes() {
    assert_eq!(EscrowInstruction::unpack_amount(&[1, 1, 0, 0, 0, 0, 0, 0]), Ok(257));
    assert_eq!(
        EscrowInstruction::unpack_amount(&[1, 1, 0, 0, 0, 0, 0]),
        Err(EscrowError::InvalidInstruction)
    );
}

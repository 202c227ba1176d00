use escrow::error::EscrowError;
use escrow::state::Escrow;

fn sample() -> Escrow {
    Escrow {
        is_initialized: true,
        initializer_pubkey: [1u8; 32],
        tmp_token_account_pubkey: [2u8; 32],
        initializer_token_to_receive_account_pubkey: [3u8; 32],
        expected_amount: 10,
    }
}

fn sample_bytes() -> Vec<u8> {
    let mut bytes = vec![1u8];
    bytes.extend_from_slice(&[1u8; 32]);
    bytes.extend_from_slice(&[2u8; 32]);
    bytes.extend_from_slice(&[3u8; 32]);
    bytes.extend_from_slice(&[10, 0, 0, 0, 0, 0, 0, 0]);
    bytes
}

#[test]
fn record_is_105_bytes() {
    assert_eq!(Escrow::LEN, 105);
    assert_eq!(sample_bytes().len(), 105);
}

#[test]
fn pack_lays_the_fields_out_at_their_offsets() {
    let mut dst = vec![0xeeu8; 105];
    assert_eq!(Escrow::pack(sample(), &mut dst), Ok(()));
    assert_eq!(dst, sample_bytes());
    assert_eq!(dst[0], 1);
    assert_eq!(&dst[1..33], &[1u8; 32]);
    assert_eq!(&dst[33..65], &[2u8; 32]);
    assert_eq!(&dst[65..97], &[3u8; 32]);
    assert_eq!(&dst[97..105], &10u64.to_le_bytes());
}

#[test]
fn pack_rejects_a_buffer_of_another_length() {
    let mut short = vec![7u8; 104];
    assert_eq!(Escrow::pack(sample(), &mut short), Err(EscrowError::InvalidAccountData));
    assert_eq!(short, vec![7u8; 104]);
    let mut long = vec![7u8; 106];
    assert_eq!(Escrow::pack(sample(), &mut long), Err(EscrowError::InvalidAccountData));
    assert_eq!(long, vec![7u8; 106]);
}

#[test]
fn pack_into_slice_leaves_the_rest_alone() {
    let mut dst = vec![0xeeu8; 110];
    sample().pack_into_slice(&mut dst);
    assert_eq!(&dst[..105], &sample_bytes()[..]);
    assert_eq!(&dst[105..], &[0xeeu8; 5]);
}

#[test]
fn default_record_packs_to_zeroes() {
    let blank = Escrow::default();
    assert!(!blank.is_initialized());
    let mut dst = vec![0xeeu8; 105];
    blank.pack_into_slice(&mut dst);
    assert_eq!(dst, vec![0u8; 105]);
}

#[test]
fn unpack_reads_back_what_pack_wrote() {
    let mut record = sample();
    record.expected_amount = 0xfedc_ba98_7654_3210;
    let mut dst = vec![0u8; 105];
    record.pack_into_slice(&mut dst);
    assert_eq!(Escrow::unpack(&dst), Ok(record));
    assert_eq!(Escrow::unpack_unchecked(&dst), Ok(record));
    assert_eq!(Escrow::unpack_from_slice(&dst), Ok(record));
}

#[test]
fn strict_read_wants_a_flag_of_zero_or_one() {
    let mut bytes = sample_bytes();
    for flag in 2u8..=255 {
        bytes[0] = flag;
        assert_eq!(Escrow::unpack_from_slice(&bytes), Err(EscrowError::InvalidAccountData));
        assert_eq!(Escrow::unpack(&bytes), Err(EscrowError::InvalidAccountData));
    }
    bytes[0] = 0;
    let mut blank = sample();
    blank.is_initialized = false;
    assert_eq!(Escrow::unpack_from_slice(&bytes), Ok(blank));
}

#[test]
fn unpack_rejects_a_record_that_is_not_in_use() {
    assert_eq!(Escrow::unpack(&[0u8; 105]), Err(EscrowError::UninitializedAccount));
}

#[test]
fn unpack_rejects_data_of_another_length() {
    assert_eq!(Escrow::unpack(&[]), Err(EscrowError::InvalidAccountData));
    assert_eq!(Escrow::unpack(&sample_bytes()[..104]), Err(EscrowError::InvalidAccountData));
    let mut long = sample_bytes();
    long.push(0);
    assert_eq!(Escrow::unpack(&long), Err(EscrowError::InvalidAccountData));
    assert_eq!(Escrow::unpack_unchecked(&long), Err(EscrowError::InvalidAccountData));
    assert_eq!(Escrow::unpack_unchecked(&[]), Err(EscrowError::InvalidAccountData));
}

#[test]
fn lenient_read_takes_blank_storage_as_not_in_use() {
    assert_eq!(Escrow::unpack_unchecked(&[0u8; 105]), Ok(Escrow::default()));
}

#[test]
fn lenient_read_takes_any_flag_but_one_as_not_in_use() {
    let mut bytes = sample_bytes();
    let mut unused = sample();
    unused.is_initialized = false;
    for flag in [0u8, 2, 7, 128, 255] {
        bytes[0] = flag;
        assert_eq!(Escrow::unpack_unchecked(&bytes), Ok(unused));
    }
    bytes[0] = 1;
    assert_eq!(Escrow::unpack_unchecked(&bytes), Ok(sample()));
}

use gong_de_increase::error::ProgramError;
use gong_de_increase::utils::{
    derive_gongde_account_address, read_gongde_value, seeded_or_invalid,
    validate_account_data_size, write_gongde_value, GongDeInstruction, GONGDE_ACCOUNT_SEED,
    GONGDE_VALUE_SIZE,
};
use gong_de_increase::Address;
use solana_program::pubkey::{Pubkey, PubkeyError};

#[test]
fn test_read_write_gongde_value() {
    let mut data = vec![0u8; 8];
    let test_value = 12345u32;

    assert!(write_gongde_value(&mut data, test_value).is_ok());

    let read_value = read_gongde_value(&data).unwrap();
    assert_eq!(read_value, test_value);
}

#[test]
fn test_insufficient_data_size() {
    let data = vec![0u8; 2];

    assert_eq!(read_gongde_value(&data), Err(ProgramError::AccountDataTooSmall));

    assert_eq!(validate_account_data_size(2), Err(ProgramError::AccountDataTooSmall));
}

#[test]
fn test_instruction_parsing() {
    assert_eq!(GongDeInstruction::from_instruction_data(&[0]), Ok(GongDeInstruction::Increment));
    assert_eq!(GongDeInstruction::from_instruction_data(&[1]), Ok(GongDeInstruction::Close));

    assert_eq!(
        GongDeInstruction::from_instruction_data(&[2]),
        Err(ProgramError::InvalidInstructionData)
    );
    assert_eq!(
        GongDeInstruction::from_instruction_data(&[]),
        Err(ProgramError::InvalidInstructionData)
    );
}

#[test]
fn constants_have_their_values() {
    assert_eq!(GONGDE_VALUE_SIZE, 4);
    assert_eq!(GONGDE_ACCOUNT_SEED, "GongDeIncrease");
}

#[test]
fn write_is_little_endian_and_keeps_the_tail() {
    let mut data = vec![0xaau8; 6];
    assert_eq!(write_gongde_value(&mut data, 0x0403_0201), Ok(()));
    assert_eq!(data, vec![0x01, 0x02, 0x03, 0x04, 0xaa, 0xaa]);
    assert_eq!(write_gongde_value(&mut data, 12345), Ok(()));
    assert_eq!(data, vec![0x39, 0x30, 0x00, 0x00, 0xaa, 0xaa]);
}

#[test]
fn read_is_little_endian_and_ignores_the_tail() {
    assert_eq!(read_gongde_value(&[0x39, 0x30, 0, 0]), Ok(12345));
    assert_eq!(read_gongde_value(&[0x01, 0x02, 0x03, 0x04, 0xff, 0xff]), Ok(0x0403_0201));
    assert_eq!(read_gongde_value(&[0xff, 0xff, 0xff, 0xff]), Ok(u32::MAX));
    assert_eq!(read_gongde_value(&[0, 0, 0, 0]), Ok(0));
}

#[test]
fn read_and_write_agree_with_std() {
    for value in [0u32, 1, 255, 256, 65_535, 65_536, 0x0102_0304, u32::MAX - 1, u32::MAX] {
        let mut data = vec![7u8; 4];
        assert_eq!(write_gongde_value(&mut data, value), Ok(()));
        assert_eq!(data, value.to_le_bytes().to_vec());
        assert_eq!(read_gongde_value(&data), Ok(value));
    }
}

#[test]
fn write_refuses_short_storage_and_leaves_it() {
    let mut data = vec![9u8; 3];
    assert_eq!(write_gongde_value(&mut data, 1), Err(ProgramError::AccountDataTooSmall));
    assert_eq!(data, vec![9u8; 3]);
    let mut empty: Vec<u8> = Vec::new();
    assert_eq!(write_gongde_value(&mut empty, 1), Err(ProgramError::AccountDataTooSmall));
}

#[test]
fn read_refuses_every_short_length() {
    for len in 0..4usize {
        let data = vec![1u8; len];
        assert_eq!(read_gongde_value(&data), Err(ProgramError::AccountDataTooSmall));
    }
}

#[test]
fn validate_size_at_the_boundary() {
    assert_eq!(validate_account_data_size(0), Err(ProgramError::AccountDataTooSmall));
    assert_eq!(validate_account_data_size(3), Err(ProgramError::AccountDataTooSmall));
    assert_eq!(validate_account_data_size(4), Ok(()));
    assert_eq!(validate_account_data_size(5), Ok(()));
    assert_eq!(validate_account_data_size(usize::MAX), Ok(()));
}

#[test]
fn instruction_reads_only_the_first_byte() {
    assert_eq!(
        GongDeInstruction::from_instruction_data(&[0, 9, 9]),
        Ok(GongDeInstruction::Increment)
    );
    assert_eq!(GongDeInstruction::from_instruction_data(&[1, 0]), Ok(GongDeInstruction::Close));
    assert_eq!(
        GongDeInstruction::from_instruction_data(&[255]),
        Err(ProgramError::InvalidInstructionData)
    );
    assert_eq!(GongDeInstruction::from_tag(0), Ok(GongDeInstruction::Increment));
    assert_eq!(GongDeInstruction::from_tag(1), Ok(GongDeInstruction::Close));
    for tag in 2..=255u8 {
        assert_eq!(GongDeInstruction::from_tag(tag), Err(ProgramError::InvalidInstructionData));
    }
}

fn address(fill: u8) -> Address {
    Address { bytes: [fill; 32] }
}

#[test]
fn derived_address_is_the_ledgers() {
    let user = address(3);
    let program = address(7);
    let expected = Pubkey::create_with_seed(
        &Pubkey::new_from_array([3; 32]),
        "GongDeIncrease",
        &Pubkey::new_from_array([7; 32]),
    )
    .unwrap();
    let derived = derive_gongde_account_address(&user, &program).unwrap();
    assert_eq!(derived.bytes, expected.to_bytes());
    assert_ne!(derived, user);
    assert_ne!(derived, program);
}

#[test]
fn derivation_is_deterministic() {
    let user = address(11);
    let program = address(12);
    let first = derive_gongde_account_address(&user, &program);
    let second = derive_gongde_account_address(&user, &program);
    assert!(first.is_ok());
    assert_eq!(first, second);
}

#[test]
fn derivation_tells_inputs_apart() {
    let mut seen: Vec<Address> = Vec::new();
    for user in 0..6u8 {
        for program in 0..6u8 {
            let derived = derive_gongde_account_address(&address(user), &address(program)).unwrap();
            assert!(!seen.contains(&derived));
            seen.push(derived);
        }
    }
    assert_eq!(seen.len(), 36);
}

#[test]
fn derivation_refuses_a_marked_program() {
    let mut bytes = [1u8; 32];
    bytes[11..].copy_from_slice(b"ProgramDerivedAddress");
    let program = Address { bytes };
    assert_eq!(
        derive_gongde_account_address(&address(3), &program),
        Err(ProgramError::InvalidSeeds)
    );
    let mut almost = bytes;
    almost[31] = b'S';
    assert!(derive_gongde_account_address(&address(3), &Address { bytes: almost }).is_ok());
}

#[test]
fn every_refusal_of_the_ledger_is_invalid_seeds() {
    assert_eq!(
        seeded_or_invalid(Err(PubkeyError::MaxSeedLengthExceeded)),
        Err(ProgramError::InvalidSeeds)
    );
    assert_eq!(seeded_or_invalid(Err(PubkeyError::InvalidSeeds)), Err(ProgramError::InvalidSeeds));
    assert_eq!(seeded_or_invalid(Err(PubkeyError::IllegalOwner)), Err(ProgramError::InvalidSeeds));
    assert_eq!(seeded_or_invalid(Ok(address(5))), Ok(address(5)));
}

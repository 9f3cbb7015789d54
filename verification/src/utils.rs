use vstd::prelude::*;
use vstd::string::StringSliceAdditionalSpecFns;
use crate::address::{create_with_seed, ends_with_pda_marker, seeded_address, Address};
use crate::error::ProgramError;

verus! {

/// Number of bytes a stored merit value takes.
pub const GONGDE_VALUE_SIZE: usize = 4;

/// The seed from which a user's merit account address is derived.
pub const GONGDE_ACCOUNT_SEED: &'static str = "GongDeIncrease";

/// The number that four bytes spell, least significant byte first.
pub open spec fn u32_from_le(s: Seq<u8>) -> u32
    recommends
        s.len() == 4,
{
    (s[0] as int + s[1] as int * 0x100 + s[2] as int * 0x1_0000 + s[3] as int * 0x100_0000) as u32
}

/// The four bytes of a number, least significant byte first.
pub open spec fn u32_to_le(v: u32) -> Seq<u8> {
    seq![
        (v % 0x100) as u8,
        (v / 0x100 % 0x100) as u8,
        (v / 0x1_0000 % 0x100) as u8,
        (v / 0x100_0000 % 0x100) as u8,
    ]
}

/// The merit value that stored bytes hold: what their first four bytes
/// spell. Fewer bytes hold none.
pub open spec fn gongde_value(data: Seq<u8>) -> Result<u32, ProgramError> {
    if data.len() < GONGDE_VALUE_SIZE {
        Err(ProgramError::AccountDataTooSmall)
    } else {
        Ok(u32_from_le(data.take(GONGDE_VALUE_SIZE as int)))
    }
}

/// Stored bytes after a merit value was written over their first four.
pub open spec fn with_gongde_value(data: Seq<u8>, value: u32) -> Seq<u8> {
    u32_to_le(value) + data.skip(GONGDE_VALUE_SIZE as int)
}

/// Reads the merit value from an account's bytes.
pub fn read_gongde_value(data: &[u8]) -> (r: Result<u32, ProgramError>)
    ensures
        r == gongde_value(data@),
{
    if data.len() < GONGDE_VALUE_SIZE {
        return Err(ProgramError::AccountDataTooSmall);
    }
    let b0 = data[0] as u32;
    let b1 = data[1] as u32;
    let b2 = data[2] as u32;
    let b3 = data[3] as u32;
    Ok(b0 + b1 * 0x100 + b2 * 0x1_0000 + b3 * 0x100_0000)
}

/// Writes a merit value over the first four bytes and leaves the rest as it
/// was. Bytes too few to hold a value are refused and not touched.
pub fn write_gongde_value(data: &mut [u8], value: u32) -> (r: Result<(), ProgramError>)
    ensures
        old(data)@.len() < GONGDE_VALUE_SIZE ==> r == Err::<(), ProgramError>(
            ProgramError::AccountDataTooSmall,
        ) && final(data)@ == old(data)@,
        old(data)@.len() >= GONGDE_VALUE_SIZE ==> r is Ok && final(data)@ == with_gongde_value(
            old(data)@,
            value,
        ),
{
    if data.len() < GONGDE_VALUE_SIZE {
        return Err(ProgramError::AccountDataTooSmall);
    }
    data[0] = (value % 0x100) as u8;
    data[1] = (value / 0x100 % 0x100) as u8;
    data[2] = (value / 0x1_0000 % 0x100) as u8;
    data[3] = (value / 0x100_0000 % 0x100) as u8;
    Ok(())
}

/// Checks that an account's storage is long enough to hold a merit value.
pub fn validate_account_data_size(data_len: usize) -> (r: Result<(), ProgramError>)
    ensures
        data_len >= GONGDE_VALUE_SIZE ==> r is Ok,
        data_len < GONGDE_VALUE_SIZE ==> r == Err::<(), ProgramError>(
            ProgramError::AccountDataTooSmall,
        ),
{
    if data_len < GONGDE_VALUE_SIZE {
        return Err(ProgramError::AccountDataTooSmall);
    }
    Ok(())
}

/// Reading what was written gives the value back, whatever follows it.
pub proof fn lemma_gongde_value_round_trip(data: Seq<u8>, value: u32)
    requires
        data.len() >= GONGDE_VALUE_SIZE,
    ensures
        with_gongde_value(data, value).len() == data.len(),
        gongde_value(with_gongde_value(data, value)) == Ok::<u32, ProgramError>(value),
{
    assert(value == (value % 0x100) + (value / 0x100 % 0x100) * 0x100 + (value / 0x1_0000 % 0x100)
        * 0x1_0000 + (value / 0x100_0000 % 0x100) * 0x100_0000) by (bit_vector);
}

/// The bytes of the merit seed: the fourteen letters of `GongDeIncrease`.
pub proof fn lemma_gongde_seed_bytes()
    ensures
        GONGDE_ACCOUNT_SEED.spec_bytes() == seq![
            71u8, 111, 110, 103, 68, 101, 73, 110, 99, 114, 101, 97, 115, 101,
        ],
{
    reveal_strlit("GongDeIncrease");
    assert(vstd::string::is_ascii(GONGDE_ACCOUNT_SEED));
}

/// The address of a user's merit account under a program, where the ledger
/// derives one: a program whose bytes end in the marker of program-derived
/// addresses owns no seeded address.
pub open spec fn gongde_account_address(user: Address, program_id: Address) -> Result<
    Seq<u8>,
    ProgramError,
> {
    if ends_with_pda_marker(program_id@) {
        Err(ProgramError::InvalidSeeds)
    } else {
        Ok(seeded_address(user@, GONGDE_ACCOUNT_SEED.spec_bytes(), program_id@))
    }
}

/// What a derivation gave, as contracts see it.
pub open spec fn address_view(r: Result<Address, ProgramError>) -> Result<Seq<u8>, ProgramError> {
    match r {
        Ok(address) => Ok(address@),
        Err(e) => Err(e),
    }
}

/// A derived address as the ledger gave it, or the error that stands for
/// every refusal of the ledger's.
pub fn seeded_or_invalid(derived: Result<Address, solana_program::pubkey::PubkeyError>) -> (r:
    Result<Address, ProgramError>)
    ensures
        derived matches Ok(address) ==> r == Ok::<Address, ProgramError>(address),
        derived is Err ==> r == Err::<Address, ProgramError>(ProgramError::InvalidSeeds),
{
    match derived {
        Ok(address) => Ok(address),
        Err(_) => Err(ProgramError::InvalidSeeds),
    }
}

/// Derives the address of a user's merit account.
pub fn derive_gongde_account_address(user_pubkey: &Address, program_id: &Address) -> (r: Result<
    Address,
    ProgramError,
>)
    ensures
        address_view(r) == gongde_account_address(*user_pubkey, *program_id),
{
    proof {
        lemma_gongde_seed_bytes();
    }
    seeded_or_invalid(create_with_seed(user_pubkey, GONGDE_ACCOUNT_SEED, program_id))
}

/// The operations of the merit program. On the wire an operation is the
/// first byte of the payload.
#[derive(Debug, Clone, Copy, PartialEq, Eq, Structural)]
pub enum GongDeInstruction {
    /// Add one to the merit value.
    Increment,
    /// Close the account and hand its balance back.
    Close,
}

impl GongDeInstruction {
    /// The operation that a tag names.
    pub open spec fn of_tag(tag: u8) -> Result<GongDeInstruction, ProgramError> {
        if tag == 0 {
            Ok(GongDeInstruction::Increment)
        } else if tag == 1 {
            Ok(GongDeInstruction::Close)
        } else {
            Err(ProgramError::InvalidInstructionData)
        }
    }

    /// The operation that a payload names by its first byte. An empty
    /// payload names none.
    pub open spec fn decode(instruction_data: Seq<u8>) -> Result<GongDeInstruction, ProgramError> {
        if instruction_data.len() == 0 {
            Err(ProgramError::InvalidInstructionData)
        } else {
            Self::of_tag(instruction_data[0])
        }
    }

    pub fn from_tag(tag: u8) -> (r: Result<GongDeInstruction, ProgramError>)
        ensures
            r == Self::of_tag(tag),
    {
        if tag == 0 {
            Ok(GongDeInstruction::Increment)
        } else if tag == 1 {
            Ok(GongDeInstruction::Close)
        } else {
            Err(ProgramError::InvalidInstructionData)
        }
    }

    /// Reads an operation from a payload.
    pub fn from_instruction_data(instruction_data: &[u8]) -> (r: Result<
        GongDeInstruction,
        ProgramError,
    >)
        ensures
            r == Self::decode(instruction_data@),
    {
        if instruction_data.len() == 0 {
            Self::from_tag(255)
        } else {
            Self::from_tag(instruction_data[0])
        }
    }
}

} // verus!

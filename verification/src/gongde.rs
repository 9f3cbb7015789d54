use vstd::prelude::*;
use vstd::string::StringSliceAdditionalSpecFns;
use crate::account::{views, Account, AccountView};
use crate::address::{
    derived_view, program_address, seeds_view, try_find_program_address, Address,
};
use crate::error::ProgramError;
use crate::ledger::{stepped, CreateAccount, CreateAccountWithSeed, Step};
use crate::processor::{close, process_close};
use crate::utils::{
    address_view, derive_gongde_account_address, gongde_account_address, gongde_value,
    read_gongde_value, with_gongde_value, write_gongde_value, GongDeInstruction,
    GONGDE_ACCOUNT_SEED, GONGDE_VALUE_SIZE,
};

verus! {

/// The tag of a payload: its first byte. A payload without bytes stands for
/// tag zero, so an empty payload asks for an increment. Only this router
/// reads an empty payload so; `GongDeInstruction::from_instruction_data`
/// refuses it.
pub open spec fn operation_tag(instruction_data: Seq<u8>) -> u8 {
    if instruction_data.len() == 0 {
        0
    } else {
        instruction_data[0]
    }
}

/// One more than `value`, as far as the merit value goes.
pub open spec fn gongde_incremented(value: u32) -> u32 {
    if value < u32::MAX {
        (value + 1) as u32
    } else {
        u32::MAX
    }
}

/// The seeds from which the address of a program's global merit account is
/// derived: the bytes of the merit seed, and nothing of any user.
pub open spec fn global_seeds() -> Seq<Seq<u8>> {
    seq![GONGDE_ACCOUNT_SEED.spec_bytes()]
}

/// Derives the address of a program's global merit account, and the bump
/// seed that goes with it.
pub fn find_global_address(program_id: &Address) -> (r: Option<(Address, u8)>)
    ensures
        derived_view(r) == program_address(global_seeds(), program_id@),
{
    let seeds: [&[u8]; 1] = [GONGDE_ACCOUNT_SEED.as_bytes()];
    assert(seeds_view(seeds@) =~= global_seeds());
    try_find_program_address(seeds.as_slice(), program_id)
}

/// An account after a merit value was written over the first bytes of its
/// storage.
pub open spec fn with_value(account: AccountView, value: u32) -> AccountView {
    account.with_data(with_gongde_value(account.data, value))
}

/// Increment: the accounts are the user's merit account, the paying user,
/// the program's global merit account and the system program.
/// `merit_address` and `global_address` are what the two derivations gave.
///
/// The user has to have signed, both merit accounts have to be at their
/// derived addresses and writable. An account of the two that has no balance
/// does not exist yet: the ledger is asked to create it, the user's first,
/// and nothing is changed. Once both exist, both have to hold a value; each
/// value goes up by one and stops at the largest value.
pub open spec fn gongde_increment(
    program_id: Address,
    accounts: Seq<AccountView>,
    merit_address: Result<Seq<u8>, ProgramError>,
    global_address: Option<(Seq<u8>, u8)>,
) -> Result<(Seq<AccountView>, Step), ProgramError> {
    if accounts.len() < 4 {
        Err(ProgramError::NotEnoughAccountKeys)
    } else if !accounts[1].is_signer {
        Err(ProgramError::MissingRequiredSignature)
    } else if merit_address is Err {
        Err(merit_address->Err_0)
    } else if accounts[0].key@ != merit_address->Ok_0 {
        Err(ProgramError::InvalidAccountData)
    } else if global_address is None {
        Err(ProgramError::NoValidAddress)
    } else if accounts[2].key@ != global_address->Some_0.0 {
        Err(ProgramError::InvalidAccountData)
    } else if !accounts[0].is_writable || !accounts[2].is_writable {
        Err(ProgramError::InvalidAccountData)
    } else if accounts[0].lamports == 0 {
        Ok(
            (
                accounts,
                Step::CreateAccountWithSeed(
                    CreateAccountWithSeed {
                        payer: accounts[1].key,
                        new_account: accounts[0].key,
                        base: accounts[1].key,
                        space: GONGDE_VALUE_SIZE as u64,
                        owner: program_id,
                    },
                ),
            ),
        )
    } else if accounts[2].lamports == 0 {
        Ok(
            (
                accounts,
                Step::CreateAccount(
                    CreateAccount {
                        payer: accounts[1].key,
                        new_account: accounts[2].key,
                        space: GONGDE_VALUE_SIZE as u64,
                        owner: program_id,
                        bump_seed: global_address->Some_0.1,
                    },
                ),
            ),
        )
    } else if gongde_value(accounts[0].data) is Err {
        Err(gongde_value(accounts[0].data)->Err_0)
    } else if gongde_value(accounts[2].data) is Err {
        Err(gongde_value(accounts[2].data)->Err_0)
    } else {
        Ok(
            (
                accounts.update(
                    0,
                    with_value(
                        accounts[0],
                        gongde_incremented(gongde_value(accounts[0].data)->Ok_0),
                    ),
                ).update(
                    2,
                    with_value(
                        accounts[2],
                        gongde_incremented(gongde_value(accounts[2].data)->Ok_0),
                    ),
                ),
                Step::Done,
            ),
        )
    }
}

/// The address derived for the user of an account list, where the list
/// names a user.
pub open spec fn merit_address_of(program_id: Address, accounts: Seq<AccountView>) -> Result<
    Seq<u8>,
    ProgramError,
> {
    if accounts.len() < 2 {
        Err(ProgramError::NotEnoughAccountKeys)
    } else {
        gongde_account_address(accounts[1].key, program_id)
    }
}

/// What a payload makes of an account list: the list afterwards and what is
/// left to do, or the reason why the payload was refused.
pub open spec fn gongde_process(
    program_id: Address,
    accounts: Seq<AccountView>,
    instruction_data: Seq<u8>,
) -> Result<(Seq<AccountView>, Step), ProgramError> {
    match GongDeInstruction::of_tag(operation_tag(instruction_data)) {
        Err(e) => Err(e),
        Ok(GongDeInstruction::Increment) => gongde_increment(
            program_id,
            accounts,
            merit_address_of(program_id, accounts),
            program_address(global_seeds(), program_id@),
        ),
        Ok(GongDeInstruction::Close) => match close(accounts) {
            Err(e) => Err(e),
            Ok(after) => Ok((after, Step::Done)),
        },
    }
}

/// Adds one to the value that an account holds.
fn add_one(account: &mut Account, value: u32) -> (r: Result<(), ProgramError>)
    requires
        gongde_value(old(account)@.data) == Ok::<u32, ProgramError>(value),
    ensures
        r is Ok,
        final(account)@ == with_value(old(account)@, gongde_incremented(value)),
{
    let next = if value < u32::MAX {
        value + 1
    } else {
        u32::MAX
    };
    write_gongde_value(account.data.as_mut_slice(), next)
}

/// The part of Increment that follows the two derivations:
/// `merit_address` and `global_address` are what they gave.
pub fn plan_gongde_increment(
    program_id: &Address,
    accounts: &mut Vec<Account>,
    merit_address: Result<Address, ProgramError>,
    global_address: Option<(Address, u8)>,
) -> (r: Result<Step, ProgramError>)
    ensures
        stepped(
            gongde_increment(
                *program_id,
                views(old(accounts)@),
                address_view(merit_address),
                derived_view(global_address),
            ),
            old(accounts)@,
            final(accounts)@,
            r,
        ),
{
    if accounts.len() < 4 {
        return Err(ProgramError::NotEnoughAccountKeys);
    }
    if !accounts[1].is_signer {
        return Err(ProgramError::MissingRequiredSignature);
    }
    let merit_key = match merit_address {
        Err(e) => {
            return Err(e);
        },
        Ok(address) => address,
    };
    if accounts[0].key != merit_key {
        return Err(ProgramError::InvalidAccountData);
    }
    let (global_key, bump_seed) = match global_address {
        None => {
            return Err(ProgramError::NoValidAddress);
        },
        Some(found) => found,
    };
    if accounts[2].key != global_key {
        return Err(ProgramError::InvalidAccountData);
    }
    if !accounts[0].is_writable || !accounts[2].is_writable {
        return Err(ProgramError::InvalidAccountData);
    }
    if accounts[0].lamports == 0 {
        return Ok(
            Step::CreateAccountWithSeed(
                CreateAccountWithSeed {
                    payer: accounts[1].key,
                    new_account: accounts[0].key,
                    base: accounts[1].key,
                    space: GONGDE_VALUE_SIZE as u64,
                    owner: *program_id,
                },
            ),
        );
    }
    if accounts[2].lamports == 0 {
        return Ok(
            Step::CreateAccount(
                CreateAccount {
                    payer: accounts[1].key,
                    new_account: accounts[2].key,
                    space: GONGDE_VALUE_SIZE as u64,
                    owner: *program_id,
                    bump_seed,
                },
            ),
        );
    }
    let own = match read_gongde_value(accounts[0].data.as_slice()) {
        Err(e) => {
            return Err(e);
        },
        Ok(value) => value,
    };
    let global = match read_gongde_value(accounts[2].data.as_slice()) {
        Err(e) => {
            return Err(e);
        },
        Ok(value) => value,
    };
    match add_one(&mut accounts[0], own) {
        Err(e) => Err(e),
        Ok(()) => match add_one(&mut accounts[2], global) {
            Err(e) => Err(e),
            Ok(()) => {
                assert(views(accounts@) =~= gongde_increment(
                    *program_id,
                    views(old(accounts)@),
                    address_view(merit_address),
                    derived_view(global_address),
                )->Ok_0.0);
                Ok(Step::Done)
            },
        },
    }
}

/// Increment: adds one to the user's merit value and to the program's
/// global one. Where it asks the ledger for an account, it has changed
/// nothing; once the ledger has created the account, the same instruction is
/// handed in again.
pub fn process_gongde_increment(program_id: &Address, accounts: &mut Vec<Account>) -> (r: Result<
    Step,
    ProgramError,
>)
    ensures
        stepped(
            gongde_increment(
                *program_id,
                views(old(accounts)@),
                merit_address_of(*program_id, views(old(accounts)@)),
                program_address(global_seeds(), program_id@),
            ),
            old(accounts)@,
            final(accounts)@,
            r,
        ),
{
    if accounts.len() < 4 {
        return Err(ProgramError::NotEnoughAccountKeys);
    }
    if !accounts[1].is_signer {
        return Err(ProgramError::MissingRequiredSignature);
    }
    let merit_address = derive_gongde_account_address(&accounts[1].key, program_id);
    let global_address = find_global_address(program_id);
    plan_gongde_increment(program_id, accounts, merit_address, global_address)
}

/// Reads the operation from the first byte of the payload, an increment
/// where there is none, and hands the account list to its handler.
pub fn process_gongde_instruction(
    program_id: &Address,
    accounts: &mut Vec<Account>,
    instruction_data: &[u8],
) -> (r: Result<Step, ProgramError>)
    ensures
        stepped(
            gongde_process(*program_id, views(old(accounts)@), instruction_data@),
            old(accounts)@,
            final(accounts)@,
            r,
        ),
{
    let tag = if instruction_data.len() == 0 {
        0
    } else {
        instruction_data[0]
    };
    match GongDeInstruction::from_tag(tag) {
        Err(e) => Err(e),
        Ok(GongDeInstruction::Increment) => process_gongde_increment(program_id, accounts),
        Ok(GongDeInstruction::Close) => match process_close(accounts) {
            Err(e) => Err(e),
            Ok(()) => Ok(Step::Done),
        },
    }
}

} // verus!

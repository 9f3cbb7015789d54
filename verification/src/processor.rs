use vstd::prelude::*;
use crate::account::{views, zeros, Account, AccountView};
use crate::address::{
    counter_seeds, derived_view, find_counter_address, program_address, Address,
};
use crate::error::ProgramError;
use crate::instruction::CounterInstruction;
use crate::ledger::{carried_out, stepped, CreateAccount, Step};
use crate::state::{CounterAccount, COUNTER_ACCOUNT_SIZE};

verus! {

/// One more than `count`, as far as the counter goes.
pub open spec fn incremented(count: u64) -> u64 {
    if count < u64::MAX {
        (count + 1) as u64
    } else {
        u64::MAX
    }
}

/// The account list after the record of its first account was replaced.
pub open spec fn with_record(accounts: Seq<AccountView>, record: CounterAccount) -> Seq<
    AccountView,
> {
    accounts.update(0, accounts[0].with_data(record.encode()))
}

/// Increment: the first account is the counter. It has to be writable and
/// to hold a record; the record's count goes up by one and stops at the
/// largest count.
pub open spec fn increment(accounts: Seq<AccountView>) -> Result<Seq<AccountView>, ProgramError> {
    if accounts.len() < 1 {
        Err(ProgramError::NotEnoughAccountKeys)
    } else if !accounts[0].is_writable {
        Err(ProgramError::InvalidAccountData)
    } else {
        match CounterAccount::decode(accounts[0].data) {
            Err(e) => Err(e),
            Ok(record) => Ok(
                with_record(accounts, CounterAccount { count: incremented(record.count) }),
            ),
        }
    }
}

/// Reset: the first account is the counter, the second the authority. The
/// counter has to be writable, the authority has to have signed, and the
/// counter has to hold a record; the record's count becomes zero.
pub open spec fn reset(accounts: Seq<AccountView>) -> Result<Seq<AccountView>, ProgramError> {
    if accounts.len() < 2 {
        Err(ProgramError::NotEnoughAccountKeys)
    } else if !accounts[0].is_writable {
        Err(ProgramError::InvalidAccountData)
    } else if !accounts[1].is_signer {
        Err(ProgramError::MissingRequiredSignature)
    } else {
        match CounterAccount::decode(accounts[0].data) {
            Err(e) => Err(e),
            Ok(_) => Ok(with_record(accounts, CounterAccount { count: 0 })),
        }
    }
}

/// Close: the first account is the counter, the second the authority. The
/// counter has to be writable and the authority has to have signed. The
/// counter's whole balance moves to the authority, and the counter is left
/// with no balance and zeroed storage. A sum of balances that no balance can
/// hold is an overflow.
pub open spec fn close(accounts: Seq<AccountView>) -> Result<Seq<AccountView>, ProgramError> {
    if accounts.len() < 2 {
        Err(ProgramError::NotEnoughAccountKeys)
    } else if !accounts[0].is_writable {
        Err(ProgramError::InvalidAccountData)
    } else if !accounts[1].is_signer {
        Err(ProgramError::MissingRequiredSignature)
    } else if accounts[1].lamports + accounts[0].lamports > u64::MAX {
        Err(ProgramError::ArithmeticOverflow)
    } else {
        Ok(
            accounts.update(
                1,
                accounts[1].with_lamports((accounts[1].lamports + accounts[0].lamports) as u64),
            ).update(0, accounts[0].with_lamports(0).with_data(zeros(accounts[0].data.len()))),
        )
    }
}

/// Initialize, up to the point where the ledger has to act: the first
/// account is the counter, the second the paying user, the third the system
/// program. The user has to have signed, and the counter's address has to be
/// the one derived for the user, `derived`. A counter that already has a
/// balance is left alone; for one without, the ledger is asked for storage
/// of the record's size, owned by the program.
pub open spec fn initialize(
    program_id: Address,
    accounts: Seq<AccountView>,
    derived: Option<(Seq<u8>, u8)>,
) -> Result<Step, ProgramError> {
    if accounts.len() < 3 {
        Err(ProgramError::NotEnoughAccountKeys)
    } else if !accounts[1].is_signer {
        Err(ProgramError::MissingRequiredSignature)
    } else {
        match derived {
            None => Err(ProgramError::NoValidAddress),
            Some((address, bump_seed)) => if accounts[0].key@ != address {
                Err(ProgramError::InvalidAccountData)
            } else if accounts[0].lamports > 0 {
                Ok(Step::Done)
            } else {
                Ok(
                    Step::CreateAccount(
                        CreateAccount {
                            payer: accounts[1].key,
                            new_account: accounts[0].key,
                            space: COUNTER_ACCOUNT_SIZE as u64,
                            owner: program_id,
                            bump_seed,
                        },
                    ),
                )
            },
        }
    }
}

/// Initialize, after the ledger has created the account: the first account
/// is the counter, which has to hold a record; the record's count becomes
/// zero.
pub open spec fn initialized(accounts: Seq<AccountView>) -> Result<Seq<AccountView>, ProgramError> {
    if accounts.len() < 1 {
        Err(ProgramError::NotEnoughAccountKeys)
    } else {
        match CounterAccount::decode(accounts[0].data) {
            Err(e) => Err(e),
            Ok(_) => Ok(with_record(accounts, CounterAccount { count: 0 })),
        }
    }
}

/// The address derived for the user of an account list, where the list
/// names a user.
pub open spec fn counter_address(program_id: Address, accounts: Seq<AccountView>) -> Option<
    (Seq<u8>, u8),
> {
    if accounts.len() < 2 {
        None
    } else {
        program_address(counter_seeds(accounts[1].key), program_id@)
    }
}

/// What an instruction makes of an account list: the list afterwards and
/// what is left to do, or the reason why it was refused.
pub open spec fn process(
    program_id: Address,
    accounts: Seq<AccountView>,
    instruction_data: Seq<u8>,
) -> Result<(Seq<AccountView>, Step), ProgramError> {
    match CounterInstruction::decode(instruction_data) {
        Err(e) => Err(e),
        Ok(CounterInstruction::Initialize) => match initialize(
            program_id,
            accounts,
            counter_address(program_id, accounts),
        ) {
            Err(e) => Err(e),
            Ok(step) => Ok((accounts, step)),
        },
        Ok(CounterInstruction::Increment) => match increment(accounts) {
            Err(e) => Err(e),
            Ok(after) => Ok((after, Step::Done)),
        },
        Ok(CounterInstruction::Reset) => match reset(accounts) {
            Err(e) => Err(e),
            Ok(after) => Ok((after, Step::Done)),
        },
        Ok(CounterInstruction::Close) => match close(accounts) {
            Err(e) => Err(e),
            Ok(after) => Ok((after, Step::Done)),
        },
    }
}

/// Replaces the record of the first account.
fn write_record(accounts: &mut Vec<Account>, record: CounterAccount) -> (r: Result<
    (),
    ProgramError,
>)
    requires
        old(accounts)@.len() >= 1,
        old(accounts)@[0].data@.len() == COUNTER_ACCOUNT_SIZE,
    ensures
        r is Ok,
        views(final(accounts)@) == with_record(views(old(accounts)@), record),
{
    record.serialize(&mut accounts[0].data)
}

/// Increment: adds one to the counter in the first account.
pub fn process_increment(accounts: &mut Vec<Account>) -> (r: Result<(), ProgramError>)
    ensures
        carried_out(increment(views(old(accounts)@)), old(accounts)@, final(accounts)@, r),
{
    if accounts.len() < 1 {
        return Err(ProgramError::NotEnoughAccountKeys);
    }
    if !accounts[0].is_writable {
        return Err(ProgramError::InvalidAccountData);
    }
    match CounterAccount::try_from_slice(accounts[0].data.as_slice()) {
        Err(e) => Err(e),
        Ok(record) => {
            let count = if record.count < u64::MAX {
                record.count + 1
            } else {
                u64::MAX
            };
            write_record(accounts, CounterAccount { count })
        },
    }
}

/// Reset: sets the counter in the first account back to zero, on the
/// authority of the second.
pub fn process_reset(accounts: &mut Vec<Account>) -> (r: Result<(), ProgramError>)
    ensures
        carried_out(reset(views(old(accounts)@)), old(accounts)@, final(accounts)@, r),
{
    if accounts.len() < 2 {
        return Err(ProgramError::NotEnoughAccountKeys);
    }
    if !accounts[0].is_writable {
        return Err(ProgramError::InvalidAccountData);
    }
    if !accounts[1].is_signer {
        return Err(ProgramError::MissingRequiredSignature);
    }
    match CounterAccount::try_from_slice(accounts[0].data.as_slice()) {
        Err(e) => Err(e),
        Ok(_) => {
            write_record(accounts, CounterAccount { count: 0 })
        },
    }
}

/// Overwrites every byte with zero.
fn zero_fill(data: &mut Vec<u8>)
    ensures
        final(data)@ == zeros(old(data)@.len()),
{
    let n = data.len();
    let mut i: usize = 0;
    while i < n
        invariant
            i <= n,
            data@.len() == n,
            forall|j: int| 0 <= j < i ==> data@[j] == 0u8,
        decreases n - i,
    {
        data[i] = 0;
        i += 1;
    }
}

/// Close: empties the counter in the first account into the second, on the
/// authority of the second.
pub fn process_close(accounts: &mut Vec<Account>) -> (r: Result<(), ProgramError>)
    ensures
        carried_out(close(views(old(accounts)@)), old(accounts)@, final(accounts)@, r),
{
    if accounts.len() < 2 {
        return Err(ProgramError::NotEnoughAccountKeys);
    }
    if !accounts[0].is_writable {
        return Err(ProgramError::InvalidAccountData);
    }
    if !accounts[1].is_signer {
        return Err(ProgramError::MissingRequiredSignature);
    }
    match accounts[1].lamports.checked_add(accounts[0].lamports) {
        None => Err(ProgramError::ArithmeticOverflow),
        Some(sum) => {
            accounts[1].lamports = sum;
            accounts[0].lamports = 0;
            zero_fill(&mut accounts[0].data);
            assert(views(accounts@) =~= close(views(old(accounts)@))->Ok_0);
            Ok(())
        },
    }
}

/// The part of Initialize that follows the derivation of the counter's
/// address: `derived` is what the derivation gave.
pub fn plan_initialize(
    program_id: &Address,
    accounts: &Vec<Account>,
    derived: Option<(Address, u8)>,
) -> (r: Result<Step, ProgramError>)
    ensures
        r == initialize(*program_id, views(accounts@), derived_view(derived)),
{
    if accounts.len() < 3 {
        return Err(ProgramError::NotEnoughAccountKeys);
    }
    if !accounts[1].is_signer {
        return Err(ProgramError::MissingRequiredSignature);
    }
    match derived {
        None => Err(ProgramError::NoValidAddress),
        Some((address, bump_seed)) => {
            if accounts[0].key != address {
                Err(ProgramError::InvalidAccountData)
            } else if accounts[0].lamports > 0 {
                Ok(Step::Done)
            } else {
                Ok(
                    Step::CreateAccount(
                        CreateAccount {
                            payer: accounts[1].key,
                            new_account: accounts[0].key,
                            space: COUNTER_ACCOUNT_SIZE as u64,
                            owner: *program_id,
                            bump_seed,
                        },
                    ),
                )
            }
        },
    }
}

/// Initialize, up to the point where the ledger has to act. It changes
/// nothing. Where it asks for the account, the ledger creates it, and
/// `complete_initialize` writes the first record.
pub fn process_initialize(program_id: &Address, accounts: &Vec<Account>) -> (r: Result<
    Step,
    ProgramError,
>)
    ensures
        r == initialize(
            *program_id,
            views(accounts@),
            counter_address(*program_id, views(accounts@)),
        ),
{
    if accounts.len() < 3 {
        return Err(ProgramError::NotEnoughAccountKeys);
    }
    if !accounts[1].is_signer {
        return Err(ProgramError::MissingRequiredSignature);
    }
    let derived = find_counter_address(&accounts[1].key, program_id);
    plan_initialize(program_id, accounts, derived)
}

/// The rest of Initialize, once the ledger has created the account: writes
/// a record with the count zero.
pub fn complete_initialize(accounts: &mut Vec<Account>) -> (r: Result<(), ProgramError>)
    ensures
        carried_out(initialized(views(old(accounts)@)), old(accounts)@, final(accounts)@, r),
{
    if accounts.len() < 1 {
        return Err(ProgramError::NotEnoughAccountKeys);
    }
    match CounterAccount::try_from_slice(accounts[0].data.as_slice()) {
        Err(e) => Err(e),
        Ok(_) => {
            write_record(accounts, CounterAccount { count: 0 })
        },
    }
}

/// Reads the operation from the payload and hands the account list to its
/// handler.
pub fn process_instruction(
    program_id: &Address,
    accounts: &mut Vec<Account>,
    instruction_data: &[u8],
) -> (r: Result<Step, ProgramError>)
    ensures
        stepped(
            process(*program_id, views(old(accounts)@), instruction_data@),
            old(accounts)@,
            final(accounts)@,
            r,
        ),
{
    match CounterInstruction::try_from_slice(instruction_data) {
        Err(e) => Err(e),
        Ok(CounterInstruction::Initialize) => process_initialize(program_id, accounts),
        Ok(CounterInstruction::Increment) => match process_increment(accounts) {
            Err(e) => Err(e),
            Ok(()) => Ok(Step::Done),
        },
        Ok(CounterInstruction::Reset) => match process_reset(accounts) {
            Err(e) => Err(e),
            Ok(()) => Ok(Step::Done),
        },
        Ok(CounterInstruction::Close) => match process_close(accounts) {
            Err(e) => Err(e),
            Ok(()) => Ok(Step::Done),
        },
    }
}

} // verus!

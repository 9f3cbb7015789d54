use vstd::prelude::*;
use crate::account::{zeros, AccountView, CounterState};
use crate::address::{counter_seeds, derived_view, program_address, Address};
use crate::error::ProgramError;
use crate::instruction::CounterInstruction;
use crate::processor::{close, increment, incremented, initialized, reset};
use crate::state::CounterAccount;
use crate::gongde::{gongde_increment, gongde_incremented, gongde_process, operation_tag};
use crate::ledger::{CreateAccount, CreateAccountWithSeed, Step};
use crate::utils::{
    address_view, gongde_account_address, gongde_value, lemma_gongde_value_round_trip,
    GongDeInstruction,
};
use crate::wire::{lemma_u64_le_bytes_round_trip, lemma_u64_le_round_trip};

verus! {

/// Decoding the bytes of a record gives the record back.
pub proof fn lemma_record_round_trip(record: CounterAccount)
    ensures
        record.encode().len() == 8,
        CounterAccount::decode(record.encode()) == Ok::<CounterAccount, ProgramError>(record),
{
    lemma_u64_le_round_trip(record.count);
}

/// Encoding the record that well-formed bytes hold gives the bytes back.
pub proof fn lemma_record_bytes_round_trip(data: Seq<u8>)
    requires
        CounterAccount::decode(data) is Ok,
    ensures
        CounterAccount::decode(data)->Ok_0.encode() == data,
{
    lemma_u64_le_bytes_round_trip(data);
}

/// Decoding the payload of an operation gives the operation back.
pub proof fn lemma_instruction_round_trip(instruction: CounterInstruction)
    ensures
        CounterInstruction::decode(instruction.encode()) == Ok::<CounterInstruction, ProgramError>(
            instruction,
        ),
{
}

/// Increment on a writable counter that holds `n`, with `n` below the
/// largest count, succeeds and leaves the counter holding `n + 1`; every
/// other account, and the counter's balance, stay as they were.
pub proof fn lemma_increment_adds_one(accounts: Seq<AccountView>, n: u64)
    requires
        accounts.len() >= 1,
        accounts[0].is_writable,
        accounts[0].counter() == Some(CounterState::Present(n)),
        n < u64::MAX,
    ensures
        increment(accounts) is Ok,
        increment(accounts)->Ok_0.len() == accounts.len(),
        increment(accounts)->Ok_0[0].counter() == Some(CounterState::Present((n + 1) as u64)),
        increment(accounts)->Ok_0[0].lamports == accounts[0].lamports,
        forall|i: int| 1 <= i < accounts.len() ==> increment(accounts)->Ok_0[i] == accounts[i],
{
    lemma_record_round_trip(CounterAccount { count: (n + 1) as u64 });
}

/// Increment on a writable counter that holds the largest count succeeds
/// and leaves the count where it is.
pub proof fn lemma_increment_saturates(accounts: Seq<AccountView>)
    requires
        accounts.len() >= 1,
        accounts[0].is_writable,
        accounts[0].counter() == Some(CounterState::Present(u64::MAX)),
    ensures
        increment(accounts) is Ok,
        increment(accounts)->Ok_0[0].counter() == Some(CounterState::Present(u64::MAX)),
{
    lemma_record_round_trip(CounterAccount { count: u64::MAX });
}

/// Increment never lowers a count.
pub proof fn lemma_increment_is_monotonic(accounts: Seq<AccountView>, n: u64)
    requires
        accounts.len() >= 1,
        accounts[0].counter() == Some(CounterState::Present(n)),
        increment(accounts) is Ok,
    ensures
        increment(accounts)->Ok_0[0].counter() matches Some(CounterState::Present(m)) && m >= n,
{
    let m: u64 = if n < u64::MAX {
        (n + 1) as u64
    } else {
        u64::MAX
    };
    lemma_record_round_trip(CounterAccount { count: m });
}

/// Reset on a writable counter that holds any count: with the authority's
/// signature it succeeds and leaves the counter holding zero; without, it
/// fails for want of the signature.
pub proof fn lemma_reset_zeroes(accounts: Seq<AccountView>, n: u64)
    requires
        accounts.len() >= 2,
        accounts[0].is_writable,
        accounts[0].counter() == Some(CounterState::Present(n)),
    ensures
        accounts[1].is_signer ==> reset(accounts) is Ok && reset(accounts)->Ok_0[0].counter()
            == Some(CounterState::Present(0)) && reset(accounts)->Ok_0[1] == accounts[1],
        !accounts[1].is_signer ==> reset(accounts) == Err::<Seq<AccountView>, ProgramError>(
            ProgramError::MissingRequiredSignature,
        ),
{
    lemma_record_round_trip(CounterAccount { count: 0 });
}

/// Close on a writable counter that holds any count, with the authority's
/// signature and balances whose sum a balance can hold: it succeeds, the
/// counter is absent afterwards, with no balance and zeroed bytes, and the
/// authority's balance has grown by exactly what the counter held.
pub proof fn lemma_close_returns_deposit(accounts: Seq<AccountView>, n: u64)
    requires
        accounts.len() >= 2,
        accounts[0].is_writable,
        accounts[1].is_signer,
        accounts[0].counter() == Some(CounterState::Present(n)),
        accounts[1].lamports + accounts[0].lamports <= u64::MAX,
    ensures
        close(accounts) is Ok,
        close(accounts)->Ok_0.len() == accounts.len(),
        close(accounts)->Ok_0[0].counter() == Some(CounterState::Absent),
        close(accounts)->Ok_0[0].lamports == 0,
        close(accounts)->Ok_0[0].data == zeros(accounts[0].data.len()),
        close(accounts)->Ok_0[1].lamports == accounts[1].lamports + accounts[0].lamports,
        close(accounts)->Ok_0[1].data == accounts[1].data,
        forall|i: int| 2 <= i < accounts.len() ==> close(accounts)->Ok_0[i] == accounts[i],
{
    let after = close(accounts)->Ok_0;
}

/// Close on any list whose balances add up beyond the largest balance is
/// refused as an overflow, once the counter is writable and the authority
/// has signed.
pub proof fn lemma_close_overflow(accounts: Seq<AccountView>)
    requires
        accounts.len() >= 2,
        accounts[0].is_writable,
        accounts[1].is_signer,
        accounts[1].lamports + accounts[0].lamports > u64::MAX,
    ensures
        close(accounts) == Err::<Seq<AccountView>, ProgramError>(ProgramError::ArithmeticOverflow),
{
}

/// The storage that the ledger hands out, zeroed and of the record's size
/// with a deposit on it, is a counter at zero, and completing Initialize on
/// it succeeds and leaves it so.
pub proof fn lemma_created_counter_is_zero(accounts: Seq<AccountView>)
    requires
        accounts.len() >= 1,
        accounts[0].lamports > 0,
        accounts[0].data == zeros(8),
    ensures
        accounts[0].counter() == Some(CounterState::Present(0)),
        initialized(accounts) is Ok,
        initialized(accounts)->Ok_0[0].counter() == Some(CounterState::Present(0)),
{
    lemma_record_round_trip(CounterAccount { count: 0 });
}

/// The merit account's address depends on the user and the program alone:
/// whatever two derivations for the same two return, they return the same.
pub proof fn lemma_gongde_address_is_determined(
    user: Address,
    program_id: Address,
    first: Result<Address, ProgramError>,
    second: Result<Address, ProgramError>,
)
    requires
        address_view(first) == gongde_account_address(user, program_id),
        address_view(second) == gongde_account_address(user, program_id),
    ensures
        first == second,
{
    if first is Ok {
        assert(first->Ok_0.bytes =~= second->Ok_0.bytes);
    }
}

/// The counter's address depends on the user and the program alone:
/// whatever two searches for the same two find, they find the same.
pub proof fn lemma_counter_address_is_determined(
    user: Address,
    program_id: Address,
    first: Option<(Address, u8)>,
    second: Option<(Address, u8)>,
)
    requires
        derived_view(first) == program_address(counter_seeds(user), program_id@),
        derived_view(second) == program_address(counter_seeds(user), program_id@),
    ensures
        first == second,
{
    if first is Some {
        assert(first->Some_0.0.bytes =~= second->Some_0.0.bytes);
    }
}

/// Two lists of the same accounts: as many, and each with the address, the
/// rights and the size of storage that it had.
pub open spec fn same_shape(before: Seq<AccountView>, after: Seq<AccountView>) -> bool {
    &&& after.len() == before.len()
    &&& forall|i: int|
        0 <= i < before.len() ==> {
            &&& (#[trigger] after[i]).key == before[i].key
            &&& after[i].is_signer == before[i].is_signer
            &&& after[i].is_writable == before[i].is_writable
            &&& after[i].data.len() == before[i].data.len()
        }
}

/// No operation of the counter program adds, removes, moves or resizes an
/// account, and only Close moves balance: increments, resets and the first
/// record leave every balance as it was, and Close leaves the sum of the
/// two balances as it was.
pub proof fn lemma_operations_keep_shape(accounts: Seq<AccountView>)
    ensures
        increment(accounts) matches Ok(after) ==> same_shape(accounts, after) && forall|i: int|
            0 <= i < accounts.len() ==> (#[trigger] after[i]).lamports == accounts[i].lamports,
        reset(accounts) matches Ok(after) ==> same_shape(accounts, after) && forall|i: int|
            0 <= i < accounts.len() ==> (#[trigger] after[i]).lamports == accounts[i].lamports,
        initialized(accounts) matches Ok(after) ==> same_shape(accounts, after) && forall|i: int|
            0 <= i < accounts.len() ==> (#[trigger] after[i]).lamports == accounts[i].lamports,
        close(accounts) matches Ok(after) ==> same_shape(accounts, after) && after[0].lamports
            + after[1].lamports == accounts[0].lamports + accounts[1].lamports,
{
    if increment(accounts) is Ok {
        lemma_record_round_trip(
            CounterAccount {
                count: incremented(CounterAccount::decode(accounts[0].data)->Ok_0.count),
            },
        );
    }
    if reset(accounts) is Ok || initialized(accounts) is Ok {
        lemma_record_round_trip(CounterAccount { count: 0 });
    }
}

/// A merit list that Increment accepts: four accounts, the user's
/// signature, both merit accounts at their derived addresses and writable.
pub open spec fn gongde_list_is_accepted(
    accounts: Seq<AccountView>,
    merit_address: Result<Seq<u8>, ProgramError>,
    global_address: Option<(Seq<u8>, u8)>,
) -> bool {
    &&& accounts.len() >= 4
    &&& accounts[1].is_signer
    &&& merit_address == Ok::<Seq<u8>, ProgramError>(accounts[0].key@)
    &&& global_address matches Some((address, _)) && address == accounts[2].key@
    &&& accounts[0].is_writable
    &&& accounts[2].is_writable
}

/// Increment on an accepted list whose two merit accounts exist and hold
/// `own` and `global`: it is complete at once, and both values have gone up
/// by exactly one, or stayed at the largest value. Nothing else has changed.
pub proof fn lemma_gongde_increment_adds_one(
    program_id: Address,
    accounts: Seq<AccountView>,
    merit_address: Result<Seq<u8>, ProgramError>,
    global_address: Option<(Seq<u8>, u8)>,
    own: u32,
    global: u32,
)
    requires
        gongde_list_is_accepted(accounts, merit_address, global_address),
        accounts[0].lamports > 0,
        accounts[2].lamports > 0,
        gongde_value(accounts[0].data) == Ok::<u32, ProgramError>(own),
        gongde_value(accounts[2].data) == Ok::<u32, ProgramError>(global),
    ensures
        gongde_increment(program_id, accounts, merit_address, global_address) matches Ok(
            (after, step),
        ) && {
            &&& step == Step::Done
            &&& after.len() == accounts.len()
            &&& gongde_value(after[0].data) == Ok::<u32, ProgramError>(gongde_incremented(own))
            &&& gongde_value(after[2].data) == Ok::<u32, ProgramError>(gongde_incremented(global))
            &&& after[0].lamports == accounts[0].lamports
            &&& after[2].lamports == accounts[2].lamports
            &&& forall|i: int| 0 <= i < accounts.len() && i != 0 && i != 2 ==> after[i] == accounts[i]
        },
        own < u32::MAX ==> gongde_incremented(own) == own + 1,
        global < u32::MAX ==> gongde_incremented(global) == global + 1,
        gongde_incremented(u32::MAX) == u32::MAX,
{
    lemma_gongde_value_round_trip(accounts[0].data, gongde_incremented(own));
    lemma_gongde_value_round_trip(accounts[2].data, gongde_incremented(global));
}

/// Increment on an accepted list with a merit account that does not exist
/// yet changes nothing and asks the ledger to create the account: the user's
/// where that is missing, else the global one.
pub proof fn lemma_gongde_increment_creates_first(
    program_id: Address,
    accounts: Seq<AccountView>,
    merit_address: Result<Seq<u8>, ProgramError>,
    global_address: Option<(Seq<u8>, u8)>,
)
    requires
        gongde_list_is_accepted(accounts, merit_address, global_address),
        accounts[0].lamports == 0 || accounts[2].lamports == 0,
    ensures
        gongde_increment(program_id, accounts, merit_address, global_address) matches Ok(
            (after, step),
        ) && {
            &&& after == accounts
            &&& accounts[0].lamports == 0 ==> step == Step::CreateAccountWithSeed(
                (CreateAccountWithSeed {
                    payer: accounts[1].key,
                    new_account: accounts[0].key,
                    base: accounts[1].key,
                    space: 4,
                    owner: program_id,
                }),
            )
            &&& accounts[0].lamports > 0 ==> step == Step::CreateAccount(
                (CreateAccount {
                    payer: accounts[1].key,
                    new_account: accounts[2].key,
                    space: 4,
                    owner: program_id,
                    bump_seed: global_address->Some_0.1,
                }),
            )
        },
{
}

/// Storage that the ledger has just handed out, zeroed and of the value's
/// size, holds the value zero; the first Increment leaves it at one.
pub proof fn lemma_created_merit_is_zero()
    ensures
        gongde_value(zeros(4)) == Ok::<u32, ProgramError>(0),
        gongde_incremented(0) == 1,
{
}

/// A payload without bytes is read as an increment.
pub proof fn lemma_empty_payload_increments(program_id: Address, accounts: Seq<AccountView>)
    ensures
        operation_tag(Seq::<u8>::empty()) == 0,
        GongDeInstruction::of_tag(0) == Ok::<GongDeInstruction, ProgramError>(
            GongDeInstruction::Increment,
        ),
        GongDeInstruction::decode(Seq::<u8>::empty()) is Err,
        gongde_process(program_id, accounts, Seq::<u8>::empty()) == gongde_process(
            program_id,
            accounts,
            seq![0u8],
        ),
{
}

} // verus!

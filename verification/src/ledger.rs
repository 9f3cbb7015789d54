use vstd::prelude::*;
use crate::account::{views, Account, AccountView};
use crate::address::Address;
use crate::error::ProgramError;

verus! {

/// A request to the ledger to create an account at a program-derived
/// address: who pays the deposit, the address to create, the size of its
/// storage, the program that will own it, and the bump seed with which the
/// program signs for the address.
#[derive(Debug, Clone, Copy, PartialEq, Eq)]
pub struct CreateAccount {
    pub payer: Address,
    pub new_account: Address,
    pub space: u64,
    pub owner: Address,
    pub bump_seed: u8,
}

/// A request to the ledger to create an account at a seeded address: who
/// pays the deposit, the address to create, the base that the address was
/// derived from and that signs for it, the size of its storage, and the
/// program that will own it.
#[derive(Debug, Clone, Copy, PartialEq, Eq)]
pub struct CreateAccountWithSeed {
    pub payer: Address,
    pub new_account: Address,
    pub base: Address,
    pub space: u64,
    pub owner: Address,
}

/// What is left to do when an instruction returns. Where the ledger has to
/// act, the instruction has changed nothing yet.
#[derive(Debug, Clone, Copy, PartialEq, Eq)]
pub enum Step {
    /// Nothing: the instruction is complete.
    Done,
    /// The ledger creates an account at a program-derived address.
    CreateAccount(CreateAccount),
    /// The ledger creates an account at a seeded address.
    CreateAccountWithSeed(CreateAccountWithSeed),
}

/// Whether a handler that was handed `before` and left `after` with the
/// result `r` did what `expected` says: on success the list is the expected
/// one, on failure the error is the expected one and the list is untouched.
pub open spec fn carried_out(
    expected: Result<Seq<AccountView>, ProgramError>,
    before: Seq<Account>,
    after: Seq<Account>,
    r: Result<(), ProgramError>,
) -> bool {
    match expected {
        Ok(list) => r is Ok && views(after) == list,
        Err(e) => r == Err::<(), ProgramError>(e) && after == before,
    }
}

/// The same for a handler that may leave something to the ledger: on
/// success the list and the step are the expected ones.
pub open spec fn stepped(
    expected: Result<(Seq<AccountView>, Step), ProgramError>,
    before: Seq<Account>,
    after: Seq<Account>,
    r: Result<Step, ProgramError>,
) -> bool {
    match expected {
        Ok((list, step)) => r == Ok::<Step, ProgramError>(step) && views(after) == list,
        Err(e) => r == Err::<Step, ProgramError>(e) && after == before,
    }
}

} // verus!

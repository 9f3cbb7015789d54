//! Counters that live in ledger accounts.
//!
//! A counter is one unsigned number stored at a derived address. Two
//! programs keep such counters.
//!
//! The counter program (`processor`) reads its operation from a one-byte
//! tagged payload and keeps a 64-bit count per user. A counter is created by
//! an explicit Initialize and starts at zero; Increment adds one, Reset sets
//! it back to zero, Close hands the deposit back.
//!
//! The merit program (`gongde`) reads its operation from the first byte of
//! the payload and keeps a 32-bit value per user, and one for the program as
//! a whole that counts every increment. It has no Initialize: accounts are
//! created on the first Increment, which leaves them at one.
//!
//! The ledger itself is not part of this crate. Handlers work on the account
//! list they are handed, and where the ledger has to act, they say so in
//! their result (`ledger`) and change nothing. Every refusal leaves the list
//! as it was.

pub mod account;
pub mod address;
pub mod error;
pub mod gongde;
pub mod instruction;
pub mod laws;
pub mod ledger;
pub mod processor;
pub mod state;
pub mod utils;
pub mod wire;

pub use crate::account::{Account, CounterState};
pub use crate::address::Address;
pub use crate::error::ProgramError;
pub use crate::instruction::CounterInstruction;
pub use crate::ledger::{CreateAccount, CreateAccountWithSeed, Step};
pub use crate::processor::{complete_initialize, process_instruction};
pub use crate::state::CounterAccount;

use vstd::prelude::*;
use crate::address::Address;
use crate::state::CounterAccount;

verus! {

/// One entry of the account list that an invocation is handed: the
/// account's address, what the invocation may do with it, its balance and
/// its stored bytes.
#[derive(Debug, Clone, PartialEq, Eq)]
pub struct Account {
    pub key: Address,
    pub is_signer: bool,
    pub is_writable: bool,
    pub lamports: u64,
    pub data: Vec<u8>,
}

/// An account as contracts see it.
pub struct AccountView {
    pub key: Address,
    pub is_signer: bool,
    pub is_writable: bool,
    pub lamports: u64,
    pub data: Seq<u8>,
}

impl View for Account {
    type V = AccountView;

    open spec fn view(&self) -> AccountView {
        AccountView {
            key: self.key,
            is_signer: self.is_signer,
            is_writable: self.is_writable,
            lamports: self.lamports,
            data: self.data@,
        }
    }
}

/// An account list as contracts see it.
pub open spec fn views(accounts: Seq<Account>) -> Seq<AccountView> {
    Seq::new(accounts.len(), |i: int| accounts[i]@)
}

/// `n` zero bytes.
pub open spec fn zeros(n: nat) -> Seq<u8> {
    Seq::new(n, |i: int| 0u8)
}

/// The life of a counter: it is not there, or it is there with a value.
#[derive(Debug, Clone, Copy, PartialEq, Eq, Structural)]
pub enum CounterState {
    Absent,
    Present(u64),
}

impl AccountView {
    /// The same account with other stored bytes.
    pub open spec fn with_data(self, data: Seq<u8>) -> AccountView {
        AccountView { data, ..self }
    }

    /// The same account with another balance.
    pub open spec fn with_lamports(self, lamports: u64) -> AccountView {
        AccountView { lamports, ..self }
    }

    /// The counter this account stands for. An account without balance and
    /// with nothing but zero bytes is an absent counter; one with a balance
    /// and a well-formed record is a counter with the recorded value. Any
    /// other account stands for none.
    pub open spec fn counter(self) -> Option<CounterState> {
        if self.lamports == 0 {
            if self.data == zeros(self.data.len()) {
                Some(CounterState::Absent)
            } else {
                None
            }
        } else {
            match CounterAccount::decode(self.data) {
                Ok(record) => Some(CounterState::Present(record.count)),
                Err(_) => None,
            }
        }
    }
}

/// Whether every byte is zero.
fn is_zeroed(data: &Vec<u8>) -> (r: bool)
    ensures
        r == (data@ == zeros(data@.len())),
{
    let mut i: usize = 0;
    while i < data.len()
        invariant
            i <= data@.len(),
            forall|j: int| 0 <= j < i ==> data@[j] == 0u8,
        decreases data@.len() - i,
    {
        if data[i] != 0 {
            return false;
        }
        i += 1;
    }
    assert(data@ =~= zeros(data@.len()));
    true
}

impl Account {
    /// The counter this account stands for, where it stands for one.
    pub fn counter(&self) -> (r: Option<CounterState>)
        ensures
            r == self@.counter(),
    {
        if self.lamports == 0 {
            if is_zeroed(&self.data) {
                Some(CounterState::Absent)
            } else {
                None
            }
        } else {
            match CounterAccount::try_from_slice(self.data.as_slice()) {
                Ok(record) => Some(CounterState::Present(record.count)),
                Err(_) => None,
            }
        }
    }
}

} // verus!

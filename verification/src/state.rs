use vstd::prelude::*;
use crate::error::ProgramError;
use crate::wire::{u64_from_le, u64_from_slice, u64_to_le, u64_to_vec};

verus! {

/// Number of bytes the stored record takes.
pub const COUNTER_ACCOUNT_SIZE: usize = 8;

/// The record a counter account stores: one count, little-endian, with
/// nothing before or after it.
#[derive(Debug, Clone, Copy, PartialEq, Eq, Structural)]
pub struct CounterAccount {
    pub count: u64,
}

impl CounterAccount {
    /// The bytes that stand for this record.
    pub open spec fn encode(self) -> Seq<u8> {
        u64_to_le(self.count)
    }

    /// The record that stored bytes stand for. Fewer bytes than the record
    /// takes are too small; more are not a record.
    pub open spec fn decode(data: Seq<u8>) -> Result<CounterAccount, ProgramError> {
        if data.len() < COUNTER_ACCOUNT_SIZE {
            Err(ProgramError::AccountDataTooSmall)
        } else if data.len() > COUNTER_ACCOUNT_SIZE {
            Err(ProgramError::BorshIoError)
        } else {
            Ok(CounterAccount { count: u64_from_le(data) })
        }
    }

    /// Reads a record from stored bytes.
    pub fn try_from_slice(data: &[u8]) -> (r: Result<CounterAccount, ProgramError>)
        ensures
            r == Self::decode(data@),
    {
        if data.len() < COUNTER_ACCOUNT_SIZE {
            return Err(ProgramError::AccountDataTooSmall);
        }
        match u64_from_slice(data) {
            Ok(count) => Ok(CounterAccount { count }),
            Err(_) => Err(ProgramError::BorshIoError),
        }
    }

    /// Writes the record over the first bytes of `data` and leaves the rest
    /// as it was. Storage too short for the record is refused and not touched.
    pub fn serialize(&self, data: &mut Vec<u8>) -> (r: Result<(), ProgramError>)
        ensures
            old(data)@.len() >= COUNTER_ACCOUNT_SIZE ==> r is Ok && final(data)@ == self.encode()
                + old(data)@.skip(COUNTER_ACCOUNT_SIZE as int),
            old(data)@.len() < COUNTER_ACCOUNT_SIZE ==> r == Err::<(), ProgramError>(
                ProgramError::BorshIoError,
            ) && final(data)@ == old(data)@,
    {
        if data.len() < COUNTER_ACCOUNT_SIZE {
            return Err(ProgramError::BorshIoError);
        }
        match u64_to_vec(self.count) {
            Ok(bytes) => {
                let mut i: usize = 0;
                while i < COUNTER_ACCOUNT_SIZE
                    invariant
                        i <= COUNTER_ACCOUNT_SIZE,
                        bytes@ == self.encode(),
                        data@.len() == old(data)@.len(),
                        data@.len() >= COUNTER_ACCOUNT_SIZE,
                        forall|j: int| 0 <= j < i ==> data@[j] == bytes@[j],
                        forall|j: int| i <= j < data@.len() ==> data@[j] == old(data)@[j],
                    decreases COUNTER_ACCOUNT_SIZE - i,
                {
                    data[i] = bytes[i];
                    i += 1;
                }
                Ok(())
            },
            Err(_) => Err(ProgramError::BorshIoError),
        }
    }
}

} // verus!

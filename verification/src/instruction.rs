use vstd::prelude::*;
use crate::error::ProgramError;
use crate::wire::u8_from_slice;

verus! {

/// The operations of the counter program. On the wire an operation is one
/// byte, its tag, and nothing else.
#[derive(Debug, Clone, Copy, PartialEq, Eq, Structural)]
pub enum CounterInstruction {
    /// Create the caller's counter and set it to zero.
    Initialize,
    /// Add one to the counter.
    Increment,
    /// Set the counter back to zero.
    Reset,
    /// Close the account and hand its balance back.
    Close,
}

impl CounterInstruction {
    /// The byte that names this operation on the wire.
    pub open spec fn spec_tag(self) -> u8 {
        match self {
            CounterInstruction::Initialize => 0,
            CounterInstruction::Increment => 1,
            CounterInstruction::Reset => 2,
            CounterInstruction::Close => 3,
        }
    }

    /// The payload that names this operation.
    pub open spec fn encode(self) -> Seq<u8> {
        seq![self.spec_tag()]
    }

    /// The operation that a payload names: a payload of exactly one byte
    /// that is a known tag. Everything else is invalid.
    pub open spec fn decode(data: Seq<u8>) -> Result<CounterInstruction, ProgramError> {
        if data.len() != 1 {
            Err(ProgramError::InvalidInstructionData)
        } else if data[0] == 0 {
            Ok(CounterInstruction::Initialize)
        } else if data[0] == 1 {
            Ok(CounterInstruction::Increment)
        } else if data[0] == 2 {
            Ok(CounterInstruction::Reset)
        } else if data[0] == 3 {
            Ok(CounterInstruction::Close)
        } else {
            Err(ProgramError::InvalidInstructionData)
        }
    }

    #[verifier::when_used_as_spec(spec_tag)]
    pub fn tag(self) -> (r: u8)
        ensures
            r == self.spec_tag(),
    {
        match self {
            CounterInstruction::Initialize => 0,
            CounterInstruction::Increment => 1,
            CounterInstruction::Reset => 2,
            CounterInstruction::Close => 3,
        }
    }

    /// Reads an operation from a payload.
    pub fn try_from_slice(data: &[u8]) -> (r: Result<CounterInstruction, ProgramError>)
        ensures
            r == Self::decode(data@),
    {
        match u8_from_slice(data) {
            Ok(tag) => Self::from_tag(tag),
            Err(_) => Err(ProgramError::InvalidInstructionData),
        }
    }

    /// The operation that a tag names.
    pub fn from_tag(tag: u8) -> (r: Result<CounterInstruction, ProgramError>)
        ensures
            r == Self::decode(seq![tag]),
    {
        if tag == 0 {
            Ok(CounterInstruction::Initialize)
        } else if tag == 1 {
            Ok(CounterInstruction::Increment)
        } else if tag == 2 {
            Ok(CounterInstruction::Reset)
        } else if tag == 3 {
            Ok(CounterInstruction::Close)
        } else {
            Err(ProgramError::InvalidInstructionData)
        }
    }
}

} // verus!

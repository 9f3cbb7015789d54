use vstd::prelude::*;

verus! {

/// Why an instruction was refused. Every failure is immediate and leaves the
/// accounts it was handed untouched.
#[derive(Debug, Clone, Copy, PartialEq, Eq, Structural)]
pub enum ProgramError {
    /// The payload names no known operation, or is malformed.
    InvalidInstructionData,
    /// An account has the wrong address or is not writable.
    InvalidAccountData,
    /// The stored bytes are shorter than the counter's encoding.
    AccountDataTooSmall,
    /// The authorizing account did not sign the invocation.
    MissingRequiredSignature,
    /// The account list is shorter than the operation needs.
    NotEnoughAccountKeys,
    /// A balance addition would exceed the largest representable balance.
    ArithmeticOverflow,
    /// The seeds handed to the seeded-hash derivation are not acceptable.
    InvalidSeeds,
    /// The bump search found no address off the curve.
    NoValidAddress,
    /// The stored bytes are not a well-formed record.
    BorshIoError,
}

} // verus!

//! Why an instruction was rejected.
use vstd::prelude::*;

verus! {

/// The ways an instruction can fail. Every failure leaves the accounts as they were.
#[derive(Debug, Clone, Copy, PartialEq, Eq, Structural)]
pub enum CounterError {
    /// The instruction bytes are not the encoding of an instruction.
    InvalidInstructionData,
    /// Initialize was given an account that already holds data.
    AccountAlreadyInitialized,
    /// The counter account is not owned by this program.
    IncorrectProgramId,
    /// Increment or decrement was given an account that holds no data yet.
    UninitializedAccount,
    /// The stored record is malformed, or the new count would leave the `u64` range.
    InvalidAccountData,
    /// Fewer accounts were passed than the instruction reads.
    NotEnoughAccountKeys,
}

} // verus!

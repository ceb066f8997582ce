//! The errors that the faucet's instructions return.
use vstd::prelude::*;

verus! {

/// Why an instruction was refused. The variants carry the names of the runtime's
/// program errors that they stand for.
#[derive(Debug, Clone, PartialEq, Eq)]
pub enum FaucetError {
    /// Fewer accounts were passed than the instruction reads.
    NotEnoughAccountKeys,
    /// The rent sysvar account is not the rent sysvar, or its data does not decode.
    InvalidArgument,
    /// The instruction data is empty or names no instruction.
    InvalidInstructionData,
    /// The faucet account is not owned by the program, or is not writable.
    InvalidAccountData,
    /// The admin account did not sign.
    MissingRequiredSignature,
    /// The faucet account's balance is below the rent-exempt minimum for its size.
    AccountNotRentExempt,
    /// The faucet account is not owned by the program.
    IncorrectProgramId,
    /// The faucet account holds no lamports.
    InsufficientFunds,
    /// The faucet state could not be written to, or read from, the faucet account's data;
    /// the text is the encoder's message.
    BorshIoError(String),
}

} // verus!

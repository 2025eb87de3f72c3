use vstd::prelude::*;

verus! {

/// The one error code that a failed transition reports.
#[derive(Clone, Copy, Debug, PartialEq, Eq, Structural)]
pub enum ProgramError {
    NotEnoughAccountKeys,
    NotSigner,
    NotWritable,
    InvalidOwner,
    InvalidSeeds,
    AlreadyInitialized,
    UninitializedAccount,
    InvalidAccountData,
    InvalidInstructionData,
    InvalidProgram,
    InvalidSysvar,
    InvalidMint,
    ArithmeticOverflow,
    ArithmeticUnderflow,
    InsufficientFunds,
}

} // verus!

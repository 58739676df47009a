//! The ways in which an instruction's accounts can fail the wrapper's checks.

use vstd::prelude::*;

verus! {

/// Why an instruction's accounts were rejected.
///
/// Each variant names the first constraint that failed, in the order the
/// accounts are declared; within one account, mutability is checked before
/// signer-ness and ownership.
#[derive(Clone, Copy, Debug, PartialEq, Eq, Structural)]
pub enum ValidationError {
    /// An account that the instruction must be able to write to is read-only.
    NotWritable,
    /// An account that must have signed the transaction did not.
    NotSigner,
    /// A token or mint account is not owned by the token program.
    WrongOwner,
    /// A program account's key is not the expected program's id.
    IncorrectProgramId,
    /// A program account is not executable.
    NotExecutable,
    /// The rent sysvar account's key is not the rent sysvar's id.
    WrongSysvar,
}

impl ValidationError {
    /// A short description of the error.
    pub fn describe(&self) -> (r: &'static str)
        ensures
            r@.len() > 0,
    {
        let r = match self {
            ValidationError::NotWritable => "account is not writable",
            ValidationError::NotSigner => "account did not sign",
            ValidationError::WrongOwner => "account is not owned by the token program",
            ValidationError::IncorrectProgramId => "incorrect program id",
            ValidationError::NotExecutable => "program account is not executable",
            ValidationError::WrongSysvar => "incorrect rent sysvar account",
        };
        proof {
            reveal_strlit("account is not writable");
            reveal_strlit("account did not sign");
            reveal_strlit("account is not owned by the token program");
            reveal_strlit("incorrect program id");
            reveal_strlit("program account is not executable");
            reveal_strlit("incorrect rent sysvar account");
        }
        r
    }
}

} // verus!

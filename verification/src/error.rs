use vstd::prelude::*;

verus! {

/// Errors raised by the escrow program itself.
#[derive(Debug, Clone, Copy, PartialEq, Eq, Structural)]
pub enum ErrorCode {
    /// The time lock has not elapsed.
    TimeLockActive,
}

/// The message shown to clients for `e`.
pub open spec fn error_message(e: ErrorCode) -> Seq<char> {
    match e {
        ErrorCode::TimeLockActive => "The time lock has not elapsed"@,
    }
}

impl ErrorCode {
    /// The message shown to clients for this error.
    pub fn msg(&self) -> (s: &'static str)
        ensures
            s@ == error_message(*self),
    {
        match self {
            ErrorCode::TimeLockActive => "The time lock has not elapsed",
        }
    }
}

/// A constraint on the accounts of an instruction that they fail; the names are those of
/// the framework's error codes.
#[derive(Debug, Clone, Copy, PartialEq, Eq, Structural)]
pub enum ConstraintError {
    /// An account's stored key differs from the account passed for it.
    ConstraintHasOne,
    /// An account's address is not the program address of its seeds.
    ConstraintSeeds,
    /// An account would be closed to itself.
    ConstraintClose,
    /// A token account's authority differs from the one required.
    ConstraintTokenOwner,
    /// A token account is not the associated token account of its authority and mint.
    ConstraintAssociated,
    /// A token account holds tokens of another mint than the one required.
    ConstraintTokenMint,
    /// A token account belongs to another token program than the one passed.
    ConstraintAssociatedTokenTokenProgram,
    /// An existing token account is not at the associated token address.
    AccountNotAssociatedTokenAccount,
    /// The same account is passed for two accounts that the instruction writes.
    ConstraintDuplicateMutableAccount,
}

/// Why an instruction was refused.
#[derive(Debug, Clone, Copy, PartialEq, Eq, Structural)]
pub enum EscrowError {
    /// The accounts fail a constraint, checked before the instruction runs.
    Constraint(ConstraintError),
    /// The instruction itself refused.
    Program(ErrorCode),
}

} // verus!

//! The errors the market's instructions answer with, and the event it emits
//! when a curve starts to migrate.

use vstd::prelude::*;

verus! {

/// The first number the program's own error codes take.
pub const ERROR_CODE_OFFSET: u32 = 6000;

/// Why an instruction was refused.
#[derive(Debug, Clone, Copy, PartialEq, Eq)]
pub enum CustomError {
    NoFeesToWithdraw,
    InvalidSigner,
    CurveInMigration,
}

impl CustomError {
    /// The error's number: the offset plus its position in the enum.
    pub fn code(&self) -> (code: u32)
        ensures
            code == ERROR_CODE_OFFSET + match self {
                CustomError::NoFeesToWithdraw => 0int,
                CustomError::InvalidSigner => 1int,
                CustomError::CurveInMigration => 2int,
            },
    {
        match self {
            CustomError::NoFeesToWithdraw => ERROR_CODE_OFFSET,
            CustomError::InvalidSigner => ERROR_CODE_OFFSET + 1,
            CustomError::CurveInMigration => ERROR_CODE_OFFSET + 2,
        }
    }

    /// The error's message.
    pub fn message(&self) -> (msg: &'static str)
        ensures
            msg@ == match self {
                CustomError::NoFeesToWithdraw => "No fees to withdraw"@,
                CustomError::InvalidSigner => "Invalid signer"@,
                CustomError::CurveInMigration => "Curve is being migrated"@,
            },
    {
        match self {
            CustomError::NoFeesToWithdraw => "No fees to withdraw",
            CustomError::InvalidSigner => "Invalid signer",
            CustomError::CurveInMigration => "Curve is being migrated",
        }
    }
}

/// Emitted when a purchase lifts a curve's market cap to the target, with the
/// key of the curve's mint.
#[derive(Debug, Clone, Copy, PartialEq, Eq)]
pub struct InitializeMigrateEvent {
    pub mint: [u8; 32],
}

} // verus!

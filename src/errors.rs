use vstd::prelude::*;

verus! {

/// Every way an operation on a vault can be rejected.
#[derive(Clone, Copy, Debug, PartialEq, Eq, Structural)]
pub enum UrbaniumError {
    InvalidVaultPda,
    InvalidVaultAuthorityPda,
    InvalidUserPositionPda,
    InvalidTokenProgram,
    InvalidMint,
    InvalidVaultTokenAccount,
    InvalidYieldTokenAccount,
    ArithmeticOverflow,
    InsufficientLiquidity,
    InvalidOracleOwner,
    OraclePriceUnavailable,
    OracleStale,
    OracleConfidenceTooHigh,
    OracleExponentMismatch,
    InsufficientShares,
    ZeroAmount,
    ZeroShares,
}

impl UrbaniumError {
    /// The human-readable message of the error.
    pub fn message(&self) -> (r: &'static str) {
        match self {
            UrbaniumError::InvalidVaultPda => "Invalid vault PDA",
            UrbaniumError::InvalidVaultAuthorityPda => "Invalid vault authority PDA",
            UrbaniumError::InvalidUserPositionPda => "Invalid user position PDA",
            UrbaniumError::InvalidTokenProgram => "Invalid token program",
            UrbaniumError::InvalidMint => "Invalid mint",
            UrbaniumError::InvalidVaultTokenAccount => "Invalid vault token account",
            UrbaniumError::InvalidYieldTokenAccount => "Invalid yield token account",
            UrbaniumError::ArithmeticOverflow => "Arithmetic overflow",
            UrbaniumError::InsufficientLiquidity => "Insufficient liquidity in vault",
            UrbaniumError::InvalidOracleOwner => "Oracle feed account owner mismatch",
            UrbaniumError::OraclePriceUnavailable => "Oracle price unavailable",
            UrbaniumError::OracleStale => "Oracle price is too stale",
            UrbaniumError::OracleConfidenceTooHigh => "Oracle confidence interval too large",
            UrbaniumError::OracleExponentMismatch => "Oracle exponent mismatch",
            UrbaniumError::InsufficientShares => "Withdraw shares exceeds position shares",
            UrbaniumError::ZeroAmount => "Deposit amount must be non-zero",
            UrbaniumError::ZeroShares => "Shares must be non-zero",
        }
    }
}

} // verus!

//! A pooled-fund vault: share accounting, oracle validation, yield routing and the
//! ordered liquidity drain, with the state transitions of its four operations.

pub mod drain;
pub mod errors;
pub mod instructions;
pub mod oracle;
pub mod pda;
pub mod router;
pub mod shares;
pub mod state;
pub mod supply;

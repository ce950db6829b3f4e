use vstd::prelude::*;

verus! {

/// A 32-byte account identity.
#[derive(Clone, Copy, Debug, Eq)]
pub struct Address {
    pub bytes: [u8; 32],
}

impl Address {
    pub fn new(bytes: [u8; 32]) -> (r: Address)
        ensures
            r.bytes == bytes,
    {
        Address { bytes }
    }
}

impl PartialEq for Address {
    fn eq(&self, other: &Address) -> (r: bool) {
        let mut i: usize = 0;
        while i < 32
            invariant
                0 <= i <= 32,
                forall|j: int| 0 <= j < i ==> self.bytes@[j] == other.bytes@[j],
            decreases 32 - i,
        {
            if self.bytes[i] != other.bytes[i] {
                return false;
            }
            i = i + 1;
        }
        proof {
            assert(self.bytes@ =~= other.bytes@);
        }
        true
    }
}

impl vstd::std_specs::cmp::PartialEqSpecImpl for Address {
    open spec fn obeys_eq_spec() -> bool {
        true
    }

    open spec fn eq_spec(&self, other: &Address) -> bool {
        self.bytes@ == other.bytes@
    }
}

/// The per-asset pooled-fund record.
#[derive(Clone, Copy, Debug, PartialEq, Eq)]
pub struct Vault {
    pub version: u8,
    pub bump: u8,
    pub authority_bump: u8,
    pub mint: Address,
    pub vault_token_account: Address,
    pub yield_token_account_a: Address,
    pub yield_token_account_b: Address,
    pub oracle_program: Address,
    pub oracle_feed: Address,
    pub oracle_expo: i32,
    pub max_staleness_seconds: u64,
    pub max_confidence_bps: u16,
    pub route_threshold_price: i64,
    pub total_shares: u64,
}

impl Vault {
    pub const VERSION: u8 = 1;

    /// Serialized size of the record, without its eight-byte type tag.
    pub const LEN: usize = 1 + 1 + 1 + 32 + 32 + 32 + 32 + 32 + 32 + 4 + 8 + 2 + 8 + 8;
}

/// A holder's ownership record in one vault.
#[derive(Clone, Copy, Debug, PartialEq, Eq)]
pub struct UserPosition {
    pub bump: u8,
    pub vault: Address,
    pub owner: Address,
    pub shares: u64,
}

impl UserPosition {
    /// Serialized size of the record, without its eight-byte type tag.
    pub const LEN: usize = 1 + 32 + 32 + 8;
}

/// Balances of the primary reserve and of the two yield reserves.
#[derive(Clone, Copy, Debug, PartialEq, Eq, Structural)]
pub struct ReserveBalances {
    pub primary: u64,
    pub yield_a: u64,
    pub yield_b: u64,
}

} // verus!

use vstd::prelude::*;

use crate::errors::UrbaniumError;
use crate::oracle::{confidence_check, enforce_confidence_bps, price_read, read_pyth_price, OraclePrice};
use crate::pda::{program_address, vault_authority_pda, vault_pda, VAULT_AUTHORITY_SEED, VAULT_SEED};
use crate::state::{Address, Vault};
use vstd::string::StringSliceAdditionalSpecFns;

verus! {

/// The oracle and routing configuration of a new vault.
#[derive(Clone, Copy, Debug, PartialEq, Eq)]
pub struct InitializeVaultArgs {
    pub oracle_program: Address,
    pub oracle_feed: Address,
    pub max_staleness_seconds: u64,
    pub max_confidence_bps: u16,
    pub route_threshold_price: i64,
}

/// What vault creation reads: the program, the asset, the addresses given for the vault, its
/// authority and its three reserves, and the oracle feed's owner, latest observation (`None`
/// where it could not be decoded) and the current time.
#[derive(Clone, Copy, Debug)]
pub struct InitializeVault {
    pub program_id: Address,
    pub mint: Address,
    pub vault: Address,
    pub vault_authority: Address,
    pub vault_token_account: Address,
    pub yield_token_account_a: Address,
    pub yield_token_account_b: Address,
    pub feed_owner: Address,
    pub observation: Option<OraclePrice>,
    pub now: i64,
}

pub open spec fn expected_vault(ctx: InitializeVault) -> (Seq<u8>, u8) {
    program_address(seq![VAULT_SEED.spec_bytes(), ctx.mint.bytes@], ctx.program_id.bytes@)
}

pub open spec fn expected_authority(ctx: InitializeVault) -> (Seq<u8>, u8) {
    program_address(seq![VAULT_AUTHORITY_SEED.spec_bytes(), ctx.vault.bytes@], ctx.program_id.bytes@)
}

/// The vault record that creation writes, or the error that rejects it.
pub open spec fn initialize_outcome(ctx: InitializeVault, args: InitializeVaultArgs) -> Result<Vault, UrbaniumError> {
    if expected_vault(ctx).0 != ctx.vault.bytes@ {
        Err(UrbaniumError::InvalidVaultPda)
    } else if expected_authority(ctx).0 != ctx.vault_authority.bytes@ {
        Err(UrbaniumError::InvalidVaultAuthorityPda)
    } else {
        match price_read(args.oracle_program, ctx.feed_owner, ctx.observation, ctx.now, args.max_staleness_seconds) {
            Err(e) => Err(e),
            Ok(p) => match confidence_check(p, args.max_confidence_bps) {
                Err(e) => Err(e),
                Ok(_) => Ok(
                    Vault {
                        version: Vault::VERSION,
                        bump: expected_vault(ctx).1,
                        authority_bump: expected_authority(ctx).1,
                        mint: ctx.mint,
                        vault_token_account: ctx.vault_token_account,
                        yield_token_account_a: ctx.yield_token_account_a,
                        yield_token_account_b: ctx.yield_token_account_b,
                        oracle_program: args.oracle_program,
                        oracle_feed: args.oracle_feed,
                        oracle_expo: p.expo,
                        max_staleness_seconds: args.max_staleness_seconds,
                        max_confidence_bps: args.max_confidence_bps,
                        route_threshold_price: args.route_threshold_price,
                        total_shares: 0,
                    },
                ),
            },
        }
    }
}

/// Checks the derived addresses and the oracle feed, and builds the new vault record with
/// no shares outstanding and the feed's current exponent recorded.
pub fn handler(ctx: &InitializeVault, args: InitializeVaultArgs) -> (r: Result<Vault, UrbaniumError>)
    ensures
        r == initialize_outcome(*ctx, args),
{
    let (expected_vault, vault_bump) = vault_pda(&ctx.mint, &ctx.program_id);
    if expected_vault != ctx.vault {
        return Err(UrbaniumError::InvalidVaultPda);
    }
    let (expected_auth, auth_bump) = vault_authority_pda(&ctx.vault, &ctx.program_id);
    if expected_auth != ctx.vault_authority {
        return Err(UrbaniumError::InvalidVaultAuthorityPda);
    }
    let price = match read_pyth_price(
        &args.oracle_program,
        &ctx.feed_owner,
        ctx.observation,
        ctx.now,
        args.max_staleness_seconds,
    ) {
        Ok(p) => p,
        Err(e) => return Err(e),
    };
    match enforce_confidence_bps(price, args.max_confidence_bps) {
        Ok(()) => {},
        Err(e) => return Err(e),
    }
    Ok(
        Vault {
            version: Vault::VERSION,
            bump: vault_bump,
            authority_bump: auth_bump,
            mint: ctx.mint,
            vault_token_account: ctx.vault_token_account,
            yield_token_account_a: ctx.yield_token_account_a,
            yield_token_account_b: ctx.yield_token_account_b,
            oracle_program: args.oracle_program,
            oracle_feed: args.oracle_feed,
            oracle_expo: price.expo,
            max_staleness_seconds: args.max_staleness_seconds,
            max_confidence_bps: args.max_confidence_bps,
            route_threshold_price: args.route_threshold_price,
            total_shares: 0,
        },
    )
}

} // verus!

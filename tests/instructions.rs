use urbanium::errors::UrbaniumError;
use urbanium::instructions::deposit::{self, Deposit};
use urbanium::instructions::initialize_vault::{self, InitializeVault, InitializeVaultArgs};
use urbanium::instructions::route_yield::{self, Route, RouteYield};
use urbanium::instructions::withdraw::{self, Redemption, Withdraw};
use urbanium::oracle::OraclePrice;
use urbanium::pda::{user_position_pda, vault_authority_pda, vault_pda};
use urbanium::router::Destination;
use urbanium::state::{Address, ReserveBalances, UserPosition, Vault};

fn addr(b: u8) -> Address {
    Address::new([b; 32])
}

fn sample_vault(total_shares: u64) -> Vault {
    Vault {
        version: Vault::VERSION,
        bump: 254,
        authority_bump: 253,
        mint: addr(1),
        vault_token_account: addr(2),
        yield_token_account_a: addr(3),
        yield_token_account_b: addr(4),
        oracle_program: addr(5),
        oracle_feed: addr(6),
        oracle_expo: -8,
        max_staleness_seconds: 60,
        max_confidence_bps: 100,
        route_threshold_price: 1_000,
        total_shares,
    }
}

fn empty_position() -> UserPosition {
    UserPosition { bump: 0, vault: addr(0), owner: addr(0), shares: 0 }
}

fn reserves(primary: u64, yield_a: u64, yield_b: u64) -> ReserveBalances {
    ReserveBalances { primary, yield_a, yield_b }
}

fn deposit_ctx(total_shares: u64, position_shares: u64, r: ReserveBalances) -> Deposit {
    let position = if position_shares == 0 {
        empty_position()
    } else {
        UserPosition { bump: 9, vault: addr(7), owner: addr(8), shares: position_shares }
    };
    Deposit {
        program_id: addr(42),
        depositor: addr(8),
        vault_key: addr(7),
        vault: sample_vault(total_shares),
        user_position: position,
        reserves: r,
    }
}

fn withdraw_ctx(total_shares: u64, position_shares: u64, r: ReserveBalances) -> Withdraw {
    Withdraw {
        vault: sample_vault(total_shares),
        user_position: UserPosition { bump: 9, vault: addr(7), owner: addr(8), shares: position_shares },
        reserves: r,
    }
}

fn route_ctx(observation: Option<OraclePrice>, primary: u64) -> RouteYield {
    RouteYield {
        vault: sample_vault(0),
        feed_owner: addr(5),
        observation,
        now: 1_000,
        reserves: reserves(primary, 0, 0),
    }
}

fn price(price: i64, conf: u64, publish_time: i64) -> OraclePrice {
    OraclePrice { price, conf, expo: -8, publish_time }
}

#[test]
fn first_deposit_binds_position_and_mints_amount() {
    let mut ctx = deposit_ctx(0, 0, reserves(0, 0, 0));
    assert_eq!(deposit::handler(&mut ctx, 500), Ok(500));
    assert_eq!(ctx.vault.total_shares, 500);
    assert_eq!(ctx.user_position.shares, 500);
    assert_eq!(ctx.user_position.vault, addr(7));
    assert_eq!(ctx.user_position.owner, addr(8));
    assert_eq!(ctx.user_position.bump, user_position_pda(&addr(7), &addr(8), &addr(42)).1);
}

#[test]
fn later_deposit_mints_proportionally() {
    let mut ctx = deposit_ctx(300, 100, reserves(600, 300, 100));
    assert_eq!(deposit::handler(&mut ctx, 100), Ok(30));
    assert_eq!(ctx.vault.total_shares, 330);
    assert_eq!(ctx.user_position.shares, 130);
    assert_eq!(ctx.user_position.bump, 9);
}

#[test]
fn zero_deposit_is_rejected() {
    let mut ctx = deposit_ctx(300, 100, reserves(600, 300, 100));
    let before = ctx;
    assert_eq!(deposit::handler(&mut ctx, 0), Err(UrbaniumError::ZeroAmount));
    assert_eq!(ctx.vault, before.vault);
    assert_eq!(ctx.user_position, before.user_position);
}

#[test]
fn deposit_overflowing_supply_leaves_records_unchanged() {
    let mut ctx = deposit_ctx(u64::MAX, 1, reserves(0, 0, 0));
    let before = ctx;
    assert_eq!(deposit::handler(&mut ctx, 1), Err(UrbaniumError::ArithmeticOverflow));
    assert_eq!(ctx.vault, before.vault);
    assert_eq!(ctx.user_position, before.user_position);
}

#[test]
fn two_equal_deposits_mint_equal_shares() {
    let mut ctx = deposit_ctx(333, 0, reserves(1_000, 0, 0));
    let first = deposit::handler(&mut ctx, 10).unwrap();
    ctx.reserves.primary += 10;
    let second = deposit::handler(&mut ctx, 10).unwrap();
    assert_eq!(first, 3);
    assert_eq!(second, 3);
}

#[test]
fn withdraw_drains_primary_then_a_then_b() {
    let mut ctx = withdraw_ctx(15, 12, reserves(10, 0, 5));
    let paid = withdraw::handler(&mut ctx, 12).unwrap();
    assert_eq!(paid, Redemption { amount: 12, from_primary: 10, from_yield_a: 0, from_yield_b: 2 });
    assert_eq!(ctx.user_position.shares, 0);
    assert_eq!(ctx.vault.total_shares, 3);
}

#[test]
fn withdraw_beyond_liquidity_fails_without_change() {
    let mut ctx = withdraw_ctx(12, 12, reserves(3, 0, 0));
    // 12 shares of 12 are owed all 3 assets: fully covered.
    assert_eq!(withdraw::handler(&mut ctx, 12).unwrap().amount, 3);
    let mut short = withdraw_ctx(1, 12, reserves(3, 0, 0));
    let before = short;
    assert_eq!(withdraw::handler(&mut short, 4), Err(UrbaniumError::InsufficientLiquidity));
    assert_eq!(short.vault, before.vault);
    assert_eq!(short.user_position, before.user_position);
}

#[test]
fn withdraw_of_zero_shares_fails_without_change() {
    let mut ctx = withdraw_ctx(15, 12, reserves(10, 0, 5));
    let before = ctx;
    assert_eq!(withdraw::handler(&mut ctx, 0), Err(UrbaniumError::ZeroShares));
    assert_eq!(ctx.vault, before.vault);
    assert_eq!(ctx.user_position, before.user_position);
}

#[test]
fn withdraw_more_than_held_is_rejected() {
    let mut ctx = withdraw_ctx(15, 12, reserves(10, 0, 5));
    assert_eq!(withdraw::handler(&mut ctx, 13), Err(UrbaniumError::InsufficientShares));
}

#[test]
fn withdraw_without_supply_is_rejected() {
    let mut ctx = withdraw_ctx(0, 12, reserves(10, 0, 5));
    assert_eq!(withdraw::handler(&mut ctx, 1), Err(UrbaniumError::InsufficientLiquidity));
}

#[test]
fn withdraw_beyond_supply_is_rejected() {
    let mut ctx = withdraw_ctx(5, 12, reserves(100, 0, 0));
    assert_eq!(withdraw::handler(&mut ctx, 6), Err(UrbaniumError::InsufficientLiquidity));
    let mut ctx = withdraw_ctx(5, 12, reserves(0, 0, 0));
    let before = ctx;
    assert_eq!(withdraw::handler(&mut ctx, 6), Err(UrbaniumError::ArithmeticOverflow));
    assert_eq!(ctx.vault, before.vault);
}

#[test]
fn shares_of_positions_stay_within_supply() {
    let pool = reserves(0, 0, 0);
    let mut alice = deposit_ctx(0, 0, pool);
    alice.depositor = addr(20);
    let a = deposit::handler(&mut alice, 1_000).unwrap();
    let mut vault = alice.vault;
    let mut assets: u64 = 1_000;

    let mut bob = deposit_ctx(0, 0, reserves(assets, 0, 0));
    bob.depositor = addr(21);
    bob.vault = vault;
    let b = deposit::handler(&mut bob, 333).unwrap();
    vault = bob.vault;
    assets += 333;
    assert!(a + b <= vault.total_shares);

    let mut w = Withdraw { vault, user_position: alice.user_position, reserves: reserves(assets, 0, 0) };
    let paid = withdraw::handler(&mut w, 400).unwrap();
    vault = w.vault;
    assets -= paid.amount;
    assert!(w.user_position.shares + bob.user_position.shares <= vault.total_shares);

    let mut w2 = Withdraw { vault, user_position: bob.user_position, reserves: reserves(assets, 0, 0) };
    withdraw::handler(&mut w2, b).unwrap();
    vault = w2.vault;
    assert!(w.user_position.shares + w2.user_position.shares <= vault.total_shares);
    assert_eq!(vault.total_shares, w.user_position.shares);
}

#[test]
fn route_at_threshold_goes_to_a() {
    let ctx = route_ctx(Some(price(1_000, 1, 990)), 50);
    assert_eq!(
        route_yield::handler(&ctx, 50),
        Ok(Route { destination: Destination::YieldA, amount: 50 })
    );
}

#[test]
fn route_below_threshold_goes_to_b() {
    let ctx = route_ctx(Some(price(999, 1, 990)), 50);
    assert_eq!(
        route_yield::handler(&ctx, 20),
        Ok(Route { destination: Destination::YieldB, amount: 20 })
    );
}

#[test]
fn route_rejections() {
    let ok = price(2_000, 1, 990);
    assert_eq!(route_yield::handler(&route_ctx(Some(ok), 50), 0), Err(UrbaniumError::ZeroAmount));
    assert_eq!(
        route_yield::handler(&route_ctx(Some(ok), 50), 51),
        Err(UrbaniumError::InsufficientLiquidity)
    );
    let mut foreign = route_ctx(Some(ok), 50);
    foreign.feed_owner = addr(99);
    assert_eq!(route_yield::handler(&foreign, 1), Err(UrbaniumError::InvalidOracleOwner));
    assert_eq!(
        route_yield::handler(&route_ctx(None, 50), 1),
        Err(UrbaniumError::OraclePriceUnavailable)
    );
    assert_eq!(
        route_yield::handler(&route_ctx(Some(price(2_000, 1, 939)), 50), 1),
        Err(UrbaniumError::OracleStale)
    );
    assert_eq!(
        route_yield::handler(&route_ctx(Some(price(0, 0, 939)), 50), 1),
        Err(UrbaniumError::OracleStale)
    );
    assert_eq!(
        route_yield::handler(&route_ctx(Some(price(0, 0, 1_000)), 50), 1),
        Err(UrbaniumError::OraclePriceUnavailable)
    );
    assert_eq!(
        route_yield::handler(&route_ctx(Some(price(2_000, 21, 1_000)), 50), 1),
        Err(UrbaniumError::OracleConfidenceTooHigh)
    );
    let mut rescaled = price(2_000, 1, 1_000);
    rescaled.expo = -6;
    assert_eq!(
        route_yield::handler(&route_ctx(Some(rescaled), 50), 1),
        Err(UrbaniumError::OracleExponentMismatch)
    );
}

fn init_ctx(observation: Option<OraclePrice>) -> InitializeVault {
    let program = addr(42);
    let mint = addr(1);
    let vault = vault_pda(&mint, &program).0;
    let authority = vault_authority_pda(&vault, &program).0;
    InitializeVault {
        program_id: program,
        mint,
        vault,
        vault_authority: authority,
        vault_token_account: addr(2),
        yield_token_account_a: addr(3),
        yield_token_account_b: addr(4),
        feed_owner: addr(5),
        observation,
        now: 1_000,
    }
}

fn init_args() -> InitializeVaultArgs {
    InitializeVaultArgs {
        oracle_program: addr(5),
        oracle_feed: addr(6),
        max_staleness_seconds: 60,
        max_confidence_bps: 100,
        route_threshold_price: 1_000,
    }
}

#[test]
fn initialize_records_configuration_and_exponent() {
    let ctx = init_ctx(Some(price(2_000, 1, 1_000)));
    let vault = initialize_vault::handler(&ctx, init_args()).unwrap();
    assert_eq!(vault.version, Vault::VERSION);
    assert_eq!(vault.bump, vault_pda(&addr(1), &addr(42)).1);
    assert_eq!(vault.authority_bump, vault_authority_pda(&ctx.vault, &addr(42)).1);
    assert_eq!(vault.mint, addr(1));
    assert_eq!(vault.yield_token_account_b, addr(4));
    assert_eq!(vault.oracle_expo, -8);
    assert_eq!(vault.total_shares, 0);
    assert_eq!(vault.route_threshold_price, 1_000);
}

#[test]
fn initialize_rejects_wrong_addresses_and_bad_feeds() {
    let mut wrong_vault = init_ctx(Some(price(2_000, 1, 1_000)));
    wrong_vault.vault = addr(77);
    assert_eq!(
        initialize_vault::handler(&wrong_vault, init_args()),
        Err(UrbaniumError::InvalidVaultPda)
    );
    let mut wrong_authority = init_ctx(Some(price(2_000, 1, 1_000)));
    wrong_authority.vault_authority = addr(77);
    assert_eq!(
        initialize_vault::handler(&wrong_authority, init_args()),
        Err(UrbaniumError::InvalidVaultAuthorityPda)
    );
    assert_eq!(
        initialize_vault::handler(&init_ctx(Some(price(2_000, 1, 900))), init_args()),
        Err(UrbaniumError::OracleStale)
    );
    assert_eq!(
        initialize_vault::handler(&init_ctx(Some(price(2_000, 100, 1_000))), init_args()),
        Err(UrbaniumError::OracleConfidenceTooHigh)
    );
}

#[test]
fn derived_addresses_depend_on_their_seeds() {
    let program = addr(42);
    let (v1, b1) = vault_pda(&addr(1), &program);
    let (v1_again, b1_again) = vault_pda(&addr(1), &program);
    let (v2, _) = vault_pda(&addr(2), &program);
    assert_eq!(v1, v1_again);
    assert_eq!(b1, b1_again);
    assert_ne!(v1, addr(1));
    assert_ne!(v1, program);
    assert_ne!(v1, v2);
    assert_ne!(vault_authority_pda(&v1, &program).0, v1);
    assert_ne!(vault_authority_pda(&addr(1), &program).0, v1);
    let p1 = user_position_pda(&v1, &addr(8), &program).0;
    let p2 = user_position_pda(&v1, &addr(9), &program).0;
    assert_ne!(p1, p2);
    assert_ne!(vault_pda(&addr(1), &addr(43)).0, v1);
}

#[test]
fn errors_have_messages() {
    assert_eq!(UrbaniumError::ArithmeticOverflow.message(), "Arithmetic overflow");
    assert_eq!(UrbaniumError::ZeroShares.message(), "Shares must be non-zero");
}

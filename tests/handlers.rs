use stfix::calc::{accrued_interest, fixed_interest, penalty_split};
use stfix::program::{
    add_to_whitelist, early_redeem, extend_lock, initialize, redeem, remove_from_whitelist, stake,
    top_up_yield, EarlyRedeem, ExtendLock, Initialize, Redeem, Stake, TopUpYield, UpdateWhitelist,
};
use stfix::state::{Config, ErrorCode, LockTerm, Pubkey, StakePosition, UserState, Vaults};

const DAY: i64 = 86_400;

fn admin() -> Pubkey {
    Pubkey::new(1, 1)
}

fn alice() -> Pubkey {
    Pubkey::new(2, 7)
}

fn config() -> Config {
    Config {
        admin: admin(),
        stfix_mint: Pubkey::new(3, 0),
        principal_vault: Pubkey::new(4, 0),
        yield_vault: Pubkey::new(5, 0),
        yield_rate_30: 500,
        yield_rate_90: 1_800,
        cooldown_seconds: 60,
        penalty_rate_bps: 1_000,
        whitelist_only: false,
        whitelist: Vec::new(),
        total_interest_paid: 0,
    }
}

fn position(amount: u64, deposit_time: i64, term: i64) -> StakePosition {
    StakePosition {
        user: alice(),
        amount,
        deposit_time,
        term,
        in_use: false,
        memo: None,
        nonce: 9,
    }
}

fn vaults(principal: u64, yield_pool: u64, receipt_supply: u64) -> Vaults {
    Vaults { principal, yield_pool, receipt_supply }
}

fn stake_ctx() -> Stake {
    Stake {
        user: alice(),
        config: config(),
        user_state: None,
        stake_position: None,
        vaults: vaults(0, 0, 0),
    }
}

fn redeem_ctx(amount: u64, term: i64) -> Redeem {
    Redeem {
        user: alice(),
        stake_position: position(amount, 1_000, term),
        vaults: vaults(amount, 1_000_000, amount),
        config: config(),
    }
}

#[test]
fn interest_formula_exact() {
    assert_eq!(fixed_interest(1_000_000, 500), Some(50_000));
    assert_eq!(fixed_interest(9_999, 1), Some(0));
    assert_eq!(fixed_interest(u64::MAX, 10_000), Some(u64::MAX));
    assert_eq!(fixed_interest(u64::MAX, 20_000), None);
}

#[test]
fn penalty_split_exact() {
    assert_eq!(penalty_split(1_000_000, 1_000), (100_000, 900_000));
    assert_eq!(penalty_split(999, 1_000), (99, 900));
    assert_eq!(penalty_split(500, 0), (0, 500));
    assert_eq!(penalty_split(500, 10_000), (500, 0));
    let (p, q) = penalty_split(u64::MAX, 3_333);
    assert_eq!(p as u128 + q as u128, u64::MAX as u128);
}

#[test]
fn accrued_formula_truncates_days() {
    // 10 whole days of a 30-day term at 5%: 1_000_000 * 500 * 10 / 300_000.
    assert_eq!(accrued_interest(1_000_000, 500, 10, 30), Some(16_666));
    assert_eq!(accrued_interest(1_000_000, 500, 0, 30), Some(0));
    assert_eq!(accrued_interest(u64::MAX, u64::MAX, u64::MAX, 90), None);
}

#[test]
fn stake_mints_and_credits_amount() {
    let mut ctx = stake_ctx();
    let ev = stake(&mut ctx, 1_000_000, LockTerm::ThirtyDays, 9, Some("hello".to_string()), 5_000)
        .unwrap();
    assert_eq!(ev.amount, 1_000_000);
    assert_eq!(ev.term, 30);
    assert_eq!(ev.timestamp, 5_000);
    assert_eq!(ev.memo, Some("hello".to_string()));
    assert_eq!(ctx.vaults.principal, 1_000_000);
    assert_eq!(ctx.vaults.receipt_supply, 1_000_000);
    let pos = ctx.stake_position.unwrap();
    assert_eq!(pos.amount, 1_000_000);
    assert_eq!(pos.term, 30);
    assert_eq!(pos.deposit_time, 5_000);
    assert_eq!(pos.nonce, 9);
    assert!(!pos.in_use);
    assert_eq!(ctx.user_state, Some(UserState { owner: alice(), last_stake_time: 5_000 }));
}

#[test]
fn stake_rejects_zero_long_memo_and_existing_slot() {
    let mut ctx = stake_ctx();
    assert_eq!(stake(&mut ctx, 0, LockTerm::ThirtyDays, 1, None, 0).unwrap_err(), ErrorCode::ZeroAmount);
    let long = "x".repeat(129);
    assert_eq!(
        stake(&mut ctx, 5, LockTerm::ThirtyDays, 1, Some(long), 0).unwrap_err(),
        ErrorCode::MemoTooLong
    );
    assert!(stake(&mut ctx, 5, LockTerm::ThirtyDays, 1, Some("y".repeat(128)), 0).is_ok());
    let mut again = stake_ctx();
    again.stake_position = Some(position(5, 0, 30));
    assert_eq!(
        stake(&mut again, 5, LockTerm::NinetyDays, 9, None, 0).unwrap_err(),
        ErrorCode::PositionExists
    );
    again.stake_position = Some(StakePosition { in_use: true, ..position(5, 0, 30) });
    assert_eq!(stake(&mut again, 5, LockTerm::NinetyDays, 9, None, 0).unwrap_err(), ErrorCode::Reentrancy);
    assert_eq!(again.vaults, vaults(0, 0, 0));
}

#[test]
fn stake_whitelist_gate() {
    let mut ctx = stake_ctx();
    ctx.config.whitelist_only = true;
    assert_eq!(stake(&mut ctx, 5, LockTerm::ThirtyDays, 1, None, 0).unwrap_err(), ErrorCode::NotWhitelisted);
    ctx.config.whitelist.push(alice());
    assert!(stake(&mut ctx, 5, LockTerm::ThirtyDays, 1, None, 0).is_ok());
}

#[test]
fn stake_cooldown_boundary() {
    let mut ctx = stake_ctx();
    ctx.user_state = Some(UserState { owner: alice(), last_stake_time: 1_000 });
    assert_eq!(stake(&mut ctx, 5, LockTerm::ThirtyDays, 1, None, 1_059).unwrap_err(), ErrorCode::RateLimited);
    assert!(ctx.stake_position.is_none());
    assert!(stake(&mut ctx, 5, LockTerm::ThirtyDays, 1, None, 1_060).is_ok());
}

#[test]
fn stake_overflow_aborts() {
    let mut ctx = stake_ctx();
    ctx.vaults.principal = u64::MAX;
    assert_eq!(stake(&mut ctx, 1, LockTerm::ThirtyDays, 1, None, 0).unwrap_err(), ErrorCode::MathOverflow);
}

#[test]
fn redeem_pays_fixed_interest() {
    let mut ctx = redeem_ctx(1_000_000, 30);
    let ev = redeem(&mut ctx, 1_000 + 30 * DAY).unwrap();
    assert_eq!(ev.principal, 1_000_000);
    assert_eq!(ev.interest, 50_000);
    assert_eq!(ctx.vaults, vaults(0, 950_000, 0));
    assert_eq!(ctx.config.total_interest_paid, 50_000);
    assert_eq!(ctx.stake_position.amount, 0);
}

#[test]
fn redeem_ninety_day_rate() {
    let mut ctx = redeem_ctx(1_000_000, 90);
    let ev = redeem(&mut ctx, 1_000 + 90 * DAY).unwrap();
    assert_eq!(ev.interest, 180_000);
}

#[test]
fn redeem_lock_boundary() {
    let mut ctx = redeem_ctx(1_000_000, 30);
    assert_eq!(redeem(&mut ctx, 1_000 + 30 * DAY - 1).unwrap_err(), ErrorCode::LockPeriodNotCompleted);
    assert_eq!(ctx.stake_position.amount, 1_000_000);
    assert!(redeem(&mut ctx, 1_000 + 30 * DAY).is_ok());
}

#[test]
fn redeem_only_once() {
    let mut ctx = redeem_ctx(1_000_000, 30);
    assert!(redeem(&mut ctx, 1_000 + 30 * DAY).is_ok());
    assert_eq!(redeem(&mut ctx, 1_000 + 30 * DAY).unwrap_err(), ErrorCode::PositionClosed);
}

#[test]
fn redeem_guards() {
    let mut busy = redeem_ctx(1_000, 30);
    busy.stake_position.in_use = true;
    assert_eq!(redeem(&mut busy, 1_000 + 30 * DAY).unwrap_err(), ErrorCode::Reentrancy);
    let mut other = redeem_ctx(1_000, 30);
    other.user = Pubkey::new(9, 9);
    assert_eq!(redeem(&mut other, 1_000 + 30 * DAY).unwrap_err(), ErrorCode::Unauthorized);
    let mut poor = redeem_ctx(1_000_000, 30);
    poor.vaults.yield_pool = 49_999;
    assert_eq!(redeem(&mut poor, 1_000 + 30 * DAY).unwrap_err(), ErrorCode::InsufficientYieldVaultFunds);
    assert_eq!(poor.vaults, vaults(1_000_000, 49_999, 1_000_000));
}

fn early_ctx(amount: u64) -> EarlyRedeem {
    EarlyRedeem {
        user: alice(),
        stake_position: position(amount, 1_000, 90),
        vaults: vaults(amount, 7, amount),
        config: config(),
    }
}

#[test]
fn early_redeem_splits_amount() {
    let mut ctx = early_ctx(1_000_000);
    let ev = early_redeem(&mut ctx, 2_000).unwrap();
    assert_eq!(ev.amount, 1_000_000);
    assert_eq!(ev.penalty, 100_000);
    assert_eq!(ev.timestamp, 2_000);
    assert_eq!(ctx.vaults, vaults(0, 100_007, 0));
    assert_eq!(ctx.stake_position.amount, 0);
    assert_eq!(ctx.config.total_interest_paid, 0);
    assert_eq!(early_redeem(&mut ctx, 2_000).unwrap_err(), ErrorCode::PositionClosed);
}

#[test]
fn early_redeem_guards() {
    let mut busy = early_ctx(10);
    busy.stake_position.in_use = true;
    assert_eq!(early_redeem(&mut busy, 0).unwrap_err(), ErrorCode::Reentrancy);
    let mut other = early_ctx(10);
    other.user = admin();
    assert_eq!(early_redeem(&mut other, 0).unwrap_err(), ErrorCode::Unauthorized);
    let mut short = early_ctx(10);
    short.vaults.receipt_supply = 9;
    assert_eq!(early_redeem(&mut short, 0).unwrap_err(), ErrorCode::MathOverflow);
}

fn extend_ctx(amount: u64) -> ExtendLock {
    ExtendLock {
        user: alice(),
        stake_position: position(amount, 1_000, 30),
        vaults: vaults(amount, 1_000_000, amount),
        config: config(),
    }
}

#[test]
fn extend_lock_compounds_whole_days() {
    let mut ctx = extend_ctx(1_000_000);
    let now = 1_000 + 10 * DAY + DAY - 1;
    assert_eq!(extend_lock(&mut ctx, LockTerm::NinetyDays, now), Ok(16_666));
    assert_eq!(ctx.stake_position.amount, 1_016_666);
    assert_eq!(ctx.stake_position.deposit_time, now);
    assert_eq!(ctx.stake_position.term, 90);
    assert_eq!(ctx.vaults, vaults(1_016_666, 983_334, 1_000_000));
    assert_eq!(ctx.config.total_interest_paid, 16_666);
}

#[test]
fn extend_lock_guards() {
    let mut busy = extend_ctx(10);
    busy.stake_position.in_use = true;
    assert_eq!(extend_lock(&mut busy, LockTerm::ThirtyDays, 5_000), Err(ErrorCode::Reentrancy));
    let mut closed = extend_ctx(0);
    assert_eq!(extend_lock(&mut closed, LockTerm::ThirtyDays, 5_000), Err(ErrorCode::PositionClosed));
    let mut back = extend_ctx(10);
    assert_eq!(extend_lock(&mut back, LockTerm::ThirtyDays, 999), Err(ErrorCode::MathOverflow));
    let mut poor = extend_ctx(1_000_000);
    poor.vaults.yield_pool = 0;
    assert_eq!(
        extend_lock(&mut poor, LockTerm::ThirtyDays, 1_000 + 30 * DAY),
        Err(ErrorCode::InsufficientYieldVaultFunds)
    );
}

#[test]
fn total_interest_sums_redeem_and_extend() {
    let mut x = extend_ctx(1_000_000);
    let accrued = extend_lock(&mut x, LockTerm::ThirtyDays, 1_000 + 30 * DAY).unwrap();
    assert_eq!(accrued, 50_000);
    assert_eq!(x.vaults.receipt_supply, 1_000_000);
    // Compounding mints nothing: other holders' tokens back the larger burn.
    let mut r = Redeem {
        user: x.user,
        stake_position: x.stake_position.clone(),
        vaults: vaults(x.vaults.principal, x.vaults.yield_pool, 2_000_000),
        config: x.config.clone(),
    };
    let ev = redeem(&mut r, 1_000 + 60 * DAY).unwrap();
    assert_eq!(ev.interest, 52_500);
    assert_eq!(r.config.total_interest_paid, 102_500);
    assert_eq!(r.vaults.receipt_supply, 950_000);
}

#[test]
fn initialize_once_with_valid_penalty() {
    let mut ctx = Initialize {
        admin: admin(),
        stfix_mint: Pubkey::new(3, 0),
        principal_vault: Pubkey::new(4, 0),
        yield_vault: Pubkey::new(5, 0),
        config: None,
        vaults: vaults(1, 2, 3),
    };
    assert_eq!(initialize(&mut ctx, 500, 1_800, 60, 10_001, false), Err(ErrorCode::InvalidPenaltyRate));
    assert!(ctx.config.is_none());
    assert_eq!(initialize(&mut ctx, 500, 1_800, 60, 10_000, true), Ok(()));
    let c = ctx.config.clone().unwrap();
    assert_eq!(c.admin, admin());
    assert_eq!(c.yield_rate_90, 1_800);
    assert!(c.whitelist_only);
    assert!(c.whitelist.is_empty());
    assert_eq!(ctx.vaults, vaults(0, 0, 0));
    assert_eq!(initialize(&mut ctx, 1, 1, 1, 1, false), Err(ErrorCode::AlreadyInitialized));
}

#[test]
fn top_up_yield_admin_only() {
    let mut ctx = TopUpYield { admin: admin(), config: config(), vaults: vaults(0, 5, 0) };
    let ev = top_up_yield(&mut ctx, 100, 77).unwrap();
    assert_eq!(ev.amount, 100);
    assert_eq!(ev.timestamp, 77);
    assert_eq!(ctx.vaults.yield_pool, 105);
    ctx.admin = alice();
    assert_eq!(top_up_yield(&mut ctx, 100, 77).unwrap_err(), ErrorCode::Unauthorized);
    ctx.admin = admin();
    assert_eq!(top_up_yield(&mut ctx, u64::MAX, 77).unwrap_err(), ErrorCode::MathOverflow);
}

#[test]
fn whitelist_round_trip_and_bound() {
    let mut ctx = UpdateWhitelist { admin: admin(), config: config() };
    assert_eq!(add_to_whitelist(&mut ctx, alice()), Ok(()));
    assert_eq!(add_to_whitelist(&mut ctx, alice()), Ok(()));
    assert_eq!(ctx.config.whitelist, vec![alice()]);
    assert_eq!(remove_from_whitelist(&mut ctx, alice()), Ok(()));
    assert!(ctx.config.whitelist.is_empty());
    assert_eq!(remove_from_whitelist(&mut ctx, alice()), Ok(()));
    for i in 0..10u128 {
        assert_eq!(add_to_whitelist(&mut ctx, Pubkey::new(100, i)), Ok(()));
    }
    assert_eq!(add_to_whitelist(&mut ctx, alice()), Err(ErrorCode::WhitelistFull));
    assert_eq!(add_to_whitelist(&mut ctx, Pubkey::new(100, 3)), Ok(()));
    assert_eq!(ctx.config.whitelist.len(), 10);
    assert_eq!(remove_from_whitelist(&mut ctx, Pubkey::new(100, 3)), Ok(()));
    assert_eq!(ctx.config.whitelist.len(), 9);
    assert_eq!(ctx.config.whitelist[3], Pubkey::new(100, 4));
    ctx.admin = alice();
    assert_eq!(add_to_whitelist(&mut ctx, alice()), Err(ErrorCode::Unauthorized));
    assert_eq!(remove_from_whitelist(&mut ctx, Pubkey::new(100, 0)), Err(ErrorCode::Unauthorized));
}

#[test]
fn lock_term_days() {
    assert_eq!(LockTerm::ThirtyDays.days(), 30);
    assert_eq!(LockTerm::NinetyDays.days(), 90);
}

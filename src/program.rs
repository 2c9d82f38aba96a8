use vstd::prelude::*;
use crate::calc::{
    accrued_interest, fixed_interest, penalty_split, spec_accrued, spec_interest, spec_penalty,
    spec_whole_days,
};
use crate::state::{
    memo_fits, Config, EarlyRedeemEvent, ErrorCode, LockTerm, Pubkey, RedeemEvent, StakeEvent,
    StakePosition, TopUpYieldEvent, UserState, Vaults, BPS_DENOMINATOR, MAX_MEMO_LEN,
    MAX_WHITELIST, SECONDS_PER_DAY,
};

verus! {

/// What a redemption sees: the caller, the position it names, the pools and
/// the configuration.
pub struct Redeem {
    pub user: Pubkey,
    pub stake_position: StakePosition,
    pub vaults: Vaults,
    pub config: Config,
}

/// The first reason, if any, for which `redeem` at time `now` is rejected.
pub open spec fn redeem_error(ctx: Redeem, now: int) -> Option<ErrorCode> {
    let pos = ctx.stake_position;
    let interest = spec_interest(pos.amount as int, ctx.config.spec_rate_for(pos.term as int) as int);
    if pos.user != ctx.user {
        Some(ErrorCode::Unauthorized)
    } else if now < pos.unlock_time() {
        Some(ErrorCode::LockPeriodNotCompleted)
    } else if pos.in_use {
        Some(ErrorCode::Reentrancy)
    } else if pos.amount == 0 {
        Some(ErrorCode::PositionClosed)
    } else if interest > u64::MAX {
        Some(ErrorCode::MathOverflow)
    } else if (ctx.vaults.yield_pool as int) < interest {
        Some(ErrorCode::InsufficientYieldVaultFunds)
    } else if ctx.vaults.receipt_supply < pos.amount || ctx.vaults.principal < pos.amount
        || ctx.config.total_interest_paid + interest > u128::MAX {
        Some(ErrorCode::MathOverflow)
    } else {
        None
    }
}

/// Interest that `redeem` pays on the position of `ctx`.
pub open spec fn redeem_interest(ctx: Redeem) -> int {
    spec_interest(
        ctx.stake_position.amount as int,
        ctx.config.spec_rate_for(ctx.stake_position.term as int) as int,
    )
}

/// Redeems a matured position: burns its receipt tokens, returns the
/// principal from the principal pool and pays the fixed interest from the
/// yield pool, then closes the position.
pub fn redeem(ctx: &mut Redeem, now: i64) -> (r: Result<RedeemEvent, ErrorCode>)
    requires
        old(ctx).stake_position.wf(),
    ensures
        r is Ok <==> redeem_error(*old(ctx), now as int) is None,
        r is Err ==> *final(ctx) == *old(ctx) && r == Err::<RedeemEvent, ErrorCode>(
            redeem_error(*old(ctx), now as int)->Some_0,
        ),
        r is Ok ==> {
            let amount = old(ctx).stake_position.amount;
            let interest = redeem_interest(*old(ctx));
            &&& r->Ok_0 == (RedeemEvent {
                user: old(ctx).user,
                principal: amount,
                interest: interest as u64,
                timestamp: now,
            })
            &&& final(ctx).user == old(ctx).user
            &&& final(ctx).stake_position == (StakePosition { amount: 0, ..old(ctx).stake_position })
            &&& final(ctx).vaults == (Vaults {
                principal: (old(ctx).vaults.principal - amount) as u64,
                yield_pool: (old(ctx).vaults.yield_pool - interest) as u64,
                receipt_supply: (old(ctx).vaults.receipt_supply - amount) as u64,
            })
            &&& final(ctx).config == (Config {
                total_interest_paid: (old(ctx).config.total_interest_paid + interest) as u128,
                ..old(ctx).config
            })
        },
{
    if ctx.stake_position.user != ctx.user {
        return Err(ErrorCode::Unauthorized);
    }
    let term: i128 = ctx.stake_position.term as i128;
    assert(SECONDS_PER_DAY == 86_400);
    assert(0 < term * (SECONDS_PER_DAY as i128) <= 90 * 86_400) by (nonlinear_arith)
        requires
            term == 30 || term == 90,
            SECONDS_PER_DAY == 86_400,
    ;
    let unlock: i128 = ctx.stake_position.deposit_time as i128 + term * (SECONDS_PER_DAY as i128);
    if (now as i128) < unlock {
        return Err(ErrorCode::LockPeriodNotCompleted);
    }
    if ctx.stake_position.in_use {
        return Err(ErrorCode::Reentrancy);
    }
    let amount = ctx.stake_position.amount;
    if amount == 0 {
        return Err(ErrorCode::PositionClosed);
    }
    let rate = ctx.config.rate_for(ctx.stake_position.term);
    let interest = match fixed_interest(amount, rate) {
        Some(i) => i,
        None => return Err(ErrorCode::MathOverflow),
    };
    if ctx.vaults.yield_pool < interest {
        return Err(ErrorCode::InsufficientYieldVaultFunds);
    }
    if ctx.vaults.receipt_supply < amount || ctx.vaults.principal < amount {
        return Err(ErrorCode::MathOverflow);
    }
    let total = match ctx.config.total_interest_paid.checked_add(interest as u128) {
        Some(t) => t,
        None => return Err(ErrorCode::MathOverflow),
    };
    ctx.stake_position.in_use = true;
    ctx.vaults.receipt_supply = ctx.vaults.receipt_supply - amount;
    ctx.vaults.principal = ctx.vaults.principal - amount;
    ctx.vaults.yield_pool = ctx.vaults.yield_pool - interest;
    ctx.config.total_interest_paid = total;
    ctx.stake_position.amount = 0;
    ctx.stake_position.in_use = false;
    Ok(RedeemEvent { user: ctx.user, principal: amount, interest, timestamp: now })
}

/// What an early redemption sees; the same accounts as a redemption.
pub struct EarlyRedeem {
    pub user: Pubkey,
    pub stake_position: StakePosition,
    pub vaults: Vaults,
    pub config: Config,
}

/// The first reason, if any, for which `early_redeem` is rejected.
pub open spec fn early_redeem_error(ctx: EarlyRedeem) -> Option<ErrorCode> {
    let pos = ctx.stake_position;
    let penalty = spec_penalty(pos.amount as int, ctx.config.penalty_rate_bps as int);
    if pos.user != ctx.user {
        Some(ErrorCode::Unauthorized)
    } else if pos.in_use {
        Some(ErrorCode::Reentrancy)
    } else if pos.amount == 0 {
        Some(ErrorCode::PositionClosed)
    } else if ctx.vaults.receipt_supply < pos.amount || ctx.vaults.principal < pos.amount
        || ctx.vaults.yield_pool + penalty > u64::MAX {
        Some(ErrorCode::MathOverflow)
    } else {
        None
    }
}

/// Penalty that `early_redeem` keeps from the position of `ctx`.
pub open spec fn early_redeem_penalty(ctx: EarlyRedeem) -> int {
    spec_penalty(ctx.stake_position.amount as int, ctx.config.penalty_rate_bps as int)
}

/// Closes a position before maturity: burns its receipt tokens, pays the
/// principal less the penalty to the owner and moves the penalty from the
/// principal pool to the yield pool.
pub fn early_redeem(ctx: &mut EarlyRedeem, now: i64) -> (r: Result<EarlyRedeemEvent, ErrorCode>)
    requires
        old(ctx).config.wf(),
    ensures
        r is Ok <==> early_redeem_error(*old(ctx)) is None,
        r is Err ==> *final(ctx) == *old(ctx) && r == Err::<EarlyRedeemEvent, ErrorCode>(
            early_redeem_error(*old(ctx))->Some_0,
        ),
        r is Ok ==> {
            let amount = old(ctx).stake_position.amount;
            let penalty = early_redeem_penalty(*old(ctx));
            &&& r->Ok_0 == (EarlyRedeemEvent {
                user: old(ctx).user,
                amount,
                penalty: penalty as u64,
                timestamp: now,
            })
            &&& 0 <= penalty <= amount
            &&& final(ctx).user == old(ctx).user
            &&& final(ctx).config == old(ctx).config
            &&& final(ctx).stake_position == (StakePosition { amount: 0, ..old(ctx).stake_position })
            &&& final(ctx).vaults == (Vaults {
                principal: (old(ctx).vaults.principal - amount) as u64,
                yield_pool: (old(ctx).vaults.yield_pool + penalty) as u64,
                receipt_supply: (old(ctx).vaults.receipt_supply - amount) as u64,
            })
        },
{
    if ctx.stake_position.user != ctx.user {
        return Err(ErrorCode::Unauthorized);
    }
    if ctx.stake_position.in_use {
        return Err(ErrorCode::Reentrancy);
    }
    let amount = ctx.stake_position.amount;
    if amount == 0 {
        return Err(ErrorCode::PositionClosed);
    }
    let (penalty, payout) = penalty_split(amount, ctx.config.penalty_rate_bps);
    if ctx.vaults.receipt_supply < amount || ctx.vaults.principal < amount
        || ctx.vaults.yield_pool > u64::MAX - penalty {
        return Err(ErrorCode::MathOverflow);
    }
    ctx.stake_position.in_use = true;
    ctx.vaults.receipt_supply = ctx.vaults.receipt_supply - amount;
    ctx.vaults.principal = ctx.vaults.principal - payout;
    ctx.vaults.principal = ctx.vaults.principal - penalty;
    ctx.vaults.yield_pool = ctx.vaults.yield_pool + penalty;
    ctx.stake_position.amount = 0;
    ctx.stake_position.in_use = false;
    Ok(EarlyRedeemEvent { user: ctx.user, amount, penalty, timestamp: now })
}

/// What a stake sees: the caller, the configuration, the caller's rate-limit
/// record (absent before the first stake), the slot keyed by the caller and
/// the chosen nonce (occupied if that position already exists) and the pools.
pub struct Stake {
    pub user: Pubkey,
    pub config: Config,
    pub user_state: Option<UserState>,
    pub stake_position: Option<StakePosition>,
    pub vaults: Vaults,
}

/// The first reason, if any, for which `stake` is rejected.
pub open spec fn stake_error(ctx: Stake, amount: u64, memo: Option<String>, now: int) -> Option<ErrorCode> {
    if amount == 0 {
        Some(ErrorCode::ZeroAmount)
    } else if !memo_fits(memo) {
        Some(ErrorCode::MemoTooLong)
    } else if ctx.config.whitelist_only && !ctx.config.whitelist@.contains(ctx.user) {
        Some(ErrorCode::NotWhitelisted)
    } else if ctx.user_state is Some && now - ctx.user_state->Some_0.last_stake_time
        < ctx.config.cooldown_seconds {
        Some(ErrorCode::RateLimited)
    } else if ctx.stake_position is Some {
        if ctx.stake_position->Some_0.in_use {
            Some(ErrorCode::Reentrancy)
        } else {
            Some(ErrorCode::PositionExists)
        }
    } else if ctx.vaults.principal + amount > u64::MAX || ctx.vaults.receipt_supply + amount
        > u64::MAX {
        Some(ErrorCode::MathOverflow)
    } else {
        None
    }
}

/// Opens a position: moves `amount` into the principal pool, mints as many
/// receipt tokens, records the stake time and the position.
pub fn stake(
    ctx: &mut Stake,
    amount: u64,
    term: LockTerm,
    nonce: u64,
    memo: Option<String>,
    now: i64,
) -> (r: Result<StakeEvent, ErrorCode>)
    ensures
        r is Ok <==> stake_error(*old(ctx), amount, memo, now as int) is None,
        r is Err ==> *final(ctx) == *old(ctx) && r == Err::<StakeEvent, ErrorCode>(
            stake_error(*old(ctx), amount, memo, now as int)->Some_0,
        ),
        r is Ok ==> {
            &&& r->Ok_0 == (StakeEvent {
                user: old(ctx).user,
                amount,
                term: term.spec_days() as u64,
                timestamp: now,
                memo,
            })
            &&& final(ctx).user == old(ctx).user
            &&& final(ctx).config == old(ctx).config
            &&& final(ctx).user_state == Some(UserState { owner: old(ctx).user, last_stake_time: now })
            &&& final(ctx).stake_position == Some(StakePosition {
                user: old(ctx).user,
                amount,
                deposit_time: now,
                term: term.spec_days() as i64,
                in_use: false,
                memo,
                nonce,
            })
            &&& final(ctx).vaults == (Vaults {
                principal: (old(ctx).vaults.principal + amount) as u64,
                receipt_supply: (old(ctx).vaults.receipt_supply + amount) as u64,
                ..old(ctx).vaults
            })
        },
{
    if amount == 0 {
        return Err(ErrorCode::ZeroAmount);
    }
    let memo_too_long = match &memo {
        Some(m) => m.as_str().len() > MAX_MEMO_LEN,
        None => false,
    };
    if memo_too_long {
        return Err(ErrorCode::MemoTooLong);
    }
    if ctx.config.whitelist_only && !ctx.config.is_whitelisted(&ctx.user) {
        return Err(ErrorCode::NotWhitelisted);
    }
    match &ctx.user_state {
        Some(state) => {
            if (now as i128) - (state.last_stake_time as i128) < ctx.config.cooldown_seconds as i128 {
                return Err(ErrorCode::RateLimited);
            }
        },
        None => {},
    }
    match &ctx.stake_position {
        Some(pos) => {
            if pos.in_use {
                return Err(ErrorCode::Reentrancy);
            }
            return Err(ErrorCode::PositionExists);
        },
        None => {},
    }
    if ctx.vaults.principal > u64::MAX - amount || ctx.vaults.receipt_supply > u64::MAX - amount {
        return Err(ErrorCode::MathOverflow);
    }
    ctx.user_state = Some(UserState { owner: ctx.user, last_stake_time: now });
    let days = term.days();
    let event_memo = match &memo {
        Some(m) => Some(m.clone()),
        None => None,
    };
    ctx.vaults.principal = ctx.vaults.principal + amount;
    ctx.vaults.receipt_supply = ctx.vaults.receipt_supply + amount;
    ctx.stake_position = Some(
        StakePosition {
            user: ctx.user,
            amount,
            deposit_time: now,
            term: days,
            in_use: false,
            memo,
            nonce,
        },
    );
    Ok(StakeEvent { user: ctx.user, amount, term: days as u64, timestamp: now, memo: event_memo })
}

/// What a lock extension sees; the same accounts as a redemption.
pub struct ExtendLock {
    pub user: Pubkey,
    pub stake_position: StakePosition,
    pub vaults: Vaults,
    pub config: Config,
}

/// Interest the position of `ctx` has accrued by `now`, over whole days of
/// its current term.
pub open spec fn extend_lock_accrued(ctx: ExtendLock, now: int) -> int {
    let pos = ctx.stake_position;
    spec_accrued(
        pos.amount as int,
        ctx.config.spec_rate_for(pos.term as int) as int,
        spec_whole_days(pos.deposit_time as int, now),
        pos.term as int,
    )
}

/// The first reason, if any, for which `extend_lock` at `now` is rejected.
pub open spec fn extend_lock_error(ctx: ExtendLock, now: int) -> Option<ErrorCode> {
    let pos = ctx.stake_position;
    let accrued = extend_lock_accrued(ctx, now);
    if pos.user != ctx.user {
        Some(ErrorCode::Unauthorized)
    } else if pos.in_use {
        Some(ErrorCode::Reentrancy)
    } else if pos.amount == 0 {
        Some(ErrorCode::PositionClosed)
    } else if now < pos.deposit_time || accrued > u64::MAX {
        Some(ErrorCode::MathOverflow)
    } else if (ctx.vaults.yield_pool as int) < accrued {
        Some(ErrorCode::InsufficientYieldVaultFunds)
    } else if ctx.vaults.principal + accrued > u64::MAX || pos.amount + accrued > u64::MAX
        || ctx.config.total_interest_paid + accrued > u128::MAX {
        Some(ErrorCode::MathOverflow)
    } else {
        None
    }
}

/// Compounds the interest accrued so far into the position, moving it from
/// the yield pool to the principal pool, and restarts the lock under
/// `additional_term`. Returns the interest compounded.
pub fn extend_lock(ctx: &mut ExtendLock, additional_term: LockTerm, now: i64) -> (r: Result<u64, ErrorCode>)
    requires
        old(ctx).stake_position.wf(),
    ensures
        r is Ok <==> extend_lock_error(*old(ctx), now as int) is None,
        r is Err ==> *final(ctx) == *old(ctx) && r == Err::<u64, ErrorCode>(
            extend_lock_error(*old(ctx), now as int)->Some_0,
        ),
        r is Ok ==> {
            let accrued = extend_lock_accrued(*old(ctx), now as int);
            &&& r->Ok_0 == accrued
            &&& final(ctx).user == old(ctx).user
            &&& final(ctx).stake_position == (StakePosition {
                amount: (old(ctx).stake_position.amount + accrued) as u64,
                deposit_time: now,
                term: additional_term.spec_days() as i64,
                ..old(ctx).stake_position
            })
            &&& final(ctx).vaults == (Vaults {
                principal: (old(ctx).vaults.principal + accrued) as u64,
                yield_pool: (old(ctx).vaults.yield_pool - accrued) as u64,
                ..old(ctx).vaults
            })
            &&& final(ctx).config == (Config {
                total_interest_paid: (old(ctx).config.total_interest_paid + accrued) as u128,
                ..old(ctx).config
            })
        },
{
    if ctx.stake_position.user != ctx.user {
        return Err(ErrorCode::Unauthorized);
    }
    if ctx.stake_position.in_use {
        return Err(ErrorCode::Reentrancy);
    }
    let amount = ctx.stake_position.amount;
    if amount == 0 {
        return Err(ErrorCode::PositionClosed);
    }
    if now < ctx.stake_position.deposit_time {
        return Err(ErrorCode::MathOverflow);
    }
    let elapsed: i128 = now as i128 - ctx.stake_position.deposit_time as i128;
    let days: i128 = elapsed / (SECONDS_PER_DAY as i128);
    assert(days <= elapsed);
    let term = ctx.stake_position.term;
    let rate = ctx.config.rate_for(term);
    let accrued = match accrued_interest(amount, rate, days as u64, term as u64) {
        Some(a) => a,
        None => return Err(ErrorCode::MathOverflow),
    };
    if ctx.vaults.yield_pool < accrued {
        return Err(ErrorCode::InsufficientYieldVaultFunds);
    }
    if ctx.vaults.principal > u64::MAX - accrued || amount > u64::MAX - accrued {
        return Err(ErrorCode::MathOverflow);
    }
    let total = match ctx.config.total_interest_paid.checked_add(accrued as u128) {
        Some(t) => t,
        None => return Err(ErrorCode::MathOverflow),
    };
    ctx.stake_position.in_use = true;
    ctx.vaults.yield_pool = ctx.vaults.yield_pool - accrued;
    ctx.vaults.principal = ctx.vaults.principal + accrued;
    ctx.config.total_interest_paid = total;
    ctx.stake_position.amount = amount + accrued;
    ctx.stake_position.deposit_time = now;
    ctx.stake_position.term = additional_term.days();
    ctx.stake_position.in_use = false;
    Ok(accrued)
}

/// What initialisation sees: the admin, the identities of the receipt-token
/// mint and of the two pools, the configuration slot and the pools.
pub struct Initialize {
    pub admin: Pubkey,
    pub stfix_mint: Pubkey,
    pub principal_vault: Pubkey,
    pub yield_vault: Pubkey,
    pub config: Option<Config>,
    pub vaults: Vaults,
}

/// Creates the configuration with the given parameters, an empty whitelist,
/// no interest paid, and empty pools. Fails if a configuration exists, or if
/// the penalty rate exceeds the whole principal.
pub fn initialize(
    ctx: &mut Initialize,
    yield_rate_30: u64,
    yield_rate_90: u64,
    cooldown_seconds: i64,
    penalty_rate_bps: u64,
    whitelist_only: bool,
) -> (r: Result<(), ErrorCode>)
    ensures
        old(ctx).config is Some ==> r == Err::<(), ErrorCode>(ErrorCode::AlreadyInitialized),
        old(ctx).config is None && penalty_rate_bps > BPS_DENOMINATOR ==> r == Err::<(), ErrorCode>(
            ErrorCode::InvalidPenaltyRate,
        ),
        r is Err ==> *final(ctx) == *old(ctx),
        r is Ok <==> old(ctx).config is None && penalty_rate_bps <= BPS_DENOMINATOR,
        r is Ok ==> {
            let c = final(ctx).config->Some_0;
            &&& final(ctx).config is Some
            &&& c.wf()
            &&& c.admin == old(ctx).admin
            &&& c.stfix_mint == old(ctx).stfix_mint
            &&& c.principal_vault == old(ctx).principal_vault
            &&& c.yield_vault == old(ctx).yield_vault
            &&& c.yield_rate_30 == yield_rate_30
            &&& c.yield_rate_90 == yield_rate_90
            &&& c.cooldown_seconds == cooldown_seconds
            &&& c.penalty_rate_bps == penalty_rate_bps
            &&& c.whitelist_only == whitelist_only
            &&& c.whitelist@ == Seq::<Pubkey>::empty()
            &&& c.total_interest_paid == 0
            &&& final(ctx).vaults == (Vaults { principal: 0, yield_pool: 0, receipt_supply: 0 })
            &&& final(ctx).admin == old(ctx).admin
            &&& final(ctx).stfix_mint == old(ctx).stfix_mint
            &&& final(ctx).principal_vault == old(ctx).principal_vault
            &&& final(ctx).yield_vault == old(ctx).yield_vault
        },
{
    if ctx.config.is_some() {
        return Err(ErrorCode::AlreadyInitialized);
    }
    if penalty_rate_bps > BPS_DENOMINATOR {
        return Err(ErrorCode::InvalidPenaltyRate);
    }
    ctx.config = Some(
        Config {
            admin: ctx.admin,
            stfix_mint: ctx.stfix_mint,
            principal_vault: ctx.principal_vault,
            yield_vault: ctx.yield_vault,
            yield_rate_30,
            yield_rate_90,
            cooldown_seconds,
            penalty_rate_bps,
            whitelist_only,
            whitelist: Vec::new(),
            total_interest_paid: 0,
        },
    );
    ctx.vaults = Vaults { principal: 0, yield_pool: 0, receipt_supply: 0 };
    Ok(())
}

/// What a yield top-up sees: the caller, the configuration and the pools.
pub struct TopUpYield {
    pub admin: Pubkey,
    pub config: Config,
    pub vaults: Vaults,
}

/// Moves `amount` from the admin into the yield pool.
pub fn top_up_yield(ctx: &mut TopUpYield, amount: u64, now: i64) -> (r: Result<TopUpYieldEvent, ErrorCode>)
    ensures
        old(ctx).admin != old(ctx).config.admin ==> r == Err::<TopUpYieldEvent, ErrorCode>(
            ErrorCode::Unauthorized,
        ),
        old(ctx).admin == old(ctx).config.admin && old(ctx).vaults.yield_pool + amount > u64::MAX
            ==> r == Err::<TopUpYieldEvent, ErrorCode>(ErrorCode::MathOverflow),
        r is Ok <==> old(ctx).admin == old(ctx).config.admin && old(ctx).vaults.yield_pool + amount
            <= u64::MAX,
        r is Err ==> *final(ctx) == *old(ctx),
        r is Ok ==> {
            &&& r->Ok_0 == (TopUpYieldEvent { admin: old(ctx).admin, amount, timestamp: now })
            &&& final(ctx).admin == old(ctx).admin
            &&& final(ctx).config == old(ctx).config
            &&& final(ctx).vaults == (Vaults {
                yield_pool: (old(ctx).vaults.yield_pool + amount) as u64,
                ..old(ctx).vaults
            })
        },
{
    if ctx.admin != ctx.config.admin {
        return Err(ErrorCode::Unauthorized);
    }
    if ctx.vaults.yield_pool > u64::MAX - amount {
        return Err(ErrorCode::MathOverflow);
    }
    ctx.vaults.yield_pool = ctx.vaults.yield_pool + amount;
    Ok(TopUpYieldEvent { admin: ctx.admin, amount, timestamp: now })
}

/// What a whitelist update sees: the caller and the configuration.
pub struct UpdateWhitelist {
    pub admin: Pubkey,
    pub config: Config,
}

/// The whitelist after adding `user`: unchanged if present, else `user` last.
pub open spec fn whitelist_added(wl: Seq<Pubkey>, user: Pubkey) -> Seq<Pubkey> {
    if wl.contains(user) {
        wl
    } else {
        wl.push(user)
    }
}

/// Holds of every identity but `user`.
pub open spec fn other_than(user: Pubkey) -> spec_fn(Pubkey) -> bool {
    |u: Pubkey| u != user
}

/// The whitelist after removing `user`, the others in their order.
pub open spec fn whitelist_removed(wl: Seq<Pubkey>, user: Pubkey) -> Seq<Pubkey> {
    wl.filter(other_than(user))
}

/// Adds `user` to the whitelist; a no-op if present. Fails for a caller
/// other than the admin, and for a new identity once the whitelist is full.
pub fn add_to_whitelist(ctx: &mut UpdateWhitelist, user: Pubkey) -> (r: Result<(), ErrorCode>)
    requires
        old(ctx).config.wf(),
    ensures
        old(ctx).admin != old(ctx).config.admin ==> r == Err::<(), ErrorCode>(ErrorCode::Unauthorized),
        old(ctx).admin == old(ctx).config.admin && !old(ctx).config.whitelist@.contains(user)
            && old(ctx).config.whitelist@.len() >= MAX_WHITELIST ==> r == Err::<(), ErrorCode>(
            ErrorCode::WhitelistFull,
        ),
        r is Ok <==> old(ctx).admin == old(ctx).config.admin && (old(ctx).config.whitelist@.contains(
            user,
        ) || old(ctx).config.whitelist@.len() < MAX_WHITELIST),
        r is Err ==> *final(ctx) == *old(ctx),
        r is Ok ==> {
            &&& final(ctx).admin == old(ctx).admin
            &&& final(ctx).config.whitelist@ == whitelist_added(old(ctx).config.whitelist@, user)
            &&& final(ctx).config == (Config { whitelist: final(ctx).config.whitelist, ..old(ctx).config })
        },
        final(ctx).config.wf(),
{
    if ctx.admin != ctx.config.admin {
        return Err(ErrorCode::Unauthorized);
    }
    if ctx.config.is_whitelisted(&user) {
        return Ok(());
    }
    if ctx.config.whitelist.len() >= MAX_WHITELIST {
        return Err(ErrorCode::WhitelistFull);
    }
    ctx.config.whitelist.push(user);
    Ok(())
}

/// Removes `user` from the whitelist; a no-op if absent. Fails for a caller
/// other than the admin.
pub fn remove_from_whitelist(ctx: &mut UpdateWhitelist, user: Pubkey) -> (r: Result<(), ErrorCode>)
    requires
        old(ctx).config.wf(),
    ensures
        r is Ok <==> old(ctx).admin == old(ctx).config.admin,
        r is Err ==> r == Err::<(), ErrorCode>(ErrorCode::Unauthorized) && *final(ctx) == *old(ctx),
        r is Ok ==> {
            &&& final(ctx).admin == old(ctx).admin
            &&& final(ctx).config.whitelist@ == whitelist_removed(old(ctx).config.whitelist@, user)
            &&& final(ctx).config == (Config { whitelist: final(ctx).config.whitelist, ..old(ctx).config })
        },
        final(ctx).config.wf(),
{
    if ctx.admin != ctx.config.admin {
        return Err(ErrorCode::Unauthorized);
    }
    let ghost before = ctx.config.whitelist@;
    let mut kept: Vec<Pubkey> = Vec::new();
    let mut i: usize = 0;
    while i < ctx.config.whitelist.len()
        invariant
            ctx.config.whitelist@ == before,
            i <= before.len(),
            kept@ == whitelist_removed(before.take(i as int), user),
        decreases before.len() - i,
    {
        let u = ctx.config.whitelist[i];
        proof {
            assert(before.take(i as int + 1) == before.take(i as int).push(u));
            before.take(i as int).lemma_filter_push(u, other_than(user));
        }
        if u != user {
            kept.push(u);
        }
        i = i + 1;
    }
    proof {
        assert(before.take(before.len() as int) == before);
        broadcast use vstd::seq_lib::group_filter_ensures;
        before.lemma_filter_len(other_than(user));
        assert forall|a: int, b: int| 0 <= a < b < kept@.len() implies kept@[a] != kept@[b] by {
            lemma_filter_no_duplicates(before, user);
        }
    }
    ctx.config.whitelist = kept;
    Ok(())
}

/// Dropping the copies of `user` from a list without duplicates leaves one
/// without duplicates.
proof fn lemma_filter_no_duplicates(s: Seq<Pubkey>, user: Pubkey)
    requires
        s.no_duplicates(),
    ensures
        whitelist_removed(s, user).no_duplicates(),
    decreases s.len(),
{
    if s.len() > 0 {
        let init = s.drop_last();
        assert(init.push(s.last()) == s);
        assert(init.no_duplicates());
        lemma_filter_no_duplicates(init, user);
        init.lemma_filter_push(s.last(), other_than(user));
        if s.last() != user {
            let f = whitelist_removed(init, user);
            assert(!init.contains(s.last()));
            if f.contains(s.last()) {
                init.lemma_filter_contains_rev(other_than(user), s.last());
            }
            assert(!f.contains(s.last()));
            assert(f.push(s.last()).no_duplicates()) by {
                assert forall|a: int, b: int|
                    0 <= a < b < f.len() + 1 implies f.push(s.last())[a] != f.push(s.last())[b] by {
                    if b == f.len() {
                        assert(f.contains(f[a]));
                    }
                }
            }
        }
    }
}

} // verus!

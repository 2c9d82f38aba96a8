use vstd::prelude::*;
use crate::program::{
    early_redeem_error, extend_lock_error, other_than, redeem_error, stake_error, whitelist_added,
    whitelist_removed, EarlyRedeem, ExtendLock, Redeem, Stake,
};
use crate::state::{memo_fits, ErrorCode, Pubkey, MAX_WHITELIST};

verus! {

/// A redemption by the owner before the unlock time fails with
/// `LockPeriodNotCompleted`; at the unlock time itself the lock no longer
/// stands in the way, and a redemption that nothing else rejects succeeds.
pub proof fn lemma_redeem_waits_for_unlock(ctx: Redeem, now: int)
    ensures
        ctx.stake_position.user == ctx.user && now < ctx.stake_position.unlock_time()
            ==> redeem_error(ctx, now) == Some(ErrorCode::LockPeriodNotCompleted),
        redeem_error(ctx, ctx.stake_position.unlock_time()) != Some(ErrorCode::LockPeriodNotCompleted),
        redeem_error(ctx, now) is None && now < ctx.stake_position.unlock_time() ==> false,
{
}

/// No operation succeeds on a position that is busy; for its owner, and
/// once a redemption's lock has passed, the failure is `Reentrancy`.
pub proof fn lemma_busy_position_rejected(r: Redeem, e: EarlyRedeem, x: ExtendLock, now: int)
    ensures
        r.stake_position.in_use ==> redeem_error(r, now) is Some,
        r.stake_position.in_use && r.stake_position.user == r.user && now
            >= r.stake_position.unlock_time() ==> redeem_error(r, now) == Some(ErrorCode::Reentrancy),
        e.stake_position.in_use ==> early_redeem_error(e) is Some,
        e.stake_position.in_use && e.stake_position.user == e.user ==> early_redeem_error(e) == Some(
            ErrorCode::Reentrancy,
        ),
        x.stake_position.in_use ==> extend_lock_error(x, now) is Some,
        x.stake_position.in_use && x.stake_position.user == x.user ==> extend_lock_error(x, now)
            == Some(ErrorCode::Reentrancy),
{
}

/// A stake whose slot holds a busy position never succeeds; once the
/// amount, memo, whitelist and cooldown checks pass, it fails with
/// `Reentrancy`.
pub proof fn lemma_stake_on_busy_slot_rejected(
    ctx: Stake,
    amount: u64,
    memo: Option<String>,
    now: int,
)
    requires
        ctx.stake_position is Some,
        ctx.stake_position->Some_0.in_use,
    ensures
        stake_error(ctx, amount, memo, now) is Some,
        amount > 0 && memo_fits(memo) && (!ctx.config.whitelist_only
            || ctx.config.whitelist@.contains(ctx.user)) && (ctx.user_state is None || now
            - ctx.user_state->Some_0.last_stake_time >= ctx.config.cooldown_seconds)
            ==> stake_error(ctx, amount, memo, now) == Some(ErrorCode::Reentrancy),
{
}

/// A stake within the cooldown of the owner's last stake fails with
/// `RateLimited` once the earlier checks pass; one exactly a cooldown later is
/// not rate limited.
pub proof fn lemma_stake_cooldown(ctx: Stake, amount: u64, memo: Option<String>, now: int)
    requires
        ctx.user_state is Some,
    ensures
        now - ctx.user_state->Some_0.last_stake_time < ctx.config.cooldown_seconds
            ==> stake_error(ctx, amount, memo, now) is Some,
        now - ctx.user_state->Some_0.last_stake_time < ctx.config.cooldown_seconds && amount > 0
            && memo_fits(memo) && (!ctx.config.whitelist_only
            || ctx.config.whitelist@.contains(ctx.user)) ==> stake_error(ctx, amount, memo, now)
            == Some(ErrorCode::RateLimited),
        now - ctx.user_state->Some_0.last_stake_time == ctx.config.cooldown_seconds
            ==> stake_error(ctx, amount, memo, now) != Some(ErrorCode::RateLimited),
{
}

/// A position whose amount is zero, as every successful `redeem` and
/// `early_redeem` leaves it, can be neither redeemed, nor redeemed early, nor
/// extended again.
pub proof fn lemma_closed_position_is_terminal(r: Redeem, e: EarlyRedeem, x: ExtendLock, now: int)
    requires
        r.stake_position.amount == 0,
        e.stake_position.amount == 0,
        x.stake_position.amount == 0,
    ensures
        redeem_error(r, now) is Some,
        early_redeem_error(e) is Some,
        extend_lock_error(x, now) is Some,
{
}

/// Every successful `stake`, `redeem` and `early_redeem` moves a positive
/// amount, so each changes the receipt-token supply.
pub proof fn lemma_supply_moves_on_success(
    s: Stake,
    amount: u64,
    memo: Option<String>,
    r: Redeem,
    e: EarlyRedeem,
    now: int,
)
    ensures
        stake_error(s, amount, memo, now) is None ==> amount > 0,
        redeem_error(r, now) is None ==> r.stake_position.amount > 0,
        early_redeem_error(e) is None ==> e.stake_position.amount > 0,
{
}

/// Filtering out an identity a list does not hold leaves the list as it is.
proof fn lemma_remove_absent(wl: Seq<Pubkey>, user: Pubkey)
    requires
        !wl.contains(user),
    ensures
        whitelist_removed(wl, user) == wl,
    decreases wl.len(),
{
    if wl.len() > 0 {
        let init = wl.drop_last();
        assert(init.push(wl.last()) == wl);
        assert(!init.contains(user)) by {
            if init.contains(user) {
                let k = choose|k: int| 0 <= k < init.len() && init[k] == user;
                assert(wl[k] == user);
            }
        }
        lemma_remove_absent(init, user);
        init.lemma_filter_push(wl.last(), other_than(user));
    }
}

/// Adding an identity and then removing it restores the whitelist exactly
/// when it was absent, and leaves it absent in any case. Adding an identity
/// already present changes nothing, and adding keeps the list free of
/// duplicates.
pub proof fn lemma_whitelist_round_trip(wl: Seq<Pubkey>, user: Pubkey)
    requires
        wl.no_duplicates(),
        wl.len() <= MAX_WHITELIST,
    ensures
        !wl.contains(user) ==> whitelist_removed(whitelist_added(wl, user), user) == wl,
        !whitelist_removed(whitelist_added(wl, user), user).contains(user),
        wl.contains(user) ==> whitelist_added(wl, user) == wl,
        whitelist_added(wl, user).no_duplicates(),
        wl.len() < MAX_WHITELIST || wl.contains(user) ==> whitelist_added(wl, user).len()
            <= MAX_WHITELIST,
        whitelist_removed(wl, user).len() <= MAX_WHITELIST,
{
    let added = whitelist_added(wl, user);
    let removed = whitelist_removed(added, user);
    if !wl.contains(user) {
        lemma_remove_absent(wl, user);
        wl.lemma_filter_push(user, other_than(user));
        assert(added.no_duplicates()) by {
            assert forall|a: int, b: int| 0 <= a < b < added.len() implies added[a] != added[b] by {
                if b == wl.len() {
                    assert(wl.contains(wl[a]));
                }
            }
        }
    }
    broadcast use vstd::seq_lib::group_filter_ensures;
    wl.lemma_filter_len(other_than(user));
    if removed.contains(user) {
        added.lemma_filter_contains_rev(other_than(user), user);
        let k = choose|k: int| 0 <= k < removed.len() && removed[k] == user;
        assert(other_than(user)(removed[k]));
    }
}

/// Sum of the interest credited by a run of operations.
pub open spec fn credited_sum(credited: Seq<int>) -> int
    decreases credited.len(),
{
    if credited.len() == 0 {
        0
    } else {
        credited_sum(credited.drop_last()) + credited.last()
    }
}

/// Over any run of operations in which each step adds to
/// `total_interest_paid` what it credits (the interest of a `redeem`, the
/// accrued interest of an `extend_lock`, zero for every other operation, as
/// their contracts state), the final total is the first plus the sum of all
/// amounts credited, and it never decreases.
pub proof fn lemma_total_interest_is_sum(totals: Seq<int>, credited: Seq<int>)
    requires
        totals.len() == credited.len() + 1,
        forall|i: int| 0 <= i < credited.len() ==> #[trigger] credited[i] >= 0,
        forall|i: int|
            0 <= i < credited.len() ==> totals[i + 1] == totals[i] + #[trigger] credited[i],
    ensures
        totals.last() == totals[0] + credited_sum(credited),
        totals.last() >= totals[0],
    decreases credited.len(),
{
    if credited.len() > 0 {
        let n = credited.len() - 1;
        lemma_total_interest_is_sum(totals.drop_last(), credited.drop_last());
        assert(totals[n + 1] == totals[n] + credited[n]);
    }
}

} // verus!

use vstd::prelude::*;
use vstd::utf8::encode_utf8;

verus! {

/// Seconds in one day of lock time.
pub const SECONDS_PER_DAY: i64 = 86_400;

/// Largest number of identities the whitelist may hold.
pub const MAX_WHITELIST: usize = 10;

/// Largest memo, in bytes.
pub const MAX_MEMO_LEN: usize = 128;

/// Denominator of every basis-point rate.
pub const BPS_DENOMINATOR: u64 = 10_000;

/// A 32-byte account identity, held as two 128-bit halves.
#[derive(PartialEq, Eq, Structural, Clone, Copy, Debug)]
pub struct Pubkey {
    pub hi: u128,
    pub lo: u128,
}

impl Pubkey {
    pub fn new(hi: u128, lo: u128) -> (r: Pubkey)
        ensures
            r.hi == hi,
            r.lo == lo,
    {
        Pubkey { hi, lo }
    }
}

/// The lock terms a stake may choose.
#[derive(PartialEq, Eq, Structural, Clone, Copy, Debug)]
pub enum LockTerm {
    ThirtyDays,
    NinetyDays,
}

impl LockTerm {
    pub open spec fn spec_days(self) -> int {
        match self {
            LockTerm::ThirtyDays => 30,
            LockTerm::NinetyDays => 90,
        }
    }

    /// Length of the term in days.
    pub fn days(&self) -> (r: i64)
        ensures
            r == self.spec_days(),
    {
        match self {
            LockTerm::ThirtyDays => 30,
            LockTerm::NinetyDays => 90,
        }
    }
}

/// Protocol-wide parameters and counters.
#[derive(Clone, Debug)]
pub struct Config {
    pub admin: Pubkey,
    pub stfix_mint: Pubkey,
    pub principal_vault: Pubkey,
    pub yield_vault: Pubkey,
    pub yield_rate_30: u64,
    pub yield_rate_90: u64,
    pub cooldown_seconds: i64,
    pub penalty_rate_bps: u64,
    pub whitelist_only: bool,
    pub whitelist: Vec<Pubkey>,
    pub total_interest_paid: u128,
}

impl Config {
    /// The penalty rate is a fraction of the principal, and the whitelist is a
    /// bounded set.
    pub open spec fn wf(&self) -> bool {
        &&& self.penalty_rate_bps <= BPS_DENOMINATOR
        &&& self.whitelist@.len() <= MAX_WHITELIST
        &&& self.whitelist@.no_duplicates()
    }

    /// The yield rate, in basis points, that applies to a term of `term` days.
    pub open spec fn spec_rate_for(&self, term: int) -> u64 {
        if term == 30 {
            self.yield_rate_30
        } else {
            self.yield_rate_90
        }
    }

    pub fn rate_for(&self, term: i64) -> (r: u64)
        ensures
            r == self.spec_rate_for(term as int),
    {
        if term == 30 {
            self.yield_rate_30
        } else {
            self.yield_rate_90
        }
    }

    pub fn is_whitelisted(&self, user: &Pubkey) -> (r: bool)
        ensures
            r == self.whitelist@.contains(*user),
    {
        let mut i: usize = 0;
        while i < self.whitelist.len()
            invariant
                i <= self.whitelist@.len(),
                forall|j: int| 0 <= j < i ==> self.whitelist@[j] != *user,
            decreases self.whitelist@.len() - i,
        {
            if self.whitelist[i] == *user {
                return true;
            }
            i = i + 1;
        }
        false
    }
}

/// One stake, identified by its owner and nonce.
#[derive(Clone, Debug)]
pub struct StakePosition {
    pub user: Pubkey,
    pub amount: u64,
    pub deposit_time: i64,
    pub term: i64,
    pub in_use: bool,
    pub memo: Option<String>,
    pub nonce: u64,
}

/// The memo fits the space a position reserves for it.
pub open spec fn memo_fits(memo: Option<String>) -> bool {
    match memo {
        Some(s) => encode_utf8(s@).len() as usize <= MAX_MEMO_LEN,
        None => true,
    }
}

impl StakePosition {
    /// A position's term is one of the lock terms.
    pub open spec fn wf(&self) -> bool {
        self.term == 30 || self.term == 90
    }

    /// The moment, in seconds, from which the position may be redeemed.
    pub open spec fn unlock_time(&self) -> int {
        self.deposit_time + self.term * SECONDS_PER_DAY
    }
}

/// Per-owner record of the last stake.
#[derive(PartialEq, Eq, Structural, Clone, Copy, Debug)]
pub struct UserState {
    pub owner: Pubkey,
    pub last_stake_time: i64,
}

/// The two pooled balances and the receipt-token supply.
#[derive(PartialEq, Eq, Structural, Clone, Copy, Debug)]
pub struct Vaults {
    pub principal: u64,
    pub yield_pool: u64,
    pub receipt_supply: u64,
}

#[derive(Clone, Debug)]
pub struct StakeEvent {
    pub user: Pubkey,
    pub amount: u64,
    pub term: u64,
    pub timestamp: i64,
    pub memo: Option<String>,
}

#[derive(PartialEq, Eq, Structural, Clone, Copy, Debug)]
pub struct RedeemEvent {
    pub user: Pubkey,
    pub principal: u64,
    pub interest: u64,
    pub timestamp: i64,
}

#[derive(PartialEq, Eq, Structural, Clone, Copy, Debug)]
pub struct EarlyRedeemEvent {
    pub user: Pubkey,
    pub amount: u64,
    pub penalty: u64,
    pub timestamp: i64,
}

#[derive(PartialEq, Eq, Structural, Clone, Copy, Debug)]
pub struct TopUpYieldEvent {
    pub admin: Pubkey,
    pub amount: u64,
    pub timestamp: i64,
}

/// Why an operation was rejected.
#[derive(PartialEq, Eq, Structural, Clone, Copy, Debug)]
pub enum ErrorCode {
    LockPeriodNotCompleted,
    Unauthorized,
    InsufficientYieldVaultFunds,
    Reentrancy,
    RateLimited,
    NotWhitelisted,
    /// The configuration would allow a penalty above the principal.
    InvalidPenaltyRate,
    /// The configuration already exists.
    AlreadyInitialized,
    /// A stake must carry a positive amount.
    ZeroAmount,
    /// The memo is longer than a position can hold.
    MemoTooLong,
    /// A position with this owner and nonce already exists.
    PositionExists,
    /// The position was already redeemed.
    PositionClosed,
    /// The whitelist is at its bound.
    WhitelistFull,
    /// An amount or balance left the range of its type.
    MathOverflow,
}

} // verus!

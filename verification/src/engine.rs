//! The Round Engine: pure, atomic transitions on the round ledger.
//!
//! Each operation validates its preconditions against the current
//! [`GameConfig`], then either applies its full effect or returns a typed
//! error with the ledger (and the user record) untouched. The intended
//! outcome of every operation is written down as a `spec` function
//! ([`purchase_outcome`], [`stop_outcome`]) and the executable code is proved
//! to return exactly that outcome.

use vstd::arithmetic::div_mod::lemma_div_by_multiple;
use vstd::arithmetic::div_mod::lemma_div_is_ordered;
use vstd::arithmetic::div_mod::lemma_div_pos_is_pos;
use vstd::arithmetic::div_mod::lemma_fundamental_div_mod;
use vstd::arithmetic::div_mod::lemma_mod_division_less_than_divisor;
use vstd::arithmetic::mul::lemma_mul_inequality;
use vstd::arithmetic::mul::lemma_mul_is_commutative;
use vstd::arithmetic::mul::lemma_mul_is_distributive_add;
use vstd::arithmetic::mul::lemma_mul_nonnegative;
use vstd::prelude::*;

use crate::constants::BPS_DENOMINATOR;
use crate::constants::MAX_TIMER_SECONDS;
use crate::constants::PRICE_INCREMENT;
use crate::constants::TIMER_BONUS_SECONDS;
use crate::state::GameConfig;
use crate::state::Identity;
use crate::state::PoolAllocation;
use crate::state::PoolSplit;
use crate::state::RoundState;
use crate::state::UserAccount;

verus! {

/// Why an operation was rejected. A rejected operation leaves every ledger
/// field exactly as it was.
#[derive(Clone, Copy, Debug, PartialEq, Eq, Structural)]
pub enum EngineError {
    /// The operation is not permitted in the ledger's current state.
    InvalidState,
    /// A stop was attempted before the round's deadline had passed.
    NotOverEndTime,
    /// The caller is not the ledger's configured authority.
    InvalidAuthority,
    /// Price, timer, or pool accounting would exceed its numeric range.
    ArithmeticOverflow,
    /// A purchase arrived after `end_time` while the round was still
    /// nominally running; the round must be stopped first.
    ExpiredRound,
}

/// Which cumulative counter a purchase is attributed to: tickets bought
/// directly, or through the secondary (shadow) channel.
#[derive(Clone, Copy, Debug, PartialEq, Eq, Structural)]
pub enum TicketChannel {
    Direct,
    Shadow,
}

/// A stop request: the identity that signed it and the current time.
#[derive(Clone, Copy, Debug, PartialEq, Eq, Structural)]
pub struct Stop {
    pub authority: Identity,
    pub now: i64,
}

/// The smaller of two integers.
pub open spec fn min_int(a: int, b: int) -> int {
    if a <= b {
        a
    } else {
        b
    }
}

/// Ticket price once `quantity` tickets have been sold starting from
/// `price`: each ticket raises the price by [`PRICE_INCREMENT`].
pub open spec fn new_price(price: int, quantity: int) -> int {
    price + PRICE_INCREMENT * quantity
}

/// Total paid for `quantity` tickets bought in sequence starting at `price`:
/// each ticket costs the pre-increment price of its step, so the amounts form
/// an arithmetic progression.
pub open spec fn total_cost(price: int, quantity: int) -> int {
    quantity * price + PRICE_INCREMENT * ((quantity * (quantity - 1)) / 2)
}

/// Rounded-down share of `cost` at `bps` basis points.
pub open spec fn pool_part(cost: int, bps: int) -> int {
    (cost * bps) / (BPS_DENOMINATOR as int)
}

/// What the jackpot pool receives: the paid amount minus the four rounded
/// shares, i.e. its own share plus the rounding remainder, so that the five
/// increments sum to the paid amount exactly.
pub open spec fn jackpot_part(cost: int, split: PoolSplit) -> int {
    cost - pool_part(cost, split.dividend_bps as int) - pool_part(
        cost,
        split.next_round_bps as int,
    ) - pool_part(cost, split.leaderboard_bps as int) - pool_part(
        cost,
        split.random_reward_bps as int,
    )
}

/// The distribution of a paid amount across the five pools under `split`.
pub open spec fn allocation_of(cost: int, split: PoolSplit) -> PoolAllocation {
    PoolAllocation {
        jackpot: jackpot_part(cost, split) as u64,
        dividend: pool_part(cost, split.dividend_bps as int) as u64,
        next_round: pool_part(cost, split.next_round_bps as int) as u64,
        leaderboard: pool_part(cost, split.leaderboard_bps as int) as u64,
        random_reward: pool_part(cost, split.random_reward_bps as int) as u64,
    }
}

/// The moment the countdown extends from: a first purchase starts the clock
/// at `now`, a later one extends the standing deadline.
pub open spec fn timer_base(cfg: GameConfig, now: i64) -> int {
    if cfg.state == RoundState::NotStarted {
        now as int
    } else {
        cfg.end_time as int
    }
}

/// The deadline after a purchase of `quantity` tickets at `now`: extended by
/// [`TIMER_BONUS_SECONDS`] per ticket, but never beyond
/// `now + MAX_TIMER_SECONDS`.
pub open spec fn new_end_time(cfg: GameConfig, now: i64, quantity: int) -> int {
    min_int(
        timer_base(cfg, now) + (TIMER_BONUS_SECONDS as int) * quantity,
        now + MAX_TIMER_SECONDS,
    )
}

/// Whether a purchase of `quantity` tickets at `now` would push any price,
/// timer, pool, or counter beyond its numeric range. Such a purchase is
/// rejected with [`EngineError::ArithmeticOverflow`]; value is never wrapped
/// or truncated.
pub open spec fn purchase_overflows(
    cfg: GameConfig,
    user: UserAccount,
    split: PoolSplit,
    now: i64,
    quantity: u64,
    channel: TicketChannel,
) -> bool {
    let p = cfg.current_key_price as int;
    let q = quantity as int;
    let cost = total_cost(p, q);
    ||| new_price(p, q) > u64::MAX
    ||| cost > u64::MAX
    ||| new_end_time(cfg, now, q) > i64::MAX
    ||| cfg.jackpot_pool + jackpot_part(cost, split) > u64::MAX
    ||| cfg.dividend_pool + pool_part(cost, split.dividend_bps as int) > u64::MAX
    ||| cfg.next_round_pool + pool_part(cost, split.next_round_bps as int) > u64::MAX
    ||| cfg.leaderboard_pool + pool_part(cost, split.leaderboard_bps as int) > u64::MAX
    ||| cfg.random_reward_pool + pool_part(cost, split.random_reward_bps as int) > u64::MAX
    ||| (channel == TicketChannel::Direct && cfg.total_key_count + q > u64::MAX)
    ||| (channel == TicketChannel::Shadow && cfg.total_shadow_count + q > u64::MAX)
    ||| user.key_count + q > u64::MAX
    ||| user.total_usdt_spent + cost > u64::MAX
}

/// Everything a successful purchase changes: the ledger after the purchase,
/// the buyer's updated record, and the pool allocation the fund-movement
/// layer must execute.
pub open spec fn purchase_result(
    cfg: GameConfig,
    user: UserAccount,
    split: PoolSplit,
    buyer: Identity,
    now: i64,
    quantity: u64,
    channel: TicketChannel,
) -> (GameConfig, UserAccount, PoolAllocation) {
    let p = cfg.current_key_price as int;
    let q = quantity as int;
    let cost = total_cost(p, q);
    let alloc = allocation_of(cost, split);
    let next_cfg = GameConfig {
        state: RoundState::Running,
        current_key_price: new_price(p, q) as u64,
        end_time: new_end_time(cfg, now, q) as i64,
        last_buyer_key: buyer,
        last_buyer_time: now,
        jackpot_pool: (cfg.jackpot_pool + alloc.jackpot) as u64,
        dividend_pool: (cfg.dividend_pool + alloc.dividend) as u64,
        next_round_pool: (cfg.next_round_pool + alloc.next_round) as u64,
        leaderboard_pool: (cfg.leaderboard_pool + alloc.leaderboard) as u64,
        random_reward_pool: (cfg.random_reward_pool + alloc.random_reward) as u64,
        total_key_count: if channel == TicketChannel::Direct {
            (cfg.total_key_count + q) as u64
        } else {
            cfg.total_key_count
        },
        total_shadow_count: if channel == TicketChannel::Shadow {
            (cfg.total_shadow_count + q) as u64
        } else {
            cfg.total_shadow_count
        },
        ..cfg
    };
    let next_user = UserAccount {
        key_count: (user.key_count + q) as u64,
        total_usdt_spent: (user.total_usdt_spent + cost) as u64,
        last_key_purchase_time: now,
        ..user
    };
    (next_cfg, next_user, alloc)
}

/// The outcome [`purchase_ticket`] is proved to return: the purchase is
/// admitted only from `NotStarted` or a `Running` round whose deadline has
/// not passed, is rejected whole if any amount would leave its numeric
/// range, and otherwise applies [`purchase_result`].
pub open spec fn purchase_outcome(
    cfg: GameConfig,
    user: UserAccount,
    split: PoolSplit,
    buyer: Identity,
    now: i64,
    quantity: u64,
    channel: TicketChannel,
) -> Result<(GameConfig, UserAccount, PoolAllocation), EngineError> {
    if !(cfg.state == RoundState::Running || cfg.state == RoundState::NotStarted) {
        Err(EngineError::InvalidState)
    } else if cfg.state == RoundState::Running && now >= cfg.end_time {
        Err(EngineError::ExpiredRound)
    } else if purchase_overflows(cfg, user, split, now, quantity, channel) {
        Err(EngineError::ArithmeticOverflow)
    } else {
        Ok(purchase_result(cfg, user, split, buyer, now, quantity, channel))
    }
}

/// The outcome [`stop`] is proved to return: only the configured authority
/// may stop, only a running round can be stopped, and only strictly after
/// its deadline; the one effect is `state` moving to `RoundEnded`.
pub open spec fn stop_outcome(cfg: GameConfig, caller: Identity, now: i64) -> Result<
    GameConfig,
    EngineError,
> {
    if caller != cfg.authority {
        Err(EngineError::InvalidAuthority)
    } else if cfg.state != RoundState::Running {
        Err(EngineError::InvalidState)
    } else if now <= cfg.end_time {
        Err(EngineError::NotOverEndTime)
    } else {
        Ok(GameConfig { state: RoundState::RoundEnded, ..cfg })
    }
}

/// The rounded share of a nonnegative amount, at no more than the whole
/// denominator, lies between zero and the amount itself.
proof fn lemma_pool_part_bounds(cost: int, bps: int)
    requires
        0 <= cost,
        0 <= bps,
        bps <= BPS_DENOMINATOR,
    ensures
        0 <= pool_part(cost, bps),
        pool_part(cost, bps) <= cost,
{
    let den = BPS_DENOMINATOR as int;
    lemma_mul_nonnegative(cost, bps);
    lemma_div_pos_is_pos(cost * bps, den);
    lemma_mul_inequality(bps, den, cost);
    lemma_mul_is_commutative(bps, cost);
    lemma_mul_is_commutative(den, cost);
    lemma_div_is_ordered(cost * bps, cost * den, den);
    lemma_div_by_multiple(cost, den);
}

/// The four rounded non-jackpot shares of a nonnegative amount never exceed
/// the amount, so the jackpot remainder is never negative; and every one of
/// the five increments lies between zero and the amount.
pub proof fn lemma_parts_within_cost(cost: int, split: PoolSplit)
    requires
        0 <= cost,
        split.wf(),
    ensures
        0 <= pool_part(cost, split.dividend_bps as int) <= cost,
        0 <= pool_part(cost, split.next_round_bps as int) <= cost,
        0 <= pool_part(cost, split.leaderboard_bps as int) <= cost,
        0 <= pool_part(cost, split.random_reward_bps as int) <= cost,
        pool_part(cost, split.dividend_bps as int) + pool_part(cost, split.next_round_bps as int)
            + pool_part(cost, split.leaderboard_bps as int) + pool_part(
            cost,
            split.random_reward_bps as int,
        ) <= cost,
        0 <= jackpot_part(cost, split) <= cost,
{
    let den = BPS_DENOMINATOR as int;
    let b1 = split.dividend_bps as int;
    let b2 = split.next_round_bps as int;
    let b3 = split.leaderboard_bps as int;
    let b4 = split.random_reward_bps as int;
    lemma_pool_part_bounds(cost, b1);
    lemma_pool_part_bounds(cost, b2);
    lemma_pool_part_bounds(cost, b3);
    lemma_pool_part_bounds(cost, b4);
    lemma_fundamental_div_mod(cost * b1, den);
    lemma_fundamental_div_mod(cost * b2, den);
    lemma_fundamental_div_mod(cost * b3, den);
    lemma_fundamental_div_mod(cost * b4, den);
    lemma_mod_division_less_than_divisor(cost * b1, den);
    lemma_mod_division_less_than_divisor(cost * b2, den);
    lemma_mod_division_less_than_divisor(cost * b3, den);
    lemma_mod_division_less_than_divisor(cost * b4, den);
    lemma_mul_is_distributive_add(cost, b1, b2);
    lemma_mul_is_distributive_add(cost, b1 + b2, b3);
    lemma_mul_is_distributive_add(cost, b1 + b2 + b3, b4);
    lemma_mul_inequality(b1 + b2 + b3 + b4, den, cost);
    lemma_mul_is_commutative(b1 + b2 + b3 + b4, cost);
    lemma_mul_is_commutative(den, cost);
}

/// Ends an expired round. The caller must be the configured authority, the
/// round must be running, and `now` must lie strictly past `end_time`; then
/// `state` moves to `RoundEnded` and nothing else changes. On any failure
/// the ledger is untouched.
pub fn stop(cfg: &mut GameConfig, req: &Stop) -> (result: Result<(), EngineError>)
    ensures
        match result {
            Ok(()) => stop_outcome(*old(cfg), req.authority, req.now) == Ok::<
                GameConfig,
                EngineError,
            >(*final(cfg)),
            Err(e) => {
                &&& stop_outcome(*old(cfg), req.authority, req.now) == Err::<
                    GameConfig,
                    EngineError,
                >(e)
                &&& *final(cfg) == *old(cfg)
            },
        },
{
    if req.authority != cfg.authority {
        return Err(EngineError::InvalidAuthority);
    }
    if cfg.state != RoundState::Running {
        return Err(EngineError::InvalidState);
    }
    if req.now <= cfg.end_time {
        return Err(EngineError::NotOverEndTime);
    }
    cfg.state = RoundState::RoundEnded;
    Ok(())
}

/// Records the purchase of `quantity` tickets by `buyer` at time `now`.
///
/// On success the ticket price has risen by [`PRICE_INCREMENT`] per ticket,
/// the deadline is extended by [`TIMER_BONUS_SECONDS`] per ticket but capped
/// at `now + MAX_TIMER_SECONDS`, the paid amount (each ticket at the
/// pre-increment price of its step) is distributed over the five pools
/// exactly, the buyer becomes the round's `last_buyer_key`, and the buyer's
/// own record is updated. A purchase from `NotStarted` starts the round. On
/// any failure both records are untouched.
///
/// The host layer supplies an authenticated buyer, the current time, and a
/// validated quantity of at least one.
pub fn purchase_ticket(
    cfg: &mut GameConfig,
    user: &mut UserAccount,
    split: &PoolSplit,
    buyer: Identity,
    now: i64,
    quantity: u64,
    channel: TicketChannel,
) -> (result: Result<PoolAllocation, EngineError>)
    requires
        split.wf(),
        quantity >= 1,
    ensures
        match result {
            Ok(alloc) => purchase_outcome(
                *old(cfg),
                *old(user),
                *split,
                buyer,
                now,
                quantity,
                channel,
            ) == Ok::<(GameConfig, UserAccount, PoolAllocation), EngineError>(
                (*final(cfg), *final(user), alloc),
            ),
            Err(e) => {
                &&& purchase_outcome(*old(cfg), *old(user), *split, buyer, now, quantity, channel)
                    == Err::<(GameConfig, UserAccount, PoolAllocation), EngineError>(e)
                &&& *final(cfg) == *old(cfg)
                &&& *final(user) == *old(user)
            },
        },
{
    if !(cfg.state == RoundState::Running || cfg.state == RoundState::NotStarted) {
        return Err(EngineError::InvalidState);
    }
    if cfg.state == RoundState::Running && now >= cfg.end_time {
        return Err(EngineError::ExpiredRound);
    }
    // Price escalation, in 128 bits so the range check is exact.
    let increment_total: u128 = (PRICE_INCREMENT as u128) * (quantity as u128);
    let price_wide: u128 = cfg.current_key_price as u128 + increment_total;
    if price_wide > u64::MAX as u128 {
        return Err(EngineError::ArithmeticOverflow);
    }
    let new_key_price: u64 = price_wide as u64;
    // The price check bounds the quantity, so the cost formula fits 128 bits.
    let q_wide: u128 = quantity as u128;
    assert(q_wide <= 184467440737095);
    assert(q_wide * (q_wide - 1) <= 184467440737095u128 * 184467440737095u128)
        by (nonlinear_arith)
        requires
            1 <= q_wide <= 184467440737095,
    ;
    let half: u128 = q_wide * (q_wide - 1) / 2;
    assert(q_wide * (cfg.current_key_price as u128) <= 184467440737095u128
        * 18446744073709551615u128)
        by (nonlinear_arith)
        requires
            q_wide <= 184467440737095 && cfg.current_key_price as u128 <= 18446744073709551615u128,
    ;
    let cost_wide: u128 = q_wide * (cfg.current_key_price as u128) + (PRICE_INCREMENT as u128)
        * half;
    if cost_wide > u64::MAX as u128 {
        return Err(EngineError::ArithmeticOverflow);
    }
    let cost: u64 = cost_wide as u64;
    proof {
        lemma_parts_within_cost(cost as int, *split);
    }
    // Pool shares: the four fixed shares round down; the jackpot takes the
    // remainder, so the five sum to the paid amount exactly.
    let den: u128 = BPS_DENOMINATOR as u128;
    let cost_w: u128 = cost as u128;
    assert(cost_w * (split.dividend_bps as u128) <= 18446744073709551615u128 * 10000)
        by (nonlinear_arith)
        requires
            cost_w <= 18446744073709551615u128 && split.dividend_bps as u128 <= 10000,
    ;
    let dividend_w: u128 = cost_w * (split.dividend_bps as u128) / den;
    assert(cost_w * (split.next_round_bps as u128) <= 18446744073709551615u128 * 10000)
        by (nonlinear_arith)
        requires
            cost_w <= 18446744073709551615u128 && split.next_round_bps as u128 <= 10000,
    ;
    let next_round_w: u128 = cost_w * (split.next_round_bps as u128) / den;
    assert(cost_w * (split.leaderboard_bps as u128) <= 18446744073709551615u128 * 10000)
        by (nonlinear_arith)
        requires
            cost_w <= 18446744073709551615u128 && split.leaderboard_bps as u128 <= 10000,
    ;
    let leaderboard_w: u128 = cost_w * (split.leaderboard_bps as u128) / den;
    assert(cost_w * (split.random_reward_bps as u128) <= 18446744073709551615u128 * 10000)
        by (nonlinear_arith)
        requires
            cost_w <= 18446744073709551615u128 && split.random_reward_bps as u128 <= 10000,
    ;
    let random_reward_w: u128 = cost_w * (split.random_reward_bps as u128) / den;
    let four_sum: u128 = dividend_w + next_round_w + leaderboard_w + random_reward_w;
    let jackpot_w: u128 = cost_w - four_sum;
    let jackpot_amt: u64 = jackpot_w as u64;
    let dividend_amt: u64 = dividend_w as u64;
    let next_round_amt: u64 = next_round_w as u64;
    let leaderboard_amt: u64 = leaderboard_w as u64;
    let random_reward_amt: u64 = random_reward_w as u64;
    // Timer extension, in 128 bits so the cap comparison is exact.
    let base: i64 = if cfg.state == RoundState::NotStarted {
        now
    } else {
        cfg.end_time
    };
    let extended: i128 = base as i128 + (TIMER_BONUS_SECONDS as i128) * (quantity as i128);
    let cap: i128 = now as i128 + MAX_TIMER_SECONDS as i128;
    let end_wide: i128 = if extended <= cap {
        extended
    } else {
        cap
    };
    if end_wide > i64::MAX as i128 {
        return Err(EngineError::ArithmeticOverflow);
    }
    let new_end: i64 = end_wide as i64;
    // Pools and counters, all checked: a purchase that cannot be accounted
    // in full is rejected whole.
    let new_jackpot_pool: u64 = match cfg.jackpot_pool.checked_add(jackpot_amt) {
        Some(v) => v,
        None => {
            return Err(EngineError::ArithmeticOverflow);
        },
    };
    let new_dividend_pool: u64 = match cfg.dividend_pool.checked_add(dividend_amt) {
        Some(v) => v,
        None => {
            return Err(EngineError::ArithmeticOverflow);
        },
    };
    let new_next_round_pool: u64 = match cfg.next_round_pool.checked_add(next_round_amt) {
        Some(v) => v,
        None => {
            return Err(EngineError::ArithmeticOverflow);
        },
    };
    let new_leaderboard_pool: u64 = match cfg.leaderboard_pool.checked_add(leaderboard_amt) {
        Some(v) => v,
        None => {
            return Err(EngineError::ArithmeticOverflow);
        },
    };
    let new_random_reward_pool: u64 = match cfg.random_reward_pool.checked_add(random_reward_amt) {
        Some(v) => v,
        None => {
            return Err(EngineError::ArithmeticOverflow);
        },
    };
    let new_total_key_count: u64 = match channel {
        TicketChannel::Direct => match cfg.total_key_count.checked_add(quantity) {
            Some(v) => v,
            None => {
                return Err(EngineError::ArithmeticOverflow);
            },
        },
        TicketChannel::Shadow => cfg.total_key_count,
    };
    let new_total_shadow_count: u64 = match channel {
        TicketChannel::Shadow => match cfg.total_shadow_count.checked_add(quantity) {
            Some(v) => v,
            None => {
                return Err(EngineError::ArithmeticOverflow);
            },
        },
        TicketChannel::Direct => cfg.total_shadow_count,
    };
    let new_user_key_count: u64 = match user.key_count.checked_add(quantity) {
        Some(v) => v,
        None => {
            return Err(EngineError::ArithmeticOverflow);
        },
    };
    let new_user_spent: u64 = match user.total_usdt_spent.checked_add(cost) {
        Some(v) => v,
        None => {
            return Err(EngineError::ArithmeticOverflow);
        },
    };
    // Every check has passed: apply the whole effect.
    let allocation = PoolAllocation {
        jackpot: jackpot_amt,
        dividend: dividend_amt,
        next_round: next_round_amt,
        leaderboard: leaderboard_amt,
        random_reward: random_reward_amt,
    };
    cfg.state = RoundState::Running;
    cfg.current_key_price = new_key_price;
    cfg.end_time = new_end;
    cfg.last_buyer_key = buyer;
    cfg.last_buyer_time = now;
    cfg.jackpot_pool = new_jackpot_pool;
    cfg.dividend_pool = new_dividend_pool;
    cfg.next_round_pool = new_next_round_pool;
    cfg.leaderboard_pool = new_leaderboard_pool;
    cfg.random_reward_pool = new_random_reward_pool;
    cfg.total_key_count = new_total_key_count;
    cfg.total_shadow_count = new_total_shadow_count;
    user.key_count = new_user_key_count;
    user.total_usdt_spent = new_user_spent;
    user.last_key_purchase_time = now;
    Ok(allocation)
}

} // verus!

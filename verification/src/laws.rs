//! The engine's general guarantees, each stated over the spec transition
//! functions that the operations' own contracts are proved against, and
//! proved once for all inputs.

use vstd::arithmetic::div_mod::lemma_div_pos_is_pos;
use vstd::arithmetic::mul::lemma_mul_nonnegative;
use vstd::prelude::*;

use crate::constants::MAX_TIMER_SECONDS;
use crate::engine::lemma_parts_within_cost;
use crate::engine::purchase_outcome;
use crate::engine::stop_outcome;
use crate::engine::total_cost;
use crate::engine::EngineError;
use crate::engine::TicketChannel;
use crate::state::state_code;
use crate::state::GameConfig;
use crate::state::Identity;
use crate::state::PoolSplit;
use crate::state::RoundState;
use crate::state::UserAccount;

verus! {

/// One engine operation together with its inputs, for stating properties of
/// whole operation sequences.
pub enum EngineOp {
    Purchase {
        user: UserAccount,
        split: PoolSplit,
        buyer: Identity,
        now: i64,
        quantity: u64,
        channel: TicketChannel,
    },
    Stop { caller: Identity, now: i64 },
}

/// The ledger after one operation: its effect on success, unchanged on
/// failure.
pub open spec fn apply_op(cfg: GameConfig, op: EngineOp) -> GameConfig {
    match op {
        EngineOp::Purchase { user, split, buyer, now, quantity, channel } => match
            purchase_outcome(cfg, user, split, buyer, now, quantity, channel) {
            Ok(r) => r.0,
            Err(_) => cfg,
        },
        EngineOp::Stop { caller, now } => match stop_outcome(cfg, caller, now) {
            Ok(next) => next,
            Err(_) => cfg,
        },
    }
}

/// The ledger after a whole sequence of operations.
pub open spec fn run_ops(cfg: GameConfig, ops: Seq<EngineOp>) -> GameConfig
    decreases ops.len(),
{
    if ops.len() == 0 {
        cfg
    } else {
        run_ops(apply_op(cfg, ops.first()), ops.drop_first())
    }
}

/// Monotonic state over sequences: from any ledger, along any sequence of
/// engine operations, the state code never decreases. Applied to every
/// prefix of a run this says the state visits its codes in non-decreasing
/// order and never returns to an earlier value.
pub proof fn lemma_state_monotonic(cfg: GameConfig, ops: Seq<EngineOp>)
    ensures
        state_code(run_ops(cfg, ops).state) >= state_code(cfg.state),
    decreases ops.len(),
{
    if ops.len() > 0 {
        match ops.first() {
            EngineOp::Purchase { user, split, buyer, now, quantity, channel } => {
                lemma_purchase_state_monotonic(cfg, user, split, buyer, now, quantity, channel);
            },
            EngineOp::Stop { caller, now } => {
                lemma_stop_state_monotonic(cfg, caller, now);
            },
        }
        lemma_state_monotonic(apply_op(cfg, ops.first()), ops.drop_first());
    }
}

/// Monotonic state: a purchase never moves the round state backward. A
/// successful purchase runs only from `NotStarted` or `Running` and leaves
/// the round `Running`; a failed one changes nothing. Together with
/// [`lemma_stop_state_monotonic`] this covers every transition the engine
/// performs, so along any sequence of operations the state codes are
/// non-decreasing and never revisit an earlier value.
pub proof fn lemma_purchase_state_monotonic(
    cfg: GameConfig,
    user: UserAccount,
    split: PoolSplit,
    buyer: Identity,
    now: i64,
    quantity: u64,
    channel: TicketChannel,
)
    ensures
        match purchase_outcome(cfg, user, split, buyer, now, quantity, channel) {
            Ok(r) => state_code(r.0.state) >= state_code(cfg.state),
            Err(_) => true,
        },
{
}

/// Monotonic state: a stop never moves the round state backward. A
/// successful stop runs only from `Running` and leaves the round
/// `RoundEnded`; a failed one changes nothing.
pub proof fn lemma_stop_state_monotonic(cfg: GameConfig, caller: Identity, now: i64)
    ensures
        match stop_outcome(cfg, caller, now) {
            Ok(next) => state_code(next.state) >= state_code(cfg.state),
            Err(_) => true,
        },
{
}

/// Price monotonicity: every successful purchase leaves the ticket price
/// strictly higher than before.
pub proof fn lemma_price_monotonic(
    cfg: GameConfig,
    user: UserAccount,
    split: PoolSplit,
    buyer: Identity,
    now: i64,
    quantity: u64,
    channel: TicketChannel,
)
    requires
        quantity >= 1,
    ensures
        match purchase_outcome(cfg, user, split, buyer, now, quantity, channel) {
            Ok(r) => r.0.current_key_price > cfg.current_key_price,
            Err(_) => true,
        },
{
}

/// Timer cap: after every successful purchase the deadline lies no further
/// than [`MAX_TIMER_SECONDS`] past the moment of the purchase.
pub proof fn lemma_timer_cap(
    cfg: GameConfig,
    user: UserAccount,
    split: PoolSplit,
    buyer: Identity,
    now: i64,
    quantity: u64,
    channel: TicketChannel,
)
    ensures
        match purchase_outcome(cfg, user, split, buyer, now, quantity, channel) {
            Ok(r) => r.0.end_time <= now + MAX_TIMER_SECONDS,
            Err(_) => true,
        },
{
}

/// Timer growth: while a round is running with a deadline that respects the
/// cap, a successful purchase never moves the deadline backward — `end_time`
/// only ever increases.
pub proof fn lemma_timer_extends(
    cfg: GameConfig,
    user: UserAccount,
    split: PoolSplit,
    buyer: Identity,
    now: i64,
    quantity: u64,
    channel: TicketChannel,
)
    requires
        cfg.end_time <= now + MAX_TIMER_SECONDS,
    ensures
        match purchase_outcome(cfg, user, split, buyer, now, quantity, channel) {
            Ok(r) => cfg.state == RoundState::Running ==> r.0.end_time >= cfg.end_time,
            Err(_) => true,
        },
{
}

/// Pool conservation: a successful purchase of total price P increments the
/// five pools by amounts that sum to P exactly — no value is created or
/// destroyed — and touches no pool in any other way.
pub proof fn lemma_pool_conservation(
    cfg: GameConfig,
    user: UserAccount,
    split: PoolSplit,
    buyer: Identity,
    now: i64,
    quantity: u64,
    channel: TicketChannel,
)
    requires
        split.wf(),
        quantity >= 1,
    ensures
        match purchase_outcome(cfg, user, split, buyer, now, quantity, channel) {
            Ok(r) => {
                &&& r.2.total() == total_cost(cfg.current_key_price as int, quantity as int)
                &&& r.0.jackpot_pool == cfg.jackpot_pool + r.2.jackpot
                &&& r.0.dividend_pool == cfg.dividend_pool + r.2.dividend
                &&& r.0.next_round_pool == cfg.next_round_pool + r.2.next_round
                &&& r.0.leaderboard_pool == cfg.leaderboard_pool + r.2.leaderboard
                &&& r.0.random_reward_pool == cfg.random_reward_pool + r.2.random_reward
            },
            Err(_) => true,
        },
{
    let p = cfg.current_key_price as int;
    let q = quantity as int;
    let cost = total_cost(p, q);
    lemma_mul_nonnegative(q, p);
    lemma_mul_nonnegative(q, q - 1);
    lemma_div_pos_is_pos(q * (q - 1), 2);
    assert(cost >= 0);
    lemma_parts_within_cost(cost, split);
}

/// Stop preconditions: with the authority calling on a running round, a stop
/// at or before the deadline fails with exactly `NotOverEndTime`, and a stop
/// strictly after it succeeds, moving the state to `RoundEnded` and changing
/// nothing else.
pub proof fn lemma_stop_conditions(cfg: GameConfig, caller: Identity, now: i64)
    requires
        caller == cfg.authority,
        cfg.state == RoundState::Running,
    ensures
        now <= cfg.end_time ==> stop_outcome(cfg, caller, now) == Err::<GameConfig, EngineError>(
            EngineError::NotOverEndTime,
        ),
        now > cfg.end_time ==> stop_outcome(cfg, caller, now) == Ok::<GameConfig, EngineError>(
            GameConfig { state: RoundState::RoundEnded, ..cfg },
        ),
{
}

} // verus!

//! The persisted record shapes of the game: the per-round ledger
//! ([`GameConfig`]), the per-participant statistics ([`UserAccount`]), and the
//! configurable pool-split policy ([`PoolSplit`]).

use vstd::prelude::*;

use crate::constants::BPS_DENOMINATOR;
use crate::constants::INIT_PRICE;

verus! {

/// A participant identity: an opaque 256-bit key, held as two halves so that
/// equality is plain field equality. The engine never inspects an identity
/// beyond comparing it for equality.
#[derive(Clone, Copy, Debug, PartialEq, Eq, Structural)]
pub struct Identity {
    pub hi: u128,
    pub lo: u128,
}

/// The phase of the round lifecycle. The engine only ever moves the state
/// forward through `NotStarted -> Running -> RoundEnded`; `GameFinished` is
/// the whole game's permanent shutdown, reached by an administrative action
/// outside this engine.
#[derive(Clone, Copy, Debug, PartialEq, Eq, Structural)]
pub enum RoundState {
    NotStarted,
    Running,
    RoundEnded,
    GameFinished,
}

/// Numeric code of a round state, the order in which the lifecycle visits the
/// states: the state only ever moves to a larger code.
pub open spec fn state_code(s: RoundState) -> int {
    match s {
        RoundState::NotStarted => 0,
        RoundState::Running => 1,
        RoundState::RoundEnded => 2,
        RoundState::GameFinished => 3,
    }
}

impl RoundState {
    /// The numeric code of this state.
    pub fn code(&self) -> (c: u8)
        ensures
            c as int == state_code(*self),
    {
        match self {
            RoundState::NotStarted => 0,
            RoundState::Running => 1,
            RoundState::RoundEnded => 2,
            RoundState::GameFinished => 3,
        }
    }
}

/// The single per-round ledger: state, price, timer, pools, and the identity
/// of the most recent buyer (the eventual winner once the round ends).
#[derive(Clone, Copy, Debug, PartialEq, Eq, Structural)]
pub struct GameConfig {
    /// Monotonically increasing round identifier; a new round is a fresh
    /// ledger with the next number, never a transition of this one.
    pub round_number: u64,
    /// Current phase of the lifecycle.
    pub state: RoundState,
    /// Cost of the next ticket.
    pub current_key_price: u64,
    /// Absolute timestamp at which the round is eligible to end.
    pub end_time: i64,
    /// Identity of the most recent ticket purchaser.
    pub last_buyer_key: Identity,
    /// Timestamp of the most recent purchase.
    pub last_buyer_time: i64,
    /// Jackpot pool balance.
    pub jackpot_pool: u64,
    /// Dividend pool balance.
    pub dividend_pool: u64,
    /// Seed pool for the next round.
    pub next_round_pool: u64,
    /// Leaderboard / invite reward pool balance.
    pub leaderboard_pool: u64,
    /// Random reward pool balance.
    pub random_reward_pool: u64,
    /// Tickets bought through the direct channel, over the whole round.
    pub total_key_count: u64,
    /// Tickets attributed to the secondary (shadow) channel.
    pub total_shadow_count: u64,
    /// Identity permitted to perform administrative transitions.
    pub authority: Identity,
    /// Storage-addressing metadata; never read by the engine.
    pub treasury_usdt_bump: u8,
    /// Storage-addressing metadata; never read by the engine.
    pub treasury_han_bump: u8,
    /// Storage-addressing metadata; never read by the engine.
    pub bump: u8,
}

impl GameConfig {
    /// A fresh ledger for round `round_number`: not yet started, at the
    /// initial ticket price, with every pool and counter at zero.
    pub fn init(authority: Identity, round_number: u64) -> (cfg: GameConfig)
        ensures
            cfg == (GameConfig {
                round_number,
                state: RoundState::NotStarted,
                current_key_price: INIT_PRICE,
                end_time: 0,
                last_buyer_key: Identity { hi: 0, lo: 0 },
                last_buyer_time: 0,
                jackpot_pool: 0,
                dividend_pool: 0,
                next_round_pool: 0,
                leaderboard_pool: 0,
                random_reward_pool: 0,
                total_key_count: 0,
                total_shadow_count: 0,
                authority,
                treasury_usdt_bump: 0,
                treasury_han_bump: 0,
                bump: 0,
            }),
    {
        GameConfig {
            round_number,
            state: RoundState::NotStarted,
            current_key_price: INIT_PRICE,
            end_time: 0,
            last_buyer_key: Identity { hi: 0, lo: 0 },
            last_buyer_time: 0,
            jackpot_pool: 0,
            dividend_pool: 0,
            next_round_pool: 0,
            leaderboard_pool: 0,
            random_reward_pool: 0,
            total_key_count: 0,
            total_shadow_count: 0,
            authority,
            treasury_usdt_bump: 0,
            treasury_han_bump: 0,
            bump: 0,
        }
    }
}

/// Per-participant cumulative statistics: an append-only accounting record,
/// created on a participant's first purchase and never deleted.
#[derive(Clone, Copy, Debug, PartialEq, Eq, Structural)]
pub struct UserAccount {
    /// Number of tickets purchased.
    pub key_count: u64,
    /// Total USDT spent on tickets.
    pub total_usdt_spent: u64,
    /// Total USDT earned from dividends and jackpots.
    pub total_usdt_earned: u64,
    /// Total USDT withdrawn.
    pub total_withdrawn_usdt: u64,
    /// Total HAN earned.
    pub total_han_earned: u64,
    /// Total HAN withdrawn.
    pub total_withdrawn_han: u64,
    /// Timestamp of the most recent ticket purchase.
    pub last_key_purchase_time: i64,
    /// Storage-addressing metadata; never read by the engine.
    pub bump: u8,
}

impl UserAccount {
    /// A fresh statistics record, all counters at zero.
    pub fn init() -> (user: UserAccount)
        ensures
            user == (UserAccount {
                key_count: 0,
                total_usdt_spent: 0,
                total_usdt_earned: 0,
                total_withdrawn_usdt: 0,
                total_han_earned: 0,
                total_withdrawn_han: 0,
                last_key_purchase_time: 0,
                bump: 0,
            }),
    {
        UserAccount {
            key_count: 0,
            total_usdt_spent: 0,
            total_usdt_earned: 0,
            total_withdrawn_usdt: 0,
            total_han_earned: 0,
            total_withdrawn_han: 0,
            last_key_purchase_time: 0,
            bump: 0,
        }
    }
}

/// The configurable split of a purchase across the five pools, in basis
/// points. The five shares must sum to exactly [`BPS_DENOMINATOR`]; the four
/// non-jackpot pools receive the rounded-down share of the paid amount and
/// the jackpot receives everything that remains, so no value is lost.
#[derive(Clone, Copy, Debug, PartialEq, Eq, Structural)]
pub struct PoolSplit {
    pub jackpot_bps: u64,
    pub dividend_bps: u64,
    pub next_round_bps: u64,
    pub leaderboard_bps: u64,
    pub random_reward_bps: u64,
}

impl PoolSplit {
    /// A split is well formed when its five shares cover the paid amount
    /// exactly.
    pub open spec fn wf(self) -> bool {
        self.jackpot_bps + self.dividend_bps + self.next_round_bps + self.leaderboard_bps
            + self.random_reward_bps == BPS_DENOMINATOR
    }

    /// Builds a split policy, rejecting shares that do not sum to exactly
    /// [`BPS_DENOMINATOR`].
    pub fn new(
        jackpot_bps: u64,
        dividend_bps: u64,
        next_round_bps: u64,
        leaderboard_bps: u64,
        random_reward_bps: u64,
    ) -> (result: Option<PoolSplit>)
        ensures
            match result {
                Some(split) => split.wf() && split == (PoolSplit {
                    jackpot_bps,
                    dividend_bps,
                    next_round_bps,
                    leaderboard_bps,
                    random_reward_bps,
                }),
                None => jackpot_bps + dividend_bps + next_round_bps + leaderboard_bps
                    + random_reward_bps != BPS_DENOMINATOR,
            },
    {
        let sum: u128 = jackpot_bps as u128 + dividend_bps as u128 + next_round_bps as u128
            + leaderboard_bps as u128 + random_reward_bps as u128;
        if sum == BPS_DENOMINATOR as u128 {
            Some(PoolSplit {
                jackpot_bps,
                dividend_bps,
                next_round_bps,
                leaderboard_bps,
                random_reward_bps,
            })
        } else {
            None
        }
    }
}

/// The engine's instruction to the fund-movement layer: how a successful
/// purchase's paid amount is distributed across the five pools.
#[derive(Clone, Copy, Debug, PartialEq, Eq, Structural)]
pub struct PoolAllocation {
    pub jackpot: u64,
    pub dividend: u64,
    pub next_round: u64,
    pub leaderboard: u64,
    pub random_reward: u64,
}

impl PoolAllocation {
    /// Total value the allocation distributes.
    pub open spec fn total(self) -> int {
        self.jackpot + self.dividend + self.next_round + self.leaderboard + self.random_reward
    }
}

} // verus!

//! Tunable constants of the round economy.

use vstd::prelude::*;

verus! {

/// Hard cap on how far `end_time` may lie beyond the current moment: a round
/// never runs longer than 24 hours from its most recent purchase.
pub const MAX_TIMER_SECONDS: i64 = 24 * 60 * 60;

/// Seconds added to the round deadline for every ticket bought.
pub const TIMER_BONUS_SECONDS: i64 = 30;

/// Amount the ticket price rises after each ticket sold.
pub const PRICE_INCREMENT: u64 = 100000;

/// Ticket price at the start of a fresh round.
pub const INIT_PRICE: u64 = 100000;

/// Denominator of the pool split: shares are expressed in basis points,
/// ten-thousandths of the paid amount.
pub const BPS_DENOMINATOR: u64 = 10000;

} // verus!

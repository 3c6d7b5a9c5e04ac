//! Round-lifecycle and ticket-economy engine for a timed, pot-accumulating
//! ticket game: a last-buyer-wins round with an escalating ticket price and a
//! decaying, capped countdown timer.
//!
//! The crate is pure transition logic. A host layer authenticates callers,
//! reads the clock, and executes the fund movements that a successful purchase
//! dictates; the engine itself only validates an operation against the current
//! [`state::GameConfig`], mutates it atomically, and reports the allocation of
//! the paid amount across the five prize pools. On any failure the ledger is
//! left exactly as it was.

pub mod constants;
pub mod engine;
pub mod laws;
pub mod state;

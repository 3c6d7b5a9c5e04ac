//! Scenario tests of the round engine: purchases, stops, and their failure
//! modes, each checked against exact expected values.

use round_engine::engine::purchase_ticket;
use round_engine::engine::stop;
use round_engine::engine::EngineError;
use round_engine::engine::Stop;
use round_engine::engine::TicketChannel;
use round_engine::state::GameConfig;
use round_engine::state::Identity;
use round_engine::state::PoolSplit;
use round_engine::state::RoundState;
use round_engine::state::UserAccount;

fn authority() -> Identity {
    Identity { hi: 11, lo: 22 }
}

fn buyer() -> Identity {
    Identity { hi: 33, lo: 44 }
}

fn split() -> PoolSplit {
    PoolSplit::new(5000, 2000, 1500, 1000, 500).expect("shares sum to the denominator")
}

/// A ledger mid-round: running, at the initial price, deadline at `end_time`.
fn running_config(end_time: i64) -> GameConfig {
    let mut cfg = GameConfig::init(authority(), 7);
    cfg.state = RoundState::Running;
    cfg.end_time = end_time;
    cfg
}

fn pool_sum(cfg: &GameConfig) -> u128 {
    cfg.jackpot_pool as u128
        + cfg.dividend_pool as u128
        + cfg.next_round_pool as u128
        + cfg.leaderboard_pool as u128
        + cfg.random_reward_pool as u128
}

#[test]
fn purchase_one_ticket_before_deadline() {
    let mut cfg = running_config(1000);
    let mut user = UserAccount::init();
    let r = purchase_ticket(
        &mut cfg,
        &mut user,
        &split(),
        buyer(),
        990,
        1,
        TicketChannel::Direct,
    );
    let alloc = r.expect("purchase before the deadline succeeds");
    assert_eq!(cfg.current_key_price, 200000);
    assert_eq!(cfg.end_time, 1030); // min(1000 + 30, 990 + 86400)
    assert_eq!(cfg.state, RoundState::Running);
    assert_eq!(cfg.last_buyer_key, buyer());
    assert_eq!(cfg.last_buyer_time, 990);
    assert_eq!(cfg.jackpot_pool, 50000);
    assert_eq!(cfg.dividend_pool, 20000);
    assert_eq!(cfg.next_round_pool, 15000);
    assert_eq!(cfg.leaderboard_pool, 10000);
    assert_eq!(cfg.random_reward_pool, 5000);
    assert_eq!(cfg.total_key_count, 1);
    assert_eq!(cfg.total_shadow_count, 0);
    assert_eq!(alloc.jackpot, 50000);
    assert_eq!(alloc.dividend, 20000);
    assert_eq!(alloc.next_round, 15000);
    assert_eq!(alloc.leaderboard, 10000);
    assert_eq!(alloc.random_reward, 5000);
    assert_eq!(user.key_count, 1);
    assert_eq!(user.total_usdt_spent, 100000);
    assert_eq!(user.last_key_purchase_time, 990);
}

#[test]
fn purchase_after_deadline_fails_expired() {
    let mut cfg = running_config(1000);
    let before = cfg;
    let mut user = UserAccount::init();
    let user_before = user;
    let r = purchase_ticket(
        &mut cfg,
        &mut user,
        &split(),
        buyer(),
        1001,
        1,
        TicketChannel::Direct,
    );
    assert_eq!(r, Err(EngineError::ExpiredRound));
    assert_eq!(cfg, before);
    assert_eq!(user, user_before);
}

#[test]
fn purchase_at_exact_deadline_fails_expired() {
    let mut cfg = running_config(1000);
    let before = cfg;
    let mut user = UserAccount::init();
    let r = purchase_ticket(
        &mut cfg,
        &mut user,
        &split(),
        buyer(),
        1000,
        1,
        TicketChannel::Direct,
    );
    assert_eq!(r, Err(EngineError::ExpiredRound));
    assert_eq!(cfg, before);
}

#[test]
fn stop_after_deadline_succeeds() {
    let mut cfg = running_config(1000);
    let req = Stop {
        authority: authority(),
        now: 1001,
    };
    assert_eq!(stop(&mut cfg, &req), Ok(()));
    assert_eq!(cfg.state, RoundState::RoundEnded);
    // Nothing but the state changed.
    let mut expected = running_config(1000);
    expected.state = RoundState::RoundEnded;
    assert_eq!(cfg, expected);
}

#[test]
fn stop_before_deadline_fails() {
    let mut cfg = running_config(1000);
    let before = cfg;
    let req = Stop {
        authority: authority(),
        now: 999,
    };
    assert_eq!(stop(&mut cfg, &req), Err(EngineError::NotOverEndTime));
    assert_eq!(cfg, before);
}

#[test]
fn stop_at_exact_deadline_fails() {
    let mut cfg = running_config(1000);
    let before = cfg;
    let req = Stop {
        authority: authority(),
        now: 1000,
    };
    assert_eq!(stop(&mut cfg, &req), Err(EngineError::NotOverEndTime));
    assert_eq!(cfg, before);
}

#[test]
fn stop_by_non_authority_fails() {
    let mut cfg = running_config(1000);
    let before = cfg;
    let req = Stop {
        authority: buyer(),
        now: 1001,
    };
    assert_eq!(stop(&mut cfg, &req), Err(EngineError::InvalidAuthority));
    assert_eq!(cfg, before);
    // The authority check comes first: it fails at an early time as well.
    let early = Stop {
        authority: buyer(),
        now: 999,
    };
    assert_eq!(stop(&mut cfg, &early), Err(EngineError::InvalidAuthority));
    assert_eq!(cfg, before);
}

#[test]
fn stop_in_wrong_state_fails() {
    let mut cfg = GameConfig::init(authority(), 7);
    let before = cfg;
    let req = Stop {
        authority: authority(),
        now: 1001,
    };
    assert_eq!(stop(&mut cfg, &req), Err(EngineError::InvalidState));
    assert_eq!(cfg, before);

    let mut ended = running_config(1000);
    ended.state = RoundState::RoundEnded;
    let before_ended = ended;
    assert_eq!(stop(&mut ended, &req), Err(EngineError::InvalidState));
    assert_eq!(ended, before_ended);
}

#[test]
fn purchase_of_three_escalates_sequentially() {
    let mut cfg = running_config(1000);
    let mut user = UserAccount::init();
    let r = purchase_ticket(
        &mut cfg,
        &mut user,
        &split(),
        buyer(),
        900,
        3,
        TicketChannel::Direct,
    );
    let alloc = r.expect("purchase succeeds");
    // Tickets cost 100000, 200000, 300000: 600000 in all.
    assert_eq!(cfg.current_key_price, 400000);
    assert_eq!(user.total_usdt_spent, 600000);
    assert_eq!(cfg.end_time, 1090); // min(1000 + 3 * 30, 900 + 86400)
    assert_eq!(cfg.total_key_count, 3);
    let total: u128 = alloc.jackpot as u128
        + alloc.dividend as u128
        + alloc.next_round as u128
        + alloc.leaderboard as u128
        + alloc.random_reward as u128;
    assert_eq!(total, 600000);
    assert_eq!(pool_sum(&cfg), 600000);
}

#[test]
fn purchase_conserves_value_under_rounding() {
    let mut cfg = running_config(1000);
    cfg.current_key_price = 99999; // odd price forces rounding in every share
    let mut user = UserAccount::init();
    let r = purchase_ticket(
        &mut cfg,
        &mut user,
        &split(),
        buyer(),
        990,
        1,
        TicketChannel::Direct,
    );
    let alloc = r.expect("purchase succeeds");
    assert_eq!(alloc.dividend, 19999); // floor(99999 * 2000 / 10000)
    assert_eq!(alloc.next_round, 14999);
    assert_eq!(alloc.leaderboard, 9999);
    assert_eq!(alloc.random_reward, 4999);
    // The jackpot takes its floor share plus all rounding remainders.
    assert_eq!(alloc.jackpot, 50003);
    assert_eq!(pool_sum(&cfg), 99999);
}

#[test]
fn first_purchase_starts_the_round() {
    let mut cfg = GameConfig::init(authority(), 7);
    let mut user = UserAccount::init();
    let r = purchase_ticket(
        &mut cfg,
        &mut user,
        &split(),
        buyer(),
        5000,
        3,
        TicketChannel::Direct,
    );
    assert!(r.is_ok());
    assert_eq!(cfg.state, RoundState::Running);
    // The countdown starts from the moment of the purchase.
    assert_eq!(cfg.end_time, 5090); // min(5000 + 90, 5000 + 86400)
    assert_eq!(cfg.round_number, 7);
}

#[test]
fn timer_never_exceeds_cap() {
    let mut cfg = running_config(100000);
    let mut user = UserAccount::init();
    // 3000 tickets would extend the deadline by 90000 seconds; the cap wins.
    let r = purchase_ticket(
        &mut cfg,
        &mut user,
        &split(),
        buyer(),
        99999,
        3000,
        TicketChannel::Direct,
    );
    assert!(r.is_ok());
    assert_eq!(cfg.end_time, 99999 + 86400);
}

#[test]
fn purchase_in_wrong_state_fails() {
    let mut ended = running_config(1000);
    ended.state = RoundState::RoundEnded;
    let before = ended;
    let mut user = UserAccount::init();
    let r = purchase_ticket(
        &mut ended,
        &mut user,
        &split(),
        buyer(),
        990,
        1,
        TicketChannel::Direct,
    );
    assert_eq!(r, Err(EngineError::InvalidState));
    assert_eq!(ended, before);

    let mut finished = running_config(1000);
    finished.state = RoundState::GameFinished;
    let before_finished = finished;
    let r2 = purchase_ticket(
        &mut finished,
        &mut user,
        &split(),
        buyer(),
        990,
        1,
        TicketChannel::Direct,
    );
    assert_eq!(r2, Err(EngineError::InvalidState));
    assert_eq!(finished, before_finished);
}

#[test]
fn purchase_price_overflow_rejected() {
    let mut cfg = running_config(1000);
    cfg.current_key_price = u64::MAX - 50000; // one increment no longer fits
    let before = cfg;
    let mut user = UserAccount::init();
    let user_before = user;
    let r = purchase_ticket(
        &mut cfg,
        &mut user,
        &split(),
        buyer(),
        990,
        1,
        TicketChannel::Direct,
    );
    assert_eq!(r, Err(EngineError::ArithmeticOverflow));
    assert_eq!(cfg, before);
    assert_eq!(user, user_before);
}

#[test]
fn purchase_pool_overflow_rejected() {
    let mut cfg = running_config(1000);
    cfg.jackpot_pool = u64::MAX; // the jackpot increment no longer fits
    let before = cfg;
    let mut user = UserAccount::init();
    let r = purchase_ticket(
        &mut cfg,
        &mut user,
        &split(),
        buyer(),
        990,
        1,
        TicketChannel::Direct,
    );
    assert_eq!(r, Err(EngineError::ArithmeticOverflow));
    assert_eq!(cfg, before);
}

#[test]
fn shadow_purchase_counts_separately() {
    let mut cfg = running_config(1000);
    let mut user = UserAccount::init();
    let r = purchase_ticket(
        &mut cfg,
        &mut user,
        &split(),
        buyer(),
        990,
        2,
        TicketChannel::Shadow,
    );
    assert!(r.is_ok());
    assert_eq!(cfg.total_key_count, 0);
    assert_eq!(cfg.total_shadow_count, 2);
    // The buyer's own ticket count grows either way.
    assert_eq!(user.key_count, 2);
}

#[test]
fn state_codes_never_decrease_across_a_round() {
    let mut cfg = GameConfig::init(authority(), 1);
    let mut user = UserAccount::init();
    let mut codes: Vec<u8> = vec![cfg.state.code()];
    purchase_ticket(
        &mut cfg,
        &mut user,
        &split(),
        buyer(),
        100,
        1,
        TicketChannel::Direct,
    )
    .expect("first purchase starts the round");
    codes.push(cfg.state.code());
    // A failed purchase moves nothing.
    let far_future = 100 + 86400 + 1;
    let r = purchase_ticket(
        &mut cfg,
        &mut user,
        &split(),
        buyer(),
        far_future,
        1,
        TicketChannel::Direct,
    );
    assert_eq!(r, Err(EngineError::ExpiredRound));
    codes.push(cfg.state.code());
    let req = Stop {
        authority: authority(),
        now: far_future,
    };
    stop(&mut cfg, &req).expect("stop after expiry succeeds");
    codes.push(cfg.state.code());
    assert_eq!(codes, vec![0, 1, 1, 2]);
}

#[test]
fn two_purchases_accumulate() {
    let mut cfg = running_config(1000);
    let mut user = UserAccount::init();
    let other = Identity { hi: 55, lo: 66 };
    purchase_ticket(
        &mut cfg,
        &mut user,
        &split(),
        buyer(),
        100,
        1,
        TicketChannel::Direct,
    )
    .expect("first purchase succeeds");
    purchase_ticket(
        &mut cfg,
        &mut user,
        &split(),
        other,
        200,
        1,
        TicketChannel::Direct,
    )
    .expect("second purchase succeeds");
    // 100000 for the first ticket, 200000 for the second.
    assert_eq!(user.total_usdt_spent, 300000);
    assert_eq!(user.key_count, 2);
    assert_eq!(cfg.current_key_price, 300000);
    assert_eq!(cfg.total_key_count, 2);
    assert_eq!(cfg.last_buyer_key, other);
    assert_eq!(cfg.last_buyer_time, 200);
    assert_eq!(pool_sum(&cfg), 300000);
}

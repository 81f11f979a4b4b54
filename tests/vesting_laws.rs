use stellar_stream::contract::StreamContract;
use stellar_stream::error::{StreamError, StreamStatus};
use stellar_stream::principal::Principal;
use stellar_stream::stream::{Schedule, Settlement, Stream};

fn sender() -> Principal {
    Principal::new([1u8; 56])
}

fn recipient() -> Principal {
    Principal::new([2u8; 56])
}

fn token() -> Principal {
    Principal::new([9u8; 56])
}

fn linear(deposit: i128, start_time: u64, stop_time: u64) -> Stream {
    Stream::new_linear(sender(), recipient(), token(), deposit, start_time, stop_time, 0).unwrap()
}

fn stop_time_of(s: &Stream) -> u64 {
    match s.schedule {
        Schedule::Linear { stop_time, .. } => stop_time,
        Schedule::Stopwatch { .. } => panic!("not a time-window stream"),
    }
}

fn withdrawn(s: &Stream) -> i128 {
    s.deposit - s.remaining_balance
}

#[test]
fn scenario_half_window_withdraw_then_cancel() {
    let mut s = linear(1000, 100, 1100);
    let now = 600;
    assert_eq!(s.vested_amount(now).unwrap(), 500);
    s.withdraw(&recipient(), 500, now).unwrap();
    assert_eq!(s.remaining_balance, 500);
    let split = s.cancel_stream(&sender(), now).unwrap();
    assert_eq!(split, Settlement { recipient_owed: 0, sender_refund: 500 });
    assert_eq!(s.remaining_balance, 0);
    assert!(s.is_cancelled);
}

#[test]
fn scenario_pause_freezes_vesting_and_shifts_window() {
    let mut s = linear(1000, 100, 1100);
    s.pause_stream(&sender(), 300).unwrap();
    assert_eq!(s.get_stream_status(300), StreamStatus::Paused);
    assert_eq!(s.vested_amount(300).unwrap(), 200);
    assert_eq!(s.vested_amount(450).unwrap(), 200);
    assert_eq!(s.vested_amount(600).unwrap(), 200);
    assert_eq!(s.vested_amount(1100).unwrap(), 200);
    s.resume_stream(&sender(), 600).unwrap();
    assert_eq!(stop_time_of(&s), 1400);
    assert_eq!(s.get_stream_status(600), StreamStatus::Active);
    assert_eq!(s.vested_amount(600).unwrap(), 200);
    assert_eq!(s.vested_amount(900).unwrap(), 500);
    assert_eq!(s.vested_amount(1400).unwrap(), 1000);
    match s.schedule {
        Schedule::Linear { paused_at, paused_duration, .. } => {
            assert_eq!(paused_at, None);
            assert_eq!(paused_duration, 300);
        }
        Schedule::Stopwatch { .. } => panic!("mode changed"),
    }
}

#[test]
fn scenario_refusals() {
    let mut s = linear(1000, 100, 1100);
    assert_eq!(s.withdraw(&recipient(), 10, 50), Err(StreamError::StreamNotStarted));
    assert_eq!(s.available_to_withdraw(350).unwrap(), 250);
    assert_eq!(s.withdraw(&recipient(), 251, 350), Err(StreamError::WithdrawExceedsAvailable));
    s.cancel_stream(&sender(), 350).unwrap();
    assert_eq!(s.cancel_stream(&sender(), 360), Err(StreamError::AlreadyCanceled));
}

#[test]
fn scenario_top_up_recomputes_vesting() {
    let mut s = linear(1000, 100, 1100);
    assert_eq!(s.vested_amount(600).unwrap(), 500);
    s.top_up_stream(&sender(), 500, 200).unwrap();
    assert_eq!(s.deposit, 1500);
    assert_eq!(s.remaining_balance, 1500);
    assert_eq!(withdrawn(&s), 0);
    assert_eq!(s.vested_amount(600).unwrap(), 750);
    assert_eq!(s.vested_amount(1100).unwrap(), 1500);
}

#[test]
fn balance_stays_within_deposit_after_each_operation() {
    let mut s = linear(1000, 100, 1100);
    let check = |s: &Stream| assert!(0 <= s.remaining_balance && s.remaining_balance <= s.deposit);
    check(&s);
    s.withdraw(&recipient(), 150, 300).unwrap();
    check(&s);
    s.pause_stream(&sender(), 400).unwrap();
    check(&s);
    s.top_up_stream(&sender(), 40, 450).unwrap();
    check(&s);
    s.resume_stream(&sender(), 500).unwrap();
    check(&s);
    s.extend_stream(&sender(), 1500, 500).unwrap();
    check(&s);
    s.cancel_stream(&sender(), 2000).unwrap();
    check(&s);
    assert_eq!(s.remaining_balance, 0);
}

#[test]
fn withdrawn_within_vested_within_deposit() {
    let mut s = linear(1000, 100, 1100);
    s.withdraw(&recipient(), 300, 400).unwrap();
    for now in [400u64, 500, 900, 1100, 5000] {
        let v = s.vested_amount(now).unwrap();
        assert!(withdrawn(&s) <= v && v <= s.deposit);
    }
}

#[test]
fn vested_is_monotone_and_frozen_while_paused() {
    let mut s = linear(777, 10, 1010);
    let mut last = 0;
    for now in (0u64..1200).step_by(37) {
        let v = s.vested_amount(now).unwrap();
        assert!(v >= last);
        last = v;
    }
    s.pause_stream(&sender(), 500).unwrap();
    let frozen = s.vested_amount(500).unwrap();
    for now in [0u64, 10, 500, 900, 100000] {
        assert_eq!(s.vested_amount(now).unwrap(), frozen);
    }
}

#[test]
fn status_query_twice_gives_same_answer() {
    let mut ledger = StreamContract::new();
    let id = ledger.create_stream(sender(), recipient(), 1000, token(), 100, 1100, 0).unwrap();
    for now in [0u64, 100, 600, 1100, 2000] {
        assert_eq!(ledger.get_stream_status(id, now), ledger.get_stream_status(id, now));
    }
}

#[test]
fn settlement_conserves_remaining_balance() {
    for (withdraw_at, amount, cancel_at) in [(300u64, 100i128, 300u64), (600, 500, 900), (1100, 1000, 1100)] {
        let mut s = linear(1000, 100, 1100);
        s.withdraw(&recipient(), amount, withdraw_at).unwrap();
        if s.get_stream_status(cancel_at) == StreamStatus::Completed {
            assert_eq!(s.cancel_stream(&sender(), cancel_at), Err(StreamError::AlreadyCompleted));
            continue;
        }
        let held = s.remaining_balance;
        let split = s.settlement_on_cancel(cancel_at).unwrap();
        assert_eq!(split.recipient_owed + split.sender_refund, held);
        assert_eq!(s.cancel_stream(&sender(), cancel_at), Ok(split));
    }
}

#[test]
fn vesting_rounds_down() {
    let s = linear(1000, 0, 3);
    assert_eq!(s.vested_amount(1).unwrap(), 333);
    assert_eq!(s.vested_amount(2).unwrap(), 666);
    assert_eq!(s.vested_amount(3).unwrap(), 1000);
}

#[test]
fn vesting_is_exact_for_largest_deposit() {
    let s = linear(i128::MAX, 100, 1100);
    assert_eq!(s.vested_amount(600).unwrap(), 85070591730234615865843651857942052863);
    assert_eq!(s.vested_amount(1100).unwrap(), i128::MAX);
}

#[test]
fn vesting_is_exact_over_longest_window() {
    let s = linear(1_000_000_000_000_000_000_000_000_000_000, 0, u64::MAX);
    assert_eq!(s.vested_amount(1u64 << 63).unwrap(), 500000000000000000027105054312);
}

#[test]
fn resume_carries_on_from_the_paused_amount() {
    let mut s = linear(1000, 100, 1100);
    s.withdraw(&recipient(), 200, 300).unwrap();
    s.pause_stream(&sender(), 300).unwrap();
    s.resume_stream(&sender(), 600).unwrap();
    assert_eq!(s.vested_amount(600).unwrap(), 200);
    assert_eq!(s.available_to_withdraw(600).unwrap(), 0);
    assert_eq!(s.vested_amount(1399).unwrap(), 999);
    assert_eq!(s.vested_amount(1400).unwrap(), 1000);
    let split = s.cancel_stream(&sender(), 600).unwrap();
    assert_eq!(split, Settlement { recipient_owed: 0, sender_refund: 800 });
}

#[test]
fn extend_that_would_undercut_withdrawals_is_refused() {
    let mut s = linear(1000, 0, 1000);
    s.withdraw(&recipient(), 400, 500).unwrap();
    assert_eq!(s.extend_stream(&sender(), 2000, 500), Err(StreamError::InvalidTimeRange));
    assert_eq!(s.extend_stream(&sender(), 1251, 500), Err(StreamError::InvalidTimeRange));
    assert_eq!(stop_time_of(&s), 1000);
    s.extend_stream(&sender(), 1250, 500).unwrap();
    assert_eq!(s.vested_amount(500).unwrap(), 400);
    assert_eq!(s.available_to_withdraw(500).unwrap(), 0);
}

#[test]
fn pause_and_resume_refusals() {
    let mut s = linear(1000, 100, 1100);
    assert_eq!(s.pause_stream(&sender(), 50), Err(StreamError::NotActive));
    assert_eq!(s.resume_stream(&sender(), 300), Err(StreamError::NotPaused));
    s.pause_stream(&sender(), 300).unwrap();
    assert_eq!(s.pause_stream(&sender(), 310), Err(StreamError::NotActive));
    assert_eq!(s.resume_stream(&sender(), 200), Err(StreamError::Overflow));
    assert_eq!(s.start_work(&recipient(), 300), Err(StreamError::UnsupportedMode));
    assert_eq!(s.stop_work(&recipient(), 300), Err(StreamError::UnsupportedMode));
}

#[test]
fn extend_rules() {
    let mut s = linear(1000, 100, 1100);
    assert_eq!(s.extend_stream(&sender(), 1100, 500), Err(StreamError::InvalidTimeRange));
    assert_eq!(s.extend_stream(&sender(), 1200, 1300), Err(StreamError::InvalidTimeRange));
    s.extend_stream(&sender(), 2100, 500).unwrap();
    assert_eq!(stop_time_of(&s), 2100);
    assert_eq!(s.vested_amount(1100).unwrap(), 500);
}

#[test]
fn top_up_refusals() {
    let mut s = linear(1000, 100, 1100);
    assert_eq!(s.top_up_stream(&sender(), 0, 200), Err(StreamError::InvalidAmount));
    assert_eq!(s.top_up_stream(&sender(), i128::MAX, 200), Err(StreamError::Overflow));
    s.withdraw(&recipient(), 1000, 1100).unwrap();
    assert_eq!(s.get_stream_status(1100), StreamStatus::Completed);
    assert_eq!(s.top_up_stream(&sender(), 10, 1100), Err(StreamError::Finalized));
    assert_eq!(s.cancel_stream(&sender(), 1100), Err(StreamError::AlreadyCompleted));
    assert_eq!(s.withdraw(&recipient(), 1, 1200), Err(StreamError::NothingToWithdraw));
}

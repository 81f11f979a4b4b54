use stellar_stream::contract::StreamContract;
use stellar_stream::error::{StreamError, StreamStatus};
use stellar_stream::principal::Principal;
use stellar_stream::stream::Settlement;

fn sender() -> Principal {
    Principal::new([1u8; 56])
}

fn recipient() -> Principal {
    Principal::new([2u8; 56])
}

fn token() -> Principal {
    Principal::new([9u8; 56])
}

/// A ledger holding one stream of `deposit` whose window opens 100 s after
/// time zero and lasts 1000 s.
fn ledger_with_stream(deposit: i128) -> (StreamContract, u64, u64) {
    let mut ledger = StreamContract::new();
    let now = 0u64;
    let start_time = now + 100;
    let stop_time = start_time + 1000;
    let id = ledger
        .create_stream(sender(), recipient(), deposit, token(), start_time, stop_time, now)
        .unwrap();
    (ledger, id, start_time)
}

#[test]
fn test_stream_flow() {
    let (mut ledger, stream_id, start_time) = ledger_with_stream(1000);

    let stream = ledger.get_stream(stream_id).unwrap();
    assert_eq!(stream.deposit, 1000);
    assert_eq!(stream.remaining_balance, 1000);
    assert_eq!(stream.is_cancelled, false);

    let now = start_time + 500;
    ledger.withdraw(stream_id, &recipient(), 500, now).unwrap();

    let stream = ledger.get_stream(stream_id).unwrap();
    assert_eq!(stream.remaining_balance, 500);
    // what has left the stream so far went to the recipient
    let mut paid_to_recipient = stream.deposit - stream.remaining_balance;
    assert_eq!(paid_to_recipient, 500);

    let split = ledger.cancel_stream(stream_id, &sender(), now).unwrap();
    paid_to_recipient += split.recipient_owed;

    let stream = ledger.get_stream(stream_id).unwrap();
    assert_eq!(stream.is_cancelled, true);
    assert_eq!(stream.remaining_balance, 0);

    assert_eq!(paid_to_recipient, 500);
    assert_eq!(split.sender_refund, 500);
}

#[test]
fn test_stream_status() {
    let (mut ledger, stream_id, start_time) = ledger_with_stream(1000);

    assert_eq!(ledger.get_stream_status(stream_id, 0), Ok(StreamStatus::Upcoming));

    let now = start_time + 500;
    assert_eq!(ledger.get_stream_status(stream_id, now), Ok(StreamStatus::Active));

    ledger.cancel_stream(stream_id, &sender(), now).unwrap();
    assert_eq!(ledger.get_stream_status(stream_id, now), Ok(StreamStatus::Cancelled));
}

#[test]
fn test_create_stream_zero_amount() {
    let mut ledger = StreamContract::new();
    let start_time = 100;
    let stop_time = start_time + 1000;
    let result = ledger.create_stream(sender(), recipient(), 0, token(), start_time, stop_time, 0);
    assert_eq!(result, Err(StreamError::InvalidAmount));
}

#[test]
fn test_create_stream_same_sender_recipient() {
    let mut ledger = StreamContract::new();
    let start_time = 100;
    let stop_time = start_time + 1000;
    let result = ledger.create_stream(sender(), sender(), 1000, token(), start_time, stop_time, 0);
    assert_eq!(result, Err(StreamError::SenderCannotBeRecipient));
}

#[test]
fn test_create_stream_invalid_time_range() {
    let mut ledger = StreamContract::new();
    let start_time = 1000;
    let stop_time = start_time;
    let result =
        ledger.create_stream(sender(), recipient(), 1000, token(), start_time, stop_time, 0);
    assert_eq!(result, Err(StreamError::InvalidTimeRange));
}

#[test]
fn test_withdraw_before_start() {
    let mut ledger = StreamContract::new();
    let start_time = 1000;
    let stop_time = start_time + 1000;
    let stream_id = ledger
        .create_stream(sender(), recipient(), 1000, token(), start_time, stop_time, 0)
        .unwrap();
    let result = ledger.withdraw(stream_id, &recipient(), 100, 0);
    assert_eq!(result, Err(StreamError::StreamNotStarted));
}

#[test]
fn test_withdraw_exceeds_available() {
    let (mut ledger, stream_id, start_time) = ledger_with_stream(1000);
    let result = ledger.withdraw(stream_id, &recipient(), 500, start_time + 250);
    assert_eq!(result, Err(StreamError::WithdrawExceedsAvailable));
}

#[test]
fn test_withdraw_nothing_available() {
    let (mut ledger, stream_id, start_time) = ledger_with_stream(1000);
    let now = start_time + 100;
    ledger.withdraw(stream_id, &recipient(), 100, now).unwrap();
    let result = ledger.withdraw(stream_id, &recipient(), 1, now);
    assert_eq!(result, Err(StreamError::NothingToWithdraw));
}

#[test]
fn test_cancel_twice() {
    let (mut ledger, stream_id, _) = ledger_with_stream(1000);
    ledger.cancel_stream(stream_id, &sender(), 0).unwrap();
    let result = ledger.cancel_stream(stream_id, &sender(), 0);
    assert_eq!(result, Err(StreamError::AlreadyCanceled));
}

#[test]
fn test_proper_authorization() {
    let (mut ledger, stream_id, start_time) = ledger_with_stream(1000);
    let now = start_time + 500;
    ledger.withdraw(stream_id, &recipient(), 500, now).unwrap();
    ledger.cancel_stream(stream_id, &sender(), now).unwrap();
}

#[test]
fn test_get_nonexistent_stream() {
    let ledger = StreamContract::new();
    let result = ledger.get_stream(999);
    assert!(result.is_err());
    if let Err(err) = result {
        assert_eq!(err, StreamError::StreamNotFound);
    }
}

#[test]
fn test_start_time_too_far_past() {
    let mut ledger = StreamContract::new();
    let current: u64 = 86400 * 60;
    let start_time = current - (86400 * 31);
    let stop_time = current + 1000;
    let result =
        ledger.create_stream(sender(), recipient(), 1000, token(), start_time, stop_time, current);
    assert_eq!(result, Err(StreamError::InvalidStartTime));
}

#[test]
fn test_withdraw_zero_amount() {
    let (mut ledger, stream_id, start_time) = ledger_with_stream(1000);
    let result = ledger.withdraw(stream_id, &recipient(), 0, start_time + 100);
    assert_eq!(result, Err(StreamError::InvalidAmount));
}

#[test]
fn identifiers_are_sequential() {
    let mut ledger = StreamContract::new();
    assert_eq!(ledger.get_next_stream_id(), 0);
    let a = ledger.create_stream(sender(), recipient(), 10, token(), 5, 15, 0).unwrap();
    let b = ledger.create_stopwatch_stream(sender(), recipient(), 10, token(), 1, 0).unwrap();
    assert_eq!((a, b), (0, 1));
    assert_eq!(ledger.get_next_stream_id(), 2);
}

#[test]
fn start_time_thirty_days_back_is_accepted() {
    let mut ledger = StreamContract::new();
    let current: u64 = 86400 * 60;
    let start_time = current - 86400 * 30;
    let result =
        ledger.create_stream(sender(), recipient(), 1000, token(), start_time, current + 1, current);
    assert_eq!(result, Ok(0));
}

#[test]
fn unknown_stream_is_not_found_for_every_operation() {
    let mut ledger = StreamContract::new();
    let nf = Err(StreamError::StreamNotFound);
    assert_eq!(ledger.pause_stream(3, &sender(), 0), nf);
    assert_eq!(ledger.resume_stream(3, &sender(), 0), nf);
    assert_eq!(ledger.withdraw(3, &recipient(), 1, 0), nf);
    assert_eq!(ledger.top_up_stream(3, &sender(), 1, 0), nf);
    assert_eq!(ledger.extend_stream(3, &sender(), 10, 0), nf);
    assert_eq!(ledger.start_work(3, &recipient(), 0), nf);
    assert_eq!(ledger.stop_work(3, &recipient(), 0), nf);
    assert_eq!(ledger.cancel_stream(3, &sender(), 0), Err(StreamError::StreamNotFound));
    assert_eq!(ledger.get_vested_amount(3, 0), Err(StreamError::StreamNotFound));
    assert_eq!(ledger.get_stream_status(3, 0), Err(StreamError::StreamNotFound));
}

#[test]
fn only_the_right_party_may_act() {
    let (mut ledger, id, start_time) = ledger_with_stream(1000);
    let now = start_time + 500;
    let stranger = Principal::new([7u8; 56]);
    assert_eq!(ledger.withdraw(id, &sender(), 10, now), Err(StreamError::UnauthorizedRecipient));
    assert_eq!(ledger.pause_stream(id, &recipient(), now), Err(StreamError::UnauthorizedSender));
    assert_eq!(ledger.resume_stream(id, &stranger, now), Err(StreamError::NotPaused));
    assert_eq!(ledger.top_up_stream(id, &stranger, 5, now), Err(StreamError::UnauthorizedSender));
    assert_eq!(
        ledger.extend_stream(id, &recipient(), now + 5000, now),
        Err(StreamError::UnauthorizedSender)
    );
    assert_eq!(ledger.cancel_stream(id, &recipient(), now), Err(StreamError::UnauthorizedSender));
    assert_eq!(ledger.get_stream(id).unwrap().remaining_balance, 1000);
}

#[test]
fn cancel_splits_balance_and_refuses_later_changes() {
    let (mut ledger, id, start_time) = ledger_with_stream(1000);
    let now = start_time + 300;
    ledger.withdraw(id, &recipient(), 100, now).unwrap();
    let split = ledger.cancel_stream(id, &sender(), now).unwrap();
    assert_eq!(split, Settlement { recipient_owed: 200, sender_refund: 700 });
    assert_eq!(ledger.withdraw(id, &recipient(), 1, now + 10), Err(StreamError::StreamCancelled));
    assert_eq!(ledger.top_up_stream(id, &sender(), 1, now), Err(StreamError::Finalized));
    assert_eq!(ledger.extend_stream(id, &sender(), 5000, now), Err(StreamError::Finalized));
    assert_eq!(ledger.pause_stream(id, &sender(), now), Err(StreamError::NotActive));
}

#[test]
fn principals_differing_in_one_byte_are_distinct() {
    let a = Principal::new([3u8; 56]);
    let mut key = [3u8; 56];
    key[55] = 4;
    let b = Principal::new(key);
    assert!(a.same_as(&a));
    assert!(!a.same_as(&b));
    let mut ledger = StreamContract::new();
    assert_eq!(ledger.create_stream(a, b, 10, token(), 5, 15, 0), Ok(0));
}

#[test]
fn records_from_operations_are_consistent() {
    let (mut ledger, id, start_time) = ledger_with_stream(1000);
    assert!(ledger.get_stream(id).unwrap().is_consistent());
    ledger.cancel_stream(id, &sender(), start_time).unwrap();
    let mut s = ledger.get_stream(id).unwrap();
    assert!(s.is_consistent());
    s.remaining_balance = 5;
    assert!(!s.is_consistent());
}

#[test]
fn state_errors_come_before_the_caller_check() {
    let (mut ledger, id, start_time) = ledger_with_stream(1000);
    let stranger = Principal::new([7u8; 56]);
    assert_eq!(ledger.pause_stream(id, &stranger, 0), Err(StreamError::NotActive));
    assert_eq!(ledger.resume_stream(id, &stranger, start_time), Err(StreamError::NotPaused));
    ledger.pause_stream(id, &sender(), start_time + 10).unwrap();
    assert_eq!(ledger.resume_stream(id, &stranger, start_time + 20), Err(StreamError::UnauthorizedSender));
    assert_eq!(ledger.top_up_stream(id, &stranger, 0, start_time), Err(StreamError::UnauthorizedSender));
    assert_eq!(ledger.top_up_stream(id, &sender(), 0, start_time), Err(StreamError::InvalidAmount));
    assert_eq!(ledger.extend_stream(id, &stranger, 1, start_time), Err(StreamError::UnauthorizedSender));
    ledger.cancel_stream(id, &sender(), start_time + 30).unwrap();
    assert_eq!(ledger.top_up_stream(id, &stranger, -1, start_time), Err(StreamError::Finalized));
    assert_eq!(ledger.extend_stream(id, &stranger, 1, start_time), Err(StreamError::Finalized));
    assert_eq!(ledger.cancel_stream(id, &stranger, start_time), Err(StreamError::AlreadyCanceled));
}

#[test]
fn completed_stream_refuses_cancel_before_caller_check() {
    let (mut ledger, id, start_time) = ledger_with_stream(1000);
    let end = start_time + 1000;
    ledger.withdraw(id, &recipient(), 1000, end).unwrap();
    let stranger = Principal::new([7u8; 56]);
    assert_eq!(ledger.cancel_stream(id, &stranger, end), Err(StreamError::AlreadyCompleted));
}

#[test]
fn successor_identifier() {
    assert_eq!(StreamContract::successor_id(0), Ok(1));
    assert_eq!(StreamContract::successor_id(u64::MAX - 1), Ok(u64::MAX));
    assert_eq!(StreamContract::successor_id(u64::MAX), Err(StreamError::Overflow));
}

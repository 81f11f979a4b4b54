use vstd::arithmetic::div_mod::lemma_div_is_ordered;
use vstd::prelude::*;

use crate::lifecycle::{create_error, linear_stream};
use crate::principal::Principal;
use crate::stream::{linear_elapsed, Schedule, Stream};
use crate::vesting::lemma_linear_vested_bounds;

verus! {

/// The vested amount never decreases as time goes on; this holds of every
/// consistent stream, paused or not.
pub proof fn lemma_vested_monotone(s: Stream, earlier: u64, later: u64)
    requires
        s.wf(),
        earlier <= later,
    ensures
        s.vested(earlier) <= s.vested(later),
{
    match s.schedule {
        Schedule::Linear { start_time, stop_time, paused_at, paused_duration } => {
            let e1 = linear_elapsed(start_time, paused_at, paused_duration, earlier);
            let e2 = linear_elapsed(start_time, paused_at, paused_duration, later);
            let n = stop_time - start_time - paused_duration;
            assert(e1 <= e2);
            lemma_linear_vested_bounds(
                s.deposit as int,
                start_time,
                stop_time,
                paused_at,
                paused_duration,
                earlier,
            );
            if e2 < n {
                assert(s.deposit * e1 <= s.deposit * e2) by (nonlinear_arith)
                    requires
                        s.deposit > 0,
                        e1 <= e2,
                ;
                lemma_div_is_ordered(s.deposit * e1, s.deposit * e2, n);
            }
        },
        Schedule::Stopwatch { rate_per_second, last_update_time, is_running, .. } => {
            if is_running && later > last_update_time {
                let x1: int = if earlier > last_update_time {
                    earlier - last_update_time
                } else {
                    0
                };
                let x2: int = later - last_update_time;
                assert(rate_per_second * x1 <= rate_per_second * x2) by (nonlinear_arith)
                    requires
                        rate_per_second > 0,
                        0 <= x1 <= x2,
                ;
            }
        },
    }
}

/// While vesting is halted (a time-window stream paused, a stopwatch
/// stream's clock stopped) the vested amount stays the same at every time.
pub proof fn lemma_vested_frozen_while_halted(s: Stream, t1: u64, t2: u64)
    requires
        s.wf(),
        s.is_halted(),
    ensures
        s.vested(t1) == s.vested(t2),
{
}

/// Once nothing withdrawn exceeds what has vested, that stays so as time
/// goes on.
pub proof fn lemma_covered_persists(s: Stream, earlier: u64, later: u64)
    requires
        s.wf(),
        earlier <= later,
        s.covered(earlier),
    ensures
        s.covered(later),
{
    lemma_vested_monotone(s, earlier, later);
}

/// What has been withdrawn never exceeds the deposit, and neither does what
/// has vested at any time.
pub proof fn lemma_withdrawn_and_vested_within_deposit(s: Stream, now: u64)
    requires
        s.wf(),
    ensures
        0 <= s.withdrawn() <= s.deposit,
        0 <= s.vested(now) <= s.deposit,
{
    s.lemma_vested_bounds(now);
}

/// A time-window stream that creation accepts holds its whole deposit, which
/// is above zero, and nothing withdrawn exceeds what has vested.
pub proof fn lemma_created_stream_holds_deposit(
    sender: Principal,
    recipient: Principal,
    token_address: Principal,
    deposit: i128,
    start_time: u64,
    stop_time: u64,
    now: u64,
)
    requires
        create_error(sender, recipient, deposit, start_time, stop_time, now) is None,
    ensures
        linear_stream(sender, recipient, token_address, deposit, start_time, stop_time).wf(),
        linear_stream(
            sender,
            recipient,
            token_address,
            deposit,
            start_time,
            stop_time,
        ).remaining_balance == deposit,
        linear_stream(sender, recipient, token_address, deposit, start_time, stop_time).covered(
            now,
        ),
{
    linear_stream(
        sender,
        recipient,
        token_address,
        deposit,
        start_time,
        stop_time,
    ).lemma_vested_bounds(now);
}

/// Bringing a stopwatch stream's accrual up to date never lowers what was
/// accrued and never lifts it above the deposit; nothing else but the time of
/// the update changes.
pub proof fn lemma_accrual_grows_within_deposit(s: Stream, now: u64)
    requires
        s.wf(),
        s.schedule is Stopwatch,
    ensures
        s.accrued(now).schedule is Stopwatch,
        s.schedule->Stopwatch_total_accrued <= s.accrued(now).schedule->Stopwatch_total_accrued
            <= s.deposit,
        s.accrued(now).schedule->Stopwatch_rate_per_second == s.schedule->Stopwatch_rate_per_second,
        s.accrued(now).schedule->Stopwatch_is_running == s.schedule->Stopwatch_is_running,
        s.accrued(now).deposit == s.deposit,
        s.accrued(now).remaining_balance == s.remaining_balance,
{
    s.lemma_vested_bounds(now);
    if let Schedule::Stopwatch { rate_per_second, last_update_time, is_running, .. } = s.schedule {
        if is_running && now > last_update_time {
            assert(rate_per_second * (now - last_update_time) >= 0) by (nonlinear_arith)
                requires
                    rate_per_second > 0,
                    now > last_update_time,
            ;
        }
    }
}

} // verus!

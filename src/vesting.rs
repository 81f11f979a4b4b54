use vstd::arithmetic::div_mod::{
    lemma_div_is_ordered,
    lemma_div_pos_is_pos,
    lemma_fundamental_div_mod,
    lemma_hoist_over_denominator,
    lemma_mod_bound,
};
use vstd::prelude::*;

use crate::error::{StreamError, StreamStatus};
use crate::stream::{
    linear_elapsed,
    linear_vested,
    stopwatch_overflows,
    stopwatch_vested,
    Schedule,
    Settlement,
    Stream,
    DUST_THRESHOLD,
};

verus! {

/// `d * e / n` splits into a whole part `(d / n) * e`, which never exceeds
/// `d` while `e < n`, and a part `(d % n) * e / n` whose product stays below
/// `n * n`.
proof fn lemma_split_scaled_quotient(d: int, e: int, n: int)
    requires
        d >= 0,
        0 <= e < n,
    ensures
        (d / n) * e + ((d % n) * e) / n == d * e / n,
        0 <= (d / n) * e <= d,
        0 <= (d % n) * e < n * n,
{
    let q = d / n;
    let r = d % n;
    lemma_fundamental_div_mod(d, n);
    lemma_mod_bound(d, n);
    lemma_div_pos_is_pos(d, n);
    assert(d * e == r * e + (q * e) * n) by (nonlinear_arith)
        requires
            d == n * q + r,
    ;
    lemma_hoist_over_denominator(r * e, q * e, n as nat);
    assert(0 <= q * e <= d) by (nonlinear_arith)
        requires
            q >= 0,
            0 <= e < n,
            0 <= r,
            d == n * q + r,
    ;
    assert(0 <= r * e < n * n) by (nonlinear_arith)
        requires
            0 <= r < n,
            0 <= e < n,
    ;
}

/// `linear_vested` never falls below zero nor rises above the deposit.
pub proof fn lemma_linear_vested_bounds(
    deposit: int,
    start_time: u64,
    stop_time: u64,
    paused_at: Option<u64>,
    paused_duration: u64,
    now: u64,
)
    requires
        deposit >= 0,
        start_time + paused_duration < stop_time,
    ensures
        0 <= linear_vested(deposit, start_time, stop_time, paused_at, paused_duration, now)
            <= deposit,
{
    let e = linear_elapsed(start_time, paused_at, paused_duration, now);
    let n = stop_time - start_time - paused_duration;
    if e < n {
        lemma_split_scaled_quotient(deposit, e, n);
        lemma_div_pos_is_pos(((deposit % n) * e), n);
        assert(((deposit % n) * e) / n <= deposit - (deposit / n) * e) by {
            lemma_fundamental_div_mod(deposit, n);
            lemma_mod_bound(deposit, n);
            assert(((deposit % n) * e) / n <= deposit % n) by {
                assert((deposit % n) * e <= (deposit % n) * n) by (nonlinear_arith)
                    requires
                        0 <= deposit % n,
                        e < n,
                ;
                lemma_div_is_ordered((deposit % n) * e, (deposit % n) * n, n);
                vstd::arithmetic::div_mod::lemma_div_multiples_vanish(deposit % n, n);
                assert((deposit % n) * n == n * (deposit % n)) by (nonlinear_arith);
            }
            assert(deposit % n <= deposit - (deposit / n) * e) by (nonlinear_arith)
                requires
                    deposit == n * (deposit / n) + deposit % n,
                    deposit / n >= 0,
                    e < n,
            ;
        }
    }
}

/// Linear vesting at `now`, multiplying before dividing and without any
/// intermediate overflow.
fn linear_vested_amount(
    deposit: i128,
    start_time: u64,
    stop_time: u64,
    paused_at: Option<u64>,
    paused_duration: u64,
    now: u64,
) -> (r: i128)
    requires
        deposit >= 0,
        start_time + paused_duration < stop_time,
    ensures
        r == linear_vested(deposit as int, start_time, stop_time, paused_at, paused_duration, now),
{
    let effective: u64 = match paused_at {
        Some(p) => p,
        None => now,
    };
    let duration: u64 = stop_time - start_time - paused_duration;
    let elapsed: u64 = if effective <= start_time {
        0
    } else if effective - start_time <= paused_duration {
        0
    } else {
        effective - start_time - paused_duration
    };
    assert(elapsed == linear_elapsed(start_time, paused_at, paused_duration, now));
    if elapsed >= duration {
        return deposit;
    }
    let d: u128 = deposit as u128;
    let n: u128 = duration as u128;
    let e: u128 = elapsed as u128;
    proof {
        lemma_split_scaled_quotient(d as int, e as int, n as int);
        lemma_linear_vested_bounds(
            deposit as int,
            start_time,
            stop_time,
            paused_at,
            paused_duration,
            now,
        );
        assert(n * n <= u128::MAX) by (nonlinear_arith)
            requires
                n <= u64::MAX,
        ;
    }
    let whole: u128 = (d / n) * e;
    let part: u128 = ((d % n) * e) / n;
    (whole + part) as i128
}

/// Stopwatch vesting at `now`, capped at the deposit; `Overflow` where the
/// running accrual does not fit in an `i128`.
fn stopwatch_vested_amount(
    deposit: i128,
    rate_per_second: i128,
    total_accrued: i128,
    last_update_time: u64,
    is_running: bool,
    now: u64,
) -> (r: Result<i128, StreamError>)
    requires
        rate_per_second > 0,
        0 <= total_accrued <= deposit,
    ensures
        match r {
            Ok(v) => !stopwatch_overflows(
                rate_per_second as int,
                total_accrued as int,
                last_update_time,
                is_running,
                now,
            ) && v == stopwatch_vested(
                deposit as int,
                rate_per_second as int,
                total_accrued as int,
                last_update_time,
                is_running,
                now,
            ),
            Err(e) => stopwatch_overflows(
                rate_per_second as int,
                total_accrued as int,
                last_update_time,
                is_running,
                now,
            ) && e == StreamError::Overflow,
        },
{
    if !is_running || now <= last_update_time {
        return Ok(total_accrued);
    }
    let running_for: i128 = (now - last_update_time) as i128;
    let earned = match rate_per_second.checked_mul(running_for) {
        Some(v) => v,
        None => {
            proof {
                assert(rate_per_second * running_for >= 0) by (nonlinear_arith)
                    requires
                        rate_per_second > 0,
                        running_for > 0,
                ;
            }
            return Err(StreamError::Overflow);
        },
    };
    proof {
        assert(rate_per_second * running_for >= 0) by (nonlinear_arith)
            requires
                rate_per_second > 0,
                running_for > 0,
        ;
    }
    match total_accrued.checked_add(earned) {
        Some(v) => Ok(
            if v < deposit {
                v
            } else {
                deposit
            },
        ),
        None => Err(StreamError::Overflow),
    }
}

impl Stream {
    /// The vested amount is between zero and the deposit, at every time.
    pub proof fn lemma_vested_bounds(&self, now: u64)
        requires
            self.wf(),
        ensures
            0 <= self.vested(now) <= self.deposit,
    {
        match self.schedule {
            Schedule::Linear { start_time, stop_time, paused_at, paused_duration } => {
                lemma_linear_vested_bounds(
                    self.deposit as int,
                    start_time,
                    stop_time,
                    paused_at,
                    paused_duration,
                    now,
                );
            },
            Schedule::Stopwatch { rate_per_second, last_update_time, is_running, .. } => {
                if is_running && now > last_update_time {
                    assert(rate_per_second * (now - last_update_time) >= 0) by (nonlinear_arith)
                        requires
                            rate_per_second > 0,
                            now > last_update_time,
                    ;
                }
            },
        }
    }

    /// Where the running accrual overflows, the exact accrual lies beyond
    /// the deposit, so the whole deposit has vested.
    pub proof fn lemma_overflow_means_fully_vested(&self, now: u64)
        requires
            self.wf(),
            self.accrual_overflows(now),
        ensures
            self.vested(now) == self.deposit,
    {
        if let Schedule::Stopwatch { rate_per_second, total_accrued, last_update_time, .. } =
            self.schedule {
            assert(rate_per_second * (now - last_update_time) >= 0) by (nonlinear_arith)
                requires
                    rate_per_second > 0,
                    now > last_update_time,
            ;
        }
    }

    /// How much has vested at `now`; `Overflow` where the running accrual of
    /// a stopwatch stream does not fit in an `i128`.
    pub fn vested_amount(&self, now: u64) -> (r: Result<i128, StreamError>)
        requires
            self.wf(),
        ensures
            match r {
                Ok(v) => !self.accrual_overflows(now) && v == self.vested(now),
                Err(e) => self.accrual_overflows(now) && e == StreamError::Overflow,
            },
            r matches Ok(v) ==> 0 <= v <= self.deposit,
    {
        proof {
            self.lemma_vested_bounds(now);
        }
        match self.schedule {
            Schedule::Linear { start_time, stop_time, paused_at, paused_duration } => Ok(
                linear_vested_amount(
                    self.deposit,
                    start_time,
                    stop_time,
                    paused_at,
                    paused_duration,
                    now,
                ),
            ),
            Schedule::Stopwatch { rate_per_second, total_accrued, last_update_time, is_running } =>
                stopwatch_vested_amount(
                self.deposit,
                rate_per_second,
                total_accrued,
                last_update_time,
                is_running,
                now,
            ),
        }
    }

    /// Vested and not yet withdrawn at `now`; below zero where the vested
    /// amount has fallen under what was already paid out. `Overflow` as for
    /// `vested_amount`.
    pub fn available_to_withdraw(&self, now: u64) -> (r: Result<i128, StreamError>)
        requires
            self.wf(),
        ensures
            match r {
                Ok(v) => !self.accrual_overflows(now) && v == self.available(now),
                Err(e) => self.accrual_overflows(now) && e == StreamError::Overflow,
            },
    {
        let vested = match self.vested_amount(now) {
            Ok(v) => v,
            Err(e) => {
                return Err(e);
            },
        };
        Ok(vested - (self.deposit - self.remaining_balance))
    }

    /// The split of the remaining balance if the stream were cancelled at
    /// `now`. Fails with `Overflow` where the running accrual overflows or
    /// either part would be below zero.
    pub fn settlement_on_cancel(&self, now: u64) -> (r: Result<Settlement, StreamError>)
        requires
            self.wf(),
        ensures
            match r {
                Ok(s) => !self.accrual_overflows(now) && self.settles(now) && s == self.settlement(
                    now,
                ),
                Err(e) => (self.accrual_overflows(now) || !self.settles(now)) && e
                    == StreamError::Overflow,
            },
            r matches Ok(s) ==> s.recipient_owed + s.sender_refund == self.remaining_balance,
    {
        let owed = match self.available_to_withdraw(now) {
            Ok(v) => v,
            Err(e) => {
                return Err(e);
            },
        };
        if owed < 0 || owed > self.remaining_balance {
            return Err(StreamError::Overflow);
        }
        Ok(Settlement { recipient_owed: owed, sender_refund: self.remaining_balance - owed })
    }

    /// Whether the whole deposit has vested at `now`. This is decided exactly
    /// even where the running accrual would not fit in an `i128`: such an
    /// accrual lies beyond any deposit.
    fn fully_vested(&self, now: u64) -> (r: bool)
        requires
            self.wf(),
        ensures
            r == (self.vested(now) >= self.deposit),
    {
        match self.vested_amount(now) {
            Ok(v) => v >= self.deposit,
            Err(_) => {
                proof {
                    self.lemma_overflow_means_fully_vested(now);
                }
                true
            },
        }
    }

    /// The lifecycle phase at `now`.
    pub fn get_stream_status(&self, now: u64) -> (r: StreamStatus)
        requires
            self.wf(),
        ensures
            r == self.status(now),
    {
        if self.is_cancelled {
            return StreamStatus::Cancelled;
        }
        let drained = self.remaining_balance < DUST_THRESHOLD;
        match self.schedule {
            Schedule::Linear { start_time, stop_time, paused_at, .. } => {
                if now < start_time {
                    StreamStatus::Upcoming
                } else if now >= stop_time && drained {
                    StreamStatus::Completed
                } else if paused_at.is_some() {
                    StreamStatus::Paused
                } else {
                    StreamStatus::Active
                }
            },
            Schedule::Stopwatch { total_accrued, is_running, .. } => {
                if self.fully_vested(now) && drained {
                    StreamStatus::Completed
                } else if is_running {
                    StreamStatus::Active
                } else if total_accrued == 0 {
                    StreamStatus::Pending
                } else {
                    StreamStatus::Paused
                }
            },
        }
    }
}

} // verus!

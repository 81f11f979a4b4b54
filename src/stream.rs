use vstd::prelude::*;

use crate::error::StreamStatus;
use crate::principal::Principal;

verus! {

/// A balance held for a stream below this many units counts as nothing left.
pub const DUST_THRESHOLD: i128 = 1;

/// How a stream vests, with the state that its accounting mode needs. The
/// mode is chosen when the stream is created and never changes.
#[derive(Clone, Copy, Debug)]
pub enum Schedule {
    /// Elapsed-time mode: the deposit vests linearly between `start_time` and
    /// `stop_time`, less the time spent paused.
    Linear {
        start_time: u64,
        stop_time: u64,
        /// When the current pause began; `None` while the stream runs.
        paused_at: Option<u64>,
        /// Seconds spent paused over the stream's life.
        paused_duration: u64,
    },
    /// Stopwatch mode: the deposit vests at `rate_per_second` while the
    /// recipient's clock runs.
    Stopwatch {
        rate_per_second: i128,
        /// Vested amount as of `last_update_time`, never above the deposit.
        total_accrued: i128,
        last_update_time: u64,
        is_running: bool,
    },
}

/// One streaming agreement from `sender` to `recipient`.
#[derive(Clone, Copy, Debug)]
pub struct Stream {
    pub sender: Principal,
    pub recipient: Principal,
    /// The ledger that holds the streamed asset.
    pub token_address: Principal,
    /// Everything ever committed to the stream.
    pub deposit: i128,
    /// Funds still held for the stream: the deposit less all that was paid out.
    pub remaining_balance: i128,
    pub is_cancelled: bool,
    pub schedule: Schedule,
}

/// What a cancellation pays out of the remaining balance.
#[derive(Clone, Copy, Debug, PartialEq, Eq, Structural)]
pub struct Settlement {
    /// Vested and not yet withdrawn: goes to the recipient.
    pub recipient_owed: i128,
    /// Not vested: goes back to the sender.
    pub sender_refund: i128,
}

/// Seconds of the window that count toward vesting at `now`.
pub open spec fn linear_elapsed(
    start_time: u64,
    paused_at: Option<u64>,
    paused_duration: u64,
    now: u64,
) -> int {
    let effective = match paused_at {
        Some(p) => p,
        None => now,
    };
    let e = effective - start_time - paused_duration;
    if e > 0 {
        e
    } else {
        0
    }
}

/// The length of the window in which the deposit vests: the window less the
/// time spent paused, since each resume moves `stop_time` forward by the
/// length of the pause.
pub open spec fn active_window(start_time: u64, stop_time: u64, paused_duration: u64) -> int {
    stop_time - start_time - paused_duration
}

/// Linear vesting: the whole deposit once the active window has elapsed,
/// before that the deposit times the elapsed share of it, rounded down.
pub open spec fn linear_vested(
    deposit: int,
    start_time: u64,
    stop_time: u64,
    paused_at: Option<u64>,
    paused_duration: u64,
    now: u64,
) -> int {
    let elapsed = linear_elapsed(start_time, paused_at, paused_duration, now);
    let duration = active_window(start_time, stop_time, paused_duration);
    if elapsed >= duration {
        deposit
    } else {
        deposit * elapsed / duration
    }
}

/// Stopwatch vesting: what was accrued plus the rate times the seconds the
/// clock has run since, capped at the deposit.
pub open spec fn stopwatch_vested(
    deposit: int,
    rate_per_second: int,
    total_accrued: int,
    last_update_time: u64,
    is_running: bool,
    now: u64,
) -> int {
    let running_for = if is_running && now > last_update_time {
        now - last_update_time
    } else {
        0
    };
    let v = total_accrued + rate_per_second * running_for;
    if v < deposit {
        v
    } else {
        deposit
    }
}

/// The running stopwatch accrual at `now` does not fit in an `i128`: the
/// rate times the seconds run since the last update, or that product added to
/// what was accrued, exceeds `i128::MAX`.
pub open spec fn stopwatch_overflows(
    rate_per_second: int,
    total_accrued: int,
    last_update_time: u64,
    is_running: bool,
    now: u64,
) -> bool {
    &&& is_running
    &&& now > last_update_time
    &&& {
        ||| rate_per_second * (now - last_update_time) > i128::MAX
        ||| total_accrued + rate_per_second * (now - last_update_time) > i128::MAX
    }
}

impl Stream {
    /// The stream's fields are consistent.
    pub open spec fn wf(&self) -> bool {
        &&& self.deposit > 0
        &&& 0 <= self.remaining_balance <= self.deposit
        &&& self.sender != self.recipient
        &&& self.is_cancelled ==> self.remaining_balance == 0
        &&& match self.schedule {
            Schedule::Linear { start_time, stop_time, paused_duration, .. } => start_time
                + paused_duration < stop_time,
            Schedule::Stopwatch { rate_per_second, total_accrued, .. } => {
                &&& rate_per_second > 0
                &&& 0 <= total_accrued <= self.deposit
            },
        }
    }

    /// All that has left the stream: `deposit - remaining_balance`.
    pub open spec fn withdrawn(&self) -> int {
        self.deposit - self.remaining_balance
    }

    /// The amount vested at `now`.
    pub open spec fn vested(&self, now: u64) -> int {
        match self.schedule {
            Schedule::Linear { start_time, stop_time, paused_at, paused_duration } => linear_vested(
                self.deposit as int,
                start_time,
                stop_time,
                paused_at,
                paused_duration,
                now,
            ),
            Schedule::Stopwatch { rate_per_second, total_accrued, last_update_time, is_running } =>
                stopwatch_vested(
                self.deposit as int,
                rate_per_second as int,
                total_accrued as int,
                last_update_time,
                is_running,
                now,
            ),
        }
    }

    /// Bringing the vested amount up to `now` overflows; only a running
    /// stopwatch stream can.
    pub open spec fn accrual_overflows(&self, now: u64) -> bool {
        match self.schedule {
            Schedule::Stopwatch { rate_per_second, total_accrued, last_update_time, is_running } =>
                stopwatch_overflows(
                rate_per_second as int,
                total_accrued as int,
                last_update_time,
                is_running,
                now,
            ),
            Schedule::Linear { .. } => false,
        }
    }

    /// Vested and not yet withdrawn at `now`.
    pub open spec fn available(&self, now: u64) -> int {
        self.vested(now) - self.withdrawn()
    }

    /// Vesting is halted: a paused time-window stream, or a stopwatch stream
    /// whose clock is stopped.
    pub open spec fn is_halted(&self) -> bool {
        match self.schedule {
            Schedule::Linear { paused_at, .. } => paused_at is Some,
            Schedule::Stopwatch { is_running, .. } => !is_running,
        }
    }

    /// Nothing is left but dust.
    pub open spec fn is_drained(&self) -> bool {
        self.remaining_balance < DUST_THRESHOLD
    }

    /// The lifecycle phase at `now`. Cancellation comes first, then a window
    /// not yet open, then completion (the window over, or the budget vested,
    /// and nothing left), then a pause.
    pub open spec fn status(&self, now: u64) -> StreamStatus {
        if self.is_cancelled {
            StreamStatus::Cancelled
        } else {
            match self.schedule {
                Schedule::Linear { start_time, stop_time, paused_at, .. } => {
                    if now < start_time {
                        StreamStatus::Upcoming
                    } else if now >= stop_time && self.is_drained() {
                        StreamStatus::Completed
                    } else if paused_at is Some {
                        StreamStatus::Paused
                    } else {
                        StreamStatus::Active
                    }
                },
                Schedule::Stopwatch { total_accrued, is_running, .. } => {
                    if self.vested(now) >= self.deposit && self.is_drained() {
                        StreamStatus::Completed
                    } else if is_running {
                        StreamStatus::Active
                    } else if total_accrued == 0 {
                        StreamStatus::Pending
                    } else {
                        StreamStatus::Paused
                    }
                },
            }
        }
    }

    /// The stream can no longer be changed at `now`.
    pub open spec fn is_finalized(&self, now: u64) -> bool {
        self.status(now) == StreamStatus::Completed || self.status(now) == StreamStatus::Cancelled
    }

    /// The split of the remaining balance on a cancellation at `now`.
    pub open spec fn settlement(&self, now: u64) -> Settlement {
        let owed = self.available(now);
        Settlement {
            recipient_owed: owed as i128,
            sender_refund: (self.remaining_balance - owed) as i128,
        }
    }

    /// A cancellation at `now` would split the balance into two parts that
    /// are both at least zero.
    pub open spec fn settles(&self, now: u64) -> bool {
        0 <= self.available(now) <= self.remaining_balance
    }
}

} // verus!

use vstd::prelude::*;

use crate::error::{StreamError, StreamStatus};
use crate::principal::Principal;
use crate::stream::{Schedule, Settlement, Stream};

verus! {

/// How far in the past a time window may open when the stream is created:
/// thirty days, in seconds.
pub const MAX_START_LAG: u64 = 2592000;

/// Why creating a time-window stream is refused, checked in this order.
pub open spec fn create_error(
    sender: Principal,
    recipient: Principal,
    deposit: i128,
    start_time: u64,
    stop_time: u64,
    now: u64,
) -> Option<StreamError> {
    if deposit <= 0 {
        Some(StreamError::InvalidAmount)
    } else if sender == recipient {
        Some(StreamError::SenderCannotBeRecipient)
    } else if stop_time <= start_time {
        Some(StreamError::InvalidTimeRange)
    } else if start_time < now && now - start_time > MAX_START_LAG {
        Some(StreamError::InvalidStartTime)
    } else {
        None
    }
}

/// A new time-window stream: the whole deposit held, nothing paused.
pub open spec fn linear_stream(
    sender: Principal,
    recipient: Principal,
    token_address: Principal,
    deposit: i128,
    start_time: u64,
    stop_time: u64,
) -> Stream {
    Stream {
        sender,
        recipient,
        token_address,
        deposit,
        remaining_balance: deposit,
        is_cancelled: false,
        schedule: Schedule::Linear { start_time, stop_time, paused_at: None, paused_duration: 0 },
    }
}

/// Why creating a stopwatch stream is refused, checked in this order.
pub open spec fn create_stopwatch_error(
    sender: Principal,
    recipient: Principal,
    deposit: i128,
    rate_per_second: i128,
) -> Option<StreamError> {
    if deposit <= 0 || rate_per_second <= 0 {
        Some(StreamError::InvalidAmount)
    } else if sender == recipient {
        Some(StreamError::SenderCannotBeRecipient)
    } else {
        None
    }
}

/// A new stopwatch stream: the whole deposit held, the clock stopped and
/// nothing accrued.
pub open spec fn stopwatch_stream(
    sender: Principal,
    recipient: Principal,
    token_address: Principal,
    deposit: i128,
    rate_per_second: i128,
    now: u64,
) -> Stream {
    Stream {
        sender,
        recipient,
        token_address,
        deposit,
        remaining_balance: deposit,
        is_cancelled: false,
        schedule: Schedule::Stopwatch {
            rate_per_second,
            total_accrued: 0,
            last_update_time: now,
            is_running: false,
        },
    }
}

impl Stream {
    /// For a running stopwatch stream: the vested amount brought into
    /// `total_accrued` as of `now`. Any other stream is left as it is.
    pub open spec fn accrued(self, now: u64) -> Stream {
        match self.schedule {
            Schedule::Stopwatch { rate_per_second, last_update_time, is_running, .. } => {
                if is_running && now > last_update_time {
                    Stream {
                        schedule: Schedule::Stopwatch {
                            rate_per_second,
                            total_accrued: self.vested(now) as i128,
                            last_update_time: now,
                            is_running,
                        },
                        ..self
                    }
                } else {
                    self
                }
            },
            Schedule::Linear { .. } => self,
        }
    }

    /// Nothing withdrawn exceeds what has vested at `now`. A cancelled
    /// stream has paid out its whole balance, refund included, so the
    /// comparison no longer applies to it.
    pub open spec fn covered(self, now: u64) -> bool {
        self.is_cancelled || self.withdrawn() <= self.vested(now)
    }

    /// Why pausing at `now` is refused, checked in this order.
    pub open spec fn pause_error(self, caller: Principal, now: u64) -> Option<StreamError> {
        if self.schedule is Stopwatch {
            Some(StreamError::UnsupportedMode)
        } else if self.status(now) != StreamStatus::Active {
            Some(StreamError::NotActive)
        } else if caller != self.sender {
            Some(StreamError::UnauthorizedSender)
        } else {
            None
        }
    }

    /// The pause begun at `now`.
    pub open spec fn paused(self, now: u64) -> Stream {
        match self.schedule {
            Schedule::Linear { start_time, stop_time, paused_duration, .. } => Stream {
                schedule: Schedule::Linear {
                    start_time,
                    stop_time,
                    paused_at: Some(now),
                    paused_duration,
                },
                ..self
            },
            Schedule::Stopwatch { .. } => self,
        }
    }

    /// The length of the current pause if it ended at `now`.
    pub open spec fn pause_length(self, now: u64) -> int {
        match self.schedule {
            Schedule::Linear { paused_at: Some(p), .. } => now - p,
            _ => 0,
        }
    }

    /// Why resuming at `now` is refused, checked in this order.
    pub open spec fn resume_error(self, caller: Principal, now: u64) -> Option<StreamError> {
        if self.schedule is Stopwatch {
            Some(StreamError::UnsupportedMode)
        } else if self.status(now) != StreamStatus::Paused {
            Some(StreamError::NotPaused)
        } else if caller != self.sender {
            Some(StreamError::UnauthorizedSender)
        } else {
            match self.schedule {
                Schedule::Linear { stop_time, paused_duration, .. } => {
                    let d = self.pause_length(now);
                    if d < 0 || paused_duration + d > u64::MAX || stop_time + d > u64::MAX {
                        Some(StreamError::Overflow)
                    } else {
                        None
                    }
                },
                Schedule::Stopwatch { .. } => None,
            }
        }
    }

    /// Ending the pause at `now`: the pause is added to the paused time, and
    /// the window's end moves forward by as much.
    pub open spec fn resumed(self, now: u64) -> Stream {
        match self.schedule {
            Schedule::Linear { start_time, stop_time, paused_duration, .. } => {
                let d = self.pause_length(now);
                Stream {
                    schedule: Schedule::Linear {
                        start_time,
                        stop_time: (stop_time + d) as u64,
                        paused_at: None,
                        paused_duration: (paused_duration + d) as u64,
                    },
                    ..self
                }
            },
            Schedule::Stopwatch { .. } => self,
        }
    }

    /// Why withdrawing `amount` at `now` is refused, checked in this order.
    pub open spec fn withdraw_error(self, caller: Principal, amount: i128, now: u64) -> Option<
        StreamError,
    > {
        if caller != self.recipient {
            Some(StreamError::UnauthorizedRecipient)
        } else if self.is_cancelled {
            Some(StreamError::StreamCancelled)
        } else if amount <= 0 {
            Some(StreamError::InvalidAmount)
        } else if self.schedule matches Schedule::Linear { start_time, .. } && now < start_time {
            Some(StreamError::StreamNotStarted)
        } else if self.accrual_overflows(now) {
            Some(StreamError::Overflow)
        } else if self.available(now) <= 0 {
            Some(StreamError::NothingToWithdraw)
        } else if amount > self.available(now) {
            Some(StreamError::WithdrawExceedsAvailable)
        } else {
            None
        }
    }

    /// Paying `amount` out to the recipient at `now`.
    pub open spec fn withdrawn_by(self, amount: i128, now: u64) -> Stream {
        Stream {
            remaining_balance: (self.remaining_balance - amount) as i128,
            ..self.accrued(now)
        }
    }

    /// Why topping up by `amount` at `now` is refused, checked in this order.
    pub open spec fn top_up_error(self, caller: Principal, amount: i128, now: u64) -> Option<
        StreamError,
    > {
        if self.is_finalized(now) {
            Some(StreamError::Finalized)
        } else if caller != self.sender {
            Some(StreamError::UnauthorizedSender)
        } else if amount <= 0 {
            Some(StreamError::InvalidAmount)
        } else if self.deposit + amount > i128::MAX {
            Some(StreamError::Overflow)
        } else {
            None
        }
    }

    /// `amount` more committed to the stream and held for it.
    pub open spec fn topped_up(self, amount: i128) -> Stream {
        Stream {
            deposit: (self.deposit + amount) as i128,
            remaining_balance: (self.remaining_balance + amount) as i128,
            ..self
        }
    }

    /// Why moving the window's end to `new_stop_time` at `now` is refused,
    /// checked in this order.
    pub open spec fn extend_error(self, caller: Principal, new_stop_time: u64, now: u64) -> Option<
        StreamError,
    > {
        if self.schedule is Stopwatch {
            Some(StreamError::UnsupportedMode)
        } else if self.is_finalized(now) {
            Some(StreamError::Finalized)
        } else if caller != self.sender {
            Some(StreamError::UnauthorizedSender)
        } else if self.schedule matches Schedule::Linear { stop_time, .. } && (new_stop_time
            <= stop_time || new_stop_time <= now) {
            Some(StreamError::InvalidTimeRange)
        } else if !self.extended(new_stop_time).covered(now) {
            Some(StreamError::InvalidTimeRange)
        } else {
            None
        }
    }

    /// The window's end moved to `new_stop_time`.
    pub open spec fn extended(self, new_stop_time: u64) -> Stream {
        match self.schedule {
            Schedule::Linear { start_time, paused_at, paused_duration, .. } => Stream {
                schedule: Schedule::Linear {
                    start_time,
                    stop_time: new_stop_time,
                    paused_at,
                    paused_duration,
                },
                ..self
            },
            Schedule::Stopwatch { .. } => self,
        }
    }

    /// Why cancelling at `now` is refused, checked in this order.
    pub open spec fn cancel_error(self, caller: Principal, now: u64) -> Option<StreamError> {
        if self.is_cancelled {
            Some(StreamError::AlreadyCanceled)
        } else if self.status(now) == StreamStatus::Completed {
            Some(StreamError::AlreadyCompleted)
        } else if caller != self.sender {
            Some(StreamError::UnauthorizedSender)
        } else if self.accrual_overflows(now) || !self.settles(now) {
            Some(StreamError::Overflow)
        } else {
            None
        }
    }

    /// The record after a cancellation at `now`: accrual finalized, the clock
    /// stopped, the flag set and nothing left held.
    pub open spec fn cancelled(self, now: u64) -> Stream {
        let s = self.accrued(now).stopped();
        Stream { is_cancelled: true, remaining_balance: 0, ..s }
    }

    /// A stopwatch stream's clock stopped; any other stream as it is.
    pub open spec fn stopped(self) -> Stream {
        match self.schedule {
            Schedule::Stopwatch { rate_per_second, total_accrued, last_update_time, .. } => Stream {
                schedule: Schedule::Stopwatch {
                    rate_per_second,
                    total_accrued,
                    last_update_time,
                    is_running: false,
                },
                ..self
            },
            Schedule::Linear { .. } => self,
        }
    }

    /// Why starting the clock is refused, checked in this order.
    pub open spec fn start_work_error(self, caller: Principal) -> Option<StreamError> {
        if caller != self.recipient {
            Some(StreamError::UnauthorizedRecipient)
        } else if self.schedule is Linear {
            Some(StreamError::UnsupportedMode)
        } else if self.is_cancelled {
            Some(StreamError::StreamCancelled)
        } else if self.schedule matches Schedule::Stopwatch { is_running, .. } && is_running {
            Some(StreamError::StreamAlreadyRunning)
        } else if self.schedule matches Schedule::Stopwatch { total_accrued, .. } && total_accrued
            >= self.deposit {
            Some(StreamError::BudgetExceeded)
        } else {
            None
        }
    }

    /// The clock started at `now`.
    pub open spec fn started(self, now: u64) -> Stream {
        match self.schedule {
            Schedule::Stopwatch { rate_per_second, total_accrued, .. } => Stream {
                schedule: Schedule::Stopwatch {
                    rate_per_second,
                    total_accrued,
                    last_update_time: now,
                    is_running: true,
                },
                ..self
            },
            Schedule::Linear { .. } => self,
        }
    }

    /// Why stopping the clock at `now` is refused, checked in this order.
    pub open spec fn stop_work_error(self, caller: Principal, now: u64) -> Option<StreamError> {
        if caller != self.recipient {
            Some(StreamError::UnauthorizedRecipient)
        } else if self.schedule is Linear {
            Some(StreamError::UnsupportedMode)
        } else if self.schedule matches Schedule::Stopwatch { is_running, .. } && !is_running {
            Some(StreamError::StreamNotRunning)
        } else if self.accrual_overflows(now) {
            Some(StreamError::Overflow)
        } else {
            None
        }
    }

    /// Accrual brought up to `now`, then the clock stopped.
    pub open spec fn stopped_at(self, now: u64) -> Stream {
        self.accrued(now).stopped()
    }

    /// Bringing the accrual up to `now` keeps the stream consistent, changes
    /// no balance, and leaves the vested amount at `now` as it was.
    pub proof fn lemma_accrued(self, now: u64)
        requires
            self.wf(),
        ensures
            self.accrued(now).wf(),
            self.accrued(now).deposit == self.deposit,
            self.accrued(now).remaining_balance == self.remaining_balance,
            self.accrued(now).is_cancelled == self.is_cancelled,
            self.accrued(now).vested(now) == self.vested(now),
            self.accrued(now).status(now) == self.status(now),
            self.accrued(now).is_halted() == self.is_halted(),
            !self.accrual_overflows(now) ==> !self.accrued(now).accrual_overflows(now),
    {
        self.lemma_vested_bounds(now);
    }

    /// Brings a running stopwatch stream's accrual up to `now`; `Overflow`, with
    /// the stream unchanged, where the accrual does not fit in an `i128`.
    fn accrue(&mut self, now: u64) -> (r: Result<(), StreamError>)
        requires
            old(self).wf(),
        ensures
            match r {
                Ok(_) => !old(self).accrual_overflows(now) && *final(self) == old(self).accrued(
                    now,
                ),
                Err(e) => old(self).accrual_overflows(now) && e == StreamError::Overflow
                    && *final(self) == *old(self),
            },
    {
        if let Schedule::Stopwatch { rate_per_second, last_update_time, is_running, .. } =
            self.schedule {
            if is_running && now > last_update_time {
                let vested = match self.vested_amount(now) {
                    Ok(v) => v,
                    Err(e) => {
                        return Err(e);
                    },
                };
                self.schedule =
                Schedule::Stopwatch {
                    rate_per_second,
                    total_accrued: vested,
                    last_update_time: now,
                    is_running,
                };
            }
        }
        Ok(())
    }

    /// Creates a time-window stream vesting `deposit` between `start_time`
    /// and `stop_time`.
    pub fn new_linear(
        sender: Principal,
        recipient: Principal,
        token_address: Principal,
        deposit: i128,
        start_time: u64,
        stop_time: u64,
        now: u64,
    ) -> (r: Result<Stream, StreamError>)
        ensures
            match r {
                Ok(s) => create_error(sender, recipient, deposit, start_time, stop_time, now) is None
                    && s == linear_stream(
                    sender,
                    recipient,
                    token_address,
                    deposit,
                    start_time,
                    stop_time,
                ),
                Err(e) => create_error(sender, recipient, deposit, start_time, stop_time, now)
                    == Some(e),
            },
            r matches Ok(s) ==> s.wf(),
    {
        if deposit <= 0 {
            return Err(StreamError::InvalidAmount);
        }
        if sender.same_as(&recipient) {
            return Err(StreamError::SenderCannotBeRecipient);
        }
        if stop_time <= start_time {
            return Err(StreamError::InvalidTimeRange);
        }
        if start_time < now && now - start_time > MAX_START_LAG {
            return Err(StreamError::InvalidStartTime);
        }
        Ok(
            Stream {
                sender,
                recipient,
                token_address,
                deposit,
                remaining_balance: deposit,
                is_cancelled: false,
                schedule: Schedule::Linear {
                    start_time,
                    stop_time,
                    paused_at: None,
                    paused_duration: 0,
                },
            },
        )
    }

    /// Creates a stopwatch stream that vests `rate_per_second` while the
    /// recipient's clock runs, up to `deposit`.
    pub fn new_stopwatch(
        sender: Principal,
        recipient: Principal,
        token_address: Principal,
        deposit: i128,
        rate_per_second: i128,
        now: u64,
    ) -> (r: Result<Stream, StreamError>)
        ensures
            match r {
                Ok(s) => create_stopwatch_error(sender, recipient, deposit, rate_per_second) is None
                    && s == stopwatch_stream(
                    sender,
                    recipient,
                    token_address,
                    deposit,
                    rate_per_second,
                    now,
                ),
                Err(e) => create_stopwatch_error(sender, recipient, deposit, rate_per_second)
                    == Some(e),
            },
            r matches Ok(s) ==> s.wf(),
    {
        if deposit <= 0 || rate_per_second <= 0 {
            return Err(StreamError::InvalidAmount);
        }
        if sender.same_as(&recipient) {
            return Err(StreamError::SenderCannotBeRecipient);
        }
        Ok(
            Stream {
                sender,
                recipient,
                token_address,
                deposit,
                remaining_balance: deposit,
                is_cancelled: false,
                schedule: Schedule::Stopwatch {
                    rate_per_second,
                    total_accrued: 0,
                    last_update_time: now,
                    is_running: false,
                },
            },
        )
    }

    /// Pauses a time-window stream at `now`; only the sender may.
    pub fn pause_stream(&mut self, caller: &Principal, now: u64) -> (r: Result<(), StreamError>)
        requires
            old(self).wf(),
        ensures
            final(self).wf(),
            match r {
                Ok(_) => old(self).pause_error(*caller, now) is None && *final(self) == old(
                    self,
                ).paused(now),
                Err(e) => old(self).pause_error(*caller, now) == Some(e) && *final(self) == *old(
                    self,
                ),
            },
            old(self).covered(now) ==> final(self).covered(now),
    {
        match self.schedule {
            Schedule::Stopwatch { .. } => Err(StreamError::UnsupportedMode),
            Schedule::Linear { start_time, stop_time, paused_duration, .. } => {
                if self.get_stream_status(now) != StreamStatus::Active {
                    return Err(StreamError::NotActive);
                }
                if !caller.same_as(&self.sender) {
                    return Err(StreamError::UnauthorizedSender);
                }
                self.schedule =
                Schedule::Linear { start_time, stop_time, paused_at: Some(now), paused_duration };
                Ok(())
            },
        }
    }

    /// Ends the pause of a time-window stream at `now`; only the sender may.
    /// The pause is added to `paused_duration` and moves `stop_time` forward
    /// by as much; the active window keeps its length, so vesting carries on
    /// from what had vested when the pause began.
    pub fn resume_stream(&mut self, caller: &Principal, now: u64) -> (r: Result<(), StreamError>)
        requires
            old(self).wf(),
        ensures
            final(self).wf(),
            match r {
                Ok(_) => old(self).resume_error(*caller, now) is None && *final(self) == old(
                    self,
                ).resumed(now),
                Err(e) => old(self).resume_error(*caller, now) == Some(e) && *final(self) == *old(
                    self,
                ),
            },
            r is Ok ==> final(self).vested(now) == old(self).vested(now),
            old(self).covered(now) ==> final(self).covered(now),
    {
        match self.schedule {
            Schedule::Stopwatch { .. } => Err(StreamError::UnsupportedMode),
            Schedule::Linear { start_time, stop_time, paused_at, paused_duration } => {
                if self.get_stream_status(now) != StreamStatus::Paused {
                    return Err(StreamError::NotPaused);
                }
                if !caller.same_as(&self.sender) {
                    return Err(StreamError::UnauthorizedSender);
                }
                let p = match paused_at {
                    Some(p) => p,
                    None => {
                        proof {
                            assert(false);
                        }
                        return Err(StreamError::NotPaused);
                    },
                };
                if now < p {
                    return Err(StreamError::Overflow);
                }
                let pause: u64 = now - p;
                let total_paused = match paused_duration.checked_add(pause) {
                    Some(v) => v,
                    None => {
                        return Err(StreamError::Overflow);
                    },
                };
                let new_stop = match stop_time.checked_add(pause) {
                    Some(v) => v,
                    None => {
                        return Err(StreamError::Overflow);
                    },
                };
                self.schedule =
                Schedule::Linear {
                    start_time,
                    stop_time: new_stop,
                    paused_at: None,
                    paused_duration: total_paused,
                };
                Ok(())
            },
        }
    }

    /// Pays `amount` of what has vested out to the recipient at `now`; only
    /// the recipient may.
    pub fn withdraw(&mut self, caller: &Principal, amount: i128, now: u64) -> (r: Result<
        (),
        StreamError,
    >)
        requires
            old(self).wf(),
        ensures
            final(self).wf(),
            match r {
                Ok(_) => old(self).withdraw_error(*caller, amount, now) is None && *final(self)
                    == old(self).withdrawn_by(amount, now),
                Err(e) => old(self).withdraw_error(*caller, amount, now) == Some(e) && *final(self)
                    == *old(self),
            },
            r is Ok ==> final(self).covered(now),
            old(self).covered(now) ==> final(self).covered(now),
    {
        if !caller.same_as(&self.recipient) {
            return Err(StreamError::UnauthorizedRecipient);
        }
        if self.is_cancelled {
            return Err(StreamError::StreamCancelled);
        }
        if amount <= 0 {
            return Err(StreamError::InvalidAmount);
        }
        if let Schedule::Linear { start_time, .. } = self.schedule {
            if now < start_time {
                return Err(StreamError::StreamNotStarted);
            }
        }
        let mut s = *self;
        if let Err(e) = s.accrue(now) {
            return Err(e);
        }
        proof {
            self.lemma_accrued(now);
            self.lemma_vested_bounds(now);
        }
        let available = match s.available_to_withdraw(now) {
            Ok(v) => v,
            Err(e) => {
                return Err(e);
            },
        };
        if available <= 0 {
            return Err(StreamError::NothingToWithdraw);
        }
        if amount > available {
            return Err(StreamError::WithdrawExceedsAvailable);
        }
        s.remaining_balance = s.remaining_balance - amount;
        *self = s;
        Ok(())
    }

    /// Committing more to a stream raises the vested amount or keeps it.
    pub proof fn lemma_top_up_vests_more(self, amount: i128, now: u64)
        requires
            self.wf(),
            !self.is_cancelled,
            amount > 0,
            self.deposit + amount <= i128::MAX,
        ensures
            self.topped_up(amount).wf(),
            self.topped_up(amount).vested(now) >= self.vested(now),
            self.topped_up(amount).withdrawn() == self.withdrawn(),
    {
        let t = self.topped_up(amount);
        match self.schedule {
            Schedule::Linear { start_time, stop_time, paused_at, paused_duration } => {
                let e = crate::stream::linear_elapsed(
                    start_time,
                    paused_at,
                    paused_duration,
                    now,
                );
                let n = stop_time - start_time - paused_duration;
                if e < n {
                    assert(self.deposit * e <= t.deposit * e) by (nonlinear_arith)
                        requires
                            self.deposit <= t.deposit,
                            e >= 0,
                    ;
                    vstd::arithmetic::div_mod::lemma_div_is_ordered(
                        self.deposit * e,
                        t.deposit * e,
                        n,
                    );
                }
            },
            Schedule::Stopwatch { .. } => {},
        }
    }

    /// Commits `amount` more to a stream that is not finalized at `now`; only
    /// the sender may. The funds are held for the stream as well.
    pub fn top_up_stream(&mut self, caller: &Principal, amount: i128, now: u64) -> (r: Result<
        (),
        StreamError,
    >)
        requires
            old(self).wf(),
        ensures
            final(self).wf(),
            match r {
                Ok(_) => old(self).top_up_error(*caller, amount, now) is None && *final(self)
                    == old(self).topped_up(amount),
                Err(e) => old(self).top_up_error(*caller, amount, now) == Some(e) && *final(self)
                    == *old(self),
            },
            old(self).covered(now) ==> final(self).covered(now),
    {
        let status = self.get_stream_status(now);
        if status == StreamStatus::Completed || status == StreamStatus::Cancelled {
            return Err(StreamError::Finalized);
        }
        if !caller.same_as(&self.sender) {
            return Err(StreamError::UnauthorizedSender);
        }
        if amount <= 0 {
            return Err(StreamError::InvalidAmount);
        }
        let deposit = match self.deposit.checked_add(amount) {
            Some(d) => d,
            None => {
                return Err(StreamError::Overflow);
            },
        };
        proof {
            self.lemma_top_up_vests_more(amount, now);
        }
        self.deposit = deposit;
        self.remaining_balance = self.remaining_balance + amount;
        Ok(())
    }

    /// Moves the end of a time-window stream's window to `new_stop_time`,
    /// which must lie after both the current end and `now`; only the sender
    /// may. A longer window vests more slowly, so an end so late that less
    /// would have vested at `now` than was already withdrawn is refused with
    /// `InvalidTimeRange`.
    pub fn extend_stream(&mut self, caller: &Principal, new_stop_time: u64, now: u64) -> (r:
        Result<(), StreamError>)
        requires
            old(self).wf(),
        ensures
            final(self).wf(),
            match r {
                Ok(_) => old(self).extend_error(*caller, new_stop_time, now) is None
                    && *final(self) == old(self).extended(new_stop_time),
                Err(e) => old(self).extend_error(*caller, new_stop_time, now) == Some(e)
                    && *final(self) == *old(self),
            },
            r is Ok ==> final(self).covered(now),
    {
        match self.schedule {
            Schedule::Stopwatch { .. } => Err(StreamError::UnsupportedMode),
            Schedule::Linear { start_time, stop_time, paused_at, paused_duration } => {
                let status = self.get_stream_status(now);
                if status == StreamStatus::Completed || status == StreamStatus::Cancelled {
                    return Err(StreamError::Finalized);
                }
                if !caller.same_as(&self.sender) {
                    return Err(StreamError::UnauthorizedSender);
                }
                if new_stop_time <= stop_time || new_stop_time <= now {
                    return Err(StreamError::InvalidTimeRange);
                }
                let mut longer = *self;
                longer.schedule =
                Schedule::Linear { start_time, stop_time: new_stop_time, paused_at, paused_duration };
                let vested = match longer.vested_amount(now) {
                    Ok(v) => v,
                    Err(e) => {
                        return Err(e);
                    },
                };
                if vested < self.deposit - self.remaining_balance {
                    return Err(StreamError::InvalidTimeRange);
                }
                *self = longer;
                Ok(())
            },
        }
    }

    /// Stops a stopwatch stream's clock; any other stream is left as it is.
    fn stop_clock(&mut self)
        ensures
            *final(self) == old(self).stopped(),
    {
        if let Schedule::Stopwatch { rate_per_second, total_accrued, last_update_time, .. } =
            self.schedule {
            self.schedule =
            Schedule::Stopwatch {
                rate_per_second,
                total_accrued,
                last_update_time,
                is_running: false,
            };
        }
    }

    /// Cancels the stream at `now`; only the sender may. The remaining
    /// balance is split into what the recipient is owed and what goes back to
    /// the sender, which are returned; nothing stays held.
    pub fn cancel_stream(&mut self, caller: &Principal, now: u64) -> (r: Result<
        Settlement,
        StreamError,
    >)
        requires
            old(self).wf(),
        ensures
            final(self).wf(),
            match r {
                Ok(split) => old(self).cancel_error(*caller, now) is None && *final(self) == old(
                    self,
                ).cancelled(now) && split == old(self).settlement(now),
                Err(e) => old(self).cancel_error(*caller, now) == Some(e) && *final(self) == *old(
                    self,
                ),
            },
            r matches Ok(split) ==> split.recipient_owed >= 0 && split.sender_refund >= 0
                && split.recipient_owed + split.sender_refund == old(self).remaining_balance,
            old(self).covered(now) ==> final(self).covered(now),
    {
        if self.is_cancelled {
            return Err(StreamError::AlreadyCanceled);
        }
        if self.get_stream_status(now) == StreamStatus::Completed {
            return Err(StreamError::AlreadyCompleted);
        }
        if !caller.same_as(&self.sender) {
            return Err(StreamError::UnauthorizedSender);
        }
        let split = match self.settlement_on_cancel(now) {
            Ok(split) => split,
            Err(e) => {
                return Err(e);
            },
        };
        proof {
            self.lemma_accrued(now);
        }
        let mut s = *self;
        if let Err(e) = s.accrue(now) {
            return Err(e);
        }
        s.stop_clock();
        s.is_cancelled = true;
        s.remaining_balance = 0;
        *self = s;
        Ok(split)
    }

    /// Starts the clock of a stopwatch stream at `now`; only the recipient
    /// may, and only while budget is left.
    pub fn start_work(&mut self, caller: &Principal, now: u64) -> (r: Result<(), StreamError>)
        requires
            old(self).wf(),
        ensures
            final(self).wf(),
            match r {
                Ok(_) => old(self).start_work_error(*caller) is None && *final(self) == old(
                    self,
                ).started(now),
                Err(e) => old(self).start_work_error(*caller) == Some(e) && *final(self) == *old(
                    self,
                ),
            },
            old(self).covered(now) ==> final(self).covered(now),
    {
        if !caller.same_as(&self.recipient) {
            return Err(StreamError::UnauthorizedRecipient);
        }
        match self.schedule {
            Schedule::Linear { .. } => Err(StreamError::UnsupportedMode),
            Schedule::Stopwatch { rate_per_second, total_accrued, is_running, .. } => {
                if self.is_cancelled {
                    return Err(StreamError::StreamCancelled);
                }
                if is_running {
                    return Err(StreamError::StreamAlreadyRunning);
                }
                if total_accrued >= self.deposit {
                    return Err(StreamError::BudgetExceeded);
                }
                self.schedule =
                Schedule::Stopwatch {
                    rate_per_second,
                    total_accrued,
                    last_update_time: now,
                    is_running: true,
                };
                Ok(())
            },
        }
    }

    /// Stops the clock of a running stopwatch stream at `now`, accruing what
    /// vested since it started; only the recipient may.
    pub fn stop_work(&mut self, caller: &Principal, now: u64) -> (r: Result<(), StreamError>)
        requires
            old(self).wf(),
        ensures
            final(self).wf(),
            match r {
                Ok(_) => old(self).stop_work_error(*caller, now) is None && *final(self) == old(
                    self,
                ).stopped_at(now),
                Err(e) => old(self).stop_work_error(*caller, now) == Some(e) && *final(self) == *old(
                    self,
                ),
            },
            old(self).covered(now) ==> final(self).covered(now),
    {
        if !caller.same_as(&self.recipient) {
            return Err(StreamError::UnauthorizedRecipient);
        }
        match self.schedule {
            Schedule::Linear { .. } => Err(StreamError::UnsupportedMode),
            Schedule::Stopwatch { is_running, .. } => {
                if !is_running {
                    return Err(StreamError::StreamNotRunning);
                }
                proof {
                    self.lemma_accrued(now);
                }
                let mut s = *self;
                if let Err(e) = s.accrue(now) {
                    return Err(e);
                }
                s.stop_clock();
                *self = s;
                Ok(())
            },
        }
    }

    /// Whether the record is consistent, as every operation on it requires.
    pub fn is_consistent(&self) -> (r: bool)
        ensures
            r == self.wf(),
    {
        let schedule_ok = match self.schedule {
            Schedule::Linear { start_time, stop_time, paused_duration, .. } => start_time
                < stop_time && paused_duration < stop_time - start_time,
            Schedule::Stopwatch { rate_per_second, total_accrued, .. } => rate_per_second > 0
                && 0 <= total_accrued && total_accrued <= self.deposit,
        };
        self.deposit > 0 && 0 <= self.remaining_balance && self.remaining_balance <= self.deposit
            && !self.sender.same_as(&self.recipient) && (!self.is_cancelled
            || self.remaining_balance == 0) && schedule_ok
    }
}

} // verus!

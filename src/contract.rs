use vstd::prelude::*;

use crate::error::{StreamError, StreamStatus};
use crate::lifecycle::{create_error, create_stopwatch_error, linear_stream, stopwatch_stream};
use crate::principal::Principal;
use crate::stream::{Settlement, Stream};

verus! {

/// The ledger of streams. Identifiers are handed out in sequence from zero,
/// and a stream's identifier is its place in the ledger; records are never
/// removed.
pub struct StreamContract {
    streams: Vec<Stream>,
}

impl View for StreamContract {
    type V = Seq<Stream>;

    closed spec fn view(&self) -> Seq<Stream> {
        self.streams@
    }
}

impl StreamContract {
    /// Every record is consistent and the next identifier fits in a `u64`.
    pub open spec fn wf(&self) -> bool {
        &&& self@.len() <= u64::MAX
        &&& forall|i: int| 0 <= i < self@.len() ==> (#[trigger] self@[i]).wf()
    }

    /// The outcome of a change to stream `id`: `Ok` exactly where the stream
    /// exists and `error` is `None`, with `changed` stored in its place;
    /// otherwise the error, with the ledger as it was.
    pub open spec fn updated<T>(
        old_ledger: Seq<Stream>,
        new_ledger: Seq<Stream>,
        id: u64,
        r: Result<T, StreamError>,
        error: Option<StreamError>,
        changed: Stream,
    ) -> bool {
        if id >= old_ledger.len() {
            r == Err::<T, StreamError>(StreamError::StreamNotFound) && new_ledger == old_ledger
        } else {
            match r {
                Ok(_) => error is None && new_ledger == old_ledger.update(id as int, changed),
                Err(e) => error == Some(e) && new_ledger == old_ledger,
            }
        }
    }

    /// An empty ledger.
    pub fn new() -> (r: StreamContract)
        ensures
            r.wf(),
            r@ == Seq::<Stream>::empty(),
    {
        StreamContract { streams: Vec::new() }
    }

    /// Where stream `id` is stored, if it exists.
    fn slot(&self, id: u64) -> (r: Option<usize>)
        requires
            self.wf(),
        ensures
            match r {
                Some(i) => i == id && id < self@.len(),
                None => id >= self@.len(),
            },
    {
        if id < self.streams.len() as u64 {
            Some(id as usize)
        } else {
            None
        }
    }

    /// The identifier that follows `id`; `Overflow` where `id` is the last
    /// one a `u64` can hold.
    pub fn successor_id(id: u64) -> (r: Result<u64, StreamError>)
        ensures
            match r {
                Ok(n) => id < u64::MAX && n == id + 1,
                Err(e) => id == u64::MAX && e == StreamError::Overflow,
            },
    {
        if id == u64::MAX {
            Err(StreamError::Overflow)
        } else {
            Ok(id + 1)
        }
    }

    /// Stores a new stream under the next identifier and returns that
    /// identifier; `Overflow` where identifiers are exhausted.
    fn allocate(&mut self, stream: Stream) -> (r: Result<u64, StreamError>)
        requires
            old(self).wf(),
            stream.wf(),
        ensures
            final(self).wf(),
            match r {
                Ok(id) => id == old(self)@.len() && final(self)@ == old(self)@.push(stream),
                Err(e) => e == StreamError::Overflow && old(self)@.len() == u64::MAX
                    && final(self)@ == old(self)@,
            },
    {
        let id = self.streams.len() as u64;
        if let Err(e) = Self::successor_id(id) {
            return Err(e);
        }
        self.streams.push(stream);
        proof {
            assert forall|i: int| 0 <= i < self@.len() implies (#[trigger] self@[i]).wf() by {
                if i < old(self)@.len() {
                    assert(self@[i] == old(self)@[i]);
                }
            }
        }
        Ok(id)
    }

    /// Creates a time-window stream of `deposit` from `sender` to
    /// `recipient`, vesting between `start_time` and `stop_time`.
    pub fn create_stream(
        &mut self,
        sender: Principal,
        recipient: Principal,
        deposit: i128,
        token_address: Principal,
        start_time: u64,
        stop_time: u64,
        now: u64,
    ) -> (r: Result<u64, StreamError>)
        requires
            old(self).wf(),
        ensures
            final(self).wf(),
            match r {
                Ok(id) => create_error(sender, recipient, deposit, start_time, stop_time, now) is None
                    && id == old(self)@.len() && final(self)@ == old(self)@.push(
                    linear_stream(sender, recipient, token_address, deposit, start_time, stop_time),
                ),
                Err(e) => final(self)@ == old(self)@ && (create_error(
                    sender,
                    recipient,
                    deposit,
                    start_time,
                    stop_time,
                    now,
                ) == Some(e) || (create_error(sender, recipient, deposit, start_time, stop_time, now)
                    is None && e == StreamError::Overflow && old(self)@.len() == u64::MAX)),
            },
    {
        let stream = match Stream::new_linear(
            sender,
            recipient,
            token_address,
            deposit,
            start_time,
            stop_time,
            now,
        ) {
            Ok(s) => s,
            Err(e) => {
                return Err(e);
            },
        };
        self.allocate(stream)
    }

    /// Creates a stopwatch stream of `deposit` from `sender` to `recipient`,
    /// vesting `rate_per_second` while the recipient's clock runs.
    pub fn create_stopwatch_stream(
        &mut self,
        sender: Principal,
        recipient: Principal,
        deposit: i128,
        token_address: Principal,
        rate_per_second: i128,
        now: u64,
    ) -> (r: Result<u64, StreamError>)
        requires
            old(self).wf(),
        ensures
            final(self).wf(),
            match r {
                Ok(id) => create_stopwatch_error(sender, recipient, deposit, rate_per_second) is None
                    && id == old(self)@.len() && final(self)@ == old(self)@.push(
                    stopwatch_stream(sender, recipient, token_address, deposit, rate_per_second, now),
                ),
                Err(e) => final(self)@ == old(self)@ && (create_stopwatch_error(
                    sender,
                    recipient,
                    deposit,
                    rate_per_second,
                ) == Some(e) || (create_stopwatch_error(sender, recipient, deposit, rate_per_second)
                    is None && e == StreamError::Overflow && old(self)@.len() == u64::MAX)),
            },
    {
        let stream = match Stream::new_stopwatch(
            sender,
            recipient,
            token_address,
            deposit,
            rate_per_second,
            now,
        ) {
            Ok(s) => s,
            Err(e) => {
                return Err(e);
            },
        };
        self.allocate(stream)
    }

    /// The record of stream `id`.
    pub fn get_stream(&self, id: u64) -> (r: Result<Stream, StreamError>)
        requires
            self.wf(),
        ensures
            match r {
                Ok(s) => id < self@.len() && s == self@[id as int],
                Err(e) => id >= self@.len() && e == StreamError::StreamNotFound,
            },
    {
        match self.slot(id) {
            Some(i) => Ok(self.streams[i]),
            None => Err(StreamError::StreamNotFound),
        }
    }

    /// The identifier that the next stream will receive.
    pub fn get_next_stream_id(&self) -> (r: u64)
        requires
            self.wf(),
        ensures
            r == self@.len(),
    {
        self.streams.len() as u64
    }

    /// The amount of stream `id` vested at `now`; `Overflow` where the
    /// running accrual of a stopwatch stream does not fit in an `i128`.
    pub fn get_vested_amount(&self, id: u64, now: u64) -> (r: Result<i128, StreamError>)
        requires
            self.wf(),
        ensures
            match r {
                Ok(v) => id < self@.len() && !self@[id as int].accrual_overflows(now) && v
                    == self@[id as int].vested(now),
                Err(e) => if id >= self@.len() {
                    e == StreamError::StreamNotFound
                } else {
                    self@[id as int].accrual_overflows(now) && e == StreamError::Overflow
                },
            },
    {
        match self.slot(id) {
            Some(i) => self.streams[i].vested_amount(now),
            None => Err(StreamError::StreamNotFound),
        }
    }

    /// The lifecycle phase of stream `id` at `now`. It reads the record only,
    /// so asking again without a change in between gives the same answer.
    pub fn get_stream_status(&self, id: u64, now: u64) -> (r: Result<StreamStatus, StreamError>)
        requires
            self.wf(),
        ensures
            match r {
                Ok(st) => id < self@.len() && st == self@[id as int].status(now),
                Err(e) => id >= self@.len() && e == StreamError::StreamNotFound,
            },
    {
        match self.slot(id) {
            Some(i) => Ok(self.streams[i].get_stream_status(now)),
            None => Err(StreamError::StreamNotFound),
        }
    }

    /// Stores `stream` as the record of stream `i`.
    fn store(&mut self, i: usize, stream: Stream)
        requires
            old(self).wf(),
            i < old(self)@.len(),
            stream.wf(),
        ensures
            final(self).wf(),
            final(self)@ == old(self)@.update(i as int, stream),
    {
        self.streams[i] = stream;
    }

    /// Pauses stream `id` at `now`; see `Stream::pause_stream`.
    pub fn pause_stream(&mut self, id: u64, caller: &Principal, now: u64) -> (r: Result<(), StreamError>)
        requires
            old(self).wf(),
        ensures
            final(self).wf(),
            Self::updated(
                old(self)@,
                final(self)@,
                id,
                r,
                old(self)@[id as int].pause_error(*caller, now),
                old(self)@[id as int].paused(now),
            ),
            id < old(self)@.len() && old(self)@[id as int].covered(now)
                ==> final(self)@[id as int].covered(now),
    {
        let i = match self.slot(id) {
            Some(i) => i,
            None => {
                return Err(StreamError::StreamNotFound);
            },
        };
        let mut stream = self.streams[i];
        let r = stream.pause_stream(caller, now);
        if r.is_ok() {
            self.store(i, stream);
        }
        r
    }

    /// Resumes stream `id` at `now`; see `Stream::resume_stream`.
    pub fn resume_stream(&mut self, id: u64, caller: &Principal, now: u64) -> (r: Result<(), StreamError>)
        requires
            old(self).wf(),
        ensures
            final(self).wf(),
            Self::updated(
                old(self)@,
                final(self)@,
                id,
                r,
                old(self)@[id as int].resume_error(*caller, now),
                old(self)@[id as int].resumed(now),
            ),
            id < old(self)@.len() && old(self)@[id as int].covered(now)
                ==> final(self)@[id as int].covered(now),
    {
        let i = match self.slot(id) {
            Some(i) => i,
            None => {
                return Err(StreamError::StreamNotFound);
            },
        };
        let mut stream = self.streams[i];
        let r = stream.resume_stream(caller, now);
        if r.is_ok() {
            self.store(i, stream);
        }
        r
    }

    /// Pays `amount` of stream `id` out to its recipient at `now`; see
    /// `Stream::withdraw`.
    pub fn withdraw(&mut self, id: u64, caller: &Principal, amount: i128, now: u64) -> (r: Result<(), StreamError>)
        requires
            old(self).wf(),
        ensures
            final(self).wf(),
            Self::updated(
                old(self)@,
                final(self)@,
                id,
                r,
                old(self)@[id as int].withdraw_error(*caller, amount, now),
                old(self)@[id as int].withdrawn_by(amount, now),
            ),
            id < old(self)@.len() && old(self)@[id as int].covered(now)
                ==> final(self)@[id as int].covered(now),
    {
        let i = match self.slot(id) {
            Some(i) => i,
            None => {
                return Err(StreamError::StreamNotFound);
            },
        };
        let mut stream = self.streams[i];
        let r = stream.withdraw(caller, amount, now);
        if r.is_ok() {
            self.store(i, stream);
        }
        r
    }

    /// Commits `amount` more to stream `id`; see `Stream::top_up_stream`.
    pub fn top_up_stream(&mut self, id: u64, caller: &Principal, amount: i128, now: u64) -> (r: Result<(), StreamError>)
        requires
            old(self).wf(),
        ensures
            final(self).wf(),
            Self::updated(
                old(self)@,
                final(self)@,
                id,
                r,
                old(self)@[id as int].top_up_error(*caller, amount, now),
                old(self)@[id as int].topped_up(amount),
            ),
            id < old(self)@.len() && old(self)@[id as int].covered(now)
                ==> final(self)@[id as int].covered(now),
    {
        let i = match self.slot(id) {
            Some(i) => i,
            None => {
                return Err(StreamError::StreamNotFound);
            },
        };
        let mut stream = self.streams[i];
        let r = stream.top_up_stream(caller, amount, now);
        if r.is_ok() {
            self.store(i, stream);
        }
        r
    }

    /// Moves the end of stream `id`'s window; see `Stream::extend_stream`.
    pub fn extend_stream(&mut self, id: u64, caller: &Principal, new_stop_time: u64, now: u64) -> (r: Result<(), StreamError>)
        requires
            old(self).wf(),
        ensures
            final(self).wf(),
            Self::updated(
                old(self)@,
                final(self)@,
                id,
                r,
                old(self)@[id as int].extend_error(*caller, new_stop_time, now),
                old(self)@[id as int].extended(new_stop_time),
            ),
            id < old(self)@.len() && old(self)@[id as int].covered(now)
                ==> final(self)@[id as int].covered(now),
    {
        let i = match self.slot(id) {
            Some(i) => i,
            None => {
                return Err(StreamError::StreamNotFound);
            },
        };
        let mut stream = self.streams[i];
        let r = stream.extend_stream(caller, new_stop_time, now);
        if r.is_ok() {
            self.store(i, stream);
        }
        r
    }

    /// Cancels stream `id` at `now` and returns the split of what it held;
    /// see `Stream::cancel_stream`.
    pub fn cancel_stream(&mut self, id: u64, caller: &Principal, now: u64) -> (r: Result<Settlement, StreamError>)
        requires
            old(self).wf(),
        ensures
            final(self).wf(),
            Self::updated(
                old(self)@,
                final(self)@,
                id,
                r,
                old(self)@[id as int].cancel_error(*caller, now),
                old(self)@[id as int].cancelled(now),
            ),
            r matches Ok(split) ==> split == old(self)@[id as int].settlement(now)
                && split.recipient_owed >= 0 && split.sender_refund >= 0
                && split.recipient_owed + split.sender_refund == old(
                self,
            )@[id as int].remaining_balance,
            id < old(self)@.len() && old(self)@[id as int].covered(now)
                ==> final(self)@[id as int].covered(now),
    {
        let i = match self.slot(id) {
            Some(i) => i,
            None => {
                return Err(StreamError::StreamNotFound);
            },
        };
        let mut stream = self.streams[i];
        let r = stream.cancel_stream(caller, now);
        if r.is_ok() {
            self.store(i, stream);
        }
        r
    }

    /// Starts the clock of stream `id`; see `Stream::start_work`.
    pub fn start_work(&mut self, id: u64, caller: &Principal, now: u64) -> (r: Result<(), StreamError>)
        requires
            old(self).wf(),
        ensures
            final(self).wf(),
            Self::updated(
                old(self)@,
                final(self)@,
                id,
                r,
                old(self)@[id as int].start_work_error(*caller),
                old(self)@[id as int].started(now),
            ),
            id < old(self)@.len() && old(self)@[id as int].covered(now)
                ==> final(self)@[id as int].covered(now),
    {
        let i = match self.slot(id) {
            Some(i) => i,
            None => {
                return Err(StreamError::StreamNotFound);
            },
        };
        let mut stream = self.streams[i];
        let r = stream.start_work(caller, now);
        if r.is_ok() {
            self.store(i, stream);
        }
        r
    }

    /// Stops the clock of stream `id`; see `Stream::stop_work`.
    pub fn stop_work(&mut self, id: u64, caller: &Principal, now: u64) -> (r: Result<(), StreamError>)
        requires
            old(self).wf(),
        ensures
            final(self).wf(),
            Self::updated(
                old(self)@,
                final(self)@,
                id,
                r,
                old(self)@[id as int].stop_work_error(*caller, now),
                old(self)@[id as int].stopped_at(now),
            ),
            id < old(self)@.len() && old(self)@[id as int].covered(now)
                ==> final(self)@[id as int].covered(now),
    {
        let i = match self.slot(id) {
            Some(i) => i,
            None => {
                return Err(StreamError::StreamNotFound);
            },
        };
        let mut stream = self.streams[i];
        let r = stream.stop_work(caller, now);
        if r.is_ok() {
            self.store(i, stream);
        }
        r
    }
}

} // verus!

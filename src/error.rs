use vstd::prelude::*;

verus! {

/// Why an operation on a stream was refused. An operation that returns one of
/// these has left every stream as it was.
#[derive(Copy, Clone, Debug, PartialEq, Eq, Structural, PartialOrd, Ord)]
pub enum StreamError {
    UnauthorizedSender,
    UnauthorizedRecipient,
    InvalidAmount,
    InvalidTimeRange,
    StreamNotStarted,
    NothingToWithdraw,
    Overflow,
    AlreadyCanceled,
    SenderCannotBeRecipient,
    StreamNotFound,
    InvalidStartTime,
    WithdrawExceedsAvailable,
    StreamCancelled,
    StreamAlreadyRunning,
    StreamNotRunning,
    BudgetExceeded,
    /// Pausing needs an active stream.
    NotActive,
    /// Resuming needs a paused stream.
    NotPaused,
    /// The stream is completed or cancelled and can no longer be changed.
    Finalized,
    /// Cancelling a completed stream.
    AlreadyCompleted,
    /// The operation belongs to the other accounting mode.
    UnsupportedMode,
}

/// The lifecycle phase of a stream, derived from its fields and the time.
#[derive(Copy, Clone, Debug, PartialEq, Eq, Structural, PartialOrd, Ord)]
pub enum StreamStatus {
    /// A time-window stream whose window has not opened yet.
    Upcoming,
    /// A stopwatch stream whose clock has never run.
    Pending,
    Active,
    Paused,
    Completed,
    Cancelled,
}

/// The slots of the key-value store that persists the ledger.
#[derive(Copy, Clone, Debug, PartialEq, Eq, Structural)]
pub enum DataKey {
    /// The record of one stream.
    Stream(u64),
    /// The identifier that the next stream will receive.
    NextStreamId,
}

} // verus!

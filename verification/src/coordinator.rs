//! The decisions that tie a connection's two tasks together: the logic task
//! and the task that pumps the socket. Each runs under an abort handle that
//! the other side may pull.

use vstd::prelude::*;
use crate::error::IndexerError;

verus! {

/// How a task under abort control ended.
#[derive(Clone, Copy, Debug, PartialEq, Eq, Structural)]
pub enum TaskEnd {
    /// It ran to its end without an error.
    Finished,
    /// It ended with an error of its own.
    Failed,
    /// It was cancelled from outside.
    Aborted,
}

/// What the coordinator does when a task has ended.
#[derive(Clone, Copy, Debug, PartialEq, Eq, Structural)]
pub struct Verdict {
    /// Pull the other task's abort handle.
    pub abort_other: bool,
    /// Report the end as a failure of the connection.
    pub report_failure: bool,
}

/// How the logic task ended, from what its future resolved to.
pub open spec fn logic_end_spec(result: Result<(), IndexerError>) -> TaskEnd {
    if result.is_ok() {
        TaskEnd::Finished
    } else {
        TaskEnd::Failed
    }
}

pub fn logic_task_end(result: Result<(), IndexerError>) -> (end: TaskEnd)
    ensures
        end == logic_end_spec(result),
{
    match result {
        Ok(_) => TaskEnd::Finished,
        Err(_) => TaskEnd::Failed,
    }
}

/// When the logic task has ended of itself the session is over, with or
/// without an error, and the socket is closed. A logic task that was
/// cancelled was stopped by the socket side, which is closing already.
/// Only an error is reported as a failure.
pub open spec fn logic_verdict_spec(end: TaskEnd) -> Verdict {
    Verdict { abort_other: end != TaskEnd::Aborted, report_failure: end == TaskEnd::Failed }
}

/// When the socket task has failed the logic is cancelled and the failure
/// reported. A socket task that was cancelled was stopped on purpose, and
/// one that ran dry leaves the logic to end by itself.
pub open spec fn transport_verdict_spec(end: TaskEnd) -> Verdict {
    Verdict { abort_other: end == TaskEnd::Failed, report_failure: end == TaskEnd::Failed }
}

/// The logic task has ended: whether the socket is to be closed.
pub fn on_logic_end(end: TaskEnd) -> (verdict: Verdict)
    ensures
        verdict == logic_verdict_spec(end),
{
    match end {
        TaskEnd::Failed => Verdict { abort_other: true, report_failure: true },
        TaskEnd::Finished => Verdict { abort_other: true, report_failure: false },
        TaskEnd::Aborted => Verdict { abort_other: false, report_failure: false },
    }
}

/// The socket task has ended: whether the logic is to be cancelled.
pub fn on_transport_end(end: TaskEnd) -> (verdict: Verdict)
    ensures
        verdict == transport_verdict_spec(end),
{
    match end {
        TaskEnd::Failed => Verdict { abort_other: true, report_failure: true },
        _ => Verdict { abort_other: false, report_failure: false },
    }
}

/// Which failure the socket task ends with.
#[derive(Clone, Copy, Debug, PartialEq, Eq, Structural)]
pub enum PumpEnd {
    /// Both directions ran dry without an error.
    Done,
    /// A frame could not be read or decoded: the connection counts as closed.
    ReadFailed,
    /// Writing to the socket failed.
    WriteFailed,
    /// Handing a received message to the logic failed.
    ForwardFailed,
}

/// A read failure stops both directions at once. Otherwise the write
/// direction's error comes before the forward direction's.
pub open spec fn pump_end_spec(read_failed: bool, write_ok: bool, forward_ok: bool) -> PumpEnd {
    if read_failed {
        PumpEnd::ReadFailed
    } else if !write_ok {
        PumpEnd::WriteFailed
    } else if !forward_ok {
        PumpEnd::ForwardFailed
    } else {
        PumpEnd::Done
    }
}

/// How the socket task ends, from how its two directions ended.
pub fn pump_end(read_failed: bool, write_ok: bool, forward_ok: bool) -> (end: PumpEnd)
    ensures
        end == pump_end_spec(read_failed, write_ok, forward_ok),
{
    if read_failed {
        PumpEnd::ReadFailed
    } else if !write_ok {
        PumpEnd::WriteFailed
    } else if !forward_ok {
        PumpEnd::ForwardFailed
    } else {
        PumpEnd::Done
    }
}

/// The socket task's end as the coordinator sees it.
pub fn pump_task_end(end: PumpEnd) -> (task: TaskEnd)
    ensures
        task == (if end == PumpEnd::Done {
            TaskEnd::Finished
        } else {
            TaskEnd::Failed
        }),
{
    match end {
        PumpEnd::Done => TaskEnd::Finished,
        _ => TaskEnd::Failed,
    }
}

/// The gauge of connections that are open.
#[derive(Clone, Copy, Debug, PartialEq, Eq, Structural)]
pub struct ActiveConnections {
    pub count: i64,
}

impl ActiveConnections {
    /// The gauge after one more connection was accepted.
    pub open spec fn after_opened(self) -> ActiveConnections
        recommends
            self.count < i64::MAX,
    {
        ActiveConnections { count: (self.count + 1) as i64 }
    }

    /// The gauge after a connection ended; how it ended plays no part.
    pub open spec fn after_closed(self) -> ActiveConnections
        recommends
            self.count > i64::MIN,
    {
        ActiveConnections { count: (self.count - 1) as i64 }
    }

    /// Counts a connection that was accepted.
    pub fn opened(&mut self)
        requires
            old(self).count < i64::MAX,
        ensures
            *final(self) == old(self).after_opened(),
    {
        self.count = self.count + 1;
    }

    /// Counts a connection that ended, however it ended.
    pub fn closed(&mut self)
        requires
            old(self).count > i64::MIN,
        ensures
            *final(self) == old(self).after_closed(),
    {
        self.count = self.count - 1;
    }
}

/// Once a connection that was counted has ended, the gauge reads what it
/// read before the connection was accepted. Closing asks nothing about how
/// the connection ended, so this holds on every way out.
pub proof fn gauge_returns(gauge: ActiveConnections)
    requires
        gauge.count < i64::MAX,
    ensures
        gauge.after_opened().after_closed() == gauge,
{
}

/// The end of either task ends the connection. A logic task that ended
/// of itself, with an error or without, has the socket closed; a socket
/// task that failed has the logic cancelled. A task that was cancelled
/// pulls no handle and is not reported as a failure, on either side, and
/// the socket task counts as failed exactly when a direction of it failed.
pub proof fn ends_cross_over(end: TaskEnd)
    ensures
        logic_verdict_spec(TaskEnd::Failed).abort_other,
        logic_verdict_spec(TaskEnd::Finished).abort_other,
        transport_verdict_spec(TaskEnd::Failed).abort_other,
        !logic_verdict_spec(TaskEnd::Aborted).abort_other,
        !transport_verdict_spec(TaskEnd::Aborted).abort_other,
        end != TaskEnd::Failed ==> !logic_verdict_spec(end).report_failure
            && !transport_verdict_spec(end).report_failure,
        forall|read_failed: bool, write_ok: bool, forward_ok: bool|
            (#[trigger] pump_end_spec(read_failed, write_ok, forward_ok) == PumpEnd::Done) <==> (
            !read_failed && write_ok && forward_ok),
{
}

/// Whatever the logic future resolved to, the socket is closed; the end is
/// reported as a failure exactly when it resolved to an error.
pub proof fn logic_end_closes_socket(result: Result<(), IndexerError>)
    ensures
        logic_verdict_spec(logic_end_spec(result)).abort_other,
        logic_verdict_spec(logic_end_spec(result)).report_failure == result.is_err(),
{
}

} // verus!

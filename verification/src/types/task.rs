//! Task status, task logs and waiting for a task.

use crate::error::{ErrorView, PveError};
use crate::params::{opt_decimal_u64, put_opt, PveParams};
use crate::text::{opt_view, same_text};
use std::collections::HashMap;
use std::time::Duration;
use vstd::prelude::*;

verus! {

/// Trusted: `serde_json::Value`, any JSON value. It is only carried
/// through; nothing is read from it.
#[verifier::external_type_specification]
#[verifier::external_body]
pub struct ExJsonValue(serde_json::Value);

/// The state of a task as the status endpoint reports it.
#[derive(Debug, Clone)]
pub struct TaskStatus {
    pub upid: Option<String>,
    pub task_type: Option<String>,
    /// `stopped` once the task has ended; anything else while it runs.
    pub status: String,
    /// `OK` for a task that ended well; set only once the task has stopped.
    pub exitstatus: Option<String>,
    pub user: Option<String>,
    pub starttime: Option<u64>,
    pub node: Option<String>,
    /// Whatever else the server sent.
    pub extra: HashMap<String, serde_json::Value>,
}

/// One line of a task log.
#[derive(Debug, Clone)]
pub struct TaskLogLine {
    pub n: Option<u64>,
    pub t: String,
}

/// Which lines of a task log to read.
#[derive(Debug, Clone)]
pub struct TaskLogQuery {
    pub start: Option<u64>,
    pub limit: Option<u64>,
}

impl TaskLogQuery {
    /// The parameters that this value puts on the wire: one entry for
    /// each field that is set.
    pub open spec fn params(&self) -> Map<Seq<char>, Seq<char>> {
        let m = Map::<Seq<char>, Seq<char>>::empty();
        let m = put_opt(m, "start"@, opt_decimal_u64(self.start));
        put_opt(m, "limit"@, opt_decimal_u64(self.limit))
    }

    /// Writes the fields that are set into a parameter map.
    pub fn to_params(&self) -> (r: PveParams)
        ensures
            r@ == self.params(),
    {
        let mut params = PveParams::new();
        params.insert_opt_u64("start", self.start);
        params.insert_opt_u64("limit", self.limit);
        params
    }
}

impl Default for TaskLogQuery {
    fn default() -> (r: Self)
        ensures
            r.start is None,
            r.limit is None,
    {
        TaskLogQuery {
            start: None,
            limit: None,
        }
    }
}

/// The length of a time span in nanoseconds.
pub uninterp spec fn duration_nanos(d: Duration) -> nat;

/// Trusted: `Duration::from_secs` makes a span of that many whole seconds.
pub assume_specification[ Duration::from_secs ](secs: u64) -> (d: Duration)
    ensures
        duration_nanos(d) == secs * 1_000_000_000,
;

/// Trusted: `Duration::as_secs` gives the whole seconds of a span.
pub assume_specification[ Duration::as_secs ](d: &Duration) -> (secs: u64)
    ensures
        secs == duration_nanos(*d) / 1_000_000_000,
;

/// Whether `a` is longer than `b`.
///
/// Trusted: compares two `Duration`s with `>`; the contract claims that
/// the longer span is the one with more nanoseconds.
#[verifier::external_body]
fn longer_than(a: Duration, b: Duration) -> (r: bool)
    ensures
        r == (duration_nanos(a) > duration_nanos(b)),
{
    a > b
}

/// How to wait for a task: how long to sleep between two polls and how
/// long to keep polling.
#[derive(Debug)]
pub struct WaitTaskOptions {
    pub poll_interval: Duration,
    /// The longest time to wait, counted from the first poll; `None`
    /// waits for as long as the task runs.
    pub timeout: Option<Duration>,
}

impl Clone for WaitTaskOptions {
    fn clone(&self) -> (r: Self)
        ensures
            r == *self,
    {
        WaitTaskOptions { poll_interval: self.poll_interval, timeout: self.timeout }
    }
}

impl Default for WaitTaskOptions {
    fn default() -> (r: Self)
        ensures
            duration_nanos(r.poll_interval) == 2_000_000_000,
            r.timeout is None,
    {
        WaitTaskOptions { poll_interval: Duration::from_secs(2), timeout: None }
    }
}

/// What one look at a task tells the waiter.
pub enum TaskVerdict {
    /// The task stopped with exit status `OK`.
    Succeeded,
    /// The task stopped with this exit status, or with none (`UNKNOWN`).
    Failed(Seq<char>),
    /// The task still runs and the deadline has passed.
    TimedOut,
    /// The task still runs and may be polled again.
    Pending,
}

/// Classifies a task from its status, the time waited so far and the deadline.
///
/// Only the status `stopped` ends a task. A stopped task succeeded only
/// with the exit status `OK`; a missing exit status counts as failure.
/// A running task times out once more time than the deadline has passed.
pub open spec fn task_verdict(
    status: Seq<char>,
    exitstatus: Option<Seq<char>>,
    elapsed: Duration,
    timeout: Option<Duration>,
) -> TaskVerdict {
    if status == "stopped"@ {
        if exitstatus == Some("OK"@) {
            TaskVerdict::Succeeded
        } else {
            TaskVerdict::Failed(
                match exitstatus {
                    Some(e) => e,
                    None => "UNKNOWN"@,
                },
            )
        }
    } else if timeout is Some && duration_nanos(elapsed) > duration_nanos(timeout->0) {
        TaskVerdict::TimedOut
    } else {
        TaskVerdict::Pending
    }
}

/// What the waiter does after one poll.
#[derive(Debug)]
pub enum WaitStep {
    /// Waiting is over, with this result.
    Finished(Result<TaskStatus, PveError>),
    /// Sleep for this long, then poll again.
    Sleep(Duration),
}

/// Whether `step` is what follows a poll with the result `polled`.
///
/// A failed query ends the wait with that same error. Otherwise the
/// verdict on the polled status decides.
pub open spec fn wait_step_spec(
    upid: Seq<char>,
    polled: Result<TaskStatus, PveError>,
    elapsed: Duration,
    poll_interval: Duration,
    timeout: Option<Duration>,
    step: WaitStep,
) -> bool {
    match polled {
        Err(e) => step == WaitStep::Finished(Err(e)),
        Ok(status) => match task_verdict(
            status.status@,
            opt_view(status.exitstatus),
            elapsed,
            timeout,
        ) {
            TaskVerdict::Succeeded => step == WaitStep::Finished(Ok(status)),
            TaskVerdict::Failed(exit) => step matches WaitStep::Finished(Err(e)) && e@ == (
            ErrorView::TaskFailed { upid, exitstatus: exit }),
            TaskVerdict::TimedOut => step matches WaitStep::Finished(Err(e)) && e@ == (
            ErrorView::TaskTimeout {
                upid,
                timeout_secs: (duration_nanos(elapsed) / 1_000_000_000) as u64,
            }),
            TaskVerdict::Pending => step == WaitStep::Sleep(poll_interval),
        },
    }
}

/// Decides what follows one poll of the task `upid`.
///
/// `polled` is what the status query returned, `elapsed` the time since
/// the first poll. A failed query ends the wait with that same error. A
/// task that stopped with `OK` ends it with the status as it was polled;
/// one that stopped otherwise ends it with `TaskFailed`; a running task
/// past the deadline ends it with `TaskTimeout`, which carries the whole
/// seconds that have passed since the first poll. Otherwise the waiter
/// sleeps for the poll interval.
pub fn wait_for_task_step(
    upid: &str,
    polled: Result<TaskStatus, PveError>,
    elapsed: Duration,
    poll_interval: Duration,
    timeout: Option<Duration>,
) -> (r: WaitStep)
    ensures
        wait_step_spec(upid@, polled, elapsed, poll_interval, timeout, r),
{
    let status = match polled {
        Ok(status) => status,
        Err(e) => {
            return WaitStep::Finished(Err(e));
        },
    };
    if same_text(status.status.as_str(), "stopped") {
        let exit: String = match &status.exitstatus {
            Some(e) => {
                if same_text(e.as_str(), "OK") {
                    return WaitStep::Finished(Ok(status));
                }
                e.clone()
            },
            None => String::from_str("UNKNOWN"),
        };
        return WaitStep::Finished(
            Err(PveError::TaskFailed { upid: String::from_str(upid), exitstatus: exit }),
        );
    }
    match timeout {
        Some(limit) => {
            if longer_than(elapsed, limit) {
                return WaitStep::Finished(
                    Err(
                        PveError::TaskTimeout {
                            upid: String::from_str(upid),
                            timeout_secs: elapsed.as_secs(),
                        },
                    ),
                );
            }
        },
        None => {},
    }
    WaitStep::Sleep(poll_interval)
}


} // verus!

//! Requests for tasks.

use crate::auth::HttpMethod;
use crate::client::{ApiRequest, PveClient};
use crate::error::{result_view, PveError};
use crate::params::{opt_decimal_u64, put_opt, PveParams};
use crate::transport::{percent_encoded, ApiPath};
use crate::types::task::{
    wait_for_task_step, wait_step_spec, TaskLogQuery, TaskStatus, WaitStep, WaitTaskOptions,
};
use std::time::Duration;
use vstd::prelude::*;

verus! {

impl PveClient {
    /// The request `GET /nodes/{node}/tasks/{upid}/status`.
    pub fn task_status(&self, node: &str, upid: &str) -> (r: Result<ApiRequest, PveError>)
        ensures
            result_view(r) == self.request_outcome(
                HttpMethod::Get,
                "/nodes/"@ + percent_encoded(node@) + "/tasks/"@ + percent_encoded(upid@)
                    + "/status"@,
                None,
                None,
            ),
    {
        let path = ApiPath::new("/nodes/")
            .segment(node)
            .text("/tasks/")
            .segment(upid)
            .text("/status");
        self.send(HttpMethod::Get, path.as_str(), None, None)
    }

    /// The request `GET /nodes/{node}/tasks/{upid}/log`, with `start`, `limit` as
    /// its query.
    pub fn task_log(
        &self,
        node: &str,
        upid: &str,
        start: Option<u64>,
        limit: Option<u64>,
    ) -> (r: Result<ApiRequest, PveError>)
        ensures
            result_view(r) == self.request_outcome(
                HttpMethod::Get,
                "/nodes/"@ + percent_encoded(node@) + "/tasks/"@ + percent_encoded(upid@) + "/log"@,
                Some(
                    put_opt(
                        put_opt(
                            Map::<Seq<char>,
                            Seq<char>>::empty(),
                            "start"@,
                            opt_decimal_u64(start),
                        ),
                        "limit"@,
                        opt_decimal_u64(limit),
                    ),
                ),
                None,
            ),
    {
        let mut query = PveParams::new();
        query.insert_opt_u64("start", start);
        query.insert_opt_u64("limit", limit);
        let path = ApiPath::new("/nodes/").segment(node).text("/tasks/").segment(upid).text("/log");
        self.send(HttpMethod::Get, path.as_str(), Some(&query), None)
    }

    /// The request `GET /nodes/{node}/tasks/{upid}/log`, with the parameters of
    /// `query` as its query.
    pub fn task_log_with(
        &self,
        node: &str,
        upid: &str,
        query: &TaskLogQuery,
    ) -> (r: Result<ApiRequest, PveError>)
        ensures
            result_view(r) == self.request_outcome(
                HttpMethod::Get,
                "/nodes/"@ + percent_encoded(node@) + "/tasks/"@ + percent_encoded(upid@) + "/log"@,
                Some(query.params()),
                None,
            ),
    {
        let params = query.to_params();
        let path = ApiPath::new("/nodes/").segment(node).text("/tasks/").segment(upid).text("/log");
        self.send(HttpMethod::Get, path.as_str(), Some(&params), None)
    }

    /// Decides what follows one poll of the task `upid`; see
    /// `wait_for_task_step`, which this is.
    pub fn wait_for_task(
        &self,
        upid: &str,
        polled: Result<TaskStatus, PveError>,
        elapsed: Duration,
        poll_interval: Duration,
        timeout: Option<Duration>,
    ) -> (r: WaitStep)
        ensures
            wait_step_spec(upid@, polled, elapsed, poll_interval, timeout, r),
    {
        wait_for_task_step(upid, polled, elapsed, poll_interval, timeout)
    }

    /// Decides what follows one poll of the task `upid`, with the poll
    /// interval and the deadline of `options`.
    pub fn wait_for_task_with_options(
        &self,
        upid: &str,
        polled: Result<TaskStatus, PveError>,
        elapsed: Duration,
        options: &WaitTaskOptions,
    ) -> (r: WaitStep)
        ensures
            wait_step_spec(upid@, polled, elapsed, options.poll_interval, options.timeout, r),
    {
        self.wait_for_task(upid, polled, elapsed, options.poll_interval, options.timeout)
    }
}

} // verus!

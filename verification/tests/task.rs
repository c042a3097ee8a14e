use std::collections::HashMap;
use std::time::Duration;

use pve_sdk_rs::error::PveError;
use pve_sdk_rs::types::task::{wait_for_task_step, TaskStatus, WaitStep, WaitTaskOptions};

fn status(status: &str, exitstatus: Option<&str>) -> TaskStatus {
    TaskStatus {
        upid: Some("UPID:pve1:1".to_string()),
        task_type: Some("qmstart".to_string()),
        status: status.to_string(),
        exitstatus: exitstatus.map(str::to_string),
        user: Some("root@pam".to_string()),
        starttime: Some(1700000000),
        node: Some("pve1".to_string()),
        extra: HashMap::new(),
    }
}

const INTERVAL: Duration = Duration::from_millis(5);

#[test]
fn stopped_with_ok_succeeds_with_the_full_status() {
    let mut polled = status("stopped", Some("OK"));
    polled
        .extra
        .insert("pid".to_string(), serde_json::Value::from(4242));
    let step = wait_for_task_step("UPID:pve1:1", Ok(polled), Duration::ZERO, INTERVAL, None);
    match step {
        WaitStep::Finished(Ok(done)) => {
            assert_eq!(done.status, "stopped");
            assert_eq!(done.exitstatus.as_deref(), Some("OK"));
            assert_eq!(done.upid.as_deref(), Some("UPID:pve1:1"));
            assert_eq!(done.user.as_deref(), Some("root@pam"));
            assert_eq!(done.starttime, Some(1700000000));
            assert_eq!(done.extra.get("pid"), Some(&serde_json::Value::from(4242)));
        }
        other => panic!("unexpected step: {other:?}"),
    }
}

#[test]
fn stopped_with_another_exit_status_fails_with_it() {
    for exit in ["FAIL", "ok", "OK ", "", "command 'x' failed: exit code 1"] {
        let step = wait_for_task_step(
            "UPID:pve1:1",
            Ok(status("stopped", Some(exit))),
            Duration::ZERO,
            INTERVAL,
            None,
        );
        match step {
            WaitStep::Finished(Err(PveError::TaskFailed { upid, exitstatus })) => {
                assert_eq!(upid, "UPID:pve1:1");
                assert_eq!(exitstatus, exit);
            }
            other => panic!("unexpected step: {other:?}"),
        }
    }
}

#[test]
fn stopped_without_exit_status_fails_as_unknown() {
    let step = wait_for_task_step(
        "UPID:pve1:1",
        Ok(status("stopped", None)),
        Duration::ZERO,
        INTERVAL,
        None,
    );
    match step {
        WaitStep::Finished(Err(err)) => {
            assert!(matches!(&err, PveError::TaskFailed { exitstatus, .. } if exitstatus == "UNKNOWN"));
            assert_eq!(
                err.to_string(),
                "task UPID:pve1:1 failed with exitstatus UNKNOWN"
            );
        }
        other => panic!("unexpected step: {other:?}"),
    }
}

#[test]
fn running_task_sleeps_for_the_poll_interval() {
    for state in ["running", "", "done", "Stopped", "stopped "] {
        let step = wait_for_task_step(
            "UPID:pve1:1",
            Ok(status(state, Some("OK"))),
            Duration::from_secs(3600),
            INTERVAL,
            None,
        );
        assert!(matches!(step, WaitStep::Sleep(d) if d == INTERVAL), "{state}");
    }
}

#[test]
fn running_task_times_out_once_the_deadline_has_passed() {
    let deadline = Duration::from_millis(30);
    for elapsed in [Duration::ZERO, Duration::from_millis(29), deadline] {
        let step = wait_for_task_step(
            "UPID:pve1:1",
            Ok(status("running", None)),
            elapsed,
            INTERVAL,
            Some(deadline),
        );
        assert!(matches!(step, WaitStep::Sleep(d) if d == INTERVAL));
    }
    let step = wait_for_task_step(
        "UPID:pve1:1",
        Ok(status("running", None)),
        deadline + Duration::from_nanos(1),
        INTERVAL,
        Some(deadline),
    );
    match step {
        WaitStep::Finished(Err(PveError::TaskTimeout { upid, timeout_secs })) => {
            assert_eq!(upid, "UPID:pve1:1");
            assert_eq!(timeout_secs, 0);
        }
        other => panic!("unexpected step: {other:?}"),
    }
    let step = wait_for_task_step(
        "UPID:pve1:1",
        Ok(status("running", None)),
        Duration::from_millis(2_500),
        INTERVAL,
        Some(deadline),
    );
    match step {
        WaitStep::Finished(Err(PveError::TaskTimeout { upid, timeout_secs })) => {
            assert_eq!(upid, "UPID:pve1:1");
            assert_eq!(timeout_secs, 2);
        }
        other => panic!("unexpected step: {other:?}"),
    }
}

#[test]
fn timeout_carries_the_whole_seconds_waited() {
    let step = wait_for_task_step(
        "UPID:pve1:1",
        Ok(status("running", None)),
        Duration::from_millis(700_999),
        Duration::from_secs(2),
        Some(Duration::from_secs(600)),
    );
    match step {
        WaitStep::Finished(Err(err)) => {
            assert!(matches!(
                err,
                PveError::TaskTimeout {
                    timeout_secs: 700,
                    ..
                }
            ));
            assert_eq!(err.to_string(), "task UPID:pve1:1 timed out after 700s");
        }
        other => panic!("unexpected step: {other:?}"),
    }
    let step = wait_for_task_step(
        "UPID:pve1:1",
        Ok(status("running", None)),
        Duration::from_secs(3),
        Duration::from_secs(2),
        Some(Duration::from_secs(1)),
    );
    assert!(matches!(
        step,
        WaitStep::Finished(Err(PveError::TaskTimeout {
            timeout_secs: 3,
            ..
        }))
    ));
}

#[test]
fn a_stopped_task_is_classified_even_after_the_deadline() {
    let step = wait_for_task_step(
        "UPID:pve1:1",
        Ok(status("stopped", Some("OK"))),
        Duration::from_secs(10),
        INTERVAL,
        Some(Duration::from_secs(1)),
    );
    assert!(matches!(step, WaitStep::Finished(Ok(_))));
}

#[test]
fn a_failed_query_ends_the_wait_with_its_error() {
    let failure = PveError::ApiStatus {
        status: 500,
        body: "boom".to_string(),
    };
    let step = wait_for_task_step(
        "UPID:pve1:1",
        Err(failure),
        Duration::ZERO,
        INTERVAL,
        Some(Duration::from_secs(1)),
    );
    match step {
        WaitStep::Finished(Err(PveError::ApiStatus { status, body })) => {
            assert_eq!(status, 500);
            assert_eq!(body, "boom");
        }
        other => panic!("unexpected step: {other:?}"),
    }
    let io = PveError::Io(std::io::Error::new(std::io::ErrorKind::Other, "disk"));
    let step = wait_for_task_step("UPID:pve1:1", Err(io), Duration::ZERO, INTERVAL, None);
    match step {
        WaitStep::Finished(Err(err)) => assert_eq!(err.to_string(), "io error: disk"),
        other => panic!("unexpected step: {other:?}"),
    }
}

#[test]
fn wait_for_task_returns_timeout_when_status_never_stops() {
    let options = WaitTaskOptions {
        poll_interval: Duration::from_millis(5),
        timeout: Some(Duration::from_millis(30)),
    };
    let mut elapsed = Duration::ZERO;
    let mut polls = 0u32;
    let outcome = loop {
        polls += 1;
        assert!(polls < 10_000);
        let polled = Ok(status("running", None));
        match wait_for_task_step(
            "UPIDTEST",
            polled,
            elapsed,
            options.poll_interval,
            options.timeout,
        ) {
            WaitStep::Finished(outcome) => break outcome,
            WaitStep::Sleep(pause) => {
                assert_eq!(pause, options.poll_interval);
                elapsed += pause;
            }
        }
    };
    let err = outcome.expect_err("expected timeout");

    match err {
        PveError::TaskTimeout { upid, .. } => {
            assert_eq!(upid, "UPIDTEST");
        }
        other => panic!("expected TaskTimeout, got: {other:?}"),
    }
    assert_eq!(polls, 8);
}

#[test]
fn default_wait_options() {
    let options = WaitTaskOptions::default();
    assert_eq!(options.poll_interval, Duration::from_secs(2));
    assert!(options.timeout.is_none());
    let copy = options.clone();
    assert_eq!(copy.poll_interval, options.poll_interval);
}

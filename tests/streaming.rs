use desktop_companion::control::{wait_for_file, HeartbeatTimer, LoopAction, LoopEvent, WaitStep};
use desktop_companion::retry::{AttemptOutcome, ReportError, RetryAction, RetryPolicy};
use desktop_companion::session::{
    decimal_text, external_id_at, final_status_of, forward_raw_logs, BuildIdentity, ReportEvent, Session,
};
use desktop_companion::status::BuildStatus;
use desktop_companion::tail::{initial_position, open_reader, read_new_content};

fn identity() -> BuildIdentity {
    BuildIdentity {
        project_slug: "proj".to_string(),
        project_name: Some("Project".to_string()),
        repository_url: None,
        ci_provider: None,
        branch: Some("main".to_string()),
        commit_sha: None,
        logs_url: None,
        build_number: Some(7),
        external_id: None,
        build_id: None,
    }
}

fn response(status: u16) -> AttemptOutcome {
    AttemptOutcome::Response { status, body: format!("body {}", status) }
}

#[test]
fn status_names() {
    assert_eq!(BuildStatus::Queued.as_str(), "queued");
    assert_eq!(BuildStatus::Running.as_str(), "running");
    assert_eq!(BuildStatus::Succeeded.as_str(), "succeeded");
    assert_eq!(BuildStatus::Failed.as_str(), "failed");
    assert_eq!(BuildStatus::Cancelled.as_str(), "cancelled");
    assert_eq!(BuildStatus::Unknown.as_str(), "unknown");
}

#[test]
fn cursor_beyond_file_restarts_at_zero() {
    let mut position: u64 = 500;
    assert_eq!(open_reader(&mut position, 120), 0);
    assert_eq!(position, 0);
}

#[test]
fn cursor_within_file_is_kept() {
    let mut position: u64 = 100;
    assert_eq!(open_reader(&mut position, 120), 100);
    assert_eq!(position, 100);
}

#[test]
fn read_advances_cursor_by_bytes_read() {
    let mut position: u64 = 10;
    let text = read_new_content(&mut position, 5, "abcd\n".to_string());
    assert_eq!(text, Some("abcd\n".to_string()));
    assert_eq!(position, 15);
    assert_eq!(read_new_content(&mut position, 0, String::new()), None);
    assert_eq!(position, 15);
}

#[test]
fn start_position_follows_policy() {
    assert_eq!(initial_position(true, Some(42)), 0);
    assert_eq!(initial_position(false, Some(42)), 42);
    assert_eq!(initial_position(false, None), 0);
}

#[test]
fn server_errors_are_retried_with_doubling_delay() {
    let mut policy = RetryPolicy::new(3, 500);
    assert!(matches!(policy.on_outcome(response(503)), RetryAction::RetryAfter(500)));
    assert!(matches!(policy.on_outcome(response(503)), RetryAction::RetryAfter(1000)));
    assert!(matches!(policy.on_outcome(response(200)), RetryAction::Delivered));
    assert_eq!(policy.attempts, 3);
}

#[test]
fn client_error_fails_at_once() {
    let mut policy = RetryPolicy::new(2, 500);
    match policy.on_outcome(response(400)) {
        RetryAction::Fail(ReportError::Rejected { status, body }) => {
            assert_eq!(status, 400);
            assert_eq!(body, "body 400");
        }
        other => panic!("unexpected {:?}", other),
    }
    assert_eq!(policy.attempts, 1);
}

#[test]
fn network_errors_exhaust_attempts() {
    let mut policy = RetryPolicy::new(2, 50);
    let err = || AttemptOutcome::NetworkError { reason: "refused".to_string() };
    assert!(matches!(policy.on_outcome(err()), RetryAction::RetryAfter(100)));
    match policy.on_outcome(err()) {
        RetryAction::Fail(ReportError::Unreachable { reason }) => assert_eq!(reason, "refused"),
        other => panic!("unexpected {:?}", other),
    }
}

#[test]
fn server_error_on_last_attempt_is_rejected() {
    let mut policy = RetryPolicy::new(0, 500);
    assert_eq!(policy.max_attempts, 1);
    assert!(matches!(
        policy.on_outcome(response(502)),
        RetryAction::Fail(ReportError::Rejected { status: 502, .. })
    ));
}

#[test]
fn external_id_prefers_given_then_build_id_then_fallback() {
    let mut id = identity();
    assert_eq!(external_id_at(&id, 1700000000), "proj-1700000000");
    assert_eq!(external_id_at(&id, -5), "proj--5");
    id.build_id = Some("b-9".to_string());
    assert_eq!(external_id_at(&id, 1700000000), "b-9");
    id.external_id = Some("wf-1".to_string());
    assert_eq!(external_id_at(&id, 1700000000), "wf-1");
}

#[test]
fn every_report_of_a_run_has_the_same_id() {
    let session = Session::start(identity());
    let id = session.external_id();
    let mut index: u64 = 0;
    let mut reports = vec![session.started_report(BuildStatus::Running)];
    for chunk in forward_raw_logs("a\nb\n", 8192) {
        reports.push(session.next_chunk_report(chunk, &mut index));
    }
    reports.push(session.heartbeat_report());
    reports.push(session.stop_report(None, index));
    for r in &reports {
        assert_eq!(r.external_id, id);
    }
    assert!(id.starts_with("proj-"));
}

#[test]
fn appended_lines_make_one_chunk_report() {
    let session = Session::started_at(identity(), 1);
    let mut index: u64 = 0;
    let chunks = forward_raw_logs("build started\nstep 1 ok\n", 8192);
    let reports: Vec<_> =
        chunks.into_iter().map(|c| session.next_chunk_report(c, &mut index)).collect();
    assert_eq!(reports.len(), 1);
    let r = &reports[0];
    assert_eq!(r.status, BuildStatus::Running);
    assert_eq!(r.message.as_deref(), Some("step 1 ok"));
    assert_eq!(r.metadata.event, ReportEvent::LogChunk);
    assert_eq!(r.metadata.log_lines, Some(2));
    assert_eq!(r.metadata.chunk_index, Some(1));
    assert_eq!(r.metadata.log_chunk.as_deref(), Some("build started\nstep 1 ok"));
    assert_eq!(r.metadata.chunk_bytes, Some(23));
    assert_eq!(index, 1);
}

#[test]
fn chunk_indices_continue_across_reads() {
    let session = Session::started_at(identity(), 1);
    let mut index: u64 = 4;
    let chunks = forward_raw_logs("aaaa\nbbbb\ncc\n", 4);
    let reports: Vec<_> =
        chunks.into_iter().map(|c| session.next_chunk_report(c, &mut index)).collect();
    let indices: Vec<Option<u64>> = reports.iter().map(|r| r.metadata.chunk_index).collect();
    assert_eq!(indices, vec![Some(5), Some(6), Some(7)]);
    assert_eq!(index, 7);
    assert!(forward_raw_logs("", 4).is_empty());
    assert_eq!(index, 7);
    assert_eq!(reports[2].metadata.log_chunk.as_deref(), Some("cc"));
}

#[test]
fn stop_report_defaults_to_cancelled() {
    let session = Session::started_at(identity(), 1);
    let r = session.stop_report_at(None, 3, "t".to_string());
    assert_eq!(r.status, BuildStatus::Cancelled);
    assert_eq!(r.metadata.event, ReportEvent::Stopped);
    assert_eq!(r.metadata.chunk_index, Some(3));
    assert_eq!(r.message.as_deref(), Some("Build watcher stopped"));
    assert_eq!(final_status_of(Some(BuildStatus::Succeeded)), BuildStatus::Succeeded);
    let started = session.started_report_at(BuildStatus::Queued, "t".to_string());
    assert_eq!(started.status, BuildStatus::Queued);
    assert_eq!(started.message.as_deref(), Some("Build watcher initialized"));
    assert_eq!(started.identity.branch.as_deref(), Some("main"));
}

#[test]
fn one_heartbeat_per_idle_interval() {
    let mut timer = HeartbeatTimer::new(1000, 0);
    let mut heartbeats = Vec::new();
    for step in 1..=10u64 {
        let now = step * 500;
        if timer.on_event(LoopEvent::Timeout, now) == LoopAction::Heartbeat {
            heartbeats.push(now);
            timer.touch(now);
        }
    }
    assert_eq!(heartbeats, vec![1000, 2000, 3000, 4000, 5000]);
    let session = Session::started_at(identity(), 1);
    let r = session.heartbeat_report();
    assert_eq!(r.metadata.event, ReportEvent::Heartbeat);
    assert_eq!(r.message.as_deref(), Some("Heartbeat"));
    assert!(r.metadata.log_chunk.is_none());
    assert_eq!(r.status, BuildStatus::Running);
}

#[test]
fn log_change_resets_idle_time() {
    let mut timer = HeartbeatTimer::new(1000, 0);
    assert_eq!(timer.on_event(LoopEvent::FileChanged { touches_log: true }, 900), LoopAction::Tail);
    assert_eq!(timer.last_activity_ms, 0);
    timer.touch(950);
    assert_eq!(timer.on_event(LoopEvent::Timeout, 1500), LoopAction::Continue);
    assert_eq!(
        timer.on_event(LoopEvent::FileChanged { touches_log: false }, 1800),
        LoopAction::Continue
    );
    assert_eq!(timer.on_event(LoopEvent::Timeout, 1900), LoopAction::Continue);
    assert_eq!(timer.on_event(LoopEvent::Timeout, 1950), LoopAction::Heartbeat);
    assert_eq!(timer.on_event(LoopEvent::Disconnected, 2000), LoopAction::Exit);
}

#[test]
fn shutdown_while_waiting_means_file_unavailable() {
    assert_eq!(wait_for_file(true, false), WaitStep::FileUnavailable);
    assert_eq!(wait_for_file(true, true), WaitStep::FileUnavailable);
    assert_eq!(wait_for_file(false, false), WaitStep::PollAgain);
    assert_eq!(wait_for_file(false, true), WaitStep::Ready);
}

#[test]
fn decimal_text_matches_display() {
    for n in [0i64, 7, 10, 1700000000, -1, -42, i64::MAX, i64::MIN] {
        assert_eq!(decimal_text(n), n.to_string());
    }
    assert_eq!(external_id_at(&identity(), 0), "proj-0");
}

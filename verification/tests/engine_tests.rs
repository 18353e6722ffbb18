use cc_downloader::config::{naming_mode_of, NamingMode};
use cc_downloader::error::DownloadError;
use cc_downloader::progress::ProgressAggregator;
use cc_downloader::retry::{
    attempt_decision, backoff_delay_ms, declared_size, default_retry_policy, is_success_status,
    is_transient_status, AttemptClass, NextAction, RetryPolicy,
};
use cc_downloader::scheduler::{prepare_run, Scheduler};

fn policy(jitter_permille: u64, max_attempts: u64) -> RetryPolicy {
    RetryPolicy {
        min_delay_ms: 1000,
        max_delay_ms: 3_600_000,
        base: 2,
        jitter_permille,
        max_attempts,
    }
}

#[test]
fn naming_mode_selection() {
    assert!(matches!(naming_mode_of(false, false), Ok(NamingMode::FullPath)));
    assert!(matches!(naming_mode_of(true, false), Ok(NamingMode::Numbered)));
    assert!(matches!(naming_mode_of(false, true), Ok(NamingMode::FilesOnly)));
    assert!(matches!(
        naming_mode_of(true, true),
        Err(DownloadError::Configuration(_))
    ));
}

#[test]
fn conflicting_modes_fail_before_any_dispatch() {
    let err = prepare_run(3, 4, true, true).unwrap_err();
    assert!(matches!(err, DownloadError::Configuration(_)));
    assert!(err.is_fatal());
}

#[test]
fn zero_concurrency_is_a_configuration_error() {
    let err = prepare_run(3, 0, false, false).unwrap_err();
    assert!(matches!(err, DownloadError::Configuration(_)));
    let err = Scheduler::new(3, 0).unwrap_err();
    assert!(matches!(err, DownloadError::Configuration(_)));
}

#[test]
fn prepare_run_accepts_consistent_config() {
    let (mode, s) = prepare_run(5, 2, true, false).unwrap();
    assert!(matches!(mode, NamingMode::Numbered));
    assert_eq!(s.limit, 2);
    assert_eq!(s.next, 0);
    assert_eq!(s.in_flight, 0);
    assert_eq!(s.completed, 0);
    assert_eq!(s.outcomes.len(), 5);
}

#[test]
fn default_policy_matches_operator_interface() {
    let p = default_retry_policy(1000);
    assert_eq!(p.min_delay_ms, 1000);
    assert_eq!(p.max_delay_ms, 3_600_000);
    assert_eq!(p.base, 2);
    assert_eq!(p.jitter_permille, 500);
    assert_eq!(p.max_attempts, 1000);
}

#[test]
fn backoff_doubles_then_clamps() {
    let p = policy(0, 10);
    assert_eq!(backoff_delay_ms(&p, 1, 0), 1000);
    assert_eq!(backoff_delay_ms(&p, 2, 0), 2000);
    assert_eq!(backoff_delay_ms(&p, 3, 0), 4000);
    assert_eq!(backoff_delay_ms(&p, 12, 0), 2_048_000);
    assert_eq!(backoff_delay_ms(&p, 13, 0), 3_600_000);
    assert_eq!(backoff_delay_ms(&p, 40, 0), 3_600_000);
}

#[test]
fn backoff_jitter_stays_in_band() {
    let p = policy(500, 10);
    for attempt in 1..6u64 {
        let nominal = backoff_delay_ms(&policy(0, 10), attempt, 0);
        let lo = nominal * 500 / 1000;
        let hi = nominal * 1500 / 1000;
        for draw in [0u64, 250, 500, 750, 1000] {
            let d = backoff_delay_ms(&p, attempt, draw);
            assert!(lo <= d && d <= hi);
        }
        assert_eq!(backoff_delay_ms(&p, attempt, 500), nominal);
        assert_eq!(backoff_delay_ms(&p, attempt, 0), lo);
        assert_eq!(backoff_delay_ms(&p, attempt, 1000), hi);
    }
}

#[test]
fn attempt_decisions() {
    let p = policy(0, 3);
    assert!(matches!(
        attempt_decision(&p, 1, AttemptClass::Success, 0),
        NextAction::Proceed
    ));
    assert!(matches!(
        attempt_decision(&p, 1, AttemptClass::Permanent(404), 0),
        NextAction::Fail(DownloadError::FetchStatus(404))
    ));
    match attempt_decision(&p, 2, AttemptClass::Transient("timeout".to_string()), 0) {
        NextAction::RetryAfter(d) => assert_eq!(d, 2000),
        _ => panic!("expected a retry"),
    }
    match attempt_decision(&p, 4, AttemptClass::Transient("timeout".to_string()), 0) {
        NextAction::Fail(DownloadError::FetchExhausted { attempts, last }) => {
            assert_eq!(attempts, 4);
            assert_eq!(last, "timeout");
        }
        _ => panic!("expected exhaustion"),
    }
}

#[test]
fn status_classification() {
    assert!(is_transient_status(500));
    assert!(is_transient_status(503));
    assert!(is_transient_status(599));
    assert!(is_transient_status(408));
    assert!(is_transient_status(429));
    assert!(!is_transient_status(404));
    assert!(!is_transient_status(200));
    assert!(!is_transient_status(301));
    assert!(is_success_status(200));
    assert!(is_success_status(204));
    assert!(!is_success_status(404));
    assert!(!is_success_status(199));
    assert!(!is_success_status(300));
}

#[test]
fn declared_size_parses_header() {
    assert_eq!(declared_size(None), 0);
    assert_eq!(declared_size(Some("123")), 123);
    assert_eq!(declared_size(Some("0")), 0);
    assert_eq!(declared_size(Some("junk")), 0);
    assert_eq!(declared_size(Some("")), 0);
    assert_eq!(declared_size(Some("18446744073709551616")), 0);
    assert_eq!(declared_size(Some("18446744073709551615")), u64::MAX);
}

#[test]
fn progress_tracks_one_task() {
    let mut p = ProgressAggregator::new(2);
    assert_eq!(p.overall_snapshot(), (0, 2));
    p.task_started(0, 100);
    p.task_progressed(0, 60);
    p.task_progressed(0, 40);
    assert_eq!(p.task_snapshot(0), Some((100, 100)));
    assert_eq!(p.task_snapshot(1), None);
    p.task_finished(0);
    assert_eq!(p.overall_snapshot(), (1, 2));
}

#[test]
fn progress_with_no_declared_size_still_completes() {
    let mut p = ProgressAggregator::new(1);
    p.task_started(0, declared_size(None));
    assert_eq!(p.task_snapshot(0), Some((0, 0)));
    p.task_progressed(0, 512);
    p.task_finished(0);
    assert_eq!(p.overall_snapshot(), (1, 1));
    assert_eq!(p.task_snapshot(0), Some((512, 0)));
}

#[test]
fn progress_byte_counter_saturates() {
    let mut p = ProgressAggregator::new(1);
    p.task_started(0, 0);
    p.task_progressed(0, u64::MAX);
    p.task_progressed(0, 10);
    assert_eq!(p.task_snapshot(0), Some((u64::MAX, 0)));
}

#[test]
fn scheduler_never_exceeds_limit() {
    let mut s = Scheduler::new(3, 1).unwrap();
    assert!(s.can_dispatch());
    let first = s.dispatch();
    assert_eq!(first, 0);
    assert_eq!(s.in_flight, 1);
    assert!(!s.can_dispatch());
    s.record(first, Ok(10));
    assert!(s.can_dispatch());
    let second = s.dispatch();
    assert_eq!(second, 1);
    assert!(!s.can_dispatch());
    s.record(second, Ok(11));
    let third = s.dispatch();
    assert_eq!(third, 2);
    assert!(s.in_flight <= s.limit);
    s.record(third, Ok(12));
    assert!(s.is_finished());
    let summary = s.summary();
    assert_eq!(summary.succeeded, 3);
    assert_eq!(summary.failed, 0);
    assert!(summary.failures.is_empty());
}

#[test]
fn one_task_failing_every_attempt_is_summarised() {
    let mut s = Scheduler::new(1, 10).unwrap();
    let ordinal = s.dispatch();
    s.record(
        ordinal,
        Err(DownloadError::FetchExhausted {
            attempts: 11,
            last: "connection refused".to_string(),
        }),
    );
    assert!(s.is_finished());
    let summary = s.summary();
    assert_eq!(summary.succeeded, 0);
    assert_eq!(summary.failed, 1);
    assert_eq!(summary.failures.len(), 1);
    assert_eq!(summary.failures[0].ordinal, 0);
    assert!(matches!(
        summary.failures[0].error,
        DownloadError::FetchExhausted { attempts: 11, .. }
    ));
}

fn outcome_for(o: usize) -> Result<u64, DownloadError> {
    match o {
        0 => Ok(5),
        1 => Err(DownloadError::SinkIo("disk full".to_string())),
        2 => Ok(7),
        _ => Err(DownloadError::FetchStatus(410)),
    }
}

#[test]
fn summary_is_independent_of_concurrency_and_completion_order() {
    // Serial run: one slot, dispatch and record strictly in order.
    let mut serial = Scheduler::new(4, 1).unwrap();
    for _ in 0..4 {
        let o = serial.dispatch();
        serial.record(o, outcome_for(o));
    }

    // Wide run: ten slots, everything in flight at once, recorded backwards.
    let mut wide = Scheduler::new(4, 10).unwrap();
    let mut dispatched = Vec::new();
    for _ in 0..4 {
        dispatched.push(wide.dispatch());
    }
    for &o in dispatched.iter().rev() {
        wide.record(o, outcome_for(o));
    }

    let a = serial.summary();
    let b = wide.summary();
    assert_eq!(a.succeeded, b.succeeded);
    assert_eq!(a.failed, b.failed);
    assert_eq!(a.failures.len(), b.failures.len());
    for (fa, fb) in a.failures.iter().zip(b.failures.iter()) {
        assert_eq!(fa.ordinal, fb.ordinal);
        assert_eq!(fa.error.describe(), fb.error.describe());
    }
    assert_eq!(a.failures[0].ordinal, 1);
    assert_eq!(a.failures[1].ordinal, 3);
}

#[test]
fn error_descriptions() {
    assert_eq!(
        DownloadError::FetchStatus(404).describe(),
        "permanent response status 404"
    );
    assert_eq!(
        DownloadError::Configuration("bad flags".to_string()).describe(),
        "configuration error: bad flags"
    );
    assert_eq!(
        DownloadError::FetchExhausted {
            attempts: 3,
            last: "timeout".to_string()
        }
        .describe(),
        "retries exhausted after 3 attempts: timeout"
    );
    assert_eq!(
        DownloadError::SinkIo("disk full".to_string()).describe(),
        "sink error: disk full"
    );
    assert_eq!(
        DownloadError::UrlParse("bogus".to_string()).describe(),
        "invalid locator: bogus"
    );
    assert_eq!(
        DownloadError::ManifestDecode("truncated".to_string()).describe(),
        "manifest decode error: truncated"
    );
    assert!(DownloadError::Configuration(String::new()).is_fatal());
    assert!(DownloadError::ManifestDecode(String::new()).is_fatal());
    assert!(!DownloadError::FetchStatus(500).is_fatal());
    assert!(!DownloadError::SinkIo(String::new()).is_fatal());
}

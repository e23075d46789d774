use fingerprunk::{StatusEnabled, run_on_outcomes, status_snapshot};

#[test]
fn never_matching_run_never_stops() {
    // Scenario: a pattern that can never match, quota 1. The run keeps
    // trying, finds nothing, and never stops on its own.
    let outcomes = vec![false; 1000];
    let stats = run_on_outcomes(&outcomes, Some(1));
    assert_eq!(stats.tried, 1000);
    assert_eq!(stats.found, 0);
    assert!(!stats.stopped);
}

#[test]
fn trivial_pattern_quota_three_stops_at_three() {
    // Scenario: every attempt matches, quota 3. The run stops after
    // exactly 3 artifacts, and tried >= 3.
    let outcomes = vec![true; 5];
    let stats = run_on_outcomes(&outcomes, Some(3));
    assert_eq!(stats.found, 3);
    assert!(stats.stopped);
    assert_eq!(stats.tried, 3);
    assert!(stats.tried >= 3);
}

#[test]
fn mixed_outcomes_quota_discards_in_flight() {
    // Matches at positions 2, 4, 5 and 6; the third match stops the run,
    // and the outcome already in flight after it is discarded.
    let outcomes = vec![false, true, false, true, true, true];
    let stats = run_on_outcomes(&outcomes, Some(3));
    assert_eq!(stats.found, 3);
    assert!(stats.stopped);
    assert_eq!(stats.tried, 5);
}

#[test]
fn unbounded_run_counts_every_match() {
    let outcomes = vec![true, false, true];
    let stats = run_on_outcomes(&outcomes, None);
    assert_eq!(stats.tried, 3);
    assert_eq!(stats.found, 2);
    assert!(!stats.stopped);
}

#[test]
fn quota_above_matches_keeps_running() {
    let outcomes = vec![true, false];
    let stats = run_on_outcomes(&outcomes, Some(5));
    assert_eq!(stats.found, 1);
    assert_eq!(stats.tried, 2);
    assert!(!stats.stopped);
}

#[test]
fn empty_outcomes_leave_initial_state() {
    let outcomes: Vec<bool> = Vec::new();
    let stats = run_on_outcomes(&outcomes, Some(1));
    assert_eq!(stats.tried, 0);
    assert_eq!(stats.found, 0);
    assert!(!stats.stopped);
}

#[test]
fn snapshot_decomposes_elapsed_time() {
    // 1 day, 1 hour, 1 minute, 1 second.
    let s = status_snapshot(86400 + 3600 + 60 + 1, 42, 7);
    assert_eq!(s.days, 1);
    assert_eq!(s.hours, 1);
    assert_eq!(s.minutes, 1);
    assert_eq!(s.seconds, 1);
    assert_eq!(s.tried, 42);
    assert_eq!(s.found, 7);
}

#[test]
fn snapshot_of_zero_elapsed() {
    let s = status_snapshot(0, 0, 0);
    assert_eq!((s.days, s.hours, s.minutes, s.seconds), (0, 0, 0, 0));
}

#[test]
fn snapshot_just_before_midnight() {
    let s = status_snapshot(86399, 1, 0);
    assert_eq!((s.days, s.hours, s.minutes, s.seconds), (0, 23, 59, 59));
}

#[test]
fn status_evaluate_truth_table() {
    for stderr_tty in [false, true] {
        for stdout_tty in [false, true] {
            assert!(StatusEnabled::Always.evaluate(stderr_tty, stdout_tty));
            assert!(!StatusEnabled::Never.evaluate(stderr_tty, stdout_tty));
            assert_eq!(
                StatusEnabled::Auto.evaluate(stderr_tty, stdout_tty),
                stderr_tty && !stdout_tty
            );
        }
    }
    assert_eq!(StatusEnabled::default(), StatusEnabled::Auto);
}

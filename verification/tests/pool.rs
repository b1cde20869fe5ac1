use race_pool::artifacts::{count_artifacts, is_artifact, name_has_extension};
use race_pool::config::{
    baseline_from_probe, effective_worker_count, plan_pool, ConfigError, PoolConfig,
};
use race_pool::generator::{generator_args, stdin_handshake};
use race_pool::monitor::{run_reports, MonitorDecision, MonitorState};
use race_pool::token::CancellationToken;
use race_pool::worker::{decide, WorkerAction, WorkerEvent};

#[test]
fn report_above_baseline_signals_cancellation() {
    // Baseline 5; a report of 6 is the success condition, and the monitor's
    // state is left as it was when it stops.
    let mut monitor = MonitorState::new(5);
    let decision = monitor.process_report(6);
    assert_eq!(decision, MonitorDecision::Success);
    assert_eq!(monitor.tracked_max, 5);

    // A later report of 4 is never consumed by a live monitor: the run over
    // the whole sequence already stops at position 0.
    assert_eq!(run_reports(5, &vec![6, 4]), Some(0));
}

#[test]
fn equal_then_lower_then_higher_reports() {
    // Baseline 10; reports 10, 9, 11: no success on the first two, success
    // exactly on the third.
    let mut monitor = MonitorState::new(10);
    assert_eq!(monitor.process_report(10), MonitorDecision::Continue);
    assert_eq!(monitor.tracked_max, 10);
    assert_eq!(monitor.process_report(9), MonitorDecision::Continue);
    assert_eq!(monitor.tracked_max, 9);
    assert_eq!(monitor.process_report(11), MonitorDecision::Success);

    assert_eq!(run_reports(10, &vec![10, 9, 11]), Some(2));
}

#[test]
fn lowering_never_triggers_success() {
    let mut monitor = MonitorState::new(7);
    assert_eq!(monitor.process_report(3), MonitorDecision::Continue);
    assert_eq!(monitor.tracked_max, 3);
    // A report back at the old baseline is now an increase past the lowered
    // maximum.
    assert_eq!(monitor.process_report(7), MonitorDecision::Success);
}

#[test]
fn no_success_without_an_increase() {
    assert_eq!(run_reports(5, &vec![5, 4, 3, 3, 2]), None);
    assert_eq!(run_reports(0, &vec![]), None);
    assert_eq!(run_reports(0, &vec![0, 0]), None);
}

#[test]
fn ever_increasing_counter_wins_immediately() {
    // A mock counter that only climbs: the first report already exceeds the
    // baseline, so the pool reaches success after one consumed report.
    let baseline = 3;
    let reports: Vec<usize> = (4..100).collect();
    assert_eq!(run_reports(baseline, &reports), Some(0));
}

#[test]
fn spawn_failures_only_retry() {
    // A worker whose spawns always fail retries forever without stopping the
    // pool: no event in its life maps to Stop or to a report.
    for _ in 0..1000 {
        let action = decide(WorkerEvent::SpawnFailed);
        assert_eq!(action, WorkerAction::Retry { terminate_child: false });
    }
    // Another worker can still win and cancel the pool.
    assert_eq!(run_reports(5, &vec![6]), Some(0));
}

#[test]
fn worker_decisions() {
    assert_eq!(decide(WorkerEvent::Cancelled), WorkerAction::Stop);
    assert_eq!(
        decide(WorkerEvent::OutputUnavailable),
        WorkerAction::Retry { terminate_child: true }
    );
    assert_eq!(
        decide(WorkerEvent::CountFailed),
        WorkerAction::Retry { terminate_child: true }
    );
    assert_eq!(
        decide(WorkerEvent::Counted(42)),
        WorkerAction::Report { observed_count: 42 }
    );
}

#[test]
fn cancellation_is_idempotent() {
    let mut token = CancellationToken::new();
    assert!(!token.is_cancelled());
    token.cancel();
    assert!(token.is_cancelled());
    // A second and third request (a race between two qualifying reports)
    // change nothing and crash nothing.
    token.cancel();
    token.cancel();
    assert!(token.is_cancelled());
}

#[test]
fn artifact_names_follow_extension_rules() {
    assert!(is_artifact(&b"world.zip".to_vec()));
    assert!(is_artifact(&b"a.b.zip".to_vec()));
    assert!(is_artifact(&b".hidden.zip".to_vec()));
    // A leading-dot name with no other dot has no extension.
    assert!(!is_artifact(&b".zip".to_vec()));
    // No dot, wrong extension, or an empty extension.
    assert!(!is_artifact(&b"zip".to_vec()));
    assert!(!is_artifact(&b"world.zip.part".to_vec()));
    assert!(!is_artifact(&b"world.".to_vec()));
    assert!(!is_artifact(&b"".to_vec()));

    // The general form against another extension.
    assert!(name_has_extension(&b"notes.txt".to_vec(), &b"txt".to_vec()));
    assert!(name_has_extension(&b"tar.".to_vec(), &b"".to_vec()));
    assert!(!name_has_extension(&b"notes.txt".to_vec(), &b"zip".to_vec()));
}

#[test]
fn counting_is_exact() {
    let names: Vec<Vec<u8>> = vec![
        b"one.zip".to_vec(),
        b"two.txt".to_vec(),
        b"three.zip".to_vec(),
        b".zip".to_vec(),
        b"four.zip".to_vec(),
    ];
    assert_eq!(count_artifacts(&names), 3);
    assert_eq!(count_artifacts(&Vec::new()), 0);
}

#[test]
fn generator_arguments_render_as_flags() {
    let options = vec!["spoiler".to_string(), "race".to_string()];
    let args = generator_args(&options);
    assert_eq!(args, vec!["Generate", "--spoiler", "--race"]);

    let no_options = generator_args(&Vec::new());
    assert_eq!(no_options, vec!["Generate"]);
}

#[test]
fn stdin_handshake_is_one_newline() {
    assert_eq!(stdin_handshake(), vec![b'\n']);
}

#[test]
fn configuration_requires_a_worker() {
    let err = PoolConfig::new(0, String::new(), String::new(), Vec::new());
    assert_eq!(err.err(), Some(ConfigError::NoWorkers));

    let config = PoolConfig::new(
        4,
        "/tmp/output".to_string(),
        "generator".to_string(),
        vec!["race".to_string()],
    )
    .unwrap();
    assert_eq!(config.worker_count, 4);
    assert_eq!(config.target_directory, "/tmp/output");
    assert_eq!(config.command, "generator");
    assert_eq!(config.passthrough_options, vec!["race".to_string()]);
}

#[test]
fn worker_count_defaults() {
    assert_eq!(effective_worker_count(None), 4);
    assert_eq!(effective_worker_count(Some(7)), 7);
    assert_eq!(effective_worker_count(Some(0)), 1);
    assert_eq!(effective_worker_count(Some(255)), 255);
}

#[test]
fn plan_wires_baseline_and_capacity() {
    let config = PoolConfig::new(4, String::new(), String::new(), Vec::new()).unwrap();
    let plan = plan_pool(&config, Some(17));
    assert_eq!(plan.worker_count, 4);
    assert_eq!(plan.baseline, 17);
    assert_eq!(plan.channel_capacity, 16);

    // A failed probe is a best-effort baseline of zero; the pool still runs.
    let plan = plan_pool(&config, None);
    assert_eq!(plan.baseline, 0);

    assert_eq!(baseline_from_probe(Some(9)), 9);
    assert_eq!(baseline_from_probe(None), 0);
}

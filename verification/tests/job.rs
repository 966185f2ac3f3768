use engine_orchestrator::catalog::EngineId;
use engine_orchestrator::finding::EngineFinding;
use engine_orchestrator::job::{elapsed, EngineJob, JobStatus};
use engine_orchestrator::mock::placeholder_findings;

fn two_engine_job() -> EngineJob {
    EngineJob::new(
        "test-job".to_string(),
        "test-case".to_string(),
        vec!["doc1".to_string()],
        vec![EngineId::Contradiction, EngineId::Omission],
    )
}

fn findings(engine: EngineId, count: usize) -> Vec<EngineFinding> {
    let mut all = Vec::new();
    for k in 0..count {
        all.extend(placeholder_findings(engine, &["doc1".to_string()], format!("f{k}")));
    }
    all
}

#[test]
fn test_job_status_transitions() {
    let mut job = two_engine_job();
    assert_eq!(job.status(), JobStatus::Pending);

    // Start job
    job.start();
    assert_eq!(job.status(), JobStatus::Running);
    assert!(job.started_at().is_some());

    // Complete job
    job.complete();
    assert_eq!(job.status(), JobStatus::Completed);
    assert!(job.completed_at().is_some());
}

#[test]
fn test_job_progress_calculation() {
    let mut job = two_engine_job();
    job.start();

    // Initially no engines completed
    let progress = job.get_progress();
    assert_eq!(progress.completed_engines, 0);
    assert_eq!(progress.total_engines, 2);
    assert_eq!(progress.succeeded_engines, 0);
    assert_eq!(progress.failed_engines, 0);

    // Add successful result
    job.record_result(EngineId::Contradiction, Ok(vec![]));
    let progress = job.get_progress();
    assert_eq!(progress.completed_engines, 1);
    assert_eq!(progress.succeeded_engines, 1);

    // Add failed result
    job.record_result(EngineId::Omission, Err("Test error".to_string()));
    let progress = job.get_progress();
    assert_eq!(progress.completed_engines, 2);
    assert_eq!(progress.succeeded_engines, 1);
    assert_eq!(progress.failed_engines, 1);
}

#[test]
fn new_job_is_pending_without_timestamps_or_results() {
    let job = EngineJob::new_at(
        "j".to_string(),
        "c".to_string(),
        vec!["d1".to_string(), "d2".to_string()],
        vec![EngineId::Narrative],
        1_000,
    );
    assert_eq!(job.id(), "j");
    assert_eq!(job.case_id(), "c");
    assert_eq!(job.document_ids(), &vec!["d1".to_string(), "d2".to_string()]);
    assert_eq!(job.engines(), &vec![EngineId::Narrative]);
    assert_eq!(job.status(), JobStatus::Pending);
    assert_eq!(job.created_at(), 1_000);
    assert_eq!(job.started_at(), None);
    assert_eq!(job.completed_at(), None);
    assert!(job.results().is_empty());
    assert_eq!(job.total_findings(), 0);
}

#[test]
fn progress_of_a_pending_job_has_no_duration_and_no_current_engine() {
    let job = two_engine_job();
    let progress = job.progress_at(5_000);
    assert_eq!(progress.job_id, "test-job");
    assert_eq!(progress.case_id, "test-case");
    assert_eq!(progress.status, JobStatus::Pending);
    assert_eq!(progress.duration_ms, None);
    assert_eq!(progress.current_engine, None);
}

#[test]
fn running_job_reports_elapsed_time_and_current_engine() {
    let mut job = two_engine_job();
    job.start_at(10_000);
    let progress = job.progress_at(10_250);
    assert_eq!(progress.status, JobStatus::Running);
    assert_eq!(progress.duration_ms, Some(250));
    assert_eq!(progress.current_engine, Some("contradiction".to_string()));

    job.record_result(EngineId::Contradiction, Ok(vec![]));
    let progress = job.progress_at(10_400);
    assert_eq!(progress.duration_ms, Some(400));
    assert_eq!(progress.current_engine, Some("omission".to_string()));

    job.record_result(EngineId::Omission, Ok(vec![]));
    let progress = job.progress_at(10_500);
    assert_eq!(progress.current_engine, None);
}

#[test]
fn completed_job_reports_time_from_start_to_completion() {
    let mut job = two_engine_job();
    job.start_at(2_000);
    job.complete_at(5_500);
    let progress = job.progress_at(99_999);
    assert_eq!(progress.status, JobStatus::Completed);
    assert_eq!(progress.duration_ms, Some(3_500));
    assert_eq!(progress.current_engine, None);
}

#[test]
fn second_start_overwrites_the_start_time() {
    let mut job = two_engine_job();
    job.start_at(100);
    job.start_at(700);
    assert_eq!(job.started_at(), Some(700));
    assert_eq!(job.status(), JobStatus::Running);
}

#[test]
fn elapsed_is_the_difference_and_wraps_when_time_runs_backwards() {
    assert_eq!(elapsed(0, 0), 0);
    assert_eq!(elapsed(1_000, 1_250), 250);
    assert_eq!(elapsed(-5, 5), 10);
    assert_eq!(elapsed(10, 7), u64::MAX - 2);
    assert_eq!(elapsed(i64::MIN, i64::MAX), u64::MAX);
    assert_eq!(elapsed(i64::MAX, i64::MIN), 1);
}

#[test]
fn recording_twice_for_one_engine_keeps_the_last_outcome() {
    let mut job = two_engine_job();
    assert!(job.record_result(EngineId::Contradiction, Err("first".to_string())));
    assert!(job.record_result(EngineId::Contradiction, Ok(findings(EngineId::Contradiction, 2))));
    assert_eq!(job.results().len(), 1);
    let progress = job.progress_at(0);
    assert_eq!(progress.completed_engines, 1);
    assert_eq!(progress.succeeded_engines, 1);
    assert_eq!(progress.failed_engines, 0);
    match job.result_of(EngineId::Contradiction) {
        Some(Ok(found)) => assert_eq!(found.len(), 2),
        other => panic!("unexpected outcome: {other:?}"),
    }
}

#[test]
fn an_engine_outside_the_job_is_not_recorded() {
    let mut job = two_engine_job();
    assert!(!job.record_result(EngineId::Narrative, Ok(vec![])));
    assert!(job.results().is_empty());
    assert!(job.result_of(EngineId::Narrative).is_none());
    assert_eq!(job.progress_at(0).completed_engines, 0);
}

#[test]
fn outcomes_keep_the_order_of_their_first_recording() {
    let mut job = two_engine_job();
    job.record_result(EngineId::Omission, Ok(vec![]));
    job.record_result(EngineId::Contradiction, Err("x".to_string()));
    job.record_result(EngineId::Omission, Err("y".to_string()));
    let engines: Vec<EngineId> = job.results().iter().map(|o| o.engine).collect();
    assert_eq!(engines, vec![EngineId::Omission, EngineId::Contradiction]);
    assert_eq!(job.progress_at(0).failed_engines, 2);
}

#[test]
fn total_findings_counts_successful_outcomes_only() {
    let mut job = EngineJob::new_at(
        "j".to_string(),
        "c".to_string(),
        vec![],
        vec![EngineId::Contradiction, EngineId::Omission, EngineId::Narrative],
        0,
    );
    job.record_result(EngineId::Contradiction, Ok(findings(EngineId::Contradiction, 3)));
    job.record_result(EngineId::Omission, Err("broken".to_string()));
    job.record_result(EngineId::Narrative, Ok(findings(EngineId::Narrative, 2)));
    assert_eq!(job.total_findings(), 5);
}

#[test]
fn completed_never_exceeds_total_and_splits_into_succeeded_and_failed() {
    let mut job = EngineJob::new_at(
        "j".to_string(),
        "c".to_string(),
        vec![],
        vec![EngineId::Contradiction, EngineId::Contradiction, EngineId::Omission],
        0,
    );
    let attempts = [
        (EngineId::Contradiction, true),
        (EngineId::Contradiction, false),
        (EngineId::Omission, false),
        (EngineId::Memory, true),
        (EngineId::Omission, true),
    ];
    for (engine, ok) in attempts {
        let outcome = if ok { Ok(vec![]) } else { Err("e".to_string()) };
        job.record_result(engine, outcome);
        let progress = job.get_progress();
        assert!(progress.completed_engines <= progress.total_engines);
        assert_eq!(
            progress.succeeded_engines + progress.failed_engines,
            progress.completed_engines
        );
    }
    assert_eq!(job.progress_at(0).completed_engines, 2);
    assert_eq!(job.progress_at(0).total_engines, 3);
}

#[test]
fn cancel_works_once_for_pending_and_running_jobs_only() {
    let mut pending = two_engine_job();
    assert!(pending.cancel());
    assert_eq!(pending.status(), JobStatus::Cancelled);
    assert!(!pending.cancel());

    let mut running = two_engine_job();
    running.start_at(0);
    assert!(running.cancel());
    assert!(!running.cancel());

    let mut completed = two_engine_job();
    completed.start_at(0);
    completed.complete_at(1);
    assert!(!completed.cancel());
    assert_eq!(completed.status(), JobStatus::Completed);
}

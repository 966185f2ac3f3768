use engine_orchestrator::catalog::EngineId;
use engine_orchestrator::commands::{
    cancel_job, finding_id_or, get_job_progress, list_jobs, requested_engine, submit_analysis,
    RunEngineInput,
};
use engine_orchestrator::job::EngineJob;

fn input(engine: &str) -> RunEngineInput {
    RunEngineInput {
        case_id: "c1".to_string(),
        engine_id: engine.to_string(),
        document_ids: vec![],
        options: None,
    }
}

#[test]
fn requested_engine_is_resolved_or_reported_as_unknown() {
    assert_eq!(requested_engine(&input("omission")), Ok(EngineId::Omission));
    assert_eq!(requested_engine(&input("temporal")), Ok(EngineId::TemporalParser));
    assert_eq!(
        requested_engine(&input("bogus_engine")),
        Err("Unknown engine ID: bogus_engine".to_string())
    );
}

#[test]
fn submission_answer_wraps_identifier_or_reason() {
    let ok = submit_analysis(Ok("job-1".to_string()));
    assert!(ok.success);
    assert_eq!(ok.job_id, Some("job-1".to_string()));
    assert_eq!(ok.error, None);

    let refused = submit_analysis(Err("No valid engines specified".to_string()));
    assert!(!refused.success);
    assert_eq!(refused.job_id, None);
    assert_eq!(refused.error, Some("No valid engines specified".to_string()));
}

#[test]
fn progress_answer_wraps_snapshot_or_reports_a_missing_job() {
    let job = EngineJob::new_at("j".to_string(), "c".to_string(), vec![], vec![EngineId::Memory], 0);
    let found = get_job_progress(Some(job.progress_at(0)));
    assert!(found.success);
    assert_eq!(found.progress.unwrap().job_id, "j");
    assert_eq!(found.error, None);

    let missing = get_job_progress(None);
    assert!(!missing.success);
    assert!(missing.progress.is_none());
    assert_eq!(missing.error, Some("Job not found".to_string()));
}

#[test]
fn cancellation_answer_names_the_job_either_way() {
    let ok = cancel_job("job-1".to_string(), Ok(()));
    assert!(ok.success);
    assert_eq!(ok.job_id, Some("job-1".to_string()));
    assert_eq!(ok.error, None);

    let refused = cancel_job("job-1".to_string(), Err("Job is not running".to_string()));
    assert!(!refused.success);
    assert_eq!(refused.job_id, Some("job-1".to_string()));
    assert_eq!(refused.error, Some("Job is not running".to_string()));
}

#[test]
fn list_answer_always_succeeds() {
    let job = EngineJob::new_at("j".to_string(), "c".to_string(), vec![], vec![EngineId::Memory], 0);
    let answer = list_jobs(vec![job.progress_at(0), job.progress_at(1)]);
    assert!(answer.success);
    assert_eq!(answer.jobs.len(), 2);
    assert_eq!(answer.error, None);
    assert!(list_jobs(vec![]).jobs.is_empty());
}

#[test]
fn a_finding_without_identifier_gets_the_fresh_one() {
    assert_eq!(finding_id_or(String::new(), "fresh".to_string()), "fresh");
    assert_eq!(finding_id_or("own".to_string(), "fresh".to_string()), "own");
}

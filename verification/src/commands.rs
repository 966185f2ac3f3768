//! The answers of the caller-facing operations: each wraps the outcome of
//! an operation of the orchestrator in an envelope that tells success from
//! failure.

use crate::catalog::EngineId;
use crate::job::JobProgress;
use crate::text::concat2;
use vstd::prelude::*;
use vstd::string::StringExecFns;

verus! {

/// The request to run one engine.
#[derive(Debug)]
pub struct RunEngineInput {
    pub case_id: String,
    pub engine_id: String,
    pub document_ids: Vec<String>,
    pub options: Option<String>,
}

/// The answer to a submission and to a cancellation.
#[derive(Debug)]
pub struct SubmitAnalysisResult {
    pub success: bool,
    pub job_id: Option<String>,
    pub error: Option<String>,
}

/// The answer to a request for the progress of a job.
#[derive(Debug)]
pub struct JobProgressResult {
    pub success: bool,
    pub progress: Option<JobProgress>,
    pub error: Option<String>,
}

/// The answer to a request for the list of jobs.
#[derive(Debug)]
pub struct ListJobsResult {
    pub success: bool,
    pub jobs: Vec<JobProgress>,
    pub error: Option<String>,
}

/// The engine that a request to run one engine names; an unknown name is
/// reported with the name.
pub fn requested_engine(input: &RunEngineInput) -> (outcome: Result<EngineId, String>)
    ensures
        match outcome {
            Ok(engine) => EngineId::resolve(input.engine_id@) == Some(engine),
            Err(reason) => EngineId::resolve(input.engine_id@) is None && reason@
                == "Unknown engine ID: "@ + input.engine_id@,
        },
{
    match EngineId::from_str(input.engine_id.as_str()) {
        Some(engine) => Ok(engine),
        None => Err(concat2("Unknown engine ID: ", input.engine_id.as_str())),
    }
}

/// The answer to a submission: the job identifier, or the reason of the
/// refusal.
pub fn submit_analysis(outcome: Result<String, String>) -> (answer: SubmitAnalysisResult)
    ensures
        match outcome {
            Ok(job_id) => answer.success && answer.job_id == Some(job_id) && answer.error is None,
            Err(reason) => !answer.success && answer.job_id is None && answer.error == Some(
                reason,
            ),
        },
{
    match outcome {
        Ok(job_id) => SubmitAnalysisResult { success: true, job_id: Some(job_id), error: None },
        Err(reason) => SubmitAnalysisResult { success: false, job_id: None, error: Some(reason) },
    }
}

/// The answer to a request for the progress of a job: the snapshot, or the
/// report that there is no such job.
pub fn get_job_progress(progress: Option<JobProgress>) -> (answer: JobProgressResult)
    ensures
        match progress {
            Some(snapshot) => answer.success && answer.progress == Some(snapshot) && answer.error
                is None,
            None => {
                &&& !answer.success
                &&& answer.progress is None
                &&& answer.error matches Some(reason)
                &&& reason@ == "Job not found"@
            },
        },
{
    match progress {
        Some(snapshot) => JobProgressResult {
            success: true,
            progress: Some(snapshot),
            error: None,
        },
        None => JobProgressResult {
            success: false,
            progress: None,
            error: Some(String::from_str("Job not found")),
        },
    }
}

/// The answer to a cancellation: it names the job either way, and the reason
/// where the cancellation failed.
pub fn cancel_job(job_id: String, outcome: Result<(), String>) -> (answer: SubmitAnalysisResult)
    ensures
        answer.job_id == Some(job_id),
        match outcome {
            Ok(_) => answer.success && answer.error is None,
            Err(reason) => !answer.success && answer.error == Some(reason),
        },
{
    match outcome {
        Ok(_) => SubmitAnalysisResult { success: true, job_id: Some(job_id), error: None },
        Err(reason) => SubmitAnalysisResult {
            success: false,
            job_id: Some(job_id),
            error: Some(reason),
        },
    }
}

/// The answer to a request for the list of jobs.
pub fn list_jobs(jobs: Vec<JobProgress>) -> (answer: ListJobsResult)
    ensures
        answer.success,
        answer.jobs == jobs,
        answer.error is None,
{
    ListJobsResult { success: true, jobs, error: None }
}

/// The identifier under which a finding is saved: its own, or `fresh` where
/// it has none.
pub fn finding_id_or(id: String, fresh: String) -> (chosen: String)
    ensures
        chosen == if id@.len() == 0 {
            fresh
        } else {
            id
        },
{
    if id.as_str().is_empty() {
        fresh
    } else {
        id
    }
}

} // verus!

//! The orchestrator: the registry of jobs, the submission of requests, the
//! steps of a job's execution and the notifications they give rise to.
//!
//! Running an engine is outside work: a process is started and waited for.
//! The orchestrator therefore does not loop over the engines of a job itself.
//! It hands out the steps: [`EngineOrchestrator::start_job`] opens a run,
//! [`EngineOrchestrator::next_step`] says which engine is to run next or that
//! the run is over, and [`EngineOrchestrator::record_outcome`] takes what the
//! engine produced. Each step is short, so that whoever drives a run need not
//! hold the orchestrator while an engine works, and a cancellation is seen at
//! the next step.
//!
//! The status of a job changes in these ways only: a pending job is set
//! running when its run is opened, a running job is completed when no engine
//! is left, and a pending or running job is cancelled on request. A job that
//! is cancelled stays cancelled: opening its run does not set it running, and
//! its run stops at the next step, also when the cancellation arrived while
//! its last engine was at work. No step and no other operation ever sets the
//! status `Failed`: the failure of an engine is recorded as the outcome of
//! that engine, and the job goes on.
//!
//! A job is registered under an identifier that no other job has, and stays
//! registered as long as the orchestrator lives: no job is replaced.

use crate::catalog::EngineId;
use crate::events::{event_models, mock_mode_message, EventModel, OrchestratorEvent};
use crate::finding::{finding_models, EngineFinding, FindingModel};
use crate::job::{EngineJob, JobModel, JobProgress, JobStatus};
use crate::platform::{fresh_id, now_millis};
use crate::runner::{EngineResult, EngineRunner, Invocation, RunnerModel};
use crate::text::{clone_strings, str_eq, text_list};
use vstd::prelude::*;
use vstd::string::StringExecFns;

verus! {

/// A request for analysis: the case, its documents, the names of the engines
/// to run and, as JSON text, options for them.
#[derive(Debug)]
pub struct AnalysisRequest {
    pub case_id: String,
    pub document_ids: Vec<String>,
    pub engines: Vec<String>,
    pub options: Option<String>,
}

/// A request, as mathematical values.
pub struct RequestModel {
    pub case_id: Seq<char>,
    pub document_ids: Seq<Seq<char>>,
    pub engines: Seq<Seq<char>>,
    pub options: Option<Seq<char>>,
}

impl View for AnalysisRequest {
    type V = RequestModel;

    open spec fn view(&self) -> RequestModel {
        RequestModel {
            case_id: self.case_id@,
            document_ids: text_list(self.document_ids@),
            engines: text_list(self.engines@),
            options: match self.options {
                Some(text) => Some(text@),
                None => None,
            },
        }
    }
}

/// Tells the names that resolve to an engine.
pub open spec fn resolves() -> spec_fn(Seq<char>) -> bool {
    |name: Seq<char>| EngineId::resolve(name) is Some
}

/// The engine that a name resolves to.
pub open spec fn resolved() -> spec_fn(Seq<char>) -> EngineId {
    |name: Seq<char>| EngineId::resolve(name).unwrap()
}

/// The engines that a list of names resolves to: the names that resolve are
/// kept, in the order in which they stand, and each gives its engine; a name
/// that does not resolve is dropped.
pub open spec fn resolve_all(names: Seq<Seq<char>>) -> Seq<EngineId> {
    names.filter(resolves()).map_values(resolved())
}

/// Resolves a list of names, dropping those that do not resolve.
pub fn resolve_engines(names: &[String]) -> (engines: Vec<EngineId>)
    ensures
        engines@ == resolve_all(text_list(names@)),
{
    let ghost texts = text_list(names@);
    let mut engines: Vec<EngineId> = Vec::new();
    let mut i: usize = 0;
    proof {
        assert(texts.take(0) =~= Seq::empty());
        assert(texts.take(0).filter(resolves()) =~= Seq::empty()) by {
            texts.take(0).lemma_filter_len(resolves());
        }
    }
    while i < names.len()
        invariant
            i <= names.len(),
            texts == text_list(names@),
            engines@ == resolve_all(texts.take(i as int)),
        decreases names.len() - i,
    {
        proof {
            let front = texts.take(i as int);
            let name = texts[i as int];
            texts.lemma_take_succ_push(i as int);
            front.lemma_filter_push(name, resolves());
            front.filter(resolves()).lemma_push_map_commute(resolved(), name);
            assert(name == names@[i as int]@);
        }
        match EngineId::from_str(names[i].as_str()) {
            Some(engine) => {
                engines.push(engine);
            },
            None => {},
        }
        i += 1;
    }
    assert(texts.take(i as int) =~= texts);
    engines
}

/// The place of a run in the engine list of its job, and whether the job
/// has been warned about placeholder output.
#[derive(Debug)]
pub struct JobRun {
    pub job_id: String,
    pub position: usize,
    pub mock_mode_detected: bool,
}

/// A run, as mathematical values.
pub struct RunModel {
    pub job_id: Seq<char>,
    pub position: nat,
    pub mock_mode_detected: bool,
}

impl View for JobRun {
    type V = RunModel;

    open spec fn view(&self) -> RunModel {
        RunModel {
            job_id: self.job_id@,
            position: self.position as nat,
            mock_mode_detected: self.mock_mode_detected,
        }
    }
}

/// What is to happen next in a run.
#[derive(Debug)]
pub enum RunStep {
    /// This engine is to run on these documents; its outcome is then handed
    /// to [`EngineOrchestrator::record_outcome`].
    Invoke { engine_id: EngineId, case_id: String, document_ids: Vec<String> },
    /// The job is not running (it was cancelled, or has ended, or its run
    /// was never opened) or is not registered: the run ends here and the job
    /// is left as it is.
    Stopped,
    /// Every engine was attempted: the job is marked completed.
    Finished,
}

/// A step, as mathematical values.
pub enum StepModel {
    Invoke { engine_id: EngineId, case_id: Seq<char>, document_ids: Seq<Seq<char>> },
    Stopped,
    Finished,
}

impl View for RunStep {
    type V = StepModel;

    open spec fn view(&self) -> StepModel {
        match *self {
            RunStep::Invoke { engine_id, case_id, document_ids } => StepModel::Invoke {
                engine_id,
                case_id: case_id@,
                document_ids: text_list(document_ids@),
            },
            RunStep::Stopped => StepModel::Stopped,
            RunStep::Finished => StepModel::Finished,
        }
    }
}

/// What an engine run produced, as mathematical values.
pub struct EngineResultModel {
    pub findings: Seq<FindingModel>,
    pub used_mock_mode: bool,
}

/// The model of the outcome of an engine run.
pub open spec fn run_outcome_model(outcome: Result<EngineResult, String>) -> Result<
    EngineResultModel,
    Seq<char>,
> {
    match outcome {
        Ok(result) => Ok(
            EngineResultModel {
                findings: finding_models(result.findings@),
                used_mock_mode: result.used_mock_mode,
            },
        ),
        Err(reason) => Err(reason@),
    }
}

/// The model of the answer to a submission.
pub open spec fn text_result_model(answer: Result<String, String>) -> Result<Seq<char>, Seq<char>> {
    match answer {
        Ok(text) => Ok(text@),
        Err(reason) => Err(reason@),
    }
}

/// The model of the answer to a cancellation.
pub open spec fn unit_result_model(answer: Result<(), String>) -> Result<(), Seq<char>> {
    match answer {
        Ok(_) => Ok(()),
        Err(reason) => Err(reason@),
    }
}

/// Tells the jobs that were completed at least `max_age` milliseconds
/// before `now`.
pub open spec fn is_stale(max_age: int, now: int) -> spec_fn(JobModel) -> bool {
    |job: JobModel| job.completed_at matches Some(completed) && now - completed >= max_age
}

/// The identifier of a job.
pub open spec fn job_id_of() -> spec_fn(JobModel) -> Seq<char> {
    |job: JobModel| job.id
}

/// The models of a list of jobs, in order.
pub open spec fn job_models(items: Seq<EngineJob>) -> Seq<JobModel> {
    Seq::new(items.len(), |i: int| items[i]@)
}

/// The orchestrator, as mathematical values: the registered jobs in the
/// order of their registration, the settings of the runner, and the
/// notifications that have not been taken yet.
pub struct OrchestratorModel {
    pub jobs: Seq<JobModel>,
    pub runner: RunnerModel,
    pub events: Seq<EventModel>,
}

impl OrchestratorModel {
    /// The invariant of the registry: no two jobs share an identifier, and
    /// every job keeps its own invariant.
    pub open spec fn wf(self) -> bool {
        &&& forall|i: int, j: int|
            0 <= i < j < self.jobs.len() ==> self.jobs[i].id != self.jobs[j].id
        &&& forall|i: int| 0 <= i < self.jobs.len() ==> (#[trigger] self.jobs[i]).wf()
    }

    /// Whether a job is registered under `id`.
    pub open spec fn has_job(self, id: Seq<char>) -> bool {
        exists|i: int| 0 <= i < self.jobs.len() && self.jobs[i].id == id
    }

    /// The place of the job registered under `id`.
    pub open spec fn index_of(self, id: Seq<char>) -> int {
        choose|i: int| 0 <= i < self.jobs.len() && self.jobs[i].id == id
    }

    /// The job registered under `id`, if there is one.
    pub open spec fn job(self, id: Seq<char>) -> Option<JobModel> {
        if self.has_job(id) {
            Some(self.jobs[self.index_of(id)])
        } else {
            None
        }
    }

    /// The orchestrator with `job` registered: in place of the job that had
    /// its identifier, or after the others.
    pub open spec fn put(self, job: JobModel) -> OrchestratorModel {
        if self.has_job(job.id) {
            OrchestratorModel { jobs: self.jobs.update(self.index_of(job.id), job), ..self }
        } else {
            OrchestratorModel { jobs: self.jobs.push(job), ..self }
        }
    }

    /// The orchestrator with one more notification noted down.
    pub open spec fn emit(self, event: EventModel) -> OrchestratorModel {
        OrchestratorModel { events: self.events.push(event), ..self }
    }

    /// The answer to a submission under the identifier `id`: a refusal
    /// where no engine name resolves, a refusal where a job is registered
    /// under `id` already, and else `id`.
    pub open spec fn submit_answer(self, request: RequestModel, id: Seq<char>) -> Result<
        Seq<char>,
        Seq<char>,
    > {
        if resolve_all(request.engines).len() == 0 {
            Err("No valid engines specified"@)
        } else if self.has_job(id) {
            Err("Job identifier already in use"@)
        } else {
            Ok(id)
        }
    }

    /// The orchestrator after a submission under the identifier `id` at the
    /// time `now`: unchanged where the submission is refused, and else with
    /// a pending job for the engines that resolve, registered after the
    /// others, and the notification of it.
    pub open spec fn submit(self, request: RequestModel, id: Seq<char>, now: int) -> OrchestratorModel {
        if self.submit_answer(request, id) is Err {
            self
        } else {
            self.put(
                JobModel::created(
                    id,
                    request.case_id,
                    request.document_ids,
                    resolve_all(request.engines),
                    now,
                ),
            ).emit(
                EventModel::JobStarted {
                    job_id: id,
                    case_id: request.case_id,
                    engines: request.engines,
                },
            )
        }
    }

    /// Whether every job that is registered here is registered in `later`,
    /// and is there as it is here.
    pub open spec fn kept_by(self, later: OrchestratorModel) -> bool {
        forall|other: Seq<char>| #[trigger]
            self.has_job(other) ==> later.job(other) == self.job(other)
    }

    /// An identifier that no registered job has, made from `wanted`: each
    /// registered identifier is hung on after a hyphen, so that the result
    /// is longer than every one of them.
    pub open spec fn lengthened(wanted: Seq<char>, jobs: Seq<JobModel>) -> Seq<char>
        decreases jobs.len(),
    {
        if jobs.len() == 0 {
            wanted
        } else {
            Self::lengthened(wanted, jobs.drop_last()) + "-"@ + jobs.last().id
        }
    }

    /// The identifier under which a job can be registered when `wanted` is
    /// asked for: `wanted` itself where it is free, and else the lengthened
    /// one.
    pub open spec fn unused_id(self, wanted: Seq<char>) -> Seq<char> {
        if self.has_job(wanted) {
            Self::lengthened(wanted, self.jobs)
        } else {
            wanted
        }
    }

    /// The answer to the cancellation of the job `id`.
    pub open spec fn cancel_answer(self, id: Seq<char>) -> Result<(), Seq<char>> {
        match self.job(id) {
            None => Err("Job not found"@),
            Some(job) => if job.cancellable() {
                Ok(())
            } else {
                Err("Job is not running"@)
            },
        }
    }

    /// The orchestrator after the cancellation of the job `id`.
    pub open spec fn cancel(self, id: Seq<char>) -> OrchestratorModel {
        match self.job(id) {
            Some(job) if job.cancellable() => self.put(job.cancel()).emit(
                EventModel::Cancelled { job_id: id },
            ),
            _ => self,
        }
    }

    /// The orchestrator after the run of the job `id` was opened at `now`:
    /// a pending job is marked as running. A job in any other status is left
    /// as it is: a cancelled job is not set running again.
    pub open spec fn start(self, id: Seq<char>, now: int) -> OrchestratorModel {
        match self.job(id) {
            Some(job) if job.status == JobStatus::Pending => self.put(job.start(now)),
            _ => self,
        }
    }

    /// What is to happen next in a run. Only a running job goes on: its next
    /// engine is to run, or it is finished when none is left. For a job in
    /// any other status the run stops, wherever it stands: a cancelled job
    /// runs no further engine and is not marked completed.
    pub open spec fn step_of(self, run: RunModel) -> StepModel {
        match self.job(run.job_id) {
            Some(job) if job.status == JobStatus::Running => if run.position
                < job.engines.len() {
                StepModel::Invoke {
                    engine_id: job.engines[run.position as int],
                    case_id: job.case_id,
                    document_ids: job.document_ids,
                }
            } else {
                StepModel::Finished
            },
            _ => StepModel::Stopped,
        }
    }

    /// The orchestrator after the next step of a run was asked for at `now`:
    /// before an engine runs its progress is noted; when none is left the job
    /// is marked completed and that is noted; a run that stops changes
    /// nothing.
    pub open spec fn after_step(self, run: RunModel, now: int) -> OrchestratorModel {
        match self.job(run.job_id) {
            None => self,
            Some(job) => match self.step_of(run) {
                StepModel::Invoke { engine_id, .. } => self.emit(
                    EventModel::Progress {
                        job_id: run.job_id,
                        engine_id: engine_id.name_of(),
                        completed: run.position,
                        total: job.engines.len(),
                    },
                ),
                StepModel::Finished => self.put(job.complete(now)).emit(
                    EventModel::Complete { job_id: run.job_id, engines_completed: run.position },
                ),
                StepModel::Stopped => self,
            },
        }
    }

    /// Whether an outcome can be recorded for a run: its job is registered
    /// and has an engine at the place of the run.
    pub open spec fn can_record(self, run: RunModel) -> bool {
        self.job(run.job_id) matches Some(job) && run.position < job.engines.len()
    }

    /// The notifications to which the outcome of an engine gives rise: for
    /// findings, the warning about placeholder output where it is the first
    /// such output of the run, and their count; for a failure, its reason.
    pub open spec fn outcome_events(
        run: RunModel,
        engine_id: EngineId,
        outcome: Result<EngineResultModel, Seq<char>>,
    ) -> Seq<EventModel> {
        match outcome {
            Ok(result) => {
                let finding = EventModel::Finding {
                    job_id: run.job_id,
                    engine_id: engine_id.name_of(),
                    finding_count: result.findings.len(),
                    mock_mode: result.used_mock_mode,
                };
                if result.used_mock_mode && !run.mock_mode_detected {
                    seq![
                        EventModel::MockMode {
                            scope: Some(run.job_id),
                            message: mock_mode_message(),
                        },
                        finding,
                    ]
                } else {
                    seq![finding]
                }
            },
            Err(reason) => seq![
                EventModel::Error {
                    job_id: run.job_id,
                    engine_id: engine_id.name_of(),
                    error: reason,
                },
            ],
        }
    }

    /// What is stored for the outcome of an engine.
    pub open spec fn stored_result(outcome: Result<EngineResultModel, Seq<char>>) -> Result<
        Seq<FindingModel>,
        Seq<char>,
    > {
        match outcome {
            Ok(result) => Ok(result.findings),
            Err(reason) => Err(reason),
        }
    }

    /// The orchestrator after the outcome of the engine at the place of a
    /// run was recorded.
    pub open spec fn after_record(
        self,
        run: RunModel,
        outcome: Result<EngineResultModel, Seq<char>>,
    ) -> OrchestratorModel {
        match self.job(run.job_id) {
            Some(job) if run.position < job.engines.len() => {
                let engine_id = job.engines[run.position as int];
                let stored = self.put(job.record(engine_id, Self::stored_result(outcome)));
                OrchestratorModel {
                    events: self.events + Self::outcome_events(run, engine_id, outcome),
                    ..stored
                }
            },
            _ => self,
        }
    }

    /// The run after the outcome of the engine at its place was recorded.
    pub open spec fn run_after_record(
        self,
        run: RunModel,
        outcome: Result<EngineResultModel, Seq<char>>,
    ) -> RunModel {
        if self.can_record(run) {
            RunModel {
                position: run.position + 1,
                mock_mode_detected: run.mock_mode_detected || (outcome matches Ok(result)
                    && result.used_mock_mode),
                ..run
            }
        } else {
            run
        }
    }

    /// The identifiers of the jobs that were completed at least `max_age`
    /// milliseconds before `now`, in the order of registration.
    pub open spec fn stale_jobs(self, max_age: int, now: int) -> Seq<Seq<char>> {
        self.jobs.filter(is_stale(max_age, now)).map_values(job_id_of())
    }

    /// The orchestrator after a run outside any job ended with `outcome`:
    /// placeholder output is warned about.
    pub open spec fn after_single_run(self, outcome: Result<EngineResultModel, Seq<char>>) -> OrchestratorModel {
        match outcome {
            Ok(result) if result.used_mock_mode => self.emit(
                EventModel::MockMode { scope: None, message: mock_mode_message() },
            ),
            _ => self,
        }
    }
}

/// A job stands at the place under which it is found.
pub proof fn lemma_index_of(m: OrchestratorModel, i: int)
    requires
        m.wf(),
        0 <= i < m.jobs.len(),
    ensures
        m.has_job(m.jobs[i].id),
        m.index_of(m.jobs[i].id) == i,
        m.job(m.jobs[i].id) == Some(m.jobs[i]),
{
    let id = m.jobs[i].id;
    let found = m.index_of(id);
    assert(m.jobs[found].id == id);
}

/// Registering a job that keeps its invariant keeps the invariant of the
/// registry, and the job is then found under its identifier.
pub proof fn lemma_put_keeps_wf(m: OrchestratorModel, job: JobModel)
    requires
        m.wf(),
        job.wf(),
    ensures
        m.put(job).wf(),
        m.put(job).job(job.id) == Some(job),
        m.put(job).jobs.len() == if m.has_job(job.id) {
            m.jobs.len()
        } else {
            m.jobs.len() + 1
        },
        forall|other: Seq<char>| other != job.id ==> m.put(job).job(other) == m.job(other),
{
    let next = m.put(job);
    let at = if m.has_job(job.id) {
        m.index_of(job.id)
    } else {
        m.jobs.len() as int
    };
    assert(next.jobs[at] == job);
    assert(next.wf());
    lemma_index_of(next, at);
    assert forall|other: Seq<char>| other != job.id implies next.job(other) == m.job(other) by {
        if m.has_job(other) {
            let i = m.index_of(other);
            assert(next.jobs[i] == m.jobs[i]);
            lemma_index_of(next, i);
        } else {
            if next.has_job(other) {
                let i = next.index_of(other);
                assert(next.jobs[i].id == other);
                assert(i != at);
                assert(m.jobs[i].id == other);
            }
        }
    }
}

/// A lengthened identifier is longer than the identifier of every job it
/// was lengthened by.
pub proof fn lemma_lengthened_is_longer(wanted: Seq<char>, jobs: Seq<JobModel>)
    ensures
        OrchestratorModel::lengthened(wanted, jobs).len() >= wanted.len(),
        forall|k: int|
            0 <= k < jobs.len() ==> OrchestratorModel::lengthened(wanted, jobs).len() > (
            #[trigger] jobs[k]).id.len(),
    decreases jobs.len(),
{
    reveal_strlit("-");
    if jobs.len() > 0 {
        lemma_lengthened_is_longer(wanted, jobs.drop_last());
        assert forall|k: int| 0 <= k < jobs.len() implies OrchestratorModel::lengthened(
            wanted,
            jobs,
        ).len() > (#[trigger] jobs[k]).id.len() by {
            if k < jobs.len() - 1 {
                assert(jobs.drop_last()[k] == jobs[k]);
            }
        }
    }
}

/// No job is registered under the identifier that is taken in place of a
/// wanted one.
pub proof fn lemma_unused_id_is_free(m: OrchestratorModel, wanted: Seq<char>)
    ensures
        !m.has_job(m.unused_id(wanted)),
{
    lemma_lengthened_is_longer(wanted, m.jobs);
}

/// A submission that is accepted registers its job under an identifier
/// that was free, and every job registered before stays as it was.
pub proof fn lemma_submit_keeps_jobs(
    m: OrchestratorModel,
    request: RequestModel,
    id: Seq<char>,
    now: int,
)
    requires
        m.wf(),
    ensures
        m.submit(request, id, now).wf(),
        m.kept_by(m.submit(request, id, now)),
        m.submit_answer(request, id) is Ok ==> !m.has_job(id) && m.submit(request, id, now).job(id)
            == Some(
            JobModel::created(
                id,
                request.case_id,
                request.document_ids,
                resolve_all(request.engines),
                now,
            ),
        ) && m.submit(request, id, now).jobs.len() == m.jobs.len() + 1,
{
    let job = JobModel::created(
        id,
        request.case_id,
        request.document_ids,
        resolve_all(request.engines),
        now,
    );
    let next = m.submit(request, id, now);
    if m.submit_answer(request, id) is Ok {
        lemma_put_keeps_wf(m, job);
        assert(next.jobs == m.put(job).jobs);
        assert forall|other: Seq<char>| #[trigger] m.has_job(other) implies next.job(other)
            == m.job(other) by {
            assert(m.put(job).job(other) == m.job(other));
            let i = m.index_of(other);
            assert(next.jobs[i] == m.jobs[i]);
            lemma_index_of(next, i);
        }
        let at = m.jobs.len() as int;
        assert(next.jobs[at] == job);
        lemma_index_of(next, at);
    }
}

/// Runs jobs of analysis engines and keeps track of them.
#[derive(Debug)]
pub struct EngineOrchestrator {
    jobs: Vec<EngineJob>,
    runner: EngineRunner,
    events: Vec<OrchestratorEvent>,
}

impl View for EngineOrchestrator {
    type V = OrchestratorModel;

    closed spec fn view(&self) -> OrchestratorModel {
        OrchestratorModel {
            jobs: job_models(self.jobs@),
            runner: self.runner@,
            events: event_models(self.events@),
        }
    }
}

impl EngineOrchestrator {
    /// Every orchestrator keeps the invariant of its model.
    #[verifier::type_invariant]
    pub open spec fn inv(&self) -> bool {
        self@.wf()
    }

    /// An orchestrator without jobs, with a runner that has no worker path.
    pub fn new() -> (orchestrator: Self)
        ensures
            orchestrator@ == (OrchestratorModel {
                jobs: Seq::empty(),
                runner: RunnerModel { sidecar_path: None, mock_mode: false },
                events: Seq::empty(),
            }),
            orchestrator@.wf(),
    {
        let orchestrator = EngineOrchestrator {
            jobs: Vec::new(),
            runner: EngineRunner::new(),
            events: Vec::new(),
        };
        assert(orchestrator@.jobs =~= Seq::empty());
        assert(orchestrator@.events =~= Seq::empty());
        orchestrator
    }

    /// Replaces the runner by one that has the worker path `path` and the
    /// fallback switch off.
    pub fn with_sidecar_path(self, path: String) -> (orchestrator: Self)
        ensures
            orchestrator@ == (OrchestratorModel {
                runner: RunnerModel { sidecar_path: Some(path@), mock_mode: false },
                ..self@
            }),
    {
        proof {
            use_type_invariant(&self);
        }
        EngineOrchestrator {
            jobs: self.jobs,
            runner: EngineRunner::new().with_sidecar_path(path),
            events: self.events,
        }
    }

    /// Replaces the runner by one that has no worker path and the fallback
    /// switch as given.
    pub fn with_mock_mode(self, mock: bool) -> (orchestrator: Self)
        ensures
            orchestrator@ == (OrchestratorModel {
                runner: RunnerModel { sidecar_path: None, mock_mode: mock },
                ..self@
            }),
    {
        proof {
            use_type_invariant(&self);
        }
        EngineOrchestrator {
            jobs: self.jobs,
            runner: EngineRunner::new().with_mock_mode(mock),
            events: self.events,
        }
    }

    /// The runner.
    pub fn runner(&self) -> (runner: &EngineRunner)
        ensures
            runner@ == self@.runner,
    {
        &self.runner
    }

    /// The number of registered jobs.
    pub fn job_count(&self) -> (count: usize)
        ensures
            count == self@.jobs.len(),
            self@.wf(),
    {
        proof {
            use_type_invariant(self);
        }
        self.jobs.len()
    }

    /// The job registered under `job_id`, if there is one.
    pub fn job(&self, job_id: &str) -> (found: Option<&EngineJob>)
        ensures
            match found {
                Some(job) => self@.job(job_id@) == Some(job@),
                None => self@.job(job_id@) is None,
            },
    {
        match self.find_job(job_id) {
            Some(i) => Some(&self.jobs[i]),
            None => None,
        }
    }

    /// Hands over the notifications noted down since the last call, oldest
    /// first, and forgets them.
    pub fn take_events(&mut self) -> (events: Vec<OrchestratorEvent>)
        ensures
            event_models(events@) == old(self)@.events,
            final(self)@ == (OrchestratorModel { events: Seq::empty(), ..old(self)@ }),
    {
        proof {
            use_type_invariant(&*self);
        }
        let mut events: Vec<OrchestratorEvent> = Vec::new();
        assert(event_models(events@) =~= Seq::empty());
        std::mem::swap(&mut self.events, &mut events);
        events
    }

    /// The place of the job registered under `job_id`.
    fn find_job(&self, job_id: &str) -> (place: Option<usize>)
        ensures
            match place {
                Some(i) => i < self.jobs.len() && self@.has_job(job_id@) && self@.index_of(job_id@)
                    == i && self@.jobs[i as int].id == job_id@,
                None => !self@.has_job(job_id@),
            },
    {
        proof {
            use_type_invariant(self);
        }
        let mut i: usize = 0;
        while i < self.jobs.len()
            invariant
                i <= self.jobs.len(),
                self@.wf(),
                forall|k: int| 0 <= k < i ==> self@.jobs[k].id != job_id@,
            decreases self.jobs.len() - i,
        {
            if str_eq(self.jobs[i].id().as_str(), job_id) {
                proof {
                    lemma_index_of(self@, i as int);
                }
                return Some(i);
            }
            i += 1;
        }
        None
    }

    /// Notes down a notification.
    fn push_event(&mut self, event: OrchestratorEvent)
        ensures
            final(self)@ == old(self)@.emit(event@),
    {
        proof {
            use_type_invariant(&*self);
        }
        let ghost before = self@;
        let mut events: Vec<OrchestratorEvent> = Vec::new();
        std::mem::swap(&mut self.events, &mut events);
        events.push(event);
        assert(event_models(events@) =~= before.events.push(event@));
        std::mem::swap(&mut self.events, &mut events);
    }

    /// Registers a job.
    fn put_job(&mut self, job: EngineJob)
        ensures
            final(self)@ == old(self)@.put(job@),
    {
        proof {
            use_type_invariant(&*self);
            use_type_invariant(&job);
            lemma_put_keeps_wf(self@, job@);
        }
        let ghost before = self@;
        let place = self.find_job(job.id().as_str());
        let mut jobs: Vec<EngineJob> = Vec::new();
        assert(job_models(jobs@) =~= Seq::empty());
        std::mem::swap(&mut self.jobs, &mut jobs);
        match place {
            Some(i) => {
                jobs.set(i, job);
                assert(job_models(jobs@) =~= before.jobs.update(i as int, job@));
            },
            None => {
                jobs.push(job);
                assert(job_models(jobs@) =~= before.jobs.push(job@));
            },
        }
        std::mem::swap(&mut self.jobs, &mut jobs);
    }

    /// Registers a job for `request` under the identifier `job_id`, created
    /// at the time `now`. The request is refused where none of its engine
    /// names resolves, and where a job is registered under `job_id` already:
    /// a registered job is never replaced.
    pub fn submit_with_id(&mut self, request: AnalysisRequest, job_id: String, now: i64) -> (answer:
        Result<String, String>)
        ensures
            final(self)@ == old(self)@.submit(request@, job_id@, now as int),
            text_result_model(answer) == old(self)@.submit_answer(request@, job_id@),
            old(self)@.kept_by(final(self)@),
            final(self)@.wf(),
    {
        proof {
            use_type_invariant(&*self);
            lemma_submit_keeps_jobs(self@, request@, job_id@, now as int);
        }
        let engines = resolve_engines(request.engines.as_slice());
        if engines.len() == 0 {
            return Err(String::from_str("No valid engines specified"));
        }
        if self.find_job(job_id.as_str()).is_some() {
            return Err(String::from_str("Job identifier already in use"));
        }
        let job = EngineJob::new_at(
            job_id.clone(),
            request.case_id.clone(),
            request.document_ids,
            engines,
            now,
        );
        self.put_job(job);
        self.push_event(
            OrchestratorEvent::JobStarted {
                job_id: job_id.clone(),
                case_id: request.case_id,
                engines: request.engines,
            },
        );
        Ok(job_id)
    }

    /// The identifier under which a job can be registered when `wanted` is
    /// asked for: `wanted` itself where no job has it, and else one that is
    /// longer than every registered identifier.
    pub fn unused_id(&self, wanted: String) -> (id: String)
        ensures
            id@ == self@.unused_id(wanted@),
            !self@.has_job(id@),
    {
        proof {
            lemma_unused_id_is_free(self@, wanted@);
        }
        if self.find_job(wanted.as_str()).is_none() {
            return wanted;
        }
        let ghost jobs = self@.jobs;
        let mut id = wanted;
        let mut i: usize = 0;
        proof {
            assert(jobs.take(0) =~= Seq::empty());
        }
        while i < self.jobs.len()
            invariant
                i <= self.jobs.len(),
                jobs == self@.jobs,
                id@ == OrchestratorModel::lengthened(wanted@, jobs.take(i as int)),
            decreases self.jobs.len() - i,
        {
            proof {
                assert(jobs.take(i + 1).drop_last() =~= jobs.take(i as int));
                assert(jobs.take(i + 1).last() == jobs[i as int]);
            }
            id.append("-");
            id.append(self.jobs[i].id().as_str());
            i += 1;
        }
        assert(jobs.take(i as int) =~= jobs);
        id
    }

    /// Registers a job for `request` under a new identifier and answers
    /// with it. A request of which no engine name resolves is refused and
    /// creates no job. Names that do not resolve are dropped in silence; the
    /// others make up the job, in the order in which they were given. The
    /// identifier is one that no registered job has, and every job that was
    /// registered stays as it was.
    pub fn submit(&mut self, request: AnalysisRequest) -> (answer: Result<String, String>)
        ensures
            resolve_all(request@.engines).len() == 0 ==> final(self)@ == old(self)@ && (
            answer matches Err(reason) && reason@ == "No valid engines specified"@),
            resolve_all(request@.engines).len() > 0 ==> (answer matches Ok(id) && !old(
                self,
            )@.has_job(id@) && exists|now: int|
                final(self)@ == #[trigger] old(self)@.submit(request@, id@, now)),
            old(self)@.kept_by(final(self)@),
            final(self)@.wf(),
    {
        let job_id = self.unused_id(fresh_id());
        let now = now_millis();
        self.submit_with_id(request, job_id, now)
    }

    /// The progress of the job `job_id` as seen at the time `now`; nothing
    /// where no such job is registered.
    pub fn get_progress_at(&self, job_id: &str, now: i64) -> (progress: Option<JobProgress>)
        ensures
            match progress {
                Some(snapshot) => self@.job(job_id@) matches Some(job) && snapshot@
                    == job.progress(now as int) && snapshot.completed_engines
                    <= snapshot.total_engines && snapshot.succeeded_engines
                    + snapshot.failed_engines == snapshot.completed_engines,
                None => self@.job(job_id@) is None,
            },
    {
        match self.find_job(job_id) {
            Some(i) => Some(self.jobs[i].progress_at(now)),
            None => None,
        }
    }

    /// The progress of the job `job_id` as seen now; nothing where no such
    /// job is registered.
    pub fn get_progress(&self, job_id: &str) -> (progress: Option<JobProgress>)
        ensures
            match progress {
                Some(snapshot) => self@.job(job_id@) matches Some(job) && job.has_snapshot(
                    snapshot@,
                ) && snapshot.completed_engines
                    <= snapshot.total_engines && snapshot.succeeded_engines
                    + snapshot.failed_engines == snapshot.completed_engines,
                None => self@.job(job_id@) is None,
            },
    {
        match self.find_job(job_id) {
            Some(i) => Some(self.jobs[i].get_progress()),
            None => None,
        }
    }

    /// The progress of every registered job as seen at the time `now`, in
    /// the order of registration.
    pub fn list_jobs_at(&self, now: i64) -> (snapshots: Vec<JobProgress>)
        ensures
            snapshots.len() == self@.jobs.len(),
            forall|i: int|
                0 <= i < snapshots.len() ==> (#[trigger] snapshots[i])@ == self@.jobs[i].progress(
                    now as int,
                ),
    {
        let mut snapshots: Vec<JobProgress> = Vec::new();
        let mut i: usize = 0;
        while i < self.jobs.len()
            invariant
                i <= self.jobs.len(),
                snapshots.len() == i,
                forall|k: int|
                    0 <= k < i ==> (#[trigger] snapshots[k])@ == self@.jobs[k].progress(now as int),
            decreases self.jobs.len() - i,
        {
            snapshots.push(self.jobs[i].progress_at(now));
            i += 1;
        }
        snapshots
    }

    /// The progress of every registered job as seen now.
    pub fn list_jobs(&self) -> (snapshots: Vec<JobProgress>)
        ensures
            snapshots.len() == self@.jobs.len(),
            forall|i: int|
                0 <= i < snapshots.len() ==> self@.jobs[i].has_snapshot((#[trigger] snapshots[i])@),
    {
        let mut snapshots: Vec<JobProgress> = Vec::new();
        let mut i: usize = 0;
        while i < self.jobs.len()
            invariant
                i <= self.jobs.len(),
                snapshots.len() == i,
                forall|k: int|
                    0 <= k < i ==> self@.jobs[k].has_snapshot((#[trigger] snapshots[k])@),
            decreases self.jobs.len() - i,
        {
            snapshots.push(self.jobs[i].get_progress());
            i += 1;
        }
        snapshots
    }

    /// Cancels the job `job_id`. It fails where no such job is registered
    /// and where the job is neither pending nor running; a cancelled job is
    /// noted as such. A run sees the cancellation at its next step: an
    /// engine that is at work is not disturbed.
    pub fn cancel_job(&mut self, job_id: &str) -> (answer: Result<(), String>)
        ensures
            final(self)@ == old(self)@.cancel(job_id@),
            unit_result_model(answer) == old(self)@.cancel_answer(job_id@),
            final(self)@.wf(),
    {
        proof {
            use_type_invariant(&*self);
        }
        let ghost before = self@;
        let place = self.find_job(job_id);
        match place {
            None => Err(String::from_str("Job not found")),
            Some(i) => {
                let mut jobs: Vec<EngineJob> = Vec::new();
                assert(job_models(jobs@) =~= Seq::empty());
                std::mem::swap(&mut self.jobs, &mut jobs);
                let cancelled = jobs[i].cancel();
                proof {
                    if cancelled {
                        assert(job_models(jobs@) =~= before.jobs.update(
                            i as int,
                            before.jobs[i as int].cancel(),
                        ));
                    } else {
                        assert(job_models(jobs@) =~= before.jobs);
                    }
                }
                std::mem::swap(&mut self.jobs, &mut jobs);
                if cancelled {
                    self.push_event(
                        OrchestratorEvent::Cancelled { job_id: String::from_str(job_id) },
                    );
                    proof {
                        use_type_invariant(&*self);
                    }
                    Ok(())
                } else {
                    Err(String::from_str("Job is not running"))
                }
            },
        }
    }

    /// Opens the run of the job `job_id` at the time `now`: a pending job
    /// is marked as running. A job in any other status is left as it is, so
    /// that the run of a cancelled job stops at its first step. Nothing
    /// happens where no such job is registered.
    pub fn start_job_at(&mut self, job_id: &str, now: i64) -> (run: Option<JobRun>)
        ensures
            final(self)@ == old(self)@.start(job_id@, now as int),
            match run {
                Some(opened) => old(self)@.has_job(job_id@) && opened@ == (RunModel {
                    job_id: job_id@,
                    position: 0,
                    mock_mode_detected: false,
                }),
                None => !old(self)@.has_job(job_id@),
            },
            final(self)@.wf(),
    {
        proof {
            use_type_invariant(&*self);
        }
        let ghost before = self@;
        match self.find_job(job_id) {
            None => None,
            Some(i) => {
                if self.jobs[i].status() == JobStatus::Pending {
                    let mut jobs: Vec<EngineJob> = Vec::new();
                    assert(job_models(jobs@) =~= Seq::empty());
                    std::mem::swap(&mut self.jobs, &mut jobs);
                    jobs[i].start_at(now);
                    assert(job_models(jobs@) =~= before.jobs.update(
                        i as int,
                        before.jobs[i as int].start(now as int),
                    ));
                    std::mem::swap(&mut self.jobs, &mut jobs);
                }
                Some(
                    JobRun {
                        job_id: String::from_str(job_id),
                        position: 0,
                        mock_mode_detected: false,
                    },
                )
            },
        }
    }

    /// Opens the run of the job `job_id` now.
    pub fn start_job(&mut self, job_id: &str) -> (run: Option<JobRun>)
        ensures
            exists|now: int| final(self)@ == #[trigger] old(self)@.start(job_id@, now),
            match run {
                Some(opened) => old(self)@.has_job(job_id@) && opened@ == (RunModel {
                    job_id: job_id@,
                    position: 0,
                    mock_mode_detected: false,
                }),
                None => !old(self)@.has_job(job_id@),
            },
            final(self)@.wf(),
    {
        self.start_job_at(job_id, now_millis())
    }

    /// Says what is to happen next in a run, as of the time `now`.
    pub fn next_step_at(&mut self, run: &JobRun, now: i64) -> (step: RunStep)
        ensures
            step@ == old(self)@.step_of(run@),
            final(self)@ == old(self)@.after_step(run@, now as int),
            final(self)@.wf(),
    {
        proof {
            use_type_invariant(&*self);
        }
        let ghost before = self@;
        let place = self.find_job(run.job_id.as_str());
        match place {
            None => RunStep::Stopped,
            Some(i) => {
                let total = self.jobs[i].engines().len();
                if self.jobs[i].status() != JobStatus::Running {
                    RunStep::Stopped
                } else if run.position < total {
                    let engine_id = self.jobs[i].engines()[run.position];
                    let case_id = self.jobs[i].case_id().clone();
                    let document_ids = clone_strings(self.jobs[i].document_ids().as_slice());
                    self.push_event(
                        OrchestratorEvent::Progress {
                            job_id: run.job_id.clone(),
                            engine_id: engine_id.to_string(),
                            completed: run.position,
                            total,
                        },
                    );
                    proof {
                        use_type_invariant(&*self);
                    }
                    RunStep::Invoke { engine_id, case_id, document_ids }
                } else {
                    let mut jobs: Vec<EngineJob> = Vec::new();
                    assert(job_models(jobs@) =~= Seq::empty());
                    std::mem::swap(&mut self.jobs, &mut jobs);
                    jobs[i].complete_at(now);
                    assert(job_models(jobs@) =~= before.jobs.update(
                        i as int,
                        before.jobs[i as int].complete(now as int),
                    ));
                    std::mem::swap(&mut self.jobs, &mut jobs);
                    self.push_event(
                        OrchestratorEvent::Complete {
                            job_id: run.job_id.clone(),
                            engines_completed: run.position,
                        },
                    );
                    proof {
                        use_type_invariant(&*self);
                    }
                    RunStep::Finished
                }
            },
        }
    }

    /// Says what is to happen next in a run of a running job: the next
    /// engine is to be run, and when no engine is left the job is marked
    /// completed. The run of a job that was cancelled in the meantime stops,
    /// also after its last engine, and the job stays cancelled.
    pub fn next_step(&mut self, run: &JobRun) -> (step: RunStep)
        ensures
            step@ == old(self)@.step_of(run@),
            exists|now: int| final(self)@ == #[trigger] old(self)@.after_step(run@, now),
            final(self)@.wf(),
    {
        let now = if self.is_at_end(run) {
            now_millis()
        } else {
            0
        };
        self.next_step_at(run, now)
    }

    /// Whether a run has gone through all engines of its job.
    fn is_at_end(&self, run: &JobRun) -> (at_end: bool)
        ensures
            at_end == (self@.step_of(run@) is Finished),
    {
        match self.find_job(run.job_id.as_str()) {
            None => false,
            Some(i) => self.jobs[i].status() == JobStatus::Running && run.position
                >= self.jobs[i].engines().len(),
        }
    }

    /// Records the outcome of the engine at the place of a run and moves
    /// the run on by one engine. Findings and failures are both recorded for
    /// the engine: a failure does not end the job. Nothing happens where the
    /// job is not registered or has no engine at that place.
    pub fn record_outcome(&mut self, run: &mut JobRun, outcome: Result<EngineResult, String>)
        ensures
            final(self)@ == old(self)@.after_record(old(run)@, run_outcome_model(outcome)),
            final(run)@ == old(self)@.run_after_record(old(run)@, run_outcome_model(outcome)),
            final(self)@.wf(),
    {
        proof {
            use_type_invariant(&*self);
        }
        let ghost before = self@;
        let ghost run_before = run@;
        let place = self.find_job(run.job_id.as_str());
        let i = match place {
            None => {
                return ;
            },
            Some(i) => i,
        };
        if run.position >= self.jobs[i].engines().len() {
            return ;
        }
        let engine_id = self.jobs[i].engines()[run.position];
        let mut jobs: Vec<EngineJob> = Vec::new();
        assert(job_models(jobs@) =~= Seq::empty());
        std::mem::swap(&mut self.jobs, &mut jobs);
        match outcome {
            Ok(result) => {
                let finding_count = result.findings.len();
                let used_mock_mode = result.used_mock_mode;
                let warn = used_mock_mode && !run.mock_mode_detected;
                jobs[i].record_result(engine_id, Ok(result.findings));
                proof {
                    assert(job_models(jobs@) =~= before.jobs.update(
                        i as int,
                        before.jobs[i as int].record(
                            engine_id,
                            OrchestratorModel::stored_result(run_outcome_model(outcome)),
                        ),
                    ));
                }
                std::mem::swap(&mut self.jobs, &mut jobs);
                if warn {
                    run.mock_mode_detected = true;
                    self.push_event(
                        OrchestratorEvent::MockMode {
                            scope: Some(run.job_id.clone()),
                            message: String::from_str(
                                "AI analysis unavailable - showing placeholder data. Check sidecar configuration.",
                            ),
                        },
                    );
                }
                self.push_event(
                    OrchestratorEvent::Finding {
                        job_id: run.job_id.clone(),
                        engine_id: engine_id.to_string(),
                        finding_count,
                        mock_mode: used_mock_mode,
                    },
                );
            },
            Err(reason) => {
                jobs[i].record_result(engine_id, Err(reason.clone()));
                proof {
                    assert(job_models(jobs@) =~= before.jobs.update(
                        i as int,
                        before.jobs[i as int].record(
                            engine_id,
                            OrchestratorModel::stored_result(run_outcome_model(outcome)),
                        ),
                    ));
                }
                std::mem::swap(&mut self.jobs, &mut jobs);
                self.push_event(
                    OrchestratorEvent::Error {
                        job_id: run.job_id.clone(),
                        engine_id: engine_id.to_string(),
                        error: reason,
                    },
                );
            },
        }
        run.position = run.position + 1;
        proof {
            use_type_invariant(&*self);
            assert(self@.events =~= before.events + OrchestratorModel::outcome_events(
                run_before,
                engine_id,
                run_outcome_model(outcome),
            ));
        }
    }

    /// The identifiers of the jobs that were completed at least
    /// `max_age_ms` milliseconds before the time `now`, in the order of
    /// registration. No job is removed: jobs stay registered until the
    /// orchestrator itself is dropped.
    pub fn stale_jobs_at(&self, max_age_ms: i64, now: i64) -> (stale: Vec<String>)
        ensures
            text_list(stale@) == self@.stale_jobs(max_age_ms as int, now as int),
    {
        let ghost jobs = self@.jobs;
        let mut stale: Vec<String> = Vec::new();
        let mut i: usize = 0;
        proof {
            assert(jobs.take(0) =~= Seq::empty());
            jobs.take(0).lemma_filter_len(is_stale(max_age_ms as int, now as int));
            assert(jobs.take(0).filter(is_stale(max_age_ms as int, now as int)) =~= Seq::empty());
            assert(text_list(stale@) =~= Seq::empty());
        }
        while i < self.jobs.len()
            invariant
                i <= self.jobs.len(),
                jobs == self@.jobs,
                text_list(stale@) == jobs.take(i as int).filter(
                    is_stale(max_age_ms as int, now as int),
                ).map_values(job_id_of()),
            decreases self.jobs.len() - i,
        {
            proof {
                let front = jobs.take(i as int);
                jobs.lemma_take_succ_push(i as int);
                front.lemma_filter_push(jobs[i as int], is_stale(max_age_ms as int, now as int));
                front.filter(is_stale(max_age_ms as int, now as int)).lemma_push_map_commute(
                    job_id_of(),
                    jobs[i as int],
                );
            }
            let old_enough = match self.jobs[i].completed_at() {
                Some(completed) => now as i128 - completed as i128 >= max_age_ms as i128,
                None => false,
            };
            if old_enough {
                let ghost before = text_list(stale@);
                stale.push(self.jobs[i].id().clone());
                assert(text_list(stale@) =~= before.push(jobs[i as int].id));
            }
            i += 1;
        }
        assert(jobs.take(i as int) =~= jobs);
        stale
    }

    /// The identifiers of the jobs that were completed at least
    /// `max_age_ms` milliseconds ago. No job is removed.
    pub fn cleanup_old_jobs(&self, max_age_ms: i64) -> (stale: Vec<String>)
        ensures
            exists|now: int| text_list(stale@) == #[trigger] self@.stale_jobs(max_age_ms as int, now),
    {
        self.stale_jobs_at(max_age_ms, now_millis())
    }

    /// What a run of one engine outside any job comes to as things stand.
    /// Its outcome is then handed to
    /// [`EngineOrchestrator::finish_single_engine`].
    pub fn run_single_engine(&self, engine_id: EngineId, case_id: &str, document_ids: &[String]) -> (invocation:
        Invocation)
        ensures
            self@.runner.mock_mode || self@.runner.sidecar_path is None
                ==> crate::runner::is_placeholder_run(
                invocation,
                engine_id,
                text_list(document_ids@),
            ),
            crate::runner::is_placeholder_run(invocation, engine_id, text_list(document_ids@)) || {
                &&& invocation matches Invocation::AskWorker { path, request }
                &&& Some(path@) == self@.runner.sidecar_path
                &&& request.engine_id@ == engine_id.name_of()
                &&& request.case_id@ == case_id@
                &&& text_list(request.document_ids@) == text_list(document_ids@)
                &&& request.options is None
            },
    {
        self.runner.run_engine(engine_id, case_id, document_ids)
    }

    /// Ends a run of one engine outside any job: placeholder output is
    /// warned about, and the findings or the failure are handed on.
    pub fn finish_single_engine(&mut self, outcome: Result<EngineResult, String>) -> (answer: Result<
        Vec<EngineFinding>,
        String,
    >)
        ensures
            final(self)@ == old(self)@.after_single_run(run_outcome_model(outcome)),
            crate::job::result_model(answer) == OrchestratorModel::stored_result(
                run_outcome_model(outcome),
            ),
    {
        match outcome {
            Ok(result) => {
                if result.used_mock_mode {
                    self.push_event(
                        OrchestratorEvent::MockMode {
                            scope: None,
                            message: String::from_str(
                                "AI analysis unavailable - showing placeholder data. Check sidecar configuration.",
                            ),
                        },
                    );
                }
                Ok(result.findings)
            },
            Err(reason) => Err(reason),
        }
    }
}

impl Default for EngineOrchestrator {
    fn default() -> (orchestrator: Self)
        ensures
            orchestrator@ == (OrchestratorModel {
                jobs: Seq::empty(),
                runner: RunnerModel { sidecar_path: None, mock_mode: false },
                events: Seq::empty(),
            }),
    {
        Self::new()
    }
}

} // verus!

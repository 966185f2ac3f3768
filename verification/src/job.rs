//! Jobs: one tracked execution of a list of engines against a case, with its
//! status, its timestamps and the outcome recorded for each engine.

use crate::catalog::EngineId;
use crate::platform::now_millis;
use crate::finding::{finding_models, EngineFinding, FindingModel};
use crate::text::text_list;
use vstd::prelude::*;

verus! {

/// Where a job stands in its life.
#[derive(Debug, Clone, Copy, PartialEq, Eq, Structural)]
pub enum JobStatus {
    Pending,
    Running,
    Completed,
    Failed,
    Cancelled,
}

/// The outcome of one engine: its findings, or the reason it failed.
#[derive(Debug)]
pub struct EngineOutcome {
    pub engine: EngineId,
    pub result: Result<Vec<EngineFinding>, String>,
}

/// The outcome of one engine, as mathematical values.
pub struct OutcomeModel {
    pub engine: EngineId,
    pub result: Result<Seq<FindingModel>, Seq<char>>,
}

/// The model of a result as it is handed in or stored.
pub open spec fn result_model(result: Result<Vec<EngineFinding>, String>) -> Result<
    Seq<FindingModel>,
    Seq<char>,
> {
    match result {
        Ok(findings) => Ok(finding_models(findings@)),
        Err(reason) => Err(reason@),
    }
}

impl View for EngineOutcome {
    type V = OutcomeModel;

    open spec fn view(&self) -> OutcomeModel {
        OutcomeModel { engine: self.engine, result: result_model(self.result) }
    }
}

/// The models of a list of outcomes, in order.
pub open spec fn outcome_models(items: Seq<EngineOutcome>) -> Seq<OutcomeModel> {
    Seq::new(items.len(), |i: int| items[i]@)
}

/// Tells the outcomes that succeeded.
pub open spec fn succeeded() -> spec_fn(OutcomeModel) -> bool {
    |o: OutcomeModel| o.result is Ok
}

/// Tells the outcomes that failed.
pub open spec fn failed() -> spec_fn(OutcomeModel) -> bool {
    |o: OutcomeModel| o.result is Err
}

/// The number of findings in the successful outcomes of a list.
pub open spec fn findings_in(results: Seq<OutcomeModel>) -> nat
    decreases results.len(),
{
    if results.len() == 0 {
        0
    } else {
        findings_in(results.drop_last()) + match results.last().result {
            Ok(findings) => findings.len(),
            Err(_) => 0,
        }
    }
}

/// The milliseconds from `start` to `end`, as an unsigned 64-bit count: a
/// span that runs backwards wraps around.
pub open spec fn elapsed_ms(start: int, end: int) -> nat {
    ((end - start) % 0x1_0000_0000_0000_0000) as nat
}

/// A job, as mathematical values. The outcomes are kept in the order in which
/// their engines were first recorded.
pub struct JobModel {
    pub id: Seq<char>,
    pub case_id: Seq<char>,
    pub document_ids: Seq<Seq<char>>,
    pub engines: Seq<EngineId>,
    pub status: JobStatus,
    pub created_at: int,
    pub started_at: Option<int>,
    pub completed_at: Option<int>,
    pub results: Seq<OutcomeModel>,
}

/// A snapshot of a job's progress, as mathematical values.
pub struct ProgressModel {
    pub job_id: Seq<char>,
    pub case_id: Seq<char>,
    pub status: JobStatus,
    pub total_engines: nat,
    pub completed_engines: nat,
    pub succeeded_engines: nat,
    pub failed_engines: nat,
    pub duration_ms: Option<nat>,
    pub current_engine: Option<Seq<char>>,
}

impl JobModel {
    /// A job as it is at submission: pending, with no outcome yet.
    pub open spec fn created(
        id: Seq<char>,
        case_id: Seq<char>,
        document_ids: Seq<Seq<char>>,
        engines: Seq<EngineId>,
        now: int,
    ) -> JobModel {
        JobModel {
            id,
            case_id,
            document_ids,
            engines,
            status: JobStatus::Pending,
            created_at: now,
            started_at: None,
            completed_at: None,
            results: Seq::empty(),
        }
    }

    /// The invariant of a job: each engine has at most one outcome, and only
    /// engines of the job have one.
    pub open spec fn wf(self) -> bool {
        &&& forall|i: int, j: int|
            0 <= i < j < self.results.len() ==> self.results[i].engine != self.results[j].engine
        &&& forall|i: int|
            0 <= i < self.results.len() ==> self.engines.contains(
                #[trigger] self.results[i].engine,
            )
    }

    /// Whether an outcome is recorded for `engine`.
    pub open spec fn has_result(self, engine: EngineId) -> bool {
        exists|i: int| 0 <= i < self.results.len() && self.results[i].engine == engine
    }

    /// The place of the outcome of `engine` among the outcomes.
    pub open spec fn place_of(self, engine: EngineId) -> int {
        choose|i: int| 0 <= i < self.results.len() && self.results[i].engine == engine
    }

    /// The outcome recorded for `engine`, if there is one.
    pub open spec fn result_of(self, engine: EngineId) -> Option<Result<Seq<FindingModel>, Seq<char>>> {
        if self.has_result(engine) {
            Some(self.results[self.place_of(engine)].result)
        } else {
            None
        }
    }

    /// The job once execution has begun at time `now`.
    pub open spec fn start(self, now: int) -> JobModel {
        JobModel { status: JobStatus::Running, started_at: Some(now), ..self }
    }

    /// The job once it is marked completed at time `now`.
    pub open spec fn complete(self, now: int) -> JobModel {
        JobModel { status: JobStatus::Completed, completed_at: Some(now), ..self }
    }

    /// Whether the job can still be cancelled.
    pub open spec fn cancellable(self) -> bool {
        self.status == JobStatus::Pending || self.status == JobStatus::Running
    }

    /// The job once it is cancelled.
    pub open spec fn cancel(self) -> JobModel {
        JobModel { status: JobStatus::Cancelled, ..self }
    }

    /// The job once `result` is recorded for `engine`: it takes the place of
    /// an earlier outcome of that engine, or comes last. An engine that is
    /// not part of the job is not recorded.
    pub open spec fn record(self, engine: EngineId, result: Result<Seq<FindingModel>, Seq<char>>) -> JobModel {
        let outcome = OutcomeModel { engine, result };
        if !self.engines.contains(engine) {
            self
        } else if self.has_result(engine) {
            JobModel { results: self.results.update(self.place_of(engine), outcome), ..self }
        } else {
            JobModel { results: self.results.push(outcome), ..self }
        }
    }

    /// The number of engines that succeeded.
    pub open spec fn succeeded_count(self) -> nat {
        self.results.filter(succeeded()).len()
    }

    /// The number of engines that failed.
    pub open spec fn failed_count(self) -> nat {
        self.results.filter(failed()).len()
    }

    /// The number of findings over all engines that succeeded.
    pub open spec fn total_findings(self) -> nat {
        findings_in(self.results)
    }

    /// The time the job has run: from start to completion, or from start to
    /// `now` while it has not completed; nothing before it has started.
    pub open spec fn duration_ms(self, now: int) -> Option<nat> {
        match (self.started_at, self.completed_at) {
            (Some(start), Some(end)) => Some(elapsed_ms(start, end)),
            (Some(start), None) => Some(elapsed_ms(start, now)),
            _ => None,
        }
    }

    /// The engine that is being executed: the one after those that have an
    /// outcome, while the job is running.
    pub open spec fn current_engine(self) -> Option<Seq<char>> {
        if self.results.len() < self.engines.len() && self.status == JobStatus::Running {
            Some(self.engines[self.results.len() as int].name_of())
        } else {
            None
        }
    }

    /// Whether `snapshot` is the progress of the job as seen at some time.
    pub open spec fn has_snapshot(self, snapshot: ProgressModel) -> bool {
        exists|now: int| snapshot == #[trigger] self.progress(now)
    }

    /// The progress of the job as seen at time `now`.
    pub open spec fn progress(self, now: int) -> ProgressModel {
        ProgressModel {
            job_id: self.id,
            case_id: self.case_id,
            status: self.status,
            total_engines: self.engines.len(),
            completed_engines: self.results.len(),
            succeeded_engines: self.succeeded_count(),
            failed_engines: self.failed_count(),
            duration_ms: self.duration_ms(now),
            current_engine: self.current_engine(),
        }
    }
}

/// Every outcome either succeeded or failed, never both.
pub proof fn lemma_succeeded_plus_failed(results: Seq<OutcomeModel>)
    ensures
        results.filter(succeeded()).len() + results.filter(failed()).len() == results.len(),
    decreases results.len(),
{
    if results.len() == 0 {
        assert(results.filter(succeeded()).len() == 0) by {
            results.lemma_filter_len(succeeded());
        }
        assert(results.filter(failed()).len() == 0) by {
            results.lemma_filter_len(failed());
        }
    } else {
        let front = results.drop_last();
        let last = results.last();
        lemma_succeeded_plus_failed(front);
        assert(results =~= front.push(last));
        front.lemma_filter_len_push(succeeded(), last);
        front.lemma_filter_len_push(failed(), last);
    }
}

/// A job never holds more outcomes than it has engines.
pub proof fn lemma_results_within_engines(job: JobModel)
    requires
        job.wf(),
    ensures
        job.results.len() <= job.engines.len(),
{
    let recorded = job.results.map_values(|o: OutcomeModel| o.engine);
    assert(recorded.no_duplicates());
    recorded.unique_seq_to_set();
    job.engines.lemma_cardinality_of_set();
    assert(recorded.to_set().subset_of(job.engines.to_set())) by {
        assert forall|e: EngineId| recorded.to_set().contains(e) implies job.engines.to_set().contains(
            e,
        ) by {
            let i = choose|i: int| 0 <= i < recorded.len() && recorded[i] == e;
            assert(job.engines.contains(job.results[i].engine));
        }
    }
    vstd::seq_lib::seq_to_set_is_finite(job.engines);
    vstd::set_lib::lemma_len_subset(recorded.to_set(), job.engines.to_set());
}

/// Recording keeps the invariant of a job.
pub proof fn lemma_record_keeps_wf(
    job: JobModel,
    engine: EngineId,
    result: Result<Seq<FindingModel>, Seq<char>>,
)
    requires
        job.wf(),
    ensures
        job.record(engine, result).wf(),
        job.engines.contains(engine) ==> job.record(engine, result).result_of(engine) == Some(
            result,
        ),
        job.engines.contains(engine) ==> job.record(engine, result).has_result(engine),
{
    let next = job.record(engine, result);
    if job.engines.contains(engine) {
        if job.has_result(engine) {
            let at = job.place_of(engine);
            assert(next.results[at].engine == engine);
            assert(next.has_result(engine));
            let found = next.place_of(engine);
            assert(found == at);
        } else {
            let at = job.results.len() as int;
            assert(next.results[at].engine == engine);
            assert(next.has_result(engine));
            let found = next.place_of(engine);
            assert(found == at);
        }
    }
}

/// A snapshot of a job's progress.
#[derive(Debug)]
pub struct JobProgress {
    pub job_id: String,
    pub case_id: String,
    pub status: JobStatus,
    pub total_engines: usize,
    pub completed_engines: usize,
    pub succeeded_engines: usize,
    pub failed_engines: usize,
    pub duration_ms: Option<u64>,
    pub current_engine: Option<String>,
}

impl View for JobProgress {
    type V = ProgressModel;

    open spec fn view(&self) -> ProgressModel {
        ProgressModel {
            job_id: self.job_id@,
            case_id: self.case_id@,
            status: self.status,
            total_engines: self.total_engines as nat,
            completed_engines: self.completed_engines as nat,
            succeeded_engines: self.succeeded_engines as nat,
            failed_engines: self.failed_engines as nat,
            duration_ms: match self.duration_ms {
                Some(ms) => Some(ms as nat),
                None => None,
            },
            current_engine: match self.current_engine {
                Some(name) => Some(name@),
                None => None,
            },
        }
    }
}

/// The milliseconds from `start` to `end`.
pub fn elapsed(start: i64, end: i64) -> (ms: u64)
    ensures
        ms as nat == elapsed_ms(start as int, end as int),
{
    let span: i128 = end as i128 - start as i128;
    if span >= 0 {
        span as u64
    } else {
        (span + 0x1_0000_0000_0000_0000) as u64
    }
}

/// A job: the case and documents it is about, the engines to run in order,
/// its status and timestamps, and the outcome of each engine run so far.
#[derive(Debug)]
pub struct EngineJob {
    id: String,
    case_id: String,
    document_ids: Vec<String>,
    engines: Vec<EngineId>,
    status: JobStatus,
    created_at: i64,
    started_at: Option<i64>,
    completed_at: Option<i64>,
    results: Vec<EngineOutcome>,
}

/// The model of an optional timestamp.
pub open spec fn time_model(at: Option<i64>) -> Option<int> {
    match at {
        Some(t) => Some(t as int),
        None => None,
    }
}

impl View for EngineJob {
    type V = JobModel;

    closed spec fn view(&self) -> JobModel {
        JobModel {
            id: self.id@,
            case_id: self.case_id@,
            document_ids: text_list(self.document_ids@),
            engines: self.engines@,
            status: self.status,
            created_at: self.created_at as int,
            started_at: time_model(self.started_at),
            completed_at: time_model(self.completed_at),
            results: outcome_models(self.results@),
        }
    }
}

impl EngineJob {
    /// Every job keeps the invariant of its model.
    #[verifier::type_invariant]
    pub open spec fn inv(&self) -> bool {
        self@.wf()
    }

    /// Creates a job at the current time.
    pub fn new(id: String, case_id: String, document_ids: Vec<String>, engines: Vec<EngineId>) -> (job:
        Self)
        ensures
            job@ == JobModel::created(
                id@,
                case_id@,
                text_list(document_ids@),
                engines@,
                job@.created_at,
            ),
    {
        Self::new_at(id, case_id, document_ids, engines, now_millis())
    }

    /// Creates a job as of the time `now`, in milliseconds since the epoch.
    pub fn new_at(
        id: String,
        case_id: String,
        document_ids: Vec<String>,
        engines: Vec<EngineId>,
        now: i64,
    ) -> (job: Self)
        ensures
            job@ == JobModel::created(id@, case_id@, text_list(document_ids@), engines@, now as int),
            job@.wf(),
    {
        let job = EngineJob {
            id,
            case_id,
            document_ids,
            engines,
            status: JobStatus::Pending,
            created_at: now,
            started_at: None,
            completed_at: None,
            results: Vec::new(),
        };
        assert(job@.results =~= Seq::empty());
        job
    }

    /// The identifier of the job.
    pub fn id(&self) -> (id: &String)
        ensures
            id@ == self@.id,
    {
        &self.id
    }

    /// The case the job is about.
    pub fn case_id(&self) -> (case_id: &String)
        ensures
            case_id@ == self@.case_id,
    {
        &self.case_id
    }

    /// The documents the job is about.
    pub fn document_ids(&self) -> (document_ids: &Vec<String>)
        ensures
            text_list(document_ids@) == self@.document_ids,
    {
        &self.document_ids
    }

    /// The engines of the job, in execution order.
    pub fn engines(&self) -> (engines: &Vec<EngineId>)
        ensures
            engines@ == self@.engines,
    {
        &self.engines
    }

    /// The status of the job.
    pub fn status(&self) -> (status: JobStatus)
        ensures
            status == self@.status,
    {
        self.status
    }

    /// When the job was created.
    pub fn created_at(&self) -> (at: i64)
        ensures
            at as int == self@.created_at,
    {
        self.created_at
    }

    /// When execution began, if it has.
    pub fn started_at(&self) -> (at: Option<i64>)
        ensures
            time_model(at) == self@.started_at,
    {
        self.started_at
    }

    /// When the job was marked completed, if it was.
    pub fn completed_at(&self) -> (at: Option<i64>)
        ensures
            time_model(at) == self@.completed_at,
    {
        self.completed_at
    }

    /// The outcomes recorded so far, in the order of their first recording.
    pub fn results(&self) -> (results: &Vec<EngineOutcome>)
        ensures
            outcome_models(results@) == self@.results,
    {
        &self.results
    }

    /// Marks the job as running and notes the current time as its start. A
    /// second call overwrites the start time.
    pub fn start(&mut self)
        ensures
            final(self)@.started_at is Some,
            final(self)@ == old(self)@.start(final(self)@.started_at->0),
    {
        self.start_at(now_millis())
    }

    /// Marks the job as running, started at the time `now`.
    pub fn start_at(&mut self, now: i64)
        ensures
            final(self)@ == old(self)@.start(now as int),
            final(self)@.wf(),
    {
        proof {
            use_type_invariant(&*self);
        }
        self.status = JobStatus::Running;
        self.started_at = Some(now);
    }

    /// Marks the job as completed and notes the current time as its end.
    pub fn complete(&mut self)
        ensures
            final(self)@.completed_at is Some,
            final(self)@ == old(self)@.complete(final(self)@.completed_at->0),
    {
        self.complete_at(now_millis())
    }

    /// Marks the job as completed at the time `now`.
    pub fn complete_at(&mut self, now: i64)
        ensures
            final(self)@ == old(self)@.complete(now as int),
            final(self)@.wf(),
    {
        proof {
            use_type_invariant(&*self);
        }
        self.status = JobStatus::Completed;
        self.completed_at = Some(now);
    }

    /// Cancels the job if it is pending or running, and says whether it did.
    pub fn cancel(&mut self) -> (cancelled: bool)
        ensures
            cancelled == old(self)@.cancellable(),
            cancelled ==> final(self)@ == old(self)@.cancel(),
            !cancelled ==> final(self)@ == old(self)@,
            final(self)@.wf(),
    {
        proof {
            use_type_invariant(&*self);
        }
        if self.status == JobStatus::Running || self.status == JobStatus::Pending {
            self.status = JobStatus::Cancelled;
            true
        } else {
            false
        }
    }

    /// Whether `engine_id` is one of the engines of the job.
    pub fn has_engine(&self, engine_id: EngineId) -> (present: bool)
        ensures
            present == self@.engines.contains(engine_id),
    {
        let mut i: usize = 0;
        while i < self.engines.len()
            invariant
                i <= self.engines.len(),
                forall|k: int| 0 <= k < i ==> self.engines@[k] != engine_id,
            decreases self.engines.len() - i,
        {
            if self.engines[i] == engine_id {
                return true;
            }
            i += 1;
        }
        false
    }

    /// The place of the outcome of `engine_id` among the outcomes.
    fn find_result(&self, engine_id: EngineId) -> (place: Option<usize>)
        ensures
            place is Some <==> self@.has_result(engine_id),
            place matches Some(i) ==> i < self.results.len() && self.results@[i as int].engine
                == engine_id && self@.place_of(engine_id) == i,
    {
        proof {
            use_type_invariant(self);
        }
        let mut i: usize = 0;
        while i < self.results.len()
            invariant
                i <= self.results.len(),
                self@.wf(),
                forall|k: int| 0 <= k < i ==> self.results@[k].engine != engine_id,
            decreases self.results.len() - i,
        {
            if self.results[i].engine == engine_id {
                proof {
                    assert(self@.results[i as int].engine == engine_id);
                    let chosen = self@.place_of(engine_id);
                    assert(self@.results[chosen].engine == engine_id);
                    assert(chosen == i);
                }
                return Some(i);
            }
            i += 1;
        }
        proof {
            assert forall|k: int| 0 <= k < self@.results.len() implies self@.results[k].engine
                != engine_id by {
                assert(self.results@[k].engine != engine_id);
            }
        }
        None
    }

    /// The outcome recorded for `engine_id`, if there is one.
    pub fn result_of(&self, engine_id: EngineId) -> (found: Option<&Result<Vec<EngineFinding>, String>>)
        ensures
            match found {
                Some(result) => self@.result_of(engine_id) == Some(result_model(*result)),
                None => self@.result_of(engine_id) is None,
            },
    {
        match self.find_result(engine_id) {
            Some(i) => Some(&self.results[i].result),
            None => None,
        }
    }

    /// Records the outcome of an engine of the job, and says whether it did:
    /// an engine that is not part of the job is not recorded. A second outcome
    /// of one engine replaces the first.
    pub fn record_result(&mut self, engine_id: EngineId, outcome: Result<Vec<EngineFinding>, String>) -> (recorded:
        bool)
        ensures
            final(self)@ == old(self)@.record(engine_id, result_model(outcome)),
            recorded == old(self)@.engines.contains(engine_id),
            final(self)@.wf(),
    {
        proof {
            use_type_invariant(&*self);
            lemma_record_keeps_wf(self@, engine_id, result_model(outcome));
        }
        if !self.has_engine(engine_id) {
            return false;
        }
        let ghost before = self@;
        let place = self.find_result(engine_id);
        let entry = EngineOutcome { engine: engine_id, result: outcome };
        let mut results: Vec<EngineOutcome> = Vec::new();
        assert(outcome_models(results@) =~= Seq::empty());
        std::mem::swap(&mut self.results, &mut results);
        match place {
            Some(i) => {
                results.set(i, entry);
                assert(outcome_models(results@) =~= before.results.update(i as int, entry@));
            },
            None => {
                results.push(entry);
                assert(outcome_models(results@) =~= before.results.push(entry@));
            },
        }
        assert(outcome_models(results@) == before.record(engine_id, result_model(outcome)).results);
        std::mem::swap(&mut self.results, &mut results);
        true
    }

    /// The progress of the job as seen now.
    pub fn get_progress(&self) -> (progress: JobProgress)
        ensures
            self@.has_snapshot(progress@),
            progress.completed_engines <= progress.total_engines,
            progress.succeeded_engines + progress.failed_engines == progress.completed_engines,
    {
        let running = self.started_at.is_some() && self.completed_at.is_none();
        let now = if running {
            now_millis()
        } else {
            0
        };
        self.progress_at(now)
    }

    /// The progress of the job as seen at the time `now`.
    pub fn progress_at(&self, now: i64) -> (progress: JobProgress)
        ensures
            progress@ == self@.progress(now as int),
            progress.completed_engines <= progress.total_engines,
            progress.succeeded_engines + progress.failed_engines == progress.completed_engines,
    {
        proof {
            use_type_invariant(self);
            lemma_results_within_engines(self@);
            lemma_succeeded_plus_failed(self@.results);
        }
        let total = self.engines.len();
        let completed = self.results.len();
        let ghost models = self@.results;
        let mut succeeded_engines: usize = 0;
        let mut failed_engines: usize = 0;
        let mut i: usize = 0;
        while i < self.results.len()
            invariant
                i <= self.results.len(),
                models == outcome_models(self.results@),
                succeeded_engines == models.take(i as int).filter(succeeded()).len(),
                failed_engines == models.take(i as int).filter(failed()).len(),
                succeeded_engines + failed_engines == i,
            decreases self.results.len() - i,
        {
            proof {
                let front = models.take(i as int);
                assert(models.take(i + 1) =~= front.push(models[i as int]));
                front.lemma_filter_len_push(succeeded(), models[i as int]);
                front.lemma_filter_len_push(failed(), models[i as int]);
            }
            if self.results[i].result.is_ok() {
                succeeded_engines += 1;
            } else {
                failed_engines += 1;
            }
            i += 1;
        }
        assert(models.take(i as int) =~= models);
        let duration_ms = match (self.started_at, self.completed_at) {
            (Some(start), Some(end)) => Some(elapsed(start, end)),
            (Some(start), None) => Some(elapsed(start, now)),
            _ => None,
        };
        let current_engine = if completed < total && self.status == JobStatus::Running {
            Some(self.engines[completed].to_string())
        } else {
            None
        };
        JobProgress {
            job_id: self.id.clone(),
            case_id: self.case_id.clone(),
            status: self.status,
            total_engines: total,
            completed_engines: completed,
            succeeded_engines,
            failed_engines,
            duration_ms,
            current_engine,
        }
    }

    /// The number of findings over all engines that succeeded; a count beyond
    /// the range of `usize` is given as its largest value.
    pub fn total_findings(&self) -> (total: usize)
        ensures
            total as nat == if self@.total_findings() <= usize::MAX {
                self@.total_findings()
            } else {
                usize::MAX as nat
            },
    {
        let ghost models = self@.results;
        let mut total: usize = 0;
        let mut i: usize = 0;
        while i < self.results.len()
            invariant
                i <= self.results.len(),
                models == outcome_models(self.results@),
                total as nat == if findings_in(models.take(i as int)) <= usize::MAX {
                    findings_in(models.take(i as int))
                } else {
                    usize::MAX as nat
                },
            decreases self.results.len() - i,
        {
            proof {
                assert(models.take(i + 1).drop_last() =~= models.take(i as int));
            }
            match &self.results[i].result {
                Ok(findings) => {
                    total = total.saturating_add(findings.len());
                },
                Err(_) => {},
            }
            i += 1;
        }
        assert(models.take(i as int) =~= models);
        total
    }
}

} // verus!

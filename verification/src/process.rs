//! The execution of a job from its first step to its last, as it follows
//! from the steps of the orchestrator, and what holds of every execution.

use crate::catalog::EngineId;
use crate::events::EventModel;
use crate::job::{
    lemma_record_keeps_wf, lemma_results_within_engines, lemma_succeeded_plus_failed, JobModel,
    JobStatus, OutcomeModel,
};
use crate::orchestrator::{
    lemma_put_keeps_wf, EngineResultModel, OrchestratorModel, RunModel, StepModel,
};
use vstd::prelude::*;

verus! {

/// The outcome of an engine run, as it is handed to the orchestrator.
pub type RunOutcome = Result<EngineResultModel, Seq<char>>;

/// Whether an outcome is placeholder output.
pub open spec fn is_mock(outcome: RunOutcome) -> bool {
    outcome matches Ok(result) && result.used_mock_mode
}

/// Whether one of the outcomes is placeholder output.
pub open spec fn any_mock(outcomes: Seq<RunOutcome>) -> bool {
    exists|k: int| 0 <= k < outcomes.len() && is_mock(#[trigger] outcomes[k])
}

/// Tells the warnings about placeholder output of the job `job_id`.
pub open spec fn warnings_of(job_id: Seq<char>) -> spec_fn(EventModel) -> bool {
    |event: EventModel| event.warns_of_mock_mode(job_id)
}

/// One round of a run: the step and, where it asks for an engine to be run,
/// the recording of what the engine produced. A run that is not asked to run
/// an engine stays where it is.
pub open spec fn round(m: OrchestratorModel, run: RunModel, outcome: RunOutcome) -> (
    OrchestratorModel,
    RunModel,
) {
    match m.step_of(run) {
        StepModel::Invoke { .. } => {
            let asked = m.after_step(run, 0);
            (asked.after_record(run, outcome), asked.run_after_record(run, outcome))
        },
        _ => (m, run),
    }
}

/// As many rounds of a run as there are outcomes, in their order.
pub open spec fn rounds(m: OrchestratorModel, run: RunModel, outcomes: Seq<RunOutcome>) -> (
    OrchestratorModel,
    RunModel,
)
    decreases outcomes.len(),
{
    if outcomes.len() == 0 {
        (m, run)
    } else {
        let before = rounds(m, run, outcomes.drop_last());
        round(before.0, before.1, outcomes.last())
    }
}

/// The whole execution of the job `job_id`: its run is opened at the time
/// `started`, each engine produces the outcome listed for it, and the step
/// after the last outcome is taken at the time `ended`.
pub open spec fn process_job(
    m: OrchestratorModel,
    job_id: Seq<char>,
    outcomes: Seq<RunOutcome>,
    started: int,
    ended: int,
) -> OrchestratorModel {
    let opened = RunModel { job_id, position: 0, mock_mode_detected: false };
    let worked = rounds(m.start(job_id, started), opened, outcomes);
    worked.0.after_step(worked.1, ended)
}

/// A job once the outcomes are recorded for the engines that stand from the
/// place `from` on in its list.
pub open spec fn record_all(job: JobModel, from: nat, outcomes: Seq<RunOutcome>) -> JobModel
    decreases outcomes.len(),
{
    if outcomes.len() == 0 {
        job
    } else {
        record_all(job, from, outcomes.drop_last()).record(
            job.engines[from + outcomes.len() - 1],
            OrchestratorModel::stored_result(outcomes.last()),
        )
    }
}

/// The notifications of as many rounds as there are outcomes, for a run of
/// a job with the engine list `engines`.
pub open spec fn trace(run: RunModel, engines: Seq<EngineId>, outcomes: Seq<RunOutcome>) -> Seq<
    EventModel,
>
    decreases outcomes.len(),
{
    if outcomes.len() == 0 {
        Seq::empty()
    } else {
        let earlier = outcomes.drop_last();
        let place = run.position + earlier.len();
        let at = RunModel {
            position: place,
            mock_mode_detected: run.mock_mode_detected || any_mock(earlier),
            ..run
        };
        trace(run, engines, earlier).push(
            EventModel::Progress {
                job_id: run.job_id,
                engine_id: engines[place as int].name_of(),
                completed: place,
                total: engines.len(),
            },
        ) + OrchestratorModel::outcome_events(at, engines[place as int], outcomes.last())
    }
}

/// Recording outcomes changes nothing of a job but its outcomes, and keeps
/// its invariant.
pub proof fn lemma_record_all_frame(job: JobModel, from: nat, outcomes: Seq<RunOutcome>)
    requires
        job.wf(),
    ensures
        record_all(job, from, outcomes).wf(),
        record_all(job, from, outcomes) == (JobModel {
            results: record_all(job, from, outcomes).results,
            ..job
        }),
    decreases outcomes.len(),
{
    if outcomes.len() > 0 {
        lemma_record_all_frame(job, from, outcomes.drop_last());
        lemma_record_keeps_wf(
            record_all(job, from, outcomes.drop_last()),
            job.engines[from + outcomes.len() - 1],
            OrchestratorModel::stored_result(outcomes.last()),
        );
    }
}

/// A list of outcomes holds placeholder output where its front does or its
/// last outcome is such.
pub proof fn lemma_any_mock_last(outcomes: Seq<RunOutcome>)
    requires
        outcomes.len() > 0,
    ensures
        any_mock(outcomes) == (any_mock(outcomes.drop_last()) || is_mock(outcomes.last())),
{
    let earlier = outcomes.drop_last();
    if any_mock(earlier) {
        let k = choose|k: int| 0 <= k < earlier.len() && is_mock(#[trigger] earlier[k]);
        assert(is_mock(outcomes[k]));
    }
    if is_mock(outcomes.last()) {
        assert(is_mock(outcomes[outcomes.len() - 1]));
    }
    if any_mock(outcomes) {
        let k = choose|k: int| 0 <= k < outcomes.len() && is_mock(#[trigger] outcomes[k]);
        if k < outcomes.len() - 1 {
            assert(is_mock(earlier[k]));
        }
    }
}

/// What the rounds of a run come to, for a registered job that is running
/// and has an engine for every outcome: the run has moved on by
/// the number of outcomes, the job holds them, the notifications are those
/// of the trace, and nothing else has changed.
pub proof fn lemma_rounds(m: OrchestratorModel, run: RunModel, outcomes: Seq<RunOutcome>)
    requires
        m.wf(),
        m.job(run.job_id) is Some,
        m.job(run.job_id).unwrap().status == JobStatus::Running,
        run.position + outcomes.len() <= m.job(run.job_id).unwrap().engines.len(),
    ensures
        ({
            let job = m.job(run.job_id).unwrap();
            let end = rounds(m, run, outcomes);
            &&& end.0.wf()
            &&& end.1 == (RunModel {
                position: run.position + outcomes.len(),
                mock_mode_detected: run.mock_mode_detected || any_mock(outcomes),
                ..run
            })
            &&& end.0.job(run.job_id) == Some(record_all(job, run.position, outcomes))
            &&& end.0.events == m.events + trace(run, job.engines, outcomes)
            &&& end.0.runner == m.runner
            &&& end.0.jobs.len() == m.jobs.len()
            &&& forall|other: Seq<char>| other != run.job_id ==> end.0.job(other) == m.job(other)
        }),
    decreases outcomes.len(),
{
    let job = m.job(run.job_id).unwrap();
    let at_job = m.index_of(run.job_id);
    assert(m.jobs[at_job].wf());
    if outcomes.len() == 0 {
        assert(m.events + trace(run, job.engines, outcomes) =~= m.events);
        assert(!any_mock(outcomes));
    } else {
        let earlier = outcomes.drop_last();
        let last = outcomes.last();
        lemma_rounds(m, run, earlier);
        lemma_record_all_frame(job, run.position, earlier);
        lemma_any_mock_last(outcomes);
        let before = rounds(m, run, earlier);
        let m1 = before.0;
        let r1 = before.1;
        let job1 = record_all(job, run.position, earlier);
        assert(m1.job(run.job_id) == Some(job1));
        assert(job1.engines == job.engines);
        assert(job1.status == job.status);
        let engine_id = job.engines[r1.position as int];
        assert(m1.step_of(r1) is Invoke);
        let asked = m1.after_step(r1, 0);
        assert(asked.jobs == m1.jobs);
        assert(asked.job(run.job_id) == Some(job1));
        let job2 = job1.record(engine_id, OrchestratorModel::stored_result(last));
        lemma_record_keeps_wf(job1, engine_id, OrchestratorModel::stored_result(last));
        assert(asked.wf());
        lemma_put_keeps_wf(asked, job2);
        let end = round(m1, r1, last);
        assert(end.0.jobs == asked.put(job2).jobs);
        assert(end.0.wf());
        assert(end.0.job(run.job_id) == Some(job2)) by {
            assert(end.0.jobs == asked.put(job2).jobs);
            assert(asked.put(job2).job(run.job_id) == Some(job2));
            lemma_same_jobs_same_lookup(end.0, asked.put(job2), run.job_id);
        }
        assert(end.0.events =~= m.events + trace(run, job.engines, outcomes));
        assert forall|other: Seq<char>| other != run.job_id implies end.0.job(other) == m.job(
            other,
        ) by {
            lemma_same_jobs_same_lookup(end.0, asked.put(job2), other);
            lemma_same_jobs_same_lookup(asked, m1, other);
        }
    }
}

/// Two orchestrators with the same jobs find the same job under a name.
pub proof fn lemma_same_jobs_same_lookup(a: OrchestratorModel, b: OrchestratorModel, id: Seq<char>)
    requires
        a.jobs == b.jobs,
    ensures
        a.job(id) == b.job(id),
        a.has_job(id) == b.has_job(id),
{
    if a.has_job(id) {
        let i = a.index_of(id);
        assert(b.jobs[i].id == id);
    }
    if b.has_job(id) {
        let i = b.index_of(id);
        assert(a.jobs[i].id == id);
    }
}

/// Recording one outcome for each engine of a job that has none yet, and
/// whose engines differ from each other, leaves one outcome for each engine,
/// in the order of the engine list.
pub proof fn lemma_record_all_in_order(job: JobModel, outcomes: Seq<RunOutcome>)
    requires
        job.wf(),
        job.results.len() == 0,
        job.engines.no_duplicates(),
        outcomes.len() <= job.engines.len(),
    ensures
        record_all(job, 0, outcomes).results.len() == outcomes.len(),
        forall|k: int|
            0 <= k < outcomes.len() ==> (#[trigger] record_all(job, 0, outcomes).results[k])
                == (OutcomeModel {
                engine: job.engines[k],
                result: OrchestratorModel::stored_result(outcomes[k]),
            }),
    decreases outcomes.len(),
{
    if outcomes.len() > 0 {
        let earlier = outcomes.drop_last();
        lemma_record_all_in_order(job, earlier);
        lemma_record_all_frame(job, 0, earlier);
        let before = record_all(job, 0, earlier);
        let place = outcomes.len() - 1;
        let engine_id = job.engines[place];
        assert(!before.has_result(engine_id)) by {
            if before.has_result(engine_id) {
                let i = before.place_of(engine_id);
                assert(before.results[i].engine == job.engines[i]);
            }
        }
        assert(before.engines.contains(engine_id)) by {
            assert(before.engines[place] == engine_id);
        }
        let after = record_all(job, 0, outcomes);
        assert(after.results == before.results.push(
            OutcomeModel { engine: engine_id, result: OrchestratorModel::stored_result(outcomes.last()) },
        ));
        assert forall|k: int| 0 <= k < outcomes.len() implies (#[trigger] after.results[k])
            == (OutcomeModel {
            engine: job.engines[k],
            result: OrchestratorModel::stored_result(outcomes[k]),
        }) by {
            if k < place {
                assert(after.results[k] == before.results[k]);
                assert(earlier[k] == outcomes[k]);
            }
        }
    }
}

/// Recording an outcome for one engine keeps the outcomes of the others.
pub proof fn lemma_record_keeps_others(
    job: JobModel,
    engine: EngineId,
    result: Result<Seq<crate::finding::FindingModel>, Seq<char>>,
    other: EngineId,
)
    requires
        job.wf(),
        job.has_result(other),
    ensures
        job.record(engine, result).has_result(other),
{
    let at = job.place_of(other);
    let next = job.record(engine, result);
    assert(next.results[at].engine == other);
}

/// Every engine for which an outcome was handed in has an outcome in the
/// job afterwards, be it findings or a failure: none is lost, whether or
/// not the job lists an engine twice.
pub proof fn lemma_attempted_engines_have_outcomes(
    job: JobModel,
    from: nat,
    outcomes: Seq<RunOutcome>,
)
    requires
        job.wf(),
        from + outcomes.len() <= job.engines.len(),
    ensures
        forall|k: int|
            from <= k < from + outcomes.len() ==> record_all(job, from, outcomes).has_result(
                #[trigger] job.engines[k],
            ),
    decreases outcomes.len(),
{
    if outcomes.len() > 0 {
        let earlier = outcomes.drop_last();
        lemma_attempted_engines_have_outcomes(job, from, earlier);
        lemma_record_all_frame(job, from, earlier);
        let before = record_all(job, from, earlier);
        let place = from + outcomes.len() - 1;
        let engine_id = job.engines[place];
        let stored = OrchestratorModel::stored_result(outcomes.last());
        assert(before.engines.contains(engine_id)) by {
            assert(before.engines[place] == engine_id);
        }
        lemma_record_keeps_wf(before, engine_id, stored);
        assert forall|k: int| from <= k < from + outcomes.len() implies record_all(
            job,
            from,
            outcomes,
        ).has_result(#[trigger] job.engines[k]) by {
            if k < place {
                lemma_record_keeps_others(before, engine_id, stored, job.engines[k]);
            }
        }
    }
}

/// The trace of a run holds one warning about placeholder output where the
/// run had seen none before and one of the outcomes is such output, and else
/// holds no warning.
pub proof fn lemma_trace_warns_once(run: RunModel, engines: Seq<EngineId>, outcomes: Seq<RunOutcome>)
    ensures
        trace(run, engines, outcomes).filter(warnings_of(run.job_id)).len() == if any_mock(outcomes)
            && !run.mock_mode_detected {
            1int
        } else {
            0int
        },
    decreases outcomes.len(),
{
    let warns = warnings_of(run.job_id);
    if outcomes.len() == 0 {
        assert(trace(run, engines, outcomes) =~= Seq::<EventModel>::empty());
        Seq::<EventModel>::empty().lemma_filter_len(warns);
        assert(!any_mock(outcomes));
    } else {
        let earlier = outcomes.drop_last();
        let last = outcomes.last();
        lemma_trace_warns_once(run, engines, earlier);
        lemma_any_mock_last(outcomes);
        let place = run.position + earlier.len();
        let at = RunModel {
            position: place,
            mock_mode_detected: run.mock_mode_detected || any_mock(earlier),
            ..run
        };
        let progress = EventModel::Progress {
            job_id: run.job_id,
            engine_id: engines[place as int].name_of(),
            completed: place,
            total: engines.len(),
        };
        let front = trace(run, engines, earlier);
        let tail = OrchestratorModel::outcome_events(at, engines[place as int], last);
        front.lemma_filter_len_push(warns, progress);
        Seq::filter_distributes_over_add(front.push(progress), tail, warns);
        lemma_outcome_events_warn(at, engines[place as int], last);
    }
}

/// The notifications of one outcome hold a warning about placeholder output
/// exactly where the outcome is such output and the run had seen none.
pub proof fn lemma_outcome_events_warn(run: RunModel, engine_id: EngineId, outcome: RunOutcome)
    ensures
        OrchestratorModel::outcome_events(run, engine_id, outcome).filter(
            warnings_of(run.job_id),
        ).len() == if is_mock(outcome) && !run.mock_mode_detected {
            1int
        } else {
            0int
        },
{
    let warns = warnings_of(run.job_id);
    let events = OrchestratorModel::outcome_events(run, engine_id, outcome);
    let none = Seq::<EventModel>::empty();
    none.lemma_filter_len(warns);
    assert(none.filter(warns).len() == 0);
    if events.len() == 1 {
        assert(events =~= none.push(events[0]));
        none.lemma_filter_len_push(warns, events[0]);
    } else {
        assert(events.len() == 2);
        assert(events =~= none.push(events[0]).push(events[1]));
        none.lemma_filter_len_push(warns, events[0]);
        none.push(events[0]).lemma_filter_len_push(warns, events[1]);
    }
}

/// A job that has an outcome for each of its engines, and lists no engine
/// twice, has as many outcomes as engines.
pub proof fn lemma_all_recorded_is_full(job: JobModel)
    requires
        job.wf(),
        job.engines.no_duplicates(),
        forall|k: int| 0 <= k < job.engines.len() ==> job.has_result(#[trigger] job.engines[k]),
    ensures
        job.results.len() == job.engines.len(),
{
    lemma_results_within_engines(job);
    let recorded = job.results.map_values(|o: OutcomeModel| o.engine);
    assert(recorded.no_duplicates());
    recorded.unique_seq_to_set();
    job.engines.unique_seq_to_set();
    assert(job.engines.to_set().subset_of(recorded.to_set())) by {
        assert forall|e: EngineId| job.engines.to_set().contains(e) implies recorded.to_set().contains(
            e,
        ) by {
            let k = choose|k: int| 0 <= k < job.engines.len() && job.engines[k] == e;
            assert(job.has_result(job.engines[k]));
            let at = job.place_of(e);
            assert(recorded[at] == e);
        }
    }
    vstd::seq_lib::seq_to_set_is_finite(recorded);
    vstd::set_lib::lemma_len_subset(job.engines.to_set(), recorded.to_set());
}

/// A pending job that is executed to its end is completed, and the engines
/// it has completed are as many as it has. This holds of every pending job
/// that lists no engine twice, when every engine produces an outcome and no
/// cancellation comes between.
pub proof fn lemma_executed_job_is_complete(
    m: OrchestratorModel,
    job_id: Seq<char>,
    outcomes: Seq<RunOutcome>,
    started: int,
    ended: int,
)
    requires
        m.wf(),
        m.job(job_id) is Some,
        m.job(job_id).unwrap().status == JobStatus::Pending,
        m.job(job_id).unwrap().engines.no_duplicates(),
        outcomes.len() == m.job(job_id).unwrap().engines.len(),
    ensures
        ({
            let job = m.job(job_id).unwrap();
            let end = process_job(m, job_id, outcomes, started, ended);
            &&& end.wf()
            &&& end.job(job_id) matches Some(done)
            &&& done.status == JobStatus::Completed
            &&& done.engines == job.engines
            &&& done.results.len() == done.engines.len()
            &&& done == record_all(job.start(started), 0, outcomes).complete(ended)
            &&& forall|now: int| #[trigger]
                done.progress(now).completed_engines == done.progress(now).total_engines
        }),
{
    let job = m.job(job_id).unwrap();
    let at_job = m.index_of(job_id);
    assert(m.jobs[at_job].wf());
    let opened = RunModel { job_id, position: 0, mock_mode_detected: false };
    let begun = m.start(job_id, started);
    let job0 = job.start(started);
    lemma_put_keeps_wf(m, job0);
    assert(begun.job(job_id) == Some(job0));
    lemma_rounds(begun, opened, outcomes);
    lemma_record_all_frame(job0, 0, outcomes);
    lemma_attempted_engines_have_outcomes(job0, 0, outcomes);
    let worked = rounds(begun, opened, outcomes);
    let job1 = record_all(job0, 0, outcomes);
    assert(job1.engines == job.engines);
    lemma_all_recorded_is_full(job1);
    assert(worked.0.job(job_id) == Some(job1));
    assert(worked.0.step_of(worked.1) is Finished);
    let done = job1.complete(ended);
    lemma_put_keeps_wf(worked.0, done);
    let end = process_job(m, job_id, outcomes, started, ended);
    assert(end.jobs == worked.0.put(done).jobs);
    lemma_same_jobs_same_lookup(end, worked.0.put(done), job_id);
}

/// A pending job that is executed to its end from a state without outcomes holds
/// the outcome of each engine at the place of the engine in its list: the
/// outcomes are recorded in the order of the engine list.
pub proof fn lemma_executed_job_records_in_order(
    m: OrchestratorModel,
    job_id: Seq<char>,
    outcomes: Seq<RunOutcome>,
    started: int,
    ended: int,
)
    requires
        m.wf(),
        m.job(job_id) is Some,
        m.job(job_id).unwrap().status == JobStatus::Pending,
        m.job(job_id).unwrap().results.len() == 0,
        m.job(job_id).unwrap().engines.no_duplicates(),
        outcomes.len() == m.job(job_id).unwrap().engines.len(),
    ensures
        ({
            let job = m.job(job_id).unwrap();
            let end = process_job(m, job_id, outcomes, started, ended);
            &&& end.job(job_id) matches Some(done)
            &&& forall|k: int|
                0 <= k < outcomes.len() ==> (#[trigger] done.results[k]) == (OutcomeModel {
                    engine: job.engines[k],
                    result: OrchestratorModel::stored_result(outcomes[k]),
                })
        }),
{
    let job = m.job(job_id).unwrap();
    let at_job = m.index_of(job_id);
    assert(m.jobs[at_job].wf());
    lemma_executed_job_is_complete(m, job_id, outcomes, started, ended);
    lemma_record_all_in_order(job.start(started), outcomes);
}

/// A pending job that is executed to its end is warned about placeholder
/// output once where any engine fell back to it, however many did, and not
/// at all where none did.
pub proof fn lemma_executed_job_warns_once(
    m: OrchestratorModel,
    job_id: Seq<char>,
    outcomes: Seq<RunOutcome>,
    started: int,
    ended: int,
)
    requires
        m.wf(),
        m.job(job_id) is Some,
        m.job(job_id).unwrap().status == JobStatus::Pending,
        outcomes.len() == m.job(job_id).unwrap().engines.len(),
    ensures
        ({
            let end = process_job(m, job_id, outcomes, started, ended);
            &&& m.events.len() <= end.events.len()
            &&& end.events.take(m.events.len() as int) == m.events
            &&& end.events.skip(m.events.len() as int).filter(warnings_of(job_id)).len()
                == if any_mock(outcomes) {
                1int
            } else {
                0int
            }
        }),
{
    let job = m.job(job_id).unwrap();
    let at_job = m.index_of(job_id);
    assert(m.jobs[at_job].wf());
    let opened = RunModel { job_id, position: 0, mock_mode_detected: false };
    let begun = m.start(job_id, started);
    let job0 = job.start(started);
    lemma_put_keeps_wf(m, job0);
    assert(begun.job(job_id) == Some(job0));
    assert(begun.events == m.events);
    lemma_rounds(begun, opened, outcomes);
    lemma_record_all_frame(job0, 0, outcomes);
    lemma_trace_warns_once(opened, job0.engines, outcomes);
    let worked = rounds(begun, opened, outcomes);
    let job1 = record_all(job0, 0, outcomes);
    assert(worked.0.job(job_id) == Some(job1));
    assert(worked.0.step_of(worked.1) is Finished);
    let end = process_job(m, job_id, outcomes, started, ended);
    let steps = trace(opened, job0.engines, outcomes);
    let closing = EventModel::Complete { job_id, engines_completed: worked.1.position };
    assert(end.events =~= m.events + steps.push(closing));
    assert(end.events.take(m.events.len() as int) =~= m.events);
    assert(end.events.skip(m.events.len() as int) =~= steps.push(closing));
    steps.lemma_filter_len_push(warnings_of(job_id), closing);
}

/// However a job came to be, the engines it has completed are never more
/// than it has, and each of them either succeeded or failed.
pub proof fn lemma_progress_is_consistent(job: JobModel, now: int)
    requires
        job.wf(),
    ensures
        job.progress(now).completed_engines <= job.progress(now).total_engines,
        job.progress(now).succeeded_engines + job.progress(now).failed_engines == job.progress(
            now,
        ).completed_engines,
{
    lemma_results_within_engines(job);
    lemma_succeeded_plus_failed(job.results);
}

/// The changes of the status of a job: a pending job is set running or
/// cancelled, a running job is completed or cancelled, and there is no
/// other change. Nothing leads out of `Completed`, `Failed` or `Cancelled`,
/// and nothing into `Failed`.
pub open spec fn changes_to(before: JobStatus, after: JobStatus) -> bool {
    ||| before == JobStatus::Pending && after == JobStatus::Running
    ||| before == JobStatus::Running && after == JobStatus::Completed
    ||| (before == JobStatus::Pending || before == JobStatus::Running) && after
        == JobStatus::Cancelled
}

/// What the status of a job may become by any number of changes.
pub open spec fn may_become(before: JobStatus, after: JobStatus) -> bool {
    ||| after == before
    ||| changes_to(before, after)
    ||| before == JobStatus::Pending && after == JobStatus::Completed
}

/// Whether every job of `m` is still registered in `later`, in the status
/// it had or in one to which that status changes.
pub open spec fn moved_a_step(m: OrchestratorModel, later: OrchestratorModel) -> bool {
    forall|id: Seq<char>| #[trigger]
        m.has_job(id) ==> later.has_job(id) && (later.job(id).unwrap().status == m.job(
            id,
        ).unwrap().status || changes_to(
            m.job(id).unwrap().status,
            later.job(id).unwrap().status,
        ))
}

/// Whether every job of `m` is still registered in `later`, in a status
/// that its status in `m` may become.
pub open spec fn moved_forward(m: OrchestratorModel, later: OrchestratorModel) -> bool {
    forall|id: Seq<char>| #[trigger]
        m.has_job(id) ==> later.has_job(id) && may_become(
            m.job(id).unwrap().status,
            later.job(id).unwrap().status,
        )
}

/// One operation of the orchestrator.
pub enum Operation {
    Submit { request: crate::orchestrator::RequestModel, id: Seq<char>, now: int },
    Cancel { id: Seq<char> },
    Start { id: Seq<char>, now: int },
    Step { run: RunModel, now: int },
    Record { run: RunModel, outcome: RunOutcome },
    SingleRun { outcome: RunOutcome },
}

/// The orchestrator after one operation.
pub open spec fn after(m: OrchestratorModel, operation: Operation) -> OrchestratorModel {
    match operation {
        Operation::Submit { request, id, now } => m.submit(request, id, now),
        Operation::Cancel { id } => m.cancel(id),
        Operation::Start { id, now } => m.start(id, now),
        Operation::Step { run, now } => m.after_step(run, now),
        Operation::Record { run, outcome } => m.after_record(run, outcome),
        Operation::SingleRun { outcome } => m.after_single_run(outcome),
    }
}

/// The orchestrator after a history of operations, the first of them first.
pub open spec fn after_all(m: OrchestratorModel, history: Seq<Operation>) -> OrchestratorModel
    decreases history.len(),
{
    if history.len() == 0 {
        m
    } else {
        after(after_all(m, history.drop_last()), history.last())
    }
}

/// Putting a job in the place of one whose status is its own or changes to
/// its own moves every job by a step at most.
proof fn lemma_put_moves_forward(m: OrchestratorModel, job: JobModel, next: OrchestratorModel)
    requires
        m.wf(),
        job.wf(),
        m.job(job.id) matches Some(earlier) ==> earlier.status == job.status || changes_to(
            earlier.status,
            job.status,
        ),
        next.jobs == m.put(job).jobs,
    ensures
        next.wf(),
        moved_a_step(m, next),
{
    lemma_put_keeps_wf(m, job);
    assert forall|id: Seq<char>| #[trigger] m.has_job(id) implies next.has_job(id) && (next.job(
        id,
    ).unwrap().status == m.job(id).unwrap().status || changes_to(
        m.job(id).unwrap().status,
        next.job(id).unwrap().status,
    )) by {
        lemma_same_jobs_same_lookup(next, m.put(job), id);
        if id != job.id {
            assert(m.put(job).job(id) == m.job(id));
        }
    }
}

/// Leaving the jobs as they are moves no job.
proof fn lemma_same_jobs_move_forward(m: OrchestratorModel, next: OrchestratorModel)
    requires
        m.wf(),
        next.jobs == m.jobs,
    ensures
        next.wf(),
        moved_a_step(m, next),
        moved_forward(m, next),
{
    assert forall|id: Seq<char>| #[trigger] m.has_job(id) implies next.has_job(id) && next.job(
        id,
    ).unwrap().status == m.job(id).unwrap().status by {
        lemma_same_jobs_same_lookup(next, m, id);
    }
}

/// Every operation keeps the invariant of the registry and every job that
/// is registered, and leaves the status of each job as it is or makes one
/// of the changes that there are.
pub proof fn lemma_operation_moves_forward(m: OrchestratorModel, operation: Operation)
    requires
        m.wf(),
    ensures
        after(m, operation).wf(),
        moved_a_step(m, after(m, operation)),
{
    let next = after(m, operation);
    match operation {
        Operation::Submit { request, id, now } => {
            crate::orchestrator::lemma_submit_keeps_jobs(m, request, id, now);
            assert forall|other: Seq<char>| #[trigger] m.has_job(other) implies next.has_job(
                other,
            ) && next.job(other).unwrap().status == m.job(other).unwrap().status by {
                assert(next.job(other) == m.job(other));
            }
        },
        Operation::Cancel { id } => {
            if m.has_job(id) && m.job(id).unwrap().cancellable() {
                let job = m.job(id).unwrap();
                assert(m.jobs[m.index_of(id)].wf());
                lemma_put_moves_forward(m, job.cancel(), next);
            } else {
                lemma_same_jobs_move_forward(m, next);
            }
        },
        Operation::Start { id, now } => {
            if m.has_job(id) && m.job(id).unwrap().status == JobStatus::Pending {
                let job = m.job(id).unwrap();
                assert(m.jobs[m.index_of(id)].wf());
                lemma_put_moves_forward(m, job.start(now), next);
            } else {
                lemma_same_jobs_move_forward(m, next);
            }
        },
        Operation::Step { run, now } => {
            if m.step_of(run) is Finished {
                let job = m.job(run.job_id).unwrap();
                assert(m.jobs[m.index_of(run.job_id)].wf());
                lemma_put_moves_forward(m, job.complete(now), next);
            } else {
                lemma_same_jobs_move_forward(m, next);
            }
        },
        Operation::Record { run, outcome } => {
            if m.can_record(run) {
                let job = m.job(run.job_id).unwrap();
                let engine_id = job.engines[run.position as int];
                assert(m.jobs[m.index_of(run.job_id)].wf());
                lemma_record_keeps_wf(job, engine_id, OrchestratorModel::stored_result(outcome));
                lemma_put_moves_forward(
                    m,
                    job.record(engine_id, OrchestratorModel::stored_result(outcome)),
                    next,
                );
            } else {
                lemma_same_jobs_move_forward(m, next);
            }
        },
        Operation::SingleRun { outcome } => {
            lemma_same_jobs_move_forward(m, next);
        },
    }
}

/// Whatever the history of operations, every job that was registered is
/// still registered afterwards: no job is ever removed or replaced. And its
/// status is one that its former status may become. In particular a job
/// that is cancelled stays cancelled, a job that is completed stays
/// completed, and no job that had not failed has failed.
pub proof fn lemma_history_moves_forward(m: OrchestratorModel, history: Seq<Operation>)
    requires
        m.wf(),
    ensures
        after_all(m, history).wf(),
        moved_forward(m, after_all(m, history)),
    decreases history.len(),
{
    if history.len() == 0 {
        lemma_same_jobs_move_forward(m, m);
    } else {
        let before = after_all(m, history.drop_last());
        lemma_history_moves_forward(m, history.drop_last());
        lemma_operation_moves_forward(before, history.last());
        let end = after_all(m, history);
        assert(end == after(before, history.last()));
        assert forall|id: Seq<char>| #[trigger] m.has_job(id) implies end.has_job(id)
            && may_become(m.job(id).unwrap().status, end.job(id).unwrap().status) by {
            assert(before.has_job(id) && may_become(
                m.job(id).unwrap().status,
                before.job(id).unwrap().status,
            ));
            assert(end.has_job(id) && (end.job(id).unwrap().status == before.job(
                id,
            ).unwrap().status || changes_to(
                before.job(id).unwrap().status,
                end.job(id).unwrap().status,
            )));
        }
    }
}

/// A job that is pending or running is cancelled by the first request to
/// cancel it, and by no other: whatever is done with the orchestrator
/// afterwards, the job stays cancelled, and every later request to cancel
/// it fails and changes nothing.
pub proof fn lemma_cancel_succeeds_once(
    m: OrchestratorModel,
    job_id: Seq<char>,
    history: Seq<Operation>,
)
    requires
        m.wf(),
        m.job(job_id) is Some,
        m.job(job_id).unwrap().cancellable(),
    ensures
        m.cancel_answer(job_id) == Ok::<(), Seq<char>>(()),
        m.cancel(job_id).job(job_id) == Some(m.job(job_id).unwrap().cancel()),
        ({
            let later = after_all(m.cancel(job_id), history);
            &&& later.job(job_id) matches Some(job)
            &&& job.status == JobStatus::Cancelled
            &&& later.cancel_answer(job_id) == Err::<(), Seq<char>>("Job is not running"@)
            &&& later.cancel(job_id) == later
        }),
{
    let job = m.job(job_id).unwrap();
    let at_job = m.index_of(job_id);
    assert(m.jobs[at_job].wf());
    lemma_put_keeps_wf(m, job.cancel());
    let cancelled = m.cancel(job_id);
    assert(cancelled.jobs == m.put(job.cancel()).jobs);
    lemma_same_jobs_same_lookup(cancelled, m.put(job.cancel()), job_id);
    lemma_operation_moves_forward(m, Operation::Cancel { id: job_id });
    lemma_history_moves_forward(cancelled, history);
    assert(cancelled.has_job(job_id));
}

/// A request to cancel a job that is completed, failed or cancelled already
/// fails and changes nothing, and so does one for a job that is not there.
pub proof fn lemma_cancel_of_finished_job_fails(m: OrchestratorModel, job_id: Seq<char>)
    requires
        m.job(job_id) matches Some(job) ==> !job.cancellable(),
    ensures
        m.cancel_answer(job_id) is Err,
        m.cancel(job_id) == m,
        m.job(job_id) is None ==> m.cancel_answer(job_id) == Err::<(), Seq<char>>("Job not found"@),
        m.job(job_id) is Some ==> m.cancel_answer(job_id) == Err::<(), Seq<char>>(
            "Job is not running"@,
        ),
{
}

/// The run of a job that is not running is told to stop, wherever it
/// stands, and the job is left as it is: a cancelled job runs no further
/// engine and is not marked completed, not even after its last engine.
pub proof fn lemma_cancelled_run_stops(m: OrchestratorModel, run: RunModel, now: int)
    requires
        m.job(run.job_id) matches Some(job) ==> job.status != JobStatus::Running,
    ensures
        m.step_of(run) is Stopped,
        m.after_step(run, now) == m,
{
}

/// A job that is cancelled before its run is opened is not run: opening
/// the run does not set it running, none of its engines is asked for, and
/// it is left exactly as it was, whatever outcomes stand ready. The same
/// holds of a job that is completed.
pub proof fn lemma_cancelled_job_is_not_run(
    m: OrchestratorModel,
    job_id: Seq<char>,
    outcomes: Seq<RunOutcome>,
    started: int,
    ended: int,
)
    requires
        m.job(job_id) matches Some(job) ==> job.status != JobStatus::Pending && job.status
            != JobStatus::Running,
    ensures
        process_job(m, job_id, outcomes, started, ended) == m,
{
    let opened = RunModel { job_id, position: 0, mock_mode_detected: false };
    assert(m.start(job_id, started) == m);
    lemma_rounds_of_stopped_run(m, opened, outcomes);
}

/// The rounds of a run change nothing where its job is not running.
proof fn lemma_rounds_of_stopped_run(m: OrchestratorModel, run: RunModel, outcomes: Seq<RunOutcome>)
    requires
        m.job(run.job_id) matches Some(job) ==> job.status != JobStatus::Running,
    ensures
        rounds(m, run, outcomes) == (m, run),
    decreases outcomes.len(),
{
    if outcomes.len() > 0 {
        lemma_rounds_of_stopped_run(m, run, outcomes.drop_last());
    }
}

/// A cancellation that arrives while an engine is at work does not disturb
/// that engine: its outcome is recorded. After it the run stops, also where
/// the engine was the last of the job, and the job stays cancelled: it is
/// not marked completed and no completion is noted.
pub proof fn lemma_cancel_during_an_engine(
    m: OrchestratorModel,
    run: RunModel,
    outcome: RunOutcome,
    now: int,
)
    requires
        m.wf(),
        m.job(run.job_id) matches Some(job) && job.status == JobStatus::Running && run.position
            < job.engines.len(),
    ensures
        ({
            let job = m.job(run.job_id).unwrap();
            let cancelled = m.cancel(run.job_id);
            let recorded = cancelled.after_record(run, outcome);
            let moved = cancelled.run_after_record(run, outcome);
            &&& recorded.job(run.job_id) matches Some(left)
            &&& left.status == JobStatus::Cancelled
            &&& left.completed_at == job.completed_at
            &&& left.result_of(job.engines[run.position as int]) == Some(
                OrchestratorModel::stored_result(outcome),
            )
            &&& moved.position == run.position + 1
            &&& recorded.step_of(moved) is Stopped
            &&& recorded.after_step(moved, now) == recorded
        }),
{
    let job = m.job(run.job_id).unwrap();
    assert(m.jobs[m.index_of(run.job_id)].wf());
    let cancelled = m.cancel(run.job_id);
    lemma_put_keeps_wf(m, job.cancel());
    assert(cancelled.jobs == m.put(job.cancel()).jobs);
    lemma_same_jobs_same_lookup(cancelled, m.put(job.cancel()), run.job_id);
    assert(cancelled.job(run.job_id) == Some(job.cancel()));
    lemma_operation_moves_forward(m, Operation::Cancel { id: run.job_id });
    let engine_id = job.engines[run.position as int];
    let stored = OrchestratorModel::stored_result(outcome);
    let left = job.cancel().record(engine_id, stored);
    assert(job.cancel().engines.contains(engine_id)) by {
        assert(job.cancel().engines[run.position as int] == engine_id);
    }
    lemma_record_keeps_wf(job.cancel(), engine_id, stored);
    lemma_put_keeps_wf(cancelled, left);
    let recorded = cancelled.after_record(run, outcome);
    assert(recorded.jobs == cancelled.put(left).jobs);
    lemma_same_jobs_same_lookup(recorded, cancelled.put(left), run.job_id);
}

/// Whether no job of an orchestrator has the status `Failed`.
pub open spec fn none_failed(m: OrchestratorModel) -> bool {
    forall|i: int| 0 <= i < m.jobs.len() ==> (#[trigger] m.jobs[i]).status != JobStatus::Failed
}

/// Registering a job that has not failed among jobs that have not failed
/// leaves none that has.
proof fn lemma_put_none_failed(m: OrchestratorModel, job: JobModel, next: OrchestratorModel)
    requires
        none_failed(m),
        job.status != JobStatus::Failed,
        next.jobs == m.put(job).jobs,
    ensures
        none_failed(next),
{
    assert forall|i: int| 0 <= i < next.jobs.len() implies (#[trigger] next.jobs[i]).status
        != JobStatus::Failed by {
        if m.has_job(job.id) {
            if i != m.index_of(job.id) {
                assert(next.jobs[i] == m.jobs[i]);
            }
        } else {
            if i < m.jobs.len() {
                assert(next.jobs[i] == m.jobs[i]);
            }
        }
    }
}

/// No history of operations gives a job the status `Failed`: where no job
/// has it before, none has it afterwards, the new jobs included. The
/// failure of an engine is the outcome of that engine, not of the job.
pub proof fn lemma_no_job_ever_fails(m: OrchestratorModel, history: Seq<Operation>)
    requires
        none_failed(m),
    ensures
        none_failed(after_all(m, history)),
    decreases history.len(),
{
    if history.len() > 0 {
        lemma_no_job_ever_fails(m, history.drop_last());
        let before = after_all(m, history.drop_last());
        let next = after_all(m, history);
        match history.last() {
            Operation::Submit { request, id, now } => {
                if before.submit_answer(request, id) is Ok {
                    lemma_put_none_failed(
                        before,
                        JobModel::created(
                            id,
                            request.case_id,
                            request.document_ids,
                            crate::orchestrator::resolve_all(request.engines),
                            now,
                        ),
                        next,
                    );
                }
            },
            Operation::Cancel { id } => {
                if before.has_job(id) && before.job(id).unwrap().cancellable() {
                    lemma_put_none_failed(before, before.jobs[before.index_of(id)].cancel(), next);
                }
            },
            Operation::Start { id, now } => {
                if before.has_job(id) && before.job(id).unwrap().status == JobStatus::Pending {
                    lemma_put_none_failed(before, before.jobs[before.index_of(id)].start(now), next);
                }
            },
            Operation::Step { run, now } => {
                if before.step_of(run) is Finished {
                    lemma_put_none_failed(
                        before,
                        before.jobs[before.index_of(run.job_id)].complete(now),
                        next,
                    );
                }
            },
            Operation::Record { run, outcome } => {
                if before.can_record(run) {
                    let job = before.jobs[before.index_of(run.job_id)];
                    lemma_put_none_failed(
                        before,
                        job.record(
                            job.engines[run.position as int],
                            OrchestratorModel::stored_result(outcome),
                        ),
                        next,
                    );
                }
            },
            Operation::SingleRun { outcome } => {},
        }
    }
}

/// A submission of which no engine name resolves is refused and changes
/// nothing. Any other, under an identifier that no job has, registers a
/// pending job for exactly the engines that resolve, in the order of their
/// names, and answers with the identifier. Either way every job that was
/// registered stays as it was.
pub proof fn lemma_submission(
    m: OrchestratorModel,
    request: crate::orchestrator::RequestModel,
    job_id: Seq<char>,
    now: int,
)
    requires
        m.wf(),
    ensures
        crate::orchestrator::resolve_all(request.engines).len() == 0 ==> m.submit_answer(
            request,
            job_id,
        ) is Err && m.submit(request, job_id, now) == m,
        crate::orchestrator::resolve_all(request.engines).len() > 0 && !m.has_job(job_id)
            ==> m.submit_answer(request, job_id) == Ok::<Seq<char>, Seq<char>>(job_id)
            && m.submit(request, job_id, now).job(job_id) == Some(
            JobModel::created(
                job_id,
                request.case_id,
                request.document_ids,
                crate::orchestrator::resolve_all(request.engines),
                now,
            ),
        ) && m.submit(request, job_id, now).jobs.len() == m.jobs.len() + 1,
        m.has_job(job_id) ==> m.submit_answer(request, job_id) is Err && m.submit(
            request,
            job_id,
            now,
        ) == m,
        m.kept_by(m.submit(request, job_id, now)),
        m.submit(request, job_id, now).wf(),
{
    crate::orchestrator::lemma_submit_keeps_jobs(m, request, job_id, now);
}

} // verus!

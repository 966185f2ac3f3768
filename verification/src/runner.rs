//! The worker runner: where the worker is to be found, whether a run falls
//! back to placeholder output, and what a run hands to its caller.

use crate::catalog::EngineId;
use crate::finding::{finding_models, EngineFinding, FindingModel};
use crate::mock::{placeholder_findings, placeholder_models};
use crate::platform::{fresh_id, path_exists};
use crate::protocol::{build_request, conclude, WorkerExchange, WorkerRequest};
use crate::text::{join_path, joined_path, text_list};
use vstd::prelude::*;
use vstd::string::StringExecFns;

verus! {

/// What one engine run produced, and whether it is placeholder output.
#[derive(Debug)]
pub struct EngineResult {
    pub findings: Vec<EngineFinding>,
    pub used_mock_mode: bool,
}

/// What a run comes to before any process is started.
#[derive(Debug)]
pub enum Invocation {
    /// The run is over: it fell back to placeholder output.
    Done(Result<EngineResult, String>),
    /// The worker at `path` is to be handed `request`; what comes of the
    /// exchange is then given to [`EngineRunner::finish_worker_run`].
    AskWorker { path: String, request: WorkerRequest },
}

/// The settings of a runner, as mathematical values.
pub struct RunnerModel {
    pub sidecar_path: Option<Seq<char>>,
    pub mock_mode: bool,
}

impl RunnerModel {
    /// Whether a run falls back to placeholder output: the switch is set, or
    /// no worker path is configured, or nothing is there at the path.
    pub open spec fn falls_back(self, path_present: bool) -> bool {
        self.mock_mode || self.sidecar_path is None || !path_present
    }
}

/// The first place in which the worker is looked for by default.
pub open spec fn first_candidate() -> Seq<char> {
    "sidecars/engine-runner.js"@
}

/// The second place in which the worker is looked for by default.
pub open spec fn second_candidate() -> Seq<char> {
    "src-tauri/sidecars/engine-runner.js"@
}

/// The default place that is taken, given which of the two are present.
pub open spec fn chosen_candidate(first_present: bool, second_present: bool) -> Option<Seq<char>> {
    if first_present {
        Some(first_candidate())
    } else if second_present {
        Some(second_candidate())
    } else {
        None
    }
}

/// Where the worker lies below a resource directory.
pub open spec fn bundled_path(resource_dir: Seq<char>) -> Seq<char> {
    joined_path(joined_path(resource_dir, "sidecars"@), "engine-runner.js"@)
}

/// Whether a run ended at once with the placeholder output of `engine_id`
/// for `document_ids`: one synthetic finding under an identifier of its own.
pub open spec fn is_placeholder_run(
    invocation: Invocation,
    engine_id: EngineId,
    document_ids: Seq<Seq<char>>,
) -> bool {
    &&& invocation matches Invocation::Done(Ok(result))
    &&& result.used_mock_mode
    &&& result.findings.len() == 1
    &&& finding_models(result.findings@) == placeholder_models(
        engine_id,
        document_ids,
        result.findings[0].id@,
    )
}

/// A run that ended at once with placeholder output handed out at least one
/// finding, and every finding it handed out is tagged as synthetic and
/// attributed to the engine that was asked for.
pub proof fn lemma_placeholder_run_is_synthetic(
    invocation: Invocation,
    engine_id: EngineId,
    document_ids: Seq<Seq<char>>,
)
    requires
        is_placeholder_run(invocation, engine_id, document_ids),
    ensures
        invocation matches Invocation::Done(Ok(result)) && result.used_mock_mode
            && result.findings.len() >= 1 && forall|i: int|
            0 <= i < result.findings.len() ==> (#[trigger] result.findings[i])@.is_synthetic()
                && result.findings[i]@.engine_id == engine_id.name_of()
                && result.findings[i]@.document_ids == document_ids,
{
    match invocation {
        Invocation::Done(Ok(result)) => {
            crate::mock::lemma_placeholder_is_tagged(
                engine_id,
                document_ids,
                result.findings[0].id@,
            );
            assert(finding_models(result.findings@)[0] == result.findings[0]@);
        },
        _ => {},
    }
}

/// Runs engines: through a worker process where one is configured and
/// present, and else with placeholder output.
#[derive(Debug)]
pub struct EngineRunner {
    sidecar_path: Option<String>,
    mock_mode: bool,
}

impl View for EngineRunner {
    type V = RunnerModel;

    closed spec fn view(&self) -> RunnerModel {
        RunnerModel {
            sidecar_path: match self.sidecar_path {
                Some(path) => Some(path@),
                None => None,
            },
            mock_mode: self.mock_mode,
        }
    }
}

impl EngineRunner {
    /// A runner without a worker path and with the fallback switch off.
    pub fn new() -> (runner: Self)
        ensures
            runner@ == (RunnerModel { sidecar_path: None, mock_mode: false }),
    {
        EngineRunner { sidecar_path: None, mock_mode: false }
    }

    /// Sets the path of the worker.
    pub fn with_sidecar_path(self, path: String) -> (runner: Self)
        ensures
            runner@ == (RunnerModel { sidecar_path: Some(path@), ..self@ }),
    {
        EngineRunner { sidecar_path: Some(path), mock_mode: self.mock_mode }
    }

    /// Sets the fallback switch.
    pub fn with_mock_mode(self, mock: bool) -> (runner: Self)
        ensures
            runner@ == (RunnerModel { mock_mode: mock, ..self@ }),
    {
        EngineRunner { sidecar_path: self.sidecar_path, mock_mode: mock }
    }

    /// The configured worker path.
    pub fn sidecar_path(&self) -> (path: Option<&String>)
        ensures
            match path {
                Some(text) => self@.sidecar_path == Some(text@),
                None => self@.sidecar_path is None,
            },
    {
        self.sidecar_path.as_ref()
    }

    /// Whether the fallback switch is set.
    pub fn mock_mode(&self) -> (mock: bool)
        ensures
            mock == self@.mock_mode,
    {
        self.mock_mode
    }

    /// Whether runs fall back to placeholder output, given whether something
    /// is there at the configured path.
    pub fn is_mock_mode_given(&self, path_present: bool) -> (mock: bool)
        ensures
            mock == self@.falls_back(path_present),
    {
        self.mock_mode || self.sidecar_path.is_none() || !path_present
    }

    /// Whether runs fall back to placeholder output as things stand: the
    /// file system is asked about the configured path.
    pub fn is_mock_mode(&self) -> (mock: bool)
        ensures
            self@.mock_mode || self@.sidecar_path is None ==> mock,
            exists|path_present: bool| mock == #[trigger] self@.falls_back(path_present),
    {
        let present = self.worker_is_present();
        self.is_mock_mode_given(present)
    }

    /// Asks the file system whether something is there at the configured
    /// path. Without a path, and with the fallback switch set, nothing is
    /// asked, since a run falls back whatever the answer: the answer is then
    /// given as no.
    fn worker_is_present(&self) -> (present: bool)
        ensures
            self@.mock_mode || self@.sidecar_path is None ==> !present,
    {
        if self.mock_mode {
            return false;
        }
        match &self.sidecar_path {
            Some(path) => path_exists(path.as_str()),
            None => false,
        }
    }

    /// Takes the first of the two default places that is marked present as
    /// the worker path and returns it; changes nothing where neither is.
    pub fn adopt_default_sidecar(&mut self, first_present: bool, second_present: bool) -> (found:
        Option<String>)
        ensures
            match found {
                Some(path) => Some(path@) == chosen_candidate(first_present, second_present)
                    && final(self)@ == (RunnerModel { sidecar_path: Some(path@), ..old(self)@ }),
                None => chosen_candidate(first_present, second_present) is None && final(self)@
                    == old(self)@,
            },
    {
        if first_present {
            self.sidecar_path = Some(String::from_str("sidecars/engine-runner.js"));
            Some(String::from_str("sidecars/engine-runner.js"))
        } else if second_present {
            self.sidecar_path = Some(String::from_str("src-tauri/sidecars/engine-runner.js"));
            Some(String::from_str("src-tauri/sidecars/engine-runner.js"))
        } else {
            None
        }
    }

    /// Looks for the worker in the two default places, in order, and takes
    /// the first that is there as the worker path.
    pub fn find_sidecar(&mut self) -> (found: Option<String>)
        ensures
            match found {
                Some(path) => (path@ == first_candidate() || path@ == second_candidate())
                    && final(self)@ == (RunnerModel { sidecar_path: Some(path@), ..old(self)@ }),
                None => final(self)@ == old(self)@,
            },
    {
        if path_exists("sidecars/engine-runner.js") {
            self.adopt_default_sidecar(true, false)
        } else if path_exists("src-tauri/sidecars/engine-runner.js") {
            self.adopt_default_sidecar(false, true)
        } else {
            None
        }
    }

    /// Takes the worker below `resource_dir` as the worker path if it is
    /// marked present, and says whether it did.
    pub fn adopt_resource_path(&mut self, resource_dir: &str, present: bool) -> (adopted: bool)
        ensures
            adopted == present,
            present ==> final(self)@ == (RunnerModel {
                sidecar_path: Some(bundled_path(resource_dir@)),
                ..old(self)@
            }),
            !present ==> final(self)@ == old(self)@,
    {
        if present {
            self.sidecar_path = Some(Self::bundled_sidecar(resource_dir));
        }
        present
    }

    /// Where the worker lies below `resource_dir`.
    pub fn bundled_sidecar(resource_dir: &str) -> (path: String)
        ensures
            path@ == bundled_path(resource_dir@),
    {
        let folder = join_path(resource_dir, "sidecars");
        join_path(folder.as_str(), "engine-runner.js")
    }

    /// Takes the worker below `resource_dir` as the worker path if it is
    /// there; changes nothing if it is not.
    pub fn set_resource_path(&mut self, resource_dir: &str)
        ensures
            final(self)@ == old(self)@ || final(self)@ == (RunnerModel {
                sidecar_path: Some(bundled_path(resource_dir@)),
                ..old(self)@
            }),
    {
        let bundled = Self::bundled_sidecar(resource_dir);
        let present = path_exists(bundled.as_str());
        self.adopt_resource_path(resource_dir, present);
    }

    /// The placeholder output of an engine, under a fresh identifier.
    pub fn run_mock_engine(&self, engine_id: EngineId, case_id: &str, document_ids: &[String]) -> (outcome:
        Result<Vec<EngineFinding>, String>)
        ensures
            outcome matches Ok(findings) && findings.len() == 1 && finding_models(findings@)
                == placeholder_models(engine_id, text_list(document_ids@), findings[0].id@),
    {
        let id = fresh_id();
        Ok(placeholder_findings(engine_id, document_ids, id))
    }

    /// What a run of `engine_id` comes to, given whether something is there
    /// at the configured path and the identifier for a placeholder finding.
    pub fn run_engine_given(
        &self,
        engine_id: EngineId,
        case_id: &str,
        document_ids: &[String],
        options: Option<String>,
        path_present: bool,
        finding_id: String,
    ) -> (invocation: Invocation)
        ensures
            self@.falls_back(path_present) ==> {
                &&& invocation matches Invocation::Done(Ok(result))
                &&& result.used_mock_mode
                &&& result.findings.len() == 1
                &&& result.findings[0].id@ == finding_id@
                &&& finding_models(result.findings@) == placeholder_models(
                    engine_id,
                    text_list(document_ids@),
                    finding_id@,
                )
            },
            !self@.falls_back(path_present) ==> {
                &&& invocation matches Invocation::AskWorker { path, request }
                &&& Some(path@) == self@.sidecar_path
                &&& request.engine_id@ == engine_id.name_of()
                &&& request.case_id@ == case_id@
                &&& text_list(request.document_ids@) == text_list(document_ids@)
                &&& request.options == options
            },
    {
        if !self.mock_mode && path_present {
            if let Some(path) = &self.sidecar_path {
                return Invocation::AskWorker {
                    path: path.clone(),
                    request: build_request(engine_id, case_id, document_ids, options),
                };
            }
        }
        Invocation::Done(
            Ok(
                EngineResult {
                    findings: placeholder_findings(engine_id, document_ids, finding_id),
                    used_mock_mode: true,
                },
            ),
        )
    }

    /// What a run of `engine_id` with `options` comes to as things stand.
    /// With the fallback switch set, or without a worker path, it is over at
    /// once with placeholder output. With a worker path the file system
    /// decides: the worker is to be asked if it is there, and else the run
    /// falls back.
    pub fn run_engine_with_options(
        &self,
        engine_id: EngineId,
        case_id: &str,
        document_ids: &[String],
        options: Option<String>,
    ) -> (invocation: Invocation)
        ensures
            self@.mock_mode || self@.sidecar_path is None ==> is_placeholder_run(
                invocation,
                engine_id,
                text_list(document_ids@),
            ),
            is_placeholder_run(invocation, engine_id, text_list(document_ids@)) || {
                &&& invocation matches Invocation::AskWorker { path, request }
                &&& Some(path@) == self@.sidecar_path
                &&& request.engine_id@ == engine_id.name_of()
                &&& request.case_id@ == case_id@
                &&& text_list(request.document_ids@) == text_list(document_ids@)
                &&& request.options == options
            },
    {
        let present = self.worker_is_present();
        let finding_id = fresh_id();
        self.run_engine_given(engine_id, case_id, document_ids, options, present, finding_id)
    }

    /// What a run of `engine_id` without options comes to as things stand.
    pub fn run_engine(&self, engine_id: EngineId, case_id: &str, document_ids: &[String]) -> (invocation:
        Invocation)
        ensures
            self@.mock_mode || self@.sidecar_path is None ==> is_placeholder_run(
                invocation,
                engine_id,
                text_list(document_ids@),
            ),
            is_placeholder_run(invocation, engine_id, text_list(document_ids@)) || {
                &&& invocation matches Invocation::AskWorker { path, request }
                &&& Some(path@) == self@.sidecar_path
                &&& request.engine_id@ == engine_id.name_of()
                &&& request.case_id@ == case_id@
                &&& text_list(request.document_ids@) == text_list(document_ids@)
                &&& request.options is None
            },
    {
        self.run_engine_with_options(engine_id, case_id, document_ids, None)
    }

    /// The result of a run that asked the worker, from what came of the
    /// exchange: the findings as real analysis, or the failure text.
    pub fn finish_worker_run(exchange: WorkerExchange) -> (outcome: Result<EngineResult, String>)
        ensures
            match outcome {
                Ok(result) => !result.used_mock_mode && exchange.conclusion() == Ok::<
                    Seq<FindingModel>,
                    Seq<char>,
                >(finding_models(result.findings@)),
                Err(reason) => exchange.conclusion() == Err::<Seq<FindingModel>, Seq<char>>(
                    reason@,
                ),
            },
    {
        match conclude(exchange) {
            Ok(findings) => Ok(EngineResult { findings, used_mock_mode: false }),
            Err(reason) => Err(reason),
        }
    }
}

impl Default for EngineRunner {
    fn default() -> (runner: Self)
        ensures
            runner@ == (RunnerModel { sidecar_path: None, mock_mode: false }),
    {
        Self::new()
    }
}

} // verus!

//! The worker protocol: the request handed to an external worker, the
//! response it gives on its first line of output, whatever else can come of
//! an exchange with it, and what each such outcome means for the caller.

use crate::catalog::EngineId;
use crate::finding::{finding_models, EngineFinding, FindingModel};
use crate::text::{clone_strings, concat2, concat3, is_blank, str_is_blank, text_list};
use vstd::prelude::*;
use vstd::string::StringExecFns;

verus! {

/// The wall-clock bound on one exchange with a worker, in seconds.
pub const WORKER_TIMEOUT_SECS: u64 = 180;

/// The request written to the worker as one line of JSON. The options are
/// JSON text; they are left out of the line when absent.
#[derive(Debug)]
pub struct WorkerRequest {
    pub engine_id: String,
    pub case_id: String,
    pub document_ids: Vec<String>,
    pub options: Option<String>,
}

/// The response read from the worker's first line of output.
#[derive(Debug)]
pub struct WorkerResponse {
    pub success: bool,
    pub engine_id: String,
    pub findings: Option<Vec<EngineFinding>>,
    pub error: Option<String>,
    pub duration_ms: u64,
}

/// What came of one exchange with a worker process.
#[derive(Debug)]
pub enum WorkerExchange {
    /// The request could not be written as JSON.
    RequestNotSerialized { reason: String },
    /// The worker process could not be started.
    SpawnFailed { reason: String },
    /// The request line could not be written to the worker.
    WriteFailed { reason: String },
    /// The line terminator could not be written to the worker.
    TerminatorWriteFailed { reason: String },
    /// The worker's output stream could not be had.
    OutputUnavailable,
    /// Reading the worker's first line of output failed.
    ReadFailed { reason: String },
    /// Waiting for the worker to exit failed.
    WaitFailed { reason: String },
    /// The time bound passed; the worker was killed.
    TimedOut,
    /// The worker wrote `line` and exited; `parsed` is what the line holds
    /// when read as a response, or why it cannot be read as one.
    Answered { line: String, parsed: Result<WorkerResponse, String> },
}

/// The ways in which running an engine through a worker fails.
#[derive(Debug)]
pub enum RunnerError {
    Serialize { reason: String },
    Spawn { reason: String },
    Write { reason: String },
    WriteTerminator { reason: String },
    OutputUnavailable,
    Read { reason: String },
    Wait { reason: String },
    Timeout,
    EmptyResponse,
    Parse { reason: String, raw: String },
    Worker { message: String },
}

/// The classes of failure.
#[derive(Debug, Clone, Copy, PartialEq, Eq, Structural)]
pub enum FailureKind {
    /// The worker could not be started.
    Spawn,
    /// Writing to or reading from the worker failed, or it answered nothing.
    Protocol,
    /// The worker did not finish in time.
    Timeout,
    /// The worker's answer is not a response.
    Parse,
    /// The worker itself reported a failure.
    Worker,
}

/// The message of a worker that reports a failure without saying why.
pub open spec fn unknown_worker_error() -> Seq<char> {
    "Unknown sidecar error"@
}

impl RunnerError {
    /// The class of a failure.
    pub open spec fn kind_of(self) -> FailureKind {
        match self {
            RunnerError::Spawn { .. } => FailureKind::Spawn,
            RunnerError::Timeout => FailureKind::Timeout,
            RunnerError::Parse { .. } => FailureKind::Parse,
            RunnerError::Worker { .. } => FailureKind::Worker,
            _ => FailureKind::Protocol,
        }
    }

    /// The text under which a failure is reported to the caller.
    pub open spec fn message_text(self) -> Seq<char> {
        match self {
            RunnerError::Serialize { reason } => "Failed to serialize request: "@ + reason@,
            RunnerError::Spawn { reason } => "Failed to spawn sidecar: "@ + reason@
                + ". Is Node.js installed?"@,
            RunnerError::Write { reason } => "Failed to write to sidecar stdin: "@ + reason@,
            RunnerError::WriteTerminator { reason } => "Failed to write newline: "@ + reason@,
            RunnerError::OutputUnavailable => "Failed to get stdout handle"@,
            RunnerError::Read { reason } => "Failed to read response: "@ + reason@,
            RunnerError::Wait { reason } => "Failed to wait for sidecar: "@ + reason@,
            RunnerError::Timeout => "Sidecar timed out after 180s"@,
            RunnerError::EmptyResponse => "Empty response from sidecar"@,
            RunnerError::Parse { reason, raw } => "Failed to parse response: "@ + reason@
                + ". Response was: "@ + raw@,
            RunnerError::Worker { message } => message@,
        }
    }

    /// The class of this failure.
    pub fn kind(&self) -> (kind: FailureKind)
        ensures
            kind == self.kind_of(),
    {
        match self {
            RunnerError::Spawn { .. } => FailureKind::Spawn,
            RunnerError::Timeout => FailureKind::Timeout,
            RunnerError::Parse { .. } => FailureKind::Parse,
            RunnerError::Worker { .. } => FailureKind::Worker,
            _ => FailureKind::Protocol,
        }
    }

    /// The text under which this failure is reported to the caller.
    pub fn message(&self) -> (text: String)
        ensures
            text@ == self.message_text(),
    {
        match self {
            RunnerError::Serialize { reason } => concat2(
                "Failed to serialize request: ",
                reason.as_str(),
            ),
            RunnerError::Spawn { reason } => concat3(
                "Failed to spawn sidecar: ",
                reason.as_str(),
                ". Is Node.js installed?",
            ),
            RunnerError::Write { reason } => concat2(
                "Failed to write to sidecar stdin: ",
                reason.as_str(),
            ),
            RunnerError::WriteTerminator { reason } => concat2(
                "Failed to write newline: ",
                reason.as_str(),
            ),
            RunnerError::OutputUnavailable => String::from_str("Failed to get stdout handle"),
            RunnerError::Read { reason } => concat2("Failed to read response: ", reason.as_str()),
            RunnerError::Wait { reason } => concat2(
                "Failed to wait for sidecar: ",
                reason.as_str(),
            ),
            RunnerError::Timeout => String::from_str("Sidecar timed out after 180s"),
            RunnerError::EmptyResponse => String::from_str("Empty response from sidecar"),
            RunnerError::Parse { reason, raw } => {
                let mut text = concat3(
                    "Failed to parse response: ",
                    reason.as_str(),
                    ". Response was: ",
                );
                text.append(raw.as_str());
                text
            },
            RunnerError::Worker { message } => message.clone(),
        }
    }
}

impl WorkerResponse {
    /// The failure that a response stands for, if it reports one: the
    /// worker's own words, or a generic message where it gave none.
    pub open spec fn failure_of(self) -> Option<Seq<char>> {
        if self.success {
            None
        } else {
            match self.error {
                Some(message) => Some(message@),
                None => Some(unknown_worker_error()),
            }
        }
    }

    /// The findings of a response that reports success; none where the
    /// response names none.
    pub open spec fn findings_of(self) -> Seq<FindingModel> {
        match self.findings {
            Some(findings) => finding_models(findings@),
            None => Seq::empty(),
        }
    }
}

impl WorkerExchange {
    /// What the exchange means for the caller: the findings of a worker that
    /// answered with a response reporting success, and else the text under
    /// which the failure is reported. The exit code of the worker plays no
    /// part.
    pub open spec fn conclusion(self) -> Result<Seq<FindingModel>, Seq<char>> {
        match self {
            WorkerExchange::RequestNotSerialized { reason } => Err(
                (RunnerError::Serialize { reason }).message_text(),
            ),
            WorkerExchange::SpawnFailed { reason } => Err(
                (RunnerError::Spawn { reason }).message_text(),
            ),
            WorkerExchange::WriteFailed { reason } => Err(
                (RunnerError::Write { reason }).message_text(),
            ),
            WorkerExchange::TerminatorWriteFailed { reason } => Err(
                (RunnerError::WriteTerminator { reason }).message_text(),
            ),
            WorkerExchange::OutputUnavailable => Err(RunnerError::OutputUnavailable.message_text()),
            WorkerExchange::ReadFailed { reason } => Err(
                (RunnerError::Read { reason }).message_text(),
            ),
            WorkerExchange::WaitFailed { reason } => Err(
                (RunnerError::Wait { reason }).message_text(),
            ),
            WorkerExchange::TimedOut => Err(RunnerError::Timeout.message_text()),
            WorkerExchange::Answered { line, parsed } => if is_blank(line@) {
                Err(RunnerError::EmptyResponse.message_text())
            } else {
                match parsed {
                    Ok(response) => match response.failure_of() {
                        Some(message) => Err(message),
                        None => Ok(response.findings_of()),
                    },
                    Err(reason) => Err((RunnerError::Parse { reason, raw: line }).message_text()),
                }
            },
        }
    }

    /// Whether the exchange ended in a failure.
    pub open spec fn failed(self) -> bool {
        self.conclusion() is Err
    }

    /// The class of the failure in which the exchange ended.
    pub open spec fn failure_kind(self) -> FailureKind {
        match self {
            WorkerExchange::SpawnFailed { .. } => FailureKind::Spawn,
            WorkerExchange::TimedOut => FailureKind::Timeout,
            WorkerExchange::Answered { line, parsed } => if is_blank(line@) {
                FailureKind::Protocol
            } else {
                match parsed {
                    Ok(_) => FailureKind::Worker,
                    Err(_) => FailureKind::Parse,
                }
            },
            _ => FailureKind::Protocol,
        }
    }
}

/// The model of a classified exchange.
pub open spec fn classified_model(outcome: Result<Vec<EngineFinding>, RunnerError>) -> Result<
    Seq<FindingModel>,
    Seq<char>,
> {
    match outcome {
        Ok(findings) => Ok(finding_models(findings@)),
        Err(error) => Err(error.message_text()),
    }
}

/// Builds the request for running `engine_id` on the documents of a case.
pub fn build_request(
    engine_id: EngineId,
    case_id: &str,
    document_ids: &[String],
    options: Option<String>,
) -> (request: WorkerRequest)
    ensures
        request.engine_id@ == engine_id.name_of(),
        request.case_id@ == case_id@,
        text_list(request.document_ids@) == text_list(document_ids@),
        request.options == options,
{
    WorkerRequest {
        engine_id: engine_id.to_string(),
        case_id: String::from_str(case_id),
        document_ids: clone_strings(document_ids),
        options,
    }
}

/// Sorts out what came of an exchange: the findings, or the failure with its
/// class and its parts.
pub fn classify(exchange: WorkerExchange) -> (outcome: Result<Vec<EngineFinding>, RunnerError>)
    ensures
        outcome is Err == exchange.failed(),
        classified_model(outcome) == exchange.conclusion(),
        outcome matches Err(error) ==> error.kind_of() == exchange.failure_kind(),
{
    match exchange {
        WorkerExchange::RequestNotSerialized { reason } => Err(RunnerError::Serialize { reason }),
        WorkerExchange::SpawnFailed { reason } => Err(RunnerError::Spawn { reason }),
        WorkerExchange::WriteFailed { reason } => Err(RunnerError::Write { reason }),
        WorkerExchange::TerminatorWriteFailed { reason } => Err(
            RunnerError::WriteTerminator { reason },
        ),
        WorkerExchange::OutputUnavailable => Err(RunnerError::OutputUnavailable),
        WorkerExchange::ReadFailed { reason } => Err(RunnerError::Read { reason }),
        WorkerExchange::WaitFailed { reason } => Err(RunnerError::Wait { reason }),
        WorkerExchange::TimedOut => Err(RunnerError::Timeout),
        WorkerExchange::Answered { line, parsed } => {
            if str_is_blank(line.as_str()) {
                return Err(RunnerError::EmptyResponse);
            }
            match parsed {
                Err(reason) => Err(RunnerError::Parse { reason, raw: line }),
                Ok(response) => {
                    if response.success {
                        match response.findings {
                            Some(findings) => Ok(findings),
                            None => {
                                let none: Vec<EngineFinding> = Vec::new();
                                assert(finding_models(none@) =~= Seq::empty());
                                Ok(none)
                            },
                        }
                    } else {
                        match response.error {
                            Some(message) => Err(RunnerError::Worker { message }),
                            None => Err(
                                RunnerError::Worker {
                                    message: String::from_str("Unknown sidecar error"),
                                },
                            ),
                        }
                    }
                },
            }
        },
    }
}

/// What an exchange means for the caller: the findings, or the failure text.
pub fn conclude(exchange: WorkerExchange) -> (outcome: Result<Vec<EngineFinding>, String>)
    ensures
        crate::job::result_model(outcome) == exchange.conclusion(),
        outcome is Err == exchange.failed(),
{
    match classify(exchange) {
        Ok(findings) => Ok(findings),
        Err(error) => Err(error.message()),
    }
}

/// A response that reports a failure in its own words fails the run with
/// exactly those words.
pub proof fn lemma_worker_failure_is_carried(line: String, response: WorkerResponse, message: String)
    requires
        !is_blank(line@),
        !response.success,
        response.error == Some(message),
    ensures
        (WorkerExchange::Answered { line, parsed: Ok(response) }).conclusion() == Err::<
            Seq<FindingModel>,
            Seq<char>,
        >(message@),
{
}

/// An empty or white first line is a failure whatever else is known of the
/// exchange; it is never taken for a response without findings.
pub proof fn lemma_blank_line_fails(line: String, parsed: Result<WorkerResponse, String>)
    requires
        is_blank(line@),
    ensures
        (WorkerExchange::Answered { line, parsed }).conclusion() == Err::<
            Seq<FindingModel>,
            Seq<char>,
        >("Empty response from sidecar"@),
        (WorkerExchange::Answered { line, parsed }).failure_kind() == FailureKind::Protocol,
{
}

/// A run that passed the time bound fails as a timeout.
pub proof fn lemma_timeout_fails()
    ensures
        WorkerExchange::TimedOut.conclusion() == Err::<Seq<FindingModel>, Seq<char>>(
            "Sidecar timed out after 180s"@,
        ),
        WorkerExchange::TimedOut.failure_kind() == FailureKind::Timeout,
{
}

} // verus!

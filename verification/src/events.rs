//! Lifecycle notifications. The orchestrator notes them down in the order of
//! the state changes that cause them; whoever owns the event sink takes them
//! from there and publishes them, or drops them where there is no sink.

use crate::text::text_list;
use vstd::prelude::*;

verus! {

/// One notification.
#[derive(Debug)]
pub enum OrchestratorEvent {
    /// A job was registered. `engines` are the names as they were requested.
    JobStarted { job_id: String, case_id: String, engines: Vec<String> },
    /// An engine is about to run; `completed` engines of `total` ran before.
    Progress { job_id: String, engine_id: String, completed: usize, total: usize },
    /// An engine succeeded.
    Finding { job_id: String, engine_id: String, finding_count: usize, mock_mode: bool },
    /// An engine failed.
    Error { job_id: String, engine_id: String, error: String },
    /// Placeholder output was handed out: for the job named by `scope`, or
    /// for a run outside any job.
    MockMode { scope: Option<String>, message: String },
    /// A job was cancelled.
    Cancelled { job_id: String },
    /// A job ran to its end after `engines_completed` engines.
    Complete { job_id: String, engines_completed: usize },
}

/// One notification, as mathematical values.
pub enum EventModel {
    JobStarted { job_id: Seq<char>, case_id: Seq<char>, engines: Seq<Seq<char>> },
    Progress { job_id: Seq<char>, engine_id: Seq<char>, completed: nat, total: nat },
    Finding { job_id: Seq<char>, engine_id: Seq<char>, finding_count: nat, mock_mode: bool },
    Error { job_id: Seq<char>, engine_id: Seq<char>, error: Seq<char> },
    MockMode { scope: Option<Seq<char>>, message: Seq<char> },
    Cancelled { job_id: Seq<char> },
    Complete { job_id: Seq<char>, engines_completed: nat },
}

/// The warning that goes with placeholder output.
pub open spec fn mock_mode_message() -> Seq<char> {
    "AI analysis unavailable - showing placeholder data. Check sidecar configuration."@
}

impl EventModel {
    /// The name of the channel on which a notification is published.
    pub open spec fn channel(self) -> Seq<char> {
        match self {
            EventModel::JobStarted { .. } => "engine:job_started"@,
            EventModel::Progress { .. } => "engine:progress"@,
            EventModel::Finding { .. } => "engine:finding"@,
            EventModel::Error { .. } => "engine:error"@,
            EventModel::MockMode { .. } => "engine:mock_mode"@,
            EventModel::Cancelled { .. } => "engine:cancelled"@,
            EventModel::Complete { .. } => "engine:complete"@,
        }
    }

    /// The status that a notification reports, where it reports one.
    pub open spec fn status_text(self) -> Option<Seq<char>> {
        match self {
            EventModel::Progress { .. } => Some("running"@),
            EventModel::Complete { .. } => Some("completed"@),
            _ => None,
        }
    }

    /// Whether the notification is the warning about placeholder output of
    /// the job `job_id`.
    pub open spec fn warns_of_mock_mode(self, job_id: Seq<char>) -> bool {
        self matches EventModel::MockMode { scope: Some(id), .. } && id == job_id
    }
}

impl View for OrchestratorEvent {
    type V = EventModel;

    open spec fn view(&self) -> EventModel {
        match *self {
            OrchestratorEvent::JobStarted { job_id, case_id, engines } => EventModel::JobStarted {
                job_id: job_id@,
                case_id: case_id@,
                engines: text_list(engines@),
            },
            OrchestratorEvent::Progress {
                job_id,
                engine_id,
                completed,
                total,
            } => EventModel::Progress {
                job_id: job_id@,
                engine_id: engine_id@,
                completed: completed as nat,
                total: total as nat,
            },
            OrchestratorEvent::Finding {
                job_id,
                engine_id,
                finding_count,
                mock_mode,
            } => EventModel::Finding {
                job_id: job_id@,
                engine_id: engine_id@,
                finding_count: finding_count as nat,
                mock_mode,
            },
            OrchestratorEvent::Error { job_id, engine_id, error } => EventModel::Error {
                job_id: job_id@,
                engine_id: engine_id@,
                error: error@,
            },
            OrchestratorEvent::MockMode { scope, message } => EventModel::MockMode {
                scope: match scope {
                    Some(id) => Some(id@),
                    None => None,
                },
                message: message@,
            },
            OrchestratorEvent::Cancelled { job_id } => EventModel::Cancelled { job_id: job_id@ },
            OrchestratorEvent::Complete { job_id, engines_completed } => EventModel::Complete {
                job_id: job_id@,
                engines_completed: engines_completed as nat,
            },
        }
    }
}

/// The models of a list of notifications, in order.
pub open spec fn event_models(items: Seq<OrchestratorEvent>) -> Seq<EventModel> {
    Seq::new(items.len(), |i: int| items[i]@)
}

impl OrchestratorEvent {
    /// The name of the channel on which this notification is published.
    pub fn channel(&self) -> (name: &'static str)
        ensures
            name@ == self@.channel(),
    {
        match self {
            OrchestratorEvent::JobStarted { .. } => "engine:job_started",
            OrchestratorEvent::Progress { .. } => "engine:progress",
            OrchestratorEvent::Finding { .. } => "engine:finding",
            OrchestratorEvent::Error { .. } => "engine:error",
            OrchestratorEvent::MockMode { .. } => "engine:mock_mode",
            OrchestratorEvent::Cancelled { .. } => "engine:cancelled",
            OrchestratorEvent::Complete { .. } => "engine:complete",
        }
    }

    /// The status that this notification reports, where it reports one.
    pub fn status_text(&self) -> (status: Option<&'static str>)
        ensures
            match status {
                Some(text) => self@.status_text() == Some(text@),
                None => self@.status_text() is None,
            },
    {
        match self {
            OrchestratorEvent::Progress { .. } => Some("running"),
            OrchestratorEvent::Complete { .. } => Some("completed"),
            _ => None,
        }
    }
}

} // verus!

//! Job orchestration for document-analysis engines: the engine catalog, the job
//! state model, the worker request/response protocol and the registry of jobs.

pub mod ai;
pub mod catalog;
pub mod commands;
pub mod digest;
pub mod events;
pub mod finding;
pub mod job;
pub mod mock;
pub mod orchestrator;
pub mod pattern;
pub mod platform;
pub mod process;
pub mod protocol;
pub mod runner;
pub mod settings;
pub mod storage;
pub mod text;

use engine_orchestrator::catalog::EngineId;
use engine_orchestrator::protocol::{WorkerExchange, WorkerResponse};
use engine_orchestrator::runner::{EngineRunner, Invocation};

fn docs() -> Vec<String> {
    vec!["d1".to_string()]
}

fn missing_path() -> String {
    "/definitely/not/here/engine-runner.js".to_string()
}

#[test]
fn new_runner_has_no_path_and_no_switch() {
    let runner = EngineRunner::new();
    assert_eq!(runner.sidecar_path(), None);
    assert!(!runner.mock_mode());
    assert!(runner.is_mock_mode());
}

#[test]
fn builders_set_one_setting_and_keep_the_other() {
    let runner = EngineRunner::new().with_mock_mode(true).with_sidecar_path("w.js".to_string());
    assert_eq!(runner.sidecar_path(), Some(&"w.js".to_string()));
    assert!(runner.mock_mode());
    let runner = runner.with_mock_mode(false);
    assert_eq!(runner.sidecar_path(), Some(&"w.js".to_string()));
    assert!(!runner.mock_mode());
}

#[test]
fn fallback_holds_with_switch_or_without_path_or_without_file() {
    let plain = EngineRunner::new();
    assert!(plain.is_mock_mode_given(true));
    assert!(plain.is_mock_mode_given(false));

    let with_path = EngineRunner::new().with_sidecar_path("w.js".to_string());
    assert!(!with_path.is_mock_mode_given(true));
    assert!(with_path.is_mock_mode_given(false));

    let forced = EngineRunner::new().with_sidecar_path("w.js".to_string()).with_mock_mode(true);
    assert!(forced.is_mock_mode_given(true));
    assert!(forced.is_mock_mode_given(false));
}

#[test]
fn a_path_that_is_not_there_means_fallback() {
    let runner = EngineRunner::new().with_sidecar_path(missing_path());
    assert!(runner.is_mock_mode());
}

#[test]
fn a_path_that_is_there_means_no_fallback() {
    let here = "/".to_string();
    let runner = EngineRunner::new().with_sidecar_path(here.clone());
    assert!(!runner.is_mock_mode());
    assert!(EngineRunner::new().with_sidecar_path(here).with_mock_mode(true).is_mock_mode());
}

#[test]
fn default_places_are_tried_in_order() {
    let mut runner = EngineRunner::new();
    assert_eq!(runner.adopt_default_sidecar(false, false), None);
    assert_eq!(runner.sidecar_path(), None);

    assert_eq!(
        runner.adopt_default_sidecar(false, true),
        Some("src-tauri/sidecars/engine-runner.js".to_string())
    );
    assert_eq!(runner.sidecar_path(), Some(&"src-tauri/sidecars/engine-runner.js".to_string()));

    assert_eq!(
        runner.adopt_default_sidecar(true, true),
        Some("sidecars/engine-runner.js".to_string())
    );
    assert_eq!(runner.sidecar_path(), Some(&"sidecars/engine-runner.js".to_string()));
}

#[test]
fn find_sidecar_keeps_the_settings_when_nothing_is_found() {
    let mut runner = EngineRunner::new().with_mock_mode(true);
    match runner.find_sidecar() {
        Some(path) => {
            assert!(path == "sidecars/engine-runner.js" || path == "src-tauri/sidecars/engine-runner.js");
            assert_eq!(runner.sidecar_path(), Some(&path));
        }
        None => assert_eq!(runner.sidecar_path(), None),
    }
    assert!(runner.mock_mode());
}

#[test]
fn bundled_worker_lies_below_the_resource_directory() {
    assert_eq!(EngineRunner::bundled_sidecar("/opt/app"), "/opt/app/sidecars/engine-runner.js");
    assert_eq!(EngineRunner::bundled_sidecar("/opt/app/"), "/opt/app/sidecars/engine-runner.js");
    assert_eq!(EngineRunner::bundled_sidecar(""), "sidecars/engine-runner.js");
    assert_eq!(EngineRunner::bundled_sidecar("res"), "res/sidecars/engine-runner.js");
}

#[test]
fn resource_path_is_adopted_only_when_present() {
    let mut runner = EngineRunner::new().with_sidecar_path("old.js".to_string());
    assert!(!runner.adopt_resource_path("/opt/app", false));
    assert_eq!(runner.sidecar_path(), Some(&"old.js".to_string()));
    assert!(runner.adopt_resource_path("/opt/app", true));
    assert_eq!(runner.sidecar_path(), Some(&"/opt/app/sidecars/engine-runner.js".to_string()));

    let mut other = EngineRunner::new();
    other.set_resource_path("/definitely/not/here");
    assert_eq!(other.sidecar_path(), None);
}

#[test]
fn placeholder_run_has_a_fresh_identifier_each_time() {
    let runner = EngineRunner::new();
    let first = runner.run_mock_engine(EngineId::Omission, "c1", &docs()).unwrap();
    let second = runner.run_mock_engine(EngineId::Omission, "c1", &docs()).unwrap();
    assert_eq!(first.len(), 1);
    assert_eq!(second.len(), 1);
    assert_eq!(first[0].id.len(), 36);
    assert_eq!(second[0].id.len(), 36);
    assert_ne!(first[0].id, second[0].id);
    assert_eq!(first[0].title, second[0].title);
    assert_eq!(first[0].engine_id, "omission");
    assert!(first[0].is_synthetic());
}

#[test]
fn run_without_worker_path_is_placeholder_output() {
    let runner = EngineRunner::new();
    match runner.run_engine(EngineId::Narrative, "c1", &docs()) {
        Invocation::Done(Ok(result)) => {
            assert!(result.used_mock_mode);
            assert_eq!(result.findings.len(), 1);
            assert_eq!(result.findings[0].finding_type, "amplification");
            assert!(result.findings[0].is_synthetic());
            assert_eq!(result.findings[0].document_ids, docs());
        }
        other => panic!("unexpected: {other:?}"),
    }
}

#[test]
fn run_with_switch_set_is_placeholder_output_even_with_a_worker() {
    let here = "/".to_string();
    let runner = EngineRunner::new().with_sidecar_path(here).with_mock_mode(true);
    assert!(matches!(
        runner.run_engine(EngineId::Memory, "c1", &docs()),
        Invocation::Done(Ok(result)) if result.used_mock_mode
    ));
}

#[test]
fn run_with_missing_worker_falls_back() {
    let runner = EngineRunner::new().with_sidecar_path(missing_path());
    assert!(matches!(
        runner.run_engine_with_options(EngineId::Memory, "c1", &docs(), None),
        Invocation::Done(Ok(result)) if result.used_mock_mode
    ));
}

#[test]
fn run_with_present_worker_asks_the_worker() {
    let here = "/".to_string();
    let runner = EngineRunner::new().with_sidecar_path(here.clone());
    let options = Some("{\"k\":1}".to_string());
    match runner.run_engine_with_options(EngineId::BiasCascade, "c9", &docs(), options.clone()) {
        Invocation::AskWorker { path, request } => {
            assert_eq!(path, here);
            assert_eq!(request.engine_id, "bias_cascade");
            assert_eq!(request.case_id, "c9");
            assert_eq!(request.document_ids, docs());
            assert_eq!(request.options, options);
        }
        other => panic!("unexpected: {other:?}"),
    }
}

#[test]
fn run_given_the_outside_answers_is_decided_by_them() {
    let runner = EngineRunner::new().with_sidecar_path("w.js".to_string());
    match runner.run_engine_given(EngineId::Omission, "c", &docs(), None, true, "id".to_string()) {
        Invocation::AskWorker { path, request } => {
            assert_eq!(path, "w.js");
            assert_eq!(request.engine_id, "omission");
        }
        other => panic!("unexpected: {other:?}"),
    }
    match runner.run_engine_given(EngineId::Omission, "c", &docs(), None, false, "id".to_string()) {
        Invocation::Done(Ok(result)) => {
            assert!(result.used_mock_mode);
            assert_eq!(result.findings[0].id, "id");
        }
        other => panic!("unexpected: {other:?}"),
    }
}

#[test]
fn worker_run_is_finished_from_the_exchange() {
    let ok = EngineRunner::finish_worker_run(WorkerExchange::Answered {
        line: "{\"success\":true}".to_string(),
        parsed: Ok(WorkerResponse {
            success: true,
            engine_id: "omission".to_string(),
            findings: None,
            error: None,
            duration_ms: 1,
        }),
    })
    .unwrap();
    assert!(!ok.used_mock_mode);
    assert!(ok.findings.is_empty());

    let failed = EngineRunner::finish_worker_run(WorkerExchange::TimedOut).unwrap_err();
    assert_eq!(failed, "Sidecar timed out after 180s");
}

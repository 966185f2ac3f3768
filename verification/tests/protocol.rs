use engine_orchestrator::catalog::EngineId;
use engine_orchestrator::mock::placeholder_findings;
use engine_orchestrator::protocol::{
    build_request, classify, conclude, FailureKind, RunnerError, WorkerExchange, WorkerResponse,
    WORKER_TIMEOUT_SECS,
};

fn response(success: bool, findings: Option<usize>, error: Option<&str>) -> WorkerResponse {
    WorkerResponse {
        success,
        engine_id: "omission".to_string(),
        findings: findings.map(|count| {
            (0..count)
                .flat_map(|k| placeholder_findings(EngineId::Omission, &[], format!("f{k}")))
                .collect()
        }),
        error: error.map(|text| text.to_string()),
        duration_ms: 12,
    }
}

fn answered(line: &str, parsed: Result<WorkerResponse, String>) -> WorkerExchange {
    WorkerExchange::Answered { line: line.to_string(), parsed }
}

#[test]
fn request_carries_the_canonical_engine_name() {
    let docs = vec!["d1".to_string(), "d2".to_string()];
    let request = build_request(EngineId::TemporalParser, "case-7", &docs, None);
    assert_eq!(request.engine_id, "temporal_parser");
    assert_eq!(request.case_id, "case-7");
    assert_eq!(request.document_ids, docs);
    assert_eq!(request.options, None);

    let with_options =
        build_request(EngineId::Omission, "c", &[], Some("{\"depth\":2}".to_string()));
    assert_eq!(with_options.options, Some("{\"depth\":2}".to_string()));
    assert!(with_options.document_ids.is_empty());
}

#[test]
fn successful_response_gives_its_findings() {
    let findings = conclude(answered("{...}", Ok(response(true, Some(2), None)))).unwrap();
    assert_eq!(findings.len(), 2);
    assert_eq!(findings[0].id, "f0");
    assert_eq!(findings[1].id, "f1");
}

#[test]
fn successful_response_without_findings_gives_none() {
    let findings = conclude(answered("{...}", Ok(response(true, None, None)))).unwrap();
    assert!(findings.is_empty());
}

#[test]
fn successful_response_ignores_an_error_text() {
    let findings = conclude(answered("{...}", Ok(response(true, Some(1), Some("noise"))))).unwrap();
    assert_eq!(findings.len(), 1);
}

#[test]
fn worker_failure_carries_the_exact_error_text() {
    let outcome = conclude(answered("{...}", Ok(response(false, Some(3), Some("model overloaded")))));
    assert_eq!(outcome.unwrap_err(), "model overloaded");
}

#[test]
fn worker_failure_without_text_gets_the_generic_message() {
    let outcome = conclude(answered("{...}", Ok(response(false, None, None))));
    assert_eq!(outcome.unwrap_err(), "Unknown sidecar error");
}

#[test]
fn empty_line_is_a_failure_even_with_a_parsed_response() {
    for line in ["", "\n", "   ", " \t\r\n", "\u{a0}\u{2003}\u{3000}"] {
        let outcome = conclude(answered(line, Ok(response(true, Some(0), None))));
        assert_eq!(outcome.unwrap_err(), "Empty response from sidecar");
        let outcome = conclude(answered(line, Err("EOF while parsing".to_string())));
        assert_eq!(outcome.unwrap_err(), "Empty response from sidecar");
    }
}

#[test]
fn malformed_line_is_reported_with_reason_and_raw_content() {
    let outcome = conclude(answered("not json\n", Err("expected ident at line 1 column 2".to_string())));
    assert_eq!(
        outcome.unwrap_err(),
        "Failed to parse response: expected ident at line 1 column 2. Response was: not json\n"
    );
}

#[test]
fn failures_before_an_answer_have_their_own_messages() {
    let cases = [
        (
            WorkerExchange::RequestNotSerialized { reason: "bad".to_string() },
            "Failed to serialize request: bad",
        ),
        (
            WorkerExchange::SpawnFailed { reason: "No such file or directory".to_string() },
            "Failed to spawn sidecar: No such file or directory. Is Node.js installed?",
        ),
        (
            WorkerExchange::WriteFailed { reason: "Broken pipe".to_string() },
            "Failed to write to sidecar stdin: Broken pipe",
        ),
        (
            WorkerExchange::TerminatorWriteFailed { reason: "Broken pipe".to_string() },
            "Failed to write newline: Broken pipe",
        ),
        (WorkerExchange::OutputUnavailable, "Failed to get stdout handle"),
        (
            WorkerExchange::ReadFailed { reason: "invalid utf-8".to_string() },
            "Failed to read response: invalid utf-8",
        ),
        (
            WorkerExchange::WaitFailed { reason: "interrupted".to_string() },
            "Failed to wait for sidecar: interrupted",
        ),
        (WorkerExchange::TimedOut, "Sidecar timed out after 180s"),
    ];
    for (exchange, message) in cases {
        assert_eq!(conclude(exchange).unwrap_err(), message);
    }
}

#[test]
fn failures_are_sorted_into_their_classes() {
    let cases = [
        (WorkerExchange::SpawnFailed { reason: "x".to_string() }, FailureKind::Spawn),
        (WorkerExchange::RequestNotSerialized { reason: "x".to_string() }, FailureKind::Protocol),
        (WorkerExchange::WriteFailed { reason: "x".to_string() }, FailureKind::Protocol),
        (WorkerExchange::TerminatorWriteFailed { reason: "x".to_string() }, FailureKind::Protocol),
        (WorkerExchange::OutputUnavailable, FailureKind::Protocol),
        (WorkerExchange::ReadFailed { reason: "x".to_string() }, FailureKind::Protocol),
        (WorkerExchange::WaitFailed { reason: "x".to_string() }, FailureKind::Protocol),
        (WorkerExchange::TimedOut, FailureKind::Timeout),
        (answered(" ", Ok(response(true, None, None))), FailureKind::Protocol),
        (answered("x", Err("bad".to_string())), FailureKind::Parse),
        (answered("{}", Ok(response(false, None, Some("no")))), FailureKind::Worker),
    ];
    for (exchange, kind) in cases {
        let error = classify(exchange).unwrap_err();
        assert_eq!(error.kind(), kind);
    }
}

#[test]
fn classification_keeps_the_parts_of_a_failure() {
    match classify(answered("raw", Err("why".to_string()))) {
        Err(RunnerError::Parse { reason, raw }) => {
            assert_eq!(reason, "why");
            assert_eq!(raw, "raw");
        }
        other => panic!("unexpected: {other:?}"),
    }
    match classify(answered("{}", Ok(response(false, None, Some("told you"))))) {
        Err(RunnerError::Worker { message }) => assert_eq!(message, "told you"),
        other => panic!("unexpected: {other:?}"),
    }
    assert!(matches!(classify(WorkerExchange::TimedOut), Err(RunnerError::Timeout)));
    assert!(matches!(
        classify(answered("", Ok(response(true, None, None)))),
        Err(RunnerError::EmptyResponse)
    ));
}

#[test]
fn timeout_bound_is_three_minutes() {
    assert_eq!(WORKER_TIMEOUT_SECS, 180);
    assert_eq!(RunnerError::Timeout.message(), "Sidecar timed out after 180s");
}

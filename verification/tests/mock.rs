use engine_orchestrator::catalog::EngineId;
use engine_orchestrator::finding::EngineFinding;
use engine_orchestrator::mock::{placeholder_finding, placeholder_findings, MOCK_DELAY_MS};

const ALL: [EngineId; 16] = [
    EngineId::EntityResolution,
    EngineId::TemporalParser,
    EngineId::Argumentation,
    EngineId::BiasDetection,
    EngineId::Contradiction,
    EngineId::AccountabilityAudit,
    EngineId::ProfessionalTracker,
    EngineId::Omission,
    EngineId::ExpertWitness,
    EngineId::Documentary,
    EngineId::Narrative,
    EngineId::Coordination,
    EngineId::Network,
    EngineId::Memory,
    EngineId::Linguistic,
    EngineId::BiasCascade,
];

fn docs() -> Vec<String> {
    vec!["d1".to_string(), "d2".to_string()]
}

fn confidence(finding: &EngineFinding) -> f64 {
    f64::from_bits(finding.confidence_bits)
}

#[test]
fn every_engine_has_one_synthetic_placeholder_finding() {
    for engine in ALL {
        let findings = placeholder_findings(engine, &docs(), "id-1".to_string());
        assert_eq!(findings.len(), 1);
        let finding = &findings[0];
        assert_eq!(finding.id, "id-1");
        assert_eq!(finding.engine_id, engine.canonical_name());
        assert_eq!(finding.document_ids, docs());
        assert_eq!(finding.metadata, "{\"mock\":true}");
        assert!(finding.is_synthetic());
        assert!(finding.title.starts_with("[MOCK] "));
        assert!(finding.confidence_in_unit_interval());
        assert!(confidence(finding) >= 0.0 && confidence(finding) <= 1.0);
        assert!(finding.evidence.ends_with("\"mock\":true}"));
    }
}

#[test]
fn placeholder_findings_depend_on_their_inputs_alone() {
    for engine in ALL {
        let first = placeholder_finding(engine, &docs(), "a".to_string());
        let second = placeholder_finding(engine, &docs(), "a".to_string());
        assert_eq!(format!("{first:?}"), format!("{second:?}"));
    }
}

#[test]
fn contradiction_placeholder() {
    let finding = placeholder_finding(EngineId::Contradiction, &docs(), "x".to_string());
    assert_eq!(finding.finding_type, "factual_contradiction");
    assert_eq!(finding.title, "[MOCK] Date discrepancy detected");
    assert_eq!(
        finding.description,
        "Document A states incident occurred on 15th, Document B states 17th"
    );
    assert_eq!(finding.severity, "high");
    assert_eq!(confidence(&finding), 0.85);
    assert_eq!(
        finding.evidence,
        "{\"doc_a_excerpt\":\"The incident took place on the 15th of March\",\"doc_b_excerpt\":\"As recorded on March 17th, the incident...\",\"mock\":true}"
    );
}

#[test]
fn omission_placeholder() {
    let finding = placeholder_finding(EngineId::Omission, &docs(), "x".to_string());
    assert_eq!(finding.finding_type, "material_omission");
    assert_eq!(finding.title, "[MOCK] Key witness not mentioned");
    assert_eq!(
        finding.description,
        "Source document references witness statements not present in summary"
    );
    assert_eq!(finding.severity, "medium");
    assert_eq!(confidence(&finding), 0.72);
    assert_eq!(
        finding.evidence,
        "{\"missing_reference\":\"Witness John Doe's statement dated 2024-01-15\",\"mock\":true}"
    );
}

#[test]
fn expert_witness_placeholder() {
    let finding = placeholder_finding(EngineId::ExpertWitness, &docs(), "x".to_string());
    assert_eq!(finding.finding_type, "scope_exceeded");
    assert_eq!(finding.title, "[MOCK] Expert exceeded scope");
    assert_eq!(
        finding.description,
        "Expert made determinations outside their stated field of expertise"
    );
    assert_eq!(finding.severity, "high");
    assert_eq!(confidence(&finding), 0.78);
    assert_eq!(finding.evidence, "{\"mock\":true}");
}

#[test]
fn narrative_placeholder() {
    let finding = placeholder_finding(EngineId::Narrative, &docs(), "x".to_string());
    assert_eq!(finding.finding_type, "amplification");
    assert_eq!(finding.title, "[MOCK] Narrative amplification detected");
    assert_eq!(
        finding.description,
        "Claim became stronger across documents without new evidence"
    );
    assert_eq!(finding.severity, "medium");
    assert_eq!(confidence(&finding), 0.68);
}

#[test]
fn coordination_placeholder() {
    let finding = placeholder_finding(EngineId::Coordination, &docs(), "x".to_string());
    assert_eq!(finding.finding_type, "shared_language");
    assert_eq!(finding.title, "[MOCK] Shared language detected");
    assert_eq!(
        finding.description,
        "Suspiciously similar phrasing in supposedly independent documents"
    );
    assert_eq!(finding.severity, "high");
    assert_eq!(confidence(&finding), 0.82);
}

#[test]
fn entity_resolution_placeholder() {
    let finding = placeholder_finding(EngineId::EntityResolution, &docs(), "x".to_string());
    assert_eq!(finding.finding_type, "extraction");
    assert_eq!(finding.title, "[MOCK] Entities extracted");
    assert_eq!(finding.description, "Found 12 unique entities across documents");
    assert_eq!(finding.severity, "info");
    assert_eq!(confidence(&finding), 0.90);
    assert_eq!(finding.evidence, "{\"entityCount\":12,\"mock\":true}");
}

#[test]
fn temporal_parser_placeholder() {
    let finding = placeholder_finding(EngineId::TemporalParser, &docs(), "x".to_string());
    assert_eq!(finding.finding_type, "timeline_gap");
    assert_eq!(finding.title, "[MOCK] Timeline gap detected");
    assert_eq!(finding.description, "3-month gap in documentation with no explanation");
    assert_eq!(finding.severity, "medium");
    assert_eq!(confidence(&finding), 0.75);
}

#[test]
fn engines_without_a_bespoke_placeholder_get_the_generic_one() {
    let generic = [
        EngineId::Argumentation,
        EngineId::BiasDetection,
        EngineId::AccountabilityAudit,
        EngineId::ProfessionalTracker,
        EngineId::Documentary,
        EngineId::Network,
        EngineId::Memory,
        EngineId::Linguistic,
        EngineId::BiasCascade,
    ];
    for engine in generic {
        let finding = placeholder_finding(engine, &[], "x".to_string());
        assert_eq!(finding.finding_type, "general");
        assert_eq!(
            finding.title,
            format!("[MOCK] {} analysis complete", engine.canonical_name())
        );
        assert_eq!(finding.description, "Mock analysis completed successfully");
        assert_eq!(finding.severity, "info");
        assert_eq!(confidence(&finding), 0.5);
        assert_eq!(finding.evidence, "{\"mock\":true}");
        assert!(finding.document_ids.is_empty());
    }
}

#[test]
fn placeholder_delay_is_half_a_second() {
    assert_eq!(MOCK_DELAY_MS, 500);
}

#[test]
fn a_finding_with_other_metadata_is_not_synthetic() {
    let mut finding = placeholder_finding(EngineId::Memory, &docs(), "x".to_string());
    finding.metadata = "{\"source\":\"worker\"}".to_string();
    assert!(!finding.is_synthetic());
    finding.confidence_bits = 1.5f64.to_bits();
    assert!(!finding.confidence_in_unit_interval());
    finding.confidence_bits = (-0.25f64).to_bits();
    assert!(!finding.confidence_in_unit_interval());
    finding.confidence_bits = 1.0f64.to_bits();
    assert!(finding.confidence_in_unit_interval());
    let copy = finding.clone();
    assert_eq!(format!("{copy:?}"), format!("{finding:?}"));
}

use engine_orchestrator::catalog::EngineId;

const ALL: [EngineId; 16] = [
    EngineId::EntityResolution,
    EngineId::TemporalParser,
    EngineId::Argumentation,
    EngineId::BiasDetection,
    EngineId::Contradiction,
    EngineId::AccountabilityAudit,
    EngineId::ProfessionalTracker,
    EngineId::Omission,
    EngineId::ExpertWitness,
    EngineId::Documentary,
    EngineId::Narrative,
    EngineId::Coordination,
    EngineId::Network,
    EngineId::Memory,
    EngineId::Linguistic,
    EngineId::BiasCascade,
];

#[test]
fn canonical_names_are_snake_case() {
    assert_eq!(EngineId::EntityResolution.to_string(), "entity_resolution");
    assert_eq!(EngineId::TemporalParser.to_string(), "temporal_parser");
    assert_eq!(EngineId::Argumentation.to_string(), "argumentation");
    assert_eq!(EngineId::BiasDetection.to_string(), "bias_detection");
    assert_eq!(EngineId::Contradiction.to_string(), "contradiction");
    assert_eq!(EngineId::AccountabilityAudit.to_string(), "accountability_audit");
    assert_eq!(EngineId::ProfessionalTracker.to_string(), "professional_tracker");
    assert_eq!(EngineId::Omission.to_string(), "omission");
    assert_eq!(EngineId::ExpertWitness.to_string(), "expert_witness");
    assert_eq!(EngineId::Documentary.to_string(), "documentary");
    assert_eq!(EngineId::Narrative.to_string(), "narrative");
    assert_eq!(EngineId::Coordination.to_string(), "coordination");
    assert_eq!(EngineId::Network.to_string(), "network");
    assert_eq!(EngineId::Memory.to_string(), "memory");
    assert_eq!(EngineId::Linguistic.to_string(), "linguistic");
    assert_eq!(EngineId::BiasCascade.to_string(), "bias_cascade");
}

#[test]
fn every_canonical_name_resolves_to_its_engine() {
    for engine in ALL {
        assert_eq!(EngineId::from_str(engine.canonical_name()), Some(engine));
        assert_eq!(EngineId::from_str(&engine.to_string()), Some(engine));
    }
}

#[test]
fn canonical_names_differ_from_each_other() {
    for (i, a) in ALL.iter().enumerate() {
        for (j, b) in ALL.iter().enumerate() {
            assert_eq!(a.canonical_name() == b.canonical_name(), i == j);
        }
    }
}

#[test]
fn legacy_alias_resolves_to_temporal_parser() {
    assert_eq!(EngineId::from_str("temporal"), Some(EngineId::TemporalParser));
}

#[test]
fn unknown_names_do_not_resolve() {
    assert_eq!(EngineId::from_str("bogus_engine"), None);
    assert_eq!(EngineId::from_str(""), None);
    assert_eq!(EngineId::from_str("temporal "), None);
    assert_eq!(EngineId::from_str("contradictions"), None);
    assert_eq!(EngineId::from_str("contradictio"), None);
}

#[test]
fn resolution_is_case_sensitive() {
    assert_eq!(EngineId::from_str("Contradiction"), None);
    assert_eq!(EngineId::from_str("OMISSION"), None);
    assert_eq!(EngineId::from_str("Temporal"), None);
}

#[test]
fn active_engines_are_the_twelve_in_default_order() {
    assert_eq!(
        EngineId::active_engines(),
        vec![
            EngineId::EntityResolution,
            EngineId::TemporalParser,
            EngineId::Argumentation,
            EngineId::BiasDetection,
            EngineId::Contradiction,
            EngineId::AccountabilityAudit,
            EngineId::ProfessionalTracker,
            EngineId::Omission,
            EngineId::ExpertWitness,
            EngineId::Documentary,
            EngineId::Narrative,
            EngineId::Coordination,
        ]
    );
}

//! Placeholder findings: the deterministic output handed out when no worker
//! is available. Every engine has one; each is tagged as synthetic so that it
//! is never taken for the result of real analysis.

use crate::catalog::EngineId;
use crate::finding::{synthetic_tag, EngineFinding, FindingModel};
use crate::text::{clone_strings, text_list};
use vstd::prelude::*;
use vstd::string::StringExecFns;

verus! {

/// How long a placeholder run pretends to work, in milliseconds.
pub const MOCK_DELAY_MS: u64 = 500;

/// The title of the placeholder finding of an engine without a bespoke one.
pub open spec fn generic_title(engine_id: EngineId) -> Seq<char> {
    "[MOCK] "@ + engine_id.name_of() + " analysis complete"@
}

/// The placeholder finding of an engine, for the documents it was asked about
/// and under the identifier it is given.
pub open spec fn placeholder_model(
    engine_id: EngineId,
    document_ids: Seq<Seq<char>>,
    id: Seq<char>,
) -> FindingModel {
    let base = FindingModel {
        id,
        engine_id: engine_id.name_of(),
        finding_type: "general"@,
        title: generic_title(engine_id),
        description: "Mock analysis completed successfully"@,
        severity: "info"@,
        confidence_bits: 0x3fe0_0000_0000_0000,
        document_ids,
        evidence: "{\"mock\":true}"@,
        metadata: synthetic_tag(),
    };
    match engine_id {
        EngineId::Contradiction => FindingModel {
            finding_type: "factual_contradiction"@,
            title: "[MOCK] Date discrepancy detected"@,
            description: "Document A states incident occurred on 15th, Document B states 17th"@,
            severity: "high"@,
            confidence_bits: 0x3feb_3333_3333_3333,
            evidence: "{\"doc_a_excerpt\":\"The incident took place on the 15th of March\",\"doc_b_excerpt\":\"As recorded on March 17th, the incident...\",\"mock\":true}"@,
            ..base
        },
        EngineId::Omission => FindingModel {
            finding_type: "material_omission"@,
            title: "[MOCK] Key witness not mentioned"@,
            description: "Source document references witness statements not present in summary"@,
            severity: "medium"@,
            confidence_bits: 0x3fe7_0a3d_70a3_d70a,
            evidence: "{\"missing_reference\":\"Witness John Doe's statement dated 2024-01-15\",\"mock\":true}"@,
            ..base
        },
        EngineId::ExpertWitness => FindingModel {
            finding_type: "scope_exceeded"@,
            title: "[MOCK] Expert exceeded scope"@,
            description: "Expert made determinations outside their stated field of expertise"@,
            severity: "high"@,
            confidence_bits: 0x3fe8_f5c2_8f5c_28f6,
            ..base
        },
        EngineId::Narrative => FindingModel {
            finding_type: "amplification"@,
            title: "[MOCK] Narrative amplification detected"@,
            description: "Claim became stronger across documents without new evidence"@,
            severity: "medium"@,
            confidence_bits: 0x3fe5_c28f_5c28_f5c3,
            ..base
        },
        EngineId::Coordination => FindingModel {
            finding_type: "shared_language"@,
            title: "[MOCK] Shared language detected"@,
            description: "Suspiciously similar phrasing in supposedly independent documents"@,
            severity: "high"@,
            confidence_bits: 0x3fea_3d70_a3d7_0a3d,
            ..base
        },
        EngineId::EntityResolution => FindingModel {
            finding_type: "extraction"@,
            title: "[MOCK] Entities extracted"@,
            description: "Found 12 unique entities across documents"@,
            severity: "info"@,
            confidence_bits: 0x3fec_cccc_cccc_cccd,
            evidence: "{\"entityCount\":12,\"mock\":true}"@,
            ..base
        },
        EngineId::TemporalParser => FindingModel {
            finding_type: "timeline_gap"@,
            title: "[MOCK] Timeline gap detected"@,
            description: "3-month gap in documentation with no explanation"@,
            severity: "medium"@,
            confidence_bits: 0x3fe8_0000_0000_0000,
            ..base
        },
        _ => base,
    }
}

/// The placeholder output of an engine: one finding.
pub open spec fn placeholder_models(
    engine_id: EngineId,
    document_ids: Seq<Seq<char>>,
    id: Seq<char>,
) -> Seq<FindingModel> {
    seq![placeholder_model(engine_id, document_ids, id)]
}

/// Every engine has a placeholder finding, and it is attributed to the
/// engine, tagged as synthetic, scored between zero and one, and speaks of
/// exactly the documents that were handed in.
pub proof fn lemma_placeholder_is_tagged(
    engine_id: EngineId,
    document_ids: Seq<Seq<char>>,
    id: Seq<char>,
)
    ensures
        placeholder_models(engine_id, document_ids, id).len() == 1,
        placeholder_model(engine_id, document_ids, id).is_synthetic(),
        placeholder_model(engine_id, document_ids, id).confidence_in_unit_interval(),
        placeholder_model(engine_id, document_ids, id).engine_id == engine_id.name_of(),
        placeholder_model(engine_id, document_ids, id).document_ids == document_ids,
        placeholder_model(engine_id, document_ids, id).id == id,
{
}

/// Apart from the identifier, the placeholder output depends on the engine
/// and the documents alone.
pub proof fn lemma_placeholder_is_deterministic(
    engine_id: EngineId,
    document_ids: Seq<Seq<char>>,
    id_a: Seq<char>,
    id_b: Seq<char>,
)
    ensures
        placeholder_model(engine_id, document_ids, id_a) == (FindingModel {
            id: id_a,
            ..placeholder_model(engine_id, document_ids, id_b)
        }),
{
}

/// Builds the title of the generic placeholder finding.
fn build_generic_title(engine_id: EngineId) -> (title: String)
    ensures
        title@ == generic_title(engine_id),
{
    let mut title = String::from_str("[MOCK] ");
    title.append(engine_id.canonical_name());
    title.append(" analysis complete");
    title
}

/// Builds the placeholder finding of an engine, under the identifier `id`.
pub fn placeholder_finding(engine_id: EngineId, document_ids: &[String], id: String) -> (finding:
    EngineFinding)
    ensures
        finding@ == placeholder_model(engine_id, text_list(document_ids@), id@),
{
    let mut finding = EngineFinding {
        id,
        engine_id: engine_id.to_string(),
        finding_type: String::from_str("general"),
        title: String::new(),
        description: String::from_str("Mock analysis completed successfully"),
        severity: String::from_str("info"),
        confidence_bits: 0x3fe0_0000_0000_0000,
        document_ids: clone_strings(document_ids),
        evidence: String::from_str("{\"mock\":true}"),
        metadata: String::from_str("{\"mock\":true}"),
    };
    match engine_id {
        EngineId::Contradiction => {
            finding.finding_type = String::from_str("factual_contradiction");
            finding.title = String::from_str("[MOCK] Date discrepancy detected");
            finding.description = String::from_str(
                "Document A states incident occurred on 15th, Document B states 17th",
            );
            finding.severity = String::from_str("high");
            finding.confidence_bits = 0x3feb_3333_3333_3333;
            finding.evidence = String::from_str(
                "{\"doc_a_excerpt\":\"The incident took place on the 15th of March\",\"doc_b_excerpt\":\"As recorded on March 17th, the incident...\",\"mock\":true}",
            );
        },
        EngineId::Omission => {
            finding.finding_type = String::from_str("material_omission");
            finding.title = String::from_str("[MOCK] Key witness not mentioned");
            finding.description = String::from_str(
                "Source document references witness statements not present in summary",
            );
            finding.severity = String::from_str("medium");
            finding.confidence_bits = 0x3fe7_0a3d_70a3_d70a;
            finding.evidence = String::from_str(
                "{\"missing_reference\":\"Witness John Doe's statement dated 2024-01-15\",\"mock\":true}",
            );
        },
        EngineId::ExpertWitness => {
            finding.finding_type = String::from_str("scope_exceeded");
            finding.title = String::from_str("[MOCK] Expert exceeded scope");
            finding.description = String::from_str(
                "Expert made determinations outside their stated field of expertise",
            );
            finding.severity = String::from_str("high");
            finding.confidence_bits = 0x3fe8_f5c2_8f5c_28f6;
        },
        EngineId::Narrative => {
            finding.finding_type = String::from_str("amplification");
            finding.title = String::from_str("[MOCK] Narrative amplification detected");
            finding.description = String::from_str(
                "Claim became stronger across documents without new evidence",
            );
            finding.severity = String::from_str("medium");
            finding.confidence_bits = 0x3fe5_c28f_5c28_f5c3;
        },
        EngineId::Coordination => {
            finding.finding_type = String::from_str("shared_language");
            finding.title = String::from_str("[MOCK] Shared language detected");
            finding.description = String::from_str(
                "Suspiciously similar phrasing in supposedly independent documents",
            );
            finding.severity = String::from_str("high");
            finding.confidence_bits = 0x3fea_3d70_a3d7_0a3d;
        },
        EngineId::EntityResolution => {
            finding.finding_type = String::from_str("extraction");
            finding.title = String::from_str("[MOCK] Entities extracted");
            finding.description = String::from_str("Found 12 unique entities across documents");
            finding.severity = String::from_str("info");
            finding.confidence_bits = 0x3fec_cccc_cccc_cccd;
            finding.evidence = String::from_str("{\"entityCount\":12,\"mock\":true}");
        },
        EngineId::TemporalParser => {
            finding.finding_type = String::from_str("timeline_gap");
            finding.title = String::from_str("[MOCK] Timeline gap detected");
            finding.description = String::from_str(
                "3-month gap in documentation with no explanation",
            );
            finding.severity = String::from_str("medium");
            finding.confidence_bits = 0x3fe8_0000_0000_0000;
        },
        _ => {
            finding.title = build_generic_title(engine_id);
        },
    }
    finding
}

/// Builds the placeholder output of an engine: its one finding.
pub fn placeholder_findings(engine_id: EngineId, document_ids: &[String], id: String) -> (findings:
    Vec<EngineFinding>)
    ensures
        findings.len() == 1,
        findings[0].id@ == id@,
        crate::finding::finding_models(findings@) == placeholder_models(
            engine_id,
            text_list(document_ids@),
            id@,
        ),
{
    let mut findings: Vec<EngineFinding> = Vec::new();
    findings.push(placeholder_finding(engine_id, document_ids, id));
    assert(crate::finding::finding_models(findings@) =~= placeholder_models(
        engine_id,
        text_list(document_ids@),
        id@,
    ));
    findings
}

} // verus!

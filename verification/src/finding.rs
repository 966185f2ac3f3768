//! Findings: the units of analytical output that an engine run produces.

use crate::text::{clone_strings, text_list};
use vstd::prelude::*;

verus! {

/// One finding. The confidence score is held as the IEEE-754 binary64 bit
/// pattern of the number, and the two free-form payloads as JSON text, so
/// that a finding is carried through unchanged whatever it holds.
#[derive(Debug)]
pub struct EngineFinding {
    pub id: String,
    pub engine_id: String,
    pub finding_type: String,
    pub title: String,
    pub description: String,
    pub severity: String,
    pub confidence_bits: u64,
    pub document_ids: Vec<String>,
    pub evidence: String,
    pub metadata: String,
}

/// What a finding holds, as mathematical values.
pub struct FindingModel {
    pub id: Seq<char>,
    pub engine_id: Seq<char>,
    pub finding_type: Seq<char>,
    pub title: Seq<char>,
    pub description: Seq<char>,
    pub severity: Seq<char>,
    pub confidence_bits: u64,
    pub document_ids: Seq<Seq<char>>,
    pub evidence: Seq<char>,
    pub metadata: Seq<char>,
}

/// The bit pattern of the number one.
pub const CONFIDENCE_ONE_BITS: u64 = 0x3ff0_0000_0000_0000;

/// The metadata payload that marks a finding as synthesized placeholder
/// output rather than the result of real analysis.
pub open spec fn synthetic_tag() -> Seq<char> {
    "{\"mock\":true}"@
}

impl FindingModel {
    /// Whether the confidence score lies between zero and one. Among the
    /// non-negative binary64 numbers the bit patterns are ordered as the
    /// numbers are, so the test is a comparison with the pattern of one.
    pub open spec fn confidence_in_unit_interval(self) -> bool {
        self.confidence_bits <= CONFIDENCE_ONE_BITS
    }

    /// Whether the metadata is exactly the synthetic tag.
    pub open spec fn is_synthetic(self) -> bool {
        self.metadata == synthetic_tag()
    }
}

impl View for EngineFinding {
    type V = FindingModel;

    open spec fn view(&self) -> FindingModel {
        FindingModel {
            id: self.id@,
            engine_id: self.engine_id@,
            finding_type: self.finding_type@,
            title: self.title@,
            description: self.description@,
            severity: self.severity@,
            confidence_bits: self.confidence_bits,
            document_ids: text_list(self.document_ids@),
            evidence: self.evidence@,
            metadata: self.metadata@,
        }
    }
}

/// The models of a list of findings, in order.
pub open spec fn finding_models(items: Seq<EngineFinding>) -> Seq<FindingModel> {
    Seq::new(items.len(), |i: int| items[i]@)
}

impl Clone for EngineFinding {
    fn clone(&self) -> (copy: Self)
        ensures
            copy@ == self@,
    {
        EngineFinding {
            id: self.id.clone(),
            engine_id: self.engine_id.clone(),
            finding_type: self.finding_type.clone(),
            title: self.title.clone(),
            description: self.description.clone(),
            severity: self.severity.clone(),
            confidence_bits: self.confidence_bits,
            document_ids: clone_strings(self.document_ids.as_slice()),
            evidence: self.evidence.clone(),
            metadata: self.metadata.clone(),
        }
    }
}

impl EngineFinding {
    /// Whether the finding carries the synthetic tag.
    pub fn is_synthetic(&self) -> (tagged: bool)
        ensures
            tagged == self@.is_synthetic(),
    {
        crate::text::str_eq(self.metadata.as_str(), "{\"mock\":true}")
    }

    /// Whether the confidence score lies between zero and one.
    pub fn confidence_in_unit_interval(&self) -> (inside: bool)
        ensures
            inside == self@.confidence_in_unit_interval(),
    {
        self.confidence_bits <= CONFIDENCE_ONE_BITS
    }
}

} // verus!

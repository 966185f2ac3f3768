//! The engine catalog: the closed set of analysis engines, their canonical
//! names, the names accepted on input, and the default execution order.

use crate::text::str_eq;
use vstd::prelude::*;
use vstd::string::StringExecFns;

verus! {

/// One of the known analysis engines.
#[derive(Debug, Clone, Copy, PartialEq, Eq, Hash, Structural)]
pub enum EngineId {
    EntityResolution,
    TemporalParser,
    Argumentation,
    BiasDetection,
    Contradiction,
    AccountabilityAudit,
    ProfessionalTracker,
    Omission,
    ExpertWitness,
    Documentary,
    Narrative,
    Coordination,
    Network,
    Memory,
    Linguistic,
    BiasCascade,
}

impl EngineId {
    /// The canonical lower-case snake-case name of an engine. It is the name
    /// shown to people and the name written on the wire.
    pub open spec fn name_of(self) -> Seq<char> {
        match self {
            EngineId::EntityResolution => "entity_resolution"@,
            EngineId::TemporalParser => "temporal_parser"@,
            EngineId::Argumentation => "argumentation"@,
            EngineId::BiasDetection => "bias_detection"@,
            EngineId::Contradiction => "contradiction"@,
            EngineId::AccountabilityAudit => "accountability_audit"@,
            EngineId::ProfessionalTracker => "professional_tracker"@,
            EngineId::Omission => "omission"@,
            EngineId::ExpertWitness => "expert_witness"@,
            EngineId::Documentary => "documentary"@,
            EngineId::Narrative => "narrative"@,
            EngineId::Coordination => "coordination"@,
            EngineId::Network => "network"@,
            EngineId::Memory => "memory"@,
            EngineId::Linguistic => "linguistic"@,
            EngineId::BiasCascade => "bias_cascade"@,
        }
    }

    /// The engine that a legacy alias stands for, if `name` is an alias.
    pub open spec fn alias_target(name: Seq<char>) -> Option<EngineId> {
        if name == "temporal"@ {
            Some(EngineId::TemporalParser)
        } else {
            None
        }
    }

    /// What a name resolves to: the engine whose canonical name it is, else the
    /// engine it is an alias of, else nothing. The match is exact and
    /// case-sensitive.
    pub open spec fn resolve(name: Seq<char>) -> Option<EngineId> {
        if exists|e: EngineId| e.name_of() == name {
            Some(choose|e: EngineId| e.name_of() == name)
        } else {
            Self::alias_target(name)
        }
    }

    /// The engines run by a blanket request, in their default execution order.
    pub open spec fn active_list() -> Seq<EngineId> {
        seq![
            EngineId::EntityResolution,
            EngineId::TemporalParser,
            EngineId::Argumentation,
            EngineId::BiasDetection,
            EngineId::Contradiction,
            EngineId::AccountabilityAudit,
            EngineId::ProfessionalTracker,
            EngineId::Omission,
            EngineId::ExpertWitness,
            EngineId::Documentary,
            EngineId::Narrative,
            EngineId::Coordination,
        ]
    }

    /// The canonical name, borrowed for the life of the program.
    pub fn canonical_name(&self) -> (name: &'static str)
        ensures
            name@ == self.name_of(),
    {
        match self {
            EngineId::EntityResolution => "entity_resolution",
            EngineId::TemporalParser => "temporal_parser",
            EngineId::Argumentation => "argumentation",
            EngineId::BiasDetection => "bias_detection",
            EngineId::Contradiction => "contradiction",
            EngineId::AccountabilityAudit => "accountability_audit",
            EngineId::ProfessionalTracker => "professional_tracker",
            EngineId::Omission => "omission",
            EngineId::ExpertWitness => "expert_witness",
            EngineId::Documentary => "documentary",
            EngineId::Narrative => "narrative",
            EngineId::Coordination => "coordination",
            EngineId::Network => "network",
            EngineId::Memory => "memory",
            EngineId::Linguistic => "linguistic",
            EngineId::BiasCascade => "bias_cascade",
        }
    }

    /// The canonical name as an owned string.
    pub fn to_string(&self) -> (name: String)
        ensures
            name@ == self.name_of(),
    {
        String::from_str(self.canonical_name())
    }

    /// Resolves a name given on input. An unknown name gives `None`; it is for
    /// the caller to decide what that means.
    pub fn from_str(s: &str) -> (engine: Option<EngineId>)
        ensures
            engine == Self::resolve(s@),
    {
        let found = if str_eq(s, "entity_resolution") {
            Some(EngineId::EntityResolution)
        } else if str_eq(s, "temporal_parser") {
            Some(EngineId::TemporalParser)
        } else if str_eq(s, "argumentation") {
            Some(EngineId::Argumentation)
        } else if str_eq(s, "bias_detection") {
            Some(EngineId::BiasDetection)
        } else if str_eq(s, "contradiction") {
            Some(EngineId::Contradiction)
        } else if str_eq(s, "accountability_audit") {
            Some(EngineId::AccountabilityAudit)
        } else if str_eq(s, "professional_tracker") {
            Some(EngineId::ProfessionalTracker)
        } else if str_eq(s, "omission") {
            Some(EngineId::Omission)
        } else if str_eq(s, "expert_witness") {
            Some(EngineId::ExpertWitness)
        } else if str_eq(s, "documentary") {
            Some(EngineId::Documentary)
        } else if str_eq(s, "narrative") {
            Some(EngineId::Narrative)
        } else if str_eq(s, "coordination") {
            Some(EngineId::Coordination)
        } else if str_eq(s, "network") {
            Some(EngineId::Network)
        } else if str_eq(s, "memory") {
            Some(EngineId::Memory)
        } else if str_eq(s, "linguistic") {
            Some(EngineId::Linguistic)
        } else if str_eq(s, "bias_cascade") {
            Some(EngineId::BiasCascade)
        } else {
            None
        };
        match found {
            Some(e) => {
                proof {
                    Self::lemma_resolve_canonical(e);
                }
                Some(e)
            },
            None => {
                proof {
                    assert forall|e: EngineId| e.name_of() != s@ by {
                        Self::lemma_name_is_listed(e);
                    }
                }
                if str_eq(s, "temporal") {
                    Some(EngineId::TemporalParser)
                } else {
                    None
                }
            },
        }
    }

    /// The list of engines that are implemented, in default execution order.
    pub fn active_engines() -> (list: Vec<EngineId>)
        ensures
            list@ == Self::active_list(),
    {
        let mut list: Vec<EngineId> = Vec::new();
        list.push(EngineId::EntityResolution);
        list.push(EngineId::TemporalParser);
        list.push(EngineId::Argumentation);
        list.push(EngineId::BiasDetection);
        list.push(EngineId::Contradiction);
        list.push(EngineId::AccountabilityAudit);
        list.push(EngineId::ProfessionalTracker);
        list.push(EngineId::Omission);
        list.push(EngineId::ExpertWitness);
        list.push(EngineId::Documentary);
        list.push(EngineId::Narrative);
        list.push(EngineId::Coordination);
        assert(list@ =~= Self::active_list());
        list
    }

    /// Every canonical name is one of the sixteen listed literals; stated so
    /// that a proof can go through the engines one by one.
    proof fn lemma_name_is_listed(e: EngineId)
        ensures
            e.name_of() == "entity_resolution"@ || e.name_of() == "temporal_parser"@
                || e.name_of() == "argumentation"@ || e.name_of() == "bias_detection"@
                || e.name_of() == "contradiction"@ || e.name_of() == "accountability_audit"@
                || e.name_of() == "professional_tracker"@ || e.name_of() == "omission"@
                || e.name_of() == "expert_witness"@ || e.name_of() == "documentary"@
                || e.name_of() == "narrative"@ || e.name_of() == "coordination"@
                || e.name_of() == "network"@ || e.name_of() == "memory"@ || e.name_of()
                == "linguistic"@ || e.name_of() == "bias_cascade"@,
    {
    }

    /// Makes the characters of every catalog literal known to the solver.
    proof fn reveal_names()
        ensures
            "entity_resolution"@.len() == 17 && "entity_resolution"@[2] == 't',
            "temporal_parser"@.len() == 15 && "temporal_parser"@[0] == 't',
            "argumentation"@.len() == 13 && "argumentation"@[0] == 'a',
            "bias_detection"@.len() == 14 && "bias_detection"@[0] == 'b',
            "contradiction"@.len() == 13 && "contradiction"@[0] == 'c',
            "accountability_audit"@.len() == 20 && "accountability_audit"@[0] == 'a',
            "professional_tracker"@.len() == 20 && "professional_tracker"@[0] == 'p',
            "omission"@.len() == 8,
            "expert_witness"@.len() == 14 && "expert_witness"@[0] == 'e',
            "documentary"@.len() == 11 && "documentary"@[0] == 'd',
            "narrative"@.len() == 9,
            "coordination"@.len() == 12 && "coordination"@[0] == 'c',
            "network"@.len() == 7 && "network"@[0] == 'n',
            "memory"@.len() == 6,
            "linguistic"@.len() == 10,
            "bias_cascade"@.len() == 12 && "bias_cascade"@[0] == 'b',
            "temporal"@.len() == 8 && "temporal"@[0] == 't',
            "omission"@[0] == 'o',
    {
        reveal_strlit("entity_resolution");
        reveal_strlit("temporal_parser");
        reveal_strlit("argumentation");
        reveal_strlit("bias_detection");
        reveal_strlit("contradiction");
        reveal_strlit("accountability_audit");
        reveal_strlit("professional_tracker");
        reveal_strlit("omission");
        reveal_strlit("expert_witness");
        reveal_strlit("documentary");
        reveal_strlit("narrative");
        reveal_strlit("coordination");
        reveal_strlit("network");
        reveal_strlit("memory");
        reveal_strlit("linguistic");
        reveal_strlit("bias_cascade");
        reveal_strlit("temporal");
    }

    /// No two engines share a canonical name.
    pub proof fn lemma_names_distinct(a: EngineId, b: EngineId)
        ensures
            a.name_of() == b.name_of() <==> a == b,
    {
        Self::reveal_names();
    }

    /// The alias is not the canonical name of any engine.
    pub proof fn lemma_alias_is_not_canonical(e: EngineId)
        ensures
            e.name_of() != "temporal"@,
    {
        Self::reveal_names();
    }

    /// A canonical name resolves to its own engine.
    pub proof fn lemma_resolve_canonical(e: EngineId)
        ensures
            Self::resolve(e.name_of()) == Some(e),
    {
        let name = e.name_of();
        let chosen = choose|x: EngineId| x.name_of() == name;
        Self::lemma_names_distinct(chosen, e);
    }

    /// A name that resolves is the engine's canonical name or an alias of it.
    pub proof fn lemma_resolve_sound(name: Seq<char>)
        ensures
            Self::resolve(name) matches Some(e) ==> e.name_of() == name || Self::alias_target(name)
                == Some(e),
            Self::resolve(name) is None <==> (forall|e: EngineId| e.name_of() != name)
                && Self::alias_target(name) is None,
    {
    }

    /// The default list holds twelve engines and none of them twice.
    pub proof fn lemma_active_list_distinct()
        ensures
            Self::active_list().no_duplicates(),
            Self::active_list().len() == 12,
    {
    }
}

} // verus!

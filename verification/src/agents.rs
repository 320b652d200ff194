//! The agent roster, run statistics, progress events, and the mutable
//! context threaded through a generation run.

use vstd::prelude::*;

use crate::models::{
    has_id, CreatedNode, DomainGraphRegistry, GeneralizationLink, LevelRequirement,
    PrerequisiteLink,
};

verus! {

/// The seven pipeline steps, in execution order.
#[derive(Clone, Copy, Debug, PartialEq, Eq, Structural)]
pub enum AgentType {
    DomainArchitect,
    KnowledgeGenerator,
    SkillGenerator,
    TraitGenerator,
    MilestoneGenerator,
    LevelDistributor,
    PrerequisiteMapper,
}

impl AgentType {
    /// The human-readable step name.
    pub open spec fn spec_display_name(self) -> Seq<char> {
        match self {
            AgentType::DomainArchitect => "Domain Architect"@,
            AgentType::KnowledgeGenerator => "Knowledge Generator"@,
            AgentType::SkillGenerator => "Skill Generator"@,
            AgentType::TraitGenerator => "Trait Generator"@,
            AgentType::MilestoneGenerator => "Milestone Generator"@,
            AgentType::LevelDistributor => "Level Distributor"@,
            AgentType::PrerequisiteMapper => "Prerequisite Mapper"@,
        }
    }

    /// The human-readable step name.
    pub fn display_name(&self) -> (r: &'static str)
        ensures
            r@ == self.spec_display_name(),
    {
        match self {
            AgentType::DomainArchitect => "Domain Architect",
            AgentType::KnowledgeGenerator => "Knowledge Generator",
            AgentType::SkillGenerator => "Skill Generator",
            AgentType::TraitGenerator => "Trait Generator",
            AgentType::MilestoneGenerator => "Milestone Generator",
            AgentType::LevelDistributor => "Level Distributor",
            AgentType::PrerequisiteMapper => "Prerequisite Mapper",
        }
    }

    /// The name of the instruction sheet belonging to the step.
    pub open spec fn spec_instruction_file(self) -> Seq<char> {
        match self {
            AgentType::DomainArchitect => "1_domain_architect.md"@,
            AgentType::KnowledgeGenerator => "2a_knowledge_generator.md"@,
            AgentType::SkillGenerator => "2b_skill_generator.md"@,
            AgentType::TraitGenerator => "2c_trait_generator.md"@,
            AgentType::MilestoneGenerator => "2d_milestone_generator.md"@,
            AgentType::LevelDistributor => "3a_level_distributor.md"@,
            AgentType::PrerequisiteMapper => "3b_prerequisite_mapper.md"@,
        }
    }

    /// The name of the instruction sheet belonging to the step.
    pub fn instruction_file(&self) -> (r: &'static str)
        ensures
            r@ == self.spec_instruction_file(),
    {
        match self {
            AgentType::DomainArchitect => "1_domain_architect.md",
            AgentType::KnowledgeGenerator => "2a_knowledge_generator.md",
            AgentType::SkillGenerator => "2b_skill_generator.md",
            AgentType::TraitGenerator => "2c_trait_generator.md",
            AgentType::MilestoneGenerator => "2d_milestone_generator.md",
            AgentType::LevelDistributor => "3a_level_distributor.md",
            AgentType::PrerequisiteMapper => "3b_prerequisite_mapper.md",
        }
    }

    /// The one-based position of the step in the fixed sequence.
    pub open spec fn spec_order(self) -> u8 {
        match self {
            AgentType::DomainArchitect => 1,
            AgentType::KnowledgeGenerator => 2,
            AgentType::SkillGenerator => 3,
            AgentType::TraitGenerator => 4,
            AgentType::MilestoneGenerator => 5,
            AgentType::LevelDistributor => 6,
            AgentType::PrerequisiteMapper => 7,
        }
    }

    /// The one-based position of the step in the fixed sequence.
    pub fn order(&self) -> (r: u8)
        ensures
            r == self.spec_order(),
    {
        match self {
            AgentType::DomainArchitect => 1,
            AgentType::KnowledgeGenerator => 2,
            AgentType::SkillGenerator => 3,
            AgentType::TraitGenerator => 4,
            AgentType::MilestoneGenerator => 5,
            AgentType::LevelDistributor => 6,
            AgentType::PrerequisiteMapper => 7,
        }
    }

    /// The fixed step sequence.
    pub open spec fn spec_all_agents() -> Seq<AgentType> {
        seq![
            AgentType::DomainArchitect,
            AgentType::KnowledgeGenerator,
            AgentType::SkillGenerator,
            AgentType::TraitGenerator,
            AgentType::MilestoneGenerator,
            AgentType::LevelDistributor,
            AgentType::PrerequisiteMapper,
        ]
    }

    /// All steps in execution order.
    pub fn all_agents() -> (r: [AgentType; 7])
        ensures
            r@ == AgentType::spec_all_agents(),
            forall|k: int| 0 <= k < 7 ==> (#[trigger] r@[k].spec_order()) == k + 1,
    {
        let r = [
            AgentType::DomainArchitect,
            AgentType::KnowledgeGenerator,
            AgentType::SkillGenerator,
            AgentType::TraitGenerator,
            AgentType::MilestoneGenerator,
            AgentType::LevelDistributor,
            AgentType::PrerequisiteMapper,
        ];
        proof {
            assert(r@ =~= AgentType::spec_all_agents());
        }
        r
    }
}

/// Aggregate statistics of one finished run.
#[derive(Clone, Copy, Debug, PartialEq, Eq, Structural)]
pub struct DomainStatistics {
    pub domain_levels_created: usize,
    pub knowledge_created: usize,
    pub skills_created: usize,
    pub traits_created: usize,
    pub milestones_created: usize,
    pub relationships_created: usize,
    pub nodes_reused: usize,
    pub generation_time_ms: u64,
}

impl Default for DomainStatistics {
    /// All counts at zero.
    fn default() -> (r: DomainStatistics)
        ensures
            r.domain_levels_created == 0,
            r.knowledge_created == 0,
            r.skills_created == 0,
            r.traits_created == 0,
            r.milestones_created == 0,
            r.relationships_created == 0,
            r.nodes_reused == 0,
            r.generation_time_ms == 0,
    {
        DomainStatistics {
            domain_levels_created: 0,
            knowledge_created: 0,
            skills_created: 0,
            traits_created: 0,
            milestones_created: 0,
            relationships_created: 0,
            nodes_reused: 0,
            generation_time_ms: 0,
        }
    }
}

/// A progress or outcome notification of the event stream.  Scores are
/// similarities in hundredths.
#[derive(Debug)]
pub enum SseEvent {
    Started { domain_name: String, total_agents: u8 },
    DomainExists { requested_name: String, existing_domain: String },
    AgentStarted { agent: AgentType, agent_number: u8, agent_name: String },
    StepProgress { agent: AgentType, message: String },
    SimilarityCheck { agent: AgentType, concept: String, similar_found: usize, top_score: Option<u32> },
    VerificationResult { agent: AgentType, concept: String, decision: String, generalizes_to: Option<String> },
    NodeCreated { agent: AgentType, node_name: String, label: String, was_reused: bool },
    AgentCompleted { agent: AgentType, nodes_created: usize, nodes_reused: usize },
    AgentFailed { agent: AgentType, error: String },
    Completed { domain_name: String, statistics: DomainStatistics },
    Failed {
        error: String,
        last_agent: Option<AgentType>,
        nodes_created_before_failure: Option<DomainGraphRegistry>,
    },
}

/// The request that starts a run.
#[derive(Clone, Debug)]
pub struct GenerateDomainRequest {
    pub domain_name: String,
    pub description: Option<String>,
}

impl GenerateDomainRequest {
    /// Whether the request satisfies the entry constraints: a domain
    /// name of one to a hundred characters, and a description of at most
    /// five hundred.
    pub open spec fn spec_valid(self) -> bool {
        &&& 1 <= self.domain_name@.len() <= 100
        &&& match self.description {
            Some(d) => d@.len() <= 500,
            None => true,
        }
    }

    /// Check the entry constraints; rejected requests never start a run.
    pub fn validate(&self) -> (r: Result<(), String>)
        ensures
            r is Ok <==> self.spec_valid(),
    {
        let n = self.domain_name.as_str().unicode_len();
        if n < 1 || n > 100 {
            return Err(String::from_str("Domain name must be 1-100 characters"));
        }
        if let Some(d) = &self.description {
            if d.as_str().unicode_len() > 500 {
                return Err(String::from_str("Description must be at most 500 characters"));
            }
        }
        Ok(())
    }
}

/// What a completed run hands back.
#[derive(Clone, Debug)]
pub struct DomainGenerationResult {
    pub domain_name: String,
    pub domain_element_id: String,
    pub domain_graph: DomainGraphRegistry,
    pub statistics: DomainStatistics,
}

/// The context threaded through every step of one run.
#[derive(Clone, Debug)]
pub struct AgentContext {
    pub domain_name: String,
    pub description: Option<String>,
    pub domain_element_id: Option<String>,
    pub domain_graph: DomainGraphRegistry,
}

impl AgentContext {
    /// A fresh context with an empty registry.
    pub fn new(domain_name: String, description: Option<String>) -> (r: AgentContext)
        ensures
            r.domain_name@ == domain_name@,
            r.description == description,
            r.domain_element_id is None,
            r.domain_graph.domain is None,
            r.domain_graph.domain_levels@.len() == 0,
            r.domain_graph.knowledge@.len() == 0,
            r.domain_graph.skills@.len() == 0,
            r.domain_graph.traits@.len() == 0,
            r.domain_graph.milestones@.len() == 0,
            r.domain_graph.level_requirements@.len() == 0,
            r.domain_graph.generalizations@.len() == 0,
            r.domain_graph.prerequisites@.len() == 0,
            r.domain_graph.wf(),
    {
        AgentContext {
            domain_name,
            description,
            domain_element_id: None,
            domain_graph: DomainGraphRegistry::empty(),
        }
    }

    /// Register a freshly created knowledge node.
    pub fn add_knowledge(&mut self, node: CreatedNode)
        ensures
            final(self).domain_graph.knowledge@ == old(self).domain_graph.knowledge@.push(node),
            final(self).domain_graph.domain == old(self).domain_graph.domain,
            final(self).domain_graph.domain_levels@ == old(self).domain_graph.domain_levels@,
            final(self).domain_graph.skills@ == old(self).domain_graph.skills@,
            final(self).domain_graph.traits@ == old(self).domain_graph.traits@,
            final(self).domain_graph.milestones@ == old(self).domain_graph.milestones@,
            final(self).domain_graph.level_requirements@ == old(
                self,
            ).domain_graph.level_requirements@,
            final(self).domain_graph.generalizations@ == old(self).domain_graph.generalizations@,
            final(self).domain_graph.prerequisites@ == old(self).domain_graph.prerequisites@,
            final(self).domain_name == old(self).domain_name,
            final(self).description == old(self).description,
            final(self).domain_element_id == old(self).domain_element_id,
            old(self).domain_graph.wf() ==> final(self).domain_graph.wf(),
    {
        self.domain_graph.knowledge.push(node);
        proof {
            let r1 = old(self).domain_graph;
            let r2 = self.domain_graph;
            assert forall|id: Seq<char>| has_id(r1.all_nodes_seq(), id) implies has_id(
                r2.all_nodes_seq(),
                id,
            ) by {
                let k = choose|k: int|
                    0 <= k < r1.all_nodes_seq().len() && #[trigger] r1.all_nodes_seq()[k].element_id@
                        == id;
                let b = (if r1.domain is Some {
                    1int
                } else {
                    0int
                }) + r1.domain_levels@.len() + r1.knowledge@.len();
                if k < b {
                    assert(r2.all_nodes_seq()[k] == r1.all_nodes_seq()[k]);
                } else {
                    assert(r2.all_nodes_seq()[k + 1] == r1.all_nodes_seq()[k]);
                }
            }
            lemma_wf_after_node_growth(r1, r2);
        }
    }

    /// Record the domain root node, exactly once per run.
    pub fn set_domain(&mut self, domain: CreatedNode)
        requires
            old(self).domain_graph.domain is None,
        ensures
            final(self).domain_graph.domain == Some(domain),
            final(self).domain_element_id matches Some(id) && id@ == domain.element_id@,
            final(self).domain_graph.domain_levels@ == old(self).domain_graph.domain_levels@,
            final(self).domain_graph.knowledge@ == old(self).domain_graph.knowledge@,
            final(self).domain_graph.skills@ == old(self).domain_graph.skills@,
            final(self).domain_graph.traits@ == old(self).domain_graph.traits@,
            final(self).domain_graph.milestones@ == old(self).domain_graph.milestones@,
            final(self).domain_graph.level_requirements@ == old(
                self,
            ).domain_graph.level_requirements@,
            final(self).domain_graph.generalizations@ == old(self).domain_graph.generalizations@,
            final(self).domain_graph.prerequisites@ == old(self).domain_graph.prerequisites@,
            final(self).domain_name == old(self).domain_name,
            final(self).description == old(self).description,
            old(self).domain_graph.wf() ==> final(self).domain_graph.wf(),
    {
        self.domain_element_id = Some(domain.element_id.clone());
        self.domain_graph.domain = Some(domain);
        proof {
            let r1 = old(self).domain_graph;
            let r2 = self.domain_graph;
            assert forall|id: Seq<char>| has_id(r1.all_nodes_seq(), id) implies has_id(
                r2.all_nodes_seq(),
                id,
            ) by {
                let k = choose|k: int|
                    0 <= k < r1.all_nodes_seq().len() && #[trigger] r1.all_nodes_seq()[k].element_id@
                        == id;
                assert(r2.all_nodes_seq()[k + 1] == r1.all_nodes_seq()[k]);
            }
            lemma_wf_after_node_growth(r1, r2);
        }
    }

    /// Register a created mastery level.
    pub fn add_domain_level(&mut self, node: CreatedNode)
        ensures
            final(self).domain_graph.domain_levels@ == old(
                self,
            ).domain_graph.domain_levels@.push(node),
            final(self).domain_graph.domain == old(self).domain_graph.domain,
            final(self).domain_graph.knowledge@ == old(self).domain_graph.knowledge@,
            final(self).domain_graph.skills@ == old(self).domain_graph.skills@,
            final(self).domain_graph.traits@ == old(self).domain_graph.traits@,
            final(self).domain_graph.milestones@ == old(self).domain_graph.milestones@,
            final(self).domain_graph.level_requirements@ == old(
                self,
            ).domain_graph.level_requirements@,
            final(self).domain_graph.generalizations@ == old(self).domain_graph.generalizations@,
            final(self).domain_graph.prerequisites@ == old(self).domain_graph.prerequisites@,
            final(self).domain_name == old(self).domain_name,
            final(self).description == old(self).description,
            final(self).domain_element_id == old(self).domain_element_id,
            old(self).domain_graph.wf() ==> final(self).domain_graph.wf(),
    {
        self.domain_graph.domain_levels.push(node);
        proof {
            let r1 = old(self).domain_graph;
            let r2 = self.domain_graph;
            assert forall|id: Seq<char>| has_id(r1.domain_levels@, id) implies has_id(
                r2.domain_levels@,
                id,
            ) by {
                let k = choose|k: int|
                    0 <= k < r1.domain_levels@.len() && #[trigger] r1.domain_levels@[k].element_id@
                        == id;
                assert(r2.domain_levels@[k] == r1.domain_levels@[k]);
            }
            assert forall|id: Seq<char>| has_id(r1.all_nodes_seq(), id) implies has_id(
                r2.all_nodes_seq(),
                id,
            ) by {
                let k = choose|k: int|
                    0 <= k < r1.all_nodes_seq().len() && #[trigger] r1.all_nodes_seq()[k].element_id@
                        == id;
                let b = (if r1.domain is Some {
                    1int
                } else {
                    0int
                }) + r1.domain_levels@.len();
                if k < b {
                    assert(r2.all_nodes_seq()[k] == r1.all_nodes_seq()[k]);
                } else {
                    assert(r2.all_nodes_seq()[k + 1] == r1.all_nodes_seq()[k]);
                }
            }
            lemma_wf_after_node_growth(r1, r2);
        }
    }

    /// Register a created skill node.
    pub fn add_skill(&mut self, node: CreatedNode)
        ensures
            final(self).domain_graph.skills@ == old(self).domain_graph.skills@.push(node),
            final(self).domain_graph.domain == old(self).domain_graph.domain,
            final(self).domain_graph.domain_levels@ == old(self).domain_graph.domain_levels@,
            final(self).domain_graph.knowledge@ == old(self).domain_graph.knowledge@,
            final(self).domain_graph.traits@ == old(self).domain_graph.traits@,
            final(self).domain_graph.milestones@ == old(self).domain_graph.milestones@,
            final(self).domain_graph.level_requirements@ == old(
                self,
            ).domain_graph.level_requirements@,
            final(self).domain_graph.generalizations@ == old(self).domain_graph.generalizations@,
            final(self).domain_graph.prerequisites@ == old(self).domain_graph.prerequisites@,
            final(self).domain_name == old(self).domain_name,
            final(self).description == old(self).description,
            final(self).domain_element_id == old(self).domain_element_id,
            old(self).domain_graph.wf() ==> final(self).domain_graph.wf(),
    {
        self.domain_graph.skills.push(node);
        proof {
            let r1 = old(self).domain_graph;
            let r2 = self.domain_graph;
            assert forall|id: Seq<char>| has_id(r1.all_nodes_seq(), id) implies has_id(
                r2.all_nodes_seq(),
                id,
            ) by {
                let k = choose|k: int|
                    0 <= k < r1.all_nodes_seq().len() && #[trigger] r1.all_nodes_seq()[k].element_id@
                        == id;
                let b = (if r1.domain is Some {
                    1int
                } else {
                    0int
                }) + r1.domain_levels@.len() + r1.knowledge@.len() + r1.skills@.len();
                if k < b {
                    assert(r2.all_nodes_seq()[k] == r1.all_nodes_seq()[k]);
                } else {
                    assert(r2.all_nodes_seq()[k + 1] == r1.all_nodes_seq()[k]);
                }
            }
            lemma_wf_after_node_growth(r1, r2);
        }
    }

    /// Register a created trait node.
    pub fn add_trait(&mut self, node: CreatedNode)
        ensures
            final(self).domain_graph.traits@ == old(self).domain_graph.traits@.push(node),
            final(self).domain_graph.domain == old(self).domain_graph.domain,
            final(self).domain_graph.domain_levels@ == old(self).domain_graph.domain_levels@,
            final(self).domain_graph.knowledge@ == old(self).domain_graph.knowledge@,
            final(self).domain_graph.skills@ == old(self).domain_graph.skills@,
            final(self).domain_graph.milestones@ == old(self).domain_graph.milestones@,
            final(self).domain_graph.level_requirements@ == old(
                self,
            ).domain_graph.level_requirements@,
            final(self).domain_graph.generalizations@ == old(self).domain_graph.generalizations@,
            final(self).domain_graph.prerequisites@ == old(self).domain_graph.prerequisites@,
            final(self).domain_name == old(self).domain_name,
            final(self).description == old(self).description,
            final(self).domain_element_id == old(self).domain_element_id,
            old(self).domain_graph.wf() ==> final(self).domain_graph.wf(),
    {
        self.domain_graph.traits.push(node);
        proof {
            let r1 = old(self).domain_graph;
            let r2 = self.domain_graph;
            assert forall|id: Seq<char>| has_id(r1.all_nodes_seq(), id) implies has_id(
                r2.all_nodes_seq(),
                id,
            ) by {
                let k = choose|k: int|
                    0 <= k < r1.all_nodes_seq().len() && #[trigger] r1.all_nodes_seq()[k].element_id@
                        == id;
                let b = (if r1.domain is Some {
                    1int
                } else {
                    0int
                }) + r1.domain_levels@.len() + r1.knowledge@.len() + r1.skills@.len()
                    + r1.traits@.len();
                if k < b {
                    assert(r2.all_nodes_seq()[k] == r1.all_nodes_seq()[k]);
                } else {
                    assert(r2.all_nodes_seq()[k + 1] == r1.all_nodes_seq()[k]);
                }
            }
            lemma_wf_after_node_growth(r1, r2);
        }
    }

    /// Register a created milestone node.
    pub fn add_milestone(&mut self, node: CreatedNode)
        ensures
            final(self).domain_graph.milestones@ == old(self).domain_graph.milestones@.push(node),
            final(self).domain_graph.domain == old(self).domain_graph.domain,
            final(self).domain_graph.domain_levels@ == old(self).domain_graph.domain_levels@,
            final(self).domain_graph.knowledge@ == old(self).domain_graph.knowledge@,
            final(self).domain_graph.skills@ == old(self).domain_graph.skills@,
            final(self).domain_graph.traits@ == old(self).domain_graph.traits@,
            final(self).domain_graph.level_requirements@ == old(
                self,
            ).domain_graph.level_requirements@,
            final(self).domain_graph.generalizations@ == old(self).domain_graph.generalizations@,
            final(self).domain_graph.prerequisites@ == old(self).domain_graph.prerequisites@,
            final(self).domain_name == old(self).domain_name,
            final(self).description == old(self).description,
            final(self).domain_element_id == old(self).domain_element_id,
            old(self).domain_graph.wf() ==> final(self).domain_graph.wf(),
    {
        self.domain_graph.milestones.push(node);
        proof {
            let r1 = old(self).domain_graph;
            let r2 = self.domain_graph;
            assert forall|id: Seq<char>| has_id(r1.all_nodes_seq(), id) implies has_id(
                r2.all_nodes_seq(),
                id,
            ) by {
                let k = choose|k: int|
                    0 <= k < r1.all_nodes_seq().len() && #[trigger] r1.all_nodes_seq()[k].element_id@
                        == id;
                assert(r2.all_nodes_seq()[k] == r1.all_nodes_seq()[k]);
            }
            lemma_wf_after_node_growth(r1, r2);
        }
    }

    /// Append a resolved level requirement to the registry.
    pub fn add_level_requirement(&mut self, req: LevelRequirement)
        requires
            has_id(old(self).domain_graph.domain_levels@, req.level_id@),
            has_id(old(self).domain_graph.all_nodes_seq(), req.component_id@),
        ensures
            final(self).domain_graph.level_requirements@ == old(
                self,
            ).domain_graph.level_requirements@.push(req),
            final(self).domain_graph.domain == old(self).domain_graph.domain,
            final(self).domain_graph.domain_levels@ == old(self).domain_graph.domain_levels@,
            final(self).domain_graph.knowledge@ == old(self).domain_graph.knowledge@,
            final(self).domain_graph.skills@ == old(self).domain_graph.skills@,
            final(self).domain_graph.traits@ == old(self).domain_graph.traits@,
            final(self).domain_graph.milestones@ == old(self).domain_graph.milestones@,
            final(self).domain_graph.generalizations@ == old(self).domain_graph.generalizations@,
            final(self).domain_graph.prerequisites@ == old(self).domain_graph.prerequisites@,
            final(self).domain_name == old(self).domain_name,
            final(self).description == old(self).description,
            final(self).domain_element_id == old(self).domain_element_id,
            old(self).domain_graph.wf() ==> final(self).domain_graph.wf(),
    {
        self.domain_graph.add_level_requirement(req);
    }

    /// Append a resolved generalization record to the registry.
    pub fn add_generalization(&mut self, link: GeneralizationLink)
        requires
            has_id(old(self).domain_graph.all_nodes_seq(), link.specific_id@),
            link.general_id@.len() > 0,
        ensures
            final(self).domain_graph.generalizations@ == old(
                self,
            ).domain_graph.generalizations@.push(link),
            final(self).domain_graph.domain == old(self).domain_graph.domain,
            final(self).domain_graph.domain_levels@ == old(self).domain_graph.domain_levels@,
            final(self).domain_graph.knowledge@ == old(self).domain_graph.knowledge@,
            final(self).domain_graph.skills@ == old(self).domain_graph.skills@,
            final(self).domain_graph.traits@ == old(self).domain_graph.traits@,
            final(self).domain_graph.milestones@ == old(self).domain_graph.milestones@,
            final(self).domain_graph.level_requirements@ == old(
                self,
            ).domain_graph.level_requirements@,
            final(self).domain_graph.prerequisites@ == old(self).domain_graph.prerequisites@,
            final(self).domain_name == old(self).domain_name,
            final(self).description == old(self).description,
            final(self).domain_element_id == old(self).domain_element_id,
            old(self).domain_graph.wf() ==> final(self).domain_graph.wf(),
    {
        self.domain_graph.add_generalization(link);
    }

    /// Append a resolved prerequisite record to the registry.
    pub fn add_prerequisite(&mut self, link: PrerequisiteLink)
        requires
            has_id(old(self).domain_graph.all_nodes_seq(), link.source_id@),
            has_id(old(self).domain_graph.all_nodes_seq(), link.target_id@),
        ensures
            final(self).domain_graph.prerequisites@ == old(
                self,
            ).domain_graph.prerequisites@.push(link),
            final(self).domain_graph.domain == old(self).domain_graph.domain,
            final(self).domain_graph.domain_levels@ == old(self).domain_graph.domain_levels@,
            final(self).domain_graph.knowledge@ == old(self).domain_graph.knowledge@,
            final(self).domain_graph.skills@ == old(self).domain_graph.skills@,
            final(self).domain_graph.traits@ == old(self).domain_graph.traits@,
            final(self).domain_graph.milestones@ == old(self).domain_graph.milestones@,
            final(self).domain_graph.level_requirements@ == old(
                self,
            ).domain_graph.level_requirements@,
            final(self).domain_graph.generalizations@ == old(self).domain_graph.generalizations@,
            final(self).domain_name == old(self).domain_name,
            final(self).description == old(self).description,
            final(self).domain_element_id == old(self).domain_element_id,
            old(self).domain_graph.wf() ==> final(self).domain_graph.wf(),
    {
        self.domain_graph.add_prerequisite(link);
    }
}

/// When the node collections only grow and the relationship records stay,
/// referential integrity carries over.
pub proof fn lemma_wf_after_node_growth(r1: DomainGraphRegistry, r2: DomainGraphRegistry)
    requires
        r2.level_requirements@ == r1.level_requirements@,
        r2.generalizations@ == r1.generalizations@,
        r2.prerequisites@ == r1.prerequisites@,
        forall|id: Seq<char>| has_id(r1.domain_levels@, id) ==> has_id(r2.domain_levels@, id),
        forall|id: Seq<char>| has_id(r1.all_nodes_seq(), id) ==> has_id(r2.all_nodes_seq(), id),
    ensures
        r1.wf() ==> r2.wf(),
{
    if r1.wf() {
        assert forall|k: int| 0 <= k < r2.level_requirements@.len() implies {
            &&& has_id(r2.domain_levels@, #[trigger] r2.level_requirements@[k].level_id@)
            &&& has_id(r2.all_nodes_seq(), r2.level_requirements@[k].component_id@)
        } by {
            assert(has_id(r1.domain_levels@, r1.level_requirements@[k].level_id@));
            assert(has_id(r1.all_nodes_seq(), r1.level_requirements@[k].component_id@));
        }
        assert forall|k: int| 0 <= k < r2.generalizations@.len() implies {
            &&& has_id(r2.all_nodes_seq(), #[trigger] r2.generalizations@[k].specific_id@)
            &&& r2.generalizations@[k].general_id@.len() > 0
        } by {
            assert(has_id(r1.all_nodes_seq(), r1.generalizations@[k].specific_id@));
        }
        assert forall|k: int| 0 <= k < r2.prerequisites@.len() implies {
            &&& has_id(r2.all_nodes_seq(), #[trigger] r2.prerequisites@[k].source_id@)
            &&& has_id(r2.all_nodes_seq(), r2.prerequisites@[k].target_id@)
        } by {
            assert(has_id(r1.all_nodes_seq(), r1.prerequisites@[k].source_id@));
            assert(has_id(r1.all_nodes_seq(), r1.prerequisites@[k].target_id@));
        }
    }
}

} // verus!

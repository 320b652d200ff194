//! The decision logic of the generator and relationship steps.  Every
//! outside effect (a generation call, a similarity search, a store
//! write) is performed by the caller between these functions; each
//! function here turns the values that came back into the next plan.

use vstd::prelude::*;

use crate::decisions::{ConceptAction, SimilarNodeResult, VerifiedConcept};
use crate::models::{CreatedNode, GeneralizationLink};
use crate::json::{sp_get_text, sp_span, JsonV, JsonValue};
use crate::text::str_eq_str;

verus! {

/// The four concept categories, closed: picking collections, labels and
/// edge types by enum rather than by raw strings.
#[derive(Clone, Copy, Debug, PartialEq, Eq, Structural)]
pub enum NodeCategory {
    Knowledge,
    Skill,
    Trait,
    Milestone,
}

impl NodeCategory {
    /// The store label of the category.
    pub open spec fn spec_label(self) -> Seq<char> {
        match self {
            NodeCategory::Knowledge => "Knowledge"@,
            NodeCategory::Skill => "Skill"@,
            NodeCategory::Trait => "Trait"@,
            NodeCategory::Milestone => "Milestone"@,
        }
    }

    /// The store label of the category.
    pub fn label(&self) -> (r: &'static str)
        ensures
            r@ == self.spec_label(),
    {
        match self {
            NodeCategory::Knowledge => "Knowledge",
            NodeCategory::Skill => "Skill",
            NodeCategory::Trait => "Trait",
            NodeCategory::Milestone => "Milestone",
        }
    }

    /// The requirement edge type of the category.
    pub open spec fn spec_requires_edge(self) -> Seq<char> {
        match self {
            NodeCategory::Knowledge => "REQUIRES_KNOWLEDGE"@,
            NodeCategory::Skill => "REQUIRES_SKILL"@,
            NodeCategory::Trait => "REQUIRES_TRAIT"@,
            NodeCategory::Milestone => "REQUIRES_MILESTONE"@,
        }
    }

    /// The requirement edge type of the category.
    pub fn requires_edge(&self) -> (r: &'static str)
        ensures
            r@ == self.spec_requires_edge(),
    {
        match self {
            NodeCategory::Knowledge => "REQUIRES_KNOWLEDGE",
            NodeCategory::Skill => "REQUIRES_SKILL",
            NodeCategory::Trait => "REQUIRES_TRAIT",
            NodeCategory::Milestone => "REQUIRES_MILESTONE",
        }
    }

    /// The similarity thresholds of the category, low then high, in
    /// hundredths: traits favour reuse with a tighter, lower pair.
    pub open spec fn spec_thresholds(self) -> (u32, u32) {
        match self {
            NodeCategory::Trait => (
                crate::decisions::TRAIT_SIMILARITY_LOW,
                crate::decisions::TRAIT_SIMILARITY_HIGH,
            ),
            _ => (
                crate::decisions::SIMILARITY_THRESHOLD_LOW,
                crate::decisions::SIMILARITY_THRESHOLD_HIGH,
            ),
        }
    }

    /// The similarity thresholds of the category, low then high.
    pub fn thresholds(&self) -> (r: (u32, u32))
        ensures
            r == self.spec_thresholds(),
            r.0 <= r.1,
    {
        match self {
            NodeCategory::Trait => (
                crate::decisions::TRAIT_SIMILARITY_LOW,
                crate::decisions::TRAIT_SIMILARITY_HIGH,
            ),
            _ => (
                crate::decisions::SIMILARITY_THRESHOLD_LOW,
                crate::decisions::SIMILARITY_THRESHOLD_HIGH,
            ),
        }
    }

    /// The category named by a component-type string, as the
    /// relationship steps receive it.
    pub open spec fn spec_of_name(name: Seq<char>) -> Option<NodeCategory> {
        if name == "Knowledge"@ {
            Some(NodeCategory::Knowledge)
        } else if name == "Skill"@ {
            Some(NodeCategory::Skill)
        } else if name == "Trait"@ {
            Some(NodeCategory::Trait)
        } else if name == "Milestone"@ {
            Some(NodeCategory::Milestone)
        } else {
            None
        }
    }

    /// Parse a component-type string.
    pub fn of_name(name: &str) -> (r: Option<NodeCategory>)
        ensures
            r == NodeCategory::spec_of_name(name@),
    {
        if str_eq_str(name, "Knowledge") {
            Some(NodeCategory::Knowledge)
        } else if str_eq_str(name, "Skill") {
            Some(NodeCategory::Skill)
        } else if str_eq_str(name, "Trait") {
            Some(NodeCategory::Trait)
        } else if str_eq_str(name, "Milestone") {
            Some(NodeCategory::Milestone)
        } else {
            None
        }
    }
}

/// A node write: labels and plain properties.
pub struct CreateNodeRequest {
    pub labels: Vec<String>,
    pub properties: Vec<(String, JsonValue)>,
}

/// An edge write: endpoints, type, and optional plain properties.
pub struct CreateRelationshipRequest {
    pub source_id: String,
    pub target_id: String,
    pub relationship_type: String,
    pub properties: Option<Vec<(String, JsonValue)>>,
}

/// What a node write returns.
#[derive(Clone, Debug)]
pub struct CreateNodeResult {
    pub element_id: String,
    pub name: String,
    pub labels: Vec<String>,
}

// ---------------------------------------------------------------------------
// Resolving a generalization target
// ---------------------------------------------------------------------------
/// The first similarity result carrying the given name.
pub open spec fn first_sim_with_name(nodes: Seq<SimilarNodeResult>, name: Seq<char>) -> Option<
    SimilarNodeResult,
>
    decreases nodes.len(),
{
    if nodes.len() == 0 {
        None
    } else if nodes[0].name@ == name {
        Some(nodes[0])
    } else {
        first_sim_with_name(nodes.drop_first(), name)
    }
}

/// Look for the generalization target among the candidate's own
/// similarity results; a hit resolves the target id at once.
pub fn find_target_in_similar(target_name: &str, similar_nodes: &Vec<SimilarNodeResult>) -> (r:
    Option<String>)
    ensures
        match r {
            Some(id) => first_sim_with_name(similar_nodes@, target_name@) matches Some(n)
                && n.id@ == id@,
            None => first_sim_with_name(similar_nodes@, target_name@) is None,
        },
{
    proof {
        assert(similar_nodes@.skip(0) =~= similar_nodes@);
    }
    let mut i: usize = 0;
    while i < similar_nodes.len()
        invariant
            i <= similar_nodes@.len(),
            first_sim_with_name(similar_nodes@, target_name@) == first_sim_with_name(
                similar_nodes@.skip(i as int),
                target_name@,
            ),
        decreases similar_nodes@.len() - i,
    {
        proof {
            assert(similar_nodes@.skip(i as int)[0] == similar_nodes@[i as int]);
            assert(similar_nodes@.skip(i as int).drop_first() =~= similar_nodes@.skip(i + 1));
        }
        if str_eq_str(similar_nodes[i].name.as_str(), target_name) {
            return Some(similar_nodes[i].id.clone());
        }
        i = i + 1;
    }
    None
}

/// Resolve a generalization target from a fresh similarity search for
/// its name: the top result is accepted when its score reaches the
/// reuse threshold or its name matches exactly; otherwise the target is
/// marked for creation with an empty id.
pub fn resolve_target_from_search(
    concept: &str,
    target_name: &str,
    search_results: &Vec<SimilarNodeResult>,
) -> (r: VerifiedConcept)
    ensures
        r.name@ == concept@,
        r.action matches ConceptAction::CreateAndGeneralize {
            generalizes_to_id,
            generalizes_to_name,
            needs_creation,
        } && generalizes_to_name@ == target_name@ && {
            if search_results@.len() > 0 && (search_results@[0].score
                >= crate::decisions::SIMILARITY_THRESHOLD_HIGH || search_results@[0].name@
                == target_name@) {
                generalizes_to_id@ == search_results@[0].id@ && needs_creation == false
            } else {
                generalizes_to_id@.len() == 0 && needs_creation == true
            }
        },
{
    proof {
        reveal_strlit("");
    }
    if search_results.len() > 0 {
        let top = &search_results[0];
        if top.score >= crate::decisions::SIMILARITY_THRESHOLD_HIGH || str_eq_str(
            top.name.as_str(),
            target_name,
        ) {
            return VerifiedConcept::create_and_generalize(
                concept,
                top.id.as_str(),
                target_name,
                false,
            );
        }
    }
    VerifiedConcept::create_and_generalize(concept, "", target_name, true)
}

// ---------------------------------------------------------------------------
// Property answers
// ---------------------------------------------------------------------------
/// A string field of an object, or a fallback.
pub open spec fn sp_field_or(doc: JsonV, key: Seq<char>, fallback: Seq<char>) -> Seq<char> {
    match sp_get_text(doc, key) {
        Some(t) => t,
        None => fallback,
    }
}

fn field_or(doc: &JsonValue, key: &str, fallback: &str) -> (r: String)
    ensures
        r@ == sp_field_or(doc.v(), key@, fallback@),
{
    match doc.get_text(key) {
        Some(t) => t,
        None => String::from_str(fallback),
    }
}

/// The property set of a knowledge node, one string per field.
#[derive(Clone, Debug)]
pub struct KnowledgeProperties {
    pub name: String,
    pub description: String,
    pub how_to_learn: String,
    pub remember_level: String,
    pub understand_level: String,
    pub apply_level: String,
    pub analyze_level: String,
    pub evaluate_level: String,
    pub create_level: String,
}

/// Parse the generator's property answer for a knowledge node: the
/// braced span must be an object; missing or non-string fields fall
/// back to the empty string, and a missing name to the concept name.
pub fn parse_knowledge_properties(response: &str, concept_name: &str) -> (r: Result<
    KnowledgeProperties,
    String,
>)
    ensures
        match r {
            Ok(p) => sp_span(response@, '{', '}') matches Some(doc) && p.name@ == sp_field_or(
                doc,
                "name"@,
                concept_name@,
            ) && p.description@ == sp_field_or(doc, "description"@, ""@) && p.how_to_learn@ == sp_field_or(doc, "how_to_learn"@, ""@) && p.remember_level@ == sp_field_or(doc, "remember_level"@, ""@) && p.understand_level@ == sp_field_or(doc, "understand_level"@, ""@) && p.apply_level@ == sp_field_or(doc, "apply_level"@, ""@) && p.analyze_level@ == sp_field_or(doc, "analyze_level"@, ""@) && p.evaluate_level@ == sp_field_or(doc, "evaluate_level"@, ""@) && p.create_level@ == sp_field_or(doc, "create_level"@, ""@),
            Err(_) => sp_span(response@, '{', '}') is None,
        },
{
    match crate::json::parse_object_span(response) {
        Some(doc) => Ok(KnowledgeProperties {
            name: field_or(&doc, "name", concept_name),
            description: field_or(&doc, "description", ""),
            how_to_learn: field_or(&doc, "how_to_learn", ""),
            remember_level: field_or(&doc, "remember_level", ""),
            understand_level: field_or(&doc, "understand_level", ""),
            apply_level: field_or(&doc, "apply_level", ""),
            analyze_level: field_or(&doc, "analyze_level", ""),
            evaluate_level: field_or(&doc, "evaluate_level", ""),
            create_level: field_or(&doc, "create_level", ""),
        }),
        None => Err(String::from_str("No JSON object found")),
    }
}

/// The store write for a knowledge node built from its properties.
pub fn knowledge_node_request(props: &KnowledgeProperties) -> (r: CreateNodeRequest)
    ensures
        r.labels@.len() == 1 && r.labels@[0]@ == "Knowledge"@,
        r.properties@.len() == 9,
        r.properties@[0].0@ == "name"@ && r.properties@[0].1.v() == JsonV::Text(
            props.name@,
        ),
        r.properties@[1].0@ == "description"@ && r.properties@[1].1.v() == JsonV::Text(
            props.description@,
        ),
        r.properties@[2].0@ == "how_to_learn"@ && r.properties@[2].1.v() == JsonV::Text(
            props.how_to_learn@,
        ),
        r.properties@[3].0@ == "remember_level"@ && r.properties@[3].1.v() == JsonV::Text(
            props.remember_level@,
        ),
        r.properties@[4].0@ == "understand_level"@ && r.properties@[4].1.v() == JsonV::Text(
            props.understand_level@,
        ),
        r.properties@[5].0@ == "apply_level"@ && r.properties@[5].1.v() == JsonV::Text(
            props.apply_level@,
        ),
        r.properties@[6].0@ == "analyze_level"@ && r.properties@[6].1.v() == JsonV::Text(
            props.analyze_level@,
        ),
        r.properties@[7].0@ == "evaluate_level"@ && r.properties@[7].1.v() == JsonV::Text(
            props.evaluate_level@,
        ),
        r.properties@[8].0@ == "create_level"@ && r.properties@[8].1.v() == JsonV::Text(
            props.create_level@,
        ),
{
    let mut labels: Vec<String> = Vec::new();
    labels.push(String::from_str("Knowledge"));
    let mut properties: Vec<(String, JsonValue)> = Vec::new();
    properties.push((String::from_str("name"), JsonValue::Text(props.name.clone())));
    properties.push((String::from_str("description"), JsonValue::Text(props.description.clone())));
    properties.push((String::from_str("how_to_learn"), JsonValue::Text(props.how_to_learn.clone())));
    properties.push((String::from_str("remember_level"), JsonValue::Text(props.remember_level.clone())));
    properties.push((String::from_str("understand_level"), JsonValue::Text(props.understand_level.clone())));
    properties.push((String::from_str("apply_level"), JsonValue::Text(props.apply_level.clone())));
    properties.push((String::from_str("analyze_level"), JsonValue::Text(props.analyze_level.clone())));
    properties.push((String::from_str("evaluate_level"), JsonValue::Text(props.evaluate_level.clone())));
    properties.push((String::from_str("create_level"), JsonValue::Text(props.create_level.clone())));
    CreateNodeRequest { labels, properties }
}

/// The property set of a skill node, one string per field.
#[derive(Clone, Debug)]
pub struct SkillProperties {
    pub name: String,
    pub description: String,
    pub how_to_develop: String,
    pub novice_level: String,
    pub advanced_beginner_level: String,
    pub competent_level: String,
    pub proficient_level: String,
    pub expert_level: String,
}

/// Parse the generator's property answer for a skill node: the
/// braced span must be an object; missing or non-string fields fall
/// back to the empty string, and a missing name to the concept name.
pub fn parse_skill_properties(response: &str, concept_name: &str) -> (r: Result<
    SkillProperties,
    String,
>)
    ensures
        match r {
            Ok(p) => sp_span(response@, '{', '}') matches Some(doc) && p.name@ == sp_field_or(
                doc,
                "name"@,
                concept_name@,
            ) && p.description@ == sp_field_or(doc, "description"@, ""@) && p.how_to_develop@ == sp_field_or(doc, "how_to_develop"@, ""@) && p.novice_level@ == sp_field_or(doc, "novice_level"@, ""@) && p.advanced_beginner_level@ == sp_field_or(doc, "advanced_beginner_level"@, ""@) && p.competent_level@ == sp_field_or(doc, "competent_level"@, ""@) && p.proficient_level@ == sp_field_or(doc, "proficient_level"@, ""@) && p.expert_level@ == sp_field_or(doc, "expert_level"@, ""@),
            Err(_) => sp_span(response@, '{', '}') is None,
        },
{
    match crate::json::parse_object_span(response) {
        Some(doc) => Ok(SkillProperties {
            name: field_or(&doc, "name", concept_name),
            description: field_or(&doc, "description", ""),
            how_to_develop: field_or(&doc, "how_to_develop", ""),
            novice_level: field_or(&doc, "novice_level", ""),
            advanced_beginner_level: field_or(&doc, "advanced_beginner_level", ""),
            competent_level: field_or(&doc, "competent_level", ""),
            proficient_level: field_or(&doc, "proficient_level", ""),
            expert_level: field_or(&doc, "expert_level", ""),
        }),
        None => Err(String::from_str("No JSON object found")),
    }
}

/// The store write for a skill node built from its properties.
pub fn skill_node_request(props: &SkillProperties) -> (r: CreateNodeRequest)
    ensures
        r.labels@.len() == 1 && r.labels@[0]@ == "Skill"@,
        r.properties@.len() == 8,
        r.properties@[0].0@ == "name"@ && r.properties@[0].1.v() == JsonV::Text(
            props.name@,
        ),
        r.properties@[1].0@ == "description"@ && r.properties@[1].1.v() == JsonV::Text(
            props.description@,
        ),
        r.properties@[2].0@ == "how_to_develop"@ && r.properties@[2].1.v() == JsonV::Text(
            props.how_to_develop@,
        ),
        r.properties@[3].0@ == "novice_level"@ && r.properties@[3].1.v() == JsonV::Text(
            props.novice_level@,
        ),
        r.properties@[4].0@ == "advanced_beginner_level"@ && r.properties@[4].1.v() == JsonV::Text(
            props.advanced_beginner_level@,
        ),
        r.properties@[5].0@ == "competent_level"@ && r.properties@[5].1.v() == JsonV::Text(
            props.competent_level@,
        ),
        r.properties@[6].0@ == "proficient_level"@ && r.properties@[6].1.v() == JsonV::Text(
            props.proficient_level@,
        ),
        r.properties@[7].0@ == "expert_level"@ && r.properties@[7].1.v() == JsonV::Text(
            props.expert_level@,
        ),
{
    let mut labels: Vec<String> = Vec::new();
    labels.push(String::from_str("Skill"));
    let mut properties: Vec<(String, JsonValue)> = Vec::new();
    properties.push((String::from_str("name"), JsonValue::Text(props.name.clone())));
    properties.push((String::from_str("description"), JsonValue::Text(props.description.clone())));
    properties.push((String::from_str("how_to_develop"), JsonValue::Text(props.how_to_develop.clone())));
    properties.push((String::from_str("novice_level"), JsonValue::Text(props.novice_level.clone())));
    properties.push((String::from_str("advanced_beginner_level"), JsonValue::Text(props.advanced_beginner_level.clone())));
    properties.push((String::from_str("competent_level"), JsonValue::Text(props.competent_level.clone())));
    properties.push((String::from_str("proficient_level"), JsonValue::Text(props.proficient_level.clone())));
    properties.push((String::from_str("expert_level"), JsonValue::Text(props.expert_level.clone())));
    CreateNodeRequest { labels, properties }
}

/// The property set of a trait node, one string per field.
#[derive(Clone, Debug)]
pub struct TraitProperties {
    pub name: String,
    pub description: String,
    pub measurement_criteria: String,
}

/// Parse the generator's property answer for a trait node: the
/// braced span must be an object; missing or non-string fields fall
/// back to the empty string, and a missing name to the concept name.
pub fn parse_trait_properties(response: &str, concept_name: &str) -> (r: Result<
    TraitProperties,
    String,
>)
    ensures
        match r {
            Ok(p) => sp_span(response@, '{', '}') matches Some(doc) && p.name@ == sp_field_or(
                doc,
                "name"@,
                concept_name@,
            ) && p.description@ == sp_field_or(doc, "description"@, ""@) && p.measurement_criteria@ == sp_field_or(doc, "measurement_criteria"@, ""@),
            Err(_) => sp_span(response@, '{', '}') is None,
        },
{
    match crate::json::parse_object_span(response) {
        Some(doc) => Ok(TraitProperties {
            name: field_or(&doc, "name", concept_name),
            description: field_or(&doc, "description", ""),
            measurement_criteria: field_or(&doc, "measurement_criteria", ""),
        }),
        None => Err(String::from_str("No JSON object found")),
    }
}

/// The store write for a trait node built from its properties.
pub fn trait_node_request(props: &TraitProperties) -> (r: CreateNodeRequest)
    ensures
        r.labels@.len() == 1 && r.labels@[0]@ == "Trait"@,
        r.properties@.len() == 3,
        r.properties@[0].0@ == "name"@ && r.properties@[0].1.v() == JsonV::Text(
            props.name@,
        ),
        r.properties@[1].0@ == "description"@ && r.properties@[1].1.v() == JsonV::Text(
            props.description@,
        ),
        r.properties@[2].0@ == "measurement_criteria"@ && r.properties@[2].1.v() == JsonV::Text(
            props.measurement_criteria@,
        ),
{
    let mut labels: Vec<String> = Vec::new();
    labels.push(String::from_str("Trait"));
    let mut properties: Vec<(String, JsonValue)> = Vec::new();
    properties.push((String::from_str("name"), JsonValue::Text(props.name.clone())));
    properties.push((String::from_str("description"), JsonValue::Text(props.description.clone())));
    properties.push((String::from_str("measurement_criteria"), JsonValue::Text(props.measurement_criteria.clone())));
    CreateNodeRequest { labels, properties }
}

/// The property set of a milestone node, one string per field.
#[derive(Clone, Debug)]
pub struct MilestoneProperties {
    pub name: String,
    pub description: String,
    pub how_to_achieve: String,
}

/// Parse the generator's property answer for a milestone node: the
/// braced span must be an object; missing or non-string fields fall
/// back to the empty string, and a missing name to the concept name.
pub fn parse_milestone_properties(response: &str, concept_name: &str) -> (r: Result<
    MilestoneProperties,
    String,
>)
    ensures
        match r {
            Ok(p) => sp_span(response@, '{', '}') matches Some(doc) && p.name@ == sp_field_or(
                doc,
                "name"@,
                concept_name@,
            ) && p.description@ == sp_field_or(doc, "description"@, ""@) && p.how_to_achieve@ == sp_field_or(doc, "how_to_achieve"@, ""@),
            Err(_) => sp_span(response@, '{', '}') is None,
        },
{
    match crate::json::parse_object_span(response) {
        Some(doc) => Ok(MilestoneProperties {
            name: field_or(&doc, "name", concept_name),
            description: field_or(&doc, "description", ""),
            how_to_achieve: field_or(&doc, "how_to_achieve", ""),
        }),
        None => Err(String::from_str("No JSON object found")),
    }
}

/// The store write for a milestone node built from its properties.
pub fn milestone_node_request(props: &MilestoneProperties) -> (r: CreateNodeRequest)
    ensures
        r.labels@.len() == 1 && r.labels@[0]@ == "Milestone"@,
        r.properties@.len() == 3,
        r.properties@[0].0@ == "name"@ && r.properties@[0].1.v() == JsonV::Text(
            props.name@,
        ),
        r.properties@[1].0@ == "description"@ && r.properties@[1].1.v() == JsonV::Text(
            props.description@,
        ),
        r.properties@[2].0@ == "how_to_achieve"@ && r.properties@[2].1.v() == JsonV::Text(
            props.how_to_achieve@,
        ),
{
    let mut labels: Vec<String> = Vec::new();
    labels.push(String::from_str("Milestone"));
    let mut properties: Vec<(String, JsonValue)> = Vec::new();
    properties.push((String::from_str("name"), JsonValue::Text(props.name.clone())));
    properties.push((String::from_str("description"), JsonValue::Text(props.description.clone())));
    properties.push((String::from_str("how_to_achieve"), JsonValue::Text(props.how_to_achieve.clone())));
    CreateNodeRequest { labels, properties }
}


// ---------------------------------------------------------------------------
// Planning the node writes
// ---------------------------------------------------------------------------
/// One planned node: reuse of an existing store node, or a fresh write
/// using the property set at `props_index`.
#[derive(Debug)]
pub enum NodePlan {
    Reuse { name: String, element_id: String },
    Create { name: String, props_index: usize },
}

/// How many concepts need a node write (everything not resolved as
/// reuse).
pub open spec fn sp_creates_needed(verified: Seq<VerifiedConcept>) -> int
    decreases verified.len(),
{
    if verified.len() == 0 {
        0
    } else {
        sp_creates_needed(verified.drop_first()) + (match verified[0].action {
            ConceptAction::UseExisting { .. } => 0int,
            _ => 1int,
        })
    }
}

/// The zip discipline of node creation: concepts resolved as reuse keep
/// their existing id; every other concept consumes the next property
/// set, in order.
pub open spec fn sp_plan_rel(verified: Seq<VerifiedConcept>, next: int, plan: Seq<NodePlan>) -> bool
    decreases verified.len(),
{
    if verified.len() == 0 {
        plan.len() == 0
    } else {
        plan.len() > 0 && (match verified[0].action {
            ConceptAction::UseExisting { element_id } => plan[0] matches NodePlan::Reuse {
                name,
                element_id: id,
            } && name@ == verified[0].name@ && id@ == element_id@ && sp_plan_rel(
                verified.drop_first(),
                next,
                plan.drop_first(),
            ),
            _ => plan[0] matches NodePlan::Create { name, props_index } && name@
                == verified[0].name@ && props_index == next && sp_plan_rel(
                verified.drop_first(),
                next + 1,
                plan.drop_first(),
            ),
        })
    }
}

fn plan_rec(verified: &Vec<VerifiedConcept>, vi: usize, next: usize) -> (r: Vec<NodePlan>)
    requires
        vi <= verified@.len(),
        next + sp_creates_needed(verified@.skip(vi as int)) <= usize::MAX,
    ensures
        sp_plan_rel(verified@.skip(vi as int), next as int, r@),
    decreases verified@.len() - vi,
{
    proof {
        assert(sp_creates_needed(verified@.skip(vi as int)) >= 0) by {
            lemma_creates_nonneg(verified@.skip(vi as int));
        }
    }
    if vi == verified.len() {
        let r: Vec<NodePlan> = Vec::new();
        proof {
            assert(verified@.skip(vi as int) =~= Seq::<VerifiedConcept>::empty());
        }
        return r;
    }
    proof {
        assert(verified@.skip(vi as int)[0] == verified@[vi as int]);
        assert(verified@.skip(vi as int).drop_first() =~= verified@.skip(vi + 1));
    }
    let c = &verified[vi];
    match &c.action {
        ConceptAction::UseExisting { element_id } => {
            proof {
                assert(sp_creates_needed(verified@.skip(vi as int)) == sp_creates_needed(
                    verified@.skip(vi + 1),
                ));
            }
            let mut rest = plan_rec(verified, vi + 1, next);
            let ghost restv = rest@;
            rest.insert(0, NodePlan::Reuse { name: c.name.clone(), element_id: element_id.clone() });
            proof {
                assert(rest@.drop_first() =~= restv);
            }
            rest
        },
        _ => {
            proof {
                assert(sp_creates_needed(verified@.skip(vi as int)) == 1 + sp_creates_needed(
                    verified@.skip(vi + 1),
                ));
                lemma_creates_nonneg(verified@.skip(vi + 1));
            }
            let mut rest = plan_rec(verified, vi + 1, next + 1);
            let ghost restv = rest@;
            rest.insert(0, NodePlan::Create { name: c.name.clone(), props_index: next });
            proof {
                assert(rest@.drop_first() =~= restv);
            }
            rest
        },
    }
}

/// The non-negative count of needed creations.
proof fn lemma_creates_nonneg(verified: Seq<VerifiedConcept>)
    ensures
        sp_creates_needed(verified) >= 0,
    decreases verified.len(),
{
    if verified.len() > 0 {
        lemma_creates_nonneg(verified.drop_first());
    }
}

/// Plan one node per concept: reuses keep their id, every other concept
/// takes the next property set in order.  Fails when fewer property
/// sets are available than concepts need.
pub fn plan_concept_nodes(verified: &Vec<VerifiedConcept>, available_properties: usize) -> (r:
    Result<Vec<NodePlan>, String>)
    ensures
        match r {
            Ok(plan) => sp_creates_needed(verified@) <= available_properties && sp_plan_rel(
                verified@,
                0,
                plan@,
            ),
            Err(_) => sp_creates_needed(verified@) > available_properties,
        },
{
    let mut needed: usize = 0;
    let mut i: usize = 0;
    proof {
        assert(verified@.skip(0) =~= verified@);
        lemma_creates_nonneg(verified@);
    }
    while i < verified.len()
        invariant
            i <= verified@.len(),
            needed <= i,
            sp_creates_needed(verified@) == needed + sp_creates_needed(verified@.skip(i as int)),
        decreases verified@.len() - i,
    {
        proof {
            assert(verified@.skip(i as int)[0] == verified@[i as int]);
            assert(verified@.skip(i as int).drop_first() =~= verified@.skip(i + 1));
            lemma_creates_nonneg(verified@.skip(i + 1));
        }
        match &verified[i].action {
            ConceptAction::UseExisting { .. } => {},
            _ => {
                needed = needed + 1;
            },
        }
        i = i + 1;
    }
    proof {
        assert(verified@.skip(verified@.len() as int) =~= Seq::<VerifiedConcept>::empty());
    }
    if needed > available_properties {
        return Err(String::from_str("Missing properties for concept"));
    }
    proof {
        assert(verified@.skip(0) =~= verified@);
    }
    Ok(plan_rec(verified, 0, 0))
}

/// Whether the ids handed back by the store cover every planned write.
pub open spec fn sp_ids_cover(plan: Seq<NodePlan>, ids: Seq<String>) -> bool {
    forall|k: int|
        0 <= k < plan.len() ==> (#[trigger] plan[k] matches NodePlan::Create { props_index, .. }
            ==> props_index < ids.len())
}

/// How the created-node list follows from a plan and the store ids: a
/// reuse keeps its id and is flagged reused, a write takes the id the
/// store returned for its property set.
pub open spec fn sp_created_rel(
    plan: Seq<NodePlan>,
    ids: Seq<String>,
    label: Seq<char>,
    out: Seq<CreatedNode>,
) -> bool
    decreases plan.len(),
{
    if plan.len() == 0 {
        out.len() == 0
    } else {
        out.len() > 0 && (match plan[0] {
            NodePlan::Reuse { name, element_id } => out[0].name@ == name@ && out[0].element_id@
                == element_id@ && out[0].label@ == label && out[0].was_reused,
            NodePlan::Create { name, props_index } => props_index < ids.len() && out[0].name@
                == name@ && out[0].element_id@ == ids[props_index as int]@ && out[0].label@ == label
                && !out[0].was_reused,
        }) && sp_created_rel(plan.drop_first(), ids, label, out.drop_first())
    }
}

/// Turn a plan and the ids the store returned into the created-node
/// list.  Fails when a planned write has no returned id.
pub fn created_from_plan(plan: &Vec<NodePlan>, created_ids: &Vec<String>, label: &str) -> (r: Result<
    Vec<CreatedNode>,
    String,
>)
    ensures
        match r {
            Ok(out) => sp_created_rel(plan@, created_ids@, label@, out@) && sp_ids_cover(
                plan@,
                created_ids@,
            ),
            Err(_) => !sp_ids_cover(plan@, created_ids@),
        },
{
    proof {
        assert(plan@.skip(0) =~= plan@);
    }
    created_rec(plan, created_ids, label, 0)
}

fn created_rec(plan: &Vec<NodePlan>, ids: &Vec<String>, label: &str, pi: usize) -> (r: Result<
    Vec<CreatedNode>,
    String,
>)
    requires
        pi <= plan@.len(),
    ensures
        match r {
            Ok(out) => sp_created_rel(plan@.skip(pi as int), ids@, label@, out@) && forall|k: int|
                pi <= k < plan@.len() ==> (#[trigger] plan@[k] matches NodePlan::Create {
                    props_index,
                    ..
                } ==> props_index < ids@.len()),
            Err(_) => !(forall|k: int|
                pi <= k < plan@.len() ==> (#[trigger] plan@[k] matches NodePlan::Create {
                    props_index,
                    ..
                } ==> props_index < ids@.len())),
        },
    decreases plan@.len() - pi,
{
    if pi == plan.len() {
        let out: Vec<CreatedNode> = Vec::new();
        proof {
            assert(plan@.skip(pi as int) =~= Seq::<NodePlan>::empty());
        }
        return Ok(out);
    }
    proof {
        assert(plan@.skip(pi as int)[0] == plan@[pi as int]);
        assert(plan@.skip(pi as int).drop_first() =~= plan@.skip(pi + 1));
    }
    let node = match &plan[pi] {
        NodePlan::Reuse { name, element_id } => crate::models::CreatedNode::reused(
            name.clone(),
            element_id.clone(),
            String::from_str(label),
        ),
        NodePlan::Create { name, props_index } => {
            if *props_index >= ids.len() {
                return Err(String::from_str("Missing created node id"));
            }
            crate::models::CreatedNode::new(
                name.clone(),
                ids[*props_index].clone(),
                String::from_str(label),
            )
        },
    };
    match created_rec(plan, ids, label, pi + 1) {
        Ok(rest) => {
            let mut out = rest;
            let ghost restv = out@;
            out.insert(0, node);
            proof {
                assert(out@.drop_first() =~= restv);
            }
            Ok(out)
        },
        Err(e) => Err(e),
    }
}

// ---------------------------------------------------------------------------
// Generalization edges
// ---------------------------------------------------------------------------
/// Whether every concept with a generalization action has a created
/// node of its name to hang the edge on.
pub open spec fn sp_gen_sources_found(
    verified: Seq<VerifiedConcept>,
    created: Seq<CreatedNode>,
) -> bool
    decreases verified.len(),
{
    if verified.len() == 0 {
        true
    } else {
        (match verified[0].action {
            ConceptAction::CreateAndGeneralize { .. } => crate::models::first_with_name(
                created,
                verified[0].name@,
            ) is Some,
            _ => true,
        }) && sp_gen_sources_found(verified.drop_first(), created)
    }
}

/// How the generalization edges and records follow from the verified
/// concepts and the created nodes: one pair per generalizing concept,
/// from its created node to its resolved target.
pub open spec fn sp_gen_links_rel(
    verified: Seq<VerifiedConcept>,
    created: Seq<CreatedNode>,
    node_type: Seq<char>,
    out: Seq<(CreateRelationshipRequest, GeneralizationLink)>,
) -> bool
    decreases verified.len(),
{
    if verified.len() == 0 {
        out.len() == 0
    } else {
        match verified[0].action {
            ConceptAction::CreateAndGeneralize {
                generalizes_to_id,
                generalizes_to_name,
                needs_creation,
            } => crate::models::first_with_name(created, verified[0].name@) matches Some(src)
                && out.len() > 0 && out[0].0.source_id@ == src.element_id@ && out[0].0.target_id@
                == generalizes_to_id@ && out[0].0.relationship_type@ == "GENERALIZES_TO"@
                && out[0].0.properties is None && out[0].1.specific_id@ == src.element_id@
                && out[0].1.specific_name@ == src.name@ && out[0].1.general_id@
                == generalizes_to_id@ && out[0].1.general_name@ == generalizes_to_name@
                && out[0].1.node_type@ == node_type && sp_gen_links_rel(
                verified.drop_first(),
                created,
                node_type,
                out.drop_first(),
            ),
            _ => sp_gen_links_rel(verified.drop_first(), created, node_type, out),
        }
    }
}

/// Build the generalization edge and registry record for every concept
/// resolved as create-and-generalize.  Fails when such a concept has no
/// created node of its name.
pub fn generalization_links(
    verified: &Vec<VerifiedConcept>,
    created: &Vec<CreatedNode>,
    node_type: &str,
) -> (r: Result<Vec<(CreateRelationshipRequest, GeneralizationLink)>, String>)
    ensures
        match r {
            Ok(out) => sp_gen_links_rel(verified@, created@, node_type@, out@)
                && sp_gen_sources_found(verified@, created@),
            Err(_) => !sp_gen_sources_found(verified@, created@),
        },
{
    proof {
        assert(verified@.skip(0) =~= verified@);
    }
    gen_links_rec(verified, created, node_type, 0)
}

fn gen_links_rec(
    verified: &Vec<VerifiedConcept>,
    created: &Vec<CreatedNode>,
    node_type: &str,
    vi: usize,
) -> (r: Result<Vec<(CreateRelationshipRequest, GeneralizationLink)>, String>)
    requires
        vi <= verified@.len(),
    ensures
        match r {
            Ok(out) => sp_gen_links_rel(verified@.skip(vi as int), created@, node_type@, out@)
                && sp_gen_sources_found(verified@.skip(vi as int), created@),
            Err(_) => !sp_gen_sources_found(verified@.skip(vi as int), created@),
        },
    decreases verified@.len() - vi,
{
    if vi == verified.len() {
        let out: Vec<(CreateRelationshipRequest, GeneralizationLink)> = Vec::new();
        proof {
            assert(verified@.skip(vi as int) =~= Seq::<VerifiedConcept>::empty());
        }
        return Ok(out);
    }
    proof {
        assert(verified@.skip(vi as int)[0] == verified@[vi as int]);
        assert(verified@.skip(vi as int).drop_first() =~= verified@.skip(vi + 1));
    }
    let c = &verified[vi];
    match &c.action {
        ConceptAction::CreateAndGeneralize { generalizes_to_id, generalizes_to_name, .. } => {
            let src = match find_created_by_name(created, c.name.as_str()) {
                Some(src) => src,
                None => {
                    let mut msg = String::from_str("Node not found: ");
                    msg.append(c.name.as_str());
                    return Err(msg);
                },
            };
            let pair = (
                CreateRelationshipRequest {
                    source_id: src.element_id.clone(),
                    target_id: generalizes_to_id.clone(),
                    relationship_type: String::from_str("GENERALIZES_TO"),
                    properties: None,
                },
                GeneralizationLink {
                    specific_id: src.element_id.clone(),
                    specific_name: src.name.clone(),
                    general_id: generalizes_to_id.clone(),
                    general_name: generalizes_to_name.clone(),
                    node_type: String::from_str(node_type),
                },
            );
            match gen_links_rec(verified, created, node_type, vi + 1) {
                Ok(rest) => {
                    let mut out = rest;
                    let ghost restv = out@;
                    out.insert(0, pair);
                    proof {
                        assert(out@.drop_first() =~= restv);
                    }
                    Ok(out)
                },
                Err(e) => Err(e),
            }
        },
        _ => gen_links_rec(verified, created, node_type, vi + 1),
    }
}

/// The first created node carrying the given name.
fn find_created_by_name<'a>(nodes: &'a Vec<CreatedNode>, name: &str) -> (r: Option<
    &'a CreatedNode,
>)
    ensures
        match r {
            Some(n) => crate::models::first_with_name(nodes@, name@) == Some(*n),
            None => crate::models::first_with_name(nodes@, name@) is None,
        },
{
    proof {
        assert(nodes@.skip(0) =~= nodes@);
    }
    let mut i: usize = 0;
    while i < nodes.len()
        invariant
            i <= nodes@.len(),
            crate::models::first_with_name(nodes@, name@) == crate::models::first_with_name(
                nodes@.skip(i as int),
                name@,
            ),
        decreases nodes@.len() - i,
    {
        proof {
            assert(nodes@.skip(i as int)[0] == nodes@[i as int]);
            assert(nodes@.skip(i as int).drop_first() =~= nodes@.skip(i + 1));
        }
        if str_eq_str(nodes[i].name.as_str(), name) {
            return Some(&nodes[i]);
        }
        i = i + 1;
    }
    None
}

/// Rewrite a concept whose generalization target has just been written:
/// the action keeps its target name, takes the new id, and no longer
/// needs creation.
pub fn mark_target_created(concept: &mut VerifiedConcept, element_id: &str)
    requires
        old(concept).action is CreateAndGeneralize,
    ensures
        final(concept).name == old(concept).name,
        final(concept).action matches ConceptAction::CreateAndGeneralize {
            generalizes_to_id,
            generalizes_to_name,
            needs_creation,
        } && generalizes_to_id@ == element_id@ && (old(concept).action
            matches ConceptAction::CreateAndGeneralize { generalizes_to_name: g0, .. }
            && generalizes_to_name == g0) && needs_creation == false,
{
    let name = match &concept.action {
        ConceptAction::CreateAndGeneralize { generalizes_to_name, .. } => generalizes_to_name.clone(),
        _ => String::new(),
    };
    concept.action = ConceptAction::CreateAndGeneralize {
        generalizes_to_id: String::from_str(element_id),
        generalizes_to_name: name,
        needs_creation: false,
    };
}

/// How many concepts still carry an unresolved generalization target.
pub open spec fn sp_targets_needing_creation(verified: Seq<VerifiedConcept>) -> int
    decreases verified.len(),
{
    if verified.len() == 0 {
        0
    } else {
        sp_targets_needing_creation(verified.drop_first()) + (match verified[0].action {
            ConceptAction::CreateAndGeneralize { needs_creation: true, .. } => 1int,
            _ => 0int,
        })
    }
}

/// Count the concepts whose generalization target still needs creation.
pub fn count_targets_needing_creation(verified: &Vec<VerifiedConcept>) -> (r: usize)
    ensures
        r == sp_targets_needing_creation(verified@),
{
    proof {
        assert(verified@.skip(0) =~= verified@);
    }
    let mut c: usize = 0;
    let mut i: usize = 0;
    while i < verified.len()
        invariant
            i <= verified@.len(),
            c <= i,
            sp_targets_needing_creation(verified@) == c + sp_targets_needing_creation(
                verified@.skip(i as int),
            ),
        decreases verified@.len() - i,
    {
        proof {
            assert(verified@.skip(i as int)[0] == verified@[i as int]);
            assert(verified@.skip(i as int).drop_first() =~= verified@.skip(i + 1));
            lemma_targets_nonneg(verified@.skip(i + 1));
        }
        match &verified[i].action {
            ConceptAction::CreateAndGeneralize { needs_creation: true, .. } => {
                c = c + 1;
            },
            _ => {},
        }
        i = i + 1;
    }
    proof {
        assert(verified@.skip(verified@.len() as int) =~= Seq::<VerifiedConcept>::empty());
    }
    c
}

proof fn lemma_targets_nonneg(verified: Seq<VerifiedConcept>)
    ensures
        sp_targets_needing_creation(verified) >= 0,
    decreases verified.len(),
{
    if verified.len() > 0 {
        lemma_targets_nonneg(verified.drop_first());
    }
}

// ---------------------------------------------------------------------------
// Trait verification
// ---------------------------------------------------------------------------
/// The id a trait verification resolves to when the decision is to
/// reuse: the named result if it occurs in the candidate's list, the
/// top result otherwise.
pub open spec fn sp_trait_reuse_id(doc: JsonV, similar: Seq<SimilarNodeResult>) -> Seq<char> {
    match crate::decisions::spec_named_field(doc, "existing_node_name"@) {
        Some(n) => match first_sim_with_name(similar, n) {
            Some(m) => m.id@,
            None => similar[0].id@,
        },
        None => similar[0].id@,
    }
}

/// Parse a trait verification answer.  Traits only reuse or create:
/// a `use_existing` decision resolves to a listed node's id (falling
/// back to the top result); any other decision creates a new trait.
pub fn parse_trait_verification(
    response: &str,
    concept: &str,
    similar_nodes: &Vec<SimilarNodeResult>,
) -> (r: Result<VerifiedConcept, String>)
    requires
        similar_nodes@.len() > 0,
    ensures
        match r {
            Ok(c) => c.name@ == concept@ && (match sp_span(response@, '{', '}') {
                Some(doc) => match sp_get_text(doc, "decision"@) {
                    Some(d) => if d == "use_existing"@ {
                        c.action matches ConceptAction::UseExisting { element_id } && element_id@
                            == sp_trait_reuse_id(doc, similar_nodes@)
                    } else {
                        c.action is CreateNew
                    },
                    None => false,
                },
                None => false,
            }),
            Err(_) => sp_span(response@, '{', '}') matches Some(doc) ==> sp_get_text(
                doc,
                "decision"@,
            ) is None,
        },
{
    let doc = match crate::json::parse_object_span(response) {
        Some(doc) => doc,
        None => {
            return Err(String::from_str("No JSON object found"));
        },
    };
    let decision = match doc.get_text("decision") {
        Some(d) => d,
        None => {
            return Err(String::from_str("Missing decision field"));
        },
    };
    if str_eq_str(decision.as_str(), "use_existing") {
        match crate::decisions::StepUtils::named_field(&doc, "existing_node_name") {
            Some(name) => {
                match find_target_in_similar(name.as_str(), similar_nodes) {
                    Some(id) => Ok(VerifiedConcept::use_existing(concept, id.as_str())),
                    None => Ok(
                        VerifiedConcept::use_existing(concept, similar_nodes[0].id.as_str()),
                    ),
                }
            },
            None => Ok(VerifiedConcept::use_existing(concept, similar_nodes[0].id.as_str())),
        }
    } else {
        Ok(VerifiedConcept::create_new(concept))
    }
}

// ---------------------------------------------------------------------------
// The milestone candidate list: a bulleted or numbered text list
// ---------------------------------------------------------------------------
/// The input with leading whitespace dropped.
pub open spec fn sp_trim_start(s: Seq<char>) -> Seq<char>
    decreases s.len(),
{
    if s.len() > 0 && crate::json::is_ws(s[0]) {
        sp_trim_start(s.drop_first())
    } else {
        s
    }
}

/// The input with trailing whitespace dropped.
pub open spec fn sp_trim_end(s: Seq<char>) -> Seq<char>
    decreases s.len(),
{
    if s.len() > 0 && crate::json::is_ws(s.last()) {
        sp_trim_end(s.drop_last())
    } else {
        s
    }
}

/// The input with whitespace dropped on both sides.
pub open spec fn sp_trim(s: Seq<char>) -> Seq<char> {
    sp_trim_end(sp_trim_start(s))
}

/// A list-marker character: dash, star, or space.
pub open spec fn is_mark(c: char) -> bool {
    c == '-' || c == '*' || c == ' '
}

/// The input with leading list markers dropped.
pub open spec fn sp_strip_marks(s: Seq<char>) -> Seq<char>
    decreases s.len(),
{
    if s.len() > 0 && is_mark(s[0]) {
        sp_strip_marks(s.drop_first())
    } else {
        s
    }
}

/// The candidate one line holds: a bulleted line stripped of its
/// markers, or a numbered line's text after the first dot; empty
/// results are dropped.
pub open spec fn sp_line_item(line: Seq<char>) -> Option<Seq<char>> {
    let t = sp_trim(line);
    if t.len() > 0 && (t[0] == '-' || t[0] == '*') {
        let x = sp_strip_marks(t);
        if x.len() > 0 {
            Some(x)
        } else {
            None
        }
    } else if t.len() > 0 && crate::json::is_digit(t[0]) {
        match crate::json::sp_find(t, 0, '.') {
            Some(p) => {
                let x = sp_trim(t.subrange(p + 1, t.len() as int));
                if x.len() > 0 {
                    Some(x)
                } else {
                    None
                }
            },
            None => None,
        }
    } else {
        None
    }
}

/// The candidates of all lines from position `i` on, lines split at
/// line breaks.
pub open spec fn sp_milestone_items(s: Seq<char>, i: int) -> Seq<Seq<char>>
    decreases s.len() + 1 - i,
{
    if !(0 <= i < s.len()) {
        Seq::empty()
    } else {
        let e = match crate::json::sp_find(s, i, '\n') {
            Some(e) => e,
            None => s.len() as int,
        };
        let line = s.subrange(i, e);
        let rest = if e + 1 > i && e + 1 <= s.len() + 1 {
            sp_milestone_items(s, e + 1)
        } else {
            Seq::empty()
        };
        (match sp_line_item(line) {
            Some(x) => seq![x],
            None => Seq::empty(),
        }) + rest
    }
}

/// A found character is at or after the start and inside the input.
proof fn lemma_sp_find_bounds(s: Seq<char>, i: int, c: char)
    requires
        0 <= i,
    ensures
        crate::json::sp_find(s, i, c) matches Some(e) ==> i <= e < s.len(),
    decreases s.len() - i,
{
    if 0 <= i < s.len() && s[i] != c {
        lemma_sp_find_bounds(s, i + 1, c);
    }
}

/// Dropping the leading whitespace run reaches the first non-blank
/// position.
proof fn lemma_trim_start_idx(s: Seq<char>, a: int)
    requires
        0 <= a <= s.len(),
        forall|k: int| 0 <= k < a ==> crate::json::is_ws(#[trigger] s[k]),
        a == s.len() || !crate::json::is_ws(s[a]),
    ensures
        sp_trim_start(s) == s.subrange(a, s.len() as int),
    decreases a,
{
    if a == 0 {
        assert(s.subrange(0, s.len() as int) =~= s);
    } else {
        assert(crate::json::is_ws(s[0]));
        assert(s.drop_first() =~= s.subrange(1, s.len() as int));
        lemma_trim_start_idx(s.drop_first(), a - 1);
        assert(s.drop_first().subrange(a - 1, s.drop_first().len() as int) =~= s.subrange(
            a,
            s.len() as int,
        ));
    }
}

/// Dropping the trailing whitespace run reaches the last non-blank
/// position.
proof fn lemma_trim_end_idx(s: Seq<char>, b: int)
    requires
        0 <= b <= s.len(),
        forall|k: int| b <= k < s.len() ==> crate::json::is_ws(#[trigger] s[k]),
        b == 0 || !crate::json::is_ws(s[b - 1]),
    ensures
        sp_trim_end(s) == s.subrange(0, b),
    decreases s.len(),
{
    if b == s.len() {
        if s.len() > 0 && crate::json::is_ws(s.last()) {
            assert(false);
        }
        assert(s.subrange(0, b) =~= s);
    } else {
        assert(crate::json::is_ws(s.last()));
        assert(s.drop_last() =~= s.subrange(0, s.len() - 1));
        lemma_trim_end_idx(s.drop_last(), b);
        assert(s.drop_last().subrange(0, b) =~= s.subrange(0, b));
    }
}

/// Dropping the leading marker run reaches the first non-marker
/// position.
proof fn lemma_strip_marks_idx(s: Seq<char>, a: int)
    requires
        0 <= a <= s.len(),
        forall|k: int| 0 <= k < a ==> is_mark(#[trigger] s[k]),
        a == s.len() || !is_mark(s[a]),
    ensures
        sp_strip_marks(s) == s.subrange(a, s.len() as int),
    decreases a,
{
    if a == 0 {
        assert(s.subrange(0, s.len() as int) =~= s);
    } else {
        assert(is_mark(s[0]));
        assert(s.drop_first() =~= s.subrange(1, s.len() as int));
        lemma_strip_marks_idx(s.drop_first(), a - 1);
        assert(s.drop_first().subrange(a - 1, s.drop_first().len() as int) =~= s.subrange(
            a,
            s.len() as int,
        ));
    }
}

fn find_from(v: &Vec<char>, i: usize, c: char) -> (r: Option<usize>)
    requires
        i <= v@.len(),
    ensures
        match r {
            Some(e) => crate::json::sp_find(v@, i as int, c) == Some(e as int) && i <= e
                < v@.len(),
            None => crate::json::sp_find(v@, i as int, c) is None,
        },
{
    let mut j: usize = i;
    while j < v.len()
        invariant
            i <= j <= v@.len(),
            crate::json::sp_find(v@, i as int, c) == crate::json::sp_find(v@, j as int, c),
        decreases v@.len() - j,
    {
        if v[j] == c {
            return Some(j);
        }
        j = j + 1;
    }
    None
}

/// The bounds of the trimmed middle of a range of `v`.
fn trim_bounds(v: &Vec<char>, from: usize, to: usize) -> (r: (usize, usize))
    requires
        from <= to <= v@.len(),
    ensures
        from <= r.0 <= r.1 <= to,
        v@.subrange(r.0 as int, r.1 as int) == sp_trim(v@.subrange(from as int, to as int)),
{
    let mut a: usize = from;
    while a < to && (v[a] == ' ' || v[a] == '\n' || v[a] == '\t' || v[a] == '\r')
        invariant
            from <= a <= to <= v@.len(),
            forall|k: int| from <= k < a ==> crate::json::is_ws(#[trigger] v@[k]),
        decreases to - a,
    {
        a = a + 1;
    }
    let mut b: usize = to;
    while b > a && (v[b - 1] == ' ' || v[b - 1] == '\n' || v[b - 1] == '\t' || v[b - 1] == '\r')
        invariant
            from <= a <= b <= to <= v@.len(),
            forall|k: int| b <= k < to ==> crate::json::is_ws(#[trigger] v@[k]),
        decreases b,
    {
        b = b - 1;
    }
    proof {
        let line = v@.subrange(from as int, to as int);
        assert forall|k: int| 0 <= k < a - from implies crate::json::is_ws(#[trigger] line[k]) by {
            assert(line[k] == v@[from + k]);
        }
        if a < to {
            assert(line[a - from] == v@[a as int]);
        }
        lemma_trim_start_idx(line, a - from);
        let t1 = line.subrange(a - from, line.len() as int);
        assert forall|k: int| b - a <= k < t1.len() implies crate::json::is_ws(
            #[trigger] t1[k],
        ) by {
            assert(t1[k] == v@[a + k]);
        }
        if b > a {
            assert(t1[b - a - 1] == v@[b - 1]);
        }
        lemma_trim_end_idx(t1, b - a);
        assert(t1.subrange(0, b - a) =~= v@.subrange(a as int, b as int));
    }
    (a, b)
}

/// Parse the milestone pass's answer: one candidate per bulleted or
/// numbered line, empty entries dropped; fails when no candidate is
/// found.
pub fn parse_milestone_concept_list(response: &str) -> (r: Result<Vec<String>, String>)
    ensures
        match r {
            Ok(list) => sp_milestone_items(response@, 0) == Seq::new(
                list@.len(),
                |k: int| list@[k]@,
            ) && list@.len() > 0,
            Err(_) => sp_milestone_items(response@, 0).len() == 0,
        },
{
    let v = crate::text::chars_vec(response);
    let n = v.len();
    let mut out: Vec<String> = Vec::new();
    let mut i: usize = 0;
    while i < n
        invariant
            v@ == response@,
            n == v@.len(),
            i <= n,
            sp_milestone_items(response@, 0) =~= Seq::new(out@.len(), |k: int| out@[k]@)
                + sp_milestone_items(response@, i as int),
        decreases n - i,
    {
        let ghost items_here = sp_milestone_items(response@, i as int);
        let (e, has_nl): (usize, bool) = match find_from(&v, i, '\n') {
            Some(e) => (e, true),
            None => (n, false),
        };
        let ghost line = response@.subrange(i as int, e as int);
        let (a, b) = trim_bounds(&v, i, e);
        let ghost t = sp_trim(line);
        proof {
            assert(t == v@.subrange(a as int, b as int));
        }
        let item: Option<String> = if a < b && (v[a] == '-' || v[a] == '*') {
            let mut m: usize = a;
            while m < b && (v[m] == '-' || v[m] == '*' || v[m] == ' ')
                invariant
                    a <= m <= b <= v@.len(),
                    forall|k: int| a <= k < m ==> is_mark(#[trigger] v@[k]),
                decreases b - m,
            {
                m = m + 1;
            }
            proof {
                assert forall|k: int| 0 <= k < m - a implies is_mark(#[trigger] t[k]) by {
                    assert(t[k] == v@[a + k]);
                }
                if m < b {
                    assert(t[m - a] == v@[m as int]);
                }
                lemma_strip_marks_idx(t, m - a);
                assert(t.subrange(m - a, t.len() as int) =~= v@.subrange(m as int, b as int));
                assert(t[0] == v@[a as int]);
            }
            if m < b {
                proof {
                    assert(sp_line_item(line) == Some(v@.subrange(m as int, b as int)));
                }
                Some(crate::text::string_from_range(&v, m, b))
            } else {
                proof {
                    assert(sp_strip_marks(t) =~= Seq::<char>::empty());
                    assert(sp_line_item(line) is None);
                }
                None
            }
        } else if a < b && '0' <= v[a] && v[a] <= '9' {
            proof {
                assert(t[0] == v@[a as int]);
            }
            match find_from(&v, a, '.') {
                Some(p) => {
                    if p < b {
                        proof {
                            lemma_find_in_subrange(v@, a as int, b as int, p as int, '.');
                        }
                        let (x1, x2) = trim_bounds(&v, p + 1, b);
                        proof {
                            assert(t.subrange(p + 1 - a, t.len() as int) =~= v@.subrange(
                                p + 1,
                                b as int,
                            ));
                        }
                        if x1 < x2 {
                            proof {
                                assert(sp_line_item(line) == Some(
                                    v@.subrange(x1 as int, x2 as int),
                                ));
                            }
                            Some(crate::text::string_from_range(&v, x1, x2))
                        } else {
                            proof {
                                assert(v@.subrange(x1 as int, x2 as int)
                                    =~= Seq::<char>::empty());
                                assert(sp_line_item(line) is None);
                            }
                            None
                        }
                    } else {
                        proof {
                            lemma_find_beyond(v@, a as int, b as int, p as int, '.');
                            assert(sp_line_item(line) is None);
                        }
                        None
                    }
                },
                None => {
                    proof {
                        lemma_find_none_sub(v@, a as int, b as int, '.');
                        assert(sp_line_item(line) is None);
                    }
                    None
                },
            }
        } else {
            proof {
                if a < b {
                    assert(t[0] == v@[a as int]);
                } else {
                    assert(t =~= Seq::<char>::empty());
                }
                assert(sp_line_item(line) is None);
            }
            None
        };
        let ghost pre = Seq::new(out@.len(), |k: int| out@[k]@);
        match item {
            Some(x) => {
                out.push(x);
            },
            None => {},
        }
        proof {
            let post = Seq::new(out@.len(), |k: int| out@[k]@);
            let head: Seq<Seq<char>> = match sp_line_item(line) {
                Some(x) => seq![x],
                None => Seq::empty(),
            };
            assert(post =~= pre + head);
            assert(items_here =~= head + sp_milestone_items(response@, e + 1));
            assert(pre + items_here =~= post + sp_milestone_items(response@, e + 1));
            if !has_nl {
                assert(sp_milestone_items(response@, e + 1) =~= Seq::<Seq<char>>::empty());
                assert(sp_milestone_items(response@, n as int) =~= Seq::<Seq<char>>::empty());
            }
        }
        if has_nl {
            i = e + 1;
        } else {
            i = n;
        }
    }
    proof {
        assert(sp_milestone_items(response@, i as int) =~= Seq::<Seq<char>>::empty());
        assert(Seq::new(out@.len(), |k: int| out@[k]@) + Seq::<Seq<char>>::empty() =~= Seq::new(
            out@.len(),
            |k: int| out@[k]@,
        ));
    }
    if out.len() == 0 {
        Err(String::from_str("No concepts found in response"))
    } else {
        Ok(out)
    }
}

/// A hit inside the line is the same hit seen from the line's start.
proof fn lemma_find_in_subrange(s: Seq<char>, a: int, b: int, p: int, c: char)
    requires
        0 <= a <= b <= s.len(),
        crate::json::sp_find(s, a, c) == Some(p),
        a <= p < b,
    ensures
        crate::json::sp_find(s.subrange(a, b), 0, c) == Some(p - a),
    decreases p - a,
{
    lemma_find_shift(s, a, b, a, c);
}

/// A hit at or past the line's end means the line itself has none.
proof fn lemma_find_beyond(s: Seq<char>, a: int, b: int, p: int, c: char)
    requires
        0 <= a <= b <= s.len(),
        crate::json::sp_find(s, a, c) == Some(p),
        p >= b,
    ensures
        crate::json::sp_find(s.subrange(a, b), 0, c) is None,
{
    lemma_find_shift(s, a, b, a, c);
    match crate::json::sp_find(s.subrange(a, b), 0, c) {
        Some(q) => {
            lemma_sp_find_bounds(s.subrange(a, b), 0, c);
            assert(false);
        },
        None => {},
    }
}

/// No hit at all means the line has none.
proof fn lemma_find_none_sub(s: Seq<char>, a: int, b: int, c: char)
    requires
        0 <= a <= b <= s.len(),
        crate::json::sp_find(s, a, c) is None,
    ensures
        crate::json::sp_find(s.subrange(a, b), 0, c) is None,
{
    lemma_find_shift(s, a, b, a, c);
    match crate::json::sp_find(s.subrange(a, b), 0, c) {
        Some(q) => {
            lemma_sp_find_bounds(s.subrange(a, b), 0, c);
            assert(false);
        },
        None => {},
    }
}

/// Searching the whole input from `j` and searching the extracted line
/// from `j - a` agree, as long as `j` lies inside the line.
proof fn lemma_find_shift(s: Seq<char>, a: int, b: int, j: int, c: char)
    requires
        0 <= a <= j <= b <= s.len(),
    ensures
        match crate::json::sp_find(s.subrange(a, b), j - a, c) {
            Some(q) => crate::json::sp_find(s, j, c) == Some(q + a),
            None => crate::json::sp_find(s, j, c) matches Some(p) ==> p >= b,
        },
    decreases b - j,
{
    lemma_sp_find_bounds(s, j, c);
    lemma_sp_find_bounds(s.subrange(a, b), j - a, c);
    if j < b {
        if s[j] == c {
        } else {
            lemma_find_shift(s, a, b, j + 1, c);
        }
    }
}

} // verus!

//! Decision utilities: similarity triage thresholds and the parsers for
//! the generator's candidate-list and verification answers.

use vstd::prelude::*;

use crate::json::{
    sp_get_text, sp_span, sp_texts, JsonV, JsonValue, lemma_arr_view, parse_array_span,
    parse_object_span, seq_v,
};
use crate::text::str_eq_str;

verus! {

/// Below this similarity (in hundredths) a candidate is created outright.
pub const SIMILARITY_THRESHOLD_LOW: u32 = 70;

/// From this similarity (in hundredths) an existing node is reused
/// without a verification call.
pub const SIMILARITY_THRESHOLD_HIGH: u32 = 95;

/// The lower trait threshold: traits are shared across domains, so
/// reuse is favoured.
pub const TRAIT_SIMILARITY_LOW: u32 = 65;

/// The upper trait threshold.
pub const TRAIT_SIMILARITY_HIGH: u32 = 85;

/// A domain whose name reaches this similarity against an existing
/// domain blocks the run.
pub const DOMAIN_SIMILARITY_THRESHOLD: u32 = 85;

/// One ranked answer of the similarity search; `score` is a normalized
/// similarity in hundredths.
#[derive(Debug)]
pub struct SimilarNodeResult {
    pub name: String,
    pub description: Option<String>,
    pub id: String,
    pub score: u32,
}

impl Clone for SimilarNodeResult {
    /// An equal copy.
    fn clone(&self) -> (r: Self)
        ensures
            r == *self,
    {
        SimilarNodeResult {
            name: self.name.clone(),
            description: match &self.description {
                Some(d) => Some(d.clone()),
                None => None,
            },
            id: self.id.clone(),
            score: self.score,
        }
    }
}

/// A similarity query: a reference (node id or text), an optional label
/// filter, and a result limit.
#[derive(Clone, Debug)]
pub struct FindSimilarNodesRequest {
    pub node_id: Option<String>,
    pub text: Option<String>,
    pub label: Option<String>,
    pub limit: Option<i32>,
}

impl Default for FindSimilarNodesRequest {
    /// A query with nothing set.
    fn default() -> (r: FindSimilarNodesRequest)
        ensures
            r.node_id is None,
            r.text is None,
            r.label is None,
            r.limit is None,
    {
        FindSimilarNodesRequest { node_id: None, text: None, label: None, limit: None }
    }
}

/// What to do with one candidate concept.
#[derive(Debug)]
pub enum ConceptAction {
    /// Mint a new node.
    CreateNew,
    /// An existing node is authoritative; create nothing.
    UseExisting { element_id: String },
    /// Create a domain-specific node and link it to a broader concept,
    /// which may itself still need creation.
    CreateAndGeneralize { generalizes_to_id: String, generalizes_to_name: String, needs_creation: bool },
}

impl Clone for ConceptAction {
    /// An equal copy.
    fn clone(&self) -> (r: Self)
        ensures
            r == *self,
    {
        match self {
            ConceptAction::CreateNew => ConceptAction::CreateNew,
            ConceptAction::UseExisting { element_id } => ConceptAction::UseExisting {
                element_id: element_id.clone(),
            },
            ConceptAction::CreateAndGeneralize {
                generalizes_to_id,
                generalizes_to_name,
                needs_creation,
            } => ConceptAction::CreateAndGeneralize {
                generalizes_to_id: generalizes_to_id.clone(),
                generalizes_to_name: generalizes_to_name.clone(),
                needs_creation: *needs_creation,
            },
        }
    }
}

/// A candidate concept together with its resolved action.
#[derive(Debug)]
pub struct VerifiedConcept {
    pub name: String,
    pub action: ConceptAction,
}

impl Clone for VerifiedConcept {
    /// An equal copy.
    fn clone(&self) -> (r: Self)
        ensures
            r == *self,
    {
        VerifiedConcept { name: self.name.clone(), action: self.action.clone() }
    }
}

impl VerifiedConcept {
    /// A concept to be minted as a new node.
    pub fn create_new(name: &str) -> (r: VerifiedConcept)
        ensures
            r.name@ == name@,
            r.action is CreateNew,
    {
        VerifiedConcept { name: String::from_str(name), action: ConceptAction::CreateNew }
    }

    /// A concept resolved to an existing node.
    pub fn use_existing(name: &str, element_id: &str) -> (r: VerifiedConcept)
        ensures
            r.name@ == name@,
            r.action matches ConceptAction::UseExisting { element_id: id } && id@ == element_id@,
    {
        VerifiedConcept {
            name: String::from_str(name),
            action: ConceptAction::UseExisting { element_id: String::from_str(element_id) },
        }
    }

    /// A concept to be created and linked to a broader one.
    pub fn create_and_generalize(
        name: &str,
        generalizes_to_id: &str,
        generalizes_to_name: &str,
        needs_creation: bool,
    ) -> (r: VerifiedConcept)
        ensures
            r.name@ == name@,
            r.action matches ConceptAction::CreateAndGeneralize {
                generalizes_to_id: id,
                generalizes_to_name: gname,
                needs_creation: nc,
            } && id@ == generalizes_to_id@ && gname@ == generalizes_to_name@ && nc
                == needs_creation,
    {
        VerifiedConcept {
            name: String::from_str(name),
            action: ConceptAction::CreateAndGeneralize {
                generalizes_to_id: String::from_str(generalizes_to_id),
                generalizes_to_name: String::from_str(generalizes_to_name),
                needs_creation,
            },
        }
    }
}

/// The candidate list an answer denotes: the bracketed span parsed as a
/// non-empty array of strings.
pub open spec fn spec_concept_list(t: Seq<char>) -> Option<Seq<Seq<char>>> {
    match sp_span(t, '[', ']') {
        Some(v) => match v {
            JsonV::Arr(items) => match sp_texts(items) {
                Some(ts) => if ts.len() > 0 {
                    Some(ts)
                } else {
                    None
                },
                None => None,
            },
            _ => None,
        },
        None => None,
    }
}

/// A verification outcome, before any id resolution.
pub enum DecisionV {
    UseExisting(Seq<char>),
    CreateNew,
    CreateAndGeneralize(Seq<char>),
}

/// A string field that counts as given: present, non-empty, and not the
/// text `null`.
pub open spec fn spec_named_field(doc: JsonV, key: Seq<char>) -> Option<Seq<char>> {
    match sp_get_text(doc, key) {
        Some(s) => if s.len() > 0 && s != "null"@ {
            Some(s)
        } else {
            None
        },
        None => None,
    }
}

/// The decision a verification answer denotes: the braced span parsed
/// as an object, read by its `decision`, `existing_node_name` and
/// `suggested_target` fields.
pub open spec fn spec_verification(t: Seq<char>) -> Option<DecisionV> {
    match sp_span(t, '{', '}') {
        Some(doc) => match sp_get_text(doc, "decision"@) {
            Some(d) => if d == "use_existing"@ {
                match spec_named_field(doc, "existing_node_name"@) {
                    Some(n) => Some(DecisionV::UseExisting(n)),
                    None => None,
                }
            } else if d == "create_new"@ {
                Some(DecisionV::CreateNew)
            } else if d == "create_and_generalize"@ {
                match spec_named_field(doc, "suggested_target"@) {
                    Some(n) => Some(DecisionV::CreateAndGeneralize(n)),
                    None => match spec_named_field(doc, "existing_node_name"@) {
                        Some(n) => Some(DecisionV::CreateAndGeneralize(n)),
                        None => None,
                    },
                }
            } else {
                None
            },
            None => None,
        },
        None => None,
    }
}

/// Shared decision utilities of the generator steps.
pub struct StepUtils;

impl StepUtils {
    /// The three-tier threshold policy with explicit thresholds: no
    /// candidates or a weak top score create a new node, a very strong
    /// top score reuses the top candidate, and everything in between is
    /// handed to the verifier (`None`).
    pub fn triage_with_thresholds(
        concept: &str,
        similar_nodes: &Vec<SimilarNodeResult>,
        low: u32,
        high: u32,
    ) -> (r: Option<VerifiedConcept>)
        requires
            low <= high,
        ensures
            similar_nodes@.len() == 0 ==> (r matches Some(c) && c.name@ == concept@ && c.action
                is CreateNew),
            similar_nodes@.len() > 0 && similar_nodes@[0].score < low ==> (r matches Some(c)
                && c.name@ == concept@ && c.action is CreateNew),
            similar_nodes@.len() > 0 && similar_nodes@[0].score >= high ==> (r matches Some(c)
                && c.name@ == concept@ && (c.action matches ConceptAction::UseExisting {
                element_id,
            } && element_id@ == similar_nodes@[0].id@)),
            similar_nodes@.len() > 0 && low <= similar_nodes@[0].score < high ==> r is None,
    {
        if similar_nodes.len() == 0 {
            return Some(VerifiedConcept::create_new(concept));
        }
        let top_score = similar_nodes[0].score;
        if top_score < low {
            Some(VerifiedConcept::create_new(concept))
        } else if top_score >= high {
            Some(VerifiedConcept::use_existing(concept, similar_nodes[0].id.as_str()))
        } else {
            None
        }
    }

    /// Parse a candidate list: the span from the first `[` to the last
    /// `]` must be an array of strings, and must not be empty.
    pub fn parse_concept_list(response: &str) -> (r: Result<Vec<String>, String>)
        ensures
            match r {
                Ok(list) => spec_concept_list(response@) == Some(
                    Seq::new(list@.len(), |k: int| list@[k]@),
                ),
                Err(_) => spec_concept_list(response@) is None,
            },
    {
        match parse_array_span(response) {
            Some(jv) => match &jv {
                JsonValue::Arr(items) => {
                    proof {
                        assert(jv == JsonValue::Arr(*items));
                        lemma_arr_view(*items);
                    }
                    match crate::json::texts_of(items) {
                        Some(ts) => {
                            if ts.len() > 0 {
                                Ok(ts)
                            } else {
                                Err(String::from_str("No concepts found in response"))
                            }
                        },
                        None => Err(String::from_str("Failed to parse JSON array")),
                    }
                },
                _ => Err(String::from_str("Failed to parse JSON array")),
            },
            None => Err(String::from_str("No JSON array found in response")),
        }
    }

    /// Parse a verification answer: the span from the first `{` to the
    /// last `}` must be an object with a `decision` field naming one of
    /// the three actions; an id is never resolved here.
    pub fn parse_verification_response(response: &str, concept: &str) -> (r: Result<
        VerifiedConcept,
        String,
    >)
        ensures
            match r {
                Ok(c) => c.name@ == concept@ && match spec_verification(response@) {
                    Some(DecisionV::UseExisting(n)) => c.action
                        matches ConceptAction::UseExisting { element_id } && element_id@ == n,
                    Some(DecisionV::CreateNew) => c.action is CreateNew,
                    Some(DecisionV::CreateAndGeneralize(n)) => c.action
                        matches ConceptAction::CreateAndGeneralize {
                        generalizes_to_id,
                        generalizes_to_name,
                        needs_creation,
                    } && generalizes_to_id@.len() == 0 && generalizes_to_name@ == n
                        && needs_creation == false,
                    None => false,
                },
                Err(_) => spec_verification(response@) is None,
            },
    {
        let doc = match parse_object_span(response) {
            Some(doc) => doc,
            None => {
                return Err(String::from_str("No JSON object found in response"));
            },
        };
        let decision = match doc.get_text("decision") {
            Some(d) => d,
            None => {
                return Err(String::from_str("Missing 'decision' field"));
            },
        };
        let existing_node = Self::named_field(&doc, "existing_node_name");
        let suggested_target = Self::named_field(&doc, "suggested_target");
        if str_eq_str(decision.as_str(), "use_existing") {
            match existing_node {
                Some(node_name) => Ok(
                    VerifiedConcept::use_existing(concept, node_name.as_str()),
                ),
                None => Err(String::from_str("Missing existing_node_name for use_existing")),
            }
        } else if str_eq_str(decision.as_str(), "create_new") {
            Ok(VerifiedConcept::create_new(concept))
        } else if str_eq_str(decision.as_str(), "create_and_generalize") {
            let target = match suggested_target {
                Some(t) => Some(t),
                None => existing_node,
            };
            match target {
                Some(target_name) => {
                    proof {
                        reveal_strlit("");
                    }
                    Ok(
                        VerifiedConcept::create_and_generalize(
                            concept,
                            "",
                            target_name.as_str(),
                            false,
                        ),
                    )
                },
                None => Err(
                    String::from_str(
                        "Missing target for create_and_generalize (need existing_node_name or suggested_target)",
                    ),
                ),
            }
        } else {
            Err(String::from_str("Unknown decision"))
        }
    }

    /// A string field that is present, non-empty and not the text
    /// `null`.
    pub(crate) fn named_field(doc: &JsonValue, key: &str) -> (r: Option<String>)
        ensures
            match r {
                Some(s) => spec_named_field(doc.v(), key@) == Some(s@),
                None => spec_named_field(doc.v(), key@) is None,
            },
    {
        match doc.get_text(key) {
            Some(s) => {
                if s.as_str().unicode_len() > 0 && !str_eq_str(s.as_str(), "null") {
                    Some(s)
                } else {
                    None
                }
            },
            None => None,
        }
    }

    /// The standard triage policy, with the default thresholds.
    pub fn determine_action_by_score(
        concept: &str,
        similar_nodes: &Vec<SimilarNodeResult>,
    ) -> (r: Option<VerifiedConcept>)
        ensures
            similar_nodes@.len() == 0 ==> (r matches Some(c) && c.name@ == concept@ && c.action
                is CreateNew),
            similar_nodes@.len() > 0 && similar_nodes@[0].score < SIMILARITY_THRESHOLD_LOW ==> (
            r matches Some(c) && c.name@ == concept@ && c.action is CreateNew),
            similar_nodes@.len() > 0 && similar_nodes@[0].score >= SIMILARITY_THRESHOLD_HIGH ==> (
            r matches Some(c) && c.name@ == concept@ && (c.action
                matches ConceptAction::UseExisting { element_id } && element_id@
                == similar_nodes@[0].id@)),
            similar_nodes@.len() > 0 && SIMILARITY_THRESHOLD_LOW <= similar_nodes@[0].score
                < SIMILARITY_THRESHOLD_HIGH ==> r is None,
    {
        Self::triage_with_thresholds(
            concept,
            similar_nodes,
            SIMILARITY_THRESHOLD_LOW,
            SIMILARITY_THRESHOLD_HIGH,
        )
    }
}

} // verus!

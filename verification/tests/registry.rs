//! The registry: lookups, counts, deduplication, and the summary text.

use atlas_agents::agents::{AgentContext, GenerateDomainRequest};
use atlas_agents::models::{CreatedNode, DomainGraphRegistry, GeneralizationLink};

fn node(name: &str, id: &str, label: &str) -> CreatedNode {
    CreatedNode::new(name.to_string(), id.to_string(), label.to_string())
}

fn context_with_nodes() -> AgentContext {
    let mut ctx = AgentContext::new("Chess".to_string(), None);
    ctx.set_domain(node("Chess", "d1", "Domain"));
    ctx.add_domain_level(node("Chess Novice", "l1", "Domain_Level"));
    ctx.add_domain_level(node("Chess Master", "l5", "Domain_Level"));
    ctx.add_knowledge(node("Opening Theory", "k1", "Knowledge"));
    ctx.add_knowledge(CreatedNode::reused(
        "Endgame Theory".to_string(),
        "k2".to_string(),
        "Knowledge".to_string(),
    ));
    ctx.add_skill(node("Calculation", "s1", "Skill"));
    ctx.add_trait(CreatedNode::reused(
        "Patience".to_string(),
        "t1".to_string(),
        "Trait".to_string(),
    ));
    ctx.add_milestone(node("Win First Tournament", "m1", "Milestone"));
    ctx
}

#[test]
fn find_by_name_searches_concepts_before_levels() {
    let ctx = context_with_nodes();
    let hit = ctx.domain_graph.find_by_name("Opening Theory").unwrap();
    assert_eq!(hit.element_id, "k1");
    let level = ctx.domain_graph.find_by_name("Chess Master").unwrap();
    assert_eq!(level.element_id, "l5");
    assert!(ctx.domain_graph.find_by_name("Nonsense").is_none());
}

#[test]
fn find_by_id_covers_all_collections() {
    let ctx = context_with_nodes();
    assert_eq!(ctx.domain_graph.find_by_id("d1").unwrap().name, "Chess");
    assert_eq!(ctx.domain_graph.find_by_id("t1").unwrap().name, "Patience");
    assert!(ctx.domain_graph.find_by_id("zz").is_none());
}

#[test]
fn all_nodes_order_and_counts() {
    let ctx = context_with_nodes();
    let all = ctx.domain_graph.all_nodes();
    let names: Vec<&str> = all.iter().map(|n| n.name.as_str()).collect();
    assert_eq!(
        names,
        vec![
            "Chess",
            "Chess Novice",
            "Chess Master",
            "Opening Theory",
            "Endgame Theory",
            "Calculation",
            "Patience",
            "Win First Tournament",
        ],
    );
    assert_eq!(ctx.domain_graph.count_created(), 6);
    assert_eq!(ctx.domain_graph.count_reused(), 2);
}

#[test]
fn deduplicate_collapses_duplicate_ids() {
    let mut ctx = context_with_nodes();
    // the same store node registered twice, as happens when a concept is
    // added both as a generalization target and as a plain concept
    ctx.add_knowledge(node("Opening Theory (again)", "k1", "Knowledge"));
    assert_eq!(ctx.domain_graph.knowledge.len(), 3);
    ctx.domain_graph.deduplicate();
    assert_eq!(ctx.domain_graph.knowledge.len(), 2);
    // the first occurrence survives
    assert_eq!(ctx.domain_graph.knowledge[0].name, "Opening Theory");
    assert_eq!(ctx.domain_graph.knowledge[1].name, "Endgame Theory");
}

#[test]
fn deduplicate_is_idempotent_and_keeps_unique_ids() {
    let mut ctx = context_with_nodes();
    ctx.add_knowledge(node("Opening Theory (again)", "k1", "Knowledge"));
    ctx.domain_graph.deduplicate();
    let once: Vec<(String, String)> = ctx
        .domain_graph
        .knowledge
        .iter()
        .map(|n| (n.name.clone(), n.element_id.clone()))
        .collect();
    ctx.domain_graph.deduplicate();
    let twice: Vec<(String, String)> = ctx
        .domain_graph
        .knowledge
        .iter()
        .map(|n| (n.name.clone(), n.element_id.clone()))
        .collect();
    assert_eq!(once, twice);
    // a node whose id is unique is never removed
    assert!(ctx.domain_graph.knowledge.iter().any(|n| n.element_id == "k2"));
    assert_eq!(ctx.domain_graph.skills.len(), 1);
    assert_eq!(ctx.domain_graph.milestones.len(), 1);
}

#[test]
fn relationship_records_and_getters() {
    let mut ctx = context_with_nodes();
    ctx.add_generalization(GeneralizationLink {
        specific_id: "k1".to_string(),
        specific_name: "Opening Theory".to_string(),
        general_id: "g9".to_string(),
        general_name: "Openings".to_string(),
        node_type: "Knowledge".to_string(),
    });
    let gens = ctx.domain_graph.get_generalizations_for("k1");
    assert_eq!(gens.len(), 1);
    assert_eq!(gens[0].general_id, "g9");
    assert!(ctx.domain_graph.get_generalizations_for("k2").is_empty());
    assert!(ctx.domain_graph.get_requirements_for_level("l1").is_empty());
    assert!(ctx.domain_graph.get_prerequisites_for("k1").is_empty());
}

#[test]
fn summary_lists_names_by_collection() {
    let ctx = context_with_nodes();
    let s = ctx.domain_graph.summary_for_llm();
    assert_eq!(
        s,
        "Created nodes:\n- Domain Levels: [\"Chess Novice\", \"Chess Master\"]\n- Knowledge: [\"Opening Theory\", \"Endgame Theory\"]\n- Skills: [\"Calculation\"]\n- Traits: [\"Patience\"]\n- Milestones: [\"Win First Tournament\"]",
    );
}

#[test]
fn empty_registry_summary() {
    let reg = DomainGraphRegistry::default();
    assert_eq!(
        reg.summary_for_llm(),
        "Created nodes:\n- Domain Levels: []\n- Knowledge: []\n- Skills: []\n- Traits: []\n- Milestones: []",
    );
}

#[test]
fn request_validation_bounds() {
    let ok = GenerateDomainRequest { domain_name: "Chess".to_string(), description: None };
    assert!(ok.validate().is_ok());
    let empty = GenerateDomainRequest { domain_name: "".to_string(), description: None };
    assert!(empty.validate().is_err());
    let long_name = GenerateDomainRequest {
        domain_name: "x".repeat(101),
        description: None,
    };
    assert!(long_name.validate().is_err());
    let long_desc = GenerateDomainRequest {
        domain_name: "Chess".to_string(),
        description: Some("y".repeat(501)),
    };
    assert!(long_desc.validate().is_err());
    let edge = GenerateDomainRequest {
        domain_name: "x".repeat(100),
        description: Some("y".repeat(500)),
    };
    assert!(edge.validate().is_ok());
}

//! The relationship steps: registry snapshots, level assignments and
//! prerequisite parsing, and the fixed level ladder.

use atlas_agents::agents::AgentContext;
use atlas_agents::architect::get_level_structure;
use atlas_agents::models::CreatedNode;
use atlas_agents::relationships::{
    build_context, find_element_id, level_requirement_requests, parse_level_assignments,
    parse_prerequisites, prerequisite_requests, resolve_level_id,
};

fn node_of(name: &str, id: &str, label: &str) -> CreatedNode {
    CreatedNode::new(name.to_string(), id.to_string(), label.to_string())
}

fn chess_context() -> AgentContext {
    let mut ctx = AgentContext::new("Chess".to_string(), None);
    ctx.set_domain(node_of("Chess", "d1", "Domain"));
    ctx.add_domain_level(node_of("Chess Novice", "l1", "Domain_Level"));
    ctx.add_domain_level(node_of("Chess Master", "l2", "Domain_Level"));
    ctx.add_knowledge(node_of("Opening Theory", "k1", "Knowledge"));
    ctx.add_skill(node_of("Calculation", "s1", "Skill"));
    ctx.add_trait(node_of("Patience", "t1", "Trait"));
    ctx.add_milestone(node_of("Win First Tournament", "m1", "Milestone"));
    ctx
}

#[test]
fn snapshot_lists_every_collection_with_ids() {
    let ctx = chess_context();
    let s = build_context(&ctx);
    assert_eq!(
        s,
        "Domain: Chess\n\nDomain Levels:\n- Chess Novice (ID: l1)\n- Chess Master (ID: l2)\n\nKnowledge Nodes:\n- Opening Theory (ID: k1)\n\nSkill Nodes:\n- Calculation (ID: s1)\n\nTrait Nodes:\n- Patience (ID: t1)\n\nMilestone Nodes:\n- Win First Tournament (ID: m1)\n",
    );
}

#[test]
fn element_ids_resolve_by_category() {
    let ctx = chess_context();
    assert_eq!(
        find_element_id(&ctx.domain_graph, "Opening Theory", "Knowledge").unwrap(),
        "k1",
    );
    assert_eq!(find_element_id(&ctx.domain_graph, "Patience", "Trait").unwrap(), "t1");
    // the name exists, but in another category
    assert!(find_element_id(&ctx.domain_graph, "Opening Theory", "Skill").is_none());
    assert!(find_element_id(&ctx.domain_graph, "Opening Theory", "Gadget").is_none());
}

#[test]
fn level_ids_resolve_by_suffix_then_position() {
    let ctx = chess_context();
    // by canonical suffix
    assert_eq!(resolve_level_id(&ctx.domain_graph, 1).unwrap(), "l1");
    assert_eq!(resolve_level_id(&ctx.domain_graph, 5).unwrap(), "l2");
    // no " Competent" level exists: falls back to the third position,
    // which does not exist either
    assert!(resolve_level_id(&ctx.domain_graph, 3).is_none());
    // position two exists
    assert_eq!(resolve_level_id(&ctx.domain_graph, 2).unwrap(), "l2");
    // outside one to five the needle degrades to a single space, which
    // any multi-word level name holds: the first level wins
    assert_eq!(resolve_level_id(&ctx.domain_graph, 0).unwrap(), "l1");
}

#[test]
fn level_assignments_parse_and_resolve() {
    let ctx = chess_context();
    let answer = r#"{"level_assignments": [
        {"component": "Opening Theory", "component_type": "Knowledge", "level": 1, "proficiency": "Remember"},
        {"component": "Patience", "component_type": "Trait", "level": 5, "proficiency": "60"},
        {"component": "Unknown Thing", "component_type": "Knowledge", "level": 1, "proficiency": "Apply"}
    ]}"#;
    let assigns = parse_level_assignments(answer, &ctx).unwrap();
    // the unresolvable third assignment was dropped, not fatal
    assert_eq!(assigns.len(), 2);
    assert_eq!(assigns[0].level_id, "l1");
    assert_eq!(assigns[0].component_id, "k1");
    assert_eq!(assigns[0].proficiency.as_deref(), Some("Remember"));
    assert_eq!(assigns[1].level_id, "l2");
    assert_eq!(assigns[1].component_id, "t1");
    // a missing required field poisons the whole answer
    let bad = r#"{"level_assignments": [{"component_type": "Knowledge", "level": 1}]}"#;
    assert!(parse_level_assignments(bad, &ctx).is_err());
    // and so does a missing array
    assert!(parse_level_assignments(r#"{"other": 1}"#, &ctx).is_err());
}

#[test]
fn level_requirements_carry_proficiency_properties() {
    let ctx = chess_context();
    let answer = r#"{"level_assignments": [
        {"component": "Opening Theory", "component_type": "Knowledge", "level": 1, "proficiency": "Remember"},
        {"component": "Calculation", "component_type": "Skill", "level": 5, "proficiency": "Expert"},
        {"component": "Patience", "component_type": "Trait", "level": 5, "proficiency": "60"},
        {"component": "Win First Tournament", "component_type": "Milestone", "level": 5}
    ]}"#;
    let assigns = parse_level_assignments(answer, &ctx).unwrap();
    let pairs = level_requirement_requests(&assigns);
    assert_eq!(pairs.len(), 4);
    assert_eq!(pairs[0].0.relationship_type, "REQUIRES_KNOWLEDGE");
    assert_eq!(pairs[0].0.source_id, "l1");
    assert_eq!(pairs[0].0.target_id, "k1");
    let props = pairs[0].0.properties.as_ref().unwrap();
    assert_eq!(props[0].0, "bloom_level");
    assert_eq!(pairs[1].0.relationship_type, "REQUIRES_SKILL");
    let props = pairs[1].0.properties.as_ref().unwrap();
    assert_eq!(props[0].0, "dreyfus_level");
    assert_eq!(pairs[2].0.relationship_type, "REQUIRES_TRAIT");
    let props = pairs[2].0.properties.as_ref().unwrap();
    assert_eq!(props[0].0, "min_score");
    // milestones carry no properties
    assert!(pairs[3].0.properties.is_none());
    assert_eq!(pairs[3].1.component_type, "Milestone");
}

#[test]
fn prerequisites_parse_and_resolve() {
    let ctx = chess_context();
    let answer = r#"{"prerequisites": [
        {"component": "Calculation", "component_type": "Skill", "requires": [
            {"name": "Opening Theory", "type": "Knowledge"},
            {"name": "Missing", "type": "Knowledge"},
            {"name": "Patience", "type": "Trait"}
        ]},
        {"component": "Ghost", "component_type": "Skill", "requires": [
            {"name": "Opening Theory", "type": "Knowledge"}
        ]}
    ]}"#;
    let prereqs = parse_prerequisites(answer, &ctx).unwrap();
    // the unresolvable target and the unresolvable component dropped
    assert_eq!(prereqs.len(), 2);
    assert_eq!(prereqs[0].source_id, "s1");
    assert_eq!(prereqs[0].target_id, "k1");
    assert_eq!(prereqs[0].relationship_type, "REQUIRES_KNOWLEDGE");
    assert_eq!(prereqs[1].target_id, "t1");
    assert_eq!(prereqs[1].relationship_type, "REQUIRES_TRAIT");
    let pairs = prerequisite_requests(&prereqs);
    assert_eq!(pairs.len(), 2);
    assert_eq!(pairs[0].0.source_id, "s1");
    assert_eq!(pairs[0].0.target_id, "k1");
    assert!(pairs[0].0.properties.is_none());
    // a missing component type poisons the whole answer
    let bad = r#"{"prerequisites": [{"component": "Calculation"}]}"#;
    assert!(parse_prerequisites(bad, &ctx).is_err());
}

#[test]
fn fixed_level_ladder() {
    let levels = get_level_structure("Chess");
    assert_eq!(levels.len(), 5);
    assert_eq!(levels[0].name, "Chess Novice");
    assert_eq!(levels[0].description, "Beginning your journey in Chess");
    assert_eq!(levels[0].total_points_required, 100);
    assert_eq!(levels[4].name, "Chess Master");
    assert_eq!(levels[4].total_points_required, 1000);
    for (k, level) in levels.iter().enumerate() {
        assert_eq!(level.level as usize, k + 1);
    }
}

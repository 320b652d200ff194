//! Prompt builders, system personas and query text.

use atlas_agents::decisions::SimilarNodeResult;
use atlas_agents::prompts::{PromptTemplates, SystemPrompts};
use atlas_agents::queries::{
    build_embedding_query, build_node_id_query, node_with_relationships_query_fragment,
};

fn ranked(name: &str, id: &str, score: u32, description: Option<&str>) -> SimilarNodeResult {
    SimilarNodeResult {
        name: name.to_string(),
        description: description.map(|d| d.to_string()),
        id: id.to_string(),
        score,
    }
}

#[test]
fn knowledge_concepts_prompt_carries_domain_and_description() {
    let p = PromptTemplates::knowledge_concepts("Chess", "The royal game");
    assert!(p.starts_with(
        "For the domain \"Chess\", identify the essential knowledge concepts someone would need to master.\n\nDomain description: The royal game\n",
    ));
    assert!(p.contains("Prefix concepts with the domain name \"Chess\""));
    assert!(p.ends_with("[\"Concept 1\", \"Concept 2\", \"Concept 3\", ...]"));
    // without a description the section disappears
    let p = PromptTemplates::knowledge_concepts("Chess", "");
    assert!(p.starts_with(
        "For the domain \"Chess\", identify the essential knowledge concepts someone would need to master.\n\n\nConsider knowledge",
    ));
}

#[test]
fn verification_prompt_renders_scores_with_two_decimals() {
    let similar = vec![
        ranked("Opening Theory", "n1", 87, Some("how games begin")),
        ranked("Openings", "n2", 70, None),
    ];
    let p = PromptTemplates::verify_similar_knowledge("Chess Openings", "Chess", &similar);
    assert!(p.contains("- Opening Theory (similarity: 0.87): how games begin"));
    assert!(p.contains("- Openings (similarity: 0.70): No description"));
    assert!(p.contains("For the concept \"Chess Openings\""));
}

#[test]
fn skill_concepts_prompt_lists_existing_knowledge() {
    let knowledge = vec!["Opening Theory".to_string(), "Endgame Theory".to_string()];
    let p = PromptTemplates::skill_concepts("Chess", "", &knowledge);
    assert!(p.contains(
        "\nExisting knowledge in this domain: Opening Theory, Endgame Theory\n",
    ));
    let p = PromptTemplates::skill_concepts("Chess", "", &vec![]);
    assert!(!p.contains("Existing knowledge in this domain"));
}

#[test]
fn property_prompts_note_generalization_targets() {
    let p = PromptTemplates::knowledge_properties("Chess", "Chess Strategy", Some("Strategy"));
    assert!(p.contains(
        "\nNote: This is a domain-specific version that generalizes to 'Strategy'.",
    ));
    let p = PromptTemplates::knowledge_properties("Chess", "Chess Strategy", None);
    assert!(!p.contains("generalizes to"));
    let p = PromptTemplates::generic_skill_properties("Strategic Thinking");
    assert!(p.starts_with("Generate properties for a GENERIC skill \"Strategic Thinking\"."));
}

#[test]
fn relationship_prompts_embed_the_snapshot() {
    let p = PromptTemplates::level_assignment("Chess", "SNAPSHOT");
    assert!(p.starts_with("Assign components to domain levels for \"Chess\".\n\nSNAPSHOT\n"));
    assert!(p.contains("level_assignments"));
    let p = PromptTemplates::prerequisite_analysis("Chess", "SNAPSHOT");
    assert!(p.starts_with(
        "Analyze the prerequisite relationships for the domain \"Chess\".\n\nSNAPSHOT\n",
    ));
    assert!(p.contains("\"prerequisites\""));
}

#[test]
fn system_personas_are_fixed() {
    assert!(SystemPrompts::domain_architect().contains("domain architect"));
    assert!(SystemPrompts::knowledge_expert().contains("Bloom's Taxonomy"));
    assert!(SystemPrompts::skill_expert().contains("Dreyfus model"));
    assert!(SystemPrompts::trait_analyst().contains("traits and aptitudes"));
    assert!(SystemPrompts::milestone_designer().contains("milestone design"));
    assert!(SystemPrompts::relationship_architect().contains("prerequisite mapping"));
}

#[test]
fn query_text_carries_label_filters_and_depth() {
    let q = build_embedding_query(Some("Knowledge"));
    assert!(q.contains("WHERE node:Knowledge\n"));
    let q = build_embedding_query(None);
    assert!(!q.contains("WHERE node:"));
    let q = build_node_id_query(Some("Domain"));
    assert!(q.contains(" AND node:Domain\n"));
    let q = node_with_relationships_query_fragment(3);
    assert!(q.contains("OPTIONAL MATCH (node)-[r*1..3]->(m)"));
}

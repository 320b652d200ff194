//! The agent roster and its fixed metadata.

use atlas_agents::agents::AgentType;
use atlas_agents::decisions::SimilarNodeResult;
use atlas_agents::prompts::PromptTemplates;

#[test]
fn the_seven_steps_in_order() {
    let all = AgentType::all_agents();
    assert_eq!(all.len(), 7);
    assert_eq!(all[0], AgentType::DomainArchitect);
    assert_eq!(all[6], AgentType::PrerequisiteMapper);
    for (k, agent) in all.iter().enumerate() {
        assert_eq!(agent.order() as usize, k + 1);
    }
    assert_eq!(AgentType::KnowledgeGenerator.display_name(), "Knowledge Generator");
    assert_eq!(AgentType::TraitGenerator.instruction_file(), "2c_trait_generator.md");
}

#[test]
fn domain_structure_prompt_names_all_levels() {
    let p = PromptTemplates::domain_structure("Chess", "");
    assert!(p.starts_with("You are designing the structure for the domain \"Chess\".\n"));
    for suffix in ["Novice", "Developing", "Competent", "Advanced", "Master"] {
        assert!(p.contains(&format!("\"name\": \"Chess {suffix}\"")));
    }
    let p = PromptTemplates::domain_structure("Chess", "The royal game");
    assert!(p.contains("Description provided: The royal game"));
}

#[test]
fn milestone_verification_prompt_lists_candidates() {
    let similar = vec![SimilarNodeResult {
        name: "Win a Tournament".to_string(),
        description: None,
        id: "m9".to_string(),
        score: 80,
    }];
    let p = PromptTemplates::verify_similar_milestone("Win First Tournament", "Chess", &similar);
    assert!(p.contains("- Win a Tournament (similarity: 0.80): No description"));
    assert!(p.contains("For the milestone \"Win First Tournament\""));
}

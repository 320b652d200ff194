//! The three-tier similarity triage policy on concrete scores.

use atlas_agents::decisions::{ConceptAction, SimilarNodeResult, StepUtils};

fn candidate(name: &str, id: &str, score: u32) -> SimilarNodeResult {
    SimilarNodeResult {
        name: name.to_string(),
        description: None,
        id: id.to_string(),
        score,
    }
}

#[test]
fn no_candidates_creates_new() {
    let similar: Vec<SimilarNodeResult> = vec![];
    let r = StepUtils::determine_action_by_score("Opening Theory", &similar).unwrap();
    assert_eq!(r.name, "Opening Theory");
    assert!(matches!(r.action, ConceptAction::CreateNew));
}

#[test]
fn low_score_creates_new() {
    let similar = vec![candidate("Endgames", "n1", 69)];
    let r = StepUtils::determine_action_by_score("Endgame Theory", &similar).unwrap();
    assert!(matches!(r.action, ConceptAction::CreateNew));
}

#[test]
fn high_score_reuses_top_candidate() {
    let similar = vec![candidate("Opening Theory", "n42", 97), candidate("Openings", "n43", 80)];
    let r = StepUtils::determine_action_by_score("Opening Theory", &similar).unwrap();
    match r.action {
        ConceptAction::UseExisting { element_id } => assert_eq!(element_id, "n42"),
        _ => panic!("expected reuse of the top candidate"),
    }
}

#[test]
fn boundary_scores() {
    // exactly the low threshold: verification required
    let similar = vec![candidate("A", "n1", 70)];
    assert!(StepUtils::determine_action_by_score("A", &similar).is_none());
    // just below the low threshold: create
    let similar = vec![candidate("A", "n1", 69)];
    assert!(StepUtils::determine_action_by_score("A", &similar).is_some());
    // exactly the high threshold: reuse
    let similar = vec![candidate("A", "n1", 95)];
    let r = StepUtils::determine_action_by_score("A", &similar).unwrap();
    assert!(matches!(r.action, ConceptAction::UseExisting { .. }));
    // just below the high threshold: verification required
    let similar = vec![candidate("A", "n1", 94)];
    assert!(StepUtils::determine_action_by_score("A", &similar).is_none());
}

#[test]
fn mid_score_requires_verification() {
    let similar = vec![candidate("Tactics", "n7", 85)];
    assert!(StepUtils::determine_action_by_score("Tactics", &similar).is_none());
}

#[test]
fn trait_thresholds_favour_reuse() {
    // 0.85 reuses for traits but needs verification for other categories
    let similar = vec![candidate("Patience", "t1", 85)];
    let r = StepUtils::triage_with_thresholds("Patience", &similar, 65, 85).unwrap();
    assert!(matches!(r.action, ConceptAction::UseExisting { .. }));
    assert!(StepUtils::determine_action_by_score("Patience", &similar).is_none());
    // 0.65 needs verification for traits but creates for other categories
    let similar = vec![candidate("Focus", "t2", 65)];
    assert!(StepUtils::triage_with_thresholds("Focus", &similar, 65, 85).is_none());
    let r = StepUtils::determine_action_by_score("Focus", &similar).unwrap();
    assert!(matches!(r.action, ConceptAction::CreateNew));
}

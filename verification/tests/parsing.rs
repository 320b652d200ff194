//! The parsers for generator answers: candidate lists, verification
//! decisions, property sets, and the milestone text list.

use atlas_agents::decisions::{ConceptAction, StepUtils};
use atlas_agents::json::JsonValue;
use atlas_agents::steps::{
    parse_knowledge_properties, parse_milestone_concept_list, parse_skill_properties,
    parse_trait_properties,
};
use atlas_agents::text::{parse_i64_dec, score_to_dec, u64_to_dec};

#[test]
fn concept_list_plain_array() {
    let r = StepUtils::parse_concept_list(r#"["Opening Theory", "Endgame Theory"]"#).unwrap();
    assert_eq!(r, vec!["Opening Theory".to_string(), "Endgame Theory".to_string()]);
}

#[test]
fn concept_list_embedded_in_prose() {
    let text = "Here are the concepts:\n[\"Tactics\", \"Strategy\"]\nHope that helps!";
    let r = StepUtils::parse_concept_list(text).unwrap();
    assert_eq!(r, vec!["Tactics".to_string(), "Strategy".to_string()]);
}

#[test]
fn concept_list_escapes() {
    let r = StepUtils::parse_concept_list(r#"["Bishop \"Pair\"", "Rook\nLift"]"#).unwrap();
    assert_eq!(r, vec!["Bishop \"Pair\"".to_string(), "Rook\nLift".to_string()]);
}

#[test]
fn concept_list_empty_array_is_an_error() {
    assert!(StepUtils::parse_concept_list("[]").is_err());
}

#[test]
fn concept_list_no_array_is_an_error() {
    assert!(StepUtils::parse_concept_list("no structured data here").is_err());
}

#[test]
fn concept_list_non_string_element_is_an_error() {
    assert!(StepUtils::parse_concept_list(r#"["A", 3]"#).is_err());
}

#[test]
fn verification_use_existing() {
    let resp = r#"{"decision": "use_existing", "existing_node_name": "Opening Theory", "reason": "same idea"}"#;
    let r = StepUtils::parse_verification_response(resp, "Chess Openings").unwrap();
    assert_eq!(r.name, "Chess Openings");
    match r.action {
        ConceptAction::UseExisting { element_id } => assert_eq!(element_id, "Opening Theory"),
        _ => panic!("expected use_existing"),
    }
}

#[test]
fn verification_use_existing_without_name_is_an_error() {
    let resp = r#"{"decision": "use_existing", "existing_node_name": "null"}"#;
    assert!(StepUtils::parse_verification_response(resp, "X").is_err());
}

#[test]
fn verification_create_new() {
    let resp = r#"{"decision": "create_new", "existing_node_name": null}"#;
    let r = StepUtils::parse_verification_response(resp, "Endgame Theory").unwrap();
    assert!(matches!(r.action, ConceptAction::CreateNew));
}

#[test]
fn verification_generalize_prefers_suggested_target() {
    let resp = r#"{"decision": "create_and_generalize", "existing_node_name": "Old", "suggested_target": "Strategic Thinking"}"#;
    let r = StepUtils::parse_verification_response(resp, "Chess Strategy").unwrap();
    match r.action {
        ConceptAction::CreateAndGeneralize {
            generalizes_to_id,
            generalizes_to_name,
            needs_creation,
        } => {
            assert_eq!(generalizes_to_id, "");
            assert_eq!(generalizes_to_name, "Strategic Thinking");
            assert!(!needs_creation);
        },
        _ => panic!("expected create_and_generalize"),
    }
}

#[test]
fn verification_generalize_falls_back_to_listed_name() {
    let resp = r#"{"decision": "create_and_generalize", "existing_node_name": "Pattern Recognition", "suggested_target": ""}"#;
    let r = StepUtils::parse_verification_response(resp, "Chess Vision").unwrap();
    match r.action {
        ConceptAction::CreateAndGeneralize { generalizes_to_name, .. } => {
            assert_eq!(generalizes_to_name, "Pattern Recognition");
        },
        _ => panic!("expected create_and_generalize"),
    }
}

#[test]
fn verification_unknown_decision_is_an_error() {
    let resp = r#"{"decision": "merge_both"}"#;
    assert!(StepUtils::parse_verification_response(resp, "X").is_err());
}

#[test]
fn verification_missing_decision_is_an_error() {
    assert!(StepUtils::parse_verification_response(r#"{"reason": "because"}"#, "X").is_err());
}

#[test]
fn knowledge_properties_take_defaults() {
    let resp = r#"{"name": "Opening Theory", "description": "How games begin"}"#;
    let p = parse_knowledge_properties(resp, "fallback").unwrap();
    assert_eq!(p.name, "Opening Theory");
    assert_eq!(p.description, "How games begin");
    assert_eq!(p.how_to_learn, "");
    assert_eq!(p.remember_level, "");
    assert_eq!(p.create_level, "");
}

#[test]
fn knowledge_properties_name_falls_back_to_concept() {
    let p = parse_knowledge_properties(r#"{"description": "d"}"#, "Endgame Theory").unwrap();
    assert_eq!(p.name, "Endgame Theory");
}

#[test]
fn knowledge_properties_without_object_is_an_error() {
    assert!(parse_knowledge_properties("plain prose", "X").is_err());
}

#[test]
fn skill_and_trait_properties_parse() {
    let p = parse_skill_properties(
        r#"{"name": "Calculation", "how_to_develop": "practice", "expert_level": "deep"}"#,
        "Calculation",
    )
    .unwrap();
    assert_eq!(p.how_to_develop, "practice");
    assert_eq!(p.expert_level, "deep");
    assert_eq!(p.novice_level, "");
    let t = parse_trait_properties(
        r#"{"name": "Patience", "measurement_criteria": "bands"}"#,
        "Patience",
    )
    .unwrap();
    assert_eq!(t.measurement_criteria, "bands");
}

#[test]
fn milestone_list_bullets_and_numbers() {
    let text = "Here you go:\n- Win First Tournament\n* Reach 2000 ELO\n1. Defeat a Master\nnot a list line\n2.   Publish a Game   \n";
    let r = parse_milestone_concept_list(text).unwrap();
    assert_eq!(
        r,
        vec![
            "Win First Tournament".to_string(),
            "Reach 2000 ELO".to_string(),
            "Defeat a Master".to_string(),
            "Publish a Game".to_string(),
        ],
    );
}

#[test]
fn milestone_list_empty_is_an_error() {
    assert!(parse_milestone_concept_list("no items at all").is_err());
    assert!(parse_milestone_concept_list("- \n3\n").is_err());
}

#[test]
fn json_value_lookups() {
    let doc = atlas_agents::json::parse_object_span(
        r#"noise {"a": "x", "n": -42, "inner": [{"k": "v"}]} trailing"#,
    )
    .unwrap();
    assert_eq!(doc.get_text("a").unwrap(), "x");
    assert_eq!(doc.get_int("n").unwrap(), -42);
    assert!(doc.get_text("n").is_none());
    assert!(doc.get_text("missing").is_none());
    let arr = doc.get_arr("inner").unwrap();
    assert_eq!(arr.len(), 1);
    match &arr[0] {
        JsonValue::Obj(fields) => assert_eq!(fields.len(), 1),
        _ => panic!("expected an object element"),
    }
}

#[test]
fn unsupported_escapes_and_oversized_integers_are_refused() {
    // the grammar takes only the single-character escapes
    assert!(StepUtils::parse_concept_list(r#"["\u0041"]"#).is_err());
    // integer literals are capped well below overflow
    assert!(atlas_agents::json::parse_object_span(r#"{"n": 123456789012345678901}"#).is_none());
    assert_eq!(parse_i64_dec("123456789012345678901"), None);
}

#[test]
fn number_rendering_and_parsing() {
    assert_eq!(u64_to_dec(0), "0");
    assert_eq!(u64_to_dec(42), "42");
    assert_eq!(u64_to_dec(90187), "90187");
    assert_eq!(score_to_dec(87), "0.87");
    assert_eq!(score_to_dec(100), "1.00");
    assert_eq!(score_to_dec(5), "0.05");
    assert_eq!(parse_i64_dec("60"), Some(60));
    assert_eq!(parse_i64_dec("-7"), Some(-7));
    assert_eq!(parse_i64_dec(""), None);
    assert_eq!(parse_i64_dec("6a"), None);
    assert_eq!(parse_i64_dec("Novice"), None);
}

//! End-to-end scenarios of the orchestrated pipeline, with canned
//! generator answers and similarity results in place of the outside
//! collaborators.

use atlas_agents::agents::SseEvent;
use atlas_agents::decisions::{ConceptAction, SimilarNodeResult, StepUtils, VerifiedConcept};
use atlas_agents::models::CreatedNode;
use atlas_agents::orchestrator::{
    check_domain_exists, OrchestratorRun, RunPhase, StartOutcome,
};
use atlas_agents::steps::{
    count_targets_needing_creation, created_from_plan, generalization_links, mark_target_created,
    plan_concept_nodes, resolve_target_from_search, NodePlan,
};

fn sim(name: &str, id: &str, score: u32) -> SimilarNodeResult {
    SimilarNodeResult {
        name: name.to_string(),
        description: None,
        id: id.to_string(),
        score,
    }
}

fn started(domain: &str) -> OrchestratorRun {
    match OrchestratorRun::start_run(domain, None, &vec![]) {
        StartOutcome::Started { run, event } => {
            match event {
                SseEvent::Started { domain_name, total_agents } => {
                    assert_eq!(domain_name, domain);
                    assert_eq!(total_agents, 7);
                },
                _ => panic!("expected a started event"),
            }
            run
        },
        StartOutcome::Blocked { .. } => panic!("an empty store never blocks"),
    }
}

/// Drive the domain step with one created root and no levels.
fn run_domain_step(run: &mut OrchestratorRun) {
    let ev = run.begin_step();
    match ev {
        SseEvent::AgentStarted { agent_number, agent_name, .. } => {
            assert_eq!(agent_number, 1);
            assert_eq!(agent_name, "Domain Architect");
        },
        _ => panic!("expected an agent-started event"),
    }
    let domain = run.context.domain_name.clone();
    run.context.set_domain(CreatedNode::new(domain, "d1".to_string(), "Domain".to_string()));
    let ev = run.complete_step();
    match ev {
        SseEvent::AgentCompleted { nodes_created, nodes_reused, .. } => {
            assert_eq!(nodes_created, 1);
            assert_eq!(nodes_reused, 0);
        },
        _ => panic!("expected an agent-completed event"),
    }
}

#[test]
fn precheck_blocks_similar_domain() {
    // a domain-name similarity at the threshold blocks the run before
    // any write: exactly one domain-exists event, never a started event
    let similar = vec![sim("Chess Mastery", "d9", 85)];
    assert_eq!(check_domain_exists(&similar).unwrap(), "Chess Mastery");
    match OrchestratorRun::start_run("Chess", None, &similar) {
        StartOutcome::Blocked { event, error } => {
            match event {
                SseEvent::DomainExists { requested_name, existing_domain } => {
                    assert_eq!(requested_name, "Chess");
                    assert_eq!(existing_domain, "Chess Mastery");
                },
                _ => panic!("expected a domain-exists event"),
            }
            assert_eq!(
                error,
                "A similar domain 'Chess Mastery' already exists. Please choose a different name.",
            );
        },
        StartOutcome::Started { .. } => panic!("the run must be blocked"),
    }
    // below the threshold the run starts
    assert!(check_domain_exists(&vec![sim("Chess Mastery", "d9", 84)]).is_none());
}

#[test]
fn fail_fast_stops_the_run() {
    let mut run = started("Chess");
    run_domain_step(&mut run);
    // the knowledge step begins, then its generator call fails
    let ev = run.begin_step();
    match ev {
        SseEvent::AgentStarted { agent_number, .. } => assert_eq!(agent_number, 2),
        _ => panic!("expected an agent-started event"),
    }
    let (failed_ev, run_failed_ev) = run.fail_step("LLM error: connection refused");
    match failed_ev {
        SseEvent::AgentFailed { error, .. } => {
            assert_eq!(error, "LLM error: connection refused")
        },
        _ => panic!("expected an agent-failed event"),
    }
    match run_failed_ev {
        SseEvent::Failed { error, last_agent, nodes_created_before_failure } => {
            assert_eq!(error, "LLM error: connection refused");
            assert!(last_agent.is_some());
            // the partial registry still carries the domain root
            let snapshot = nodes_created_before_failure.unwrap();
            assert_eq!(snapshot.domain.unwrap().element_id, "d1");
        },
        _ => panic!("expected a run-failed event"),
    }
    // the machine is terminal: steps three to seven can never start
    assert_eq!(run.phase, RunPhase::Failed);
    assert_eq!(run.step_index, 1);
}

/// Drive one knowledge pass with the given candidate answers and
/// similarity results, returning the step's completion event.
fn run_knowledge_step(
    run: &mut OrchestratorRun,
    list_answer: &str,
    similar_for: impl Fn(&str) -> Vec<SimilarNodeResult>,
) -> SseEvent {
    run.begin_step();
    let concepts = StepUtils::parse_concept_list(list_answer).unwrap();
    let mut verified: Vec<VerifiedConcept> = Vec::new();
    for concept in &concepts {
        let similar = similar_for(concept);
        let decision = StepUtils::determine_action_by_score(concept, &similar)
            .expect("these scenarios never need verification");
        verified.push(decision);
    }
    // property generation: one canned answer per concept to create
    let mut prepared = 0;
    for v in &verified {
        if !matches!(v.action, ConceptAction::UseExisting { .. }) {
            prepared += 1;
        }
    }
    let plan = plan_concept_nodes(&verified, prepared).unwrap();
    // the store returns one id per write, in order
    let mut ids: Vec<String> = Vec::new();
    let mut n = 0;
    for p in &plan {
        if matches!(p, NodePlan::Create { .. }) {
            ids.push(format!("k{}", n));
            n += 1;
        }
    }
    let created = created_from_plan(&plan, &ids, "Knowledge").unwrap();
    for node in created {
        run.context.add_knowledge(node);
    }
    run.complete_step()
}

#[test]
fn chess_knowledge_both_created() {
    // an empty store: both candidates resolve to creation
    let mut run = started("Chess");
    run_domain_step(&mut run);
    let ev = run_knowledge_step(
        &mut run,
        r#"["Opening Theory", "Endgame Theory"]"#,
        |_| vec![],
    );
    match ev {
        SseEvent::AgentCompleted { nodes_created, nodes_reused, .. } => {
            assert_eq!(nodes_created, 2);
            assert_eq!(nodes_reused, 0);
        },
        _ => panic!("expected an agent-completed event"),
    }
    assert_eq!(run.context.domain_graph.knowledge.len(), 2);
    assert_eq!(run.context.domain_graph.knowledge[0].name, "Opening Theory");
    assert!(!run.context.domain_graph.knowledge[0].was_reused);
}

#[test]
fn chess_knowledge_one_reused() {
    // the first candidate hits an existing node at 0.97: reuse it
    let mut run = started("Chess");
    run_domain_step(&mut run);
    let ev = run_knowledge_step(
        &mut run,
        r#"["Opening Theory", "Endgame Theory"]"#,
        |concept| {
            if concept == "Opening Theory" {
                vec![sim("Opening Theory", "existing-1", 97)]
            } else {
                vec![]
            }
        },
    );
    match ev {
        SseEvent::AgentCompleted { nodes_created, nodes_reused, .. } => {
            assert_eq!(nodes_created, 1);
            assert_eq!(nodes_reused, 1);
        },
        _ => panic!("expected an agent-completed event"),
    }
    let reused = &run.context.domain_graph.knowledge[0];
    assert!(reused.was_reused);
    assert_eq!(reused.element_id, "existing-1");
}

#[test]
fn generalization_target_created_before_specific_node() {
    // a candidate generalizes to a target that does not exist yet: the
    // target is created first, then the specific node, then one edge
    let mut run = started("Chess");
    run_domain_step(&mut run);
    run.begin_step();
    let concept = "Chess Strategy";
    // verification answered create_and_generalize; the target name is
    // not among the similarity results, and a fresh search finds nothing
    let decision = resolve_target_from_search(concept, "Strategic Thinking", &vec![]);
    let mut verified = vec![decision];
    match &verified[0].action {
        ConceptAction::CreateAndGeneralize { generalizes_to_id, needs_creation, .. } => {
            assert_eq!(generalizes_to_id, "");
            assert!(*needs_creation);
        },
        _ => panic!("expected create_and_generalize"),
    }
    assert_eq!(count_targets_needing_creation(&verified), 1);
    // the generic target node is written first and registered
    run.context.add_knowledge(CreatedNode::new(
        "Strategic Thinking".to_string(),
        "g1".to_string(),
        "Knowledge".to_string(),
    ));
    mark_target_created(&mut verified[0], "g1");
    assert_eq!(count_targets_needing_creation(&verified), 0);
    // then the domain-specific node
    let plan = plan_concept_nodes(&verified, 1).unwrap();
    let created = created_from_plan(&plan, &vec!["k1".to_string()], "Knowledge").unwrap();
    assert_eq!(created.len(), 1);
    assert_eq!(created[0].name, "Chess Strategy");
    for node in &created {
        run.context.add_knowledge(node.clone());
    }
    // and exactly one generalization edge from the new node to the target
    let links = generalization_links(&verified, &created, "Knowledge").unwrap();
    assert_eq!(links.len(), 1);
    let (req, link) = &links[0];
    assert_eq!(req.source_id, "k1");
    assert_eq!(req.target_id, "g1");
    assert_eq!(req.relationship_type, "GENERALIZES_TO");
    assert_eq!(link.general_name, "Strategic Thinking");
    run.context.add_generalization(link.clone());
    run.complete_step();
    assert_eq!(run.context.domain_graph.generalizations.len(), 1);
}

#[test]
fn full_run_completes_with_statistics() {
    let mut run = started("Chess");
    run_domain_step(&mut run);
    run_knowledge_step(&mut run, r#"["Opening Theory"]"#, |_| vec![]);
    // skill, trait, milestone, level distributor, prerequisite mapper:
    // nothing found, nothing created
    for expected_number in 3..=7u8 {
        let ev = run.begin_step();
        match ev {
            SseEvent::AgentStarted { agent_number, .. } => {
                assert_eq!(agent_number, expected_number)
            },
            _ => panic!("expected an agent-started event"),
        }
        run.complete_step();
    }
    let ev = run.finish(1234);
    match ev {
        SseEvent::Completed { domain_name, statistics } => {
            assert_eq!(domain_name, "Chess");
            assert_eq!(statistics.knowledge_created, 1);
            assert_eq!(statistics.skills_created, 0);
            assert_eq!(statistics.nodes_reused, 0);
            assert_eq!(statistics.generation_time_ms, 1234);
        },
        _ => panic!("expected a completed event"),
    }
    let result = run.result();
    assert_eq!(result.domain_name, "Chess");
    assert_eq!(result.domain_element_id, "d1");
    assert_eq!(result.domain_graph.knowledge.len(), 1);
}

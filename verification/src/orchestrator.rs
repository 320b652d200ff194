//! The orchestrator: a pre-check against existing domains, then the
//! fixed seven-step sequence run strictly in order against one shared
//! context, fail-fast.  The machine below owns the run state; its
//! caller performs each step's outside calls and reports the outcome,
//! and forwards the returned events to the progress stream.

use vstd::prelude::*;

use crate::agents::{AgentContext, AgentType, DomainGenerationResult, DomainStatistics, SseEvent};
use crate::decisions::{SimilarNodeResult, DOMAIN_SIMILARITY_THRESHOLD};
use crate::models::count_flag;

verus! {

/// Whether a similarity answer for the requested domain name blocks
/// the run: a top score at or above the domain threshold.
pub open spec fn spec_domain_blocked(similar: Seq<SimilarNodeResult>) -> bool {
    similar.len() > 0 && similar[0].score >= DOMAIN_SIMILARITY_THRESHOLD
}

/// The name of the existing domain that blocks the run, if the top
/// similarity reaches the threshold.
pub fn check_domain_exists(similar: &Vec<SimilarNodeResult>) -> (r: Option<String>)
    ensures
        match r {
            Some(name) => spec_domain_blocked(similar@) && name@ == similar@[0].name@,
            None => !spec_domain_blocked(similar@),
        },
{
    if similar.len() > 0 && similar[0].score >= DOMAIN_SIMILARITY_THRESHOLD {
        Some(similar[0].name.clone())
    } else {
        None
    }
}

/// Where a run stands: waiting between steps, inside a step, failed
/// for good, or completed.
#[derive(Clone, Copy, Debug, PartialEq, Eq, Structural)]
pub enum RunPhase {
    Idle,
    StepRunning,
    Failed,
    Done,
}

/// The number of steps in the fixed sequence.
pub const TOTAL_STEPS: usize = 7;

/// One orchestration run: the shared context, the statistics, and the
/// position in the fixed step sequence.
#[derive(Debug)]
pub struct OrchestratorRun {
    pub context: AgentContext,
    pub stats: DomainStatistics,
    pub step_index: usize,
    pub phase: RunPhase,
}

/// How a run starts: blocked by an existing domain before any write,
/// or under way with its first event.
#[derive(Debug)]
pub enum StartOutcome {
    Blocked { event: SseEvent, error: String },
    Started { run: OrchestratorRun, event: SseEvent },
}

impl OrchestratorRun {
    /// The step the machine stands at.
    pub open spec fn spec_current_agent(self) -> AgentType {
        AgentType::spec_all_agents()[self.step_index as int]
    }

    /// A run that can go nowhere any more.
    pub open spec fn terminal(self) -> bool {
        self.phase is Failed || self.phase is Done
    }

    /// Whether the next step may start.
    pub open spec fn can_begin_step(self) -> bool {
        self.phase is Idle && self.step_index < TOTAL_STEPS
    }
}

/// Once a step has failed the run is terminal: no later step can
/// start, finish, or complete — the remaining steps never execute.
pub proof fn lemma_fail_fast(run: OrchestratorRun)
    requires
        run.phase is Failed,
    ensures
        run.terminal(),
        !run.can_begin_step(),
{
}

/// The created/reused node counts a step reports: the domain step
/// counts the root and the levels (never reused), the four generator
/// steps count their collection by reuse flag, and the relationship
/// steps count no nodes.
pub open spec fn spec_agent_counts(agent: AgentType, ctx: AgentContext) -> (int, int) {
    match agent {
        AgentType::DomainArchitect => (
            ctx.domain_graph.domain_levels@.len() + (if ctx.domain_graph.domain is Some {
                1int
            } else {
                0int
            }),
            0int,
        ),
        AgentType::KnowledgeGenerator => (
            count_flag(ctx.domain_graph.knowledge@, false) as int,
            count_flag(ctx.domain_graph.knowledge@, true) as int,
        ),
        AgentType::SkillGenerator => (
            count_flag(ctx.domain_graph.skills@, false) as int,
            count_flag(ctx.domain_graph.skills@, true) as int,
        ),
        AgentType::TraitGenerator => (
            count_flag(ctx.domain_graph.traits@, false) as int,
            count_flag(ctx.domain_graph.traits@, true) as int,
        ),
        AgentType::MilestoneGenerator => (
            count_flag(ctx.domain_graph.milestones@, false) as int,
            count_flag(ctx.domain_graph.milestones@, true) as int,
        ),
        AgentType::LevelDistributor => (0int, 0int),
        AgentType::PrerequisiteMapper => (0int, 0int),
    }
}

/// The step at a position of the fixed sequence.
fn agent_at(i: usize) -> (r: AgentType)
    requires
        i < TOTAL_STEPS,
    ensures
        r == AgentType::spec_all_agents()[i as int],
{
    if i == 0 {
        AgentType::DomainArchitect
    } else if i == 1 {
        AgentType::KnowledgeGenerator
    } else if i == 2 {
        AgentType::SkillGenerator
    } else if i == 3 {
        AgentType::TraitGenerator
    } else if i == 4 {
        AgentType::MilestoneGenerator
    } else if i == 5 {
        AgentType::LevelDistributor
    } else {
        AgentType::PrerequisiteMapper
    }
}

/// Count the nodes a step reports as created and reused.
pub fn count_agent_nodes(agent: AgentType, context: &AgentContext) -> (r: (usize, usize))
    requires
        context.domain_graph.domain_levels@.len() < usize::MAX,
    ensures
        (r.0 as int, r.1 as int) == spec_agent_counts(agent, *context),
{
    match agent {
        AgentType::DomainArchitect => {
            let mut count = context.domain_graph.domain_levels.len();
            if context.domain_graph.domain.is_some() {
                count = count + 1;
            }
            (count, 0)
        },
        AgentType::KnowledgeGenerator => (
            crate::models::count_flag_in(&context.domain_graph.knowledge, false),
            crate::models::count_flag_in(&context.domain_graph.knowledge, true),
        ),
        AgentType::SkillGenerator => (
            crate::models::count_flag_in(&context.domain_graph.skills, false),
            crate::models::count_flag_in(&context.domain_graph.skills, true),
        ),
        AgentType::TraitGenerator => (
            crate::models::count_flag_in(&context.domain_graph.traits, false),
            crate::models::count_flag_in(&context.domain_graph.traits, true),
        ),
        AgentType::MilestoneGenerator => (
            crate::models::count_flag_in(&context.domain_graph.milestones, false),
            crate::models::count_flag_in(&context.domain_graph.milestones, true),
        ),
        AgentType::LevelDistributor => (0, 0),
        AgentType::PrerequisiteMapper => (0, 0),
    }
}

impl OrchestratorRun {
    /// Run the pre-check and, when it passes, open the run: the one
    /// global guard against duplicate domains.  A blocked run produces
    /// exactly the domain-exists event and an error, and no machine —
    /// no started or step event can ever follow.
    pub fn start_run(
        domain_name: &str,
        description: Option<String>,
        similar: &Vec<SimilarNodeResult>,
    ) -> (r: StartOutcome)
        ensures
            spec_domain_blocked(similar@) ==> (r matches StartOutcome::Blocked { event, error }
                && (event matches SseEvent::DomainExists { requested_name, existing_domain }
                && requested_name@ == domain_name@ && existing_domain@ == similar@[0].name@)
                && error@ == "A similar domain '"@ + similar@[0].name@
                + "' already exists. Please choose a different name."@),
            !spec_domain_blocked(similar@) ==> (r matches StartOutcome::Started { run, event } && {
                &&& run.context.domain_name@ == domain_name@
                &&& run.context.description == description
                &&& run.context.domain_element_id is None
                &&& run.context.domain_graph.domain is None
                &&& run.context.domain_graph.domain_levels@.len() == 0
                &&& run.context.domain_graph.knowledge@.len() == 0
                &&& run.context.domain_graph.skills@.len() == 0
                &&& run.context.domain_graph.traits@.len() == 0
                &&& run.context.domain_graph.milestones@.len() == 0
                &&& run.context.domain_graph.level_requirements@.len() == 0
                &&& run.context.domain_graph.generalizations@.len() == 0
                &&& run.context.domain_graph.prerequisites@.len() == 0
                &&& run.context.domain_graph.wf()
                &&& run.stats.domain_levels_created == 0
                &&& run.stats.knowledge_created == 0
                &&& run.stats.skills_created == 0
                &&& run.stats.traits_created == 0
                &&& run.stats.milestones_created == 0
                &&& run.stats.relationships_created == 0
                &&& run.stats.nodes_reused == 0
                &&& run.stats.generation_time_ms == 0
                &&& run.step_index == 0
                &&& run.phase is Idle
                &&& (event matches SseEvent::Started { domain_name: dn, total_agents }
                    && dn@ == domain_name@ && total_agents == 7u8)
            }),
    {
        match check_domain_exists(similar) {
            Some(existing) => {
                let mut error = String::from_str("A similar domain '");
                error.append(existing.as_str());
                error.append("' already exists. Please choose a different name.");
                StartOutcome::Blocked {
                    event: SseEvent::DomainExists {
                        requested_name: String::from_str(domain_name),
                        existing_domain: existing,
                    },
                    error,
                }
            },
            None => {
                let context = AgentContext::new(String::from_str(domain_name), description);
                StartOutcome::Started {
                    run: OrchestratorRun {
                        context,
                        stats: DomainStatistics::default(),
                        step_index: 0,
                        phase: RunPhase::Idle,
                    },
                    event: SseEvent::Started {
                        domain_name: String::from_str(domain_name),
                        total_agents: 7,
                    },
                }
            },
        }
    }

    /// Enter the next step of the fixed sequence.
    pub fn begin_step(&mut self) -> (r: SseEvent)
        requires
            old(self).can_begin_step(),
        ensures
            final(self).phase is StepRunning,
            final(self).step_index == old(self).step_index,
            final(self).context == old(self).context,
            final(self).stats == old(self).stats,
            r matches SseEvent::AgentStarted { agent, agent_number, agent_name } && agent == old(
                self,
            ).spec_current_agent() && agent_number == old(self).step_index + 1 && agent_name@
                == old(self).spec_current_agent().spec_display_name(),
    {
        let agent = agent_at(self.step_index);
        self.phase = RunPhase::StepRunning;
        SseEvent::AgentStarted {
            agent,
            agent_number: (self.step_index + 1) as u8,
            agent_name: String::from_str(agent.display_name()),
        }
    }

    /// Leave the current step successfully: update the statistics from
    /// the registry and report the step's created and reused counts.
    pub fn complete_step(&mut self) -> (r: SseEvent)
        requires
            old(self).phase is StepRunning,
            old(self).step_index < TOTAL_STEPS,
            old(self).context.domain_graph.domain_levels@.len() < usize::MAX,
        ensures
            final(self).phase is Idle,
            final(self).step_index == old(self).step_index + 1,
            final(self).context == old(self).context,
            r matches SseEvent::AgentCompleted { agent, nodes_created, nodes_reused } && agent
                == old(self).spec_current_agent() && (nodes_created as int, nodes_reused as int)
                == spec_agent_counts(old(self).spec_current_agent(), old(self).context),
            final(self).stats == spec_stats_after(
                old(self).stats,
                old(self).spec_current_agent(),
                old(self).context,
            ),
    {
        let agent = agent_at(self.step_index);
        match agent {
            AgentType::DomainArchitect => {
                self.stats.domain_levels_created = self.context.domain_graph.domain_levels.len();
            },
            AgentType::KnowledgeGenerator => {
                self.stats.knowledge_created = crate::models::count_flag_in(
                    &self.context.domain_graph.knowledge,
                    false,
                );
            },
            AgentType::SkillGenerator => {
                self.stats.skills_created = crate::models::count_flag_in(
                    &self.context.domain_graph.skills,
                    false,
                );
            },
            AgentType::TraitGenerator => {
                self.stats.traits_created = crate::models::count_flag_in(
                    &self.context.domain_graph.traits,
                    false,
                );
            },
            AgentType::MilestoneGenerator => {
                self.stats.milestones_created = crate::models::count_flag_in(
                    &self.context.domain_graph.milestones,
                    false,
                );
            },
            AgentType::LevelDistributor => {},
            AgentType::PrerequisiteMapper => {},
        }
        let (created, reused) = count_agent_nodes(agent, &self.context);
        self.phase = RunPhase::Idle;
        self.step_index = self.step_index + 1;
        SseEvent::AgentCompleted { agent, nodes_created: created, nodes_reused: reused }
    }

    /// Leave the current step on an error: the run is terminal, and
    /// the failure event carries the registry as collected so far.
    pub fn fail_step(&mut self, error: &str) -> (r: (SseEvent, SseEvent))
        requires
            old(self).phase is StepRunning,
            old(self).step_index < TOTAL_STEPS,
        ensures
            final(self).phase is Failed,
            final(self).terminal(),
            final(self).step_index == old(self).step_index,
            final(self).context == old(self).context,
            final(self).stats == old(self).stats,
            r.0 matches SseEvent::AgentFailed { agent, error: e } && agent == old(
                self,
            ).spec_current_agent() && e@ == error@,
            r.1 matches SseEvent::Failed { error: e, last_agent, nodes_created_before_failure }
                && e@ == error@ && last_agent == Some(old(self).spec_current_agent()) && (
            nodes_created_before_failure matches Some(snap) && snap.domain == old(
                self,
            ).context.domain_graph.domain && snap.domain_levels@ == old(
                self,
            ).context.domain_graph.domain_levels@ && snap.knowledge@ == old(
                self,
            ).context.domain_graph.knowledge@ && snap.skills@ == old(
                self,
            ).context.domain_graph.skills@ && snap.traits@ == old(
                self,
            ).context.domain_graph.traits@ && snap.milestones@ == old(
                self,
            ).context.domain_graph.milestones@),
    {
        let agent = agent_at(self.step_index);
        self.phase = RunPhase::Failed;
        (
            SseEvent::AgentFailed { agent, error: String::from_str(error) },
            SseEvent::Failed {
                error: String::from_str(error),
                last_agent: Some(agent),
                nodes_created_before_failure: Some(self.context.domain_graph.clone()),
            },
        )
    }

    /// Close a run whose seven steps all completed: fix the elapsed
    /// time and the total of reused nodes, and report completion.
    pub fn finish(&mut self, elapsed_ms: u64) -> (r: SseEvent)
        requires
            old(self).phase is Idle,
            old(self).step_index == TOTAL_STEPS,
        ensures
            final(self).phase is Done,
            final(self).terminal(),
            final(self).context == old(self).context,
            final(self).stats.generation_time_ms == elapsed_ms,
            final(self).stats.nodes_reused == count_flag(
                old(self).context.domain_graph.all_nodes_seq(),
                true,
            ),
            final(self).stats.domain_levels_created == old(self).stats.domain_levels_created,
            final(self).stats.knowledge_created == old(self).stats.knowledge_created,
            final(self).stats.skills_created == old(self).stats.skills_created,
            final(self).stats.traits_created == old(self).stats.traits_created,
            final(self).stats.milestones_created == old(self).stats.milestones_created,
            final(self).stats.relationships_created == old(self).stats.relationships_created,
            r matches SseEvent::Completed { domain_name, statistics } && domain_name@ == old(
                self,
            ).context.domain_name@ && statistics == final(self).stats,
    {
        self.stats.generation_time_ms = elapsed_ms;
        self.stats.nodes_reused = self.context.domain_graph.count_reused();
        self.phase = RunPhase::Done;
        SseEvent::Completed {
            domain_name: self.context.domain_name.clone(),
            statistics: self.stats,
        }
    }

    /// The result a finished run hands back.
    pub fn result(&self) -> (r: DomainGenerationResult)
        requires
            self.phase is Done,
        ensures
            r.domain_name@ == self.context.domain_name@,
            self.context.domain_element_id matches Some(id) ==> r.domain_element_id@ == id@,
            self.context.domain_element_id is None ==> r.domain_element_id@.len() == 0,
            r.statistics == self.stats,
            r.domain_graph.domain == self.context.domain_graph.domain,
            r.domain_graph.domain_levels@ == self.context.domain_graph.domain_levels@,
            r.domain_graph.knowledge@ == self.context.domain_graph.knowledge@,
            r.domain_graph.skills@ == self.context.domain_graph.skills@,
            r.domain_graph.traits@ == self.context.domain_graph.traits@,
            r.domain_graph.milestones@ == self.context.domain_graph.milestones@,
            r.domain_graph.level_requirements@ == self.context.domain_graph.level_requirements@,
            r.domain_graph.generalizations@ == self.context.domain_graph.generalizations@,
            r.domain_graph.prerequisites@ == self.context.domain_graph.prerequisites@,
    {
        DomainGenerationResult {
            domain_name: self.context.domain_name.clone(),
            domain_element_id: match &self.context.domain_element_id {
                Some(id) => id.clone(),
                None => String::new(),
            },
            domain_graph: self.context.domain_graph.clone(),
            statistics: self.stats,
        }
    }
}

/// The statistics after one step completes: the step's own counter is
/// set from the registry, everything else stays.
pub open spec fn spec_stats_after(
    stats: DomainStatistics,
    agent: AgentType,
    ctx: AgentContext,
) -> DomainStatistics {
    match agent {
        AgentType::DomainArchitect => DomainStatistics {
            domain_levels_created: ctx.domain_graph.domain_levels@.len() as usize,
            ..stats
        },
        AgentType::KnowledgeGenerator => DomainStatistics {
            knowledge_created: count_flag(ctx.domain_graph.knowledge@, false) as usize,
            ..stats
        },
        AgentType::SkillGenerator => DomainStatistics {
            skills_created: count_flag(ctx.domain_graph.skills@, false) as usize,
            ..stats
        },
        AgentType::TraitGenerator => DomainStatistics {
            traits_created: count_flag(ctx.domain_graph.traits@, false) as usize,
            ..stats
        },
        AgentType::MilestoneGenerator => DomainStatistics {
            milestones_created: count_flag(ctx.domain_graph.milestones@, false) as usize,
            ..stats
        },
        AgentType::LevelDistributor => stats,
        AgentType::PrerequisiteMapper => stats,
    }
}

} // verus!

//! Verified core of a knowledge-graph generation pipeline.
//!
//! The library turns a natural-language domain name into a plan for a
//! populated knowledge graph: a fixed hierarchy of mastery levels and typed
//! concept nodes (Knowledge, Skill, Trait, Milestone) connected by
//! prerequisite and generalization edges.  Text generation, vector
//! similarity search and the graph store are outside collaborators; this
//! crate holds the decision logic that sits between their calls — parsing
//! model output, similarity triage, the shared generation registry, the
//! per-category generator passes, the relationship steps and the
//! fail-fast orchestrator state machine — and proves its contracts.

pub mod agents;
pub mod architect;
pub mod decisions;
pub mod json;
pub mod llm;
pub mod models;
pub mod orchestrator;
pub mod prompts;
pub mod queries;
pub mod relationships;
pub mod steps;
pub mod text;

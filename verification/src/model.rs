//! Immutable records for runs, jobs and steps, as decoded from a single
//! provider response. Constructed once per invocation and never mutated.

use crate::conclusion::Conclusion;
use vstd::prelude::*;

verus! {

/// The smallest named, ordered unit of work within a job.
#[derive(Debug)]
pub struct Step {
    pub name: String,
    pub status: String,
    pub conclusion: Conclusion,
    /// 1-based position within the job as reported by the provider;
    /// authoritative for log naming, never recomputed from array position.
    pub number: u32,
}

/// A named unit of work within a run, composed of ordered steps.
#[derive(Debug)]
pub struct Job {
    pub name: String,
    pub status: String,
    pub conclusion: Conclusion,
    /// Provider-reported execution order; "first failed step" is defined
    /// over this order.
    pub steps: Vec<Step>,
}

/// One execution of the CI pipeline, with locators to its job listing and
/// its log archive. The locators are opaque: the core passes them through
/// to the transport collaborator and never interprets them.
#[derive(Debug)]
pub struct WorkflowRun {
    pub logs_url: String,
    pub jobs_url: String,
    pub conclusion: Conclusion,
}

/// A run listing. `total_count` is informational only: resolution uses the
/// order of `workflow_runs`, and a mismatch with its length is no error.
#[derive(Debug)]
pub struct WorkflowRuns {
    pub total_count: u32,
    pub workflow_runs: Vec<WorkflowRun>,
}

/// A job listing belonging to one run; `total_count` is informational only.
#[derive(Debug)]
pub struct Jobs {
    pub total_count: u32,
    pub jobs: Vec<Job>,
}

/// Authentication material handed to the transport collaborator.
#[derive(Debug)]
pub struct Config {
    pub auth_token: String,
}

} // verus!

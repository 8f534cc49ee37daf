//! Error taxonomy for the resolution pipeline.
//!
//! Every stage fails fast: the first error encountered is propagated
//! unchanged to the caller, with no retry and no fallback value.

use vstd::prelude::*;

verus! {

/// A conclusion token that is not one of the four canonical strings.
#[derive(Debug)]
pub struct UnknownConclusionError {
    pub details: String,
}

impl UnknownConclusionError {
    /// Wraps the rejected token verbatim.
    pub fn new(msg: &str) -> (e: UnknownConclusionError)
        ensures
            e.details@ == msg@,
    {
        UnknownConclusionError { details: msg.to_owned() }
    }
}

/// The provider rejected the request for permission reasons; `details`
/// carries the provider's diagnostic text verbatim.
#[derive(Debug)]
pub struct AccessForbiddenError {
    pub details: String,
}

impl AccessForbiddenError {
    /// Wraps the provider's diagnostic text verbatim.
    pub fn new(msg: &str) -> (e: AccessForbiddenError)
        ensures
            e.details@ == msg@,
    {
        AccessForbiddenError { details: msg.to_owned() }
    }
}

/// The provider answered with something other than the expected
/// permission-denied or redirect shapes; `details` carries its text.
#[derive(Debug)]
pub struct UnexpectedReplyError {
    pub details: String,
}

impl UnexpectedReplyError {
    /// Wraps the provider's diagnostic text verbatim.
    pub fn new(msg: &str) -> (e: UnexpectedReplyError)
        ensures
            e.details@ == msg@,
    {
        UnexpectedReplyError { details: msg.to_owned() }
    }
}

/// Which object an exhaustive scan failed to find.
#[derive(Debug)]
pub enum Missing {
    /// No run in the collection concluded with a failure.
    FailedRun,
    /// No job in the collection concluded with a failure.
    FailedJob,
    /// No step of the selected job concluded with a failure.
    FailedStep,
    /// No archive entry carries exactly this path.
    Entry(String),
}

/// The single structured error a pipeline invocation can end with.
#[derive(Debug)]
pub enum PipelineError {
    /// A conclusion token outside the closed four-value set.
    UnknownConclusion(UnknownConclusionError),
    /// The provider denied access; the body is kept intact.
    AccessForbidden(AccessForbiddenError),
    /// The provider's reply fit neither the success nor the redirect shape.
    UnexpectedReply(UnexpectedReplyError),
    /// An exhaustive scan found no matching element.
    NotFound(Missing),
    /// A network or container-decode failure, passed through opaquely.
    Transport(String),
}

} // verus!

//! The pipeline orchestrator: a strictly sequential state machine.
//!
//! Each stage's output is the next stage's sole input, and any stage
//! failure moves directly to the terminal `Failed` state. The caller owns
//! the transport: it performs the action the orchestrator asks for and
//! hands the reply back as the next event. Stage N's request is never
//! issued before stage N-1 has completed, because each locator is data
//! produced by the previous stage's reply.

use crate::errors::AccessForbiddenError;
use crate::errors::Missing;
use crate::errors::PipelineError;
use crate::errors::UnknownConclusionError;
use crate::errors::UnexpectedReplyError;
use crate::fetcher::FetchReply;
use crate::fetcher::FetchStep;
use crate::fetcher::on_initial_reply;
use crate::fetcher::on_redirect_reply;
use crate::logpath::failed_step_filename;
use crate::logpath::first_failed_step_index;
use crate::logpath::log_path;
use crate::model::Jobs;
use crate::model::WorkflowRuns;
use crate::resolve::first_failed_job;
use crate::resolve::first_failed_job_index;
use crate::resolve::first_failed_run;
use crate::resolve::first_failed_run_index;
use crate::resolve::first_match;
use crate::scanner::entry_decodes;
use crate::scanner::scan_archive;
use crate::scanner::zip_entries_of;
use crate::scanner::zip_parses;
use vstd::prelude::*;

verus! {

/// One reply from the transport collaborator to a structured listing
/// request, already decoded into the domain records.
pub enum ApiReply<T> {
    /// The decoded listing.
    Payload(T),
    /// The provider rejected the request; its diagnostic text.
    Forbidden(String),
    /// The listing carried a conclusion token outside the closed set;
    /// the rejected token, verbatim.
    BadConclusion(String),
    /// A transport or decode failure; its description.
    Failed(String),
}

/// Where the pipeline stands between two suspension points.
pub enum PipelineState {
    /// The run listing has been requested.
    AwaitingRuns,
    /// A run is selected; its job listing has been requested, and its
    /// archive locator is kept for later.
    AwaitingJobs { logs_url: String },
    /// The failure point is known; the archive has been requested.
    AwaitingArchive { target: String },
    /// One redirect hop is being followed for the archive content.
    AwaitingRedirect { target: String },
    /// The matched entry's bytes, ready to hand out.
    Done { log: Vec<u8> },
    /// Terminal failure with the first error encountered.
    Failed { error: PipelineError },
}

/// What the caller is asked to perform next.
pub enum PipelineAction {
    /// Fetch and decode the run listing at this locator.
    FetchRuns(String),
    /// Fetch and decode the job listing at this locator.
    FetchJobs(String),
    /// Request the log archive at this locator, without following
    /// redirects.
    FetchArchive(String),
    /// Fetch the archive content from this redirect location.
    FollowRedirect(String),
}

/// One reply handed back to the orchestrator.
pub enum PipelineEvent {
    /// The run listing reply.
    Runs(ApiReply<WorkflowRuns>),
    /// The job listing reply.
    Jobs(ApiReply<Jobs>),
    /// The provider's first reply to the archive request.
    Archive(FetchReply),
    /// The reply fetched from the redirect location.
    Content(FetchReply),
}

/// The run-listing locator for a repository.
pub open spec fn spec_api_url(repo: Seq<char>) -> Seq<char> {
    "https://api.github.com/repos/"@ + repo + "/actions/runs"@
}

/// Builds the run-listing locator for `repo`.
pub fn make_api_url(repo: &String) -> (r: String)
    ensures
        r@ == spec_api_url(repo@),
{
    String::from_str("https://api.github.com/repos/").concat(repo.as_str()).concat("/actions/runs")
}

/// Whether an event is the reply to the request the state is awaiting.
/// `Done` and `Failed` are terminal: no event fits them.
pub open spec fn event_fits(state: PipelineState, event: PipelineEvent) -> bool {
    match (state, event) {
        (PipelineState::AwaitingRuns, PipelineEvent::Runs(_)) => true,
        (PipelineState::AwaitingJobs { .. }, PipelineEvent::Jobs(_)) => true,
        (PipelineState::AwaitingArchive { .. }, PipelineEvent::Archive(_)) => true,
        (PipelineState::AwaitingRedirect { .. }, PipelineEvent::Content(_)) => true,
        _ => false,
    }
}

/// The transition out of `AwaitingRuns`: the first failed run is selected
/// in listing order, its job listing is requested and its archive locator
/// is kept; when no run failed, or the reply itself failed, the pipeline
/// halts with that error.
pub open spec fn runs_transition(
    reply: ApiReply<WorkflowRuns>,
    r: (PipelineState, Option<PipelineAction>),
) -> bool {
    match reply {
        ApiReply::Payload(runs) => match first_failed_run_index(runs.workflow_runs@) {
            Some(k) => {
                &&& r.0 matches PipelineState::AwaitingJobs { logs_url } && logs_url
                    == runs.workflow_runs@[k].logs_url
                &&& r.1 matches Some(a) && a matches PipelineAction::FetchJobs(u) && u
                    == runs.workflow_runs@[k].jobs_url
            },
            None => r == (
                PipelineState::Failed { error: PipelineError::NotFound(Missing::FailedRun) },
                None::<PipelineAction>,
            ),
        },
        ApiReply::Forbidden(b) => r == (
            PipelineState::Failed {
                error: PipelineError::AccessForbidden(AccessForbiddenError { details: b }),
            },
            None::<PipelineAction>,
        ),
        ApiReply::BadConclusion(t) => r == (
            PipelineState::Failed {
                error: PipelineError::UnknownConclusion(UnknownConclusionError { details: t }),
            },
            None::<PipelineAction>,
        ),
        ApiReply::Failed(msg) => r == (
            PipelineState::Failed { error: PipelineError::Transport(msg) },
            None::<PipelineAction>,
        ),
    }
}

/// The transition out of `AwaitingJobs`: the first failed job is selected
/// in listing order, the path of its first failed step is derived, and
/// the archive is requested at the locator kept from the run; a failed
/// job without a failed step halts with "no failed step", distinguishable
/// from any transport error.
pub open spec fn jobs_transition(
    logs_url: String,
    reply: ApiReply<Jobs>,
    r: (PipelineState, Option<PipelineAction>),
) -> bool {
    match reply {
        ApiReply::Payload(jobs) => match first_failed_job_index(jobs.jobs@) {
            Some(k) => match first_failed_step_index(jobs.jobs@[k].steps@) {
                Some(t) => {
                    &&& r.0 matches PipelineState::AwaitingArchive { target } && target@
                        == log_path(
                        jobs.jobs@[k].name@,
                        jobs.jobs@[k].steps@[t].number,
                        jobs.jobs@[k].steps@[t].name@,
                    )
                    &&& r.1 matches Some(a) && a matches PipelineAction::FetchArchive(u) && u
                        == logs_url
                },
                None => r == (
                    PipelineState::Failed { error: PipelineError::NotFound(Missing::FailedStep) },
                    None::<PipelineAction>,
                ),
            },
            None => r == (
                PipelineState::Failed { error: PipelineError::NotFound(Missing::FailedJob) },
                None::<PipelineAction>,
            ),
        },
        ApiReply::Forbidden(b) => r == (
            PipelineState::Failed {
                error: PipelineError::AccessForbidden(AccessForbiddenError { details: b }),
            },
            None::<PipelineAction>,
        ),
        ApiReply::BadConclusion(t) => r == (
            PipelineState::Failed {
                error: PipelineError::UnknownConclusion(UnknownConclusionError { details: t }),
            },
            None::<PipelineAction>,
        ),
        ApiReply::Failed(msg) => r == (
            PipelineState::Failed { error: PipelineError::Transport(msg) },
            None::<PipelineAction>,
        ),
    }
}

/// The transition out of `AwaitingArchive`: a permission rejection halts
/// with its body intact, the expected redirect is followed exactly once,
/// and anything else halts as an unexpected reply.
pub open spec fn archive_transition(
    target: String,
    reply: FetchReply,
    r: (PipelineState, Option<PipelineAction>),
) -> bool {
    match reply {
        FetchReply::Forbidden(b) => r == (
            PipelineState::Failed {
                error: PipelineError::AccessForbidden(AccessForbiddenError { details: b }),
            },
            None::<PipelineAction>,
        ),
        FetchReply::Redirect(loc) => {
            &&& r.0 matches PipelineState::AwaitingRedirect { target: t } && t == target
            &&& r.1 == Some(PipelineAction::FollowRedirect(loc))
        },
        FetchReply::RawBytes(_) => {
            &&& r.0 matches PipelineState::Failed { error } && error
                matches PipelineError::UnexpectedReply(u) && u.details@ == Seq::<char>::empty()
            &&& r.1 is None
        },
        FetchReply::Other(status, b) => r == (
            PipelineState::Failed {
                error: PipelineError::UnexpectedReply(UnexpectedReplyError { details: b }),
            },
            None::<PipelineAction>,
        ),
    }
}

/// The outcome of scanning a retrieved payload for the target path. On a
/// payload that parses as an archive, the outcome is owed: `Done` with
/// the first exactly matching entry's content when that member decodes,
/// "entry not found" with the target path when nothing matches; only a
/// payload that does not parse, or a matching member that does not
/// decode, may halt as a transport failure.
pub open spec fn scan_transition(
    target: Seq<char>,
    bytes: Seq<u8>,
    r: (PipelineState, Option<PipelineAction>),
) -> bool {
    &&& r.1 is None
    &&& if zip_parses(bytes) {
        match first_match(zip_entries_of(bytes), |e: (Seq<char>, Seq<u8>)| e.0 == target) {
            Some(k) => if entry_decodes(bytes, k) {
                r.0 matches PipelineState::Done { log } && log@ == zip_entries_of(bytes)[k].1
            } else {
                r.0 matches PipelineState::Failed { error } && error
                    matches PipelineError::Transport(_)
            },
            None => r.0 matches PipelineState::Failed { error } && error
                matches PipelineError::NotFound(m) && m matches Missing::Entry(t) && t@ == target,
        }
    } else {
        r.0 matches PipelineState::Failed { error } && error matches PipelineError::Transport(_)
    }
}

/// The transition out of `AwaitingRedirect`: the content reply's raw
/// bytes are scanned for the derived path; a second redirect is refused,
/// and a permission rejection at the content location halts with its body
/// intact.
pub open spec fn content_transition(
    target: String,
    reply: FetchReply,
    r: (PipelineState, Option<PipelineAction>),
) -> bool {
    match reply {
        FetchReply::RawBytes(bytes) => scan_transition(target@, bytes@, r),
        FetchReply::Forbidden(b) => r == (
            PipelineState::Failed {
                error: PipelineError::AccessForbidden(AccessForbiddenError { details: b }),
            },
            None::<PipelineAction>,
        ),
        FetchReply::Redirect(loc) => r == (
            PipelineState::Failed {
                error: PipelineError::UnexpectedReply(UnexpectedReplyError { details: loc }),
            },
            None::<PipelineAction>,
        ),
        FetchReply::Other(status, b) => r == (
            PipelineState::Failed {
                error: PipelineError::UnexpectedReply(UnexpectedReplyError { details: b }),
            },
            None::<PipelineAction>,
        ),
    }
}

/// Starts one invocation for `repo`: the pipeline awaits the run listing
/// that the caller is asked to fetch.
pub fn start(repo: &String) -> (r: (PipelineState, PipelineAction))
    ensures
        r.0 == PipelineState::AwaitingRuns,
        r.1 matches PipelineAction::FetchRuns(url) && url@ == spec_api_url(repo@),
{
    (PipelineState::AwaitingRuns, PipelineAction::FetchRuns(make_api_url(repo)))
}

/// Advances the pipeline by one event. The caller performs the returned
/// action, if any, and hands its reply back as the next event; a `None`
/// action means the pipeline is in a terminal state.
pub fn step(state: PipelineState, event: PipelineEvent) -> (r: (
    PipelineState,
    Option<PipelineAction>,
))
    requires
        event_fits(state, event),
    ensures
        match (state, event) {
            (PipelineState::AwaitingRuns, PipelineEvent::Runs(reply)) => runs_transition(reply, r),
            (
                PipelineState::AwaitingJobs { logs_url },
                PipelineEvent::Jobs(reply),
            ) => jobs_transition(logs_url, reply, r),
            (
                PipelineState::AwaitingArchive { target },
                PipelineEvent::Archive(reply),
            ) => archive_transition(target, reply, r),
            (
                PipelineState::AwaitingRedirect { target },
                PipelineEvent::Content(reply),
            ) => content_transition(target, reply, r),
            _ => true,
        },
{
    match (state, event) {
        (PipelineState::AwaitingRuns, PipelineEvent::Runs(reply)) => match reply {
            ApiReply::Payload(runs) => match first_failed_run(&runs) {
                Ok(run) => {
                    let logs_url = run.logs_url.clone();
                    let jobs_url = run.jobs_url.clone();
                    (
                        PipelineState::AwaitingJobs { logs_url },
                        Some(PipelineAction::FetchJobs(jobs_url)),
                    )
                },
                Err(error) => (PipelineState::Failed { error }, None),
            },
            ApiReply::Forbidden(b) => (
                PipelineState::Failed {
                    error: PipelineError::AccessForbidden(AccessForbiddenError { details: b }),
                },
                None,
            ),
            ApiReply::BadConclusion(t) => (
                PipelineState::Failed {
                    error: PipelineError::UnknownConclusion(UnknownConclusionError { details: t }),
                },
                None,
            ),
            ApiReply::Failed(msg) => (
                PipelineState::Failed { error: PipelineError::Transport(msg) },
                None,
            ),
        },
        (PipelineState::AwaitingJobs { logs_url }, PipelineEvent::Jobs(reply)) => match reply {
            ApiReply::Payload(jobs) => match first_failed_job(&jobs) {
                Ok(job) => match failed_step_filename(job) {
                    Some(path) => (
                        PipelineState::AwaitingArchive { target: path },
                        Some(PipelineAction::FetchArchive(logs_url)),
                    ),
                    None => (
                        PipelineState::Failed {
                            error: PipelineError::NotFound(Missing::FailedStep),
                        },
                        None,
                    ),
                },
                Err(error) => (PipelineState::Failed { error }, None),
            },
            ApiReply::Forbidden(b) => (
                PipelineState::Failed {
                    error: PipelineError::AccessForbidden(AccessForbiddenError { details: b }),
                },
                None,
            ),
            ApiReply::BadConclusion(t) => (
                PipelineState::Failed {
                    error: PipelineError::UnknownConclusion(UnknownConclusionError { details: t }),
                },
                None,
            ),
            ApiReply::Failed(msg) => (
                PipelineState::Failed { error: PipelineError::Transport(msg) },
                None,
            ),
        },
        (PipelineState::AwaitingArchive { target }, PipelineEvent::Archive(reply)) => match
            on_initial_reply(reply) {
            FetchStep::Follow(loc) => (
                PipelineState::AwaitingRedirect { target },
                Some(PipelineAction::FollowRedirect(loc)),
            ),
            FetchStep::Complete(_) => unreached(),
            FetchStep::Fail(error) => (PipelineState::Failed { error }, None),
        },
        (PipelineState::AwaitingRedirect { target }, PipelineEvent::Content(reply)) => match
            on_redirect_reply(reply) {
            FetchStep::Complete(bytes) => match scan_archive(bytes, target.as_str()) {
                Ok(log) => (PipelineState::Done { log }, None),
                Err(error) => (PipelineState::Failed { error }, None),
            },
            FetchStep::Follow(_) => unreached(),
            FetchStep::Fail(error) => (PipelineState::Failed { error }, None),
        },
        _ => unreached(),
    }
}

} // verus!

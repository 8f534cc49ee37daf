//! Decision logic of the archive fetcher.
//!
//! The transport collaborator answers an archive request with one of four
//! reply shapes. A redirect is the expected success shape here: the
//! provider hands out a content location, and exactly one redirect hop is
//! followed — never a chain, and never silently through a transport-level
//! redirect policy that would mask genuine failures.

use crate::errors::AccessForbiddenError;
use crate::errors::PipelineError;
use crate::errors::UnexpectedReplyError;
use vstd::prelude::*;

verus! {

/// One raw reply from the transport collaborator to an archive request.
pub enum FetchReply {
    /// The provider rejected the request for permission reasons; carries
    /// its diagnostic text.
    Forbidden(String),
    /// A redirect to a content location.
    Redirect(String),
    /// Raw payload bytes.
    RawBytes(Vec<u8>),
    /// Any other response: its status and its text.
    Other(u16, String),
}

/// The fetcher's decision after one reply.
pub enum FetchStep {
    /// Issue exactly one more request, at this location.
    Follow(String),
    /// The archive payload is retrieved.
    Complete(Vec<u8>),
    /// Terminal failure of the fetch stage.
    Fail(PipelineError),
}

/// Decides on the provider's first reply to the archive request: a
/// permission rejection surfaces with its body intact, a redirect is
/// followed, and anything else — raw bytes without a redirect included —
/// is an unexpected reply, never coerced into a success.
///
/// A raw-bytes reply does not reach this stage from the transport, which
/// classifies every non-redirect, non-forbidden response as `Other` with
/// its text; the arm is still decided, and since raw bytes carry no
/// diagnostic text the unexpected-reply it raises has empty details.
pub fn on_initial_reply(reply: FetchReply) -> (r: FetchStep)
    ensures
        reply matches FetchReply::Forbidden(b) ==> r == FetchStep::Fail(
            PipelineError::AccessForbidden((AccessForbiddenError { details: b })),
        ),
        reply matches FetchReply::Redirect(loc) ==> r == FetchStep::Follow(loc),
        reply matches FetchReply::RawBytes(_) ==> r matches FetchStep::Fail(e) && e
            matches PipelineError::UnexpectedReply(u) && u.details@ == Seq::<char>::empty(),
        reply matches FetchReply::Other(status, b) ==> r == FetchStep::Fail(
            PipelineError::UnexpectedReply((UnexpectedReplyError { details: b })),
        ),
{
    match reply {
        FetchReply::Forbidden(body) => FetchStep::Fail(
            PipelineError::AccessForbidden(AccessForbiddenError { details: body }),
        ),
        FetchReply::Redirect(location) => FetchStep::Follow(location),
        FetchReply::RawBytes(_) => FetchStep::Fail(
            PipelineError::UnexpectedReply(UnexpectedReplyError { details: String::new() }),
        ),
        FetchReply::Other(_, body) => FetchStep::Fail(
            PipelineError::UnexpectedReply(UnexpectedReplyError { details: body }),
        ),
    }
}

/// Decides on the reply fetched from the content location: its raw bytes
/// are the archive payload, exactly as sent. A second redirect is not
/// followed — chains are refused — and a permission rejection at the
/// content location surfaces with its body intact.
pub fn on_redirect_reply(reply: FetchReply) -> (r: FetchStep)
    ensures
        reply matches FetchReply::RawBytes(bytes) ==> r == FetchStep::Complete(bytes),
        reply matches FetchReply::Forbidden(b) ==> r == FetchStep::Fail(
            PipelineError::AccessForbidden((AccessForbiddenError { details: b })),
        ),
        reply matches FetchReply::Redirect(loc) ==> r == FetchStep::Fail(
            PipelineError::UnexpectedReply((UnexpectedReplyError { details: loc })),
        ),
        reply matches FetchReply::Other(status, b) ==> r == FetchStep::Fail(
            PipelineError::UnexpectedReply((UnexpectedReplyError { details: b })),
        ),
{
    match reply {
        FetchReply::RawBytes(bytes) => FetchStep::Complete(bytes),
        FetchReply::Forbidden(body) => FetchStep::Fail(
            PipelineError::AccessForbidden(AccessForbiddenError { details: body }),
        ),
        FetchReply::Redirect(location) => FetchStep::Fail(
            PipelineError::UnexpectedReply(UnexpectedReplyError { details: location }),
        ),
        FetchReply::Other(_, body) => FetchStep::Fail(
            PipelineError::UnexpectedReply(UnexpectedReplyError { details: body }),
        ),
    }
}

} // verus!

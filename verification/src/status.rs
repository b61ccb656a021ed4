//! What came of a request, and which statuses count as success.

use crate::error::{fails_with, InstallError, InstallErrorView};
use vstd::prelude::*;

verus! {

/// What came of sending one request.
#[derive(Debug, Clone, PartialEq, Eq)]
pub enum RequestOutcome {
    /// No reply came; `detail` is the transport's own description.
    TransportFailed { detail: String },
    /// The remote endpoint replied with `status`.
    Answered { status: u16 },
}

/// The mathematical value of a [`RequestOutcome`].
pub enum RequestOutcomeView {
    TransportFailed { detail: Seq<char> },
    Answered { status: u16 },
}

impl View for RequestOutcome {
    type V = RequestOutcomeView;

    open spec fn view(&self) -> RequestOutcomeView {
        match self {
            RequestOutcome::TransportFailed { detail } => RequestOutcomeView::TransportFailed {
                detail: detail@,
            },
            RequestOutcome::Answered { status } => RequestOutcomeView::Answered { status: *status },
        }
    }
}

/// A status counts as success when it lies in 200..=299.
pub open spec fn is_success(status: u16) -> bool {
    200 <= status <= 299
}

/// The error that ends an operation whose request came to `outcome`, if
/// there is one: a failed transport is a network error, and a status that is
/// no success is refused with that status.
pub open spec fn refusal_of(outcome: RequestOutcomeView) -> Option<InstallErrorView> {
    match outcome {
        RequestOutcomeView::TransportFailed { detail } => Some(
            InstallErrorView::NetworkError { detail },
        ),
        RequestOutcomeView::Answered { status } => if is_success(status) {
            None
        } else {
            Some(InstallErrorView::NotSuccessStatus { status })
        },
    }
}

/// Whether `status` is a success status.
pub fn is_success_status(status: u16) -> (ok: bool)
    ensures
        ok == is_success(status),
{
    200 <= status && status <= 299
}

/// Lets a reply with a success status pass, and fails with
/// [`InstallError::NetworkError`] where no reply came and with
/// [`InstallError::NotSuccessStatus`], which carries the status, for any
/// other reply.
pub fn check_outcome(outcome: RequestOutcome) -> (checked: Result<(), InstallError>)
    ensures
        match refusal_of(outcome@) {
            None => checked is Ok,
            Some(refusal) => fails_with(checked, refusal),
        },
{
    match outcome {
        RequestOutcome::TransportFailed { detail } => Err(InstallError::NetworkError { detail }),
        RequestOutcome::Answered { status } => {
            if is_success_status(status) {
                Ok(())
            } else {
                Err(InstallError::NotSuccessStatus { status })
            }
        },
    }
}

} // verus!

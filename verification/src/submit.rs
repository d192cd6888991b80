//! The producer's side: what becomes of a submission.
//!
//! A producer holds a handle that does not keep the worker's sender alive. To submit, it tries
//! to obtain the sender through the handle. Where that fails the worker has been shut down, and
//! the request is dropped: an expected outcome, not a fault.

use vstd::prelude::*;
use crate::request::{EcLevel, QrGenerationRequest, RequestView};

verus! {

/// What a producer is to do with its submission.
#[derive(Debug)]
pub enum Submission {
    /// The sender is there: enqueue this request, then let go of the sender at once.
    Enqueue(QrGenerationRequest),
    /// The sender is gone: nothing is enqueued.
    WorkerUnavailable,
}

/// A submission as contracts see it.
pub enum SubmissionView {
    Enqueue(RequestView),
    WorkerUnavailable,
}

impl View for Submission {
    type V = SubmissionView;

    open spec fn view(&self) -> SubmissionView {
        match self {
            Submission::Enqueue(request) => SubmissionView::Enqueue(request@),
            Submission::WorkerUnavailable => SubmissionView::WorkerUnavailable,
        }
    }
}

/// The submission of `data` at `ec_level` through a handle that did, or did not, yield the
/// sender.
pub open spec fn submission_of(sender_alive: bool, data: Seq<char>, ec_level: EcLevel)
    -> SubmissionView {
    if sender_alive {
        SubmissionView::Enqueue(RequestView { data, correction_level: ec_level.qr_enum() })
    } else {
        SubmissionView::WorkerUnavailable
    }
}

/// Prepares the submission of a text from the user interface. `sender_alive` tells whether the
/// producer's handle yielded the sender. If it did, the request to enqueue holds the text and
/// the generator's level for `ec_level`; if it did not, there is no request.
pub fn generate_qr_code(sender_alive: bool, data: &str, ec_level: EcLevel) -> (submission:
    Submission)
    ensures
        submission@ == submission_of(sender_alive, data@, ec_level),
{
    let data = data.to_owned();
    let ecl = ec_level.to_qr_enum();
    if sender_alive {
        Submission::Enqueue(QrGenerationRequest { data, correction_level: ecl })
    } else {
        Submission::WorkerUnavailable
    }
}

/// After shutdown nothing is enqueued: a handle that no longer yields the sender leads to no
/// request, whatever was submitted.
pub proof fn lemma_nothing_is_enqueued_after_shutdown(data: Seq<char>, ec_level: EcLevel)
    ensures
        submission_of(false, data, ec_level) is WorkerUnavailable,
{
}

} // verus!

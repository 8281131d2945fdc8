//! Record Updater: what an update writes, and how the provider's answer to
//! it is read.

use crate::model::{UpdateRequest, UpdateRequestView, UPDATE_PROXIED, UPDATE_TTL};
use vstd::prelude::*;

verus! {

/// Whether `status` is a success status of the provider: one of 200 to 299.
pub open spec fn is_success_status(status: u16) -> bool {
    200 <= status < 300
}

/// `reqwest::StatusCode::from_u16` followed by `StatusCode::is_success`.
///
/// The first accepts exactly the codes from 100 to 999, the second holds of
/// exactly those from 200 to 299; a code that the first refuses is no
/// success. Taken from the source of both, not proved.
#[verifier::external_body]
fn status_is_success(status: u16) -> (success: bool)
    ensures
        success == is_success_status(status),
{
    match reqwest::StatusCode::from_u16(status) {
        Ok(code) => code.is_success(),
        Err(_) => false,
    }
}

/// View of an [`UpdateOutcome`].
pub enum UpdateOutcomeView {
    Applied,
    Rejected { status: u16, body: Seq<char> },
}

/// How the provider answered an update.
#[derive(Debug, PartialEq, Eq)]
pub enum UpdateOutcome {
    /// The provider answered with a success status: the record is written.
    Applied,
    /// The provider answered with any other status; its status and payload
    /// are kept for diagnosis.
    Rejected { status: u16, body: String },
}

impl View for UpdateOutcome {
    type V = UpdateOutcomeView;

    open spec fn view(&self) -> UpdateOutcomeView {
        match self {
            UpdateOutcome::Applied => UpdateOutcomeView::Applied,
            UpdateOutcome::Rejected { status, body } => UpdateOutcomeView::Rejected {
                status: *status,
                body: body@,
            },
        }
    }
}

/// What the answer `(status, body)` to an update means.
pub open spec fn update_outcome_of(status: u16, body: Seq<char>) -> UpdateOutcomeView {
    if is_success_status(status) {
        UpdateOutcomeView::Applied
    } else {
        UpdateOutcomeView::Rejected { status, body }
    }
}

/// The write that sets a record's content to `new_ip`. Time-to-live and
/// proxying are fixed: they overwrite what the record had.
pub fn update_request(new_ip: &str) -> (request: UpdateRequest)
    ensures
        request@ == (UpdateRequestView {
            content: new_ip@,
            ttl: UPDATE_TTL,
            proxied: UPDATE_PROXIED,
        }),
{
    UpdateRequest { content: new_ip.to_owned(), ttl: UPDATE_TTL, proxied: UPDATE_PROXIED }
}

/// Reads the provider's answer to an update: applied on a success status,
/// rejected with status and payload on any other.
pub fn classify_update(status: u16, body: String) -> (outcome: UpdateOutcome)
    ensures
        outcome@ == update_outcome_of(status, body@),
{
    if status_is_success(status) {
        UpdateOutcome::Applied
    } else {
        UpdateOutcome::Rejected { status, body }
    }
}

} // verus!

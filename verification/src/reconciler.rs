//! Reconciler: the state machine of one reconciliation run.
//!
//! A run alternates remote calls and decisions. The decisions are taken
//! here: from the state of the run and the answer to the call it was
//! waiting for, [`step`] gives the next state and the next call to make.
//! The caller makes that call and comes back with its answer, until the
//! action is [`Action::Stop`]. Nothing is retried.

use crate::domain::{parent_domain, parent_of};
use crate::endpoints::{
    record_lookup_address, record_lookup_url, record_update_address, record_update_url,
    zone_lookup_address, zone_lookup_url,
};
use crate::locator::{find_dns_record, located, records_view};
use crate::model::{
    text_view, DnsRecord, DnsRecordView, Notification, NotificationView, TransportError,
    TransportErrorView, UpdateRequest, UpdateRequestView, Zone, ZoneEntry, ZoneEntryView, ZoneView,
    UPDATE_PROXIED, UPDATE_TTL,
};
use crate::updater::{
    classify_update, update_outcome_of, update_request, UpdateOutcome, UpdateOutcomeView,
};
use crate::zone::{directory_view, resolve_zone, zone_for};
use vstd::prelude::*;

verus! {

/// What a run looked for and the provider does not have.
#[derive(Debug, Clone, Copy, PartialEq, Eq, Structural)]
pub enum Missing {
    /// No zone owns the parent domain of the name.
    Zone,
    /// The zone holds no address record for the name.
    Record,
}

/// View of a [`Failure`].
pub enum FailureView {
    Transport(TransportErrorView),
    ProviderRejected { status: u16, body: Seq<char> },
    OutOfTurn,
}

/// Why a run failed.
#[derive(Debug, PartialEq, Eq)]
pub enum Failure {
    /// A remote call did not yield an answer.
    Transport(TransportError),
    /// The provider was reached and refused the update.
    ProviderRejected { status: u16, body: String },
    /// The run was handed an answer to a call it was not waiting for.
    OutOfTurn,
}

impl View for Failure {
    type V = FailureView;

    open spec fn view(&self) -> FailureView {
        match self {
            Failure::Transport(error) => FailureView::Transport(error@),
            Failure::ProviderRejected { status, body } => FailureView::ProviderRejected {
                status: *status,
                body: body@,
            },
            Failure::OutOfTurn => FailureView::OutOfTurn,
        }
    }
}

/// View of a [`RunState`].
pub enum RunStateView {
    Start,
    ZoneResolved { zone: ZoneView },
    RecordLocated { zone: ZoneView, record: DnsRecordView },
    Updated,
    NotFound(Missing),
    Failed(FailureView),
}

/// Where a run stands.
#[derive(Debug, PartialEq, Eq)]
pub enum RunState {
    /// The zone of the name is being resolved.
    Start,
    /// The zone is known; the record is being located in it.
    ZoneResolved { zone: Zone },
    /// The record is known; the update is being written to it.
    RecordLocated { zone: Zone, record: DnsRecord },
    /// Terminal: the provider accepted the update.
    Updated,
    /// Terminal: there is nothing to update.
    NotFound(Missing),
    /// Terminal: the run failed.
    Failed(Failure),
}

impl View for RunState {
    type V = RunStateView;

    open spec fn view(&self) -> RunStateView {
        match self {
            RunState::Start => RunStateView::Start,
            RunState::ZoneResolved { zone } => RunStateView::ZoneResolved { zone: zone@ },
            RunState::RecordLocated { zone, record } => RunStateView::RecordLocated {
                zone: zone@,
                record: record@,
            },
            RunState::Updated => RunStateView::Updated,
            RunState::NotFound(missing) => RunStateView::NotFound(*missing),
            RunState::Failed(failure) => RunStateView::Failed(failure@),
        }
    }
}

/// View of an [`Action`].
pub enum ActionView {
    ResolveZone { parent: Seq<char> },
    LocateRecord { zone_id: Seq<char>, name: Seq<char> },
    UpdateRecord { zone_id: Seq<char>, record_id: Seq<char>, request: UpdateRequestView },
    Stop,
}

/// The remote call that a run asks for next.
#[derive(Debug, PartialEq, Eq)]
pub enum Action {
    /// Ask the zone directory for the zones of the domain `parent`.
    ResolveZone { parent: String },
    /// List the address records called `name` in the zone `zone_id`.
    LocateRecord { zone_id: String, name: String },
    /// Write `request` to the record `record_id` of the zone `zone_id`.
    UpdateRecord { zone_id: String, record_id: String, request: UpdateRequest },
    /// Make no further call: the run is over.
    Stop,
}

impl View for Action {
    type V = ActionView;

    open spec fn view(&self) -> ActionView {
        match self {
            Action::ResolveZone { parent } => ActionView::ResolveZone { parent: parent@ },
            Action::LocateRecord { zone_id, name } => ActionView::LocateRecord {
                zone_id: zone_id@,
                name: name@,
            },
            Action::UpdateRecord { zone_id, record_id, request } => ActionView::UpdateRecord {
                zone_id: zone_id@,
                record_id: record_id@,
                request: request@,
            },
            Action::Stop => ActionView::Stop,
        }
    }
}

/// View of an [`Event`].
pub enum EventView {
    ZoneDirectory(Seq<ZoneEntryView>),
    RecordList(Seq<DnsRecordView>),
    UpdateAnswer { status: u16, body: Seq<char> },
    TransportFailed(TransportErrorView),
}

/// The answer to a remote call, as the caller reports it.
#[derive(Debug, PartialEq, Eq)]
pub enum Event {
    /// The zone directory answered with these lines.
    ZoneDirectory(Vec<ZoneEntry>),
    /// The provider listed these address records, in this order.
    RecordList(Vec<DnsRecord>),
    /// The provider answered the update with this status and payload.
    UpdateAnswer { status: u16, body: String },
    /// The call did not yield an answer.
    TransportFailed(TransportError),
}

impl View for Event {
    type V = EventView;

    open spec fn view(&self) -> EventView {
        match self {
            Event::ZoneDirectory(directory) => EventView::ZoneDirectory(directory_view(directory@)),
            Event::RecordList(records) => EventView::RecordList(records_view(records@)),
            Event::UpdateAnswer { status, body } => EventView::UpdateAnswer {
                status: *status,
                body: body@,
            },
            Event::TransportFailed(error) => EventView::TransportFailed(error@),
        }
    }
}

/// Whether a run in state `state` is over.
pub open spec fn is_terminal(state: RunStateView) -> bool {
    state is Updated || state is NotFound || state is Failed
}

/// The write that a run makes for `notification`: the reported address, with
/// the fixed time-to-live and proxying flag.
pub open spec fn write_of(notification: NotificationView) -> UpdateRequestView {
    UpdateRequestView {
        content: notification.reported_ip,
        ttl: UPDATE_TTL,
        proxied: UPDATE_PROXIED,
    }
}

/// How a run opens: it asks for the zone of the name's parent domain; a
/// name without a dot has no parent, so no zone, and the run is over.
pub open spec fn opening(notification: NotificationView) -> (RunStateView, ActionView) {
    match parent_of(notification.domain_name) {
        Some(parent) => (RunStateView::Start, ActionView::ResolveZone { parent }),
        None => (RunStateView::NotFound(Missing::Zone), ActionView::Stop),
    }
}

/// What follows the zone directory's answer: with a zone for the parent
/// domain the record is looked for in it; without one the run is over.
pub open spec fn zone_stage(notification: NotificationView, directory: Seq<ZoneEntryView>) -> (
    RunStateView,
    ActionView,
) {
    match zone_for(notification.domain_name, directory) {
        Some(zone) => (
            RunStateView::ZoneResolved { zone },
            ActionView::LocateRecord { zone_id: zone.zone_id, name: notification.domain_name },
        ),
        None => (RunStateView::NotFound(Missing::Zone), ActionView::Stop),
    }
}

/// What follows the list of records: its first record is overwritten with
/// the reported address, whatever it holds; an empty list ends the run.
pub open spec fn record_stage(
    notification: NotificationView,
    zone: ZoneView,
    records: Seq<DnsRecordView>,
) -> (RunStateView, ActionView) {
    match located(records) {
        Some(record) => (
            RunStateView::RecordLocated { zone, record },
            ActionView::UpdateRecord {
                zone_id: zone.zone_id,
                record_id: record.record_id,
                request: write_of(notification),
            },
        ),
        None => (RunStateView::NotFound(Missing::Record), ActionView::Stop),
    }
}

/// What follows the provider's answer to the update: the run is over,
/// updated on a success status and failed on any other.
pub open spec fn update_stage(status: u16, body: Seq<char>) -> (RunStateView, ActionView) {
    match update_outcome_of(status, body) {
        UpdateOutcomeView::Applied => (RunStateView::Updated, ActionView::Stop),
        UpdateOutcomeView::Rejected { status, body } => (
            RunStateView::Failed(FailureView::ProviderRejected { status, body }),
            ActionView::Stop,
        ),
    }
}

/// The transition of a run in state `state` on the answer `event`.
///
/// A run that is over stays as it is. A transport failure ends a running
/// run as failed. The answer that the state was waiting for moves the run
/// on by its stage; any other answer ends it as failed, out of turn. Every
/// state that is over comes with [`ActionView::Stop`].
pub open spec fn transition(notification: NotificationView, state: RunStateView, event: EventView) -> (
    RunStateView,
    ActionView,
) {
    if is_terminal(state) {
        (state, ActionView::Stop)
    } else {
        match (state, event) {
            (_, EventView::TransportFailed(error)) => (
                RunStateView::Failed(FailureView::Transport(error)),
                ActionView::Stop,
            ),
            (RunStateView::Start, EventView::ZoneDirectory(directory)) => zone_stage(
                notification,
                directory,
            ),
            (RunStateView::ZoneResolved { zone }, EventView::RecordList(records)) => record_stage(
                notification,
                zone,
                records,
            ),
            (RunStateView::RecordLocated { .. }, EventView::UpdateAnswer { status, body }) => {
                update_stage(status, body)
            },
            _ => (RunStateView::Failed(FailureView::OutOfTurn), ActionView::Stop),
        }
    }
}

/// The address that an action is sent to; [`ActionView::Stop`] has none.
pub open spec fn action_address(action: ActionView) -> Option<Seq<char>> {
    match action {
        ActionView::ResolveZone { parent } => Some(zone_lookup_address(parent)),
        ActionView::LocateRecord { zone_id, name } => Some(record_lookup_address(zone_id, name)),
        ActionView::UpdateRecord { zone_id, record_id, .. } => Some(
            record_update_address(zone_id, record_id),
        ),
        ActionView::Stop => None,
    }
}

impl RunState {
    /// Whether the run is over.
    pub fn is_terminal(&self) -> (over: bool)
        ensures
            over == is_terminal(self@),
    {
        match self {
            RunState::Updated => true,
            RunState::NotFound(_) => true,
            RunState::Failed(_) => true,
            _ => false,
        }
    }
}

impl Action {
    /// The address to send this action to, or `None` for [`Action::Stop`].
    pub fn url(&self) -> (url: Option<String>)
        ensures
            text_view(url) == action_address(self@),
    {
        match self {
            Action::ResolveZone { parent } => Some(zone_lookup_url(parent.as_str())),
            Action::LocateRecord { zone_id, name } => Some(
                record_lookup_url(zone_id.as_str(), name.as_str()),
            ),
            Action::UpdateRecord { zone_id, record_id, .. } => Some(
                record_update_url(zone_id.as_str(), record_id.as_str()),
            ),
            Action::Stop => None,
        }
    }
}

/// Opens a run for `notification`.
pub fn begin(notification: &Notification) -> (next: (RunState, Action))
    ensures
        (next.0@, next.1@) == opening(notification@),
{
    match parent_domain(notification.domain_name.as_str()) {
        Some(parent) => (RunState::Start, Action::ResolveZone { parent }),
        None => (RunState::NotFound(Missing::Zone), Action::Stop),
    }
}

/// Moves a run on from the zone directory's answer.
pub fn after_zone_lookup(notification: &Notification, directory: &Vec<ZoneEntry>) -> (next: (
    RunState,
    Action,
))
    ensures
        (next.0@, next.1@) == zone_stage(notification@, directory_view(directory@)),
{
    match resolve_zone(notification.domain_name.as_str(), directory) {
        Some(zone) => {
            let action = Action::LocateRecord {
                zone_id: zone.zone_id.clone(),
                name: notification.domain_name.clone(),
            };
            (RunState::ZoneResolved { zone }, action)
        },
        None => (RunState::NotFound(Missing::Zone), Action::Stop),
    }
}

/// Moves a run on from the provider's list of records in `zone`.
pub fn after_record_lookup(notification: &Notification, zone: Zone, records: &Vec<DnsRecord>) -> (next:
    (RunState, Action))
    ensures
        (next.0@, next.1@) == record_stage(notification@, zone@, records_view(records@)),
{
    match find_dns_record(records) {
        Some(record) => {
            let action = Action::UpdateRecord {
                zone_id: zone.zone_id.clone(),
                record_id: record.record_id.clone(),
                request: update_request(notification.reported_ip.as_str()),
            };
            (RunState::RecordLocated { zone, record }, action)
        },
        None => (RunState::NotFound(Missing::Record), Action::Stop),
    }
}

/// Ends a run by the provider's answer to the update.
pub fn after_update(status: u16, body: String) -> (next: (RunState, Action))
    ensures
        (next.0@, next.1@) == update_stage(status, body@),
{
    match classify_update(status, body) {
        UpdateOutcome::Applied => (RunState::Updated, Action::Stop),
        UpdateOutcome::Rejected { status, body } => (
            RunState::Failed(Failure::ProviderRejected { status, body }),
            Action::Stop,
        ),
    }
}

/// One transition of a run: from its state and the answer to the call it
/// asked for, to its next state and the next call to make.
pub fn step(notification: &Notification, state: RunState, event: Event) -> (next: (RunState, Action))
    ensures
        (next.0@, next.1@) == transition(notification@, state@, event@),
{
    if state.is_terminal() {
        return (state, Action::Stop);
    }
    match event {
        Event::TransportFailed(error) => (RunState::Failed(Failure::Transport(error)), Action::Stop),
        Event::ZoneDirectory(directory) => match state {
            RunState::Start => after_zone_lookup(notification, &directory),
            _ => (RunState::Failed(Failure::OutOfTurn), Action::Stop),
        },
        Event::RecordList(records) => match state {
            RunState::ZoneResolved { zone } => after_record_lookup(notification, zone, &records),
            _ => (RunState::Failed(Failure::OutOfTurn), Action::Stop),
        },
        Event::UpdateAnswer { status, body } => match state {
            RunState::RecordLocated { .. } => after_update(status, body),
            _ => (RunState::Failed(Failure::OutOfTurn), Action::Stop),
        },
    }
}

} // verus!

//! Whole runs: a run as the sequence of answers it is given, and what holds
//! of every run.

use crate::locator::located;
use crate::model::{
    DnsRecordView, NotificationView, TransportErrorView, UpdateRequestView, ZoneEntryView, ZoneView,
};
use crate::reconciler::{
    is_terminal, opening, transition, write_of, ActionView, EventView, FailureView, Missing,
    RunStateView,
};
use crate::zone::zone_for;
use vstd::prelude::*;

verus! {

/// The state of a run that stood in `state` and was then given `events`,
/// one after the other.
pub open spec fn state_after(
    notification: NotificationView,
    state: RunStateView,
    events: Seq<EventView>,
) -> RunStateView
    decreases events.len(),
{
    if events.len() == 0 {
        state
    } else {
        state_after(notification, transition(notification, state, events[0]).0, events.skip(1))
    }
}

/// The call that a run asks for on the answer `events[k]`, having stood in
/// `state` and been given the answers before it.
pub open spec fn action_at(
    notification: NotificationView,
    state: RunStateView,
    events: Seq<EventView>,
    k: int,
) -> ActionView
    recommends
        0 <= k < events.len(),
{
    transition(notification, state_after(notification, state, events.take(k)), events[k]).1
}

/// A run that is over stays over, unchanged, and asks for no call.
pub proof fn lemma_terminal_state_absorbs(
    notification: NotificationView,
    state: RunStateView,
    event: EventView,
)
    requires
        is_terminal(state),
    ensures
        transition(notification, state, event) == (state, ActionView::Stop),
{
}

/// A state that is over always comes with `Stop`, and `Stop` only comes
/// with a state that is over.
pub proof fn lemma_stop_exactly_when_over(
    notification: NotificationView,
    state: RunStateView,
    event: EventView,
)
    ensures
        is_terminal(transition(notification, state, event).0) <==> transition(
            notification,
            state,
            event,
        ).1 is Stop,
        is_terminal(opening(notification).0) <==> opening(notification).1 is Stop,
{
}

/// A run that is over when some answers have been given is over, in the
/// same state, whatever answers follow.
pub proof fn lemma_over_stays_over(
    notification: NotificationView,
    state: RunStateView,
    events: Seq<EventView>,
)
    requires
        is_terminal(state),
    ensures
        state_after(notification, state, events) == state,
    decreases events.len(),
{
    if events.len() > 0 {
        lemma_over_stays_over(notification, state, events.skip(1));
    }
}

/// A transport failure at any stage ends the run as failed, with that
/// failure, and no call is asked for on it.
pub proof fn lemma_transport_failure_ends_run(
    notification: NotificationView,
    state: RunStateView,
    error: TransportErrorView,
)
    requires
        !is_terminal(state),
    ensures
        transition(notification, state, EventView::TransportFailed(error)) == (
            RunStateView::Failed(FailureView::Transport(error)),
            ActionView::Stop,
        ),
{
}

/// After a transport failure no stage is entered again: whatever answers
/// follow it, the run stays failed with that failure and every call asked
/// for is `Stop`.
pub proof fn lemma_no_call_after_transport_failure(
    notification: NotificationView,
    state: RunStateView,
    error: TransportErrorView,
    later: Seq<EventView>,
    k: int,
)
    requires
        !is_terminal(state),
        0 <= k <= later.len(),
    ensures
        state_after(notification, state, seq![EventView::TransportFailed(error)] + later)
            == RunStateView::Failed(FailureView::Transport(error)),
        action_at(notification, state, seq![EventView::TransportFailed(error)] + later, k)
            is Stop,
{
    let failed = RunStateView::Failed(FailureView::Transport(error));
    let events = seq![EventView::TransportFailed(error)] + later;
    lemma_state_after_first(notification, state, EventView::TransportFailed(error), later);
    lemma_over_stays_over(notification, failed, later);
    if k > 0 {
        assert(events.take(k) =~= seq![EventView::TransportFailed(error)] + later.take(k - 1));
        lemma_state_after_first(
            notification,
            state,
            EventView::TransportFailed(error),
            later.take(k - 1),
        );
        lemma_over_stays_over(notification, failed, later.take(k - 1));
    } else {
        assert(events.take(0) =~= Seq::<EventView>::empty());
    }
}

/// Giving a run a first answer and then more is giving the rest to the
/// state that the first answer leads to.
pub proof fn lemma_state_after_first(
    notification: NotificationView,
    state: RunStateView,
    first: EventView,
    rest: Seq<EventView>,
)
    ensures
        state_after(notification, state, seq![first] + rest) == state_after(
            notification,
            transition(notification, state, first).0,
            rest,
        ),
{
    assert((seq![first] + rest).skip(1) =~= rest);
}

/// An update is only ever asked for on the list of records that answers
/// the lookup in a resolved zone, and then for the record that this list
/// locates, in that zone: no identifier from elsewhere reaches the
/// updater.
pub proof fn lemma_update_only_for_located_record(
    notification: NotificationView,
    state: RunStateView,
    event: EventView,
)
    requires
        transition(notification, state, event).1 is UpdateRecord,
    ensures
        state is ZoneResolved,
        event is RecordList,
        located(event->RecordList_0) is Some,
        transition(notification, state, event) == (
            RunStateView::RecordLocated {
                zone: state->ZoneResolved_zone,
                record: located(event->RecordList_0)->0,
            },
            ActionView::UpdateRecord {
                zone_id: state->ZoneResolved_zone.zone_id,
                record_id: located(event->RecordList_0)->0.record_id,
                request: write_of(notification),
            },
        ),
        !(opening(notification).1 is UpdateRecord),
{
}

/// Every update writes the reported address with a time-to-live of 120
/// seconds and proxying off, whatever the record held before.
pub proof fn lemma_update_writes_fixed_policy(
    notification: NotificationView,
    state: RunStateView,
    event: EventView,
)
    requires
        transition(notification, state, event).1 is UpdateRecord,
    ensures
        transition(notification, state, event).1->UpdateRecord_request == (UpdateRequestView {
            content: notification.reported_ip,
            ttl: 120,
            proxied: false,
        }),
{
}

/// No update is skipped: once a record is located the update is asked for,
/// also where the record already holds the reported address. Two runs for
/// one notification against unchanged records therefore write twice.
pub proof fn lemma_update_never_skipped(
    notification: NotificationView,
    zone: ZoneView,
    records: Seq<DnsRecordView>,
)
    requires
        records.len() > 0,
    ensures
        transition(
            notification,
            RunStateView::ZoneResolved { zone },
            EventView::RecordList(records),
        ) == (
            RunStateView::RecordLocated { zone, record: records[0] },
            ActionView::UpdateRecord {
                zone_id: zone.zone_id,
                record_id: records[0].record_id,
                request: write_of(notification),
            },
        ),
        records[0].content == notification.reported_ip ==> transition(
            notification,
            RunStateView::ZoneResolved { zone },
            EventView::RecordList(records),
        ).1 is UpdateRecord,
{
}

/// Without a zone for the parent domain the run ends as not found when the
/// directory answers, and the record is never looked for.
pub proof fn lemma_no_zone_ends_run(notification: NotificationView, directory: Seq<ZoneEntryView>)
    requires
        zone_for(notification.domain_name, directory) is None,
    ensures
        transition(notification, RunStateView::Start, EventView::ZoneDirectory(directory)) == (
            RunStateView::NotFound(Missing::Zone),
            ActionView::Stop,
        ),
{
}

/// A run is over once three answers have been given: nothing is retried.
pub proof fn lemma_run_over_after_three_answers(
    notification: NotificationView,
    first: EventView,
    second: EventView,
    third: EventView,
)
    ensures
        is_terminal(
            state_after(notification, opening(notification).0, seq![first, second, third]),
        ),
{
    let start = opening(notification).0;
    let one = transition(notification, start, first).0;
    let two = transition(notification, one, second).0;
    assert(seq![first, second, third] =~= seq![first] + seq![second, third]);
    lemma_state_after_first(notification, start, first, seq![second, third]);
    assert(seq![second, third] =~= seq![second] + seq![third]);
    lemma_state_after_first(notification, one, second, seq![third]);
    assert(seq![third] =~= seq![third] + Seq::<EventView>::empty());
    lemma_state_after_first(notification, two, third, Seq::<EventView>::empty());
}

} // verus!

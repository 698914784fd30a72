//! What holds of the registry, whatever the order in which commands, polls and
//! cleanups arrive.
//!
//! The statements are proved over [`RegistryModel`], the value that every contract of
//! the executable code speaks of.

use crate::commands::{
    close_all_actions, not_initialized_message, options_reply, show_actions, MenuAction,
};
use crate::model::{PollView, RegistryModel};
use crate::options::{MenuRegion, OptionsView, SessionId, NO_SESSION};
use crate::scheduler::cleanup_of;
use vstd::prelude::*;

verus! {

/// One thing that happens to the registry.
pub enum RegistryEvent {
    /// A menu is shown with these options.
    Show(OptionsView),
    /// The user interface submits a result.
    Submit(Option<Seq<char>>),
    /// The user interface reports the regions of the laid-out menu.
    UpdateRegions(MenuRegion, Seq<MenuRegion>),
    /// A waiting caller polls for its session.
    Poll(SessionId),
    /// The cleanup of a session runs.
    Cleanup(SessionId),
}

/// The state after one event. A menu that cannot be shown for want of an identifier
/// leaves the state as it is.
pub open spec fn after_event(state: RegistryModel, event: RegistryEvent) -> RegistryModel {
    match event {
        RegistryEvent::Show(options) => if state.can_open() {
            state.open(options)
        } else {
            state
        },
        RegistryEvent::Submit(item_id) => state.set_result(item_id),
        RegistryEvent::UpdateRegions(main_menu, submenus) => state.update_regions(
            main_menu,
            submenus,
        ),
        RegistryEvent::Poll(id) => state.after_poll(id),
        RegistryEvent::Cleanup(id) => state.expire(id),
    }
}

/// The state after a sequence of events, the first one first.
pub open spec fn after_events(state: RegistryModel, events: Seq<RegistryEvent>) -> RegistryModel
    decreases events.len(),
{
    if events.len() == 0 {
        state
    } else {
        after_event(after_events(state, events.drop_last()), events.last())
    }
}

/// Every event keeps the registry well formed and never takes an identifier back.
pub proof fn lemma_event_keeps_wf(state: RegistryModel, event: RegistryEvent)
    requires
        state.wf(),
    ensures
        after_event(state, event).wf(),
        state.last_issued <= after_event(state, event).last_issued,
{
}

/// Every sequence of events keeps the registry well formed and never takes an
/// identifier back.
pub proof fn lemma_events_keep_wf(state: RegistryModel, events: Seq<RegistryEvent>)
    requires
        state.wf(),
    ensures
        after_events(state, events).wf(),
        state.last_issued <= after_events(state, events).last_issued,
    decreases events.len(),
{
    if events.len() > 0 {
        lemma_events_keep_wf(state, events.drop_last());
        lemma_event_keeps_wf(after_events(state, events.drop_last()), events.last());
    }
}

/// At most one session is active: after any sequence of events, two sessions that
/// are both active are the same session.
pub proof fn lemma_at_most_one_active(
    state: RegistryModel,
    events: Seq<RegistryEvent>,
    a: SessionId,
    b: SessionId,
)
    requires
        state.wf(),
        after_events(state, events).is_active(a),
        after_events(state, events).is_active(b),
    ensures
        a == b,
{
}

/// The states after menus were shown one after another with `requests`.
pub open spec fn after_shows(state: RegistryModel, requests: Seq<OptionsView>) -> RegistryModel {
    after_events(state, requests.map_values(|options: OptionsView| RegistryEvent::Show(options)))
}

/// While identifiers last, the menu shown last is the active one: each show hands
/// out the next identifier and replaces the session before it.
pub proof fn lemma_last_shown_is_active(state: RegistryModel, requests: Seq<OptionsView>)
    requires
        state.wf(),
        requests.len() > 0,
        state.last_issued + requests.len() <= u64::MAX,
    ensures
        after_shows(state, requests).active == state.last_issued + requests.len(),
        after_shows(state, requests).last_issued == state.last_issued + requests.len(),
        after_shows(state, requests).options_of(after_shows(state, requests).active) == Some(
            requests.last().owned_by(after_shows(state, requests).active),
        ),
    decreases requests.len(),
{
    let events = requests.map_values(|options: OptionsView| RegistryEvent::Show(options));
    let earlier = requests.drop_last();
    let earlier_events = earlier.map_values(|options: OptionsView| RegistryEvent::Show(options));
    assert(events.drop_last() =~= earlier_events);
    assert(events.last() == RegistryEvent::Show(requests.last()));
    if earlier.len() > 0 {
        lemma_last_shown_is_active(state, earlier);
    } else {
        assert(after_events(state, earlier_events) == state);
    }
}

/// A submitted item reaches the caller that waits for the session, and nobody else.
///
/// Let a session be active and its result not yet recorded. Once an item is
/// submitted, a poll for that session resolves with exactly that item, also when the
/// cleanup of the session has run in between. The item is handed out once: the next
/// poll for the session does not resolve with it again. A poll for any other session
/// never resolves with an item.
pub proof fn lemma_submitted_item_reaches_its_waiter(
    state: RegistryModel,
    item_id: Seq<char>,
    other: SessionId,
)
    requires
        state.wf(),
        state.active != NO_SESSION,
        !state.holds_result_for(state.active),
    ensures
        state.set_result(Some(item_id)).poll(state.active) == PollView::Resolved(Some(item_id)),
        state.set_result(Some(item_id)).expire(state.active).poll(state.active)
            == PollView::Resolved(Some(item_id)),
        state.set_result(Some(item_id)).after_poll(state.active).poll(state.active)
            == PollView::Pending,
        other != state.active ==> state.set_result(Some(item_id)).poll(other)
            == PollView::Resolved(None),
{
}

/// The first result of a session stands: a second submission before the waiting
/// caller has polled changes nothing.
pub proof fn lemma_first_result_stands(
    state: RegistryModel,
    first: Option<Seq<char>>,
    second: Option<Seq<char>>,
)
    requires
        state.active != NO_SESSION,
    ensures
        state.set_result(first).set_result(second) == state.set_result(first),
{
}

/// After every menu was closed, the overlay being there, and the scheduled cleanup
/// has run with no session opened in between, no session is active and a request for
/// the options fails with "config not initialized".
pub proof fn lemma_options_gone_after_close_all(state: RegistryModel)
    requires
        state.wf(),
    ensures
        close_all_actions(state, true).last() == MenuAction::ScheduleCleanup(
            cleanup_of(state.active),
        ),
        state.expire(state.active).active == NO_SESSION,
        options_reply(state.expire(state.active)) == Err::<OptionsView, Seq<char>>(
            not_initialized_message(),
        ),
{
}

/// After a result was submitted and the scheduled cleanup has run, the options of
/// that session are gone, and while no other session was opened a request for the
/// options fails with "config not initialized".
pub proof fn lemma_options_gone_after_submit(state: RegistryModel, item_id: Option<Seq<char>>)
    requires
        state.wf(),
    ensures
        state.set_result(item_id).expire(state.active).options_of(state.active).is_none(),
        options_reply(state.set_result(item_id).expire(state.active)) == Err::<
            OptionsView,
            Seq<char>,
        >(not_initialized_message()),
{
}

/// A cleanup that comes late spares the session that has become active since: that
/// session stays active and keeps its options. What was cached for the old session
/// is dropped all the same.
pub proof fn lemma_stale_cleanup_spares_newer_session(
    state: RegistryModel,
    old_id: SessionId,
    new_id: SessionId,
)
    requires
        state.is_active(new_id),
        old_id != new_id,
    ensures
        state.clear_active(old_id) == state,
        state.expire(old_id).is_active(new_id),
        state.expire(old_id).options_of(new_id) == state.options_of(new_id),
        state.expire(old_id).options_of(old_id).is_none(),
{
}

/// A menu shown while another is open replaces it: the two sessions differ, the
/// actions schedule the cleanup of the replaced one, and when that cleanup runs the
/// new session is still active with the options it was shown with.
pub proof fn lemma_shown_menu_survives_cleanup_of_replaced(
    state: RegistryModel,
    options: OptionsView,
)
    requires
        state.wf(),
        state.can_open(),
        state.active != NO_SESSION,
    ensures
        state.open(options).active != state.active,
        show_actions(state, options)[1] == MenuAction::ScheduleCleanup(cleanup_of(state.active)),
        state.open(options).expire(state.active).is_active(state.open(options).active),
        state.open(options).expire(state.active).active_options() == Some(
            options.owned_by(state.open(options).active),
        ),
{
}

/// The options of a session stay retrievable until they are cleared: no event but
/// the cleanup of that very session changes them.
pub proof fn lemma_options_stay_until_cleared(
    state: RegistryModel,
    event: RegistryEvent,
    id: SessionId,
)
    requires
        state.wf(),
        state.options_of(id).is_some(),
        event != RegistryEvent::Cleanup(id),
    ensures
        after_event(state, event).options_of(id) == state.options_of(id),
{
}

/// Clearing is idempotent: to clear again what was cleared changes nothing.
pub proof fn lemma_clearing_is_idempotent(state: RegistryModel, id: SessionId)
    ensures
        state.clear_active(id).clear_active(id) == state.clear_active(id),
        state.clear_options(id).clear_options(id) == state.clear_options(id),
        state.expire(id).expire(id) == state.expire(id),
{
    assert(state.sessions.remove(id).remove(id) =~= state.sessions.remove(id));
}

/// No identifier is used twice: the identifier that the next session gets is larger
/// than every identifier in the registry, so a cleanup still pending for an earlier
/// session can never hit a later one.
pub proof fn lemma_next_identifier_is_fresh(state: RegistryModel, id: SessionId)
    requires
        state.wf(),
        state.can_open(),
        state.is_active(id) || state.options_of(id).is_some() || state.holds_result_for(id),
    ensures
        id < state.next_id(),
{
}

} // verus!

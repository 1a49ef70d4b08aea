//! The watcher's decisions on the foreign-toplevel event stream.

use vstd::prelude::*;
use wayland_protocols_async::zwlr_foreign_toplevel_management_v1::handler::{
    ToplevelEvent, ToplevelWState,
};

verus! {

/// An event of the foreign-toplevel handler, carried through unopened.
#[verifier::external_type_specification]
#[verifier::external_body]
pub struct ExToplevelEvent(ToplevelEvent);

/// A state flag of a toplevel as the foreign-toplevel handler reports it.
#[verifier::external_type_specification]
#[verifier::external_body]
pub struct ExToplevelWState(ToplevelWState);

/// A state flag of a toplevel.
#[derive(Clone, Copy, Debug, PartialEq, Eq, Structural)]
pub enum StateFlag {
    Maximized,
    Minimized,
    Activated,
    Fullscreen,
}

/// Title and application id of a toplevel, as they stood at a `Done` event.
pub struct ToplevelSnapshot {
    pub title: String,
    pub app_id: String,
}

/// What one watch produces: the activated toplevel, or nothing.
pub enum QueryOutcome {
    Found(ToplevelSnapshot),
    NotFound,
}

/// An event of the toplevel stream, as far as the watcher reads it.
pub enum WatchEvent {
    /// The fields of a toplevel are final for this update cycle.
    Done { title: String, app_id: String, state: Option<Vec<StateFlag>> },
    /// Any other event; the watcher passes over it.
    Other,
}

/// What the wait loop observed when it woke up.
pub enum WatchInput {
    /// The deadline of the wait elapsed.
    DeadlineElapsed,
    /// The stream delivered an event.
    Received(WatchEvent),
    /// The stream was closed by its sender.
    StreamClosed,
}

/// What the wait loop is to do next.
pub enum WatchAction {
    /// Race the deadline against the next event again.
    Listen,
    /// No event can come any more: wait for the deadline alone.
    AwaitDeadline,
    /// Stop listening, tear the subscription down and report.
    Finish(QueryOutcome),
}

/// A `Done` event whose state set is present and holds `Activated`.
pub open spec fn is_activated_done(e: WatchEvent) -> bool {
    match e {
        WatchEvent::Done { state: Some(flags), .. } => flags@.contains(StateFlag::Activated),
        _ => false,
    }
}

/// The outcome reported for an activated `Done` event: its own title and app id.
pub open spec fn found_of(e: WatchEvent) -> QueryOutcome {
    match e {
        WatchEvent::Done { title, app_id, .. } => QueryOutcome::Found(
            ToplevelSnapshot { title, app_id },
        ),
        WatchEvent::Other => QueryOutcome::NotFound,
    }
}

/// The outcome of a watch that sees `events` in this order before its deadline:
/// the first activated `Done` event wins, and without one nothing is found.
pub open spec fn outcome_of(events: Seq<WatchEvent>) -> QueryOutcome
    decreases events.len(),
{
    if events.len() == 0 {
        QueryOutcome::NotFound
    } else if is_activated_done(events[0]) {
        found_of(events[0])
    } else {
        outcome_of(events.drop_first())
    }
}

/// Relies on `ToplevelWState`'s four variants: each maps to the flag of the same name.
#[verifier::external_body]
fn flag_of(s: &ToplevelWState) -> (r: StateFlag) {
    match s {
        ToplevelWState::Maximized => StateFlag::Maximized,
        ToplevelWState::Minimized => StateFlag::Minimized,
        ToplevelWState::Activated => StateFlag::Activated,
        ToplevelWState::Fullscreen => StateFlag::Fullscreen,
    }
}

/// Relies on `ToplevelEvent::Done`'s fields: a `Done` event hands out its title,
/// app id and state set, every other variant nothing.
#[verifier::external_body]
fn done_fields(ev: ToplevelEvent) -> (r: Option<(String, String, Option<Vec<ToplevelWState>>)>) {
    match ev {
        ToplevelEvent::Done { title, app_id, state, .. } => Some((title, app_id, state)),
        _ => None,
    }
}

/// Turns an event of the foreign-toplevel handler into the watcher's own form.
pub fn event_of(ev: ToplevelEvent) -> (r: WatchEvent) {
    match done_fields(ev) {
        Some((title, app_id, state)) => {
            let flags = match state {
                Some(ws) => {
                    let mut v: Vec<StateFlag> = Vec::new();
                    let mut i: usize = 0;
                    while i < ws.len()
                        invariant
                            i <= ws.len(),
                            v.len() == i,
                        decreases ws.len() - i,
                    {
                        v.push(flag_of(&ws[i]));
                        i = i + 1;
                    }
                    Some(v)
                },
                None => None,
            };
            WatchEvent::Done { title, app_id, state: flags }
        },
        None => WatchEvent::Other,
    }
}

/// Whether a list of flags holds `Activated`.
pub fn has_activated(flags: &Vec<StateFlag>) -> (r: bool)
    ensures
        r == flags@.contains(StateFlag::Activated),
{
    let mut i: usize = 0;
    while i < flags.len()
        invariant
            i <= flags.len(),
            forall|j: int| 0 <= j < i ==> flags@[j] != StateFlag::Activated,
        decreases flags.len() - i,
    {
        if flags[i] == StateFlag::Activated {
            return true;
        }
        i = i + 1;
    }
    false
}

/// The snapshot that an event yields: one exactly when it is an activated `Done`.
pub fn activated_snapshot(e: &WatchEvent) -> (r: Option<ToplevelSnapshot>)
    ensures
        is_activated_done(*e) ==> r is Some && found_of(*e) == QueryOutcome::Found(r->0),
        !is_activated_done(*e) ==> r is None,
{
    match e {
        WatchEvent::Done { title, app_id, state: Some(flags) } => {
            if has_activated(flags) {
                Some(ToplevelSnapshot { title: title.clone(), app_id: app_id.clone() })
            } else {
                None
            }
        },
        _ => None,
    }
}

/// One decision of the wait loop on what woke it up.
pub fn watch_step(input: WatchInput) -> (r: WatchAction)
    ensures
        input is DeadlineElapsed ==> r == WatchAction::Finish(QueryOutcome::NotFound),
        input is StreamClosed ==> r is AwaitDeadline,
        input is Received && is_activated_done(input->Received_0) ==> r == WatchAction::Finish(
            found_of(input->Received_0),
        ),
        input is Received && !is_activated_done(input->Received_0) ==> r is Listen,
{
    match input {
        WatchInput::DeadlineElapsed => WatchAction::Finish(QueryOutcome::NotFound),
        WatchInput::StreamClosed => WatchAction::AwaitDeadline,
        WatchInput::Received(e) => match activated_snapshot(&e) {
            Some(s) => WatchAction::Finish(QueryOutcome::Found(s)),
            None => WatchAction::Listen,
        },
    }
}

/// The outcome of a watch over the events that arrived before the deadline, in order.
pub fn watch_events(events: &Vec<WatchEvent>) -> (r: QueryOutcome)
    ensures
        r == outcome_of(events@),
{
    let mut i: usize = 0;
    assert(events@.subrange(0, events.len() as int) =~= events@);
    while i < events.len()
        invariant
            i <= events.len(),
            outcome_of(events@.subrange(i as int, events.len() as int)) == outcome_of(events@),
        decreases events.len() - i,
    {
        let rest = Ghost(events@.subrange(i as int, events.len() as int));
        assert(rest@[0] == events@[i as int]);
        assert(rest@.drop_first() =~= events@.subrange(i + 1, events.len() as int));
        match activated_snapshot(&events[i]) {
            Some(s) => {
                return QueryOutcome::Found(s);
            },
            None => {},
        }
        i = i + 1;
    }
    assert(events@.subrange(i as int, events.len() as int) =~= Seq::<WatchEvent>::empty());
    QueryOutcome::NotFound
}

/// A watch over events none of which is an activated `Done` finds nothing.
pub proof fn lemma_no_activation_not_found(events: Seq<WatchEvent>)
    requires
        forall|i: int| 0 <= i < events.len() ==> !is_activated_done(#[trigger] events[i]),
    ensures
        outcome_of(events) == QueryOutcome::NotFound,
    decreases events.len(),
{
    if events.len() > 0 {
        assert(!is_activated_done(events[0]));
        let rest = events.drop_first();
        assert forall|i: int| 0 <= i < rest.len() implies !is_activated_done(#[trigger] rest[i]) by {
            assert(rest[i] == events[i + 1]);
        }
        lemma_no_activation_not_found(rest);
    }
}

/// When the first activated `Done` event stands at position `k`, the watch reports
/// that event's own title and app id, whatever follows it.
pub proof fn lemma_first_activation_wins(events: Seq<WatchEvent>, k: int, later: Seq<WatchEvent>)
    requires
        0 <= k < events.len(),
        is_activated_done(events[k]),
        forall|j: int| 0 <= j < k ==> !is_activated_done(#[trigger] events[j]),
    ensures
        outcome_of(events) == found_of(events[k]),
        outcome_of(events.subrange(0, k + 1) + later) == found_of(events[k]),
    decreases k,
{
    if k > 0 {
        assert(!is_activated_done(events[0]));
        let rest = events.drop_first();
        assert forall|j: int| 0 <= j < k - 1 implies !is_activated_done(#[trigger] rest[j]) by {
            assert(rest[j] == events[j + 1]);
        }
        assert(rest[k - 1] == events[k]);
        lemma_first_activation_wins(rest, k - 1, later);
        let both = events.subrange(0, k + 1) + later;
        assert(both[0] == events[0]);
        assert(both.drop_first() =~= rest.subrange(0, k) + later);
    } else {
        let both = events.subrange(0, k + 1) + later;
        assert(both[0] == events[0]);
    }
}

/// A `Done` event whose state set is missing, or lacks `Activated`, leaves the
/// outcome of the watch to the events that follow it.
pub proof fn lemma_inactive_done_ignored(
    title: String,
    app_id: String,
    state: Option<Vec<StateFlag>>,
    rest: Seq<WatchEvent>,
)
    requires
        state is None || !state->0@.contains(StateFlag::Activated),
    ensures
        outcome_of(seq![WatchEvent::Done { title, app_id, state }] + rest) == outcome_of(rest),
{
    let events = seq![WatchEvent::Done { title, app_id, state }] + rest;
    assert(events[0] == WatchEvent::Done { title, app_id, state });
    assert(events.drop_first() =~= rest);
}

} // verus!

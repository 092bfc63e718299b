//! One round of the event loop of a widget: the messages it received since
//! the last round are carried out on its window, and the way its event queue
//! is served is chosen.
use vstd::prelude::*;
use crate::state_value::DataType;
use crate::window_state::{
    handle_effect, handle_requests, hidden, hide_requests, show_requests, shown, Handle,
    SurfaceAction, WindowState,
};

verus! {

/// A message from the service that shares a widget's state on the session
/// bus.
#[derive(Debug)]
pub enum InternalHandle {
    /// The value of a key was changed to the given value.
    StateValChange((String, DataType)),
    ShowWinAgain,
    HideWindow,
}

/// How the event queue of a widget is served in a round.
#[derive(Debug, Clone, Copy, PartialEq, Eq, Structural)]
pub enum QueueStep {
    /// Send the pending requests and wait until the compositor has answered
    /// them all: the widget waits for its first configuration.
    Roundtrip,
    /// Send the pending requests, dispatch the events already read, and read
    /// what is there.
    DispatchPending,
}

/// What a round asks of the widget besides its window requests.
#[derive(Debug)]
pub struct RoundPlan {
    /// A value to store in the widget's state, after which the widget's
    /// callback runs.
    pub state_change: Option<(String, DataType)>,
    /// The requests to its layer surface, in order.
    pub requests: Vec<SurfaceAction>,
    /// How its event queue is served.
    pub queue: QueueStep,
}

/// The window after a message from the state service.
pub open spec fn internal_effect(i: Option<InternalHandle>, s: WindowState) -> WindowState {
    match i {
        Some(InternalHandle::ShowWinAgain) => shown(s),
        Some(InternalHandle::HideWindow) => hidden(s),
        _ => s,
    }
}

/// The surface requests of a message from the state service.
pub open spec fn internal_requests(i: Option<InternalHandle>, s: WindowState) -> Seq<SurfaceAction> {
    match i {
        Some(InternalHandle::ShowWinAgain) => show_requests(s),
        Some(InternalHandle::HideWindow) => hide_requests(s),
        _ => Seq::empty(),
    }
}

/// What one round does to a widget: the message from the state service is
/// carried out first, then the request sent to the widget; the plan holds
/// their surface requests in order and the value to store, and the event
/// queue waits for the compositor while the widget has not had its first
/// configuration.
pub open spec fn is_round(
    before: WindowState,
    internal: Option<InternalHandle>,
    handle: Option<Handle>,
    p: RoundPlan,
    after: WindowState,
) -> bool {
    let mid = internal_effect(internal, before);
    &&& after == match handle {
        Some(h) => handle_effect(h, mid),
        None => mid,
    }
    &&& p.requests@ == internal_requests(internal, before) + match handle {
        Some(h) => handle_requests(h, mid),
        None => Seq::<SurfaceAction>::empty(),
    }
    &&& match internal {
        Some(InternalHandle::StateValChange((k, v))) => p.state_change matches Some((k2, v2))
            && k2@ == k@ && v2@ == v@,
        _ => p.state_change is None,
    }
    &&& p.queue == (if after.first_configure {
        QueueStep::Roundtrip
    } else {
        QueueStep::DispatchPending
    })
}

/// Plans one round of a widget's event loop: first the message from the
/// state service, if one came (a widget reads it only when it has a state
/// and a callback), then the request sent to the widget, if one came.
pub fn spell_round(window: &mut WindowState, internal: Option<InternalHandle>, handle: Option<Handle>) -> (p: RoundPlan)
    ensures
        is_round(*old(window), internal, handle, p, *final(window)),
{
    let ghost before = *window;
    let mut requests: Vec<SurfaceAction> = Vec::new();
    let mut state_change: Option<(String, DataType)> = None;
    match internal {
        Some(InternalHandle::StateValChange(change)) => {
            state_change = Some(change);
        },
        Some(InternalHandle::ShowWinAgain) => {
            requests = window.show_again();
        },
        Some(InternalHandle::HideWindow) => {
            requests = window.hide_window();
        },
        None => {},
    }
    let ghost mid = *window;
    assert(mid == internal_effect(internal, before));
    match handle {
        Some(h) => {
            let mut more = window.apply_handle(h);
            requests.append(&mut more);
        },
        None => {},
    }
    let queue = if window.first_configure {
        QueueStep::Roundtrip
    } else {
        QueueStep::DispatchPending
    };
    RoundPlan { state_change, requests, queue }
}

/// Plans one round of the event loop of several widgets: each widget, in
/// order, has its round planned from the message its state service sent and
/// the request sent to it. The messages and requests must be given one per
/// widget.
pub fn enchant_round(
    windows: &mut Vec<WindowState>,
    internal: Vec<Option<InternalHandle>>,
    handles: Vec<Option<Handle>>,
) -> (plans: Vec<RoundPlan>)
    requires
        internal@.len() == old(windows)@.len(),
        handles@.len() == old(windows)@.len(),
    ensures
        final(windows)@.len() == old(windows)@.len(),
        plans@.len() == old(windows)@.len(),
        forall|i: int|
            0 <= i < plans@.len() ==> is_round(
                old(windows)@[i],
                internal@[i],
                handles@[i],
                #[trigger] plans@[i],
                final(windows)@[i],
            ),
{
    let ghost before = windows@;
    let ghost messages = internal@;
    let mut rest = internal;
    let mut plans: Vec<RoundPlan> = Vec::new();
    let n = windows.len();
    let mut i: usize = 0;
    while i < n
        invariant
            n == before.len() == windows@.len(),
            messages.len() == n,
            handles@.len() == n,
            i <= n,
            rest@ == messages.subrange(i as int, n as int),
            plans@.len() == i,
            forall|k: int| i <= k < n ==> windows@[k] == before[k],
            forall|k: int|
                0 <= k < i ==> is_round(
                    before[k],
                    messages[k],
                    handles@[k],
                    #[trigger] plans@[k],
                    windows@[k],
                ),
        decreases n - i,
    {
        let message = rest.remove(0);
        assert(message == messages[i as int]);
        let mut w = windows[i];
        let plan = spell_round(&mut w, message, handles[i]);
        windows.set(i, w);
        plans.push(plan);
        assert(rest@ =~= messages.subrange(i + 1, n as int));
        i = i + 1;
    }
    plans
}

/// The vectors that describe the widgets of a multi-widget loop (windows,
/// request receivers, states, callbacks) must have one entry per widget.
pub fn widgets_consistent(windows: usize, handles: usize, states: usize, callbacks: usize) -> (ok: bool)
    ensures
        ok == (handles == windows && handles == states && handles == callbacks),
{
    handles == windows && handles == states && handles == callbacks
}

} // verus!

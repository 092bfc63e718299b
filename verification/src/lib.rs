//! Verified core of the Spell widget framework: pixel blending, buffer
//! layout, window configuration, window state transitions and event-loop
//! rounds, pointer and key mapping, the command line grammar, the IPC wire
//! format, the state service's decisions, the lock screen, and the
//! application catalogue.
pub mod pixel;
pub mod shared_context;
pub mod text;
pub mod vault;
pub mod configure;
pub mod window_state;
pub mod cli;
pub mod ipc;
pub mod state_value;
pub mod mapping;
pub mod lock;
pub mod input;
pub mod event_loop;
pub mod clipboard;

use vstd::prelude::*;

verus! {

/// Why running a widget stopped.
#[derive(Debug)]
pub struct WidgetError {
    /// What went wrong, as the widget reported it.
    pub message: String,
}

/// The state of a widget that the command line reads and changes through
/// the widget's IPC socket.
pub trait IpcController {
    /// The type of the value kept under `key`.
    fn get_type(&self, key: &str) -> String;

    /// Changes the value kept under `key` to `val`.
    fn change_val(&mut self, key: &str, val: &str);
}

/// A widget that the event loop drives: each call of `on_call` dispatches
/// the events that are pending for it.
pub trait SpellAssociatedNew {
    /// Dispatches the pending events of the widget.
    fn on_call(&mut self) -> Result<(), WidgetError>;
}

/// Runs one dispatch of a single widget and hands back what it reported.
pub fn cast_spell_inner<S: SpellAssociatedNew>(waywindow: S) -> (r: Result<(), WidgetError>) {
    let mut waywindow = waywindow;
    waywindow.on_call()
}

/// Runs one round of the event loop of several widgets: each widget, in
/// order, dispatches its pending events; the round stops at the first widget
/// that reports an error and hands that error back. The widgets stay where
/// they are. A round without widgets succeeds.
pub fn cast_spells_round(windows: &mut Vec<Box<dyn SpellAssociatedNew>>) -> (r: Result<(), WidgetError>)
    ensures
        final(windows)@.len() == old(windows)@.len(),
        old(windows)@.len() == 0 ==> r is Ok,
{
    let n = windows.len();
    let mut result: Result<(), WidgetError> = Ok(());
    let mut i: usize = 0;
    while i < n
        invariant
            windows@.len() == n,
            i <= n,
            n == 0 ==> result is Ok,
        decreases n - i,
    {
        let outcome = windows[i].on_call();
        assert(windows@.len() == n);
        if outcome.is_err() {
            result = outcome;
            i = n;
        } else {
            i = i + 1;
        }
    }
    result
}

} // verus!

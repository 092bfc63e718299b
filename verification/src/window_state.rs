//! The state of a widget window as it is shown, hidden, focused and redrawn,
//! and the surface requests each change calls for.
use vstd::prelude::*;
use crate::configure::KeyboardInteractivity;

verus! {

/// A request made to the layer surface of a widget.
#[derive(Debug, Clone, Copy, PartialEq, Eq, Structural)]
pub enum SurfaceAction {
    /// Remove the buffer from the surface, which hides it.
    DetachBuffer,
    /// Apply the window configuration (size, margins, regions, anchors ...).
    ApplyConfig,
    /// Set the keyboard relation of the surface.
    SetKeyboard(KeyboardInteractivity),
    /// Set the exclusive zone of the surface.
    SetExclusiveZone(i32),
    /// Mark the whole buffer as damaged.
    DamageAll,
    /// Attach the drawn buffer to the surface.
    AttachBuffer,
    /// Ask for the next frame callback.
    RequestFrame,
    /// Commit the pending state of the surface.
    Commit,
}

/// A request sent to a running widget from another thread or process.
#[derive(Debug, Clone, Copy, PartialEq, Eq, Structural)]
pub enum Handle {
    HideWindow,
    ShowWinAgain,
    ToggleWindow,
}

/// The virtual keyboard of the framework; it has no operations yet.
pub struct SpellBoard;

/// Whether the interface of a widget asked to be drawn again since it was
/// last drawn.
#[derive(Debug, Clone, Copy, PartialEq, Eq, Structural)]
pub struct RedrawFlag {
    pub needs_redraw: bool,
}

impl RedrawFlag {
    /// A new interface is drawn on its first frame.
    pub fn new() -> (f: Self)
        ensures
            f.needs_redraw,
    {
        RedrawFlag { needs_redraw: true }
    }

    /// The interface asks to be drawn again.
    pub fn request_redraw(&mut self)
        ensures
            final(self).needs_redraw,
    {
        self.needs_redraw = true;
    }

    /// Whether to draw now: the interface asked for it since the last
    /// drawing; the request is then consumed.
    pub fn take_redraw(&mut self) -> (draw: bool)
        ensures
            draw == old(self).needs_redraw,
            !final(self).needs_redraw,
    {
        let draw = self.needs_redraw;
        self.needs_redraw = false;
        draw
    }
}

/// The visibility, keyboard and redraw state of a widget window.
#[derive(Debug, Clone, Copy, PartialEq, Eq, Structural)]
pub struct WindowState {
    /// Whether the widget is hidden.
    pub is_hidden: bool,
    /// Whether the next frame must redraw the whole surface.
    pub first_configure: bool,
    /// The keyboard relation of the surface.
    pub board_interactivity: KeyboardInteractivity,
    /// The exclusive zone the surface was last given.
    pub exclusive_zone: Option<i32>,
}

impl WindowState {
    /// A freshly created widget: shown, waiting for its first full redraw.
    pub fn new(board_interactivity: KeyboardInteractivity, exclusive_zone: Option<i32>) -> (s: Self)
        ensures
            s == (WindowState { is_hidden: false, first_configure: true, board_interactivity, exclusive_zone }),
    {
        WindowState { is_hidden: false, first_configure: true, board_interactivity, exclusive_zone }
    }

    /// Hides the widget if it is visible (the `hide` request).
    pub fn hide_window(&mut self) -> (actions: Vec<SurfaceAction>)
        ensures
            final(self).is_hidden,
            *final(self) == hidden(*old(self)),
            actions@ == hide_requests(*old(self)),
            old(self).is_hidden ==> *final(self) == *old(self) && actions@ == Seq::<SurfaceAction>::empty(),
            !old(self).is_hidden ==> *final(self) == (WindowState { is_hidden: true, ..*old(self) })
                && actions@ == seq![SurfaceAction::DetachBuffer],
    {
        let mut actions: Vec<SurfaceAction> = Vec::new();
        if !self.is_hidden {
            self.is_hidden = true;
            actions.push(SurfaceAction::DetachBuffer);
        }
        actions
    }

    /// Shows the widget again if it is hidden; the next frame redraws it
    /// whole.
    pub fn show_again(&mut self) -> (actions: Vec<SurfaceAction>)
        ensures
            !final(self).is_hidden,
            *final(self) == shown(*old(self)),
            actions@ == show_requests(*old(self)),
            !old(self).is_hidden ==> *final(self) == *old(self) && actions@ == Seq::<SurfaceAction>::empty(),
            old(self).is_hidden ==> *final(self) == (WindowState {
                is_hidden: false,
                first_configure: true,
                ..*old(self)
            }) && actions@ == seq![SurfaceAction::ApplyConfig, SurfaceAction::Commit],
    {
        let mut actions: Vec<SurfaceAction> = Vec::new();
        if self.is_hidden {
            self.is_hidden = false;
            actions.push(SurfaceAction::ApplyConfig);
            self.first_configure = true;
            actions.push(SurfaceAction::Commit);
        }
        actions
    }

    /// Hides the widget if it is visible, shows it again if it is hidden.
    pub fn toggle(&mut self) -> (actions: Vec<SurfaceAction>)
        ensures
            final(self).is_hidden == !old(self).is_hidden,
            *final(self) == toggled(*old(self)),
            old(self).is_hidden ==> *final(self) == (WindowState {
                is_hidden: false,
                first_configure: true,
                ..*old(self)
            }) && actions@ == seq![SurfaceAction::ApplyConfig, SurfaceAction::Commit],
            !old(self).is_hidden ==> *final(self) == (WindowState { is_hidden: true, ..*old(self) })
                && actions@ == seq![SurfaceAction::DetachBuffer],
    {
        if self.is_hidden {
            self.show_again()
        } else {
            self.hide_window()
        }
    }

    /// Takes the keyboard focus, unless the widget is hidden or already has
    /// it.
    pub fn grab_focus(&mut self) -> (actions: Vec<SurfaceAction>)
        ensures
            if !old(self).is_hidden && old(self).board_interactivity != KeyboardInteractivity::Exclusive {
                *final(self) == (WindowState {
                    board_interactivity: KeyboardInteractivity::Exclusive,
                    ..*old(self)
                }) && actions@ == seq![
                    SurfaceAction::SetKeyboard(KeyboardInteractivity::Exclusive),
                    SurfaceAction::Commit,
                ]
            } else {
                *final(self) == *old(self) && actions@ == Seq::<SurfaceAction>::empty()
            },
    {
        let mut actions: Vec<SurfaceAction> = Vec::new();
        if !self.is_hidden && self.board_interactivity != KeyboardInteractivity::Exclusive {
            self.board_interactivity = KeyboardInteractivity::Exclusive;
            actions.push(SurfaceAction::SetKeyboard(KeyboardInteractivity::Exclusive));
            actions.push(SurfaceAction::Commit);
        }
        actions
    }

    /// Gives the keyboard focus up, unless the widget is hidden or does not
    /// take keyboard input.
    pub fn remove_focus(&mut self) -> (actions: Vec<SurfaceAction>)
        ensures
            if !old(self).is_hidden && old(self).board_interactivity != KeyboardInteractivity::NoFocus {
                *final(self) == (WindowState {
                    board_interactivity: KeyboardInteractivity::NoFocus,
                    ..*old(self)
                }) && actions@ == seq![
                    SurfaceAction::SetKeyboard(KeyboardInteractivity::NoFocus),
                    SurfaceAction::Commit,
                ]
            } else {
                *final(self) == *old(self) && actions@ == Seq::<SurfaceAction>::empty()
            },
    {
        let mut actions: Vec<SurfaceAction> = Vec::new();
        if !self.is_hidden && self.board_interactivity != KeyboardInteractivity::NoFocus {
            self.board_interactivity = KeyboardInteractivity::NoFocus;
            actions.push(SurfaceAction::SetKeyboard(KeyboardInteractivity::NoFocus));
            actions.push(SurfaceAction::Commit);
        }
        actions
    }

    /// Sets the exclusive zone of the widget.
    pub fn set_exclusive_zone(&mut self, val: i32) -> (actions: Vec<SurfaceAction>)
        ensures
            *final(self) == (WindowState { exclusive_zone: Some(val), ..*old(self) }),
            actions@ == seq![SurfaceAction::SetExclusiveZone(val), SurfaceAction::Commit],
    {
        self.exclusive_zone = Some(val);
        let mut actions: Vec<SurfaceAction> = Vec::new();
        actions.push(SurfaceAction::SetExclusiveZone(val));
        actions.push(SurfaceAction::Commit);
        actions
    }

    /// Whether a frame callback must draw the widget: it is not hidden.
    pub fn frame_needs_draw(&self) -> (draw: bool)
        ensures
            draw == !self.is_hidden,
    {
        !self.is_hidden
    }

    /// Finishes a frame callback, given whether drawing changed anything:
    /// a visible widget attaches its buffer (marking it all damaged) on its
    /// first frame or after a change, and asks for the next frame.
    pub fn frame_end(&mut self, redrawn: bool) -> (actions: Vec<SurfaceAction>)
        ensures
            if old(self).is_hidden {
                *final(self) == *old(self) && actions@ == seq![SurfaceAction::Commit]
            } else if old(self).first_configure || redrawn {
                *final(self) == (WindowState { first_configure: false, ..*old(self) }) && actions@
                    == seq![
                    SurfaceAction::DamageAll,
                    SurfaceAction::AttachBuffer,
                    SurfaceAction::RequestFrame,
                    SurfaceAction::Commit,
                ]
            } else {
                *final(self) == *old(self) && actions@ == seq![
                    SurfaceAction::RequestFrame,
                    SurfaceAction::Commit,
                ]
            },
    {
        let mut actions: Vec<SurfaceAction> = Vec::new();
        if !self.is_hidden {
            if self.first_configure || redrawn {
                self.first_configure = false;
                actions.push(SurfaceAction::DamageAll);
                actions.push(SurfaceAction::AttachBuffer);
            }
            actions.push(SurfaceAction::RequestFrame);
        }
        actions.push(SurfaceAction::Commit);
        actions
    }

    /// Carries out a request sent to the widget.
    pub fn apply_handle(&mut self, handle: Handle) -> (actions: Vec<SurfaceAction>)
        ensures
            *final(self) == handle_effect(handle, *old(self)),
            actions@ == handle_requests(handle, *old(self)),
    {
        match handle {
            Handle::HideWindow => self.hide_window(),
            Handle::ShowWinAgain => self.show_again(),
            Handle::ToggleWindow => self.toggle(),
        }
    }
}

/// The window after a request sent to the widget.
pub open spec fn handle_effect(h: Handle, s: WindowState) -> WindowState {
    match h {
        Handle::HideWindow => hidden(s),
        Handle::ShowWinAgain => shown(s),
        Handle::ToggleWindow => toggled(s),
    }
}

/// The surface requests of a request sent to the widget.
pub open spec fn handle_requests(h: Handle, s: WindowState) -> Seq<SurfaceAction> {
    match h {
        Handle::HideWindow => hide_requests(s),
        Handle::ShowWinAgain => show_requests(s),
        Handle::ToggleWindow => if s.is_hidden {
            show_requests(s)
        } else {
            hide_requests(s)
        },
    }
}

/// The surface requests of hiding: the buffer is detached from a visible
/// widget.
pub open spec fn hide_requests(s: WindowState) -> Seq<SurfaceAction> {
    if s.is_hidden {
        Seq::empty()
    } else {
        seq![SurfaceAction::DetachBuffer]
    }
}

/// The surface requests of showing again: a hidden widget has its
/// configuration applied and committed.
pub open spec fn show_requests(s: WindowState) -> Seq<SurfaceAction> {
    if s.is_hidden {
        seq![SurfaceAction::ApplyConfig, SurfaceAction::Commit]
    } else {
        Seq::empty()
    }
}

/// The state after hiding.
pub open spec fn hidden(s: WindowState) -> WindowState {
    if s.is_hidden {
        s
    } else {
        WindowState { is_hidden: true, ..s }
    }
}

/// The state after showing again.
pub open spec fn shown(s: WindowState) -> WindowState {
    if s.is_hidden {
        WindowState { is_hidden: false, first_configure: true, ..s }
    } else {
        s
    }
}

/// The state after toggling.
pub open spec fn toggled(s: WindowState) -> WindowState {
    if s.is_hidden {
        shown(s)
    } else {
        hidden(s)
    }
}

/// Hiding twice is hiding once.
pub proof fn lemma_hide_idempotent(s: WindowState)
    ensures
        hidden(hidden(s)) == hidden(s),
{
}

/// Showing twice is showing once.
pub proof fn lemma_show_idempotent(s: WindowState)
    ensures
        shown(shown(s)) == shown(s),
{
}

/// Toggling twice restores the visibility, focus and exclusive zone of the
/// widget; a widget that was visible is left waiting for a full redraw.
pub proof fn lemma_toggle_twice(s: WindowState)
    ensures
        toggled(toggled(s)).is_hidden == s.is_hidden,
        toggled(toggled(s)).board_interactivity == s.board_interactivity,
        toggled(toggled(s)).exclusive_zone == s.exclusive_zone,
        !s.is_hidden ==> toggled(toggled(s)) == (WindowState { first_configure: true, ..s }),
{
}

/// Showing a hidden widget again undoes hiding it, except that the next
/// frame redraws it whole.
pub proof fn lemma_show_undoes_hide(s: WindowState)
    requires
        !s.is_hidden,
    ensures
        shown(hidden(s)) == (WindowState { first_configure: true, ..s }),
{
}

/// The first frame after showing a widget again attaches its buffer, so the
/// widget reappears even when nothing was drawn.
pub proof fn lemma_show_then_frame_attaches(s: WindowState)
    requires
        s.is_hidden,
    ensures
        !shown(s).is_hidden && shown(s).first_configure,
{
}

} // verus!

//! Pointer input: which interface a pointer event goes to and what it is
//! turned into. Positions and scroll amounts are left to the caller.
use vstd::prelude::*;
use crate::mapping::{button_of, map_pointer_button, PointerEventButton};

verus! {

/// The surface a pointer event happened on, as the widget knows it.
#[derive(Debug, Clone, Copy, PartialEq, Eq, Structural)]
pub enum PointerSurface {
    /// A popup the widget opened.
    Popup,
    /// The widget's own layer surface.
    Layer,
    /// A surface the widget does not know.
    Unknown,
}

/// The kind of a pointer event, with the codes it carries.
#[derive(Debug, Clone, Copy, PartialEq, Eq, Structural)]
pub enum PointerKind {
    Enter { serial: u32 },
    Leave,
    Motion,
    Press { button: u32 },
    Release { button: u32 },
    Axis,
}

/// The interface event a pointer event becomes.
#[derive(Debug, Clone, Copy, PartialEq, Eq, Structural)]
pub enum PointerDispatch {
    /// The pointer moved to the event's position.
    Moved,
    /// The pointer left the surface.
    Exited,
    /// A button was pressed at the event's position.
    Pressed(PointerEventButton),
    /// A button was released at the event's position.
    Released(PointerEventButton),
    /// The surface was scrolled by the event's amounts, negated when
    /// `reversed` holds.
    Scrolled { reversed: bool },
}

/// The interface event of a pointer event; natural scrolling reverses the
/// amounts.
pub open spec fn dispatch_of(kind: PointerKind, natural_scroll: bool) -> PointerDispatch {
    match kind {
        PointerKind::Enter { .. } => PointerDispatch::Moved,
        PointerKind::Leave => PointerDispatch::Exited,
        PointerKind::Motion => PointerDispatch::Moved,
        PointerKind::Press { button } => PointerDispatch::Pressed(button_of(button)),
        PointerKind::Release { button } => PointerDispatch::Released(button_of(button)),
        PointerKind::Axis => PointerDispatch::Scrolled { reversed: natural_scroll },
    }
}

/// Routes a pointer event of a widget: events on a popup go to the popup's
/// interface, those on the layer surface to the widget's, others are
/// dropped (`None`). Entering the surface records the serial of the event,
/// with which the cursor shape is later set.
pub fn route_pointer_event(
    surface: PointerSurface,
    kind: PointerKind,
    natural_scroll: bool,
    last_enter_serial: &mut Option<u32>,
) -> (r: Option<(PointerSurface, PointerDispatch)>)
    ensures
        surface == PointerSurface::Unknown ==> r is None && *final(last_enter_serial) == *old(last_enter_serial),
        surface != PointerSurface::Unknown ==> r == Some((surface, dispatch_of(kind, natural_scroll))),
        surface != PointerSurface::Unknown && kind is Enter ==> *final(last_enter_serial) == Some(kind->serial),
        !(kind is Enter) ==> *final(last_enter_serial) == *old(last_enter_serial),
{
    if surface == PointerSurface::Unknown {
        return None;
    }
    let dispatch = match kind {
        PointerKind::Enter { serial } => {
            *last_enter_serial = Some(serial);
            PointerDispatch::Moved
        },
        PointerKind::Leave => PointerDispatch::Exited,
        PointerKind::Motion => PointerDispatch::Moved,
        PointerKind::Press { button } => PointerDispatch::Pressed(map_pointer_button(button)),
        PointerKind::Release { button } => PointerDispatch::Released(map_pointer_button(button)),
        PointerKind::Axis => PointerDispatch::Scrolled { reversed: natural_scroll },
    };
    Some((surface, dispatch))
}

} // verus!

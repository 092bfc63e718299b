use spell_framework::configure::KeyboardInteractivity;
use spell_framework::event_loop::{enchant_round, spell_round, widgets_consistent, InternalHandle, QueueStep};
use spell_framework::input::{route_pointer_event, PointerDispatch, PointerKind, PointerSurface};
use spell_framework::mapping::PointerEventButton;
use spell_framework::state_value::DataType;
use spell_framework::window_state::{Handle, RedrawFlag, SurfaceAction, WindowState};

fn shown_state() -> WindowState {
    WindowState::new(KeyboardInteractivity::NoFocus, None)
}

#[test]
fn new_window_waits_for_first_draw() {
    let s = shown_state();
    assert!(!s.is_hidden);
    assert!(s.first_configure);
}

#[test]
fn hide_detaches_once() {
    let mut s = shown_state();
    assert_eq!(s.hide_window(), vec![SurfaceAction::DetachBuffer]);
    assert!(s.is_hidden);
    assert_eq!(s.hide_window(), vec![]);
    assert!(s.is_hidden);
}

#[test]
fn show_again_reconfigures_and_redraws() {
    let mut s = shown_state();
    assert_eq!(s.show_again(), vec![]);
    s.first_configure = false;
    s.hide_window();
    assert_eq!(s.show_again(), vec![SurfaceAction::ApplyConfig, SurfaceAction::Commit]);
    assert!(!s.is_hidden);
    assert!(s.first_configure);
}

#[test]
fn toggle_twice_restores_visibility() {
    let mut s = shown_state();
    s.first_configure = false;
    assert_eq!(s.toggle(), vec![SurfaceAction::DetachBuffer]);
    assert!(s.is_hidden);
    assert_eq!(s.toggle(), vec![SurfaceAction::ApplyConfig, SurfaceAction::Commit]);
    assert!(!s.is_hidden);
}

#[test]
fn focus_changes_only_when_visible() {
    let mut s = shown_state();
    assert_eq!(
        s.grab_focus(),
        vec![SurfaceAction::SetKeyboard(KeyboardInteractivity::Exclusive), SurfaceAction::Commit]
    );
    assert_eq!(s.grab_focus(), vec![]);
    assert_eq!(
        s.remove_focus(),
        vec![SurfaceAction::SetKeyboard(KeyboardInteractivity::NoFocus), SurfaceAction::Commit]
    );
    s.hide_window();
    assert_eq!(s.grab_focus(), vec![]);
    assert_eq!(s.board_interactivity, KeyboardInteractivity::NoFocus);
}

#[test]
fn exclusive_zone_is_recorded() {
    let mut s = shown_state();
    assert_eq!(s.set_exclusive_zone(42), vec![SurfaceAction::SetExclusiveZone(42), SurfaceAction::Commit]);
    assert_eq!(s.exclusive_zone, Some(42));
}

#[test]
fn frame_after_show_attaches_buffer() {
    let mut s = shown_state();
    assert!(s.frame_needs_draw());
    assert_eq!(
        s.frame_end(false),
        vec![
            SurfaceAction::DamageAll,
            SurfaceAction::AttachBuffer,
            SurfaceAction::RequestFrame,
            SurfaceAction::Commit
        ]
    );
    assert_eq!(s.frame_end(false), vec![SurfaceAction::RequestFrame, SurfaceAction::Commit]);
    assert_eq!(s.frame_end(true).len(), 4);
    s.hide_window();
    assert!(!s.frame_needs_draw());
    assert_eq!(s.frame_end(true), vec![SurfaceAction::Commit]);
}

#[test]
fn handles_act_on_window() {
    let mut s = shown_state();
    s.apply_handle(Handle::HideWindow);
    assert!(s.is_hidden);
    s.apply_handle(Handle::ToggleWindow);
    assert!(!s.is_hidden);
    s.apply_handle(Handle::ShowWinAgain);
    assert!(!s.is_hidden);
}

#[test]
fn round_carries_out_messages_in_order() {
    let mut s = shown_state();
    s.first_configure = false;
    let plan = spell_round(&mut s, Some(InternalHandle::HideWindow), Some(Handle::ToggleWindow));
    assert_eq!(
        plan.requests,
        vec![SurfaceAction::DetachBuffer, SurfaceAction::ApplyConfig, SurfaceAction::Commit]
    );
    assert!(!s.is_hidden);
    assert!(plan.state_change.is_none());
    assert_eq!(plan.queue, QueueStep::Roundtrip);
}

#[test]
fn round_passes_state_changes_on() {
    let mut s = shown_state();
    s.first_configure = false;
    let plan = spell_round(
        &mut s,
        Some(InternalHandle::StateValChange(("count".to_string(), DataType::Int(3)))),
        None,
    );
    match plan.state_change {
        Some((k, DataType::Int(v))) => {
            assert_eq!(k, "count");
            assert_eq!(v, 3);
        }
        other => panic!("unexpected {:?}", other),
    }
    assert!(plan.requests.is_empty());
    assert_eq!(plan.queue, QueueStep::DispatchPending);
}

#[test]
fn multi_widget_vectors_must_match() {
    assert!(widgets_consistent(2, 2, 2, 2));
    assert!(!widgets_consistent(2, 1, 2, 2));
}

#[test]
fn pointer_events_are_routed() {
    let mut serial = None;
    assert_eq!(
        route_pointer_event(PointerSurface::Layer, PointerKind::Enter { serial: 7 }, false, &mut serial),
        Some((PointerSurface::Layer, PointerDispatch::Moved))
    );
    assert_eq!(serial, Some(7));
    assert_eq!(
        route_pointer_event(PointerSurface::Popup, PointerKind::Press { button: 0x110 }, false, &mut serial),
        Some((PointerSurface::Popup, PointerDispatch::Pressed(PointerEventButton::Left)))
    );
    assert_eq!(
        route_pointer_event(PointerSurface::Layer, PointerKind::Release { button: 0x116 }, false, &mut serial),
        Some((PointerSurface::Layer, PointerDispatch::Released(PointerEventButton::Back)))
    );
    assert_eq!(
        route_pointer_event(PointerSurface::Layer, PointerKind::Axis, true, &mut serial),
        Some((PointerSurface::Layer, PointerDispatch::Scrolled { reversed: true }))
    );
    assert_eq!(
        route_pointer_event(PointerSurface::Layer, PointerKind::Leave, false, &mut serial),
        Some((PointerSurface::Layer, PointerDispatch::Exited))
    );
    assert_eq!(
        route_pointer_event(PointerSurface::Unknown, PointerKind::Enter { serial: 9 }, false, &mut serial),
        None
    );
    assert_eq!(serial, Some(7));
}

#[test]
fn redraw_requests_are_taken_once() {
    let mut f = RedrawFlag::new();
    assert!(f.take_redraw());
    assert!(!f.take_redraw());
    f.request_redraw();
    f.request_redraw();
    assert!(f.take_redraw());
    assert!(!f.take_redraw());
}

#[test]
fn enchant_round_plans_each_widget() {
    let mut a = shown_state();
    a.first_configure = false;
    let b = shown_state();
    let mut windows = vec![a, b];
    let plans = enchant_round(
        &mut windows,
        vec![Some(InternalHandle::HideWindow), None],
        vec![None, Some(Handle::HideWindow)],
    );
    assert_eq!(plans.len(), 2);
    assert_eq!(plans[0].requests, vec![SurfaceAction::DetachBuffer]);
    assert_eq!(plans[0].queue, QueueStep::DispatchPending);
    assert_eq!(plans[1].requests, vec![SurfaceAction::DetachBuffer]);
    assert_eq!(plans[1].queue, QueueStep::Roundtrip);
    assert!(windows[0].is_hidden && windows[1].is_hidden);
}

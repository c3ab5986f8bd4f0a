use ocean_engine::engine::{
    inputs_enabled_after, window_event_action, AppContext, EventAction, WindowEventKind,
};

#[test]
fn cursor_starts_enabled_with_nothing_pending() {
    let mut ctx = AppContext::default();
    assert!(ctx.is_cursor_enabled());
    assert_eq!(ctx.update(), None);
}

#[test]
fn cursor_change_is_applied_once() {
    let mut ctx = AppContext::default();
    ctx.set_cursor_enabled(false);
    assert!(!ctx.is_cursor_enabled());
    assert_eq!(ctx.update(), Some(false));
    assert_eq!(ctx.update(), None);
    ctx.set_cursor_enabled(false);
    assert_eq!(ctx.update(), None);
    ctx.set_cursor_enabled(true);
    assert_eq!(ctx.update(), Some(true));
}

#[test]
fn setting_same_state_clears_pending_change() {
    let mut ctx = AppContext::default();
    ctx.set_cursor_enabled(false);
    ctx.set_cursor_enabled(false);
    assert_eq!(ctx.update(), None);
}

#[test]
fn escape_releases_and_click_captures_input() {
    assert!(!inputs_enabled_after(true, true, false));
    assert!(inputs_enabled_after(true, false, false));
    assert!(!inputs_enabled_after(false, false, false));
    assert!(inputs_enabled_after(false, false, true));
    assert!(inputs_enabled_after(true, true, true));
}

#[test]
fn window_events_map_to_actions() {
    assert_eq!(window_event_action(false, WindowEventKind::RedrawRequested), EventAction::Render);
    assert_eq!(window_event_action(false, WindowEventKind::Resized), EventAction::Resize);
    assert_eq!(window_event_action(false, WindowEventKind::ScaleFactorChanged), EventAction::Resize);
    assert_eq!(window_event_action(false, WindowEventKind::CloseRequested), EventAction::Exit);
    assert_eq!(window_event_action(false, WindowEventKind::Other), EventAction::Ignore);
    assert_eq!(window_event_action(true, WindowEventKind::CloseRequested), EventAction::Ignore);
    assert_eq!(window_event_action(true, WindowEventKind::RedrawRequested), EventAction::Ignore);
}

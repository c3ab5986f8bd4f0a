//! Decisions of the application shell: which events it acts on, whether
//! input drives the camera, and when the cursor must be updated.
use vstd::prelude::*;

verus! {

/// Cursor state of the application, applied to the window when it changes.
#[derive(Debug)]
pub struct AppContext {
    update: bool,
    cursor_enabled: bool,
}

impl AppContext {
    pub closed spec fn spec_cursor_enabled(&self) -> bool {
        self.cursor_enabled
    }

    /// Whether the window still has to be told of a change.
    pub closed spec fn spec_pending(&self) -> bool {
        self.update
    }

    /// Sets whether the cursor is free and visible. A change is pending
    /// exactly when this call changed the state.
    pub fn set_cursor_enabled(&mut self, cursor_enabled: bool)
        ensures
            final(self).spec_cursor_enabled() == cursor_enabled,
            final(self).spec_pending() == (cursor_enabled != old(self).spec_cursor_enabled()),
    {
        self.update = cursor_enabled != self.cursor_enabled;
        self.cursor_enabled = cursor_enabled;
    }

    pub fn is_cursor_enabled(&self) -> (r: bool)
        ensures
            r == self.spec_cursor_enabled(),
    {
        self.cursor_enabled
    }

    /// The cursor state to apply to the window, if a change is pending; the
    /// change is then no longer pending.
    pub fn update(&mut self) -> (r: Option<bool>)
        ensures
            r == (if old(self).spec_pending() {
                Some(old(self).spec_cursor_enabled())
            } else {
                None::<bool>
            }),
            !final(self).spec_pending(),
            final(self).spec_cursor_enabled() == old(self).spec_cursor_enabled(),
    {
        if self.update {
            self.update = false;
            Some(self.cursor_enabled)
        } else {
            None
        }
    }
}

impl Default for AppContext {
    /// The cursor starts enabled, with nothing pending.
    fn default() -> (r: Self)
        ensures
            r.spec_cursor_enabled(),
            !r.spec_pending(),
    {
        AppContext { update: false, cursor_enabled: true }
    }
}

/// Whether input drives the camera on this tick: escape releases it, a
/// left click captures it again.
pub fn inputs_enabled_after(enabled: bool, escape_pressed: bool, left_click: bool) -> (r: bool)
    ensures
        r == ((enabled && !escape_pressed) || left_click),
{
    (enabled && !escape_pressed) || left_click
}

/// The window events the shell tells apart.
#[derive(Clone, Copy, Debug, PartialEq, Eq, Structural)]
pub enum WindowEventKind {
    RedrawRequested,
    Resized,
    ScaleFactorChanged,
    CloseRequested,
    Other,
}

/// What the shell does for a window event.
#[derive(Clone, Copy, Debug, PartialEq, Eq, Structural)]
pub enum EventAction {
    /// Acquire a frame, render and present it if one came, and ask for the
    /// next redraw.
    Render,
    /// Resize the GPU context to the window's size, then recreate the
    /// resources that depend on it.
    Resize,
    Exit,
    Ignore,
}

/// The action for a window event. An event that the debug overlay consumed
/// gets none; a change of scale factor is handled as a resize.
pub fn window_event_action(consumed_by_overlay: bool, event: WindowEventKind) -> (r: EventAction)
    ensures
        consumed_by_overlay ==> r == EventAction::Ignore,
        !consumed_by_overlay ==> r == match event {
            WindowEventKind::RedrawRequested => EventAction::Render,
            WindowEventKind::Resized => EventAction::Resize,
            WindowEventKind::ScaleFactorChanged => EventAction::Resize,
            WindowEventKind::CloseRequested => EventAction::Exit,
            WindowEventKind::Other => EventAction::Ignore,
        },
{
    if consumed_by_overlay {
        return EventAction::Ignore;
    }
    match event {
        WindowEventKind::RedrawRequested => EventAction::Render,
        WindowEventKind::Resized | WindowEventKind::ScaleFactorChanged => EventAction::Resize,
        WindowEventKind::CloseRequested => EventAction::Exit,
        WindowEventKind::Other => EventAction::Ignore,
    }
}

} // verus!

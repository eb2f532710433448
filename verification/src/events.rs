//! How the application answers the window system's events.

use vstd::prelude::*;
use crate::swapchain::WindowSize;

verus! {

/// The window events the application reacts to.
#[derive(Clone, Copy, Debug, PartialEq, Eq, Structural)]
pub enum WindowEventKind {
    CloseRequested,
    RedrawRequested,
    /// The drawable area changed to this size.
    SurfaceResized(WindowSize),
    Other,
}

/// What the application does in answer to a window event.
#[derive(Clone, Copy, Debug, PartialEq, Eq, Structural)]
pub enum EventAction {
    /// Leave the event loop.
    Exit,
    /// Draw a frame if `draw` holds, then ask for the next redraw.
    Redraw { draw: bool },
    /// Rebuild the swapchain for this size.
    Resize(WindowSize),
    /// Nothing to do.
    Ignore,
}

/// The answer to `event`, given whether the renderer is running: a close
/// request exits; a redraw draws when there is a renderer and asks for the
/// next redraw; a resize to a nonempty size rebuilds the swapchain when there
/// is a renderer; anything else is ignored.
pub fn window_event_action(event: WindowEventKind, has_renderer: bool) -> (r: EventAction)
    ensures
        event == WindowEventKind::CloseRequested ==> r == EventAction::Exit,
        event == WindowEventKind::RedrawRequested ==> r == (EventAction::Redraw { draw: has_renderer }),
        event matches WindowEventKind::SurfaceResized(size) ==> r == (if size.width > 0
            && size.height > 0 && has_renderer {
            EventAction::Resize(size)
        } else {
            EventAction::Ignore
        }),
        event == WindowEventKind::Other ==> r == EventAction::Ignore,
{
    match event {
        WindowEventKind::CloseRequested => EventAction::Exit,
        WindowEventKind::RedrawRequested => EventAction::Redraw { draw: has_renderer },
        WindowEventKind::SurfaceResized(size) => {
            if size.width > 0 && size.height > 0 && has_renderer {
                EventAction::Resize(size)
            } else {
                EventAction::Ignore
            }
        },
        WindowEventKind::Other => EventAction::Ignore,
    }
}

} // verus!

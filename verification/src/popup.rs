//! Window handles and the popup that the applet opens.

use vstd::prelude::*;

verus! {

/// Names one surface of the applet: the panel surface itself or a popup.
///
/// Handle 0 is the panel surface. The controller numbers the popups it opens from 1 upwards and
/// uses no number twice.
#[derive(Clone, Copy, Debug, PartialEq, Eq, Hash, Structural)]
pub struct WindowHandle(pub u64);

impl WindowHandle {
    /// The handle of the applet's own panel surface.
    pub open spec fn spec_main() -> WindowHandle {
        WindowHandle(0)
    }

    /// The handle of the applet's own panel surface.
    #[verifier::when_used_as_spec(spec_main)]
    pub fn main() -> (handle: WindowHandle)
        ensures
            handle == WindowHandle::spec_main(),
    {
        WindowHandle(0)
    }
}

/// Whether the popup is open, and under which handle.
#[derive(Clone, Copy, Debug, PartialEq, Eq, Structural)]
pub enum PopupState {
    /// No popup is open.
    Closed,
    /// One popup is open, under this handle.
    Open(WindowHandle),
}

/// What is asked of the window system when a popup is to be created.
#[derive(Clone, Copy, Debug, PartialEq, Eq)]
pub struct PopupRequest {
    /// The surface that the popup is anchored to.
    pub parent: WindowHandle,
    /// The handle of the new popup.
    pub id: WindowHandle,
    /// Width and height asked for, or `None` to leave the size to the window system.
    pub size: Option<(u32, u32)>,
    /// Horizontal padding asked for, or `None` for the window system's own.
    pub width_padding: Option<i32>,
    /// Vertical padding asked for, or `None` for the window system's own.
    pub height_padding: Option<i32>,
}

impl PopupRequest {
    /// The request for a popup `id` that is anchored to the panel surface and leaves size and
    /// position to the window system.
    pub open spec fn spec_anchored(id: WindowHandle) -> PopupRequest {
        PopupRequest {
            parent: WindowHandle::spec_main(),
            id,
            size: None,
            width_padding: None,
            height_padding: None,
        }
    }

    /// Builds the request for a popup `id` that is anchored to the panel surface and leaves size
    /// and position to the window system.
    #[verifier::when_used_as_spec(spec_anchored)]
    pub fn anchored(id: WindowHandle) -> (request: PopupRequest)
        ensures
            request == PopupRequest::spec_anchored(id),
    {
        PopupRequest {
            parent: WindowHandle::main(),
            id,
            size: None,
            width_padding: None,
            height_padding: None,
        }
    }
}

} // verus!

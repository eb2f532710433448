//! Which platform surface extension serves a display, and which surface
//! can be made for a window on it.

use vstd::prelude::*;
use crate::vk_constants::{
    error_extension_not_present, error_extension_not_present_value, error_initialization_failed,
    error_initialization_failed_value,
};

verus! {

/// The kind of display server the window lives on, with what surface
/// creation later needs to know of its handle.
#[derive(Clone, Copy, Debug, PartialEq, Eq, Structural)]
pub enum DisplayKind {
    Windows,
    Wayland,
    /// Xlib; `has_display` tells whether the handle names an X display.
    Xlib { has_display: bool },
    /// XCB; `has_connection` tells whether the handle names a connection.
    Xcb { has_connection: bool },
    Android,
    AppKit,
    UiKit,
    /// Any display this build cannot draw to.
    Unsupported,
}

/// The kind of window handle a surface is asked for.
#[derive(Clone, Copy, Debug, PartialEq, Eq, Structural)]
pub enum WindowKind {
    /// Win32; `has_hinstance` tells whether the handle names its module.
    Win32 { has_hinstance: bool },
    Wayland,
    Xlib,
    Xcb,
    AndroidNdk,
    AppKit,
    UiKit,
    Other,
}

/// The platform surface extension loaded for a display.
#[derive(Clone, Copy, Debug, PartialEq, Eq, Structural)]
pub enum SurfacePlatform {
    Windows,
    Wayland,
    Xlib { has_display: bool },
    Xcb { has_connection: bool },
    Android,
    AppKit,
    UiKit,
}

/// The surface-creation call to make.
#[derive(Clone, Copy, Debug, PartialEq, Eq, Structural)]
pub enum SurfaceRequest {
    Win32,
    Wayland,
    Xlib,
    Xcb,
    Android,
    /// A Metal layer surface, on AppKit or UIKit.
    Metal,
}

/// The platform that serves a display; none for an unsupported one.
pub open spec fn platform_for(display: DisplayKind) -> Option<SurfacePlatform> {
    match display {
        DisplayKind::Windows => Some(SurfacePlatform::Windows),
        DisplayKind::Wayland => Some(SurfacePlatform::Wayland),
        DisplayKind::Xlib { has_display } => Some(SurfacePlatform::Xlib { has_display }),
        DisplayKind::Xcb { has_connection } => Some(SurfacePlatform::Xcb { has_connection }),
        DisplayKind::Android => Some(SurfacePlatform::Android),
        DisplayKind::AppKit => Some(SurfacePlatform::AppKit),
        DisplayKind::UiKit => Some(SurfacePlatform::UiKit),
        DisplayKind::Unsupported => None,
    }
}

/// Whether a window handle is of the kind that a platform makes surfaces
/// for.
pub open spec fn window_fits_platform(platform: SurfacePlatform, window: WindowKind) -> bool {
    match (platform, window) {
        (SurfacePlatform::Windows, WindowKind::Win32 { .. }) => true,
        (SurfacePlatform::Wayland, WindowKind::Wayland) => true,
        (SurfacePlatform::Xlib { .. }, WindowKind::Xlib) => true,
        (SurfacePlatform::Xcb { .. }, WindowKind::Xcb) => true,
        (SurfacePlatform::Android, WindowKind::AndroidNdk) => true,
        (SurfacePlatform::AppKit, WindowKind::AppKit) => true,
        (SurfacePlatform::UiKit, WindowKind::UiKit) => true,
        _ => false,
    }
}

/// Whether the handles name everything the surface's creation needs: the
/// module of a Win32 window, the X display, the XCB connection.
pub open spec fn handles_complete(platform: SurfacePlatform, window: WindowKind) -> bool {
    match (platform, window) {
        (_, WindowKind::Win32 { has_hinstance }) => has_hinstance,
        (SurfacePlatform::Xlib { has_display }, _) => has_display,
        (SurfacePlatform::Xcb { has_connection }, _) => has_connection,
        _ => true,
    }
}

/// The creation call that serves a platform.
pub open spec fn request_for(platform: SurfacePlatform) -> SurfaceRequest {
    match platform {
        SurfacePlatform::Windows => SurfaceRequest::Win32,
        SurfacePlatform::Wayland => SurfaceRequest::Wayland,
        SurfacePlatform::Xlib { .. } => SurfaceRequest::Xlib,
        SurfacePlatform::Xcb { .. } => SurfaceRequest::Xcb,
        SurfacePlatform::Android => SurfaceRequest::Android,
        SurfacePlatform::AppKit => SurfaceRequest::Metal,
        SurfacePlatform::UiKit => SurfaceRequest::Metal,
    }
}

/// The platform surface extension to load for a display; a display this
/// build cannot draw to fails with `VK_ERROR_EXTENSION_NOT_PRESENT`.
pub fn surface_platform(display: DisplayKind) -> (r: Result<SurfacePlatform, i32>)
    ensures
        match platform_for(display) {
            Some(platform) => r == Ok::<SurfacePlatform, i32>(platform),
            None => r == Err::<SurfacePlatform, i32>(error_extension_not_present_value()),
        },
{
    match display {
        DisplayKind::Windows => Ok(SurfacePlatform::Windows),
        DisplayKind::Wayland => Ok(SurfacePlatform::Wayland),
        DisplayKind::Xlib { has_display } => Ok(SurfacePlatform::Xlib { has_display }),
        DisplayKind::Xcb { has_connection } => Ok(SurfacePlatform::Xcb { has_connection }),
        DisplayKind::Android => Ok(SurfacePlatform::Android),
        DisplayKind::AppKit => Ok(SurfacePlatform::AppKit),
        DisplayKind::UiKit => Ok(SurfacePlatform::UiKit),
        DisplayKind::Unsupported => Err(error_extension_not_present()),
    }
}

/// Which surface to create for a window on a platform: a window of another
/// kind fails with `VK_ERROR_EXTENSION_NOT_PRESENT`, and a handle that lacks
/// what creation needs fails with `VK_ERROR_INITIALIZATION_FAILED`.
pub fn surface_request(platform: SurfacePlatform, window: WindowKind) -> (r: Result<SurfaceRequest, i32>)
    ensures
        !window_fits_platform(platform, window) ==> r == Err::<SurfaceRequest, i32>(
            error_extension_not_present_value(),
        ),
        window_fits_platform(platform, window) && !handles_complete(platform, window) ==> r == Err::<
            SurfaceRequest,
            i32,
        >(error_initialization_failed_value()),
        window_fits_platform(platform, window) && handles_complete(platform, window) ==> r == Ok::<
            SurfaceRequest,
            i32,
        >(request_for(platform)),
{
    match (platform, window) {
        (SurfacePlatform::Windows, WindowKind::Win32 { has_hinstance }) => {
            if has_hinstance {
                Ok(SurfaceRequest::Win32)
            } else {
                Err(error_initialization_failed())
            }
        },
        (SurfacePlatform::Wayland, WindowKind::Wayland) => Ok(SurfaceRequest::Wayland),
        (SurfacePlatform::Xlib { has_display }, WindowKind::Xlib) => {
            if has_display {
                Ok(SurfaceRequest::Xlib)
            } else {
                Err(error_initialization_failed())
            }
        },
        (SurfacePlatform::Xcb { has_connection }, WindowKind::Xcb) => {
            if has_connection {
                Ok(SurfaceRequest::Xcb)
            } else {
                Err(error_initialization_failed())
            }
        },
        (SurfacePlatform::Android, WindowKind::AndroidNdk) => Ok(SurfaceRequest::Android),
        (SurfacePlatform::AppKit, WindowKind::AppKit) => Ok(SurfaceRequest::Metal),
        (SurfacePlatform::UiKit, WindowKind::UiKit) => Ok(SurfaceRequest::Metal),
        _ => Err(error_extension_not_present()),
    }
}

/// The kind of window handle that a display of this kind hands out; a
/// Win32 window is taken with its module named.
pub open spec fn window_kind_of(display: DisplayKind) -> WindowKind {
    match display {
        DisplayKind::Windows => WindowKind::Win32 { has_hinstance: true },
        DisplayKind::Wayland => WindowKind::Wayland,
        DisplayKind::Xlib { .. } => WindowKind::Xlib,
        DisplayKind::Xcb { .. } => WindowKind::Xcb,
        DisplayKind::Android => WindowKind::AndroidNdk,
        DisplayKind::AppKit => WindowKind::AppKit,
        DisplayKind::UiKit => WindowKind::UiKit,
        DisplayKind::Unsupported => WindowKind::Other,
    }
}

/// Whether a display handle names what surface creation needs of it: the
/// X display for Xlib, the connection for XCB.
pub open spec fn display_handle_complete(display: DisplayKind) -> bool {
    match display {
        DisplayKind::Xlib { has_display } => has_display,
        DisplayKind::Xcb { has_connection } => has_connection,
        _ => true,
    }
}

/// The creation call named after a window handle's own kind: Win32 windows
/// get a Win32 surface, Wayland a Wayland one, Xlib an Xlib one, XCB an XCB
/// one, Android an Android one, AppKit and UIKit a Metal layer surface.
pub open spec fn request_for_window(window: WindowKind) -> SurfaceRequest {
    match window {
        WindowKind::Win32 { .. } => SurfaceRequest::Win32,
        WindowKind::Wayland => SurfaceRequest::Wayland,
        WindowKind::Xlib => SurfaceRequest::Xlib,
        WindowKind::Xcb => SurfaceRequest::Xcb,
        WindowKind::AndroidNdk => SurfaceRequest::Android,
        WindowKind::AppKit => SurfaceRequest::Metal,
        WindowKind::UiKit => SurfaceRequest::Metal,
        WindowKind::Other => SurfaceRequest::Metal,
    }
}

/// Every supported display loads the extension of its own kind: the
/// platform makes surfaces for the windows that display hands out, it asks
/// for the creation call of their kind, and the handles count as complete
/// exactly when the display handle names its X display or XCB connection.
pub proof fn lemma_display_gets_its_own_platform(display: DisplayKind)
    requires
        display != DisplayKind::Unsupported,
    ensures
        platform_for(display) is Some,
        window_fits_platform(platform_for(display)->0, window_kind_of(display)),
        request_for(platform_for(display)->0) == request_for_window(window_kind_of(display)),
        handles_complete(platform_for(display)->0, window_kind_of(display))
            == display_handle_complete(display),
{
}

/// A display of one kind never serves a window of another: only the
/// window kind that the display hands out fits the platform loaded for it
/// (Metal platforms excepted only between AppKit and UIKit, which never
/// meet).
pub proof fn lemma_platform_serves_only_its_kind(display: DisplayKind, window: WindowKind)
    requires
        display != DisplayKind::Unsupported,
        window_fits_platform(platform_for(display)->0, window),
    ensures
        request_for_window(window) == request_for_window(window_kind_of(display)),
        window != WindowKind::Other,
{
}

/// Whenever a window fits the platform, the creation call asked for is the
/// one of the window's own kind.
pub proof fn lemma_request_matches_window(platform: SurfacePlatform, window: WindowKind)
    requires
        window_fits_platform(platform, window),
    ensures
        request_for(platform) == request_for_window(window),
{
}

} // verus!

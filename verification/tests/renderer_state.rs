use vulkan_renderer::error::RendererError;
use vulkan_renderer::events::{window_event_action, EventAction, WindowEventKind};
use vulkan_renderer::graphics_pipeline::shader_code;
use vulkan_renderer::renderer::{check_instance_extensions, FrameCursor, MAX_FRAMES_IN_FLIGHT};
use vulkan_renderer::surface_factory::{
    surface_platform, surface_request, DisplayKind, SurfacePlatform, SurfaceRequest, WindowKind,
};
use vulkan_renderer::swapchain::WindowSize;

#[test]
fn frames_cycle_through_every_slot() {
    let mut cursor = FrameCursor::new();
    assert_eq!(cursor.current(), 0);
    let mut seen = Vec::new();
    for _ in 0..MAX_FRAMES_IN_FLIGHT {
        seen.push(cursor.current());
        cursor.advance();
    }
    assert_eq!(seen, vec![0, 1]);
    assert_eq!(cursor.current(), 0);
}

#[test]
fn a_failed_draw_keeps_the_frame() {
    let mut cursor = FrameCursor::new();
    assert!(cursor.finish_draw(Ok(())).is_ok());
    assert_eq!(cursor.current(), 1);
    let r = cursor.finish_draw(Err(RendererError::Vulkan(-4)));
    assert!(matches!(r, Err(RendererError::Vulkan(-4))));
    assert_eq!(cursor.current(), 1);
    assert!(cursor.finish_draw(Ok(())).is_ok());
    assert_eq!(cursor.current(), 0);
}

#[test]
fn instance_extensions_are_concatenated() {
    let window = ["surface", "xcb"];
    let own = ["caps2", "maint1"];
    let debug = ["debug_utils"];
    let release = check_instance_extensions(Some(&window[..]), &own, &debug, false).unwrap();
    assert_eq!(release, vec!["surface", "xcb", "caps2", "maint1"]);
    let with_debug = check_instance_extensions(Some(&window[..]), &own, &debug, true).unwrap();
    assert_eq!(with_debug, vec!["surface", "xcb", "caps2", "maint1", "debug_utils"]);
}

#[test]
fn unsupported_display_has_no_extensions() {
    let own = ["caps2"];
    let r = check_instance_extensions::<&str>(None, &own, &[], true);
    assert!(matches!(r, Err(RendererError::Vulkan(-7))));
}

#[test]
fn each_display_loads_its_platform() {
    assert_eq!(surface_platform(DisplayKind::Wayland), Ok(SurfacePlatform::Wayland));
    assert_eq!(
        surface_platform(DisplayKind::Xcb { has_connection: true }),
        Ok(SurfacePlatform::Xcb { has_connection: true })
    );
    assert_eq!(surface_platform(DisplayKind::UiKit), Ok(SurfacePlatform::UiKit));
    assert_eq!(surface_platform(DisplayKind::Unsupported), Err(-7));
}

#[test]
fn surface_needs_a_matching_complete_window() {
    assert_eq!(surface_request(SurfacePlatform::Wayland, WindowKind::Wayland), Ok(SurfaceRequest::Wayland));
    assert_eq!(surface_request(SurfacePlatform::AppKit, WindowKind::AppKit), Ok(SurfaceRequest::Metal));
    assert_eq!(surface_request(SurfacePlatform::Wayland, WindowKind::Xlib), Err(-7));
    assert_eq!(
        surface_request(SurfacePlatform::Windows, WindowKind::Win32 { has_hinstance: false }),
        Err(-3)
    );
    assert_eq!(
        surface_request(SurfacePlatform::Windows, WindowKind::Win32 { has_hinstance: true }),
        Ok(SurfaceRequest::Win32)
    );
    assert_eq!(surface_request(SurfacePlatform::Xlib { has_display: false }, WindowKind::Xlib), Err(-3));
    assert_eq!(surface_request(SurfacePlatform::Xcb { has_connection: true }, WindowKind::Xcb), Ok(SurfaceRequest::Xcb));
    assert_eq!(surface_request(SurfacePlatform::Xcb { has_connection: false }, WindowKind::Other), Err(-7));
}

#[test]
fn little_endian_spirv_is_decoded() {
    let bytes = [0x03, 0x02, 0x23, 0x07, 0x00, 0x06, 0x01, 0x00];
    assert_eq!(shader_code(&bytes), Some(vec![0x0723_0203, 0x0001_0600]));
}

#[test]
fn big_endian_spirv_is_decoded() {
    let bytes = [0x07, 0x23, 0x02, 0x03, 0x00, 0x01, 0x06, 0x00];
    assert_eq!(shader_code(&bytes), Some(vec![0x0723_0203, 0x0001_0600]));
}

#[test]
fn non_spirv_is_refused() {
    assert_eq!(shader_code(&[]), None);
    assert_eq!(shader_code(&[0x03, 0x02, 0x23, 0x07, 0x00]), None);
    assert_eq!(shader_code(&[0x01, 0x02, 0x03, 0x04]), None);
}

#[test]
fn window_events_are_answered() {
    assert_eq!(window_event_action(WindowEventKind::CloseRequested, true), EventAction::Exit);
    assert_eq!(window_event_action(WindowEventKind::RedrawRequested, false), EventAction::Redraw { draw: false });
    assert_eq!(window_event_action(WindowEventKind::RedrawRequested, true), EventAction::Redraw { draw: true });
    let size = WindowSize { width: 1280, height: 720 };
    assert_eq!(window_event_action(WindowEventKind::SurfaceResized(size), true), EventAction::Resize(size));
    assert_eq!(window_event_action(WindowEventKind::SurfaceResized(size), false), EventAction::Ignore);
    let minimized = WindowSize { width: 0, height: 720 };
    assert_eq!(window_event_action(WindowEventKind::SurfaceResized(minimized), true), EventAction::Ignore);
    assert_eq!(window_event_action(WindowEventKind::Other, true), EventAction::Ignore);
}

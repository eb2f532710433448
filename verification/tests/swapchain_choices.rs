use vulkan_renderer::swapchain::{
    choose_extent, choose_image_count, choose_present_mode, choose_surface_format,
    is_preferred_surface_format, Extent2D, SurfaceCapabilities, SurfaceFormat, SwapchainPlan,
    WindowSize,
};

const SRGB_BGRA: SurfaceFormat = SurfaceFormat { format: 50, color_space: 0 };
const UNORM_BGRA: SurfaceFormat = SurfaceFormat { format: 44, color_space: 0 };

fn caps(min: u32, max: u32, current: (u32, u32), lo: (u32, u32), hi: (u32, u32)) -> SurfaceCapabilities {
    SurfaceCapabilities {
        min_image_count: min,
        max_image_count: max,
        current_extent: Extent2D { width: current.0, height: current.1 },
        min_image_extent: Extent2D { width: lo.0, height: lo.1 },
        max_image_extent: Extent2D { width: hi.0, height: hi.1 },
    }
}

#[test]
fn preferred_format_is_picked_wherever_it_stands() {
    let formats = vec![UNORM_BGRA, SurfaceFormat { format: 50, color_space: 1000104001 }, SRGB_BGRA];
    assert_eq!(choose_surface_format(&formats), SRGB_BGRA);
}

#[test]
fn first_format_is_the_fallback() {
    let formats = vec![UNORM_BGRA, SurfaceFormat { format: 37, color_space: 0 }];
    assert_eq!(choose_surface_format(&formats), UNORM_BGRA);
    assert!(!is_preferred_surface_format(&UNORM_BGRA));
    assert!(is_preferred_surface_format(&SRGB_BGRA));
}

#[test]
fn preferred_format_needs_the_right_color_space() {
    let wrong_space = SurfaceFormat { format: 50, color_space: 1000104001 };
    assert_eq!(choose_surface_format(&vec![wrong_space]), wrong_space);
    assert!(!is_preferred_surface_format(&wrong_space));
}

#[test]
fn mailbox_when_offered() {
    assert_eq!(choose_present_mode(&vec![0, 2, 1, 3]), 1);
}

#[test]
fn fifo_otherwise() {
    assert_eq!(choose_present_mode(&vec![0, 3]), 2);
    assert_eq!(choose_present_mode(&vec![]), 2);
}

#[test]
fn current_extent_wins_when_fixed() {
    let c = caps(2, 8, (1024, 768), (1, 1), (4096, 4096));
    assert_eq!(choose_extent(&c, WindowSize { width: 800, height: 600 }), Extent2D { width: 1024, height: 768 });
}

#[test]
fn free_extent_is_clamped_to_limits() {
    let c = caps(2, 8, (u32::MAX, u32::MAX), (100, 200), (1000, 500));
    assert_eq!(choose_extent(&c, WindowSize { width: 50, height: 900 }), Extent2D { width: 100, height: 500 });
    assert_eq!(choose_extent(&c, WindowSize { width: 800, height: 300 }), Extent2D { width: 800, height: 300 });
}

#[test]
fn image_count_is_at_least_three() {
    assert_eq!(choose_image_count(&caps(2, 0, (1, 1), (1, 1), (1, 1))), 3);
    assert_eq!(choose_image_count(&caps(1, 8, (1, 1), (1, 1), (1, 1))), 3);
}

#[test]
fn image_count_follows_a_larger_minimum() {
    assert_eq!(choose_image_count(&caps(4, 0, (1, 1), (1, 1), (1, 1))), 4);
}

#[test]
fn image_count_is_capped_by_maximum() {
    assert_eq!(choose_image_count(&caps(1, 2, (1, 1), (1, 1), (1, 1))), 2);
}

#[test]
fn plan_gathers_every_choice() {
    let c = caps(2, 3, (u32::MAX, 7), (10, 10), (640, 480));
    let plan = SwapchainPlan::new(&vec![UNORM_BGRA, SRGB_BGRA], &vec![2, 1], &c, WindowSize { width: 800, height: 600 });
    assert_eq!(plan.format, SRGB_BGRA);
    assert_eq!(plan.present_mode, 1);
    assert_eq!(plan.extent, Extent2D { width: 640, height: 480 });
    assert_eq!(plan.image_count, 3);
}

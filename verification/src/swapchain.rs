//! What a swapchain is created with: its surface format, present mode,
//! extent and minimum image count, chosen from what the surface reports.

use vstd::prelude::*;
use crate::vk_constants::{
    color_space_srgb_nonlinear, color_space_srgb_nonlinear_value, format_b8g8r8a8_srgb,
    format_b8g8r8a8_srgb_value, present_mode_fifo, present_mode_fifo_value, present_mode_mailbox,
    present_mode_mailbox_value,
};

verus! {

/// A surface format as the driver reports it: the raw `VkFormat` and the
/// raw `VkColorSpaceKHR`.
#[derive(Clone, Copy, Debug, PartialEq, Eq, Structural)]
pub struct SurfaceFormat {
    pub format: i32,
    pub color_space: i32,
}

/// A width and a height in pixels.
#[derive(Clone, Copy, Debug, PartialEq, Eq, Structural)]
pub struct Extent2D {
    pub width: u32,
    pub height: u32,
}

/// The size of the window's drawable area in physical pixels.
#[derive(Clone, Copy, Debug, PartialEq, Eq, Structural)]
pub struct WindowSize {
    pub width: u32,
    pub height: u32,
}

/// The parts of `VkSurfaceCapabilitiesKHR` that the choices read.
#[derive(Clone, Copy, Debug, PartialEq, Eq, Structural)]
pub struct SurfaceCapabilities {
    pub min_image_count: u32,
    /// 0 means that there is no upper limit.
    pub max_image_count: u32,
    /// A width of `u32::MAX` means that the window decides the extent.
    pub current_extent: Extent2D,
    pub min_image_extent: Extent2D,
    pub max_image_extent: Extent2D,
}

/// The format the renderer asks for: 8-bit BGRA in sRGB, sRGB non-linear.
pub open spec fn preferred_format() -> SurfaceFormat {
    SurfaceFormat {
        format: format_b8g8r8a8_srgb_value(),
        color_space: color_space_srgb_nonlinear_value(),
    }
}

/// The format chosen from `available`: the preferred one where it is
/// offered, else the first one offered.
pub open spec fn chosen_surface_format(available: Seq<SurfaceFormat>) -> SurfaceFormat
    recommends
        available.len() > 0,
{
    if available.contains(preferred_format()) {
        preferred_format()
    } else {
        available[0]
    }
}

/// The present mode chosen from `available`: mailbox where it is offered,
/// else FIFO, which every surface supports.
pub open spec fn chosen_present_mode(available: Seq<i32>) -> i32 {
    if available.contains(present_mode_mailbox_value()) {
        present_mode_mailbox_value()
    } else {
        present_mode_fifo_value()
    }
}

/// `value` held within `[min, max]`.
pub open spec fn clamped(value: u32, min: u32, max: u32) -> u32 {
    if value < min {
        min
    } else if value > max {
        max
    } else {
        value
    }
}

/// Whether the surface leaves the extent to the window.
pub open spec fn extent_is_free(caps: SurfaceCapabilities) -> bool {
    caps.current_extent.width == u32::MAX
}

/// Whether the extent limits can be clamped to: each minimum at most its
/// maximum.
pub open spec fn extent_limits_ordered(caps: SurfaceCapabilities) -> bool {
    &&& caps.min_image_extent.width <= caps.max_image_extent.width
    &&& caps.min_image_extent.height <= caps.max_image_extent.height
}

/// The extent chosen: the surface's current extent, unless the surface
/// leaves it to the window; then the window's size held within the limits.
pub open spec fn chosen_extent(caps: SurfaceCapabilities, size: WindowSize) -> Extent2D {
    if !extent_is_free(caps) {
        caps.current_extent
    } else {
        Extent2D {
            width: clamped(size.width, caps.min_image_extent.width, caps.max_image_extent.width),
            height: clamped(size.height, caps.min_image_extent.height, caps.max_image_extent.height),
        }
    }
}

/// The minimum image count asked for: at least three (triple buffering)
/// and at least the surface's minimum, but no more than a nonzero maximum.
pub open spec fn chosen_image_count(caps: SurfaceCapabilities) -> u32 {
    let wanted = if caps.min_image_count < 3 { 3 } else { caps.min_image_count };
    if caps.max_image_count > 0 && caps.max_image_count < wanted {
        caps.max_image_count
    } else {
        wanted
    }
}

/// Whether `format` is the one the renderer prefers.
pub fn is_preferred_surface_format(format: &SurfaceFormat) -> (r: bool)
    ensures
        r == (*format == preferred_format()),
{
    format.format == format_b8g8r8a8_srgb() && format.color_space == color_space_srgb_nonlinear()
}

/// Picks the surface format: 8-bit BGRA sRGB with the sRGB non-linear color
/// space where the surface offers it, else the first format offered.
pub fn choose_surface_format(available: &Vec<SurfaceFormat>) -> (r: SurfaceFormat)
    requires
        available.len() > 0,
    ensures
        r == chosen_surface_format(available@),
        available@.contains(r),
{
    let mut i: usize = 0;
    while i < available.len()
        invariant
            i <= available.len(),
            forall|j: int| 0 <= j < i ==> available@[j] != preferred_format(),
        decreases available.len() - i,
    {
        if is_preferred_surface_format(&available[i]) {
            return available[i];
        }
        i = i + 1;
    }
    available[0]
}

/// Picks the present mode: mailbox where the surface offers it, else FIFO.
pub fn choose_present_mode(available: &Vec<i32>) -> (r: i32)
    ensures
        r == chosen_present_mode(available@),
{
    let mailbox = present_mode_mailbox();
    let mut i: usize = 0;
    while i < available.len()
        invariant
            i <= available.len(),
            mailbox == present_mode_mailbox_value(),
            forall|j: int| 0 <= j < i ==> available@[j] != mailbox,
        decreases available.len() - i,
    {
        if available[i] == mailbox {
            return mailbox;
        }
        i = i + 1;
    }
    present_mode_fifo()
}

/// `num::clamp` on `u32`. num's source returns `min` below `min`, `max`
/// above `max` and the value otherwise, and asserts in debug builds that
/// `min <= max`; the contract claims exactly that.
#[verifier::external_body]
fn clamp_u32(input: u32, min: u32, max: u32) -> (r: u32)
    requires
        min <= max,
    ensures
        r == clamped(input, min, max),
{
    num::clamp(input, min, max)
}

/// Picks the swapchain extent: the surface's current extent, unless its
/// width is `u32::MAX`; then the window's size clamped to the surface's
/// limits.
pub fn choose_extent(capabilities: &SurfaceCapabilities, size: WindowSize) -> (r: Extent2D)
    requires
        extent_is_free(*capabilities) ==> extent_limits_ordered(*capabilities),
    ensures
        r == chosen_extent(*capabilities, size),
{
    if capabilities.current_extent.width != u32::MAX {
        return capabilities.current_extent;
    }
    Extent2D {
        width: clamp_u32(
            size.width,
            capabilities.min_image_extent.width,
            capabilities.max_image_extent.width,
        ),
        height: clamp_u32(
            size.height,
            capabilities.min_image_extent.height,
            capabilities.max_image_extent.height,
        ),
    }
}

/// Picks the minimum number of swapchain images: at least three and at
/// least the surface's minimum, capped by the surface's maximum when it
/// has one.
pub fn choose_image_count(capabilities: &SurfaceCapabilities) -> (r: u32)
    ensures
        r == chosen_image_count(*capabilities),
{
    let min_image_count: u32 = if capabilities.min_image_count < 3 {
        3
    } else {
        capabilities.min_image_count
    };
    if capabilities.max_image_count > 0 && capabilities.max_image_count < min_image_count {
        return capabilities.max_image_count;
    }
    min_image_count
}

/// What a swapchain is created with, chosen from what the surface reports.
#[derive(Clone, Copy, Debug, PartialEq, Eq, Structural)]
pub struct SwapchainPlan {
    pub format: SurfaceFormat,
    pub present_mode: i32,
    pub extent: Extent2D,
    pub image_count: u32,
}

impl SwapchainPlan {
    /// Makes every choice the swapchain needs from the surface's formats,
    /// present modes and capabilities and the window's size.
    pub fn new(
        formats: &Vec<SurfaceFormat>,
        present_modes: &Vec<i32>,
        capabilities: &SurfaceCapabilities,
        size: WindowSize,
    ) -> (r: Self)
        requires
            formats.len() > 0,
            extent_is_free(*capabilities) ==> extent_limits_ordered(*capabilities),
        ensures
            r.format == chosen_surface_format(formats@),
            r.present_mode == chosen_present_mode(present_modes@),
            r.extent == chosen_extent(*capabilities, size),
            r.image_count == chosen_image_count(*capabilities),
    {
        let format = choose_surface_format(formats);
        let present_mode = choose_present_mode(present_modes);
        let extent = choose_extent(capabilities, size);
        let image_count = choose_image_count(capabilities);
        SwapchainPlan { format, present_mode, extent, image_count }
    }
}

/// The chosen format is always one that the surface offered, and it is the
/// preferred format exactly when the surface offers that.
pub proof fn lemma_chosen_format_is_offered(available: Seq<SurfaceFormat>)
    requires
        available.len() > 0,
    ensures
        available.contains(chosen_surface_format(available)),
        (chosen_surface_format(available) == preferred_format()) <==> available.contains(
            preferred_format(),
        ),
{
    if !available.contains(preferred_format()) {
        assert(available.contains(available[0]));
    }
}

/// The chosen present mode is mailbox or FIFO, and mailbox exactly when
/// the surface offers it.
pub proof fn lemma_chosen_present_mode(available: Seq<i32>)
    ensures
        chosen_present_mode(available) == present_mode_mailbox_value() || chosen_present_mode(
            available,
        ) == present_mode_fifo_value(),
        (chosen_present_mode(available) == present_mode_mailbox_value()) <==> available.contains(
            present_mode_mailbox_value(),
        ),
{
}

/// When the surface leaves the extent to the window, the chosen extent lies
/// within the surface's limits in both dimensions, and equals the window's
/// size when that already lies within them.
pub proof fn lemma_chosen_extent_within_limits(caps: SurfaceCapabilities, size: WindowSize)
    requires
        extent_is_free(caps),
        extent_limits_ordered(caps),
    ensures
        caps.min_image_extent.width <= chosen_extent(caps, size).width
            <= caps.max_image_extent.width,
        caps.min_image_extent.height <= chosen_extent(caps, size).height
            <= caps.max_image_extent.height,
        caps.min_image_extent.width <= size.width <= caps.max_image_extent.width
            && caps.min_image_extent.height <= size.height <= caps.max_image_extent.height
            ==> chosen_extent(caps, size) == (Extent2D { width: size.width, height: size.height }),
{
}

/// The chosen image count is at least the surface's minimum and at least
/// three, unless the surface's maximum is lower; it never exceeds a nonzero
/// maximum.
pub proof fn lemma_image_count_within_limits(caps: SurfaceCapabilities)
    requires
        caps.max_image_count == 0 || caps.min_image_count <= caps.max_image_count,
    ensures
        caps.min_image_count <= chosen_image_count(caps),
        caps.max_image_count > 0 ==> chosen_image_count(caps) <= caps.max_image_count,
        (caps.max_image_count == 0 || caps.max_image_count >= 3) ==> (chosen_image_count(caps) >= 3),
{
}

/// The image count asks for triple buffering or the surface's minimum,
/// whichever is larger, and for the surface's maximum only when that is
/// lower: it never exceeds `max(min_image_count, 3)`, equals it whenever the
/// maximum is 0 (no limit) or at least that large, and equals the maximum
/// otherwise.
pub proof fn lemma_image_count_is_triple_buffering_unless_capped(caps: SurfaceCapabilities)
    ensures
        chosen_image_count(caps) <= if caps.min_image_count >= 3 { caps.min_image_count } else { 3 },
        caps.max_image_count == 0 || caps.max_image_count >= (if caps.min_image_count >= 3 {
            caps.min_image_count
        } else {
            3
        }) ==> chosen_image_count(caps) == (if caps.min_image_count >= 3 {
            caps.min_image_count
        } else {
            3
        }),
        0 < caps.max_image_count < (if caps.min_image_count >= 3 {
            caps.min_image_count
        } else {
            3
        }) ==> chosen_image_count(caps) == caps.max_image_count,
{
}

/// When the surface fixes its extent (a current width other than
/// `u32::MAX`), the swapchain takes exactly that extent, whatever the
/// window's size.
pub proof fn lemma_fixed_extent_is_kept(caps: SurfaceCapabilities, size: WindowSize)
    requires
        caps.current_extent.width != 0xffff_ffff,
    ensures
        chosen_extent(caps, size) == caps.current_extent,
{
}

/// The chosen format is the first one offered unless the preferred one
/// (`VK_FORMAT_B8G8R8A8_SRGB` = 50 with `VK_COLOR_SPACE_SRGB_NONLINEAR_KHR`
/// = 0) is offered somewhere in the list.
pub proof fn lemma_format_fallback_is_first(available: Seq<SurfaceFormat>)
    requires
        available.len() > 0,
    ensures
        (exists|i: int|
            0 <= i < available.len() && (#[trigger] available[i]).format == 50
                && available[i].color_space == 0) ==> chosen_surface_format(available)
            == (SurfaceFormat { format: 50, color_space: 0 }),
        !(exists|i: int|
            0 <= i < available.len() && (#[trigger] available[i]).format == 50
                && available[i].color_space == 0) ==> chosen_surface_format(available)
            == available[0],
{
    if exists|i: int|
        0 <= i < available.len() && (#[trigger] available[i]).format == 50
            && available[i].color_space == 0 {
        let i = choose|i: int|
            0 <= i < available.len() && (#[trigger] available[i]).format == 50
                && available[i].color_space == 0;
        assert(available[i] == preferred_format());
    }
}

/// Mailbox (1) is chosen exactly when some offered mode is mailbox;
/// otherwise FIFO (2).
pub proof fn lemma_present_mode_by_value(available: Seq<i32>)
    ensures
        (exists|i: int| 0 <= i < available.len() && #[trigger] available[i] == 1)
            ==> chosen_present_mode(available) == 1,
        !(exists|i: int| 0 <= i < available.len() && #[trigger] available[i] == 1)
            ==> chosen_present_mode(available) == 2,
{
    if exists|i: int| 0 <= i < available.len() && #[trigger] available[i] == 1 {
        let i = choose|i: int| 0 <= i < available.len() && #[trigger] available[i] == 1;
        assert(available.contains(present_mode_mailbox_value()));
    }
}

} // verus!

//! The numeric values of the Vulkan enumerants and constants that the
//! renderer's decisions compare against, read from `jay_ash`.

use vstd::prelude::*;

verus! {

/// `VK_API_VERSION_1_4`, that is `make_api_version(0, 1, 4, 0)`
/// = `(1 << 22) | (4 << 12)`.
pub open spec fn api_version_1_4_value() -> u32 {
    4210688
}

/// `VK_TRUE`.
pub open spec fn vk_true_value() -> u32 {
    1
}

/// `VK_QUEUE_GRAPHICS_BIT`.
pub open spec fn graphics_bit_value() -> u32 {
    1
}

/// `VK_FORMAT_B8G8R8A8_SRGB`.
pub open spec fn format_b8g8r8a8_srgb_value() -> i32 {
    50
}

/// `VK_COLOR_SPACE_SRGB_NONLINEAR_KHR`.
pub open spec fn color_space_srgb_nonlinear_value() -> i32 {
    0
}

/// `VK_PRESENT_MODE_MAILBOX_KHR`.
pub open spec fn present_mode_mailbox_value() -> i32 {
    1
}

/// `VK_PRESENT_MODE_FIFO_KHR`.
pub open spec fn present_mode_fifo_value() -> i32 {
    2
}

/// `VK_ERROR_INITIALIZATION_FAILED`.
pub open spec fn error_initialization_failed_value() -> i32 {
    -3i32
}

/// `VK_ERROR_EXTENSION_NOT_PRESENT`.
pub open spec fn error_extension_not_present_value() -> i32 {
    -7i32
}

/// Reads `jay_ash::vk::API_VERSION_1_4`, which jay_ash defines as
/// `make_api_version(0, 1, 4, 0)`; the contract claims its value.
#[verifier::external_body]
pub(crate) fn api_version_1_4() -> (r: u32)
    ensures
        r == api_version_1_4_value(),
{
    jay_ash::vk::API_VERSION_1_4
}

/// Reads `jay_ash::vk::TRUE`; the contract claims its value, 1.
#[verifier::external_body]
pub(crate) fn vk_true() -> (r: u32)
    ensures
        r == vk_true_value(),
{
    jay_ash::vk::TRUE
}

/// Reads the raw bits of `jay_ash::vk::QueueFlags::GRAPHICS` through
/// `QueueFlags::as_raw`; the contract claims they are `0b1`.
#[verifier::external_body]
pub(crate) fn graphics_bit() -> (r: u32)
    ensures
        r == graphics_bit_value(),
{
    jay_ash::vk::QueueFlags::GRAPHICS.as_raw()
}

/// Reads the raw value of `jay_ash::vk::Format::B8G8R8A8_SRGB` through
/// `Format::as_raw`; the contract claims it is 50.
#[verifier::external_body]
pub(crate) fn format_b8g8r8a8_srgb() -> (r: i32)
    ensures
        r == format_b8g8r8a8_srgb_value(),
{
    jay_ash::vk::Format::B8G8R8A8_SRGB.as_raw()
}

/// Reads the raw value of `jay_ash::vk::ColorSpaceKHR::SRGB_NONLINEAR`
/// through `ColorSpaceKHR::as_raw`; the contract claims it is 0.
#[verifier::external_body]
pub(crate) fn color_space_srgb_nonlinear() -> (r: i32)
    ensures
        r == color_space_srgb_nonlinear_value(),
{
    jay_ash::vk::ColorSpaceKHR::SRGB_NONLINEAR.as_raw()
}

/// Reads the raw value of `jay_ash::vk::PresentModeKHR::MAILBOX` through
/// `PresentModeKHR::as_raw`; the contract claims it is 1.
#[verifier::external_body]
pub(crate) fn present_mode_mailbox() -> (r: i32)
    ensures
        r == present_mode_mailbox_value(),
{
    jay_ash::vk::PresentModeKHR::MAILBOX.as_raw()
}

/// Reads the raw value of `jay_ash::vk::PresentModeKHR::FIFO` through
/// `PresentModeKHR::as_raw`; the contract claims it is 2.
#[verifier::external_body]
pub(crate) fn present_mode_fifo() -> (r: i32)
    ensures
        r == present_mode_fifo_value(),
{
    jay_ash::vk::PresentModeKHR::FIFO.as_raw()
}

/// Reads the raw value of `jay_ash::vk::Result::ERROR_INITIALIZATION_FAILED`
/// through `Result::as_raw`; the contract claims it is -3.
#[verifier::external_body]
pub(crate) fn error_initialization_failed() -> (r: i32)
    ensures
        r == error_initialization_failed_value(),
{
    jay_ash::vk::Result::ERROR_INITIALIZATION_FAILED.as_raw()
}

/// Reads the raw value of `jay_ash::vk::Result::ERROR_EXTENSION_NOT_PRESENT`
/// through `Result::as_raw`; the contract claims it is -7.
#[verifier::external_body]
pub(crate) fn error_extension_not_present() -> (r: i32)
    ensures
        r == error_extension_not_present_value(),
{
    jay_ash::vk::Result::ERROR_EXTENSION_NOT_PRESENT.as_raw()
}

} // verus!

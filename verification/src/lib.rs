//! The decisions of a small Vulkan triangle renderer, kept apart from the
//! driver calls that carry them out: which surface format, present mode,
//! extent and image count a swapchain gets, which GPU and queue family are
//! picked, which memory type backs a buffer, which layers are missing, how
//! frames in flight are cycled, and how window events are answered.

pub mod vk_constants;
pub mod error;
pub mod swapchain;
pub mod device;
pub mod vertex_buffer;
pub mod vulkan_debug;
pub mod renderer;
pub mod surface_factory;
pub mod graphics_pipeline;
pub mod events;

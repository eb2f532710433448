//! The errors that building or driving the renderer can end in.

use vstd::prelude::*;

verus! {

/// Why the renderer could not be set up or could not go on.
#[derive(Debug)]
pub enum RendererError {
    /// Validation layers that were asked for and are not installed, by name.
    UnsupportedLayers(Vec<String>),
    /// No GPU meets the renderer's requirements.
    GPUNotFound,
    /// The chosen GPU has no queue family that both draws and presents.
    QueueNotFound,
    /// A Vulkan call failed with this raw `VkResult`.
    Vulkan(i32),
}

} // verus!

# vulkan_renderer

A small Vulkan program that opens a window and draws a colored triangle.

- `src/` is the library, verified with Verus. It holds the renderer's
  decisions as functions from plain values to plain values, each with a
  contract: the swapchain's format, present mode, extent and image count;
  which GPU and queue family are used; which memory type backs a buffer;
  whether the validation layers are installed; which instance extensions are
  enabled; which platform surface is created; the decoding of the SPIR-V
  shaders; the cycling of the frames in flight; and the answer to each
  window event.
- `app/` is the program around it: the `winit` event loop and every Vulkan
  call (all of which are `unsafe` in `jay_ash`), which gather what the
  driver reports, hand it to the library and carry out what it decides.
- `tests/` runs the library on concrete values.

The program reads its compiled shaders (vertex entry `vertMain`, fragment
entry `fragMain`) from `shader.spv` in the working directory.

//! The renderer's own bookkeeping: the instance extensions it enables and
//! the frame in flight that each draw uses.

use vstd::prelude::*;
use crate::error::RendererError;
use crate::vk_constants::{error_extension_not_present, error_extension_not_present_value};

verus! {

/// How many frames the CPU may prepare while the GPU still works on
/// earlier ones.
pub const MAX_FRAMES_IN_FLIGHT: usize = 2;

/// The frame that follows frame `index`.
pub open spec fn next_frame(index: usize) -> usize {
    ((index + 1) % (MAX_FRAMES_IN_FLIGHT as int)) as usize
}

/// The frame reached from frame `index` after `n` successful draws.
pub open spec fn frame_after(index: usize, n: nat) -> usize
    decreases n,
{
    if n == 0 {
        index
    } else {
        next_frame(frame_after(index, (n - 1) as nat))
    }
}

/// The instance extensions to enable: those the window system needs, then
/// the renderer's own, then, in debug builds, the debug-utils ones.
pub open spec fn instance_extension_list<T>(
    window: Seq<T>,
    instance: Seq<T>,
    debug_extensions: Seq<T>,
    debug: bool,
) -> Seq<T> {
    if debug {
        window + instance + debug_extensions
    } else {
        window + instance
    }
}

fn append_all<T: Copy>(out: &mut Vec<T>, items: &[T])
    ensures
        final(out)@ == old(out)@ + items@,
{
    let mut i: usize = 0;
    while i < items.len()
        invariant
            i <= items.len(),
            out@ == old(out)@ + items@.take(i as int),
        decreases items.len() - i,
    {
        out.push(items[i]);
        assert(items@.take(i + 1) == items@.take(i as int).push(items@[i as int]));
        i = i + 1;
    }
    assert(items@.take(items.len() as int) == items@);
}

/// The list of instance extensions to enable. `window_extensions` is what
/// the window system requires, or `None` where the display is not one the
/// renderer can draw to; that fails with `VK_ERROR_EXTENSION_NOT_PRESENT`.
pub fn check_instance_extensions<T: Copy>(
    window_extensions: Option<&[T]>,
    instance_extensions: &[T],
    debug_extensions: &[T],
    debug: bool,
) -> (r: Result<Vec<T>, RendererError>)
    ensures
        match window_extensions {
            Some(window) => r matches Ok(list) && list@ == instance_extension_list(
                window@,
                instance_extensions@,
                debug_extensions@,
                debug,
            ),
            None => r matches Err(e) && e == RendererError::Vulkan(
                error_extension_not_present_value(),
            ),
        },
{
    match window_extensions {
        None => Err(RendererError::Vulkan(error_extension_not_present())),
        Some(window) => {
            let mut extensions: Vec<T> = Vec::new();
            append_all(&mut extensions, window);
            append_all(&mut extensions, instance_extensions);
            if debug {
                append_all(&mut extensions, debug_extensions);
            }
            Ok(extensions)
        },
    }
}

/// Which of the frames in flight the next draw uses.
pub struct FrameCursor {
    current: usize,
}

impl FrameCursor {
    #[verifier::type_invariant]
    spec fn in_range(self) -> bool {
        self.current < MAX_FRAMES_IN_FLIGHT
    }

    /// The index of the frame that the next draw uses.
    pub closed spec fn index(self) -> usize {
        self.current
    }

    /// Starts at the first frame.
    pub fn new() -> (r: Self)
        ensures
            r.index() == 0,
    {
        FrameCursor { current: 0 }
    }

    /// The index of the frame that the next draw uses, always below
    /// `MAX_FRAMES_IN_FLIGHT`.
    pub fn current(&self) -> (r: usize)
        ensures
            r == self.index(),
            r < MAX_FRAMES_IN_FLIGHT,
    {
        proof {
            use_type_invariant(self);
        }
        self.current
    }

    /// Moves on to the next frame, wrapping around after the last.
    pub fn advance(&mut self)
        ensures
            final(self).index() == next_frame(old(self).index()),
    {
        proof {
            use_type_invariant(&*self);
        }
        self.current = (self.current + 1) % MAX_FRAMES_IN_FLIGHT;
    }

    /// Ends a draw: after one that went through the frame advances and
    /// `Ok(())` comes back; after a failed one the frame stays and the error
    /// comes back unchanged.
    pub fn finish_draw(&mut self, outcome: Result<(), RendererError>) -> (r: Result<(), RendererError>)
        ensures
            r == outcome,
            outcome is Ok ==> final(self).index() == next_frame(old(self).index()),
            outcome is Err ==> final(self).index() == old(self).index(),
    {
        if outcome.is_ok() {
            self.advance();
        }
        outcome
    }
}

/// The extension list holds the window system's extensions first, in
/// their order, then the renderer's own, then (in debug builds only) the
/// debug ones, and nothing else.
pub proof fn lemma_extension_list_layout<T>(
    window: Seq<T>,
    instance: Seq<T>,
    debug_extensions: Seq<T>,
    debug: bool,
)
    ensures
        instance_extension_list(window, instance, debug_extensions, debug).len() == window.len()
            + instance.len() + if debug { debug_extensions.len() } else { 0 },
        forall|k: int|
            0 <= k < window.len() ==> #[trigger] instance_extension_list(
                window,
                instance,
                debug_extensions,
                debug,
            )[k] == window[k],
        forall|k: int|
            0 <= k < instance.len() ==> instance_extension_list(
                window,
                instance,
                debug_extensions,
                debug,
            )[window.len() + k] == #[trigger] instance[k],
        debug ==> forall|k: int|
            0 <= k < debug_extensions.len() ==> instance_extension_list(
                window,
                instance,
                debug_extensions,
                debug,
            )[window.len() + instance.len() + k] == #[trigger] debug_extensions[k],
{
}

/// Every frame index that draws reach stays below `MAX_FRAMES_IN_FLIGHT`,
/// and after `MAX_FRAMES_IN_FLIGHT` successful draws the renderer is back at
/// the frame it started from.
pub proof fn lemma_frames_cycle(index: usize, n: nat)
    requires
        index < MAX_FRAMES_IN_FLIGHT,
    ensures
        frame_after(index, n) < MAX_FRAMES_IN_FLIGHT,
        frame_after(index, n) == (index + n) % (MAX_FRAMES_IN_FLIGHT as int),
        frame_after(index, MAX_FRAMES_IN_FLIGHT as nat) == index,
    decreases n,
{
    if n > 0 {
        lemma_frames_cycle(index, (n - 1) as nat);
        let m = MAX_FRAMES_IN_FLIGHT as int;
        let prev = frame_after(index, (n - 1) as nat) as int;
        assert(prev == (index + n - 1) % m);
        assert(((index + n - 1) % m + 1) % m == (index + n) % m) by (nonlinear_arith)
            requires
                m == 2,
        ;
    }
    assert(frame_after(index, MAX_FRAMES_IN_FLIGHT as nat) == index) by {
        reveal_with_fuel(frame_after, 3);
    }
}

} // verus!

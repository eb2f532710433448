//! Which GPU and which queue family the renderer uses.

use vstd::prelude::*;
use crate::error::RendererError;
use crate::vk_constants::{
    api_version_1_4, api_version_1_4_value, graphics_bit, graphics_bit_value, vk_true,
    vk_true_value,
};

verus! {

/// A device queue: its raw `VkQueue` handle, its family and its index
/// within the family.
pub struct Queue {
    pub handle: u64,
    pub family_index: u32,
    pub index: u32,
}

impl Queue {
    pub fn new(handle: u64, family_index: u32, index: u32) -> (r: Self)
        ensures
            r.handle == handle,
            r.family_index == family_index,
            r.index == index,
    {
        Queue { handle, family_index, index }
    }
}

/// What the driver reports of a GPU that decides whether it can run the
/// renderer.
pub struct DeviceSupport {
    /// `VkPhysicalDeviceProperties::apiVersion`.
    pub api_version: u32,
    /// The raw `VkQueueFlags` of each queue family, in family order.
    pub queue_family_flags: Vec<u32>,
    /// The names of the device extensions it offers.
    pub extension_names: Vec<String>,
    /// `VkPhysicalDeviceVulkan13Features::dynamicRendering`.
    pub dynamic_rendering: u32,
    /// `VkPhysicalDeviceExtendedDynamicStateFeaturesEXT::extendedDynamicState`.
    pub extended_dynamic_state: u32,
}

/// What the driver reports of one queue family of the chosen GPU.
#[derive(Clone, Copy, Debug, PartialEq, Eq, Structural)]
pub struct QueueFamilySupport {
    /// The family's raw `VkQueueFlags`.
    pub flags: u32,
    /// Whether the family can present to the window's surface.
    pub presents: bool,
}

/// Whether `flags` has every bit of `wanted`.
pub open spec fn has_flags(flags: u32, wanted: u32) -> bool {
    flags & wanted == wanted
}

/// Whether some queue family can run graphics work.
pub open spec fn some_family_draws(flags: Seq<u32>) -> bool {
    exists|i: int| 0 <= i < flags.len() && has_flags(#[trigger] flags[i], graphics_bit_value())
}

/// Whether `names` holds `name`, compared as text.
pub open spec fn names_contain(names: Seq<String>, name: String) -> bool {
    exists|j: int| 0 <= j < names.len() && (#[trigger] names[j])@ == name@
}

/// Whether `names` holds every name of `required`.
pub open spec fn names_contain_all(names: Seq<String>, required: Seq<String>) -> bool {
    forall|i: int| 0 <= i < required.len() ==> names_contain(names, #[trigger] required[i])
}

/// Whether a GPU can run the renderer: Vulkan 1.4, a graphics queue family,
/// every required device extension, dynamic rendering and extended dynamic
/// state.
pub open spec fn device_is_suitable(support: DeviceSupport, required: Seq<String>) -> bool {
    &&& support.api_version >= api_version_1_4_value()
    &&& some_family_draws(support.queue_family_flags@)
    &&& names_contain_all(support.extension_names@, required)
    &&& support.dynamic_rendering == vk_true_value()
    &&& support.extended_dynamic_state == vk_true_value()
}

/// Whether a candidate was queried without error and is suitable.
pub open spec fn candidate_is_suitable(candidate: Option<DeviceSupport>, required: Seq<String>) -> bool {
    match candidate {
        Some(support) => device_is_suitable(support, required),
        None => false,
    }
}

/// Whether a queue family can both draw and present.
pub open spec fn family_is_usable(family: QueueFamilySupport) -> bool {
    has_flags(family.flags, graphics_bit_value()) && family.presents
}

/// Whether one of the queue families can run graphics work.
fn supports_graphics(queue_family_flags: &Vec<u32>) -> (r: bool)
    ensures
        r == some_family_draws(queue_family_flags@),
{
    let graphics = graphics_bit();
    let mut i: usize = 0;
    while i < queue_family_flags.len()
        invariant
            i <= queue_family_flags.len(),
            graphics == graphics_bit_value(),
            forall|j: int|
                0 <= j < i ==> !has_flags(#[trigger] queue_family_flags@[j], graphics_bit_value()),
        decreases queue_family_flags.len() - i,
    {
        if queue_family_flags[i] & graphics == graphics {
            return true;
        }
        i = i + 1;
    }
    false
}

/// Whether `names` holds `name`.
fn contains_name(names: &Vec<String>, name: &String) -> (r: bool)
    ensures
        r == names_contain(names@, *name),
{
    let mut j: usize = 0;
    while j < names.len()
        invariant
            j <= names.len(),
            forall|k: int| 0 <= k < j ==> (#[trigger] names@[k])@ != name@,
        decreases names.len() - j,
    {
        if names[j] == *name {
            return true;
        }
        j = j + 1;
    }
    false
}

/// Whether every required name is among the offered ones.
fn contains_all_names(offered: &Vec<String>, required: &Vec<String>) -> (r: bool)
    ensures
        r == names_contain_all(offered@, required@),
{
    let mut i: usize = 0;
    while i < required.len()
        invariant
            i <= required.len(),
            forall|k: int| 0 <= k < i ==> names_contain(offered@, #[trigger] required@[k]),
        decreases required.len() - i,
    {
        if !contains_name(offered, &required[i]) {
            return false;
        }
        i = i + 1;
    }
    true
}

/// Whether a GPU can run the renderer, from what its driver reports and
/// the device extensions the renderer needs.
pub fn is_device_suitable(support: &DeviceSupport, required_extensions: &Vec<String>) -> (r: bool)
    ensures
        r == device_is_suitable(*support, required_extensions@),
{
    let supports_vulkan14 = support.api_version >= api_version_1_4();
    let supports_graphics = supports_graphics(&support.queue_family_flags);
    let supports_extensions = contains_all_names(&support.extension_names, required_extensions);
    let vk_true = vk_true();
    let supports_required_features = support.dynamic_rendering == vk_true
        && support.extended_dynamic_state == vk_true;
    supports_vulkan14 && supports_graphics && supports_extensions && supports_required_features
}

/// Picks the first suitable GPU. `candidates` holds what each GPU's driver
/// reported, in the order the instance enumerates them, or `None` where a
/// query failed: such a GPU is passed over.
pub fn select_physical_device(
    candidates: &Vec<Option<DeviceSupport>>,
    required_extensions: &Vec<String>,
) -> (r: Result<usize, RendererError>)
    ensures
        match r {
            Ok(i) => {
                &&& i < candidates.len()
                &&& candidate_is_suitable(candidates@[i as int], required_extensions@)
                &&& forall|j: int|
                    0 <= j < i ==> !candidate_is_suitable(
                        #[trigger] candidates@[j],
                        required_extensions@,
                    )
            },
            Err(e) => {
                &&& e is GPUNotFound
                &&& forall|j: int|
                    0 <= j < candidates.len() ==> !candidate_is_suitable(
                        #[trigger] candidates@[j],
                        required_extensions@,
                    )
            },
        },
{
    let mut i: usize = 0;
    while i < candidates.len()
        invariant
            i <= candidates.len(),
            forall|j: int|
                0 <= j < i ==> !candidate_is_suitable(
                    #[trigger] candidates@[j],
                    required_extensions@,
                ),
        decreases candidates.len() - i,
    {
        match &candidates[i] {
            Some(support) => {
                if is_device_suitable(support, required_extensions) {
                    return Ok(i);
                }
            },
            None => {},
        }
        i = i + 1;
    }
    Err(RendererError::GPUNotFound)
}

/// Picks the first queue family that both draws and presents to the
/// window's surface.
pub fn select_queue_family(families: &Vec<QueueFamilySupport>) -> (r: Result<usize, RendererError>)
    ensures
        match r {
            Ok(i) => {
                &&& i < families.len()
                &&& family_is_usable(families@[i as int])
                &&& forall|j: int| 0 <= j < i ==> !family_is_usable(#[trigger] families@[j])
            },
            Err(e) => {
                &&& e is QueueNotFound
                &&& forall|j: int| 0 <= j < families.len() ==> !family_is_usable(#[trigger] families@[j])
            },
        },
{
    let graphics = graphics_bit();
    let mut i: usize = 0;
    while i < families.len()
        invariant
            i <= families.len(),
            graphics == graphics_bit_value(),
            forall|j: int| 0 <= j < i ==> !family_is_usable(#[trigger] families@[j]),
        decreases families.len() - i,
    {
        let family = families[i];
        if family.flags & graphics == graphics && family.presents {
            return Ok(i);
        }
        i = i + 1;
    }
    Err(RendererError::QueueNotFound)
}

/// A GPU passes the suitability check exactly when it reports Vulkan 1.4
/// (`(1 << 22) | (4 << 12)` = 4210688) or later, has at least one queue
/// family, at any index from the first on, whose flags have the graphics bit
/// (bit 0) set, offers every required extension name, and reports both
/// dynamic rendering and extended dynamic state as `VK_TRUE` (1).
pub proof fn lemma_device_suitability(support: DeviceSupport, required: Seq<String>)
    ensures
        device_is_suitable(support, required) <==> {
            &&& support.api_version >= 4210688
            &&& exists|i: int|
                0 <= i < support.queue_family_flags@.len() && #[trigger] support.queue_family_flags@[i]
                    & 1 == 1
            &&& names_contain_all(support.extension_names@, required)
            &&& support.dynamic_rendering == 1
            &&& support.extended_dynamic_state == 1
        },
{
    let flags = support.queue_family_flags@;
    if some_family_draws(flags) {
        let i = choose|i: int| 0 <= i < flags.len() && has_flags(#[trigger] flags[i], graphics_bit_value());
        assert(flags[i] & 1 == 1);
    }
    if exists|i: int| 0 <= i < flags.len() && #[trigger] flags[i] & 1 == 1 {
        let i = choose|i: int| 0 <= i < flags.len() && #[trigger] flags[i] & 1 == 1;
        assert(has_flags(flags[i], graphics_bit_value()));
    }
}

/// A queue family is usable exactly when its flags have the graphics bit
/// (bit 0) set and it can present to the window's surface.
pub proof fn lemma_family_usable(family: QueueFamilySupport)
    ensures
        family_is_usable(family) <==> (family.flags & 1 == 1 && family.presents),
{
}

} // verus!

//! Physical-device selection: queue families, extensions, sample counts.

use vstd::prelude::*;
use crate::setup::extensions::{all_names_present, get_device_extensions, names_present};
use crate::setup::swapchain::SwapchainDetails;
use crate::trusted::{queue_flags_contains, sample_count_flags_contains};

verus! {

/// `VK_QUEUE_GRAPHICS_BIT`.
pub const QUEUE_GRAPHICS: u32 = 0x1;

/// `VK_SAMPLE_COUNT_1_BIT`.
pub const SAMPLE_COUNT_1: u32 = 0x01;

/// `VK_SAMPLE_COUNT_2_BIT`.
pub const SAMPLE_COUNT_2: u32 = 0x02;

/// `VK_SAMPLE_COUNT_4_BIT`.
pub const SAMPLE_COUNT_4: u32 = 0x04;

/// `VK_SAMPLE_COUNT_8_BIT`.
pub const SAMPLE_COUNT_8: u32 = 0x08;

/// `VK_SAMPLE_COUNT_16_BIT`.
pub const SAMPLE_COUNT_16: u32 = 0x10;

/// `VK_SAMPLE_COUNT_32_BIT`.
pub const SAMPLE_COUNT_32: u32 = 0x20;

/// `VK_SAMPLE_COUNT_64_BIT`.
pub const SAMPLE_COUNT_64: u32 = 0x40;

/// The queue families a logical device is created with.
#[derive(Clone, Copy, Debug, PartialEq, Eq, Structural)]
pub struct QueueFamilyIndices {
    pub graphics: u32,
    pub present: u32,
}

/// Queue families found so far while the families of a device are walked.
#[derive(Clone, Copy, Debug, PartialEq, Eq, Structural)]
pub struct InnerQueueFamilyIndices {
    pub graphics: Option<u32>,
    pub present: Option<u32>,
}

impl InnerQueueFamilyIndices {
    /// Both a graphics and a present family have been found.
    pub fn is_complete(&self) -> (complete: bool)
        ensures
            complete == (self.graphics is Some && self.present is Some),
    {
        self.graphics.is_some() && self.present.is_some()
    }
}

/// What the selection reads of one queue family.
#[derive(Clone, Copy, Debug, PartialEq, Eq, Structural)]
pub struct QueueFamily {
    pub queue_count: u32,
    /// The family's capabilities, as its flag bits.
    pub queue_flags: u32,
    /// The family can present to the surface.
    pub supports_surface: bool,
}

impl QueueFamily {
    /// The family has a queue and takes graphics commands.
    pub open spec fn supports_graphics(self) -> bool {
        self.queue_count > 0 && self.queue_flags & QUEUE_GRAPHICS == QUEUE_GRAPHICS
    }
}

/// What the selection reads of one physical device.
pub struct PhysicalDeviceInfo {
    pub queue_families: Vec<QueueFamily>,
    /// The names of the device extensions it supports.
    pub extensions: Vec<String>,
    /// What it supports on the surface.
    pub swapchain: SwapchainDetails,
    /// The sample counts of its colour framebuffer attachments, as flag bits.
    pub framebuffer_color_sample_counts: u32,
    /// The sample counts of its depth framebuffer attachments, as flag bits.
    pub framebuffer_depth_sample_counts: u32,
}

/// `index` is the first family that has a queue and takes graphics commands.
pub open spec fn is_first_graphics(families: Seq<QueueFamily>, index: int) -> bool {
    &&& 0 <= index < families.len()
    &&& families[index].supports_graphics()
    &&& forall|j: int| 0 <= j < index ==> !(#[trigger] families[j]).supports_graphics()
}

/// `index` is the first family that can present to the surface.
pub open spec fn is_first_present(families: Seq<QueueFamily>, index: int) -> bool {
    &&& 0 <= index < families.len()
    &&& families[index].supports_surface
    &&& forall|j: int| 0 <= j < index ==> !(#[trigger] families[j]).supports_surface
}

/// Some family takes graphics commands and some family can present.
pub open spec fn has_required_queue_families(families: Seq<QueueFamily>) -> bool {
    &&& exists|i: int| 0 <= i < families.len() && (#[trigger] families[i]).supports_graphics()
    &&& exists|i: int| 0 <= i < families.len() && (#[trigger] families[i]).supports_surface
}

/// The first graphics family and the first family that can present, where
/// the device has both.
pub fn get_physical_device_queue_family_indices(families: &Vec<QueueFamily>) -> (indices: Option<
    QueueFamilyIndices,
>)
    requires
        families.len() <= u32::MAX,
    ensures
        indices is Some <==> has_required_queue_families(families@),
        indices matches Some(found) ==> is_first_graphics(families@, found.graphics as int)
            && is_first_present(families@, found.present as int),
{
    let mut inner = InnerQueueFamilyIndices { graphics: None, present: None };
    let mut index: u32 = 0;
    while (index as usize) < families.len()
        invariant
            index <= families@.len() <= u32::MAX,
            match inner.graphics {
                Some(g) => is_first_graphics(families@, g as int) && g < index,
                None => forall|j: int| 0 <= j < index ==> !(#[trigger] families@[j]).supports_graphics(),
            },
            match inner.present {
                Some(p) => is_first_present(families@, p as int) && p < index,
                None => forall|j: int| 0 <= j < index ==> !(#[trigger] families@[j]).supports_surface,
            },
        decreases families@.len() - index,
    {
        let family = families[index as usize];
        if inner.graphics.is_none() && family.queue_count > 0 && queue_flags_contains(
            family.queue_flags,
            QUEUE_GRAPHICS,
        ) {
            inner.graphics = Some(index);
        }
        if inner.present.is_none() && family.supports_surface {
            inner.present = Some(index);
        }
        index = index + 1;
    }
    if inner.is_complete() {
        Some(QueueFamilyIndices { graphics: inner.graphics.unwrap(), present: inner.present.unwrap() })
    } else {
        None
    }
}

/// The device supports every extension the renderer enables.
pub fn check_device_extension_support(supported_extensions: &Vec<String>) -> (supported: bool)
    ensures
        supported == names_present(seq!["VK_KHR_swapchain"@], supported_extensions@),
{
    let required = get_device_extensions();
    all_names_present(&required, supported_extensions)
}

/// The device's surface support is enough for a swapchain: it has the
/// swapchain extension, a surface format and a present mode.
pub open spec fn swapchain_adequate(device: PhysicalDeviceInfo) -> bool {
    &&& names_present(seq!["VK_KHR_swapchain"@], device.extensions@)
    &&& device.swapchain.formats@.len() > 0
    &&& device.swapchain.present_modes@.len() > 0
}

/// The renderer can run on the device.
pub open spec fn suitable(device: PhysicalDeviceInfo) -> bool {
    has_required_queue_families(device.queue_families@) && swapchain_adequate(device)
}

/// The renderer can run on the device: it has a graphics family, a family
/// that can present, the swapchain extension, a surface format and a present
/// mode.
pub fn is_physical_device_suitable(device: &PhysicalDeviceInfo) -> (is_suitable: bool)
    requires
        device.queue_families.len() <= u32::MAX,
    ensures
        is_suitable == suitable(*device),
{
    let supports_required_extensions = check_device_extension_support(&device.extensions);
    let supports_required_queue_families = get_physical_device_queue_family_indices(
        &device.queue_families,
    ).is_some();
    let swap_chain_is_adequate = if supports_required_extensions {
        device.swapchain.formats.len() > 0 && device.swapchain.present_modes.len() > 0
    } else {
        false
    };
    supports_required_queue_families && supports_required_extensions && swap_chain_is_adequate
}

/// `index` is the first suitable device.
pub open spec fn is_first_suitable(devices: Seq<PhysicalDeviceInfo>, index: int) -> bool {
    &&& 0 <= index < devices.len()
    &&& suitable(devices[index])
    &&& forall|j: int| 0 <= j < index ==> !suitable(#[trigger] devices[j])
}

/// The index of the first suitable device; `None` where no device is
/// suitable.
pub fn select_physical_device(devices: &Vec<PhysicalDeviceInfo>) -> (selected: Option<usize>)
    requires
        forall|i: int|
            0 <= i < devices@.len() ==> (#[trigger] devices@[i]).queue_families@.len() <= u32::MAX,
    ensures
        selected matches Some(index) ==> is_first_suitable(devices@, index as int),
        selected is None ==> forall|j: int| 0 <= j < devices@.len() ==> !suitable(#[trigger] devices@[j]),
{
    let mut index: usize = 0;
    while index < devices.len()
        invariant
            index <= devices@.len(),
            forall|i: int|
                0 <= i < devices@.len() ==> (#[trigger] devices@[i]).queue_families@.len()
                    <= u32::MAX,
            forall|j: int| 0 <= j < index ==> !suitable(#[trigger] devices@[j]),
        decreases devices@.len() - index,
    {
        if is_physical_device_suitable(&devices[index]) {
            return Some(index);
        }
        index = index + 1;
    }
    None
}

/// The highest sample count among the flag bits `counts`, as its flag bit;
/// one sample where no higher count is among them.
pub open spec fn highest_sample_count(counts: u32) -> u32 {
    if counts & SAMPLE_COUNT_64 == SAMPLE_COUNT_64 {
        SAMPLE_COUNT_64
    } else if counts & SAMPLE_COUNT_32 == SAMPLE_COUNT_32 {
        SAMPLE_COUNT_32
    } else if counts & SAMPLE_COUNT_16 == SAMPLE_COUNT_16 {
        SAMPLE_COUNT_16
    } else if counts & SAMPLE_COUNT_8 == SAMPLE_COUNT_8 {
        SAMPLE_COUNT_8
    } else if counts & SAMPLE_COUNT_4 == SAMPLE_COUNT_4 {
        SAMPLE_COUNT_4
    } else if counts & SAMPLE_COUNT_2 == SAMPLE_COUNT_2 {
        SAMPLE_COUNT_2
    } else {
        SAMPLE_COUNT_1
    }
}

/// The highest sample count that both the colour and the depth attachments
/// of a framebuffer support, as its flag bit.
pub fn get_max_usable_sample_count(
    framebuffer_color_sample_counts: u32,
    framebuffer_depth_sample_counts: u32,
) -> (samples: u32)
    ensures
        samples == highest_sample_count(
            framebuffer_color_sample_counts & framebuffer_depth_sample_counts,
        ),
{
    let counts = framebuffer_color_sample_counts & framebuffer_depth_sample_counts;
    if sample_count_flags_contains(counts, SAMPLE_COUNT_64) {
        return SAMPLE_COUNT_64;
    }
    if sample_count_flags_contains(counts, SAMPLE_COUNT_32) {
        return SAMPLE_COUNT_32;
    }
    if sample_count_flags_contains(counts, SAMPLE_COUNT_16) {
        return SAMPLE_COUNT_16;
    }
    if sample_count_flags_contains(counts, SAMPLE_COUNT_8) {
        return SAMPLE_COUNT_8;
    }
    if sample_count_flags_contains(counts, SAMPLE_COUNT_4) {
        return SAMPLE_COUNT_4;
    }
    if sample_count_flags_contains(counts, SAMPLE_COUNT_2) {
        return SAMPLE_COUNT_2;
    }
    SAMPLE_COUNT_1
}

/// The count returned is a single sample-count bit, it is one sample or a
/// count that both attachments support, and no higher count is supported by
/// both.
pub proof fn lemma_highest_sample_count(counts: u32)
    ensures
        ({
            let s = highest_sample_count(counts);
            &&& (s == 1 || s == 2 || s == 4 || s == 8 || s == 16 || s == 32 || s == 64)
            &&& (s == 1 || counts & s == s)
            &&& forall|bit: u32|
                (bit == 2 || bit == 4 || bit == 8 || bit == 16 || bit == 32 || bit == 64) && bit
                    > s ==> #[trigger] (counts & bit) != bit
        }),
{
}

/// The first suitable device together with the highest sample count it can
/// render with; `None` where no device is suitable.
pub fn select(devices: &Vec<PhysicalDeviceInfo>) -> (selected: Option<(usize, u32)>)
    requires
        forall|i: int|
            0 <= i < devices@.len() ==> (#[trigger] devices@[i]).queue_families@.len() <= u32::MAX,
    ensures
        selected matches Some((index, samples)) ==> {
            &&& is_first_suitable(devices@, index as int)
            &&& samples == highest_sample_count(
                devices@[index as int].framebuffer_color_sample_counts
                    & devices@[index as int].framebuffer_depth_sample_counts,
            )
        },
        selected is None ==> forall|j: int| 0 <= j < devices@.len() ==> !suitable(#[trigger] devices@[j]),
{
    match select_physical_device(devices) {
        Some(index) => {
            let device = &devices[index];
            Some(
                (
                    index,
                    get_max_usable_sample_count(
                        device.framebuffer_color_sample_counts,
                        device.framebuffer_depth_sample_counts,
                    ),
                ),
            )
        },
        None => None,
    }
}

/// The distinct queue families among `indices`, graphics first.
pub open spec fn unique_queue_families(indices: QueueFamilyIndices) -> Seq<u32> {
    if indices.graphics == indices.present {
        seq![indices.graphics]
    } else {
        seq![indices.graphics, indices.present]
    }
}

/// The parameters a logical device is created with.
pub struct DeviceCreateInfo {
    /// The families one queue each is created from; none occurs twice.
    pub queue_family_indices: Vec<u32>,
    /// The validation layers to enable; empty unless validation is on.
    pub enabled_layer_names: Vec<String>,
    /// The device extensions to enable.
    pub enabled_extension_names: Vec<String>,
}

/// The parameters of the logical device for the given queue families: one
/// queue from each distinct family, the swapchain extension, and the
/// validation layers where validation is on.
pub fn create_logical_device(indices: QueueFamilyIndices, enable_validation_layers: bool) -> (info:
    DeviceCreateInfo)
    ensures
        info.queue_family_indices@ == unique_queue_families(indices),
        info.enabled_extension_names@.len() == 1,
        info.enabled_extension_names@[0]@ == "VK_KHR_swapchain"@,
        enable_validation_layers ==> info.enabled_layer_names@.len() == 1
            && info.enabled_layer_names@[0]@ == "VK_LAYER_KHRONOS_validation"@,
        !enable_validation_layers ==> info.enabled_layer_names@.len() == 0,
{
    let mut queue_family_indices: Vec<u32> = Vec::new();
    queue_family_indices.push(indices.graphics);
    if indices.present != indices.graphics {
        queue_family_indices.push(indices.present);
    }
    assert(queue_family_indices@ =~= unique_queue_families(indices));
    let enabled_layer_names = if enable_validation_layers {
        crate::setup::validation_layers::get_enabled_layer_names()
    } else {
        Vec::new()
    };
    DeviceCreateInfo {
        queue_family_indices,
        enabled_layer_names,
        enabled_extension_names: get_device_extensions(),
    }
}

} // verus!

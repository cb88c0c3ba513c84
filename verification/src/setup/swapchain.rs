//! Swapchain configuration: surface format, present mode, extent, image
//! count and sharing mode, chosen from what the surface reports.

use vstd::prelude::*;

verus! {

/// A two-dimensional size in pixels.
#[derive(Clone, Copy, Debug, PartialEq, Eq, Structural)]
pub struct Extent2D {
    pub width: u32,
    pub height: u32,
}

impl Extent2D {
    /// The extent covers no pixel.
    pub open spec fn zero_area(self) -> bool {
        self.width == 0 || self.height == 0
    }

    /// The extent covers no pixel.
    pub fn is_zero_area(&self) -> (zero: bool)
        ensures
            zero == self.zero_area(),
    {
        self.width == 0 || self.height == 0
    }
}

/// `VK_FORMAT_B8G8R8A8_UNORM`.
pub const FORMAT_B8G8R8A8_UNORM: i32 = 44;

/// `VK_COLOR_SPACE_SRGB_NONLINEAR_KHR`.
pub const COLOR_SPACE_SRGB_NONLINEAR: i32 = 0;

/// `VK_PRESENT_MODE_MAILBOX_KHR`.
pub const PRESENT_MODE_MAILBOX: i32 = 1;

/// `VK_PRESENT_MODE_FIFO_KHR`.
pub const PRESENT_MODE_FIFO: i32 = 2;

/// `VK_SHARING_MODE_EXCLUSIVE`.
pub const SHARING_MODE_EXCLUSIVE: i32 = 0;

/// `VK_SHARING_MODE_CONCURRENT`.
pub const SHARING_MODE_CONCURRENT: i32 = 1;

/// A pixel format with its colour space, by their Vulkan codes.
#[derive(Clone, Copy, Debug, PartialEq, Eq, Structural)]
pub struct SurfaceFormat {
    pub format: i32,
    pub color_space: i32,
}

/// What the swapchain setup reads of a surface's capabilities.
#[derive(Clone, Copy, Debug, PartialEq, Eq, Structural)]
pub struct SurfaceCapabilities {
    pub min_image_count: u32,
    /// Zero where the surface sets no upper limit.
    pub max_image_count: u32,
    /// A width of `u32::MAX` where the surface takes its size from the
    /// swapchain.
    pub current_extent: Extent2D,
    pub min_image_extent: Extent2D,
    pub max_image_extent: Extent2D,
    /// The surface's current transform, as its flag bits.
    pub current_transform: u32,
}

/// What a physical device supports on a surface.
pub struct SwapchainDetails {
    pub capabilities: SurfaceCapabilities,
    pub formats: Vec<SurfaceFormat>,
    pub present_modes: Vec<i32>,
}

/// The parameters a swapchain is created with.
#[derive(Debug, PartialEq, Eq)]
pub struct SwapchainCreateInfo {
    pub min_image_count: u32,
    pub image_format: i32,
    pub image_color_space: i32,
    pub image_extent: Extent2D,
    pub image_sharing_mode: i32,
    /// The queue families that share the images; empty where one family
    /// owns them.
    pub queue_family_indices: Vec<u32>,
    pub pre_transform: u32,
    pub present_mode: i32,
}

/// The format the renderer asks for: 8-bit BGRA in the sRGB colour space.
pub open spec fn preferred_format() -> SurfaceFormat {
    SurfaceFormat { format: FORMAT_B8G8R8A8_UNORM, color_space: COLOR_SPACE_SRGB_NONLINEAR }
}

/// The preferred format where any format after the first is the preferred
/// one, else the first format.
pub open spec fn selected_surface_format(formats: Seq<SurfaceFormat>) -> SurfaceFormat {
    if exists|i: int| 1 <= i < formats.len() && formats[i] == preferred_format() {
        preferred_format()
    } else {
        formats[0]
    }
}

/// Mailbox where the surface offers it, else FIFO, which every surface
/// offers.
pub open spec fn selected_present_mode(modes: Seq<i32>) -> i32 {
    if modes.contains(PRESENT_MODE_MAILBOX) {
        PRESENT_MODE_MAILBOX
    } else {
        PRESENT_MODE_FIFO
    }
}

/// `value` brought into `low ..= high`; `low` where the range is empty.
pub open spec fn clamped(value: u32, low: u32, high: u32) -> u32 {
    if value > high {
        if high < low {
            low
        } else {
            high
        }
    } else if value < low {
        low
    } else {
        value
    }
}

/// The surface's own extent where it has one, else the window size brought
/// within the limits of the surface.
pub open spec fn selected_extent(capabilities: SurfaceCapabilities, window: Extent2D) -> Extent2D {
    if capabilities.current_extent.width != u32::MAX {
        capabilities.current_extent
    } else {
        Extent2D {
            width: clamped(
                window.width,
                capabilities.min_image_extent.width,
                capabilities.max_image_extent.width,
            ),
            height: clamped(
                window.height,
                capabilities.min_image_extent.height,
                capabilities.max_image_extent.height,
            ),
        }
    }
}

/// One image more than the minimum, so that the renderer need not wait for
/// the driver, but no more than the surface allows.
pub open spec fn selected_image_count(capabilities: SurfaceCapabilities) -> int {
    if capabilities.max_image_count == 0 || capabilities.min_image_count + 1
        <= capabilities.max_image_count {
        capabilities.min_image_count + 1
    } else {
        capabilities.max_image_count as int
    }
}

/// The format the swapchain is created with.
pub fn select_swapchain_surface_format(available_formats: &Vec<SurfaceFormat>) -> (selected:
    SurfaceFormat)
    requires
        available_formats.len() > 0,
    ensures
        selected == selected_surface_format(available_formats@),
{
    let mut selected = available_formats[0];
    let mut i: usize = 1;
    while i < available_formats.len()
        invariant
            1 <= i <= available_formats@.len(),
            selected == selected_surface_format(available_formats@.take(i as int)),
        decreases available_formats@.len() - i,
    {
        let available_format = available_formats[i];
        let ghost before = available_formats@.take(i as int);
        let ghost after = available_formats@.take(i + 1);
        assert(after[0] == before[0]);
        if available_format.format == FORMAT_B8G8R8A8_UNORM && available_format.color_space
            == COLOR_SPACE_SRGB_NONLINEAR {
            assert(after[i as int] == preferred_format());
            selected = available_format;
        } else {
            assert forall|j: int| 1 <= j < after.len() && after[j] == preferred_format() implies 1
                <= j < before.len() && before[j] == preferred_format() by {}
            assert forall|j: int| 1 <= j < before.len() && before[j] == preferred_format() implies 1
                <= j < after.len() && after[j] == preferred_format() by {}
        }
        i = i + 1;
    }
    assert(available_formats@.take(i as int) =~= available_formats@);
    selected
}

/// The present mode the swapchain is created with.
pub fn select_swapchain_present_mode(available_present_modes: &Vec<i32>) -> (selected: i32)
    requires
        available_present_modes.len() > 0,
    ensures
        selected == selected_present_mode(available_present_modes@),
{
    let mut i: usize = 0;
    while i < available_present_modes.len()
        invariant
            i <= available_present_modes@.len(),
            forall|j: int| 0 <= j < i ==> available_present_modes@[j] != PRESENT_MODE_MAILBOX,
        decreases available_present_modes@.len() - i,
    {
        if available_present_modes[i] == PRESENT_MODE_MAILBOX {
            return PRESENT_MODE_MAILBOX;
        }
        i = i + 1;
    }
    PRESENT_MODE_FIFO
}

/// `value` brought into `low ..= high`.
fn clamp(value: u32, low: u32, high: u32) -> (result: u32)
    ensures
        result == clamped(value, low, high),
{
    let capped = if high < value {
        high
    } else {
        value
    };
    if low > capped {
        low
    } else {
        capped
    }
}

/// The extent the swapchain's images are created with.
pub fn select_swapchain_extent(capabilities: SurfaceCapabilities, window_size: Extent2D) -> (extent:
    Extent2D)
    ensures
        extent == selected_extent(capabilities, window_size),
{
    if capabilities.current_extent.width != u32::MAX {
        capabilities.current_extent
    } else {
        Extent2D {
            width: clamp(
                window_size.width,
                capabilities.min_image_extent.width,
                capabilities.max_image_extent.width,
            ),
            height: clamp(
                window_size.height,
                capabilities.min_image_extent.height,
                capabilities.max_image_extent.height,
            ),
        }
    }
}

/// The parameters of the swapchain for a surface with the given support,
/// drawn to by the `graphics` queue family and presented by the `present`
/// family, in a window of size `window_size`.
pub fn create(
    details: &SwapchainDetails,
    graphics: u32,
    present: u32,
    window_size: Extent2D,
) -> (info: SwapchainCreateInfo)
    requires
        details.formats.len() > 0,
        details.present_modes.len() > 0,
        details.capabilities.min_image_count < u32::MAX,
    ensures
        info.min_image_count == selected_image_count(details.capabilities),
        info.image_format == selected_surface_format(details.formats@).format,
        info.image_color_space == selected_surface_format(details.formats@).color_space,
        info.present_mode == selected_present_mode(details.present_modes@),
        info.image_extent == selected_extent(details.capabilities, window_size),
        info.pre_transform == details.capabilities.current_transform,
        graphics == present ==> info.image_sharing_mode == SHARING_MODE_EXCLUSIVE
            && info.queue_family_indices@ == Seq::<u32>::empty(),
        graphics != present ==> info.image_sharing_mode == SHARING_MODE_CONCURRENT
            && info.queue_family_indices@ == seq![graphics, present],
{
    let capabilities = details.capabilities;
    let surface_format = select_swapchain_surface_format(&details.formats);
    let present_mode = select_swapchain_present_mode(&details.present_modes);
    let image_extent = select_swapchain_extent(capabilities, window_size);
    let wanted = capabilities.min_image_count + 1;
    let min_image_count = if capabilities.max_image_count == 0 || wanted
        <= capabilities.max_image_count {
        wanted
    } else {
        capabilities.max_image_count
    };
    let mut queue_family_indices: Vec<u32> = Vec::new();
    let image_sharing_mode = if graphics == present {
        SHARING_MODE_EXCLUSIVE
    } else {
        queue_family_indices.push(graphics);
        queue_family_indices.push(present);
        assert(queue_family_indices@ =~= seq![graphics, present]);
        SHARING_MODE_CONCURRENT
    };
    SwapchainCreateInfo {
        min_image_count,
        image_format: surface_format.format,
        image_color_space: surface_format.color_space,
        image_extent,
        image_sharing_mode,
        queue_family_indices,
        pre_transform: capabilities.current_transform,
        present_mode,
    }
}

} // verus!

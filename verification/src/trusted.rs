//! The calls into `ash` and `byteorder`.
//!
//! Verus does not read these bodies: each contract restates what the called
//! function's source shows, and the rest of the crate is proved against it.

use vstd::prelude::*;
use ash::extensions::ext::DebugUtils;
use ash::extensions::khr::{Surface, Swapchain, Win32Surface};
use ash::vk::{FormatFeatureFlags, MemoryPropertyFlags, QueueFlags, SampleCountFlags};
use byteorder::{ByteOrder, LittleEndian};

verus! {

/// `ash::vk::QueueFlags::contains` on raw flag words: every bit of `other` is
/// set in `flags`.
#[verifier::external_body]
pub(crate) fn queue_flags_contains(flags: u32, other: u32) -> (contained: bool)
    ensures
        contained == (flags & other == other),
{
    QueueFlags::from_raw(flags).contains(QueueFlags::from_raw(other))
}

/// `ash::vk::SampleCountFlags::contains` on raw flag words: every bit of
/// `other` is set in `flags`.
#[verifier::external_body]
pub(crate) fn sample_count_flags_contains(flags: u32, other: u32) -> (contained: bool)
    ensures
        contained == (flags & other == other),
{
    SampleCountFlags::from_raw(flags).contains(SampleCountFlags::from_raw(other))
}

/// `ash::vk::MemoryPropertyFlags::contains` on raw flag words: every bit of
/// `other` is set in `flags`.
#[verifier::external_body]
pub(crate) fn memory_property_flags_contains(flags: u32, other: u32) -> (contained: bool)
    ensures
        contained == (flags & other == other),
{
    MemoryPropertyFlags::from_raw(flags).contains(MemoryPropertyFlags::from_raw(other))
}

/// `ash::vk::FormatFeatureFlags::contains` on raw flag words: every bit of
/// `other` is set in `flags`.
#[verifier::external_body]
pub(crate) fn format_feature_flags_contains(flags: u32, other: u32) -> (contained: bool)
    ensures
        contained == (flags & other == other),
{
    FormatFeatureFlags::from_raw(flags).contains(FormatFeatureFlags::from_raw(other))
}

/// `ash::vk::make_version`: the major number from bit 22 up, the minor number
/// from bit 12 up, the patch number below, combined by bitwise or.
#[verifier::external_body]
pub(crate) fn make_version(major: u32, minor: u32, patch: u32) -> (version: u32)
    ensures
        version == (major << 22u32) | (minor << 12u32) | patch,
{
    ash::vk::make_version(major, minor, patch)
}

/// The number whose little-endian encoding is the four bytes of `bytes` from
/// `offset` on.
pub open spec fn le_u32(bytes: Seq<u8>, offset: int) -> u32 {
    (bytes[offset] as u32) | (bytes[offset + 1] as u32) << 8u32 | (bytes[offset + 2] as u32)
        << 16u32 | (bytes[offset + 3] as u32) << 24u32
}

/// `byteorder::LittleEndian::read_u32` on the bytes from `offset` on: the
/// first four of them, read as a little-endian number.  The call panics on
/// fewer than four bytes, which `requires` leaves out.
#[verifier::external_body]
pub(crate) fn read_u32_le(bytes: &Vec<u8>, offset: usize) -> (value: u32)
    requires
        offset + 4 <= bytes@.len(),
    ensures
        value == le_u32(bytes@, offset as int),
{
    LittleEndian::read_u32(&bytes[offset..])
}

/// `ash::extensions::khr::Swapchain::name`: the name of the swapchain device
/// extension.
#[verifier::external_body]
pub(crate) fn swapchain_extension_name() -> (name: String)
    ensures
        name@ == "VK_KHR_swapchain"@,
{
    Swapchain::name().to_string_lossy().into_owned()
}

/// `ash::extensions::khr::Surface::name`: the name of the surface instance
/// extension.
#[verifier::external_body]
pub(crate) fn surface_extension_name() -> (name: String)
    ensures
        name@ == "VK_KHR_surface"@,
{
    Surface::name().to_string_lossy().into_owned()
}

/// `ash::extensions::khr::Win32Surface::name`: the name of the Win32 surface
/// instance extension.
#[verifier::external_body]
pub(crate) fn win32_surface_extension_name() -> (name: String)
    ensures
        name@ == "VK_KHR_win32_surface"@,
{
    Win32Surface::name().to_string_lossy().into_owned()
}

/// `ash::extensions::ext::DebugUtils::name`: the name of the debug-utils
/// instance extension.
#[verifier::external_body]
pub(crate) fn debug_utils_extension_name() -> (name: String)
    ensures
        name@ == "VK_EXT_debug_utils"@,
{
    DebugUtils::name().to_string_lossy().into_owned()
}

} // verus!

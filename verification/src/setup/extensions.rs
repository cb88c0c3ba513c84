//! The instance and device extensions the renderer enables.

use vstd::prelude::*;
use crate::trusted::{
    debug_utils_extension_name, surface_extension_name, swapchain_extension_name,
    win32_surface_extension_name,
};

verus! {

/// `name` is among `available`.
pub open spec fn name_present(name: Seq<char>, available: Seq<String>) -> bool {
    exists|j: int| 0 <= j < available.len() && (#[trigger] available[j])@ == name
}

/// Every name of `required` is among `available`.
pub open spec fn names_present(required: Seq<Seq<char>>, available: Seq<String>) -> bool {
    forall|i: int| 0 <= i < required.len() ==> name_present(#[trigger] required[i], available)
}

/// The names in `names`, each as its characters.
pub open spec fn names_of(names: Seq<String>) -> Seq<Seq<char>> {
    names.map_values(|name: String| name@)
}

/// `name` is among `available`.
pub fn contains_name(available: &Vec<String>, name: &String) -> (present: bool)
    ensures
        present == name_present(name@, available@),
{
    let mut j: usize = 0;
    while j < available.len()
        invariant
            j <= available@.len(),
            forall|k: int| 0 <= k < j ==> (#[trigger] available@[k])@ != name@,
        decreases available@.len() - j,
    {
        if available[j] == *name {
            return true;
        }
        j = j + 1;
    }
    false
}

/// Every name of `required` is among `available`.
pub fn all_names_present(required: &Vec<String>, available: &Vec<String>) -> (present: bool)
    ensures
        present == names_present(names_of(required@), available@),
{
    let mut i: usize = 0;
    while i < required.len()
        invariant
            i <= required@.len(),
            forall|k: int|
                0 <= k < i ==> name_present(#[trigger] names_of(required@)[k], available@),
        decreases required@.len() - i,
    {
        if !contains_name(available, &required[i]) {
            assert(names_of(required@)[i as int] == required@[i as int]@);
            return false;
        }
        assert(names_of(required@)[i as int] == required@[i as int]@);
        i = i + 1;
    }
    true
}

/// The instance extensions the renderer enables: surfaces, Win32 surfaces
/// and debug messages.
pub fn get_instance_extensions() -> (names: Vec<String>)
    ensures
        names_of(names@) == seq![
            "VK_KHR_surface"@,
            "VK_KHR_win32_surface"@,
            "VK_EXT_debug_utils"@,
        ],
{
    let mut names: Vec<String> = Vec::new();
    names.push(surface_extension_name());
    names.push(win32_surface_extension_name());
    names.push(debug_utils_extension_name());
    assert(names_of(names@) =~= seq![
        "VK_KHR_surface"@,
        "VK_KHR_win32_surface"@,
        "VK_EXT_debug_utils"@,
    ]);
    names
}

/// The device extensions the renderer enables: the swapchain.
pub fn get_device_extensions() -> (names: Vec<String>)
    ensures
        names@.len() == 1,
        names@[0]@ == "VK_KHR_swapchain"@,
        names_of(names@) == seq!["VK_KHR_swapchain"@],
{
    let mut names: Vec<String> = Vec::new();
    names.push(swapchain_extension_name());
    assert(names_of(names@) =~= seq!["VK_KHR_swapchain"@]);
    names
}

} // verus!

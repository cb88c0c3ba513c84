//! The validation layers enabled in debug builds.

use vstd::prelude::*;
use vstd::string::StringExecFns;
use crate::setup::extensions::{all_names_present, names_of, names_present};

verus! {

/// The validation layers the renderer asks for, each as its characters.
pub open spec fn validation_layers() -> Seq<Seq<char>> {
    seq!["VK_LAYER_KHRONOS_validation"@]
}

/// The names of the validation layers the renderer asks for.
pub fn get_enabled_layer_names() -> (names: Vec<String>)
    ensures
        names@.len() == 1,
        names@[0]@ == "VK_LAYER_KHRONOS_validation"@,
        names_of(names@) == validation_layers(),
{
    let mut names: Vec<String> = Vec::new();
    names.push(String::from_str("VK_LAYER_KHRONOS_validation"));
    assert(names_of(names@) =~= validation_layers());
    names
}

/// Every validation layer the renderer asks for is among the layers
/// installed.
pub fn check_validation_layer_support(available_layers: &Vec<String>) -> (supported: bool)
    ensures
        supported == names_present(validation_layers(), available_layers@),
{
    let required = get_enabled_layer_names();
    all_names_present(&required, available_layers)
}

} // verus!

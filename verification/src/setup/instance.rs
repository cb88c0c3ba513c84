//! The parameters the Vulkan instance and its debug messenger are created
//! with.

use vstd::prelude::*;
use vstd::string::StringExecFns;
use crate::setup::extensions::{get_instance_extensions, names_of, names_present};
use crate::setup::validation_layers::{
    check_validation_layer_support, get_enabled_layer_names, validation_layers,
};
use crate::trusted::make_version;

verus! {

/// `VK_DEBUG_UTILS_MESSAGE_SEVERITY_VERBOSE_BIT_EXT`.
pub const MESSAGE_SEVERITY_VERBOSE: u32 = 0x0001;

/// `VK_DEBUG_UTILS_MESSAGE_SEVERITY_WARNING_BIT_EXT`.
pub const MESSAGE_SEVERITY_WARNING: u32 = 0x0100;

/// `VK_DEBUG_UTILS_MESSAGE_SEVERITY_ERROR_BIT_EXT`.
pub const MESSAGE_SEVERITY_ERROR: u32 = 0x1000;

/// `VK_DEBUG_UTILS_MESSAGE_TYPE_GENERAL_BIT_EXT`.
pub const MESSAGE_TYPE_GENERAL: u32 = 0x1;

/// `VK_DEBUG_UTILS_MESSAGE_TYPE_VALIDATION_BIT_EXT`.
pub const MESSAGE_TYPE_VALIDATION: u32 = 0x2;

/// `VK_DEBUG_UTILS_MESSAGE_TYPE_PERFORMANCE_BIT_EXT`.
pub const MESSAGE_TYPE_PERFORMANCE: u32 = 0x4;

/// Which messages the debug messenger passes on, as flag bits.
#[derive(Clone, Copy, Debug, PartialEq, Eq, Structural)]
pub struct DebugMessengerCreateInfo {
    pub message_severity: u32,
    pub message_type: u32,
}

/// The debug messenger passes on verbose messages, warnings and errors of
/// every type.
pub fn populate_debug_messenger_create_info() -> (info: DebugMessengerCreateInfo)
    ensures
        info.message_severity == MESSAGE_SEVERITY_VERBOSE | MESSAGE_SEVERITY_WARNING
            | MESSAGE_SEVERITY_ERROR,
        info.message_severity == 0x1101,
        info.message_type == MESSAGE_TYPE_GENERAL | MESSAGE_TYPE_VALIDATION
            | MESSAGE_TYPE_PERFORMANCE,
        info.message_type == 0x7,
{
    assert(0x0001u32 | 0x0100u32 | 0x1000u32 == 0x1101u32) by (bit_vector);
    assert(0x1u32 | 0x2u32 | 0x4u32 == 0x7u32) by (bit_vector);
    DebugMessengerCreateInfo {
        message_severity: MESSAGE_SEVERITY_VERBOSE | MESSAGE_SEVERITY_WARNING
            | MESSAGE_SEVERITY_ERROR,
        message_type: MESSAGE_TYPE_GENERAL | MESSAGE_TYPE_VALIDATION | MESSAGE_TYPE_PERFORMANCE,
    }
}

/// The parameters the instance is created with.
pub struct InstanceCreateInfo {
    pub application_name: String,
    pub engine_name: String,
    /// The application, engine and API version, all the same.
    pub version: u32,
    /// The validation layers to enable; empty unless validation is on.
    pub enabled_layer_names: Vec<String>,
    pub enabled_extension_names: Vec<String>,
    /// The messenger that reports on instance creation itself; present where
    /// validation is on.
    pub debug_messenger: Option<DebugMessengerCreateInfo>,
}

/// Version 1.0.0 in Vulkan's packing: the major number from bit 22 up.
pub open spec fn version_1_0_0() -> u32 {
    0x0040_0000
}

/// The parameters of the instance; `None` where validation is asked for and
/// a validation layer is not among `available_layers`.
pub fn create(enable_validation_layers: bool, available_layers: &Vec<String>) -> (info: Option<
    InstanceCreateInfo,
>)
    ensures
        info is None <==> enable_validation_layers && !names_present(
            validation_layers(),
            available_layers@,
        ),
        info matches Some(created) ==> {
            &&& created.application_name@ == "Hello triangle"@
            &&& created.engine_name@ == "No engine"@
            &&& created.version == version_1_0_0()
            &&& names_of(created.enabled_extension_names@) == seq![
                "VK_KHR_surface"@,
                "VK_KHR_win32_surface"@,
                "VK_EXT_debug_utils"@,
            ]
            &&& names_of(created.enabled_layer_names@) == if enable_validation_layers {
                validation_layers()
            } else {
                Seq::<Seq<char>>::empty()
            }
            &&& created.debug_messenger == if enable_validation_layers {
                Some(DebugMessengerCreateInfo { message_severity: 0x1101, message_type: 0x7 })
            } else {
                None::<DebugMessengerCreateInfo>
            }
        },
{
    if enable_validation_layers && !check_validation_layer_support(available_layers) {
        return None;
    }
    let version = make_version(1, 0, 0);
    assert((1u32 << 22u32) | (0u32 << 12u32) | 0u32 == 0x0040_0000u32) by (bit_vector);
    let enabled_layer_names = if enable_validation_layers {
        get_enabled_layer_names()
    } else {
        let none: Vec<String> = Vec::new();
        assert(names_of(none@) =~= Seq::<Seq<char>>::empty());
        none
    };
    let debug_messenger = if enable_validation_layers {
        Some(populate_debug_messenger_create_info())
    } else {
        None
    };
    Some(
        InstanceCreateInfo {
            application_name: String::from_str("Hello triangle"),
            engine_name: String::from_str("No engine"),
            version,
            enabled_layer_names,
            enabled_extension_names: get_instance_extensions(),
            debug_messenger,
        },
    )
}

} // verus!

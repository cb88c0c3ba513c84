//! Memory-type selection for buffers and images.

use vstd::prelude::*;
use crate::trusted::memory_property_flags_contains;

verus! {

/// Number of memory types a physical device can report.
pub const MAX_MEMORY_TYPES: usize = 32;

/// Memory type `index` is allowed by `type_filter` and has every property of
/// `memory_property_flags`.
pub open spec fn memory_type_suits(
    memory_types: Seq<u32>,
    type_filter: u32,
    memory_property_flags: u32,
    index: int,
) -> bool {
    &&& type_filter & (1u32 << (index as u32)) > 0
    &&& memory_types[index] & memory_property_flags == memory_property_flags
}

/// `index` is the first memory type that suits.
pub open spec fn is_first_memory_type(
    memory_types: Seq<u32>,
    type_filter: u32,
    memory_property_flags: u32,
    index: int,
) -> bool {
    &&& 0 <= index < memory_types.len()
    &&& memory_type_suits(memory_types, type_filter, memory_property_flags, index)
    &&& forall|j: int|
        0 <= j < index ==> !memory_type_suits(
            memory_types,
            type_filter,
            memory_property_flags,
            j,
        )
}

/// The index of the first memory type that `type_filter` allows and that has
/// the properties asked for.  `memory_types` holds the property flags of the
/// device's memory types, in their order.
pub fn find_memory_type_index(
    memory_types: &Vec<u32>,
    type_filter: u32,
    memory_property_flags: u32,
) -> (found: Result<u32, &'static str>)
    requires
        memory_types.len() <= MAX_MEMORY_TYPES,
    ensures
        found matches Ok(index) ==> is_first_memory_type(
            memory_types@,
            type_filter,
            memory_property_flags,
            index as int,
        ),
        found matches Err(message) ==> message@
            == "Failed to find suitable memory type for buffer!"@ && forall|j: int|
            0 <= j < memory_types@.len() ==> !memory_type_suits(
                memory_types@,
                type_filter,
                memory_property_flags,
                j,
            ),
{
    let mut index: u32 = 0;
    while (index as usize) < memory_types.len()
        invariant
            index <= memory_types@.len() <= MAX_MEMORY_TYPES,
            forall|j: int|
                0 <= j < index ==> !memory_type_suits(
                    memory_types@,
                    type_filter,
                    memory_property_flags,
                    j,
                ),
        decreases memory_types@.len() - index,
    {
        if (type_filter & (1u32 << index)) > 0 && memory_property_flags_contains(
            memory_types[index as usize],
            memory_property_flags,
        ) {
            return Ok(index);
        }
        index = index + 1;
    }
    Err("Failed to find suitable memory type for buffer!")
}

} // verus!

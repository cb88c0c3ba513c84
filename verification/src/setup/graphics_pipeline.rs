//! Shader code, from the bytes of a SPIR-V file to the words a shader module
//! is created from.

use vstd::prelude::*;
use crate::trusted::{le_u32, read_u32_le};

verus! {

/// The words of a SPIR-V binary: each group of four bytes read as a
/// little-endian number.
pub open spec fn shader_words(bytes: Seq<u8>) -> Seq<u32> {
    Seq::new(bytes.len() / 4, |i: int| le_u32(bytes, 4 * i))
}

/// The words of the SPIR-V binary `shader_bytes`, whose length is a multiple
/// of four.
pub fn read_shader(shader_bytes: &Vec<u8>) -> (shader_raw: Vec<u32>)
    requires
        shader_bytes.len() % 4 == 0,
    ensures
        shader_raw@ == shader_words(shader_bytes@),
{
    let mut shader_raw: Vec<u32> = Vec::new();
    let mut i: usize = 0;
    while i < shader_bytes.len()
        invariant
            i <= shader_bytes@.len(),
            i % 4 == 0,
            shader_bytes@.len() % 4 == 0,
            shader_raw@.len() == i / 4,
            forall|k: int| 0 <= k < shader_raw@.len() ==> shader_raw@[k] == le_u32(shader_bytes@, 4 * k),
        decreases shader_bytes@.len() - i,
    {
        shader_raw.push(read_u32_le(shader_bytes, i));
        i = i + 4;
    }
    assert(shader_raw@ =~= shader_words(shader_bytes@));
    shader_raw
}

} // verus!

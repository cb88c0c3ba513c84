//! Texture and attachment images: mip chains, layout transitions and the
//! search for a supported format.

use vstd::prelude::*;
use crate::trusted::format_feature_flags_contains;

verus! {

/// `VK_IMAGE_LAYOUT_UNDEFINED`.
pub const IMAGE_LAYOUT_UNDEFINED: i32 = 0;

/// `VK_IMAGE_LAYOUT_SHADER_READ_ONLY_OPTIMAL`.
pub const IMAGE_LAYOUT_SHADER_READ_ONLY_OPTIMAL: i32 = 5;

/// `VK_IMAGE_LAYOUT_TRANSFER_SRC_OPTIMAL`.
pub const IMAGE_LAYOUT_TRANSFER_SRC_OPTIMAL: i32 = 6;

/// `VK_IMAGE_LAYOUT_TRANSFER_DST_OPTIMAL`.
pub const IMAGE_LAYOUT_TRANSFER_DST_OPTIMAL: i32 = 7;

/// `VK_ACCESS_SHADER_READ_BIT`.
pub const ACCESS_SHADER_READ: u32 = 0x20;

/// `VK_ACCESS_TRANSFER_READ_BIT`.
pub const ACCESS_TRANSFER_READ: u32 = 0x800;

/// `VK_ACCESS_TRANSFER_WRITE_BIT`.
pub const ACCESS_TRANSFER_WRITE: u32 = 0x1000;

/// `VK_PIPELINE_STAGE_TOP_OF_PIPE_BIT`.
pub const PIPELINE_STAGE_TOP_OF_PIPE: u32 = 0x1;

/// `VK_PIPELINE_STAGE_FRAGMENT_SHADER_BIT`.
pub const PIPELINE_STAGE_FRAGMENT_SHADER: u32 = 0x80;

/// `VK_PIPELINE_STAGE_TRANSFER_BIT`.
pub const PIPELINE_STAGE_TRANSFER: u32 = 0x1000;

/// `VK_FORMAT_FEATURE_DEPTH_STENCIL_ATTACHMENT_BIT`.
pub const FORMAT_FEATURE_DEPTH_STENCIL_ATTACHMENT: u32 = 0x200;

/// `VK_FORMAT_FEATURE_SAMPLED_IMAGE_FILTER_LINEAR_BIT`.
pub const FORMAT_FEATURE_SAMPLED_IMAGE_FILTER_LINEAR: u32 = 0x1000;

/// `VK_IMAGE_TILING_OPTIMAL`.
pub const IMAGE_TILING_OPTIMAL: i32 = 0;

/// `VK_IMAGE_TILING_LINEAR`.
pub const IMAGE_TILING_LINEAR: i32 = 1;

/// `VK_FORMAT_D32_SFLOAT`.
pub const FORMAT_D32_SFLOAT: i32 = 126;

/// `VK_FORMAT_D24_UNORM_S8_UINT`.
pub const FORMAT_D24_UNORM_S8_UINT: i32 = 129;

/// `VK_FORMAT_D32_SFLOAT_S8_UINT`.
pub const FORMAT_D32_SFLOAT_S8_UINT: i32 = 130;

/// Bytes per texel of the texture format, 8-bit RGBA.
pub const TEXEL_SIZE: u32 = 4;

/// Number of mip levels of an image whose larger side has `size` texels:
/// the image itself and one level for each halving that leaves a texel.
pub open spec fn mip_level_count(size: nat) -> nat
    decreases size,
{
    if size <= 1 {
        1
    } else {
        1 + mip_level_count(size / 2)
    }
}

/// The side of mip level `level` of an image whose side is `size`: halved
/// once per level, while more than one texel is left.
pub open spec fn mip_size(size: u32, level: nat) -> u32
    decreases level,
{
    if level == 0 {
        size
    } else {
        let previous = mip_size(size, (level - 1) as nat);
        if previous > 1 {
            previous / 2
        } else {
            previous
        }
    }
}

/// The side of the level that a level of side `size` is scaled down into.
pub open spec fn halved(size: u32) -> u32 {
    if size > 1 {
        size / 2
    } else {
        1
    }
}

/// An image whose larger side fits `bits` bits has at most `bits` mip
/// levels.
pub proof fn lemma_mip_level_count_bounded(size: nat, bits: nat)
    requires
        bits >= 1,
        size < vstd::arithmetic::power2::pow2(bits),
    ensures
        1 <= mip_level_count(size) <= bits,
    decreases size,
{
    if size > 1 {
        vstd::arithmetic::power2::lemma_pow2_unfold(bits);
        if bits == 1 {
            vstd::arithmetic::power2::lemma2_to64();
        }
        lemma_mip_level_count_bounded(size / 2, (bits - 1) as nat);
    }
}

/// Level `level + 1` of an image is level `level` of the image halved once.
pub proof fn lemma_mip_size_step(size: u32, level: nat)
    ensures
        mip_size(size, level + 1) == mip_size(
            if size > 1 {
                size / 2
            } else {
                size
            },
            level,
        ),
    decreases level,
{
    let half = if size > 1 {
        size / 2
    } else {
        size
    };
    assert(((level + 1) - 1) as nat == level);
    if level > 0 {
        lemma_mip_size_step(size, (level - 1) as nat);
        assert(((level - 1) + 1) as nat == level);
        assert(mip_size(size, level) == mip_size(half, (level - 1) as nat));
    } else {
        assert(mip_size(size, 0) == size);
        assert(mip_size(half, 0) == half);
        assert(mip_size(size, 1) == half);
    }
}

/// The last level of the mip chain of an image is one texel wide on the
/// image's larger side: the chain is as long as it can be and no longer.
pub proof fn lemma_last_mip_level_is_one_texel(size: u32)
    requires
        size >= 1,
    ensures
        mip_size(size, (mip_level_count(size as nat) - 1) as nat) == 1,
        forall|level: nat|
            level + 1 < mip_level_count(size as nat) ==> #[trigger] mip_size(size, level) > 1,
    decreases size,
{
    if size > 1 {
        let half = size / 2;
        lemma_last_mip_level_is_one_texel(half);
        let rest = (mip_level_count(half as nat) - 1) as nat;
        lemma_mip_size_step(size, rest);
        assert forall|level: nat| level + 1 < mip_level_count(size as nat) implies #[trigger] mip_size(
            size,
            level,
        ) > 1 by {
            if level > 0 {
                lemma_mip_size_step(size, (level - 1) as nat);
                assert(mip_size(half, (level - 1) as nat) > 1);
            }
        }
    }
}

/// The number of mip levels of a `width` by `height` image.
pub fn mip_levels(width: u32, height: u32) -> (levels: u32)
    ensures
        levels == mip_level_count(
            if width >= height {
                width as nat
            } else {
                height as nat
            },
        ),
        1 <= levels <= 32,
{
    let larger = if width >= height {
        width
    } else {
        height
    };
    proof {
        vstd::arithmetic::power2::lemma2_to64();
        lemma_mip_level_count_bounded(larger as nat, 32);
    }
    let mut size = larger;
    let mut levels: u32 = 1;
    while size > 1
        invariant
            levels + mip_level_count(size as nat) == mip_level_count(larger as nat) + 1,
            1 <= levels,
            mip_level_count(larger as nat) <= 32,
        decreases size,
    {
        size = size / 2;
        levels = levels + 1;
    }
    levels
}

/// The size in bytes of a `width` by `height` texture of 8-bit RGBA texels;
/// `None` where the texture is empty or its size does not fit 32 bits.
pub fn texture_image_size(width: u32, height: u32) -> (size: Option<u64>)
    ensures
        size == if 0 < width * height * TEXEL_SIZE <= u32::MAX {
            Some((width * height * TEXEL_SIZE) as u64)
        } else {
            None::<u64>
        },
{
    assert(width * height <= 0xffff_ffff * 0xffff_ffff) by (nonlinear_arith)
        requires
            0 <= width <= 0xffff_ffff,
            0 <= height <= 0xffff_ffff,
    ;
    let texels: u64 = (width as u64) * (height as u64);
    if texels == 0 || texels > 0x3fff_ffff {
        None
    } else {
        Some(texels * 4)
    }
}

/// The access and stage masks of an image layout transition.
#[derive(Clone, Copy, Debug, PartialEq, Eq, Structural)]
pub struct LayoutTransitionMasks {
    pub src_access_mask: u32,
    pub dst_access_mask: u32,
    pub src_stage_mask: u32,
    pub dst_stage_mask: u32,
}

/// The masks of the two transitions the texture upload makes: from undefined
/// contents to a transfer destination, and from a transfer destination to
/// an image that fragment shaders read.
pub open spec fn transition_masks(old_layout: i32, new_layout: i32) -> Option<
    LayoutTransitionMasks,
> {
    if old_layout == IMAGE_LAYOUT_UNDEFINED && new_layout == IMAGE_LAYOUT_TRANSFER_DST_OPTIMAL {
        Some(
            LayoutTransitionMasks {
                src_access_mask: 0,
                dst_access_mask: ACCESS_TRANSFER_WRITE,
                src_stage_mask: PIPELINE_STAGE_TOP_OF_PIPE,
                dst_stage_mask: PIPELINE_STAGE_TRANSFER,
            },
        )
    } else if old_layout == IMAGE_LAYOUT_TRANSFER_DST_OPTIMAL && new_layout
        == IMAGE_LAYOUT_SHADER_READ_ONLY_OPTIMAL {
        Some(
            LayoutTransitionMasks {
                src_access_mask: ACCESS_TRANSFER_WRITE,
                dst_access_mask: ACCESS_SHADER_READ,
                src_stage_mask: PIPELINE_STAGE_TRANSFER,
                dst_stage_mask: PIPELINE_STAGE_FRAGMENT_SHADER,
            },
        )
    } else {
        None
    }
}

/// The masks of the transition from `old_layout` to `new_layout`; `None`
/// where the renderer has no use for that transition.
pub fn transition_image_layout(old_layout: i32, new_layout: i32) -> (masks: Option<
    LayoutTransitionMasks,
>)
    ensures
        masks == transition_masks(old_layout, new_layout),
{
    if old_layout == IMAGE_LAYOUT_UNDEFINED && new_layout == IMAGE_LAYOUT_TRANSFER_DST_OPTIMAL {
        Some(
            LayoutTransitionMasks {
                src_access_mask: 0,
                dst_access_mask: ACCESS_TRANSFER_WRITE,
                src_stage_mask: PIPELINE_STAGE_TOP_OF_PIPE,
                dst_stage_mask: PIPELINE_STAGE_TRANSFER,
            },
        )
    } else if old_layout == IMAGE_LAYOUT_TRANSFER_DST_OPTIMAL && new_layout
        == IMAGE_LAYOUT_SHADER_READ_ONLY_OPTIMAL {
        Some(
            LayoutTransitionMasks {
                src_access_mask: ACCESS_TRANSFER_WRITE,
                dst_access_mask: ACCESS_SHADER_READ,
                src_stage_mask: PIPELINE_STAGE_TRANSFER,
                dst_stage_mask: PIPELINE_STAGE_FRAGMENT_SHADER,
            },
        )
    } else {
        None
    }
}

/// A pipeline barrier that moves one mip level to another layout.
#[derive(Clone, Copy, Debug, PartialEq, Eq, Structural)]
pub struct MipBarrier {
    pub mip_level: u32,
    pub old_layout: i32,
    pub new_layout: i32,
    pub masks: LayoutTransitionMasks,
}

/// A blit that scales one mip level down into the next.
#[derive(Clone, Copy, Debug, PartialEq, Eq, Structural)]
pub struct MipBlit {
    pub src_mip_level: u32,
    pub src_width: u32,
    pub src_height: u32,
    pub dst_mip_level: u32,
    pub dst_width: u32,
    pub dst_height: u32,
}

/// One command of the mip chain's command buffer.
#[derive(Clone, Copy, Debug, PartialEq, Eq, Structural)]
pub enum MipCommand {
    Barrier(MipBarrier),
    Blit(MipBlit),
}

/// The barrier that makes level `mip_level`, just written, readable by the
/// blit into the next level.
pub open spec fn barrier_to_transfer_source(mip_level: u32) -> MipBarrier {
    MipBarrier {
        mip_level,
        old_layout: IMAGE_LAYOUT_TRANSFER_DST_OPTIMAL,
        new_layout: IMAGE_LAYOUT_TRANSFER_SRC_OPTIMAL,
        masks: LayoutTransitionMasks {
            src_access_mask: ACCESS_TRANSFER_WRITE,
            dst_access_mask: ACCESS_TRANSFER_READ,
            src_stage_mask: PIPELINE_STAGE_TRANSFER,
            dst_stage_mask: PIPELINE_STAGE_TRANSFER,
        },
    }
}

/// The barrier that hands level `mip_level`, read by a blit, to the fragment
/// shader.
pub open spec fn barrier_source_to_shader(mip_level: u32) -> MipBarrier {
    MipBarrier {
        mip_level,
        old_layout: IMAGE_LAYOUT_TRANSFER_SRC_OPTIMAL,
        new_layout: IMAGE_LAYOUT_SHADER_READ_ONLY_OPTIMAL,
        masks: LayoutTransitionMasks {
            src_access_mask: ACCESS_TRANSFER_READ,
            dst_access_mask: ACCESS_SHADER_READ,
            src_stage_mask: PIPELINE_STAGE_TRANSFER,
            dst_stage_mask: PIPELINE_STAGE_FRAGMENT_SHADER,
        },
    }
}

/// The barrier that hands the last level, which no blit reads, to the
/// fragment shader.
pub open spec fn barrier_destination_to_shader(mip_level: u32) -> MipBarrier {
    MipBarrier {
        mip_level,
        old_layout: IMAGE_LAYOUT_TRANSFER_DST_OPTIMAL,
        new_layout: IMAGE_LAYOUT_SHADER_READ_ONLY_OPTIMAL,
        masks: LayoutTransitionMasks {
            src_access_mask: ACCESS_TRANSFER_WRITE,
            dst_access_mask: ACCESS_SHADER_READ,
            src_stage_mask: PIPELINE_STAGE_TRANSFER,
            dst_stage_mask: PIPELINE_STAGE_FRAGMENT_SHADER,
        },
    }
}

/// The blit that fills level `level` from the level before it.
pub open spec fn blit_into(width: u32, height: u32, level: u32) -> MipBlit {
    MipBlit {
        src_mip_level: (level - 1) as u32,
        src_width: mip_size(width, (level - 1) as nat),
        src_height: mip_size(height, (level - 1) as nat),
        dst_mip_level: level,
        dst_width: halved(mip_size(width, (level - 1) as nat)),
        dst_height: halved(mip_size(height, (level - 1) as nat)),
    }
}

/// The commands that fill levels `1 .. levels` of a `width` by `height`
/// image, each from the level before it.
pub open spec fn mip_chain(width: u32, height: u32, levels: nat) -> Seq<MipCommand>
    decreases levels,
{
    if levels <= 1 {
        Seq::empty()
    } else {
        let level = (levels - 1) as u32;
        mip_chain(width, height, (levels - 1) as nat) + seq![
            MipCommand::Barrier(barrier_to_transfer_source((level - 1) as u32)),
            MipCommand::Blit(blit_into(width, height, level)),
            MipCommand::Barrier(barrier_source_to_shader((level - 1) as u32)),
        ]
    }
}

/// The commands that generate all `mip_levels` levels of a `width` by
/// `height` image from level zero and leave every level readable by the
/// fragment shader.
pub open spec fn mipmap_commands(width: u32, height: u32, mip_levels: u32) -> Seq<MipCommand> {
    mip_chain(width, height, mip_levels as nat).push(
        MipCommand::Barrier(barrier_destination_to_shader((mip_levels - 1) as u32)),
    )
}

/// The commands that generate the mip chain of a `width` by `height` image
/// of `mip_levels` levels; `None` where the format cannot be sampled with
/// linear filtering under optimal tiling, which the blits need.
/// `optimal_tiling_features` holds the format's feature flags.
pub fn generate_mipmaps(
    optimal_tiling_features: u32,
    width: u32,
    height: u32,
    mip_levels: u32,
) -> (commands: Option<Vec<MipCommand>>)
    requires
        mip_levels >= 1,
    ensures
        commands is Some <==> optimal_tiling_features & FORMAT_FEATURE_SAMPLED_IMAGE_FILTER_LINEAR
            == FORMAT_FEATURE_SAMPLED_IMAGE_FILTER_LINEAR,
        commands matches Some(list) ==> list@ == mipmap_commands(width, height, mip_levels),
{
    if !format_feature_flags_contains(
        optimal_tiling_features,
        FORMAT_FEATURE_SAMPLED_IMAGE_FILTER_LINEAR,
    ) {
        return None;
    }
    let mut list: Vec<MipCommand> = Vec::new();
    let mut mip_width = width;
    let mut mip_height = height;
    let mut i: u32 = 1;
    while i < mip_levels
        invariant
            1 <= i <= mip_levels,
            mip_width == mip_size(width, (i - 1) as nat),
            mip_height == mip_size(height, (i - 1) as nat),
            list@ == mip_chain(width, height, i as nat),
        decreases mip_levels - i,
    {
        let mip_level = i - 1;
        let dst_width = if mip_width > 1 {
            mip_width / 2
        } else {
            1
        };
        let dst_height = if mip_height > 1 {
            mip_height / 2
        } else {
            1
        };
        list.push(
            MipCommand::Barrier(
                MipBarrier {
                    mip_level,
                    old_layout: IMAGE_LAYOUT_TRANSFER_DST_OPTIMAL,
                    new_layout: IMAGE_LAYOUT_TRANSFER_SRC_OPTIMAL,
                    masks: LayoutTransitionMasks {
                        src_access_mask: ACCESS_TRANSFER_WRITE,
                        dst_access_mask: ACCESS_TRANSFER_READ,
                        src_stage_mask: PIPELINE_STAGE_TRANSFER,
                        dst_stage_mask: PIPELINE_STAGE_TRANSFER,
                    },
                },
            ),
        );
        list.push(
            MipCommand::Blit(
                MipBlit {
                    src_mip_level: mip_level,
                    src_width: mip_width,
                    src_height: mip_height,
                    dst_mip_level: i,
                    dst_width,
                    dst_height,
                },
            ),
        );
        list.push(
            MipCommand::Barrier(
                MipBarrier {
                    mip_level,
                    old_layout: IMAGE_LAYOUT_TRANSFER_SRC_OPTIMAL,
                    new_layout: IMAGE_LAYOUT_SHADER_READ_ONLY_OPTIMAL,
                    masks: LayoutTransitionMasks {
                        src_access_mask: ACCESS_TRANSFER_READ,
                        dst_access_mask: ACCESS_SHADER_READ,
                        src_stage_mask: PIPELINE_STAGE_TRANSFER,
                        dst_stage_mask: PIPELINE_STAGE_FRAGMENT_SHADER,
                    },
                },
            ),
        );
        assert(list@ =~= mip_chain(width, height, (i + 1) as nat));
        if mip_width > 1 {
            mip_width = mip_width / 2;
        }
        if mip_height > 1 {
            mip_height = mip_height / 2;
        }
        i = i + 1;
    }
    list.push(
        MipCommand::Barrier(
            MipBarrier {
                mip_level: mip_levels - 1,
                old_layout: IMAGE_LAYOUT_TRANSFER_DST_OPTIMAL,
                new_layout: IMAGE_LAYOUT_SHADER_READ_ONLY_OPTIMAL,
                masks: LayoutTransitionMasks {
                    src_access_mask: ACCESS_TRANSFER_WRITE,
                    dst_access_mask: ACCESS_SHADER_READ,
                    src_stage_mask: PIPELINE_STAGE_TRANSFER,
                    dst_stage_mask: PIPELINE_STAGE_FRAGMENT_SHADER,
                },
            },
        ),
    );
    Some(list)
}

/// What a device supports for one format, as feature flag bits.
#[derive(Clone, Copy, Debug, PartialEq, Eq, Structural)]
pub struct FormatProperties {
    pub linear_tiling_features: u32,
    pub optimal_tiling_features: u32,
}

/// A format with these properties has all of `features` under `tiling`.
pub open spec fn format_supported(properties: FormatProperties, tiling: i32, features: u32) -> bool {
    ||| tiling == IMAGE_TILING_LINEAR && properties.linear_tiling_features & features == features
    ||| tiling == IMAGE_TILING_OPTIMAL && properties.optimal_tiling_features & features
        == features
}

/// Candidate `index` is the first that is supported.
pub open spec fn is_first_supported(
    properties: Seq<FormatProperties>,
    tiling: i32,
    features: u32,
    index: int,
) -> bool {
    &&& 0 <= index < properties.len()
    &&& format_supported(properties[index], tiling, features)
    &&& forall|j: int| 0 <= j < index ==> !format_supported(#[trigger] properties[j], tiling, features)
}

/// The first of `candidates` that has all of `features` under `tiling`,
/// where `properties[i]` is what the device supports for `candidates[i]`;
/// `None` where no candidate has them.
pub fn find_supported_format(
    candidates: &Vec<i32>,
    properties: &Vec<FormatProperties>,
    tiling: i32,
    features: u32,
) -> (format: Option<i32>)
    requires
        candidates.len() == properties.len(),
    ensures
        format matches Some(found) ==> exists|index: int|
            is_first_supported(properties@, tiling, features, index) && candidates@[index]
                == found,
        format is None ==> forall|j: int|
            0 <= j < properties@.len() ==> !format_supported(
                #[trigger] properties@[j],
                tiling,
                features,
            ),
{
    let mut index: usize = 0;
    while index < candidates.len()
        invariant
            index <= candidates@.len(),
            candidates@.len() == properties@.len(),
            forall|j: int|
                0 <= j < index ==> !format_supported(#[trigger] properties@[j], tiling, features),
        decreases candidates@.len() - index,
    {
        let format_properties = properties[index];
        let linear_supported = tiling == IMAGE_TILING_LINEAR && (
        format_properties.linear_tiling_features & features) == features;
        let optimal_supported = tiling == IMAGE_TILING_OPTIMAL && (
        format_properties.optimal_tiling_features & features) == features;
        if linear_supported || optimal_supported {
            assert(is_first_supported(properties@, tiling, features, index as int));
            return Some(candidates[index]);
        }
        index = index + 1;
    }
    None
}

/// The depth formats the renderer can use, in order of preference.
pub open spec fn depth_formats() -> Seq<i32> {
    seq![FORMAT_D32_SFLOAT, FORMAT_D32_SFLOAT_S8_UINT, FORMAT_D24_UNORM_S8_UINT]
}

/// The depth formats the renderer can use, in order of preference.
pub fn depth_format_candidates() -> (candidates: Vec<i32>)
    ensures
        candidates@ == depth_formats(),
{
    let mut candidates: Vec<i32> = Vec::new();
    candidates.push(FORMAT_D32_SFLOAT);
    candidates.push(FORMAT_D32_SFLOAT_S8_UINT);
    candidates.push(FORMAT_D24_UNORM_S8_UINT);
    assert(candidates@ =~= depth_formats());
    candidates
}

/// The first depth format usable as a depth-stencil attachment under
/// optimal tiling, where `properties[i]` is what the device supports for the
/// `i`-th of the depth formats; `None` where none is usable.
pub fn find_depth_format(properties: &Vec<FormatProperties>) -> (format: Option<i32>)
    requires
        properties.len() == 3,
    ensures
        format matches Some(found) ==> exists|index: int|
            is_first_supported(
                properties@,
                IMAGE_TILING_OPTIMAL,
                FORMAT_FEATURE_DEPTH_STENCIL_ATTACHMENT,
                index,
            ) && depth_formats()[index] == found,
        format is None ==> forall|j: int|
            0 <= j < properties@.len() ==> !format_supported(
                #[trigger] properties@[j],
                IMAGE_TILING_OPTIMAL,
                FORMAT_FEATURE_DEPTH_STENCIL_ATTACHMENT,
            ),
{
    let candidates = depth_format_candidates();
    find_supported_format(
        &candidates,
        properties,
        IMAGE_TILING_OPTIMAL,
        FORMAT_FEATURE_DEPTH_STENCIL_ATTACHMENT,
    )
}

} // verus!

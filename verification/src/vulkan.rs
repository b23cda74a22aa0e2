//! The numbers of the Vulkan interface that image export is made of, and what is taken from the
//! `ash` bindings to compute with them.

use ash::vk;
use vstd::prelude::*;

verus! {

pub const FORMAT_B8G8R8A8_UNORM: i32 = 44;

pub const IMAGE_TYPE_2D: i32 = 1;

pub const IMAGE_TILING_DRM_FORMAT_MODIFIER: i32 = 1_000_158_000;

pub const IMAGE_USAGE_TRANSFER_DST: u32 = 0x2;

pub const IMAGE_USAGE_SAMPLED: u32 = 0x4;

pub const IMAGE_CREATE_NONE: u32 = 0;

pub const SHARING_MODE_EXCLUSIVE: i32 = 0;

pub const SAMPLE_COUNT_1: u32 = 0x1;

pub const MEMORY_HANDLE_DMA_BUF: u32 = 0x200;

pub const MEMORY_FEATURE_EXPORTABLE: u32 = 0x2;

pub const SEMAPHORE_HANDLE_SYNC_FD: u32 = 0x10;

pub const IMAGE_LAYOUT_UNDEFINED: i32 = 0;

pub const IMAGE_LAYOUT_GENERAL: i32 = 1;

pub const IMAGE_LAYOUT_TRANSFER_SRC: i32 = 6;

pub const IMAGE_LAYOUT_TRANSFER_DST: i32 = 7;

pub const IMAGE_ASPECT_COLOR: u32 = 0x1;

pub const IMAGE_ASPECT_MEMORY_PLANE_0: u32 = 0x80;

pub const ACCESS_NONE: u32 = 0;

pub const ACCESS_TRANSFER_READ: u32 = 0x800;

pub const ACCESS_TRANSFER_WRITE: u32 = 0x1000;

pub const ACCESS_MEMORY_READ: u32 = 0x8000;

pub const STAGE_TRANSFER: u32 = 0x1000;

pub const STAGE_ALL_COMMANDS: u32 = 0x1_0000;

pub const QUEUE_FAMILY_IGNORED: u32 = 0xffff_ffff;

pub const QUEUE_FAMILY_FOREIGN: u32 = 0xffff_fffd;

pub const COMMAND_POOL_RESET_COMMAND_BUFFER: u32 = 0x2;

pub const COMMAND_BUFFER_LEVEL_PRIMARY: i32 = 0;

pub const COMMAND_BUFFER_RESET_NONE: u32 = 0;

pub const COMMAND_BUFFER_ONE_TIME_SUBMIT: u32 = 0x1;

/// Calls `contains` of `ash::vk::ExternalMemoryFeatureFlags`. Claims that it answers whether all
/// bits of `wanted` are set in `features`.
#[verifier::external_body]
pub(crate) fn memory_features_contain(features: u32, wanted: u32) -> (contained: bool)
    ensures
        contained == (features & wanted == wanted),
{
    vk::ExternalMemoryFeatureFlags::from_raw(features).contains(
        vk::ExternalMemoryFeatureFlags::from_raw(wanted),
    )
}

/// Calls `contains` of `ash::vk::ExternalMemoryHandleTypeFlags`. Claims that it answers whether
/// all bits of `wanted` are set in `handle_types`.
#[verifier::external_body]
pub(crate) fn memory_handles_contain(handle_types: u32, wanted: u32) -> (contained: bool)
    ensures
        contained == (handle_types & wanted == wanted),
{
    vk::ExternalMemoryHandleTypeFlags::from_raw(handle_types).contains(
        vk::ExternalMemoryHandleTypeFlags::from_raw(wanted),
    )
}

/// Calls the `|` of `ash::vk::PipelineStageFlags`. Claims that it sets the bits of both sides.
#[verifier::external_body]
pub(crate) fn stage_union(left: u32, right: u32) -> (both: u32)
    ensures
        both == left | right,
{
    (vk::PipelineStageFlags::from_raw(left) | vk::PipelineStageFlags::from_raw(right)).as_raw()
}

/// The text that `ash` prints for the result code `code`.
pub uninterp spec fn result_name(code: i32) -> Seq<char>;

/// Prints `ash::vk::Result` through its `Debug`. Claims that the text depends on the code alone;
/// which text that is, is not stated.
#[verifier::external_body]
pub(crate) fn result_text(code: i32) -> (text: String)
    ensures
        text@ == result_name(code),
{
    format!("{:?}", vk::Result::from_raw(code))
}

} // verus!

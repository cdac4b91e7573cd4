//! Sets of flags that travel as plain bits, checked against the sets that the
//! backend's types define.

use vstd::prelude::*;

verus! {

/// Every buffer usage flag.
pub const BUFFER_USAGE_ALL: u32 = 0x1ff;

/// Every texture usage flag.
pub const TEXTURE_USAGE_ALL: u32 = 0x1f;

/// Every shader stage flag.
pub const SHADER_STAGE_ALL: u32 = 0x7;

/// Every color write flag.
pub const COLOR_WRITE_ALL: u32 = 0xf;

/// Whether `bits` holds nothing but flags of `all`.
pub open spec fn flags_within(bits: u32, all: u32) -> bool {
    bits & !all == 0
}

/// `bits` where it holds nothing but flags of `all`, and no flag otherwise.
pub open spec fn flags_or_empty(bits: u32, all: u32) -> u32 {
    if flags_within(bits, all) {
        bits
    } else {
        0
    }
}

pub open spec fn buffer_usage_of(bits: u32) -> u32 {
    flags_or_empty(bits, BUFFER_USAGE_ALL)
}

pub open spec fn texture_usage_of(bits: u32) -> u32 {
    flags_or_empty(bits, TEXTURE_USAGE_ALL)
}

pub open spec fn shader_stage_of(bits: u32) -> u32 {
    flags_or_empty(bits, SHADER_STAGE_ALL)
}

pub open spec fn color_write_of(bits: u32) -> u32 {
    flags_or_empty(bits, COLOR_WRITE_ALL)
}

/// Calls `wgpu_types::BufferUsage::from_bits`, which accepts the bits and
/// keeps them as they are exactly when none lies outside the nine usage
/// flags that the type defines, the bits 0 to 8. Not proved.
#[verifier::external_body]
fn buffer_usage_from_bits(bits: u32) -> (usage: Option<u32>)
    ensures
        usage == if flags_within(bits, BUFFER_USAGE_ALL) {
            Some(bits)
        } else {
            None
        },
{
    match wgpu_types::BufferUsage::from_bits(bits) {
        Some(usage) => Some(usage.bits()),
        None => None,
    }
}

/// Calls `wgpu_types::TextureUsage::from_bits`, which accepts the bits and
/// keeps them as they are exactly when none lies outside the five usage
/// flags that the type defines, the bits 0 to 4. Not proved.
#[verifier::external_body]
fn texture_usage_from_bits(bits: u32) -> (usage: Option<u32>)
    ensures
        usage == if flags_within(bits, TEXTURE_USAGE_ALL) {
            Some(bits)
        } else {
            None
        },
{
    match wgpu_types::TextureUsage::from_bits(bits) {
        Some(usage) => Some(usage.bits()),
        None => None,
    }
}

/// Calls `wgpu_types::ShaderStage::from_bits`, which accepts the bits and
/// keeps them as they are exactly when none lies outside the three stage
/// flags that the type defines, the bits 0 to 2. Not proved.
#[verifier::external_body]
fn shader_stage_from_bits(bits: u32) -> (stage: Option<u32>)
    ensures
        stage == if flags_within(bits, SHADER_STAGE_ALL) {
            Some(bits)
        } else {
            None
        },
{
    match wgpu_types::ShaderStage::from_bits(bits) {
        Some(stage) => Some(stage.bits()),
        None => None,
    }
}

/// Calls `wgpu_types::ColorWrite::from_bits`, which accepts the bits and
/// keeps them as they are exactly when none lies outside the four channel
/// flags that the type defines, the bits 0 to 3. Not proved.
#[verifier::external_body]
fn color_write_from_bits(bits: u32) -> (mask: Option<u32>)
    ensures
        mask == if flags_within(bits, COLOR_WRITE_ALL) {
            Some(bits)
        } else {
            None
        },
{
    match wgpu_types::ColorWrite::from_bits(bits) {
        Some(mask) => Some(mask.bits()),
        None => None,
    }
}

/// Buffer usage as the backend takes it: bits that hold anything but usage
/// flags count as no usage at all.
pub fn to_buffer_usage(bits: u32) -> (usage: u32)
    ensures
        usage == buffer_usage_of(bits),
{
    match buffer_usage_from_bits(bits) {
        Some(usage) => usage,
        None => 0,
    }
}

/// Texture usage as the backend takes it: bits that hold anything but usage
/// flags count as no usage at all.
pub fn to_texture_usage(bits: u32) -> (usage: u32)
    ensures
        usage == texture_usage_of(bits),
{
    match texture_usage_from_bits(bits) {
        Some(usage) => usage,
        None => 0,
    }
}

/// Shader stages as the backend takes them: bits that hold anything but
/// stage flags count as no stage at all.
pub fn to_shader_stage(bits: u32) -> (stage: u32)
    ensures
        stage == shader_stage_of(bits),
{
    match shader_stage_from_bits(bits) {
        Some(stage) => stage,
        None => 0,
    }
}

/// A color write mask as the backend takes it: bits that hold anything but
/// channel flags count as no channel at all.
pub fn to_color_write(bits: u32) -> (mask: u32)
    ensures
        mask == color_write_of(bits),
{
    match color_write_from_bits(bits) {
        Some(mask) => mask,
        None => 0,
    }
}

/// The flags that come out lie within the set, and flags within the set go
/// through unchanged.
pub proof fn lemma_flags_or_empty(bits: u32, all: u32)
    ensures
        flags_within(flags_or_empty(bits, all), all),
        flags_within(bits, all) ==> flags_or_empty(bits, all) == bits,
        flags_or_empty(flags_or_empty(bits, all), all) == flags_or_empty(bits, all),
{
    assert(0u32 & !all == 0) by (bit_vector);
}

} // verus!

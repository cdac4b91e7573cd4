//! The translation of client descriptors into what the backend takes. Every
//! translation is a total function of its argument.

use crate::backend::{
    AddressMode, BindGroupLayoutEntry, BindingType, BlendDescriptor, BlendFactor, BlendOperation,
    BufferBinding, ColorStateDescriptor, CompareFunction, CullMode, DepthStencilStateDescriptor,
    Extent3d, FilterMode, FrontFace, IndexFormat, InputStepMode, PrimitiveTopology,
    RasterizationStateDescriptor, StencilOperation, StencilStateFaceDescriptor,
    TextureComponentType, TextureDimension, TextureFormat, TextureViewDimension,
    VertexAttributeDescriptor, VertexBufferLayout, VertexFormat, WebGPUBindings,
};
use crate::bindings::{
    GPUAddressMode, GPUBindGroupEntry, GPUBindGroupLayoutEntry, GPUBindingResource,
    GPUBindingType, GPUBlendDescriptor, GPUBlendFactor, GPUBlendOperation,
    GPUColorStateDescriptor, GPUCompareFunction, GPUCullMode, GPUDepthStencilStateDescriptor,
    GPUExtent3D, GPUExtent3DDict, GPUFilterMode, GPUFrontFace, GPUIndexFormat, GPUInputStepMode,
    GPUPrimitiveTopology, GPURasterizationStateDescriptor, GPUStencilOperation,
    GPUStencilStateFaceDescriptor, GPUTextureComponentType, GPUTextureDimension,
    GPUTextureFormat, GPUTextureViewDimension, GPUVertexAttributeDescriptor,
    GPUVertexBufferLayoutDescriptor, GPUVertexFormat, Uint32ArrayOrString,
};
use crate::flags::{color_write_of, shader_stage_of, to_color_write, to_shader_stage};
use vstd::prelude::*;

verus! {

/// The backend's address mode for each one of the client API.
pub open spec fn address_mode_of(value: GPUAddressMode) -> AddressMode {
    match value {
        GPUAddressMode::ClampToEdge => AddressMode::ClampToEdge,
        GPUAddressMode::Repeat => AddressMode::Repeat,
        GPUAddressMode::MirrorRepeat => AddressMode::MirrorRepeat,
    }
}

/// Translates one value; there is a backend value for every one.
pub fn convert_address_mode(value: GPUAddressMode) -> (converted: AddressMode)
    ensures
        converted == address_mode_of(value),
{
    match value {
        GPUAddressMode::ClampToEdge => AddressMode::ClampToEdge,
        GPUAddressMode::Repeat => AddressMode::Repeat,
        GPUAddressMode::MirrorRepeat => AddressMode::MirrorRepeat,
    }
}

/// No two values of the client API share one of the backend.
pub proof fn lemma_address_mode_is_injective(a: GPUAddressMode, b: GPUAddressMode)
    requires
        address_mode_of(a) == address_mode_of(b),
    ensures
        a == b,
{
}

/// The backend's filter mode for each one of the client API.
pub open spec fn filter_mode_of(value: GPUFilterMode) -> FilterMode {
    match value {
        GPUFilterMode::Nearest => FilterMode::Nearest,
        GPUFilterMode::Linear => FilterMode::Linear,
    }
}

/// Translates one value; there is a backend value for every one.
pub fn convert_filter_mode(value: GPUFilterMode) -> (converted: FilterMode)
    ensures
        converted == filter_mode_of(value),
{
    match value {
        GPUFilterMode::Nearest => FilterMode::Nearest,
        GPUFilterMode::Linear => FilterMode::Linear,
    }
}

/// No two values of the client API share one of the backend.
pub proof fn lemma_filter_mode_is_injective(a: GPUFilterMode, b: GPUFilterMode)
    requires
        filter_mode_of(a) == filter_mode_of(b),
    ensures
        a == b,
{
}

/// The backend's compare function for each one of the client API.
pub open spec fn compare_function_of(value: GPUCompareFunction) -> CompareFunction {
    match value {
        GPUCompareFunction::Never => CompareFunction::Never,
        GPUCompareFunction::Less => CompareFunction::Less,
        GPUCompareFunction::Equal => CompareFunction::Equal,
        GPUCompareFunction::LessEqual => CompareFunction::LessEqual,
        GPUCompareFunction::Greater => CompareFunction::Greater,
        GPUCompareFunction::NotEqual => CompareFunction::NotEqual,
        GPUCompareFunction::GreaterEqual => CompareFunction::GreaterEqual,
        GPUCompareFunction::Always => CompareFunction::Always,
    }
}

/// Translates one value; there is a backend value for every one.
pub fn convert_compare_function(value: GPUCompareFunction) -> (converted: CompareFunction)
    ensures
        converted == compare_function_of(value),
{
    match value {
        GPUCompareFunction::Never => CompareFunction::Never,
        GPUCompareFunction::Less => CompareFunction::Less,
        GPUCompareFunction::Equal => CompareFunction::Equal,
        GPUCompareFunction::LessEqual => CompareFunction::LessEqual,
        GPUCompareFunction::Greater => CompareFunction::Greater,
        GPUCompareFunction::NotEqual => CompareFunction::NotEqual,
        GPUCompareFunction::GreaterEqual => CompareFunction::GreaterEqual,
        GPUCompareFunction::Always => CompareFunction::Always,
    }
}

/// No two values of the client API share one of the backend.
pub proof fn lemma_compare_function_is_injective(a: GPUCompareFunction, b: GPUCompareFunction)
    requires
        compare_function_of(a) == compare_function_of(b),
    ensures
        a == b,
{
}

/// The backend's blend factor for each one of the client API.
pub open spec fn blend_factor_of(value: GPUBlendFactor) -> BlendFactor {
    match value {
        GPUBlendFactor::Zero => BlendFactor::Zero,
        GPUBlendFactor::One => BlendFactor::One,
        GPUBlendFactor::SrcColor => BlendFactor::SrcColor,
        GPUBlendFactor::OneMinusSrcColor => BlendFactor::OneMinusSrcColor,
        GPUBlendFactor::SrcAlpha => BlendFactor::SrcAlpha,
        GPUBlendFactor::OneMinusSrcAlpha => BlendFactor::OneMinusSrcAlpha,
        GPUBlendFactor::DstColor => BlendFactor::DstColor,
        GPUBlendFactor::OneMinusDstColor => BlendFactor::OneMinusDstColor,
        GPUBlendFactor::DstAlpha => BlendFactor::DstAlpha,
        GPUBlendFactor::OneMinusDstAlpha => BlendFactor::OneMinusDstAlpha,
        GPUBlendFactor::SrcAlphaSaturated => BlendFactor::SrcAlphaSaturated,
        GPUBlendFactor::BlendColor => BlendFactor::BlendColor,
        GPUBlendFactor::OneMinusBlendColor => BlendFactor::OneMinusBlendColor,
    }
}

/// Translates one value; there is a backend value for every one.
pub fn convert_blend_factor(value: GPUBlendFactor) -> (converted: BlendFactor)
    ensures
        converted == blend_factor_of(value),
{
    match value {
        GPUBlendFactor::Zero => BlendFactor::Zero,
        GPUBlendFactor::One => BlendFactor::One,
        GPUBlendFactor::SrcColor => BlendFactor::SrcColor,
        GPUBlendFactor::OneMinusSrcColor => BlendFactor::OneMinusSrcColor,
        GPUBlendFactor::SrcAlpha => BlendFactor::SrcAlpha,
        GPUBlendFactor::OneMinusSrcAlpha => BlendFactor::OneMinusSrcAlpha,
        GPUBlendFactor::DstColor => BlendFactor::DstColor,
        GPUBlendFactor::OneMinusDstColor => BlendFactor::OneMinusDstColor,
        GPUBlendFactor::DstAlpha => BlendFactor::DstAlpha,
        GPUBlendFactor::OneMinusDstAlpha => BlendFactor::OneMinusDstAlpha,
        GPUBlendFactor::SrcAlphaSaturated => BlendFactor::SrcAlphaSaturated,
        GPUBlendFactor::BlendColor => BlendFactor::BlendColor,
        GPUBlendFactor::OneMinusBlendColor => BlendFactor::OneMinusBlendColor,
    }
}

/// No two values of the client API share one of the backend.
pub proof fn lemma_blend_factor_is_injective(a: GPUBlendFactor, b: GPUBlendFactor)
    requires
        blend_factor_of(a) == blend_factor_of(b),
    ensures
        a == b,
{
}

/// The backend's blend operation for each one of the client API.
pub open spec fn blend_operation_of(value: GPUBlendOperation) -> BlendOperation {
    match value {
        GPUBlendOperation::Add => BlendOperation::Add,
        GPUBlendOperation::Subtract => BlendOperation::Subtract,
        GPUBlendOperation::ReverseSubtract => BlendOperation::ReverseSubtract,
        GPUBlendOperation::Min => BlendOperation::Min,
        GPUBlendOperation::Max => BlendOperation::Max,
    }
}

/// Translates one value; there is a backend value for every one.
pub fn convert_blend_operation(value: GPUBlendOperation) -> (converted: BlendOperation)
    ensures
        converted == blend_operation_of(value),
{
    match value {
        GPUBlendOperation::Add => BlendOperation::Add,
        GPUBlendOperation::Subtract => BlendOperation::Subtract,
        GPUBlendOperation::ReverseSubtract => BlendOperation::ReverseSubtract,
        GPUBlendOperation::Min => BlendOperation::Min,
        GPUBlendOperation::Max => BlendOperation::Max,
    }
}

/// No two values of the client API share one of the backend.
pub proof fn lemma_blend_operation_is_injective(a: GPUBlendOperation, b: GPUBlendOperation)
    requires
        blend_operation_of(a) == blend_operation_of(b),
    ensures
        a == b,
{
}

/// The backend's stencil operation for each one of the client API.
pub open spec fn stencil_op_of(value: GPUStencilOperation) -> StencilOperation {
    match value {
        GPUStencilOperation::Keep => StencilOperation::Keep,
        GPUStencilOperation::Zero => StencilOperation::Zero,
        GPUStencilOperation::Replace => StencilOperation::Replace,
        GPUStencilOperation::Invert => StencilOperation::Invert,
        GPUStencilOperation::IncrementClamp => StencilOperation::IncrementClamp,
        GPUStencilOperation::DecrementClamp => StencilOperation::DecrementClamp,
        GPUStencilOperation::IncrementWrap => StencilOperation::IncrementWrap,
        GPUStencilOperation::DecrementWrap => StencilOperation::DecrementWrap,
    }
}

/// Translates one value; there is a backend value for every one.
pub fn convert_stencil_op(value: GPUStencilOperation) -> (converted: StencilOperation)
    ensures
        converted == stencil_op_of(value),
{
    match value {
        GPUStencilOperation::Keep => StencilOperation::Keep,
        GPUStencilOperation::Zero => StencilOperation::Zero,
        GPUStencilOperation::Replace => StencilOperation::Replace,
        GPUStencilOperation::Invert => StencilOperation::Invert,
        GPUStencilOperation::IncrementClamp => StencilOperation::IncrementClamp,
        GPUStencilOperation::DecrementClamp => StencilOperation::DecrementClamp,
        GPUStencilOperation::IncrementWrap => StencilOperation::IncrementWrap,
        GPUStencilOperation::DecrementWrap => StencilOperation::DecrementWrap,
    }
}

/// No two values of the client API share one of the backend.
pub proof fn lemma_stencil_op_is_injective(a: GPUStencilOperation, b: GPUStencilOperation)
    requires
        stencil_op_of(a) == stencil_op_of(b),
    ensures
        a == b,
{
}

/// The backend's vertex format for each one of the client API.
pub open spec fn vertex_format_of(value: GPUVertexFormat) -> VertexFormat {
    match value {
        GPUVertexFormat::Uchar2 => VertexFormat::Uchar2,
        GPUVertexFormat::Uchar4 => VertexFormat::Uchar4,
        GPUVertexFormat::Char2 => VertexFormat::Char2,
        GPUVertexFormat::Char4 => VertexFormat::Char4,
        GPUVertexFormat::Uchar2norm => VertexFormat::Uchar2Norm,
        GPUVertexFormat::Uchar4norm => VertexFormat::Uchar4Norm,
        GPUVertexFormat::Char2norm => VertexFormat::Char2Norm,
        GPUVertexFormat::Char4norm => VertexFormat::Char4Norm,
        GPUVertexFormat::Ushort2 => VertexFormat::Ushort2,
        GPUVertexFormat::Ushort4 => VertexFormat::Ushort4,
        GPUVertexFormat::Short2 => VertexFormat::Short2,
        GPUVertexFormat::Short4 => VertexFormat::Short4,
        GPUVertexFormat::Ushort2norm => VertexFormat::Ushort2Norm,
        GPUVertexFormat::Ushort4norm => VertexFormat::Ushort4Norm,
        GPUVertexFormat::Short2norm => VertexFormat::Short2Norm,
        GPUVertexFormat::Short4norm => VertexFormat::Short4Norm,
        GPUVertexFormat::Half2 => VertexFormat::Half2,
        GPUVertexFormat::Half4 => VertexFormat::Half4,
        GPUVertexFormat::Float => VertexFormat::Float,
        GPUVertexFormat::Float2 => VertexFormat::Float2,
        GPUVertexFormat::Float3 => VertexFormat::Float3,
        GPUVertexFormat::Float4 => VertexFormat::Float4,
        GPUVertexFormat::Uint => VertexFormat::Uint,
        GPUVertexFormat::Uint2 => VertexFormat::Uint2,
        GPUVertexFormat::Uint3 => VertexFormat::Uint3,
        GPUVertexFormat::Uint4 => VertexFormat::Uint4,
        GPUVertexFormat::Int => VertexFormat::Int,
        GPUVertexFormat::Int2 => VertexFormat::Int2,
        GPUVertexFormat::Int3 => VertexFormat::Int3,
        GPUVertexFormat::Int4 => VertexFormat::Int4,
    }
}

/// Translates one value; there is a backend value for every one.
pub fn convert_vertex_format(value: GPUVertexFormat) -> (converted: VertexFormat)
    ensures
        converted == vertex_format_of(value),
{
    match value {
        GPUVertexFormat::Uchar2 => VertexFormat::Uchar2,
        GPUVertexFormat::Uchar4 => VertexFormat::Uchar4,
        GPUVertexFormat::Char2 => VertexFormat::Char2,
        GPUVertexFormat::Char4 => VertexFormat::Char4,
        GPUVertexFormat::Uchar2norm => VertexFormat::Uchar2Norm,
        GPUVertexFormat::Uchar4norm => VertexFormat::Uchar4Norm,
        GPUVertexFormat::Char2norm => VertexFormat::Char2Norm,
        GPUVertexFormat::Char4norm => VertexFormat::Char4Norm,
        GPUVertexFormat::Ushort2 => VertexFormat::Ushort2,
        GPUVertexFormat::Ushort4 => VertexFormat::Ushort4,
        GPUVertexFormat::Short2 => VertexFormat::Short2,
        GPUVertexFormat::Short4 => VertexFormat::Short4,
        GPUVertexFormat::Ushort2norm => VertexFormat::Ushort2Norm,
        GPUVertexFormat::Ushort4norm => VertexFormat::Ushort4Norm,
        GPUVertexFormat::Short2norm => VertexFormat::Short2Norm,
        GPUVertexFormat::Short4norm => VertexFormat::Short4Norm,
        GPUVertexFormat::Half2 => VertexFormat::Half2,
        GPUVertexFormat::Half4 => VertexFormat::Half4,
        GPUVertexFormat::Float => VertexFormat::Float,
        GPUVertexFormat::Float2 => VertexFormat::Float2,
        GPUVertexFormat::Float3 => VertexFormat::Float3,
        GPUVertexFormat::Float4 => VertexFormat::Float4,
        GPUVertexFormat::Uint => VertexFormat::Uint,
        GPUVertexFormat::Uint2 => VertexFormat::Uint2,
        GPUVertexFormat::Uint3 => VertexFormat::Uint3,
        GPUVertexFormat::Uint4 => VertexFormat::Uint4,
        GPUVertexFormat::Int => VertexFormat::Int,
        GPUVertexFormat::Int2 => VertexFormat::Int2,
        GPUVertexFormat::Int3 => VertexFormat::Int3,
        GPUVertexFormat::Int4 => VertexFormat::Int4,
    }
}

/// No two values of the client API share one of the backend.
pub proof fn lemma_vertex_format_is_injective(a: GPUVertexFormat, b: GPUVertexFormat)
    requires
        vertex_format_of(a) == vertex_format_of(b),
    ensures
        a == b,
{
}

/// The backend's texture format for each one of the client API.
pub open spec fn texture_format_of(value: GPUTextureFormat) -> TextureFormat {
    match value {
        GPUTextureFormat::R8unorm => TextureFormat::R8Unorm,
        GPUTextureFormat::R8snorm => TextureFormat::R8Snorm,
        GPUTextureFormat::R8uint => TextureFormat::R8Uint,
        GPUTextureFormat::R8sint => TextureFormat::R8Sint,
        GPUTextureFormat::R16uint => TextureFormat::R16Uint,
        GPUTextureFormat::R16sint => TextureFormat::R16Sint,
        GPUTextureFormat::R16float => TextureFormat::R16Float,
        GPUTextureFormat::Rg8unorm => TextureFormat::Rg8Unorm,
        GPUTextureFormat::Rg8snorm => TextureFormat::Rg8Snorm,
        GPUTextureFormat::Rg8uint => TextureFormat::Rg8Uint,
        GPUTextureFormat::Rg8sint => TextureFormat::Rg8Sint,
        GPUTextureFormat::R32uint => TextureFormat::R32Uint,
        GPUTextureFormat::R32sint => TextureFormat::R32Sint,
        GPUTextureFormat::R32float => TextureFormat::R32Float,
        GPUTextureFormat::Rg16uint => TextureFormat::Rg16Uint,
        GPUTextureFormat::Rg16sint => TextureFormat::Rg16Sint,
        GPUTextureFormat::Rg16float => TextureFormat::Rg16Float,
        GPUTextureFormat::Rgba8unorm => TextureFormat::Rgba8Unorm,
        GPUTextureFormat::Rgba8unormSrgb => TextureFormat::Rgba8UnormSrgb,
        GPUTextureFormat::Rgba8snorm => TextureFormat::Rgba8Snorm,
        GPUTextureFormat::Rgba8uint => TextureFormat::Rgba8Uint,
        GPUTextureFormat::Rgba8sint => TextureFormat::Rgba8Sint,
        GPUTextureFormat::Bgra8unorm => TextureFormat::Bgra8Unorm,
        GPUTextureFormat::Bgra8unormSrgb => TextureFormat::Bgra8UnormSrgb,
        GPUTextureFormat::Rgb10a2unorm => TextureFormat::Rgb10a2Unorm,
        GPUTextureFormat::Rg11b10float => TextureFormat::Rg11b10Float,
        GPUTextureFormat::Rg32uint => TextureFormat::Rg32Uint,
        GPUTextureFormat::Rg32sint => TextureFormat::Rg32Sint,
        GPUTextureFormat::Rg32float => TextureFormat::Rg32Float,
        GPUTextureFormat::Rgba16uint => TextureFormat::Rgba16Uint,
        GPUTextureFormat::Rgba16sint => TextureFormat::Rgba16Sint,
        GPUTextureFormat::Rgba16float => TextureFormat::Rgba16Float,
        GPUTextureFormat::Rgba32uint => TextureFormat::Rgba32Uint,
        GPUTextureFormat::Rgba32sint => TextureFormat::Rgba32Sint,
        GPUTextureFormat::Rgba32float => TextureFormat::Rgba32Float,
        GPUTextureFormat::Depth32float => TextureFormat::Depth32Float,
        GPUTextureFormat::Depth24plus => TextureFormat::Depth24Plus,
        GPUTextureFormat::Depth24plusStencil8 => TextureFormat::Depth24PlusStencil8,
    }
}

/// Translates one value; there is a backend value for every one.
pub fn convert_texture_format(value: GPUTextureFormat) -> (converted: TextureFormat)
    ensures
        converted == texture_format_of(value),
{
    match value {
        GPUTextureFormat::R8unorm => TextureFormat::R8Unorm,
        GPUTextureFormat::R8snorm => TextureFormat::R8Snorm,
        GPUTextureFormat::R8uint => TextureFormat::R8Uint,
        GPUTextureFormat::R8sint => TextureFormat::R8Sint,
        GPUTextureFormat::R16uint => TextureFormat::R16Uint,
        GPUTextureFormat::R16sint => TextureFormat::R16Sint,
        GPUTextureFormat::R16float => TextureFormat::R16Float,
        GPUTextureFormat::Rg8unorm => TextureFormat::Rg8Unorm,
        GPUTextureFormat::Rg8snorm => TextureFormat::Rg8Snorm,
        GPUTextureFormat::Rg8uint => TextureFormat::Rg8Uint,
        GPUTextureFormat::Rg8sint => TextureFormat::Rg8Sint,
        GPUTextureFormat::R32uint => TextureFormat::R32Uint,
        GPUTextureFormat::R32sint => TextureFormat::R32Sint,
        GPUTextureFormat::R32float => TextureFormat::R32Float,
        GPUTextureFormat::Rg16uint => TextureFormat::Rg16Uint,
        GPUTextureFormat::Rg16sint => TextureFormat::Rg16Sint,
        GPUTextureFormat::Rg16float => TextureFormat::Rg16Float,
        GPUTextureFormat::Rgba8unorm => TextureFormat::Rgba8Unorm,
        GPUTextureFormat::Rgba8unormSrgb => TextureFormat::Rgba8UnormSrgb,
        GPUTextureFormat::Rgba8snorm => TextureFormat::Rgba8Snorm,
        GPUTextureFormat::Rgba8uint => TextureFormat::Rgba8Uint,
        GPUTextureFormat::Rgba8sint => TextureFormat::Rgba8Sint,
        GPUTextureFormat::Bgra8unorm => TextureFormat::Bgra8Unorm,
        GPUTextureFormat::Bgra8unormSrgb => TextureFormat::Bgra8UnormSrgb,
        GPUTextureFormat::Rgb10a2unorm => TextureFormat::Rgb10a2Unorm,
        GPUTextureFormat::Rg11b10float => TextureFormat::Rg11b10Float,
        GPUTextureFormat::Rg32uint => TextureFormat::Rg32Uint,
        GPUTextureFormat::Rg32sint => TextureFormat::Rg32Sint,
        GPUTextureFormat::Rg32float => TextureFormat::Rg32Float,
        GPUTextureFormat::Rgba16uint => TextureFormat::Rgba16Uint,
        GPUTextureFormat::Rgba16sint => TextureFormat::Rgba16Sint,
        GPUTextureFormat::Rgba16float => TextureFormat::Rgba16Float,
        GPUTextureFormat::Rgba32uint => TextureFormat::Rgba32Uint,
        GPUTextureFormat::Rgba32sint => TextureFormat::Rgba32Sint,
        GPUTextureFormat::Rgba32float => TextureFormat::Rgba32Float,
        GPUTextureFormat::Depth32float => TextureFormat::Depth32Float,
        GPUTextureFormat::Depth24plus => TextureFormat::Depth24Plus,
        GPUTextureFormat::Depth24plusStencil8 => TextureFormat::Depth24PlusStencil8,
    }
}

/// No two values of the client API share one of the backend.
pub proof fn lemma_texture_format_is_injective(a: GPUTextureFormat, b: GPUTextureFormat)
    requires
        texture_format_of(a) == texture_format_of(b),
    ensures
        a == b,
{
}

/// The backend's texture view dimension for each one of the client API.
pub open spec fn texture_view_dimension_of(value: GPUTextureViewDimension) -> TextureViewDimension {
    match value {
        GPUTextureViewDimension::D1 => TextureViewDimension::D1,
        GPUTextureViewDimension::D2 => TextureViewDimension::D2,
        GPUTextureViewDimension::D2Array => TextureViewDimension::D2Array,
        GPUTextureViewDimension::Cube => TextureViewDimension::Cube,
        GPUTextureViewDimension::CubeArray => TextureViewDimension::CubeArray,
        GPUTextureViewDimension::D3 => TextureViewDimension::D3,
    }
}

/// Translates one value; there is a backend value for every one.
pub fn convert_texture_view_dimension(value: GPUTextureViewDimension) -> (converted: TextureViewDimension)
    ensures
        converted == texture_view_dimension_of(value),
{
    match value {
        GPUTextureViewDimension::D1 => TextureViewDimension::D1,
        GPUTextureViewDimension::D2 => TextureViewDimension::D2,
        GPUTextureViewDimension::D2Array => TextureViewDimension::D2Array,
        GPUTextureViewDimension::Cube => TextureViewDimension::Cube,
        GPUTextureViewDimension::CubeArray => TextureViewDimension::CubeArray,
        GPUTextureViewDimension::D3 => TextureViewDimension::D3,
    }
}

/// No two values of the client API share one of the backend.
pub proof fn lemma_texture_view_dimension_is_injective(a: GPUTextureViewDimension, b: GPUTextureViewDimension)
    requires
        texture_view_dimension_of(a) == texture_view_dimension_of(b),
    ensures
        a == b,
{
}

/// The backend's texture dimension for each one of the client API.
pub open spec fn texture_dimension_of(value: GPUTextureDimension) -> TextureDimension {
    match value {
        GPUTextureDimension::D1 => TextureDimension::D1,
        GPUTextureDimension::D2 => TextureDimension::D2,
        GPUTextureDimension::D3 => TextureDimension::D3,
    }
}

/// Translates one value; there is a backend value for every one.
pub fn convert_texture_dimension(value: GPUTextureDimension) -> (converted: TextureDimension)
    ensures
        converted == texture_dimension_of(value),
{
    match value {
        GPUTextureDimension::D1 => TextureDimension::D1,
        GPUTextureDimension::D2 => TextureDimension::D2,
        GPUTextureDimension::D3 => TextureDimension::D3,
    }
}

/// No two values of the client API share one of the backend.
pub proof fn lemma_texture_dimension_is_injective(a: GPUTextureDimension, b: GPUTextureDimension)
    requires
        texture_dimension_of(a) == texture_dimension_of(b),
    ensures
        a == b,
{
}

/// The backend's texture component type for each one of the client API.
pub open spec fn texture_component_type_of(value: GPUTextureComponentType) -> TextureComponentType {
    match value {
        GPUTextureComponentType::Float => TextureComponentType::Float,
        GPUTextureComponentType::Sint => TextureComponentType::Sint,
        GPUTextureComponentType::Uint => TextureComponentType::Uint,
    }
}

/// Translates one value; there is a backend value for every one.
pub fn convert_texture_component_type(value: GPUTextureComponentType) -> (converted: TextureComponentType)
    ensures
        converted == texture_component_type_of(value),
{
    match value {
        GPUTextureComponentType::Float => TextureComponentType::Float,
        GPUTextureComponentType::Sint => TextureComponentType::Sint,
        GPUTextureComponentType::Uint => TextureComponentType::Uint,
    }
}

/// No two values of the client API share one of the backend.
pub proof fn lemma_texture_component_type_is_injective(a: GPUTextureComponentType, b: GPUTextureComponentType)
    requires
        texture_component_type_of(a) == texture_component_type_of(b),
    ensures
        a == b,
{
}

/// The backend's primitive topology for each one of the client API.
pub open spec fn primitive_topology_of(value: GPUPrimitiveTopology) -> PrimitiveTopology {
    match value {
        GPUPrimitiveTopology::PointList => PrimitiveTopology::PointList,
        GPUPrimitiveTopology::LineList => PrimitiveTopology::LineList,
        GPUPrimitiveTopology::LineStrip => PrimitiveTopology::LineStrip,
        GPUPrimitiveTopology::TriangleList => PrimitiveTopology::TriangleList,
        GPUPrimitiveTopology::TriangleStrip => PrimitiveTopology::TriangleStrip,
    }
}

/// Translates one value; there is a backend value for every one.
pub fn convert_primitive_topology(value: GPUPrimitiveTopology) -> (converted: PrimitiveTopology)
    ensures
        converted == primitive_topology_of(value),
{
    match value {
        GPUPrimitiveTopology::PointList => PrimitiveTopology::PointList,
        GPUPrimitiveTopology::LineList => PrimitiveTopology::LineList,
        GPUPrimitiveTopology::LineStrip => PrimitiveTopology::LineStrip,
        GPUPrimitiveTopology::TriangleList => PrimitiveTopology::TriangleList,
        GPUPrimitiveTopology::TriangleStrip => PrimitiveTopology::TriangleStrip,
    }
}

/// No two values of the client API share one of the backend.
pub proof fn lemma_primitive_topology_is_injective(a: GPUPrimitiveTopology, b: GPUPrimitiveTopology)
    requires
        primitive_topology_of(a) == primitive_topology_of(b),
    ensures
        a == b,
{
}

/// The backend's front face for each one of the client API.
pub open spec fn front_face_of(value: GPUFrontFace) -> FrontFace {
    match value {
        GPUFrontFace::Ccw => FrontFace::Ccw,
        GPUFrontFace::Cw => FrontFace::Cw,
    }
}

/// Translates one value; there is a backend value for every one.
pub fn convert_front_face(value: GPUFrontFace) -> (converted: FrontFace)
    ensures
        converted == front_face_of(value),
{
    match value {
        GPUFrontFace::Ccw => FrontFace::Ccw,
        GPUFrontFace::Cw => FrontFace::Cw,
    }
}

/// No two values of the client API share one of the backend.
pub proof fn lemma_front_face_is_injective(a: GPUFrontFace, b: GPUFrontFace)
    requires
        front_face_of(a) == front_face_of(b),
    ensures
        a == b,
{
}

/// The backend's cull mode for each one of the client API.
pub open spec fn cull_mode_of(value: GPUCullMode) -> CullMode {
    match value {
        GPUCullMode::Off => CullMode::Off,
        GPUCullMode::Front => CullMode::Front,
        GPUCullMode::Back => CullMode::Back,
    }
}

/// Translates one value; there is a backend value for every one.
pub fn convert_cull_mode(value: GPUCullMode) -> (converted: CullMode)
    ensures
        converted == cull_mode_of(value),
{
    match value {
        GPUCullMode::Off => CullMode::Off,
        GPUCullMode::Front => CullMode::Front,
        GPUCullMode::Back => CullMode::Back,
    }
}

/// No two values of the client API share one of the backend.
pub proof fn lemma_cull_mode_is_injective(a: GPUCullMode, b: GPUCullMode)
    requires
        cull_mode_of(a) == cull_mode_of(b),
    ensures
        a == b,
{
}

/// The backend's index format for each one of the client API.
pub open spec fn index_format_of(value: GPUIndexFormat) -> IndexFormat {
    match value {
        GPUIndexFormat::Uint16 => IndexFormat::Uint16,
        GPUIndexFormat::Uint32 => IndexFormat::Uint32,
    }
}

/// Translates one value; there is a backend value for every one.
pub fn convert_index_format(value: GPUIndexFormat) -> (converted: IndexFormat)
    ensures
        converted == index_format_of(value),
{
    match value {
        GPUIndexFormat::Uint16 => IndexFormat::Uint16,
        GPUIndexFormat::Uint32 => IndexFormat::Uint32,
    }
}

/// No two values of the client API share one of the backend.
pub proof fn lemma_index_format_is_injective(a: GPUIndexFormat, b: GPUIndexFormat)
    requires
        index_format_of(a) == index_format_of(b),
    ensures
        a == b,
{
}

/// The backend's input step mode for each one of the client API.
pub open spec fn input_step_mode_of(value: GPUInputStepMode) -> InputStepMode {
    match value {
        GPUInputStepMode::Vertex => InputStepMode::Vertex,
        GPUInputStepMode::Instance => InputStepMode::Instance,
    }
}

/// Translates one value; there is a backend value for every one.
pub fn convert_input_step_mode(value: GPUInputStepMode) -> (converted: InputStepMode)
    ensures
        converted == input_step_mode_of(value),
{
    match value {
        GPUInputStepMode::Vertex => InputStepMode::Vertex,
        GPUInputStepMode::Instance => InputStepMode::Instance,
    }
}

/// No two values of the client API share one of the backend.
pub proof fn lemma_input_step_mode_is_injective(a: GPUInputStepMode, b: GPUInputStepMode)
    requires
        input_step_mode_of(a) == input_step_mode_of(b),
    ensures
        a == b,
{
}

/// A blend equation for the backend, part by part.
pub open spec fn blend_descriptor_of(desc: GPUBlendDescriptor) -> BlendDescriptor {
    BlendDescriptor {
        src_factor: blend_factor_of(desc.src_factor),
        dst_factor: blend_factor_of(desc.dst_factor),
        operation: blend_operation_of(desc.operation),
    }
}

/// Translates a blend equation part by part.
pub fn convert_blend_descriptor(desc: &GPUBlendDescriptor) -> (converted: BlendDescriptor)
    ensures
        converted == blend_descriptor_of(*desc),
{
    BlendDescriptor {
        src_factor: convert_blend_factor(desc.src_factor),
        dst_factor: convert_blend_factor(desc.dst_factor),
        operation: convert_blend_operation(desc.operation),
    }
}

/// Whether a size can be read from `size`: a sequence has to hold width,
/// height and depth.
pub open spec fn has_extent(size: GPUExtent3D) -> bool {
    size matches GPUExtent3D::RangeEnforcedUnsignedLongSequence(v) ==> v@.len() >= 3
}

/// The size as a dictionary: the dictionary itself, or the first three
/// numbers of the sequence as width, height and depth.
pub open spec fn extent_dict_of(size: GPUExtent3D) -> GPUExtent3DDict {
    match size {
        GPUExtent3D::GPUExtent3DDict(dict) => dict,
        GPUExtent3D::RangeEnforcedUnsignedLongSequence(v) => GPUExtent3DDict {
            width: v@[0],
            height: v@[1],
            depth: v@[2],
        },
    }
}

/// Whether a size can be read from `size`.
pub fn extent_is_complete(size: &GPUExtent3D) -> (complete: bool)
    ensures
        complete == has_extent(*size),
{
    match size {
        GPUExtent3D::GPUExtent3DDict(_) => true,
        GPUExtent3D::RangeEnforcedUnsignedLongSequence(v) => v.len() >= 3,
    }
}

/// The size as a dictionary, whichever way it was given.
pub fn convert_texture_size_to_dict(size: &GPUExtent3D) -> (dict: GPUExtent3DDict)
    requires
        has_extent(*size),
    ensures
        dict == extent_dict_of(*size),
{
    match size {
        GPUExtent3D::GPUExtent3DDict(dict) => GPUExtent3DDict {
            width: dict.width,
            height: dict.height,
            depth: dict.depth,
        },
        GPUExtent3D::RangeEnforcedUnsignedLongSequence(v) => GPUExtent3DDict {
            width: v[0],
            height: v[1],
            depth: v[2],
        },
    }
}

/// The size as the backend takes it.
pub open spec fn extent_of(size: GPUExtent3DDict) -> Extent3d {
    Extent3d { width: size.width, height: size.height, depth: size.depth }
}

/// The size as the backend takes it.
pub fn convert_texture_size_to_wgt(size: &GPUExtent3DDict) -> (extent: Extent3d)
    ensures
        extent == extent_of(*size),
{
    Extent3d { width: size.width, height: size.height, depth: size.depth }
}

/// A size in bytes that the backend takes only where it is not zero.
pub open spec fn buffer_size_of(size: u64) -> Option<u64> {
    if size == 0 {
        None
    } else {
        Some(size)
    }
}

/// A size in bytes as the backend takes it: none where it is zero.
pub fn convert_buffer_size(size: u64) -> (converted: Option<u64>)
    ensures
        converted == buffer_size_of(size),
{
    if size == 0 {
        None
    } else {
        Some(size)
    }
}

/// The dimension of a texture binding; two-dimensional where none is given.
pub open spec fn binding_dimension_of(dimension: Option<GPUTextureViewDimension>)
    -> TextureViewDimension {
    match dimension {
        Some(d) => texture_view_dimension_of(d),
        None => TextureViewDimension::D2,
    }
}

/// The component type of a sampled texture binding; float where none is
/// given.
pub open spec fn binding_component_type_of(component_type: Option<GPUTextureComponentType>)
    -> TextureComponentType {
    match component_type {
        Some(c) => texture_component_type_of(c),
        None => TextureComponentType::Float,
    }
}

/// The format of a storage texture binding; `Bgra8UnormSrgb` where none is
/// given.
pub open spec fn binding_format_of(format: Option<GPUTextureFormat>) -> TextureFormat {
    match format {
        Some(f) => texture_format_of(f),
        None => TextureFormat::Bgra8UnormSrgb,
    }
}

/// What a binding takes. Of the fields of `bind`, each kind reads its own
/// and ignores the others. A read-only storage texture reaches the backend
/// marked read-only, a write-only one does not.
pub open spec fn binding_type_of(bind: GPUBindGroupLayoutEntry) -> BindingType {
    match bind.type_ {
        GPUBindingType::UniformBuffer => BindingType::UniformBuffer {
            dynamic: bind.has_dynamic_offset,
            min_binding_size: buffer_size_of(bind.min_buffer_binding_size),
        },
        GPUBindingType::StorageBuffer => BindingType::StorageBuffer {
            dynamic: bind.has_dynamic_offset,
            min_binding_size: buffer_size_of(bind.min_buffer_binding_size),
            readonly: false,
        },
        GPUBindingType::ReadonlyStorageBuffer => BindingType::StorageBuffer {
            dynamic: bind.has_dynamic_offset,
            min_binding_size: buffer_size_of(bind.min_buffer_binding_size),
            readonly: true,
        },
        GPUBindingType::SampledTexture => BindingType::SampledTexture {
            dimension: binding_dimension_of(bind.view_dimension),
            component_type: binding_component_type_of(bind.texture_component_type),
            multisampled: bind.multisampled,
        },
        GPUBindingType::ReadonlyStorageTexture => BindingType::StorageTexture {
            dimension: binding_dimension_of(bind.view_dimension),
            format: binding_format_of(bind.storage_texture_format),
            readonly: true,
        },
        GPUBindingType::WriteonlyStorageTexture => BindingType::StorageTexture {
            dimension: binding_dimension_of(bind.view_dimension),
            format: binding_format_of(bind.storage_texture_format),
            readonly: false,
        },
        GPUBindingType::Sampler => BindingType::Sampler { comparison: false },
        GPUBindingType::ComparisonSampler => BindingType::Sampler { comparison: true },
    }
}

/// The dimension of a texture binding; two-dimensional where none is given.
pub fn convert_binding_dimension(dimension: Option<GPUTextureViewDimension>) -> (converted:
    TextureViewDimension)
    ensures
        converted == binding_dimension_of(dimension),
{
    match dimension {
        Some(d) => convert_texture_view_dimension(d),
        None => TextureViewDimension::D2,
    }
}

/// The format of a storage texture binding; `Bgra8UnormSrgb` where none is
/// given.
pub fn convert_binding_format(format: Option<GPUTextureFormat>) -> (converted: TextureFormat)
    ensures
        converted == binding_format_of(format),
{
    match format {
        Some(f) => convert_texture_format(f),
        None => TextureFormat::Bgra8UnormSrgb,
    }
}

/// Bindings of two kinds never look alike to the backend: the kind can be
/// read off what the backend is told.
pub proof fn lemma_binding_kind_is_kept(a: GPUBindGroupLayoutEntry, b: GPUBindGroupLayoutEntry)
    requires
        binding_type_of(a) == binding_type_of(b),
    ensures
        a.type_ == b.type_,
{
}

/// Entries that differ in their binding number or in their kind differ to
/// the backend too.
pub proof fn lemma_layout_entry_keeps_number_and_kind(
    a: GPUBindGroupLayoutEntry,
    b: GPUBindGroupLayoutEntry,
)
    requires
        layout_entry_of(a) == layout_entry_of(b),
    ensures
        a.binding == b.binding,
        a.type_ == b.type_,
{
    lemma_binding_kind_is_kept(a, b);
}

/// What a binding takes, as the backend is told.
pub fn convert_binding_type(bind: &GPUBindGroupLayoutEntry) -> (ty: BindingType)
    ensures
        ty == binding_type_of(*bind),
{
    match bind.type_ {
        GPUBindingType::UniformBuffer => BindingType::UniformBuffer {
            dynamic: bind.has_dynamic_offset,
            min_binding_size: convert_buffer_size(bind.min_buffer_binding_size),
        },
        GPUBindingType::StorageBuffer => BindingType::StorageBuffer {
            dynamic: bind.has_dynamic_offset,
            min_binding_size: convert_buffer_size(bind.min_buffer_binding_size),
            readonly: false,
        },
        GPUBindingType::ReadonlyStorageBuffer => BindingType::StorageBuffer {
            dynamic: bind.has_dynamic_offset,
            min_binding_size: convert_buffer_size(bind.min_buffer_binding_size),
            readonly: true,
        },
        GPUBindingType::SampledTexture => BindingType::SampledTexture {
            dimension: convert_binding_dimension(bind.view_dimension),
            component_type: match bind.texture_component_type {
                Some(c) => convert_texture_component_type(c),
                None => TextureComponentType::Float,
            },
            multisampled: bind.multisampled,
        },
        GPUBindingType::ReadonlyStorageTexture => BindingType::StorageTexture {
            dimension: convert_binding_dimension(bind.view_dimension),
            format: convert_binding_format(bind.storage_texture_format),
            readonly: true,
        },
        GPUBindingType::WriteonlyStorageTexture => BindingType::StorageTexture {
            dimension: convert_binding_dimension(bind.view_dimension),
            format: convert_binding_format(bind.storage_texture_format),
            readonly: false,
        },
        GPUBindingType::Sampler => BindingType::Sampler { comparison: false },
        GPUBindingType::ComparisonSampler => BindingType::Sampler { comparison: true },
    }
}

/// One binding as the backend takes it; a visibility that holds anything but
/// shader stage flags counts as no visibility.
pub open spec fn layout_entry_of(bind: GPUBindGroupLayoutEntry) -> BindGroupLayoutEntry {
    BindGroupLayoutEntry {
        binding: bind.binding,
        visibility: shader_stage_of(bind.visibility),
        ty: binding_type_of(bind),
    }
}

/// One binding as the backend takes it.
pub fn convert_layout_entry(bind: &GPUBindGroupLayoutEntry) -> (entry: BindGroupLayoutEntry)
    ensures
        entry == layout_entry_of(*bind),
{
    BindGroupLayoutEntry {
        binding: bind.binding,
        visibility: to_shader_stage(bind.visibility),
        ty: convert_binding_type(bind),
    }
}

/// The bindings of a layout, one by one and in their order.
pub open spec fn layout_entries_of(entries: Seq<GPUBindGroupLayoutEntry>) -> Seq<
    BindGroupLayoutEntry,
> {
    entries.map_values(|bind: GPUBindGroupLayoutEntry| layout_entry_of(bind))
}

/// The bindings of a layout as the backend takes them, in their order.
pub fn convert_layout_entries(entries: &Vec<GPUBindGroupLayoutEntry>) -> (converted: Vec<
    BindGroupLayoutEntry,
>)
    ensures
        converted@ == layout_entries_of(entries@),
{
    let mut converted: Vec<BindGroupLayoutEntry> = Vec::new();
    let mut i: usize = 0;
    while i < entries.len()
        invariant
            i <= entries.len(),
            converted@.len() == i,
            forall|j: int| 0 <= j < i ==> converted@[j] == layout_entry_of(entries@[j]),
        decreases entries.len() - i,
    {
        converted.push(convert_layout_entry(&entries[i]));
        i += 1;
    }
    assert(converted@ =~= layout_entries_of(entries@));
    converted
}

/// The resource of one bind group entry as the backend takes it; the size
/// of a buffer range counts only where it is not zero.
pub open spec fn binding_resource_of(resource: GPUBindingResource) -> WebGPUBindings {
    match resource {
        GPUBindingResource::GPUSampler(s) => WebGPUBindings::Sampler(s),
        GPUBindingResource::GPUTextureView(t) => WebGPUBindings::TextureView(t),
        GPUBindingResource::GPUBufferBindings(b) => WebGPUBindings::Buffer(
            BufferBinding {
                buffer_id: b.buffer,
                offset: b.offset,
                size: match b.size {
                    Some(size) => buffer_size_of(size),
                    None => None,
                },
            },
        ),
    }
}

/// One entry of a bind group: its binding number and its resource.
pub open spec fn bind_group_entry_of(bind: GPUBindGroupEntry) -> (u32, WebGPUBindings) {
    (bind.binding, binding_resource_of(bind.resource))
}

/// The entries of a bind group, one by one and in their order.
pub open spec fn bind_group_entries_of(entries: Seq<GPUBindGroupEntry>) -> Seq<
    (u32, WebGPUBindings),
> {
    entries.map_values(|bind: GPUBindGroupEntry| bind_group_entry_of(bind))
}

/// The entries of a bind group as the backend takes them, in their order.
pub fn convert_bind_group_entries(entries: &Vec<GPUBindGroupEntry>) -> (converted: Vec<
    (u32, WebGPUBindings),
>)
    ensures
        converted@ == bind_group_entries_of(entries@),
{
    let mut converted: Vec<(u32, WebGPUBindings)> = Vec::new();
    let mut i: usize = 0;
    while i < entries.len()
        invariant
            i <= entries.len(),
            converted@.len() == i,
            forall|j: int| 0 <= j < i ==> converted@[j] == bind_group_entry_of(entries@[j]),
        decreases entries.len() - i,
    {
        let bind = &entries[i];
        let resource = match bind.resource {
            GPUBindingResource::GPUSampler(s) => WebGPUBindings::Sampler(s),
            GPUBindingResource::GPUTextureView(t) => WebGPUBindings::TextureView(t),
            GPUBindingResource::GPUBufferBindings(b) => WebGPUBindings::Buffer(
                BufferBinding {
                    buffer_id: b.buffer,
                    offset: b.offset,
                    size: match b.size {
                        Some(size) => convert_buffer_size(size),
                        None => None,
                    },
                },
            ),
        };
        converted.push((bind.binding, resource));
        i += 1;
    }
    assert(converted@ =~= bind_group_entries_of(entries@));
    converted
}

/// The words of a shader program: the words given, or one word for each
/// character of the text, holding its code point.
pub open spec fn program_of(code: Uint32ArrayOrString) -> Seq<u32> {
    match code {
        Uint32ArrayOrString::Uint32Array(words) => words@,
        Uint32ArrayOrString::String(text) => text@.map_values(|c: char| c as u32),
    }
}

/// The words of a shader program.
pub fn convert_program(code: &Uint32ArrayOrString) -> (program: Vec<u32>)
    ensures
        program@ == program_of(*code),
{
    match code {
        Uint32ArrayOrString::Uint32Array(words) => {
            let mut program: Vec<u32> = Vec::new();
            let mut i: usize = 0;
            while i < words.len()
                invariant
                    i <= words.len(),
                    program@ == words@.take(i as int),
                decreases words.len() - i,
            {
                program.push(words[i]);
                assert(words@.take(i + 1) =~= words@.take(i as int).push(words@[i as int]));
                i += 1;
            }
            assert(words@.take(words@.len() as int) =~= words@);
            program
        },
        Uint32ArrayOrString::String(text) => {
            let mut program: Vec<u32> = Vec::new();
            for c in it: text.as_str().chars()
                invariant
                    it.seq() == text@,
                    program@.len() == it.index(),
                    forall|j: int| 0 <= j < program@.len() ==> program@[j] == text@[j] as u32,
            {
                program.push(c as u32);
            }
            assert(program@ =~= program_of(*code));
            program
        },
    }
}

/// A color state for the backend; a write mask that holds anything but
/// channel flags counts as writing no channel.
pub open spec fn color_state_of(state: GPUColorStateDescriptor) -> ColorStateDescriptor {
    ColorStateDescriptor {
        format: texture_format_of(state.format),
        alpha_blend: blend_descriptor_of(state.alpha_blend),
        color_blend: blend_descriptor_of(state.color_blend),
        write_mask: color_write_of(state.write_mask),
    }
}

/// Translates one color state.
pub fn convert_color_state(state: &GPUColorStateDescriptor) -> (converted: ColorStateDescriptor)
    ensures
        converted == color_state_of(*state),
{
    ColorStateDescriptor {
        format: convert_texture_format(state.format),
        alpha_blend: convert_blend_descriptor(&state.alpha_blend),
        color_blend: convert_blend_descriptor(&state.color_blend),
        write_mask: to_color_write(state.write_mask),
    }
}

/// The rasterization state for the backend; the depth bias numbers pass
/// through as they are.
pub open spec fn rasterization_state_of(state: GPURasterizationStateDescriptor)
    -> RasterizationStateDescriptor {
    RasterizationStateDescriptor {
        front_face: front_face_of(state.front_face),
        cull_mode: cull_mode_of(state.cull_mode),
        depth_bias: state.depth_bias,
        depth_bias_slope_scale: state.depth_bias_slope_scale,
        depth_bias_clamp: state.depth_bias_clamp,
    }
}

/// Translates the rasterization state.
pub fn convert_rasterization_state(state: &GPURasterizationStateDescriptor) -> (converted:
    RasterizationStateDescriptor)
    ensures
        converted == rasterization_state_of(*state),
{
    RasterizationStateDescriptor {
        front_face: convert_front_face(state.front_face),
        cull_mode: convert_cull_mode(state.cull_mode),
        depth_bias: state.depth_bias,
        depth_bias_slope_scale: state.depth_bias_slope_scale,
        depth_bias_clamp: state.depth_bias_clamp,
    }
}

/// The stencil state of one face for the backend.
pub open spec fn stencil_face_of(face: GPUStencilStateFaceDescriptor)
    -> StencilStateFaceDescriptor {
    StencilStateFaceDescriptor {
        compare: compare_function_of(face.compare),
        fail_op: stencil_op_of(face.fail_op),
        depth_fail_op: stencil_op_of(face.depth_fail_op),
        pass_op: stencil_op_of(face.pass_op),
    }
}

/// Translates the stencil state of one face.
pub fn convert_stencil_face(face: &GPUStencilStateFaceDescriptor) -> (converted:
    StencilStateFaceDescriptor)
    ensures
        converted == stencil_face_of(*face),
{
    StencilStateFaceDescriptor {
        compare: convert_compare_function(face.compare),
        fail_op: convert_stencil_op(face.fail_op),
        depth_fail_op: convert_stencil_op(face.depth_fail_op),
        pass_op: convert_stencil_op(face.pass_op),
    }
}

/// The depth and stencil state for the backend.
pub open spec fn depth_stencil_state_of(state: GPUDepthStencilStateDescriptor)
    -> DepthStencilStateDescriptor {
    DepthStencilStateDescriptor {
        format: texture_format_of(state.format),
        depth_write_enabled: state.depth_write_enabled,
        depth_compare: compare_function_of(state.depth_compare),
        stencil_front: stencil_face_of(state.stencil_front),
        stencil_back: stencil_face_of(state.stencil_back),
        stencil_read_mask: state.stencil_read_mask,
        stencil_write_mask: state.stencil_write_mask,
    }
}

/// Translates the depth and stencil state.
pub fn convert_depth_stencil_state(state: &GPUDepthStencilStateDescriptor) -> (converted:
    DepthStencilStateDescriptor)
    ensures
        converted == depth_stencil_state_of(*state),
{
    DepthStencilStateDescriptor {
        format: convert_texture_format(state.format),
        depth_write_enabled: state.depth_write_enabled,
        depth_compare: convert_compare_function(state.depth_compare),
        stencil_front: convert_stencil_face(&state.stencil_front),
        stencil_back: convert_stencil_face(&state.stencil_back),
        stencil_read_mask: state.stencil_read_mask,
        stencil_write_mask: state.stencil_write_mask,
    }
}

/// One vertex attribute for the backend.
pub open spec fn vertex_attribute_of(attribute: GPUVertexAttributeDescriptor)
    -> VertexAttributeDescriptor {
    VertexAttributeDescriptor {
        format: vertex_format_of(attribute.format),
        offset: attribute.offset,
        shader_location: attribute.shader_location,
    }
}

/// The attributes of a vertex buffer, one by one and in their order.
pub open spec fn vertex_attributes_of(attributes: Seq<GPUVertexAttributeDescriptor>) -> Seq<
    VertexAttributeDescriptor,
> {
    attributes.map_values(|a: GPUVertexAttributeDescriptor| vertex_attribute_of(a))
}

/// Translates the attributes of a vertex buffer, in their order.
pub fn convert_vertex_attributes(attributes: &Vec<GPUVertexAttributeDescriptor>) -> (converted:
    Vec<VertexAttributeDescriptor>)
    ensures
        converted@ == vertex_attributes_of(attributes@),
{
    let mut converted: Vec<VertexAttributeDescriptor> = Vec::new();
    let mut i: usize = 0;
    while i < attributes.len()
        invariant
            i <= attributes.len(),
            converted@.len() == i,
            forall|j: int| 0 <= j < i ==> converted@[j] == vertex_attribute_of(attributes@[j]),
        decreases attributes.len() - i,
    {
        let attribute = &attributes[i];
        converted.push(
            VertexAttributeDescriptor {
                format: convert_vertex_format(attribute.format),
                offset: attribute.offset,
                shader_location: attribute.shader_location,
            },
        );
        i += 1;
    }
    assert(converted@ =~= vertex_attributes_of(attributes@));
    converted
}

/// Whether `layout` is the backend's form of `buffer`.
pub open spec fn is_vertex_buffer_of(
    layout: VertexBufferLayout,
    buffer: GPUVertexBufferLayoutDescriptor,
) -> bool {
    &&& layout.array_stride == buffer.array_stride
    &&& layout.step_mode == input_step_mode_of(buffer.step_mode)
    &&& layout.attributes@ == vertex_attributes_of(buffer.attributes@)
}

/// Whether `layouts` holds the backend's forms of `buffers`, one by one and
/// in their order.
pub open spec fn are_vertex_buffers_of(
    layouts: Seq<VertexBufferLayout>,
    buffers: Seq<GPUVertexBufferLayoutDescriptor>,
) -> bool {
    &&& layouts.len() == buffers.len()
    &&& forall|i: int| 0 <= i < buffers.len() ==> is_vertex_buffer_of(#[trigger] layouts[i], buffers[i])
}

/// Translates the vertex buffer layouts, in their order.
pub fn convert_vertex_buffers(buffers: &Vec<GPUVertexBufferLayoutDescriptor>) -> (converted: Vec<
    VertexBufferLayout,
>)
    ensures
        are_vertex_buffers_of(converted@, buffers@),
{
    let mut converted: Vec<VertexBufferLayout> = Vec::new();
    let mut i: usize = 0;
    while i < buffers.len()
        invariant
            i <= buffers.len(),
            converted@.len() == i,
            forall|j: int| 0 <= j < i ==> is_vertex_buffer_of(#[trigger] converted@[j], buffers@[j]),
        decreases buffers.len() - i,
    {
        let buffer = &buffers[i];
        converted.push(
            VertexBufferLayout {
                array_stride: buffer.array_stride,
                step_mode: convert_input_step_mode(buffer.step_mode),
                attributes: convert_vertex_attributes(&buffer.attributes),
            },
        );
        i += 1;
    }
    converted
}

} // verus!

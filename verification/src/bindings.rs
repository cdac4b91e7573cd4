//! The descriptors a client hands to a device, as the client API spells
//! them.

use crate::resources::{
    WebGPUBindGroupLayout, WebGPUBuffer, WebGPUPipelineLayout, WebGPUSampler, WebGPUShaderModule,
    WebGPUTextureView,
};
use vstd::prelude::*;

verus! {

/// How a sampler treats coordinates outside the texture.
#[derive(Clone, Copy, Debug, PartialEq, Eq, Hash, Structural)]
pub enum GPUAddressMode {
    ClampToEdge,
    Repeat,
    MirrorRepeat,
}

/// How a sampler filters between texels.
#[derive(Clone, Copy, Debug, PartialEq, Eq, Hash, Structural)]
pub enum GPUFilterMode {
    Nearest,
    Linear,
}

/// A comparison for depth, stencil and sampler tests.
#[derive(Clone, Copy, Debug, PartialEq, Eq, Hash, Structural)]
pub enum GPUCompareFunction {
    Never,
    Less,
    Equal,
    LessEqual,
    Greater,
    NotEqual,
    GreaterEqual,
    Always,
}

/// A factor of the blend equation.
#[derive(Clone, Copy, Debug, PartialEq, Eq, Hash, Structural)]
pub enum GPUBlendFactor {
    Zero,
    One,
    SrcColor,
    OneMinusSrcColor,
    SrcAlpha,
    OneMinusSrcAlpha,
    DstColor,
    OneMinusDstColor,
    DstAlpha,
    OneMinusDstAlpha,
    SrcAlphaSaturated,
    BlendColor,
    OneMinusBlendColor,
}

/// The operation of the blend equation.
#[derive(Clone, Copy, Debug, PartialEq, Eq, Hash, Structural)]
pub enum GPUBlendOperation {
    Add,
    Subtract,
    ReverseSubtract,
    Min,
    Max,
}

/// What a stencil test does to the stencil value.
#[derive(Clone, Copy, Debug, PartialEq, Eq, Hash, Structural)]
pub enum GPUStencilOperation {
    Keep,
    Zero,
    Replace,
    Invert,
    IncrementClamp,
    DecrementClamp,
    IncrementWrap,
    DecrementWrap,
}

/// The format of one vertex attribute.
#[derive(Clone, Copy, Debug, PartialEq, Eq, Hash, Structural)]
pub enum GPUVertexFormat {
    Uchar2,
    Uchar4,
    Char2,
    Char4,
    Uchar2norm,
    Uchar4norm,
    Char2norm,
    Char4norm,
    Ushort2,
    Ushort4,
    Short2,
    Short4,
    Ushort2norm,
    Ushort4norm,
    Short2norm,
    Short4norm,
    Half2,
    Half4,
    Float,
    Float2,
    Float3,
    Float4,
    Uint,
    Uint2,
    Uint3,
    Uint4,
    Int,
    Int2,
    Int3,
    Int4,
}

/// The format of the texels of a texture.
#[derive(Clone, Copy, Debug, PartialEq, Eq, Hash, Structural)]
pub enum GPUTextureFormat {
    R8unorm,
    R8snorm,
    R8uint,
    R8sint,
    R16uint,
    R16sint,
    R16float,
    Rg8unorm,
    Rg8snorm,
    Rg8uint,
    Rg8sint,
    R32uint,
    R32sint,
    R32float,
    Rg16uint,
    Rg16sint,
    Rg16float,
    Rgba8unorm,
    Rgba8unormSrgb,
    Rgba8snorm,
    Rgba8uint,
    Rgba8sint,
    Bgra8unorm,
    Bgra8unormSrgb,
    Rgb10a2unorm,
    Rg11b10float,
    Rg32uint,
    Rg32sint,
    Rg32float,
    Rgba16uint,
    Rgba16sint,
    Rgba16float,
    Rgba32uint,
    Rgba32sint,
    Rgba32float,
    Depth32float,
    Depth24plus,
    Depth24plusStencil8,
}

/// The dimensions of a texture view.
#[derive(Clone, Copy, Debug, PartialEq, Eq, Hash, Structural)]
pub enum GPUTextureViewDimension {
    D1,
    D2,
    D2Array,
    Cube,
    CubeArray,
    D3,
}

/// The dimensions of a texture.
#[derive(Clone, Copy, Debug, PartialEq, Eq, Hash, Structural)]
pub enum GPUTextureDimension {
    D1,
    D2,
    D3,
}

/// The type of the components a shader reads from a texture.
#[derive(Clone, Copy, Debug, PartialEq, Eq, Hash, Structural)]
pub enum GPUTextureComponentType {
    Float,
    Sint,
    Uint,
}

/// How vertices are assembled into primitives.
#[derive(Clone, Copy, Debug, PartialEq, Eq, Hash, Structural)]
pub enum GPUPrimitiveTopology {
    PointList,
    LineList,
    LineStrip,
    TriangleList,
    TriangleStrip,
}

/// The winding order of a front-facing triangle.
#[derive(Clone, Copy, Debug, PartialEq, Eq, Hash, Structural)]
pub enum GPUFrontFace {
    Ccw,
    Cw,
}

/// Which faces are culled.
#[derive(Clone, Copy, Debug, PartialEq, Eq, Hash, Structural)]
pub enum GPUCullMode {
    Off,
    Front,
    Back,
}

/// The width of an index.
#[derive(Clone, Copy, Debug, PartialEq, Eq, Hash, Structural)]
pub enum GPUIndexFormat {
    Uint16,
    Uint32,
}

/// Whether a vertex buffer advances per vertex or per instance.
#[derive(Clone, Copy, Debug, PartialEq, Eq, Hash, Structural)]
pub enum GPUInputStepMode {
    Vertex,
    Instance,
}

/// What kind of resource a binding of a bind group layout takes.
#[derive(Clone, Copy, Debug, PartialEq, Eq, Hash, Structural)]
pub enum GPUBindingType {
    UniformBuffer,
    StorageBuffer,
    ReadonlyStorageBuffer,
    Sampler,
    ComparisonSampler,
    SampledTexture,
    ReadonlyStorageTexture,
    WriteonlyStorageTexture,
}

/// What every descriptor carries.
#[derive(Clone, Debug, PartialEq, Eq)]
pub struct GPUObjectDescriptorBase {
    pub label: Option<String>,
}

#[derive(Clone, Debug, PartialEq, Eq)]
pub struct GPUBufferDescriptor {
    pub parent: GPUObjectDescriptorBase,
    pub size: u64,
    pub usage: u32,
    pub mapped_at_creation: bool,
}

#[derive(Clone, Copy, Debug, PartialEq, Eq, Structural)]
pub struct GPUBindGroupLayoutEntry {
    pub binding: u32,
    pub visibility: u32,
    pub type_: GPUBindingType,
    pub has_dynamic_offset: bool,
    pub min_buffer_binding_size: u64,
    pub view_dimension: Option<GPUTextureViewDimension>,
    pub texture_component_type: Option<GPUTextureComponentType>,
    pub multisampled: bool,
    pub storage_texture_format: Option<GPUTextureFormat>,
}

#[derive(Clone, Debug, PartialEq, Eq)]
pub struct GPUBindGroupLayoutDescriptor {
    pub parent: GPUObjectDescriptorBase,
    pub entries: Vec<GPUBindGroupLayoutEntry>,
}

#[derive(Clone, Debug, PartialEq, Eq)]
pub struct GPUPipelineLayoutDescriptor {
    pub parent: GPUObjectDescriptorBase,
    pub bind_group_layouts: Vec<WebGPUBindGroupLayout>,
}

/// A range of a buffer that is bound as a whole.
#[derive(Clone, Copy, Debug, PartialEq, Eq, Structural)]
pub struct GPUBufferBindings {
    pub buffer: WebGPUBuffer,
    pub offset: u64,
    pub size: Option<u64>,
}

#[derive(Clone, Copy, Debug, PartialEq, Eq, Structural)]
pub enum GPUBindingResource {
    GPUSampler(WebGPUSampler),
    GPUTextureView(WebGPUTextureView),
    GPUBufferBindings(GPUBufferBindings),
}

#[derive(Clone, Copy, Debug, PartialEq, Eq, Structural)]
pub struct GPUBindGroupEntry {
    pub binding: u32,
    pub resource: GPUBindingResource,
}

#[derive(Clone, Debug, PartialEq, Eq)]
pub struct GPUBindGroupDescriptor {
    pub parent: GPUObjectDescriptorBase,
    pub layout: WebGPUBindGroupLayout,
    pub entries: Vec<GPUBindGroupEntry>,
}

/// The code of a shader module: words as they are, or text of which every
/// character is one word.
#[derive(Clone, Debug, PartialEq, Eq)]
pub enum Uint32ArrayOrString {
    Uint32Array(Vec<u32>),
    String(String),
}

#[derive(Clone, Debug, PartialEq, Eq)]
pub struct GPUShaderModuleDescriptor {
    pub parent: GPUObjectDescriptorBase,
    pub code: Uint32ArrayOrString,
}

#[derive(Clone, Debug, PartialEq, Eq)]
pub struct GPUPipelineDescriptorBase {
    pub parent: GPUObjectDescriptorBase,
    pub layout: WebGPUPipelineLayout,
}

#[derive(Clone, Debug, PartialEq, Eq)]
pub struct GPUProgrammableStageDescriptor {
    pub module: WebGPUShaderModule,
    pub entry_point: String,
}

#[derive(Clone, Debug, PartialEq, Eq)]
pub struct GPUComputePipelineDescriptor {
    pub parent: GPUPipelineDescriptorBase,
    pub compute_stage: GPUProgrammableStageDescriptor,
}

#[derive(Clone, Debug, PartialEq, Eq)]
pub struct GPUCommandEncoderDescriptor {
    pub parent: GPUObjectDescriptorBase,
}

#[derive(Clone, Copy, Debug, PartialEq, Eq, Structural)]
pub struct GPUExtent3DDict {
    pub width: u32,
    pub height: u32,
    pub depth: u32,
}

/// The size of a texture, as a dictionary or as a sequence of width, height
/// and depth.
#[derive(Clone, Debug, PartialEq, Eq)]
pub enum GPUExtent3D {
    GPUExtent3DDict(GPUExtent3DDict),
    RangeEnforcedUnsignedLongSequence(Vec<u32>),
}

#[derive(Clone, Debug, PartialEq, Eq)]
pub struct GPUTextureDescriptor {
    pub parent: GPUObjectDescriptorBase,
    pub size: GPUExtent3D,
    pub mip_level_count: u32,
    pub sample_count: u32,
    pub dimension: GPUTextureDimension,
    pub format: GPUTextureFormat,
    pub usage: u32,
}

/// The two level-of-detail clamps are single-precision numbers, carried as
/// their bit patterns.
#[derive(Clone, Debug, PartialEq, Eq)]
pub struct GPUSamplerDescriptor {
    pub parent: GPUObjectDescriptorBase,
    pub address_mode_u: GPUAddressMode,
    pub address_mode_v: GPUAddressMode,
    pub address_mode_w: GPUAddressMode,
    pub mag_filter: GPUFilterMode,
    pub min_filter: GPUFilterMode,
    pub mipmap_filter: GPUFilterMode,
    pub lod_min_clamp: u32,
    pub lod_max_clamp: u32,
    pub compare: Option<GPUCompareFunction>,
}

#[derive(Clone, Copy, Debug, PartialEq, Eq, Structural)]
pub struct GPUBlendDescriptor {
    pub src_factor: GPUBlendFactor,
    pub dst_factor: GPUBlendFactor,
    pub operation: GPUBlendOperation,
}

#[derive(Clone, Copy, Debug, PartialEq, Eq, Structural)]
pub struct GPUColorStateDescriptor {
    pub format: GPUTextureFormat,
    pub alpha_blend: GPUBlendDescriptor,
    pub color_blend: GPUBlendDescriptor,
    pub write_mask: u32,
}

/// The slope scale and the clamp of the depth bias are single-precision
/// numbers, carried as their bit patterns.
#[derive(Clone, Copy, Debug, PartialEq, Eq, Structural)]
pub struct GPURasterizationStateDescriptor {
    pub front_face: GPUFrontFace,
    pub cull_mode: GPUCullMode,
    pub depth_bias: i32,
    pub depth_bias_slope_scale: u32,
    pub depth_bias_clamp: u32,
}

#[derive(Clone, Copy, Debug, PartialEq, Eq, Structural)]
pub struct GPUStencilStateFaceDescriptor {
    pub compare: GPUCompareFunction,
    pub fail_op: GPUStencilOperation,
    pub depth_fail_op: GPUStencilOperation,
    pub pass_op: GPUStencilOperation,
}

#[derive(Clone, Copy, Debug, PartialEq, Eq, Structural)]
pub struct GPUDepthStencilStateDescriptor {
    pub format: GPUTextureFormat,
    pub depth_write_enabled: bool,
    pub depth_compare: GPUCompareFunction,
    pub stencil_front: GPUStencilStateFaceDescriptor,
    pub stencil_back: GPUStencilStateFaceDescriptor,
    pub stencil_read_mask: u32,
    pub stencil_write_mask: u32,
}

#[derive(Clone, Copy, Debug, PartialEq, Eq, Structural)]
pub struct GPUVertexAttributeDescriptor {
    pub format: GPUVertexFormat,
    pub offset: u64,
    pub shader_location: u32,
}

#[derive(Clone, Debug, PartialEq, Eq)]
pub struct GPUVertexBufferLayoutDescriptor {
    pub array_stride: u64,
    pub step_mode: GPUInputStepMode,
    pub attributes: Vec<GPUVertexAttributeDescriptor>,
}

#[derive(Clone, Debug, PartialEq, Eq)]
pub struct GPUVertexStateDescriptor {
    pub index_format: GPUIndexFormat,
    pub vertex_buffers: Vec<GPUVertexBufferLayoutDescriptor>,
}

#[derive(Clone, Debug, PartialEq, Eq)]
pub struct GPURenderPipelineDescriptor {
    pub parent: GPUPipelineDescriptorBase,
    pub vertex_stage: GPUProgrammableStageDescriptor,
    pub fragment_stage: Option<GPUProgrammableStageDescriptor>,
    pub primitive_topology: GPUPrimitiveTopology,
    pub rasterization_state: GPURasterizationStateDescriptor,
    pub color_states: Vec<GPUColorStateDescriptor>,
    pub depth_stencil_state: Option<GPUDepthStencilStateDescriptor>,
    pub vertex_state: GPUVertexStateDescriptor,
    pub sample_count: u32,
    pub sample_mask: u32,
    pub alpha_to_coverage_enabled: bool,
}

} // verus!

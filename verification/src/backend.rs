//! What goes to the backend: its enumerations and descriptors, and the
//! creation requests themselves.

use crate::error_scope::ErrorScopeId;
use crate::resources::{
    WebGPUBindGroup, WebGPUBindGroupLayout, WebGPUBuffer, WebGPUCommandEncoder,
    WebGPUComputePipeline, WebGPUDevice, WebGPUPipelineLayout, WebGPURenderPipeline,
    WebGPUSampler, WebGPUShaderModule, WebGPUTexture, WebGPUTextureView,
};
use arrayvec::ArrayVec;
use vstd::prelude::*;

verus! {


/// How a sampler treats coordinates outside the texture.
#[derive(Clone, Copy, Debug, PartialEq, Eq, Hash, Structural)]
pub enum AddressMode {
    ClampToEdge,
    Repeat,
    MirrorRepeat,
}

/// How a sampler filters between texels.
#[derive(Clone, Copy, Debug, PartialEq, Eq, Hash, Structural)]
pub enum FilterMode {
    Nearest,
    Linear,
}

/// A comparison for depth, stencil and sampler tests.
#[derive(Clone, Copy, Debug, PartialEq, Eq, Hash, Structural)]
pub enum CompareFunction {
    Never,
    Less,
    Equal,
    LessEqual,
    Greater,
    NotEqual,
    GreaterEqual,
    Always,
}

/// A factor of the blend equation.
#[derive(Clone, Copy, Debug, PartialEq, Eq, Hash, Structural)]
pub enum BlendFactor {
    Zero,
    One,
    SrcColor,
    OneMinusSrcColor,
    SrcAlpha,
    OneMinusSrcAlpha,
    DstColor,
    OneMinusDstColor,
    DstAlpha,
    OneMinusDstAlpha,
    SrcAlphaSaturated,
    BlendColor,
    OneMinusBlendColor,
}

/// The operation of the blend equation.
#[derive(Clone, Copy, Debug, PartialEq, Eq, Hash, Structural)]
pub enum BlendOperation {
    Add,
    Subtract,
    ReverseSubtract,
    Min,
    Max,
}

/// What a stencil test does to the stencil value.
#[derive(Clone, Copy, Debug, PartialEq, Eq, Hash, Structural)]
pub enum StencilOperation {
    Keep,
    Zero,
    Replace,
    Invert,
    IncrementClamp,
    DecrementClamp,
    IncrementWrap,
    DecrementWrap,
}

/// The format of one vertex attribute.
#[derive(Clone, Copy, Debug, PartialEq, Eq, Hash, Structural)]
pub enum VertexFormat {
    Uchar2,
    Uchar4,
    Char2,
    Char4,
    Uchar2Norm,
    Uchar4Norm,
    Char2Norm,
    Char4Norm,
    Ushort2,
    Ushort4,
    Short2,
    Short4,
    Ushort2Norm,
    Ushort4Norm,
    Short2Norm,
    Short4Norm,
    Half2,
    Half4,
    Float,
    Float2,
    Float3,
    Float4,
    Uint,
    Uint2,
    Uint3,
    Uint4,
    Int,
    Int2,
    Int3,
    Int4,
}

/// The format of the texels of a texture.
#[derive(Clone, Copy, Debug, PartialEq, Eq, Hash, Structural)]
pub enum TextureFormat {
    R8Unorm,
    R8Snorm,
    R8Uint,
    R8Sint,
    R16Uint,
    R16Sint,
    R16Float,
    Rg8Unorm,
    Rg8Snorm,
    Rg8Uint,
    Rg8Sint,
    R32Uint,
    R32Sint,
    R32Float,
    Rg16Uint,
    Rg16Sint,
    Rg16Float,
    Rgba8Unorm,
    Rgba8UnormSrgb,
    Rgba8Snorm,
    Rgba8Uint,
    Rgba8Sint,
    Bgra8Unorm,
    Bgra8UnormSrgb,
    Rgb10a2Unorm,
    Rg11b10Float,
    Rg32Uint,
    Rg32Sint,
    Rg32Float,
    Rgba16Uint,
    Rgba16Sint,
    Rgba16Float,
    Rgba32Uint,
    Rgba32Sint,
    Rgba32Float,
    Depth32Float,
    Depth24Plus,
    Depth24PlusStencil8,
}

/// The dimensions of a texture view.
#[derive(Clone, Copy, Debug, PartialEq, Eq, Hash, Structural)]
pub enum TextureViewDimension {
    D1,
    D2,
    D2Array,
    Cube,
    CubeArray,
    D3,
}

/// The dimensions of a texture.
#[derive(Clone, Copy, Debug, PartialEq, Eq, Hash, Structural)]
pub enum TextureDimension {
    D1,
    D2,
    D3,
}

/// The type of the components a shader reads from a texture.
#[derive(Clone, Copy, Debug, PartialEq, Eq, Hash, Structural)]
pub enum TextureComponentType {
    Float,
    Sint,
    Uint,
}

/// How vertices are assembled into primitives.
#[derive(Clone, Copy, Debug, PartialEq, Eq, Hash, Structural)]
pub enum PrimitiveTopology {
    PointList,
    LineList,
    LineStrip,
    TriangleList,
    TriangleStrip,
}

/// The winding order of a front-facing triangle.
#[derive(Clone, Copy, Debug, PartialEq, Eq, Hash, Structural)]
pub enum FrontFace {
    Ccw,
    Cw,
}

/// Which faces are culled.
#[derive(Clone, Copy, Debug, PartialEq, Eq, Hash, Structural)]
pub enum CullMode {
    Off,
    Front,
    Back,
}

/// The width of an index.
#[derive(Clone, Copy, Debug, PartialEq, Eq, Hash, Structural)]
pub enum IndexFormat {
    Uint16,
    Uint32,
}

/// Whether a vertex buffer advances per vertex or per instance.
#[derive(Clone, Copy, Debug, PartialEq, Eq, Hash, Structural)]
pub enum InputStepMode {
    Vertex,
    Instance,
}

/// What a binding of a bind group layout takes. A minimum binding size is
/// never zero.
#[derive(Clone, Copy, Debug, PartialEq, Eq, Hash, Structural)]
pub enum BindingType {
    UniformBuffer { dynamic: bool, min_binding_size: Option<u64> },
    StorageBuffer { dynamic: bool, min_binding_size: Option<u64>, readonly: bool },
    Sampler { comparison: bool },
    SampledTexture {
        dimension: TextureViewDimension,
        component_type: TextureComponentType,
        multisampled: bool,
    },
    StorageTexture { dimension: TextureViewDimension, format: TextureFormat, readonly: bool },
}

/// One binding of a bind group layout; `visibility` holds shader stage
/// flags.
#[derive(Clone, Copy, Debug, PartialEq, Eq, Hash, Structural)]
pub struct BindGroupLayoutEntry {
    pub binding: u32,
    pub visibility: u32,
    pub ty: BindingType,
}

/// `usage` holds buffer usage flags.
#[derive(Clone, Debug, PartialEq, Eq)]
pub struct BufferDescriptor {
    pub label: Option<String>,
    pub size: u64,
    pub usage: u32,
    pub mapped_at_creation: bool,
}

#[derive(Clone, Copy, Debug, PartialEq, Eq, Structural)]
pub struct Extent3d {
    pub width: u32,
    pub height: u32,
    pub depth: u32,
}

/// `usage` holds texture usage flags.
#[derive(Clone, Debug, PartialEq, Eq)]
pub struct TextureDescriptor {
    pub label: Option<String>,
    pub size: Extent3d,
    pub mip_level_count: u32,
    pub sample_count: u32,
    pub dimension: TextureDimension,
    pub format: TextureFormat,
    pub usage: u32,
}

#[derive(Clone, Debug, PartialEq, Eq)]
pub struct SamplerDescriptor {
    pub label: Option<String>,
    pub address_mode_u: AddressMode,
    pub address_mode_v: AddressMode,
    pub address_mode_w: AddressMode,
    pub mag_filter: FilterMode,
    pub min_filter: FilterMode,
    pub mipmap_filter: FilterMode,
    pub lod_min_clamp: u32,
    pub lod_max_clamp: u32,
    pub compare: Option<CompareFunction>,
    pub anisotropy_clamp: Option<u8>,
}

#[derive(Clone, Copy, Debug, PartialEq, Eq, Structural)]
pub struct BlendDescriptor {
    pub src_factor: BlendFactor,
    pub dst_factor: BlendFactor,
    pub operation: BlendOperation,
}

/// `write_mask` holds color write flags.
#[derive(Clone, Copy, Debug, PartialEq, Eq, Structural)]
pub struct ColorStateDescriptor {
    pub format: TextureFormat,
    pub alpha_blend: BlendDescriptor,
    pub color_blend: BlendDescriptor,
    pub write_mask: u32,
}

#[derive(Clone, Copy, Debug, PartialEq, Eq, Structural)]
pub struct RasterizationStateDescriptor {
    pub front_face: FrontFace,
    pub cull_mode: CullMode,
    pub depth_bias: i32,
    pub depth_bias_slope_scale: u32,
    pub depth_bias_clamp: u32,
}

#[derive(Clone, Copy, Debug, PartialEq, Eq, Structural)]
pub struct StencilStateFaceDescriptor {
    pub compare: CompareFunction,
    pub fail_op: StencilOperation,
    pub depth_fail_op: StencilOperation,
    pub pass_op: StencilOperation,
}

#[derive(Clone, Copy, Debug, PartialEq, Eq, Structural)]
pub struct DepthStencilStateDescriptor {
    pub format: TextureFormat,
    pub depth_write_enabled: bool,
    pub depth_compare: CompareFunction,
    pub stencil_front: StencilStateFaceDescriptor,
    pub stencil_back: StencilStateFaceDescriptor,
    pub stencil_read_mask: u32,
    pub stencil_write_mask: u32,
}

#[derive(Clone, Copy, Debug, PartialEq, Eq, Structural)]
pub struct VertexAttributeDescriptor {
    pub format: VertexFormat,
    pub offset: u64,
    pub shader_location: u32,
}

#[derive(Clone, Debug, PartialEq, Eq)]
pub struct VertexBufferLayout {
    pub array_stride: u64,
    pub step_mode: InputStepMode,
    pub attributes: Vec<VertexAttributeDescriptor>,
}

#[derive(Clone, Debug, PartialEq, Eq)]
pub struct VertexStateDescriptor {
    pub index_format: IndexFormat,
    pub vertex_buffers: Vec<VertexBufferLayout>,
}

/// A bound range of a buffer. A size, where given, is never zero.
#[derive(Clone, Copy, Debug, PartialEq, Eq, Structural)]
pub struct BufferBinding {
    pub buffer_id: WebGPUBuffer,
    pub offset: u64,
    pub size: Option<u64>,
}

#[derive(Clone, Copy, Debug, PartialEq, Eq, Structural)]
pub enum WebGPUBindings {
    Buffer(BufferBinding),
    Sampler(WebGPUSampler),
    TextureView(WebGPUTextureView),
}

/// A creation request. `scope_id` names the error scope that the backend's
/// reply is to be attributed to.
#[derive(Debug, PartialEq, Eq)]
pub enum WebGPURequest {
    CreateBuffer {
        device_id: WebGPUDevice,
        buffer_id: WebGPUBuffer,
        descriptor: BufferDescriptor,
        scope_id: Option<ErrorScopeId>,
    },
    CreateBindGroupLayout {
        device_id: WebGPUDevice,
        bind_group_layout_id: WebGPUBindGroupLayout,
        entries: Vec<BindGroupLayoutEntry>,
        scope_id: Option<ErrorScopeId>,
        label: Option<String>,
    },
    CreatePipelineLayout {
        device_id: WebGPUDevice,
        pipeline_layout_id: WebGPUPipelineLayout,
        bind_group_layouts: Vec<WebGPUBindGroupLayout>,
        scope_id: Option<ErrorScopeId>,
    },
    CreateBindGroup {
        device_id: WebGPUDevice,
        bind_group_id: WebGPUBindGroup,
        bind_group_layout_id: WebGPUBindGroupLayout,
        entries: Vec<(u32, WebGPUBindings)>,
        scope_id: Option<ErrorScopeId>,
        label: Option<String>,
    },
    CreateShaderModule {
        device_id: WebGPUDevice,
        program_id: WebGPUShaderModule,
        program: Vec<u32>,
        scope_id: Option<ErrorScopeId>,
    },
    CreateComputePipeline {
        device_id: WebGPUDevice,
        scope_id: Option<ErrorScopeId>,
        compute_pipeline_id: WebGPUComputePipeline,
        pipeline_layout_id: WebGPUPipelineLayout,
        program_id: WebGPUShaderModule,
        entry_point: String,
    },
    CreateCommandEncoder {
        device_id: WebGPUDevice,
        command_encoder_id: WebGPUCommandEncoder,
        label: Option<String>,
        scope_id: Option<ErrorScopeId>,
    },
    CreateTexture {
        device_id: WebGPUDevice,
        texture_id: WebGPUTexture,
        descriptor: TextureDescriptor,
        scope_id: Option<ErrorScopeId>,
    },
    CreateSampler {
        device_id: WebGPUDevice,
        sampler_id: WebGPUSampler,
        descriptor: SamplerDescriptor,
        scope_id: Option<ErrorScopeId>,
    },
    CreateRenderPipeline {
        device_id: WebGPUDevice,
        render_pipeline_id: WebGPURenderPipeline,
        scope_id: Option<ErrorScopeId>,
        pipeline_layout_id: WebGPUPipelineLayout,
        vertex_module: WebGPUShaderModule,
        vertex_entry_point: String,
        fragment_module: Option<WebGPUShaderModule>,
        fragment_entry_point: Option<String>,
        primitive_topology: PrimitiveTopology,
        rasterization_state: RasterizationStateDescriptor,
        color_states: ArrayVec<ColorStateDescriptor, 4>,
        depth_stencil_state: Option<DepthStencilStateDescriptor>,
        vertex_state: VertexStateDescriptor,
        sample_count: u32,
        sample_mask: u32,
        alpha_to_coverage_enabled: bool,
    },
}

impl WebGPURequest {
    /// The error scope that the reply to this request is attributed to.
    pub fn scope_id(&self) -> (scope_id: Option<ErrorScopeId>)
        ensures
            scope_id == match *self {
                WebGPURequest::CreateBuffer { scope_id, .. } => scope_id,
                WebGPURequest::CreateBindGroupLayout { scope_id, .. } => scope_id,
                WebGPURequest::CreatePipelineLayout { scope_id, .. } => scope_id,
                WebGPURequest::CreateBindGroup { scope_id, .. } => scope_id,
                WebGPURequest::CreateShaderModule { scope_id, .. } => scope_id,
                WebGPURequest::CreateComputePipeline { scope_id, .. } => scope_id,
                WebGPURequest::CreateCommandEncoder { scope_id, .. } => scope_id,
                WebGPURequest::CreateTexture { scope_id, .. } => scope_id,
                WebGPURequest::CreateSampler { scope_id, .. } => scope_id,
                WebGPURequest::CreateRenderPipeline { scope_id, .. } => scope_id,
            },
    {
        match self {
            WebGPURequest::CreateBuffer { scope_id, .. } => *scope_id,
            WebGPURequest::CreateBindGroupLayout { scope_id, .. } => *scope_id,
            WebGPURequest::CreatePipelineLayout { scope_id, .. } => *scope_id,
            WebGPURequest::CreateBindGroup { scope_id, .. } => *scope_id,
            WebGPURequest::CreateShaderModule { scope_id, .. } => *scope_id,
            WebGPURequest::CreateComputePipeline { scope_id, .. } => *scope_id,
            WebGPURequest::CreateCommandEncoder { scope_id, .. } => *scope_id,
            WebGPURequest::CreateTexture { scope_id, .. } => *scope_id,
            WebGPURequest::CreateSampler { scope_id, .. } => *scope_id,
            WebGPURequest::CreateRenderPipeline { scope_id, .. } => *scope_id,
        }
    }
}

} // verus!

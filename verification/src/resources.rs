//! Backend identifiers and the handles that wrap them.
//!
//! An identifier is issued by the allocator before the resource exists; a
//! handle is what a creation call returns, valid at once whatever the backend
//! later reports.

use crate::bindings::{GPUExtent3DDict, GPUTextureDimension, GPUTextureFormat};
use vstd::prelude::*;

verus! {

/// Backend identifier of a device.
#[derive(Clone, Copy, Debug, PartialEq, Eq, Hash, Structural)]
pub struct WebGPUDevice(pub u64);

/// Backend identifier of a command queue.
#[derive(Clone, Copy, Debug, PartialEq, Eq, Hash, Structural)]
pub struct WebGPUQueue(pub u64);

/// Backend identifier of an adapter.
#[derive(Clone, Copy, Debug, PartialEq, Eq, Hash, Structural)]
pub struct WebGPUAdapter(pub u64);

/// Backend identifier of a buffer.
#[derive(Clone, Copy, Debug, PartialEq, Eq, Hash, Structural)]
pub struct WebGPUBuffer(pub u64);

/// Backend identifier of a bind group layout.
#[derive(Clone, Copy, Debug, PartialEq, Eq, Hash, Structural)]
pub struct WebGPUBindGroupLayout(pub u64);

/// Backend identifier of a pipeline layout.
#[derive(Clone, Copy, Debug, PartialEq, Eq, Hash, Structural)]
pub struct WebGPUPipelineLayout(pub u64);

/// Backend identifier of a bind group.
#[derive(Clone, Copy, Debug, PartialEq, Eq, Hash, Structural)]
pub struct WebGPUBindGroup(pub u64);

/// Backend identifier of a shader module.
#[derive(Clone, Copy, Debug, PartialEq, Eq, Hash, Structural)]
pub struct WebGPUShaderModule(pub u64);

/// Backend identifier of a compute pipeline.
#[derive(Clone, Copy, Debug, PartialEq, Eq, Hash, Structural)]
pub struct WebGPUComputePipeline(pub u64);

/// Backend identifier of a render pipeline.
#[derive(Clone, Copy, Debug, PartialEq, Eq, Hash, Structural)]
pub struct WebGPURenderPipeline(pub u64);

/// Backend identifier of a command encoder.
#[derive(Clone, Copy, Debug, PartialEq, Eq, Hash, Structural)]
pub struct WebGPUCommandEncoder(pub u64);

/// Backend identifier of a texture.
#[derive(Clone, Copy, Debug, PartialEq, Eq, Hash, Structural)]
pub struct WebGPUTexture(pub u64);

/// Backend identifier of a texture view.
#[derive(Clone, Copy, Debug, PartialEq, Eq, Hash, Structural)]
pub struct WebGPUTextureView(pub u64);

/// Backend identifier of a sampler.
#[derive(Clone, Copy, Debug, PartialEq, Eq, Hash, Structural)]
pub struct WebGPUSampler(pub u64);

/// Identifier under which the embedding keeps a future that only it can
/// resolve.
#[derive(Clone, Copy, Debug, PartialEq, Eq, Hash, Structural)]
pub struct PromiseId(pub u64);

/// The default queue of a device.
#[derive(Clone, Copy, Debug, PartialEq, Eq, Structural)]
pub struct GPUQueue {
    pub id: WebGPUQueue,
}

/// The adapter a device was requested from.
#[derive(Clone, Copy, Debug, PartialEq, Eq, Structural)]
pub struct GPUAdapter {
    pub id: WebGPUAdapter,
}

/// Whether a buffer is mapped into client memory.
#[derive(Clone, Copy, Debug, PartialEq, Eq, Structural)]
pub enum GPUBufferState {
    MappedAtCreation,
    Unmapped,
}

/// The client-side mapping of a buffer that was created mapped.
#[derive(Clone, Debug, PartialEq, Eq)]
pub struct GPUBufferMapInfo {
    pub mapping: Vec<u8>,
    pub mapping_start: u64,
    pub mapping_end: u64,
}

#[derive(Clone, Debug, PartialEq, Eq)]
pub struct GPUBuffer {
    pub id: WebGPUBuffer,
    pub device: WebGPUDevice,
    pub state: GPUBufferState,
    pub size: u64,
    pub map_info: Option<GPUBufferMapInfo>,
}

#[derive(Clone, Copy, Debug, PartialEq, Eq, Structural)]
pub struct GPUBindGroupLayout {
    pub id: WebGPUBindGroupLayout,
}

#[derive(Clone, Copy, Debug, PartialEq, Eq, Structural)]
pub struct GPUPipelineLayout {
    pub id: WebGPUPipelineLayout,
}

#[derive(Clone, Copy, Debug, PartialEq, Eq, Structural)]
pub struct GPUBindGroup {
    pub id: WebGPUBindGroup,
    pub device: WebGPUDevice,
    pub layout: WebGPUBindGroupLayout,
}

#[derive(Clone, Copy, Debug, PartialEq, Eq, Structural)]
pub struct GPUShaderModule {
    pub id: WebGPUShaderModule,
}

#[derive(Clone, Copy, Debug, PartialEq, Eq, Structural)]
pub struct GPUComputePipeline {
    pub id: WebGPUComputePipeline,
}

#[derive(Clone, Copy, Debug, PartialEq, Eq, Structural)]
pub struct GPURenderPipeline {
    pub id: WebGPURenderPipeline,
    pub device: WebGPUDevice,
}

#[derive(Clone, Copy, Debug, PartialEq, Eq, Structural)]
pub struct GPUCommandEncoder {
    pub id: WebGPUCommandEncoder,
    pub device: WebGPUDevice,
    pub valid: bool,
}

/// A texture, with the attributes it was declared with.
#[derive(Clone, Copy, Debug, PartialEq, Eq, Structural)]
pub struct GPUTexture {
    pub id: WebGPUTexture,
    pub device: WebGPUDevice,
    pub size: GPUExtent3DDict,
    pub mip_level_count: u32,
    pub sample_count: u32,
    pub dimension: GPUTextureDimension,
    pub format: GPUTextureFormat,
    pub usage: u32,
}

#[derive(Clone, Copy, Debug, PartialEq, Eq, Structural)]
pub struct GPUSampler {
    pub id: WebGPUSampler,
    pub device: WebGPUDevice,
    pub compare_enable: bool,
}

} // verus!

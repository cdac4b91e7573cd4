//! The device: it captures the current error scope for every creation,
//! builds the request that goes to the backend, and hands out the handle at
//! once, before the backend has answered.

use crate::backend::{
    BindGroupLayoutEntry, BufferDescriptor, SamplerDescriptor, TextureDescriptor,
    VertexStateDescriptor, WebGPURequest,
};
use crate::bindings::{
    GPUBindGroupDescriptor, GPUBindGroupLayoutDescriptor, GPUBufferDescriptor,
    GPUCommandEncoderDescriptor, GPUComputePipelineDescriptor, GPUPipelineLayoutDescriptor,
    GPURenderPipelineDescriptor, GPUSamplerDescriptor, GPUShaderModuleDescriptor,
    GPUTextureDescriptor,
};
use crate::color_targets::{color_states_in, color_states_of, convert_color_states};
use crate::convert::{
    address_mode_of, are_vertex_buffers_of, bind_group_entries_of, compare_function_of,
    convert_address_mode, convert_bind_group_entries, convert_compare_function,
    convert_depth_stencil_state, convert_filter_mode, convert_index_format,
    convert_layout_entries, convert_primitive_topology, convert_program,
    convert_rasterization_state, convert_texture_dimension, convert_texture_format,
    convert_texture_size_to_dict, convert_texture_size_to_wgt, convert_vertex_buffers,
    depth_stencil_state_of, extent_dict_of, extent_of, filter_mode_of, has_extent,
    index_format_of, layout_entries_of, primitive_topology_of, program_of,
    rasterization_state_of, texture_dimension_of, texture_format_of,
};
use crate::error_scope::{
    Completion, ErrorScopeId, GPUError, GPUErrorFilter, PopFuture, ScopeContext, ScopeError,
    ScopeModel,
};
use crate::flags::{buffer_usage_of, texture_usage_of, to_buffer_usage, to_texture_usage};
use crate::layout_cache::{copy_entries, LayoutCache};
use crate::resources::{
    GPUAdapter, GPUBindGroup, GPUBindGroupLayout, GPUBuffer, GPUBufferMapInfo, GPUBufferState,
    GPUCommandEncoder, GPUComputePipeline, GPUPipelineLayout, GPUQueue, GPURenderPipeline,
    GPUSampler, GPUShaderModule, GPUTexture, PromiseId, WebGPUBindGroup, WebGPUBindGroupLayout,
    WebGPUBuffer, WebGPUCommandEncoder, WebGPUComputePipeline, WebGPUDevice,
    WebGPUPipelineLayout, WebGPUQueue, WebGPURenderPipeline, WebGPUSampler, WebGPUShaderModule,
    WebGPUTexture,
};
use vstd::prelude::*;

verus! {

/// Mathematical value of a device.
#[verifier::ext_equal]
pub struct DeviceModel {
    pub device: WebGPUDevice,
    pub adapter: GPUAdapter,
    pub default_queue: GPUQueue,
    pub label: Option<String>,
    pub scopes: ScopeModel,
    pub lost_promise: Option<PromiseId>,
    pub layouts: Map<Seq<BindGroupLayoutEntry>, GPUBindGroupLayout>,
    /// Whether the channel to the backend has failed.
    pub lost: bool,
}

impl DeviceModel {
    /// The device after one operation was issued: the operation is pending
    /// in the current error scope, if there is one.
    pub open spec fn issued(self) -> DeviceModel {
        DeviceModel { scopes: self.scopes.reserve(), ..self }
    }

    /// The device after a bind group layout for `entries` was asked for:
    /// where one is cached nothing is left pending, otherwise a creation is.
    pub open spec fn layout_requested(self, entries: Seq<BindGroupLayoutEntry>) -> DeviceModel {
        if self.layouts.contains_key(entries) {
            self
        } else {
            self.issued()
        }
    }

    /// Whether asking for a bind group layout for `entries` leads to a
    /// creation request.
    pub open spec fn creates_layout(self, entries: Seq<BindGroupLayoutEntry>) -> bool {
        !self.layouts.contains_key(entries)
    }

    /// The device after the layout with identifier `id` was created for
    /// `entries`.
    pub open spec fn layout_created(
        self,
        entries: Seq<BindGroupLayoutEntry>,
        id: WebGPUBindGroupLayout,
    ) -> DeviceModel {
        DeviceModel { layouts: self.layouts.insert(entries, GPUBindGroupLayout { id }), ..self }
    }
}

/// Whether `scope_id` names the scope `current`, or no scope where there is
/// none.
pub open spec fn names_scope(scope_id: Option<ErrorScopeId>, current: Option<nat>) -> bool {
    match scope_id {
        Some(id) => current == Some(id as nat),
        None => current is None,
    }
}

/// What the backend is told of a buffer.
pub open spec fn buffer_descriptor_of(descriptor: GPUBufferDescriptor) -> BufferDescriptor {
    BufferDescriptor {
        label: descriptor.parent.label,
        size: descriptor.size,
        usage: buffer_usage_of(descriptor.usage),
        mapped_at_creation: descriptor.mapped_at_creation,
    }
}

/// Whether `buffer` is the handle of the buffer `id` of `device` as
/// `descriptor` asks for it: mapped from the start into zeroed client memory
/// of the buffer's size, or not mapped.
pub open spec fn is_buffer_for(
    buffer: GPUBuffer,
    device: WebGPUDevice,
    id: WebGPUBuffer,
    descriptor: GPUBufferDescriptor,
) -> bool {
    &&& buffer.id == id
    &&& buffer.device == device
    &&& buffer.size == descriptor.size
    &&& if descriptor.mapped_at_creation {
        &&& buffer.state == GPUBufferState::MappedAtCreation
        &&& buffer.map_info matches Some(info)
        &&& info.mapping@ == Seq::new(descriptor.size as usize as nat, |i: int| 0u8)
        &&& info.mapping_start == 0
        &&& info.mapping_end == descriptor.size
    } else {
        &&& buffer.state == GPUBufferState::Unmapped
        &&& buffer.map_info is None
    }
}

/// What the backend is told of a texture.
pub open spec fn texture_descriptor_of(descriptor: GPUTextureDescriptor) -> TextureDescriptor {
    TextureDescriptor {
        label: descriptor.parent.label,
        size: extent_of(extent_dict_of(descriptor.size)),
        mip_level_count: descriptor.mip_level_count,
        sample_count: descriptor.sample_count,
        dimension: texture_dimension_of(descriptor.dimension),
        format: texture_format_of(descriptor.format),
        usage: texture_usage_of(descriptor.usage),
    }
}

/// The handle of the texture `id` of `device`: it keeps what the client
/// declared, not what the backend was told.
pub open spec fn texture_for(
    device: WebGPUDevice,
    id: WebGPUTexture,
    descriptor: GPUTextureDescriptor,
) -> GPUTexture {
    GPUTexture {
        id,
        device,
        size: extent_dict_of(descriptor.size),
        mip_level_count: descriptor.mip_level_count,
        sample_count: descriptor.sample_count,
        dimension: descriptor.dimension,
        format: descriptor.format,
        usage: descriptor.usage,
    }
}

/// What the backend is told of a sampler; it is never told to clamp the
/// anisotropy.
pub open spec fn sampler_descriptor_of(descriptor: GPUSamplerDescriptor) -> SamplerDescriptor {
    SamplerDescriptor {
        label: descriptor.parent.label,
        address_mode_u: address_mode_of(descriptor.address_mode_u),
        address_mode_v: address_mode_of(descriptor.address_mode_v),
        address_mode_w: address_mode_of(descriptor.address_mode_w),
        mag_filter: filter_mode_of(descriptor.mag_filter),
        min_filter: filter_mode_of(descriptor.min_filter),
        mipmap_filter: filter_mode_of(descriptor.mipmap_filter),
        lod_min_clamp: descriptor.lod_min_clamp,
        lod_max_clamp: descriptor.lod_max_clamp,
        compare: match descriptor.compare {
            Some(compare) => Some(compare_function_of(compare)),
            None => None,
        },
        anisotropy_clamp: None,
    }
}

/// A bind group layout whose entries were not found in the cache: what is
/// needed to create it once the allocator has issued its identifier.
#[derive(Debug, PartialEq, Eq)]
pub struct PendingBindGroupLayout {
    pub entries: Vec<BindGroupLayoutEntry>,
    pub scope_id: Option<ErrorScopeId>,
    pub label: Option<String>,
}

/// What asking for a bind group layout leads to.
#[derive(Debug, PartialEq, Eq)]
pub enum BindGroupLayoutCreation {
    /// A layout with these entries exists: here is its handle, and nothing
    /// goes to the backend.
    Cached(GPUBindGroupLayout),
    /// No layout with these entries exists yet.
    Pending(PendingBindGroupLayout),
}

/// A copy of a label.
pub fn copy_label(label: &Option<String>) -> (copy: Option<String>)
    ensures
        copy == *label,
{
    match label {
        Some(text) => Some(text.clone()),
        None => None,
    }
}

/// A device: its identity, its error scopes, and the bind group layouts it
/// has created.
pub struct GPUDevice {
    device: WebGPUDevice,
    adapter: GPUAdapter,
    default_queue: GPUQueue,
    label: Option<String>,
    scope_context: ScopeContext,
    lost_promise: Option<PromiseId>,
    bind_group_layouts: LayoutCache,
    lost: bool,
}

impl View for GPUDevice {
    type V = DeviceModel;

    closed spec fn view(&self) -> DeviceModel {
        DeviceModel {
            device: self.device,
            adapter: self.adapter,
            default_queue: self.default_queue,
            label: self.label,
            scopes: self.scope_context@,
            lost_promise: self.lost_promise,
            layouts: self.bind_group_layouts@,
            lost: self.lost,
        }
    }
}

impl GPUDevice {
    /// The invariant of the device: that of its error scopes and that of its
    /// layout cache.
    pub closed spec fn wf(&self) -> bool {
        &&& self.scope_context.wf()
        &&& self.bind_group_layouts.wf()
    }

    /// What the invariant says of the device's value.
    pub proof fn lemma_wf(&self)
        requires
            self.wf(),
        ensures
            self@.scopes.wf(),
            self@.scopes.next_id <= u64::MAX,
    {
        self.scope_context.lemma_wf();
    }

    /// A device with its default queue: no label, no error scope, no cached
    /// layout, a working channel, and nobody waiting for its loss.
    pub fn new(adapter: GPUAdapter, device: WebGPUDevice, queue: WebGPUQueue) -> (created: GPUDevice)
        ensures
            created.wf(),
            created@ == (DeviceModel {
                device,
                adapter,
                default_queue: GPUQueue { id: queue },
                label: None,
                scopes: ScopeModel::empty(),
                lost_promise: None,
                layouts: Map::empty(),
                lost: false,
            }),
    {
        GPUDevice {
            device,
            adapter,
            default_queue: GPUQueue { id: queue },
            label: None,
            scope_context: ScopeContext::new(),
            lost_promise: None,
            bind_group_layouts: LayoutCache::new(),
            lost: false,
        }
    }

    /// The backend identifier of the device.
    pub fn id(&self) -> (id: WebGPUDevice)
        ensures
            id == self@.device,
    {
        self.device
    }

    /// The adapter the device was requested from.
    pub fn adapter(&self) -> (adapter: GPUAdapter)
        ensures
            adapter == self@.adapter,
    {
        self.adapter
    }

    /// The default queue of the device.
    pub fn default_queue(&self) -> (queue: GPUQueue)
        ensures
            queue == self@.default_queue,
    {
        self.default_queue
    }

    /// The label the client gave the device.
    pub fn get_label(&self) -> (label: Option<String>)
        ensures
            label == self@.label,
    {
        copy_label(&self.label)
    }

    /// Gives the device another label, or none.
    pub fn set_label(&mut self, value: Option<String>)
        ensures
            final(self)@ == (DeviceModel { label: value, ..old(self)@ }),
            final(self).wf() == old(self).wf(),
    {
        self.label = value;
    }

    /// Registers `promise` as the future to resolve when the device is
    /// lost, in place of any that was registered before, and hands it back.
    pub fn lost(&mut self, promise: PromiseId) -> (registered: PromiseId)
        ensures
            registered == promise,
            final(self)@ == (DeviceModel { lost_promise: Some(promise), ..old(self)@ }),
            final(self).wf() == old(self).wf(),
    {
        self.lost_promise = Some(promise);
        promise
    }

    /// The future that is to be resolved when the device is lost.
    pub fn lost_promise(&self) -> (promise: Option<PromiseId>)
        ensures
            promise == self@.lost_promise,
    {
        self.lost_promise
    }

    /// Whether the channel to the backend has failed.
    pub fn is_lost(&self) -> (lost: bool)
        ensures
            lost == self@.lost,
    {
        self.lost
    }

    /// Takes in that the channel did not accept a request: the device
    /// counts as lost from now on, and the operation that the request stood
    /// for, if an error scope was captured for it, completes with `error`.
    pub fn fail_transport(&mut self, scope_id: Option<ErrorScopeId>, error: GPUError) -> (outcome:
        Completion)
        requires
            old(self).wf(),
        ensures
            final(self).wf(),
            final(self)@ == (DeviceModel {
                lost: true,
                scopes: match scope_id {
                    Some(id) => old(self)@.scopes.complete(id as nat, Err(error)),
                    None => old(self)@.scopes,
                },
                ..old(self)@
            }),
            outcome == match scope_id {
                Some(id) => old(self)@.scopes.completion(id as nat, Err(error)),
                None => Completion::UnknownScope,
            },
    {
        self.lost = true;
        match scope_id {
            Some(id) => self.scope_context.complete_operation(id, Err(error)),
            None => Completion::UnknownScope,
        }
    }

    /// The error scopes of the device.
    pub fn scopes(&self) -> (scopes: &ScopeContext)
        ensures
            scopes@ == self@.scopes,
            self.wf() ==> scopes.wf(),
    {
        &self.scope_context
    }

    /// The bind group layouts that the device has created.
    pub fn layouts(&self) -> (layouts: &LayoutCache)
        ensures
            layouts@ == self@.layouts,
            self.wf() ==> layouts.wf(),
    {
        &self.bind_group_layouts
    }

    /// Takes in the backend's notice that one operation issued in `scope`
    /// has completed with `result`.
    pub fn handle_server_msg(&mut self, scope: ErrorScopeId, result: Result<(), GPUError>) -> (outcome:
        Completion)
        requires
            old(self).wf(),
        ensures
            final(self).wf(),
            final(self)@ == (DeviceModel {
                scopes: old(self)@.scopes.complete(scope as nat, result),
                ..old(self)@
            }),
            outcome == old(self)@.scopes.completion(scope as nat, result),
    {
        self.scope_context.complete_operation(scope, result)
    }

    /// The scope that an operation issued now belongs to, if any; the
    /// operation is counted as pending in it.
    pub fn use_current_scope(&mut self) -> (scope_id: Option<ErrorScopeId>)
        requires
            old(self).wf(),
            old(self)@.scopes.can_reserve(),
        ensures
            final(self).wf(),
            final(self)@ == old(self)@.issued(),
            names_scope(scope_id, old(self)@.scopes.current()),
    {
        self.scope_context.current_scope()
    }

    /// Opens an error scope on top of the others.
    pub fn push_error_scope(&mut self, filter: GPUErrorFilter)
        requires
            old(self).wf(),
            old(self)@.scopes.next_id < u64::MAX,
        ensures
            final(self).wf(),
            final(self)@ == (DeviceModel { scopes: old(self)@.scopes.push(filter), ..old(self)@ }),
    {
        let _ = self.scope_context.push(filter);
    }

    /// Closes the top scope and returns its future; with no scope active the
    /// future is rejected.
    pub fn pop_error_scope(&mut self) -> (result: Result<PopFuture, ScopeError>)
        requires
            old(self).wf(),
        ensures
            final(self).wf(),
            final(self)@ == (DeviceModel { scopes: old(self)@.scopes.pop(), ..old(self)@ }),
            match result {
                Ok(future) => {
                    &&& old(self)@.scopes.current() == Some(future.scope as nat)
                    &&& future.settlement == old(self)@.scopes.scopes[future.scope as nat].settlement()
                },
                Err(e) => old(self)@.scopes.current() is None && e == ScopeError::NoActiveScope,
            },
    {
        self.scope_context.pop()
    }

    /// Issues the creation of a buffer under the identifier `id`: the handle
    /// and the request to send.
    pub fn create_buffer(&mut self, descriptor: &GPUBufferDescriptor, id: WebGPUBuffer) -> (created: (
        GPUBuffer,
        WebGPURequest,
    ))
        requires
            old(self).wf(),
            old(self)@.scopes.can_reserve(),
        ensures
            final(self).wf(),
            final(self)@ == old(self)@.issued(),
            is_buffer_for(created.0, old(self)@.device, id, *descriptor),
            created.1 matches WebGPURequest::CreateBuffer {
                device_id,
                buffer_id,
                descriptor: told,
                scope_id,
            } && device_id == old(self)@.device && buffer_id == id && told == buffer_descriptor_of(
                *descriptor,
            ) && names_scope(scope_id, old(self)@.scopes.current()),
    {
        let wgpu_descriptor = BufferDescriptor {
            label: copy_label(&descriptor.parent.label),
            size: descriptor.size,
            usage: to_buffer_usage(descriptor.usage),
            mapped_at_creation: descriptor.mapped_at_creation,
        };
        let scope_id = self.use_current_scope();
        let request = WebGPURequest::CreateBuffer {
            device_id: self.device,
            buffer_id: id,
            descriptor: wgpu_descriptor,
            scope_id,
        };
        let map_info;
        let state;
        if descriptor.mapped_at_creation {
            let buf_data = vec![0u8; descriptor.size as usize];
            assert(buf_data@ =~= Seq::new(descriptor.size as usize as nat, |i: int| 0u8));
            map_info = Some(
                GPUBufferMapInfo {
                    mapping: buf_data,
                    mapping_start: 0,
                    mapping_end: descriptor.size,
                },
            );
            state = GPUBufferState::MappedAtCreation;
        } else {
            map_info = None;
            state = GPUBufferState::Unmapped;
        }
        let buffer = GPUBuffer { id, device: self.device, state, size: descriptor.size, map_info };
        (buffer, request)
    }

    /// Asks for a bind group layout. Where a layout with the same entries in
    /// the same order was created before, its handle comes back, the
    /// operation counts as completed with success at once, and nothing is
    /// to be sent; otherwise the creation is left pending until
    /// `finish_bind_group_layout` gets the new layout's identifier.
    pub fn create_bind_group_layout(&mut self, descriptor: &GPUBindGroupLayoutDescriptor) -> (creation:
        BindGroupLayoutCreation)
        requires
            old(self).wf(),
            old(self)@.scopes.can_reserve(),
        ensures
            final(self).wf(),
            final(self)@ == old(self)@.layout_requested(layout_entries_of(descriptor.entries@)),
            creation is Pending <==> old(self)@.creates_layout(layout_entries_of(descriptor.entries@)),
            match creation {
                BindGroupLayoutCreation::Cached(layout) => {
                    &&& old(self)@.layouts.contains_key(layout_entries_of(descriptor.entries@))
                    &&& layout == old(self)@.layouts[layout_entries_of(descriptor.entries@)]
                },
                BindGroupLayoutCreation::Pending(pending) => {
                    &&& !old(self)@.layouts.contains_key(layout_entries_of(descriptor.entries@))
                    &&& pending.entries@ == layout_entries_of(descriptor.entries@)
                    &&& names_scope(pending.scope_id, old(self)@.scopes.current())
                    &&& pending.label == descriptor.parent.label
                },
            },
    {
        let entries = convert_layout_entries(&descriptor.entries);
        let scope_id = self.use_current_scope();
        match self.bind_group_layouts.get(&entries) {
            Some(layout) => {
                if let Some(id) = scope_id {
                    let _ = self.handle_server_msg(id, Ok(()));
                }
                proof {
                    old(self).lemma_wf();
                    lemma_issue_and_succeed(old(self)@.scopes);
                }
                BindGroupLayoutCreation::Cached(layout)
            },
            None => BindGroupLayoutCreation::Pending(
                PendingBindGroupLayout {
                    entries,
                    scope_id,
                    label: copy_label(&descriptor.parent.label),
                },
            ),
        }
    }

    /// Creates the bind group layout that was left pending, under the
    /// identifier `id`, and remembers it for the entries it was created for.
    pub fn finish_bind_group_layout(
        &mut self,
        pending: PendingBindGroupLayout,
        id: WebGPUBindGroupLayout,
    ) -> (created: (GPUBindGroupLayout, WebGPURequest))
        requires
            old(self).wf(),
        ensures
            final(self).wf(),
            final(self)@ == old(self)@.layout_created(pending.entries@, id),
            created.0 == (GPUBindGroupLayout { id }),
            created.1 matches WebGPURequest::CreateBindGroupLayout {
                device_id,
                bind_group_layout_id,
                entries,
                scope_id,
                label,
            } && device_id == old(self)@.device && bind_group_layout_id == id && entries@
                == pending.entries@ && scope_id == pending.scope_id && label == pending.label,
    {
        let layout = GPUBindGroupLayout { id };
        let request = WebGPURequest::CreateBindGroupLayout {
            device_id: self.device,
            bind_group_layout_id: id,
            entries: copy_entries(&pending.entries),
            scope_id: pending.scope_id,
            label: pending.label,
        };
        self.bind_group_layouts.insert(pending.entries, layout);
        (layout, request)
    }

    /// Issues the creation of a pipeline layout under the identifier `id`:
    /// the handle and the request to send.
    pub fn create_pipeline_layout(
        &mut self,
        descriptor: &GPUPipelineLayoutDescriptor,
        id: WebGPUPipelineLayout,
    ) -> (created: (GPUPipelineLayout, WebGPURequest))
        requires
            old(self).wf(),
            old(self)@.scopes.can_reserve(),
        ensures
            final(self).wf(),
            final(self)@ == old(self)@.issued(),
            created.0 == (GPUPipelineLayout { id }),
            created.1 matches WebGPURequest::CreatePipelineLayout {
                device_id,
                pipeline_layout_id,
                bind_group_layouts,
                scope_id,
            } && device_id == old(self)@.device && pipeline_layout_id == id && bind_group_layouts@
                == descriptor.bind_group_layouts@ && names_scope(
                scope_id,
                old(self)@.scopes.current(),
            ),
    {
        let mut bgl_ids: Vec<WebGPUBindGroupLayout> = Vec::new();
        let mut i: usize = 0;
        while i < descriptor.bind_group_layouts.len()
            invariant
                i <= descriptor.bind_group_layouts.len(),
                bgl_ids@ == descriptor.bind_group_layouts@.take(i as int),
            decreases descriptor.bind_group_layouts.len() - i,
        {
            bgl_ids.push(descriptor.bind_group_layouts[i]);
            assert(descriptor.bind_group_layouts@.take(i + 1) =~= descriptor.bind_group_layouts@.take(
                i as int,
            ).push(descriptor.bind_group_layouts@[i as int]));
            i += 1;
        }
        assert(descriptor.bind_group_layouts@.take(descriptor.bind_group_layouts@.len() as int)
            =~= descriptor.bind_group_layouts@);
        let scope_id = self.use_current_scope();
        let request = WebGPURequest::CreatePipelineLayout {
            device_id: self.device,
            pipeline_layout_id: id,
            bind_group_layouts: bgl_ids,
            scope_id,
        };
        (GPUPipelineLayout { id }, request)
    }

    /// Issues the creation of a bind group under the identifier `id`: the
    /// handle and the request to send.
    pub fn create_bind_group(&mut self, descriptor: &GPUBindGroupDescriptor, id: WebGPUBindGroup) -> (created: (
        GPUBindGroup,
        WebGPURequest,
    ))
        requires
            old(self).wf(),
            old(self)@.scopes.can_reserve(),
        ensures
            final(self).wf(),
            final(self)@ == old(self)@.issued(),
            created.0 == (GPUBindGroup { id, device: old(self)@.device, layout: descriptor.layout }),
            created.1 matches WebGPURequest::CreateBindGroup {
                device_id,
                bind_group_id,
                bind_group_layout_id,
                entries,
                scope_id,
                label,
            } && device_id == old(self)@.device && bind_group_id == id && bind_group_layout_id
                == descriptor.layout && entries@ == bind_group_entries_of(descriptor.entries@)
                && names_scope(scope_id, old(self)@.scopes.current()) && label
                == descriptor.parent.label,
    {
        let entries = convert_bind_group_entries(&descriptor.entries);
        let scope_id = self.use_current_scope();
        let request = WebGPURequest::CreateBindGroup {
            device_id: self.device,
            bind_group_id: id,
            bind_group_layout_id: descriptor.layout,
            entries,
            scope_id,
            label: copy_label(&descriptor.parent.label),
        };
        (GPUBindGroup { id, device: self.device, layout: descriptor.layout }, request)
    }

    /// Issues the creation of a shader module under the identifier `id`: the
    /// handle and the request to send.
    pub fn create_shader_module(
        &mut self,
        descriptor: &GPUShaderModuleDescriptor,
        id: WebGPUShaderModule,
    ) -> (created: (GPUShaderModule, WebGPURequest))
        requires
            old(self).wf(),
            old(self)@.scopes.can_reserve(),
        ensures
            final(self).wf(),
            final(self)@ == old(self)@.issued(),
            created.0 == (GPUShaderModule { id }),
            created.1 matches WebGPURequest::CreateShaderModule {
                device_id,
                program_id,
                program,
                scope_id,
            } && device_id == old(self)@.device && program_id == id && program@ == program_of(
                descriptor.code,
            ) && names_scope(scope_id, old(self)@.scopes.current()),
    {
        let program = convert_program(&descriptor.code);
        let scope_id = self.use_current_scope();
        let request = WebGPURequest::CreateShaderModule {
            device_id: self.device,
            program_id: id,
            program,
            scope_id,
        };
        (GPUShaderModule { id }, request)
    }

    /// Issues the creation of a compute pipeline under the identifier `id`:
    /// the handle and the request to send.
    pub fn create_compute_pipeline(
        &mut self,
        descriptor: &GPUComputePipelineDescriptor,
        id: WebGPUComputePipeline,
    ) -> (created: (GPUComputePipeline, WebGPURequest))
        requires
            old(self).wf(),
            old(self)@.scopes.can_reserve(),
        ensures
            final(self).wf(),
            final(self)@ == old(self)@.issued(),
            created.0 == (GPUComputePipeline { id }),
            created.1 == (WebGPURequest::CreateComputePipeline {
                device_id: old(self)@.device,
                scope_id: created.1->CreateComputePipeline_scope_id,
                compute_pipeline_id: id,
                pipeline_layout_id: descriptor.parent.layout,
                program_id: descriptor.compute_stage.module,
                entry_point: descriptor.compute_stage.entry_point,
            }),
            names_scope(created.1->CreateComputePipeline_scope_id, old(self)@.scopes.current()),
    {
        let entry_point = descriptor.compute_stage.entry_point.clone();
        let scope_id = self.use_current_scope();
        let request = WebGPURequest::CreateComputePipeline {
            device_id: self.device,
            scope_id,
            compute_pipeline_id: id,
            pipeline_layout_id: descriptor.parent.layout,
            program_id: descriptor.compute_stage.module,
            entry_point,
        };
        (GPUComputePipeline { id }, request)
    }

    /// Issues the creation of a command encoder under the identifier `id`:
    /// the handle and the request to send.
    pub fn create_command_encoder(
        &mut self,
        descriptor: &GPUCommandEncoderDescriptor,
        id: WebGPUCommandEncoder,
    ) -> (created: (GPUCommandEncoder, WebGPURequest))
        requires
            old(self).wf(),
            old(self)@.scopes.can_reserve(),
        ensures
            final(self).wf(),
            final(self)@ == old(self)@.issued(),
            created.0 == (GPUCommandEncoder { id, device: old(self)@.device, valid: true }),
            created.1 == (WebGPURequest::CreateCommandEncoder {
                device_id: old(self)@.device,
                command_encoder_id: id,
                label: descriptor.parent.label,
                scope_id: created.1->CreateCommandEncoder_scope_id,
            }),
            names_scope(created.1->CreateCommandEncoder_scope_id, old(self)@.scopes.current()),
    {
        let scope_id = self.use_current_scope();
        let request = WebGPURequest::CreateCommandEncoder {
            device_id: self.device,
            command_encoder_id: id,
            label: copy_label(&descriptor.parent.label),
            scope_id,
        };
        (GPUCommandEncoder { id, device: self.device, valid: true }, request)
    }

    /// Issues the creation of a texture under the identifier `id`: the handle
    /// and the request to send.
    pub fn create_texture(&mut self, descriptor: &GPUTextureDescriptor, id: WebGPUTexture) -> (created: (
        GPUTexture,
        WebGPURequest,
    ))
        requires
            old(self).wf(),
            old(self)@.scopes.can_reserve(),
            has_extent(descriptor.size),
        ensures
            final(self).wf(),
            final(self)@ == old(self)@.issued(),
            created.0 == texture_for(old(self)@.device, id, *descriptor),
            created.1 == (WebGPURequest::CreateTexture {
                device_id: old(self)@.device,
                texture_id: id,
                descriptor: texture_descriptor_of(*descriptor),
                scope_id: created.1->CreateTexture_scope_id,
            }),
            names_scope(created.1->CreateTexture_scope_id, old(self)@.scopes.current()),
    {
        let size = convert_texture_size_to_dict(&descriptor.size);
        let desc = TextureDescriptor {
            label: copy_label(&descriptor.parent.label),
            size: convert_texture_size_to_wgt(&size),
            mip_level_count: descriptor.mip_level_count,
            sample_count: descriptor.sample_count,
            dimension: convert_texture_dimension(descriptor.dimension),
            format: convert_texture_format(descriptor.format),
            usage: to_texture_usage(descriptor.usage),
        };
        let scope_id = self.use_current_scope();
        let request = WebGPURequest::CreateTexture {
            device_id: self.device,
            texture_id: id,
            descriptor: desc,
            scope_id,
        };
        let texture = GPUTexture {
            id,
            device: self.device,
            size,
            mip_level_count: descriptor.mip_level_count,
            sample_count: descriptor.sample_count,
            dimension: descriptor.dimension,
            format: descriptor.format,
            usage: descriptor.usage,
        };
        (texture, request)
    }

    /// Issues the creation of a sampler under the identifier `id`: the handle
    /// and the request to send.
    pub fn create_sampler(&mut self, descriptor: &GPUSamplerDescriptor, id: WebGPUSampler) -> (created: (
        GPUSampler,
        WebGPURequest,
    ))
        requires
            old(self).wf(),
            old(self)@.scopes.can_reserve(),
        ensures
            final(self).wf(),
            final(self)@ == old(self)@.issued(),
            created.0 == (GPUSampler {
                id,
                device: old(self)@.device,
                compare_enable: descriptor.compare is Some,
            }),
            created.1 == (WebGPURequest::CreateSampler {
                device_id: old(self)@.device,
                sampler_id: id,
                descriptor: sampler_descriptor_of(*descriptor),
                scope_id: created.1->CreateSampler_scope_id,
            }),
            names_scope(created.1->CreateSampler_scope_id, old(self)@.scopes.current()),
    {
        let compare_enable = descriptor.compare.is_some();
        let desc = SamplerDescriptor {
            label: copy_label(&descriptor.parent.label),
            address_mode_u: convert_address_mode(descriptor.address_mode_u),
            address_mode_v: convert_address_mode(descriptor.address_mode_v),
            address_mode_w: convert_address_mode(descriptor.address_mode_w),
            mag_filter: convert_filter_mode(descriptor.mag_filter),
            min_filter: convert_filter_mode(descriptor.min_filter),
            mipmap_filter: convert_filter_mode(descriptor.mipmap_filter),
            lod_min_clamp: descriptor.lod_min_clamp,
            lod_max_clamp: descriptor.lod_max_clamp,
            compare: match descriptor.compare {
                Some(compare) => Some(convert_compare_function(compare)),
                None => None,
            },
            anisotropy_clamp: None,
        };
        let scope_id = self.use_current_scope();
        let request = WebGPURequest::CreateSampler {
            device_id: self.device,
            sampler_id: id,
            descriptor: desc,
            scope_id,
        };
        (GPUSampler { id, device: self.device, compare_enable }, request)
    }

    /// Issues the creation of a render pipeline under the identifier `id`:
    /// the handle and the request to send. Of the color states the first
    /// four are sent.
    pub fn create_render_pipeline(
        &mut self,
        descriptor: &GPURenderPipelineDescriptor,
        id: WebGPURenderPipeline,
    ) -> (created: (GPURenderPipeline, WebGPURequest))
        requires
            old(self).wf(),
            old(self)@.scopes.can_reserve(),
        ensures
            final(self).wf(),
            final(self)@ == old(self)@.issued(),
            created.0 == (GPURenderPipeline { id, device: old(self)@.device }),
            is_render_pipeline_request(created.1, old(self)@.device, id, *descriptor),
            created.1 matches WebGPURequest::CreateRenderPipeline { scope_id, .. } && names_scope(
                scope_id,
                old(self)@.scopes.current(),
            ),
    {
        let vertex_module = descriptor.vertex_stage.module;
        let vertex_entry_point = descriptor.vertex_stage.entry_point.clone();
        let (fragment_module, fragment_entry_point) = match &descriptor.fragment_stage {
            Some(frag) => (Some(frag.module), Some(frag.entry_point.clone())),
            None => (None, None),
        };
        let primitive_topology = convert_primitive_topology(descriptor.primitive_topology);
        let rasterization_state = convert_rasterization_state(&descriptor.rasterization_state);
        let color_states = convert_color_states(&descriptor.color_states);
        let depth_stencil_state = match &descriptor.depth_stencil_state {
            Some(dss_desc) => Some(convert_depth_stencil_state(dss_desc)),
            None => None,
        };
        let vertex_state = VertexStateDescriptor {
            index_format: convert_index_format(descriptor.vertex_state.index_format),
            vertex_buffers: convert_vertex_buffers(&descriptor.vertex_state.vertex_buffers),
        };
        let scope_id = self.use_current_scope();
        let request = WebGPURequest::CreateRenderPipeline {
            device_id: self.device,
            render_pipeline_id: id,
            scope_id,
            pipeline_layout_id: descriptor.parent.layout,
            vertex_module,
            vertex_entry_point,
            fragment_module,
            fragment_entry_point,
            primitive_topology,
            rasterization_state,
            color_states,
            depth_stencil_state,
            vertex_state,
            sample_count: descriptor.sample_count,
            sample_mask: descriptor.sample_mask,
            alpha_to_coverage_enabled: descriptor.alpha_to_coverage_enabled,
        };
        (GPURenderPipeline { id, device: self.device }, request)
    }
}

/// Whether `request` asks the backend for the render pipeline `id` of
/// `device` as `descriptor` describes it, whatever error scope it names.
pub open spec fn is_render_pipeline_request(
    request: WebGPURequest,
    device: WebGPUDevice,
    id: WebGPURenderPipeline,
    descriptor: GPURenderPipelineDescriptor,
) -> bool {
    &&& request matches WebGPURequest::CreateRenderPipeline {
        device_id,
        render_pipeline_id,
        scope_id,
        pipeline_layout_id,
        vertex_module,
        vertex_entry_point,
        fragment_module,
        fragment_entry_point,
        primitive_topology,
        rasterization_state,
        color_states,
        depth_stencil_state,
        vertex_state,
        sample_count,
        sample_mask,
        alpha_to_coverage_enabled,
    }
    &&& device_id == device
    &&& render_pipeline_id == id
    &&& pipeline_layout_id == descriptor.parent.layout
    &&& vertex_module == descriptor.vertex_stage.module
    &&& vertex_entry_point == descriptor.vertex_stage.entry_point
    &&& match descriptor.fragment_stage {
        Some(stage) => fragment_module == Some(stage.module) && fragment_entry_point == Some(
            stage.entry_point,
        ),
        None => fragment_module is None && fragment_entry_point is None,
    }
    &&& primitive_topology == primitive_topology_of(descriptor.primitive_topology)
    &&& rasterization_state == rasterization_state_of(descriptor.rasterization_state)
    &&& color_states_in(color_states) == color_states_of(descriptor.color_states@)
    &&& match descriptor.depth_stencil_state {
        Some(state) => depth_stencil_state == Some(depth_stencil_state_of(state)),
        None => depth_stencil_state is None,
    }
    &&& vertex_state.index_format == index_format_of(descriptor.vertex_state.index_format)
    &&& are_vertex_buffers_of(
        vertex_state.vertex_buffers@,
        descriptor.vertex_state.vertex_buffers@,
    )
    &&& sample_count == descriptor.sample_count
    &&& sample_mask == descriptor.sample_mask
    &&& alpha_to_coverage_enabled == descriptor.alpha_to_coverage_enabled
}

/// Issuing an operation while a scope is active reserves that scope: one
/// more operation is pending in it, and nothing else changes.
pub proof fn lemma_issue_reserves_current_scope(m: DeviceModel)
    requires
        m.scopes.wf(),
        m.scopes.stack.len() > 0,
    ensures
        ({
            let top = m.scopes.stack.last();
            let after = m.issued();
            &&& m.scopes.current() == Some(top)
            &&& after.scopes.scopes.contains_key(top)
            &&& after.scopes.scopes[top].pending == m.scopes.scopes[top].pending + 1
            &&& after.scopes.scopes[top].error == m.scopes.scopes[top].error
            &&& after.scopes.scopes[top].promise is None
            &&& after.scopes.stack == m.scopes.stack
            &&& after.scopes.next_id == m.scopes.next_id
            &&& forall|id: nat|
                id != top ==> (after.scopes.scopes.contains_key(id) <==> m.scopes.scopes.contains_key(
                    id,
                )) && (m.scopes.scopes.contains_key(id) ==> after.scopes.scopes[id]
                    == m.scopes.scopes[id])
            &&& after == (DeviceModel { scopes: after.scopes, ..m })
        }),
{
    let top = m.scopes.stack.last();
    assert(m.scopes.scopes.contains_key(top));
    assert(m.scopes.stack.contains(top));
    assert(m.scopes.scopes[top].consistent(true));
}

/// Issuing an operation with no scope active changes nothing.
pub proof fn lemma_issue_outside_any_scope(m: DeviceModel)
    requires
        m.scopes.stack.len() == 0,
    ensures
        m.scopes.current() is None,
        m.issued() == m,
{
}

/// What asking for a bind group layout comes to, for any device and any
/// list of entries. Where the list is cached, no request is due and the
/// device, its cache included, stays as it is. Where it is not, one request
/// is due, and once the layout is created under `id` the cache is the old
/// one with the new handle under the list; that handle differs from every
/// cached one as far as `id` differs from their identifiers.
pub proof fn lemma_layout_request(
    m: DeviceModel,
    entries: Seq<BindGroupLayoutEntry>,
    id: WebGPUBindGroupLayout,
)
    ensures
        m.layouts.contains_key(entries) ==> !m.creates_layout(entries) && m.layout_requested(entries)
            == m,
        !m.layouts.contains_key(entries) ==> ({
            let after = m.layout_requested(entries).layout_created(entries, id);
            &&& m.creates_layout(entries)
            &&& after.layouts == m.layouts.insert(entries, GPUBindGroupLayout { id })
            &&& after.layouts[entries] == GPUBindGroupLayout { id }
            &&& forall|other: Seq<BindGroupLayoutEntry>| #[trigger]
                m.layouts.contains_key(other) ==> after.layouts[other] == m.layouts[other]
            &&& (forall|other: Seq<BindGroupLayoutEntry>| #[trigger]
                m.layouts.contains_key(other) ==> m.layouts[other].id != id) ==> (forall|
                other: Seq<BindGroupLayoutEntry>,
            | #[trigger]
                m.layouts.contains_key(other) ==> after.layouts[entries] != m.layouts[other])
        }),
{
}

/// A bind group layout is created once for each list of entries: asking
/// again with the same entries in the same order gives the handle of the
/// first creation, leads to no further request and leaves the device as it
/// is, while a list that differs leads to a creation of its own, whose
/// handle differs from the first as far as the identifiers do.
pub proof fn lemma_layout_created_once(
    m: DeviceModel,
    entries: Seq<BindGroupLayoutEntry>,
    id: WebGPUBindGroupLayout,
    other: Seq<BindGroupLayoutEntry>,
    other_id: WebGPUBindGroupLayout,
)
    requires
        m.creates_layout(entries),
    ensures
        ({
            let first = m.layout_requested(entries).layout_created(entries, id);
            let second = first.layout_requested(other).layout_created(other, other_id);
            &&& !first.creates_layout(entries)
            &&& first.layouts[entries] == GPUBindGroupLayout { id }
            &&& first.layout_requested(entries) == first
            &&& other != entries ==> first.creates_layout(other) == m.creates_layout(other)
            &&& other != entries ==> second.layouts[entries] == GPUBindGroupLayout { id }
            &&& second.layouts[other] == GPUBindGroupLayout { id: other_id }
            &&& other_id != id ==> second.layouts[other] != first.layouts[entries]
        }),
{
}

/// Two lists of entries are the same only if they are equally long and
/// agree at every place: a list in another order, or with one entry that
/// differs in one field, is another list.
pub proof fn lemma_entries_differ(
    entries: Seq<BindGroupLayoutEntry>,
    other: Seq<BindGroupLayoutEntry>,
    i: int,
)
    requires
        0 <= i < entries.len(),
        other.len() != entries.len() || other[i] != entries[i],
    ensures
        other != entries,
{
}

/// An operation that is issued and at once completes with success leaves
/// the error scopes as they were.
pub proof fn lemma_issue_and_succeed(m: ScopeModel)
    requires
        m.wf(),
    ensures
        m.current() is None ==> m.reserve() == m,
        m.current() matches Some(id) ==> m.reserve().complete(id, Ok(())) == m,
{
    if m.stack.len() > 0 {
        let id = m.stack.last();
        assert(m.scopes.contains_key(id));
        assert(m.stack.contains(id));
        assert(m.scopes[id].consistent(true));
        let after = m.reserve().complete(id, Ok(()));
        assert(after.scopes =~= m.scopes);
    }
}

} // verus!

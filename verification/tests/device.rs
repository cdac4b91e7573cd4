use gpu_device::backend::{
    AddressMode, BindGroupLayoutEntry, BindingType, BufferBinding, BufferDescriptor,
    CompareFunction, CullMode, DepthStencilStateDescriptor, Extent3d, FilterMode, FrontFace,
    IndexFormat, InputStepMode, PrimitiveTopology, RasterizationStateDescriptor,
    SamplerDescriptor, StencilOperation, StencilStateFaceDescriptor, TextureDescriptor,
    TextureDimension, TextureFormat, VertexFormat, WebGPUBindings, WebGPURequest,
};
use gpu_device::bindings::{
    GPUAddressMode, GPUBindGroupDescriptor, GPUBindGroupEntry, GPUBindGroupLayoutDescriptor,
    GPUBindGroupLayoutEntry, GPUBindingResource, GPUBindingType, GPUBlendDescriptor,
    GPUBlendFactor, GPUBlendOperation, GPUBufferBindings, GPUBufferDescriptor,
    GPUColorStateDescriptor, GPUCommandEncoderDescriptor, GPUCompareFunction,
    GPUComputePipelineDescriptor, GPUCullMode, GPUDepthStencilStateDescriptor, GPUExtent3D,
    GPUExtent3DDict, GPUFilterMode, GPUFrontFace, GPUIndexFormat, GPUInputStepMode,
    GPUObjectDescriptorBase, GPUPipelineDescriptorBase, GPUPipelineLayoutDescriptor,
    GPUPrimitiveTopology, GPUProgrammableStageDescriptor, GPURasterizationStateDescriptor,
    GPURenderPipelineDescriptor, GPUSamplerDescriptor, GPUShaderModuleDescriptor,
    GPUStencilOperation, GPUStencilStateFaceDescriptor, GPUTextureDescriptor,
    GPUTextureDimension, GPUTextureFormat, GPUVertexAttributeDescriptor,
    GPUVertexBufferLayoutDescriptor, GPUVertexFormat, GPUVertexStateDescriptor,
    Uint32ArrayOrString,
};
use gpu_device::device::{BindGroupLayoutCreation, GPUDevice, PendingBindGroupLayout};
use gpu_device::error_scope::{
    Completion, GPUError, GPUErrorFilter, PopFuture, ScopeError, Settlement,
};
use gpu_device::resources::{
    GPUAdapter, GPUBindGroup, GPUBindGroupLayout, GPUBufferMapInfo, GPUBufferState,
    GPUCommandEncoder, GPUComputePipeline, GPUPipelineLayout, GPUQueue, GPURenderPipeline,
    GPUSampler, GPUShaderModule, GPUTexture, PromiseId, WebGPUAdapter, WebGPUBindGroup,
    WebGPUBindGroupLayout, WebGPUBuffer, WebGPUCommandEncoder, WebGPUComputePipeline,
    WebGPUDevice, WebGPUPipelineLayout, WebGPUQueue, WebGPURenderPipeline, WebGPUSampler,
    WebGPUShaderModule, WebGPUTexture, WebGPUTextureView,
};

const DEVICE: WebGPUDevice = WebGPUDevice(100);

fn device() -> GPUDevice {
    GPUDevice::new(GPUAdapter { id: WebGPUAdapter(1) }, DEVICE, WebGPUQueue(2))
}

fn labelled(label: &str) -> GPUObjectDescriptorBase {
    GPUObjectDescriptorBase { label: Some(label.to_string()) }
}

fn unlabelled() -> GPUObjectDescriptorBase {
    GPUObjectDescriptorBase { label: None }
}

fn buffer_descriptor(size: u64, usage: u32, mapped_at_creation: bool) -> GPUBufferDescriptor {
    GPUBufferDescriptor { parent: labelled("buffer"), size, usage, mapped_at_creation }
}

fn texture_descriptor(size: GPUExtent3D) -> GPUTextureDescriptor {
    GPUTextureDescriptor {
        parent: labelled("texture"),
        size,
        mip_level_count: 3,
        sample_count: 4,
        dimension: GPUTextureDimension::D3,
        format: GPUTextureFormat::Rgba8unormSrgb,
        usage: 0x6,
    }
}

fn layout_entry(binding: u32, type_: GPUBindingType) -> GPUBindGroupLayoutEntry {
    GPUBindGroupLayoutEntry {
        binding,
        visibility: 3,
        type_,
        has_dynamic_offset: false,
        min_buffer_binding_size: 16,
        view_dimension: None,
        texture_component_type: None,
        multisampled: false,
        storage_texture_format: None,
    }
}

fn layout_descriptor(entries: Vec<GPUBindGroupLayoutEntry>) -> GPUBindGroupLayoutDescriptor {
    GPUBindGroupLayoutDescriptor { parent: labelled("layout"), entries }
}

fn create_layout(
    device: &mut GPUDevice,
    descriptor: &GPUBindGroupLayoutDescriptor,
    id: u64,
) -> (GPUBindGroupLayout, Option<WebGPURequest>) {
    match device.create_bind_group_layout(descriptor) {
        BindGroupLayoutCreation::Cached(layout) => (layout, None),
        BindGroupLayoutCreation::Pending(pending) => {
            let (layout, request) =
                device.finish_bind_group_layout(pending, WebGPUBindGroupLayout(id));
            (layout, Some(request))
        },
    }
}

fn stage(module: u64, entry_point: &str) -> GPUProgrammableStageDescriptor {
    GPUProgrammableStageDescriptor {
        module: WebGPUShaderModule(module),
        entry_point: entry_point.to_string(),
    }
}

fn blend() -> GPUBlendDescriptor {
    GPUBlendDescriptor {
        src_factor: GPUBlendFactor::One,
        dst_factor: GPUBlendFactor::Zero,
        operation: GPUBlendOperation::Add,
    }
}

fn stencil_face() -> GPUStencilStateFaceDescriptor {
    GPUStencilStateFaceDescriptor {
        compare: GPUCompareFunction::Always,
        fail_op: GPUStencilOperation::Keep,
        depth_fail_op: GPUStencilOperation::Zero,
        pass_op: GPUStencilOperation::Replace,
    }
}

fn render_pipeline_descriptor() -> GPURenderPipelineDescriptor {
    GPURenderPipelineDescriptor {
        parent: GPUPipelineDescriptorBase {
            parent: labelled("pipeline"),
            layout: WebGPUPipelineLayout(40),
        },
        vertex_stage: stage(41, "vs_main"),
        fragment_stage: Some(stage(42, "fs_main")),
        primitive_topology: GPUPrimitiveTopology::LineStrip,
        rasterization_state: GPURasterizationStateDescriptor {
            front_face: GPUFrontFace::Cw,
            cull_mode: GPUCullMode::Back,
            depth_bias: -2,
            depth_bias_slope_scale: 1.5f32.to_bits(),
            depth_bias_clamp: 0.25f32.to_bits(),
        },
        color_states: vec![
            GPUColorStateDescriptor {
                format: GPUTextureFormat::Bgra8unorm,
                alpha_blend: blend(),
                color_blend: blend(),
                write_mask: 0xf,
            },
            GPUColorStateDescriptor {
                format: GPUTextureFormat::Rgba16float,
                alpha_blend: blend(),
                color_blend: blend(),
                write_mask: 0x30,
            },
        ],
        depth_stencil_state: Some(GPUDepthStencilStateDescriptor {
            format: GPUTextureFormat::Depth24plusStencil8,
            depth_write_enabled: true,
            depth_compare: GPUCompareFunction::LessEqual,
            stencil_front: stencil_face(),
            stencil_back: stencil_face(),
            stencil_read_mask: 0xff,
            stencil_write_mask: 0x0f,
        }),
        vertex_state: GPUVertexStateDescriptor {
            index_format: GPUIndexFormat::Uint32,
            vertex_buffers: vec![GPUVertexBufferLayoutDescriptor {
                array_stride: 24,
                step_mode: GPUInputStepMode::Vertex,
                attributes: vec![GPUVertexAttributeDescriptor {
                    format: GPUVertexFormat::Float2,
                    offset: 8,
                    shader_location: 1,
                }],
            }],
        },
        sample_count: 4,
        sample_mask: 0xffff_ffff,
        alpha_to_coverage_enabled: true,
    }
}

#[test]
fn new_device_is_empty() {
    let device = device();
    assert_eq!(device.id(), DEVICE);
    assert_eq!(device.adapter(), GPUAdapter { id: WebGPUAdapter(1) });
    assert_eq!(device.default_queue(), GPUQueue { id: WebGPUQueue(2) });
    assert_eq!(device.get_label(), None);
    assert_eq!(device.lost_promise(), None);
    assert_eq!(device.scopes().depth(), 0);
    assert_eq!(device.layouts().len(), 0);
}

#[test]
fn label_is_kept() {
    let mut device = device();
    device.set_label(Some("main".to_string()));
    assert_eq!(device.get_label(), Some("main".to_string()));
    assert_eq!(device.get_label(), Some("main".to_string()));
    device.set_label(None);
    assert_eq!(device.get_label(), None);
    assert_eq!(device.id(), DEVICE);
}

#[test]
fn lost_keeps_the_latest_promise() {
    let mut device = device();
    assert_eq!(device.lost(PromiseId(5)), PromiseId(5));
    assert_eq!(device.lost_promise(), Some(PromiseId(5)));
    assert_eq!(device.lost(PromiseId(6)), PromiseId(6));
    assert_eq!(device.lost_promise(), Some(PromiseId(6)));
}

#[test]
fn validation_scope_reports_out_of_memory() {
    let mut device = device();
    device.push_error_scope(GPUErrorFilter::Validation);
    let (_, request) = device.create_buffer(&buffer_descriptor(16, 1, false), WebGPUBuffer(7));
    let scope = match request {
        WebGPURequest::CreateBuffer { scope_id: Some(scope), .. } => scope,
        other => panic!("no scope in {:?}", other),
    };
    assert_eq!(device.scopes().pending_operations(scope), Some(1));
    assert_eq!(
        device.handle_server_msg(scope, Err(GPUError::OutOfMemory)),
        Completion::Counted
    );
    assert_eq!(device.scopes().recorded_error(scope), Some(GPUError::OutOfMemory));
    assert_eq!(
        device.pop_error_scope(),
        Ok(PopFuture { scope, settlement: Settlement::Resolved(Some(GPUError::OutOfMemory)) })
    );
    assert!(!device.scopes().is_known(scope));
}

#[test]
fn out_of_memory_scope_popped_at_once_reports_no_error() {
    let mut device = device();
    device.push_error_scope(GPUErrorFilter::OutOfMemory);
    assert_eq!(
        device.pop_error_scope(),
        Ok(PopFuture { scope: 0, settlement: Settlement::Resolved(None) })
    );
    assert_eq!(device.pop_error_scope(), Err(ScopeError::NoActiveScope));
}

#[test]
fn texture_outside_any_scope_is_not_followed() {
    let mut device = device();
    let size = GPUExtent3D::GPUExtent3DDict(GPUExtent3DDict { width: 1, height: 1, depth: 1 });
    let (_, request) = device.create_texture(&texture_descriptor(size), WebGPUTexture(3));
    match request {
        WebGPURequest::CreateTexture { scope_id, .. } => assert_eq!(scope_id, None),
        other => panic!("unexpected {:?}", other),
    }
    assert_eq!(device.scopes().depth(), 0);
    assert!(!device.scopes().is_known(0));
    assert_eq!(device.handle_server_msg(0, Err(GPUError::OutOfMemory)), Completion::UnknownScope);
}

#[test]
fn use_current_scope_counts_in_the_top_scope() {
    let mut device = device();
    assert_eq!(device.use_current_scope(), None);
    device.push_error_scope(GPUErrorFilter::Validation);
    device.push_error_scope(GPUErrorFilter::OutOfMemory);
    assert_eq!(device.use_current_scope(), Some(1));
    assert_eq!(device.scopes().pending_operations(1), Some(1));
    assert_eq!(device.scopes().pending_operations(0), Some(0));
    assert!(device.scopes().can_reserve());
    assert!(device.scopes().can_push());
}

#[test]
fn pop_future_is_resolved_by_the_last_completion() {
    let mut device = device();
    device.push_error_scope(GPUErrorFilter::Validation);
    device.create_shader_module(
        &GPUShaderModuleDescriptor {
            parent: unlabelled(),
            code: Uint32ArrayOrString::Uint32Array(vec![1]),
        },
        WebGPUShaderModule(1),
    );
    device.create_command_encoder(
        &GPUCommandEncoderDescriptor { parent: unlabelled() },
        WebGPUCommandEncoder(2),
    );
    assert_eq!(
        device.pop_error_scope(),
        Ok(PopFuture { scope: 0, settlement: Settlement::Pending })
    );
    assert_eq!(device.handle_server_msg(0, Ok(())), Completion::Counted);
    assert_eq!(device.handle_server_msg(0, Ok(())), Completion::Resolved(None));
    assert_eq!(device.handle_server_msg(0, Ok(())), Completion::UnknownScope);
}

#[test]
fn buffer_request_and_handle() {
    let mut device = device();
    let (buffer, request) =
        device.create_buffer(&buffer_descriptor(1024, 0x28, false), WebGPUBuffer(7));
    assert_eq!(buffer.id, WebGPUBuffer(7));
    assert_eq!(buffer.device, DEVICE);
    assert_eq!(buffer.state, GPUBufferState::Unmapped);
    assert_eq!(buffer.size, 1024);
    assert_eq!(buffer.map_info, None);
    assert_eq!(
        request,
        WebGPURequest::CreateBuffer {
            device_id: DEVICE,
            buffer_id: WebGPUBuffer(7),
            descriptor: BufferDescriptor {
                label: Some("buffer".to_string()),
                size: 1024,
                usage: 0x28,
                mapped_at_creation: false,
            },
            scope_id: None,
        }
    );
}

#[test]
fn buffer_with_unknown_usage_has_no_usage() {
    let mut device = device();
    let (_, request) = device.create_buffer(&buffer_descriptor(8, 0x400, false), WebGPUBuffer(1));
    match request {
        WebGPURequest::CreateBuffer { descriptor, .. } => assert_eq!(descriptor.usage, 0),
        other => panic!("unexpected {:?}", other),
    }
}

#[test]
fn buffer_mapped_at_creation_is_zeroed() {
    let mut device = device();
    let (buffer, request) = device.create_buffer(&buffer_descriptor(6, 2, true), WebGPUBuffer(8));
    assert_eq!(buffer.state, GPUBufferState::MappedAtCreation);
    assert_eq!(
        buffer.map_info,
        Some(GPUBufferMapInfo { mapping: vec![0u8; 6], mapping_start: 0, mapping_end: 6 })
    );
    match request {
        WebGPURequest::CreateBuffer { descriptor, .. } => assert!(descriptor.mapped_at_creation),
        other => panic!("unexpected {:?}", other),
    }
    let (empty, _) = device.create_buffer(&buffer_descriptor(0, 2, true), WebGPUBuffer(9));
    assert_eq!(
        empty.map_info,
        Some(GPUBufferMapInfo { mapping: vec![], mapping_start: 0, mapping_end: 0 })
    );
}

#[test]
fn every_creation_counts_in_the_current_scope() {
    let mut device = device();
    device.push_error_scope(GPUErrorFilter::Validation);
    device.create_buffer(&buffer_descriptor(4, 1, false), WebGPUBuffer(1));
    let size = GPUExtent3D::RangeEnforcedUnsignedLongSequence(vec![1, 2, 3]);
    device.create_texture(&texture_descriptor(size), WebGPUTexture(2));
    device.create_render_pipeline(&render_pipeline_descriptor(), WebGPURenderPipeline(3));
    device.create_pipeline_layout(
        &GPUPipelineLayoutDescriptor { parent: unlabelled(), bind_group_layouts: vec![] },
        WebGPUPipelineLayout(4),
    );
    assert_eq!(device.scopes().pending_operations(0), Some(4));
}

#[test]
fn bind_group_layout_is_created_once() {
    let mut device = device();
    let descriptor = layout_descriptor(vec![
        layout_entry(0, GPUBindingType::UniformBuffer),
        layout_entry(1, GPUBindingType::Sampler),
    ]);
    let (first, request) = create_layout(&mut device, &descriptor, 50);
    assert_eq!(first, GPUBindGroupLayout { id: WebGPUBindGroupLayout(50) });
    assert_eq!(
        request,
        Some(WebGPURequest::CreateBindGroupLayout {
            device_id: DEVICE,
            bind_group_layout_id: WebGPUBindGroupLayout(50),
            entries: vec![
                BindGroupLayoutEntry {
                    binding: 0,
                    visibility: 3,
                    ty: BindingType::UniformBuffer { dynamic: false, min_binding_size: Some(16) },
                },
                BindGroupLayoutEntry {
                    binding: 1,
                    visibility: 3,
                    ty: BindingType::Sampler { comparison: false },
                },
            ],
            scope_id: None,
            label: Some("layout".to_string()),
        })
    );
    let (second, request) = create_layout(&mut device, &descriptor, 51);
    assert_eq!(second, first);
    assert_eq!(request, None);
    assert_eq!(device.layouts().len(), 1);
}

#[test]
fn bind_group_layout_in_another_order_is_another_layout() {
    let mut device = device();
    let a = layout_entry(0, GPUBindingType::UniformBuffer);
    let b = layout_entry(1, GPUBindingType::Sampler);
    let (first, sent_first) = create_layout(&mut device, &layout_descriptor(vec![a, b]), 50);
    let (second, sent_second) = create_layout(&mut device, &layout_descriptor(vec![b, a]), 51);
    assert!(sent_first.is_some());
    assert!(sent_second.is_some());
    assert_ne!(first, second);
    assert_eq!(second, GPUBindGroupLayout { id: WebGPUBindGroupLayout(51) });
    assert_eq!(device.layouts().len(), 2);
    let (again, sent_again) = create_layout(&mut device, &layout_descriptor(vec![a, b]), 52);
    assert_eq!(again, first);
    assert!(sent_again.is_none());
}

#[test]
fn bind_group_layout_with_one_other_field_is_another_layout() {
    let mut device = device();
    let a = layout_entry(0, GPUBindingType::UniformBuffer);
    let mut changed = a;
    changed.min_buffer_binding_size = 32;
    let (first, _) = create_layout(&mut device, &layout_descriptor(vec![a]), 50);
    let (second, sent) = create_layout(&mut device, &layout_descriptor(vec![changed]), 51);
    assert!(sent.is_some());
    assert_ne!(first, second);
    let (shorter, sent) = create_layout(&mut device, &layout_descriptor(vec![]), 52);
    assert!(sent.is_some());
    assert_eq!(shorter.id, WebGPUBindGroupLayout(52));
}

#[test]
fn read_only_and_write_only_storage_textures_are_two_layouts() {
    let mut device = device();
    let mut a = layout_entry(0, GPUBindingType::ReadonlyStorageTexture);
    a.visibility = 4;
    let mut b = a;
    b.type_ = GPUBindingType::WriteonlyStorageTexture;
    let (first, sent_first) = create_layout(&mut device, &layout_descriptor(vec![a]), 50);
    let (second, sent_second) = create_layout(&mut device, &layout_descriptor(vec![b]), 51);
    assert_ne!(first.id, second.id);
    assert_eq!(second, GPUBindGroupLayout { id: WebGPUBindGroupLayout(51) });
    let readonly_of = |request: Option<WebGPURequest>| match request {
        Some(WebGPURequest::CreateBindGroupLayout { entries, .. }) => match entries[0].ty {
            BindingType::StorageTexture { readonly, .. } => readonly,
            other => panic!("unexpected {:?}", other),
        },
        other => panic!("unexpected {:?}", other),
    };
    assert!(readonly_of(sent_first));
    assert!(!readonly_of(sent_second));
    assert_eq!(device.layouts().len(), 2);
}

#[test]
fn bind_group_layouts_that_the_backend_sees_alike_are_one_layout() {
    let mut device = device();
    let a = layout_entry(0, GPUBindingType::Sampler);
    let mut same_to_the_backend = a;
    same_to_the_backend.min_buffer_binding_size = 99;
    let (first, _) = create_layout(&mut device, &layout_descriptor(vec![a]), 50);
    let (second, sent) =
        create_layout(&mut device, &layout_descriptor(vec![same_to_the_backend]), 51);
    assert_eq!(second, first);
    assert!(sent.is_none());
}

#[test]
fn cached_bind_group_layout_completes_at_once() {
    let mut device = device();
    let descriptor = layout_descriptor(vec![layout_entry(0, GPUBindingType::Sampler)]);
    device.push_error_scope(GPUErrorFilter::Validation);
    let pending = match device.create_bind_group_layout(&descriptor) {
        BindGroupLayoutCreation::Pending(pending) => pending,
        other => panic!("unexpected {:?}", other),
    };
    assert_eq!(pending.scope_id, Some(0));
    assert_eq!(pending.label, Some("layout".to_string()));
    assert_eq!(device.scopes().pending_operations(0), Some(1));
    let (layout, request) = device.finish_bind_group_layout(pending, WebGPUBindGroupLayout(9));
    match request {
        WebGPURequest::CreateBindGroupLayout { scope_id, .. } => assert_eq!(scope_id, Some(0)),
        other => panic!("unexpected {:?}", other),
    }
    assert_eq!(
        device.create_bind_group_layout(&descriptor),
        BindGroupLayoutCreation::Cached(layout)
    );
    assert_eq!(device.scopes().pending_operations(0), Some(1));
    assert_eq!(device.handle_server_msg(0, Ok(())), Completion::Counted);
    assert_eq!(
        device.pop_error_scope(),
        Ok(PopFuture { scope: 0, settlement: Settlement::Resolved(None) })
    );
}

#[test]
fn finishing_twice_keeps_the_later_layout() {
    let mut device = device();
    let entries = vec![BindGroupLayoutEntry {
        binding: 0,
        visibility: 1,
        ty: BindingType::Sampler { comparison: true },
    }];
    let pending = |entries: &Vec<BindGroupLayoutEntry>| PendingBindGroupLayout {
        entries: entries.clone(),
        scope_id: None,
        label: None,
    };
    device.finish_bind_group_layout(pending(&entries), WebGPUBindGroupLayout(1));
    device.finish_bind_group_layout(pending(&entries), WebGPUBindGroupLayout(2));
    assert_eq!(device.layouts().len(), 1);
    assert_eq!(
        device.layouts().get(&entries),
        Some(GPUBindGroupLayout { id: WebGPUBindGroupLayout(2) })
    );
    assert_eq!(device.layouts().get(&vec![]), None);
}

#[test]
fn pipeline_layout_request() {
    let mut device = device();
    device.push_error_scope(GPUErrorFilter::Validation);
    let descriptor = GPUPipelineLayoutDescriptor {
        parent: unlabelled(),
        bind_group_layouts: vec![WebGPUBindGroupLayout(5), WebGPUBindGroupLayout(3)],
    };
    let (layout, request) = device.create_pipeline_layout(&descriptor, WebGPUPipelineLayout(20));
    assert_eq!(layout, GPUPipelineLayout { id: WebGPUPipelineLayout(20) });
    assert_eq!(
        request,
        WebGPURequest::CreatePipelineLayout {
            device_id: DEVICE,
            pipeline_layout_id: WebGPUPipelineLayout(20),
            bind_group_layouts: vec![WebGPUBindGroupLayout(5), WebGPUBindGroupLayout(3)],
            scope_id: Some(0),
        }
    );
}

#[test]
fn bind_group_request() {
    let mut device = device();
    let descriptor = GPUBindGroupDescriptor {
        parent: labelled("group"),
        layout: WebGPUBindGroupLayout(5),
        entries: vec![
            GPUBindGroupEntry {
                binding: 2,
                resource: GPUBindingResource::GPUBufferBindings(GPUBufferBindings {
                    buffer: WebGPUBuffer(6),
                    offset: 64,
                    size: Some(0),
                }),
            },
            GPUBindGroupEntry {
                binding: 0,
                resource: GPUBindingResource::GPUTextureView(WebGPUTextureView(7)),
            },
        ],
    };
    let (group, request) = device.create_bind_group(&descriptor, WebGPUBindGroup(30));
    assert_eq!(
        group,
        GPUBindGroup { id: WebGPUBindGroup(30), device: DEVICE, layout: WebGPUBindGroupLayout(5) }
    );
    assert_eq!(
        request,
        WebGPURequest::CreateBindGroup {
            device_id: DEVICE,
            bind_group_id: WebGPUBindGroup(30),
            bind_group_layout_id: WebGPUBindGroupLayout(5),
            entries: vec![
                (
                    2,
                    WebGPUBindings::Buffer(BufferBinding {
                        buffer_id: WebGPUBuffer(6),
                        offset: 64,
                        size: None,
                    })
                ),
                (0, WebGPUBindings::TextureView(WebGPUTextureView(7))),
            ],
            scope_id: None,
            label: Some("group".to_string()),
        }
    );
}

#[test]
fn shader_module_request() {
    let mut device = device();
    let descriptor = GPUShaderModuleDescriptor {
        parent: unlabelled(),
        code: Uint32ArrayOrString::String("fn".to_string()),
    };
    let (module, request) = device.create_shader_module(&descriptor, WebGPUShaderModule(31));
    assert_eq!(module, GPUShaderModule { id: WebGPUShaderModule(31) });
    assert_eq!(
        request,
        WebGPURequest::CreateShaderModule {
            device_id: DEVICE,
            program_id: WebGPUShaderModule(31),
            program: vec![102, 110],
            scope_id: None,
        }
    );
}

#[test]
fn compute_pipeline_request() {
    let mut device = device();
    device.push_error_scope(GPUErrorFilter::OutOfMemory);
    let descriptor = GPUComputePipelineDescriptor {
        parent: GPUPipelineDescriptorBase {
            parent: unlabelled(),
            layout: WebGPUPipelineLayout(20),
        },
        compute_stage: stage(31, "main"),
    };
    let (pipeline, request) =
        device.create_compute_pipeline(&descriptor, WebGPUComputePipeline(32));
    assert_eq!(pipeline, GPUComputePipeline { id: WebGPUComputePipeline(32) });
    assert_eq!(
        request,
        WebGPURequest::CreateComputePipeline {
            device_id: DEVICE,
            scope_id: Some(0),
            compute_pipeline_id: WebGPUComputePipeline(32),
            pipeline_layout_id: WebGPUPipelineLayout(20),
            program_id: WebGPUShaderModule(31),
            entry_point: "main".to_string(),
        }
    );
}

#[test]
fn command_encoder_request() {
    let mut device = device();
    let descriptor = GPUCommandEncoderDescriptor { parent: labelled("encoder") };
    let (encoder, request) = device.create_command_encoder(&descriptor, WebGPUCommandEncoder(33));
    assert_eq!(
        encoder,
        GPUCommandEncoder { id: WebGPUCommandEncoder(33), device: DEVICE, valid: true }
    );
    assert_eq!(
        request,
        WebGPURequest::CreateCommandEncoder {
            device_id: DEVICE,
            command_encoder_id: WebGPUCommandEncoder(33),
            label: Some("encoder".to_string()),
            scope_id: None,
        }
    );
}

#[test]
fn texture_request_and_handle() {
    let mut device = device();
    let size = GPUExtent3D::RangeEnforcedUnsignedLongSequence(vec![64, 32, 2]);
    let mut descriptor = texture_descriptor(size);
    descriptor.usage = 0x46;
    let (texture, request) = device.create_texture(&descriptor, WebGPUTexture(34));
    assert_eq!(
        texture,
        GPUTexture {
            id: WebGPUTexture(34),
            device: DEVICE,
            size: GPUExtent3DDict { width: 64, height: 32, depth: 2 },
            mip_level_count: 3,
            sample_count: 4,
            dimension: GPUTextureDimension::D3,
            format: GPUTextureFormat::Rgba8unormSrgb,
            usage: 0x46,
        }
    );
    assert_eq!(
        request,
        WebGPURequest::CreateTexture {
            device_id: DEVICE,
            texture_id: WebGPUTexture(34),
            descriptor: TextureDescriptor {
                label: Some("texture".to_string()),
                size: Extent3d { width: 64, height: 32, depth: 2 },
                mip_level_count: 3,
                sample_count: 4,
                dimension: TextureDimension::D3,
                format: TextureFormat::Rgba8UnormSrgb,
                usage: 0,
            },
            scope_id: None,
        }
    );
}

#[test]
fn sampler_request_and_handle() {
    let mut device = device();
    let descriptor = GPUSamplerDescriptor {
        parent: labelled("sampler"),
        address_mode_u: GPUAddressMode::Repeat,
        address_mode_v: GPUAddressMode::MirrorRepeat,
        address_mode_w: GPUAddressMode::ClampToEdge,
        mag_filter: GPUFilterMode::Linear,
        min_filter: GPUFilterMode::Nearest,
        mipmap_filter: GPUFilterMode::Linear,
        lod_min_clamp: 0.0f32.to_bits(),
        lod_max_clamp: 32.0f32.to_bits(),
        compare: Some(GPUCompareFunction::Greater),
    };
    let (sampler, request) = device.create_sampler(&descriptor, WebGPUSampler(35));
    assert_eq!(
        sampler,
        GPUSampler { id: WebGPUSampler(35), device: DEVICE, compare_enable: true }
    );
    assert_eq!(
        request,
        WebGPURequest::CreateSampler {
            device_id: DEVICE,
            sampler_id: WebGPUSampler(35),
            descriptor: SamplerDescriptor {
                label: Some("sampler".to_string()),
                address_mode_u: AddressMode::Repeat,
                address_mode_v: AddressMode::MirrorRepeat,
                address_mode_w: AddressMode::ClampToEdge,
                mag_filter: FilterMode::Linear,
                min_filter: FilterMode::Nearest,
                mipmap_filter: FilterMode::Linear,
                lod_min_clamp: 0.0f32.to_bits(),
                lod_max_clamp: 32.0f32.to_bits(),
                compare: Some(CompareFunction::Greater),
                anisotropy_clamp: None,
            },
            scope_id: None,
        }
    );
    let mut plain = descriptor;
    plain.compare = None;
    let (sampler, _) = device.create_sampler(&plain, WebGPUSampler(36));
    assert!(!sampler.compare_enable);
}

#[test]
fn render_pipeline_request() {
    let mut device = device();
    device.push_error_scope(GPUErrorFilter::Validation);
    let (pipeline, request) =
        device.create_render_pipeline(&render_pipeline_descriptor(), WebGPURenderPipeline(43));
    assert_eq!(pipeline, GPURenderPipeline { id: WebGPURenderPipeline(43), device: DEVICE });
    match request {
        WebGPURequest::CreateRenderPipeline {
            device_id,
            render_pipeline_id,
            scope_id,
            pipeline_layout_id,
            vertex_module,
            vertex_entry_point,
            fragment_module,
            fragment_entry_point,
            primitive_topology,
            rasterization_state,
            color_states,
            depth_stencil_state,
            vertex_state,
            sample_count,
            sample_mask,
            alpha_to_coverage_enabled,
        } => {
            assert_eq!(device_id, DEVICE);
            assert_eq!(render_pipeline_id, WebGPURenderPipeline(43));
            assert_eq!(scope_id, Some(0));
            assert_eq!(pipeline_layout_id, WebGPUPipelineLayout(40));
            assert_eq!(vertex_module, WebGPUShaderModule(41));
            assert_eq!(vertex_entry_point, "vs_main");
            assert_eq!(fragment_module, Some(WebGPUShaderModule(42)));
            assert_eq!(fragment_entry_point, Some("fs_main".to_string()));
            assert_eq!(primitive_topology, PrimitiveTopology::LineStrip);
            assert_eq!(
                rasterization_state,
                RasterizationStateDescriptor {
                    front_face: FrontFace::Cw,
                    cull_mode: CullMode::Back,
                    depth_bias: -2,
                    depth_bias_slope_scale: 1.5f32.to_bits(),
                    depth_bias_clamp: 0.25f32.to_bits(),
                }
            );
            assert_eq!(color_states.len(), 2);
            assert_eq!(color_states[0].format, TextureFormat::Bgra8Unorm);
            assert_eq!(color_states[0].write_mask, 0xf);
            assert_eq!(color_states[1].format, TextureFormat::Rgba16Float);
            assert_eq!(color_states[1].write_mask, 0);
            let face = StencilStateFaceDescriptor {
                compare: CompareFunction::Always,
                fail_op: StencilOperation::Keep,
                depth_fail_op: StencilOperation::Zero,
                pass_op: StencilOperation::Replace,
            };
            assert_eq!(
                depth_stencil_state,
                Some(DepthStencilStateDescriptor {
                    format: TextureFormat::Depth24PlusStencil8,
                    depth_write_enabled: true,
                    depth_compare: CompareFunction::LessEqual,
                    stencil_front: face,
                    stencil_back: face,
                    stencil_read_mask: 0xff,
                    stencil_write_mask: 0x0f,
                })
            );
            assert_eq!(vertex_state.index_format, IndexFormat::Uint32);
            assert_eq!(vertex_state.vertex_buffers.len(), 1);
            assert_eq!(vertex_state.vertex_buffers[0].array_stride, 24);
            assert_eq!(vertex_state.vertex_buffers[0].step_mode, InputStepMode::Vertex);
            assert_eq!(vertex_state.vertex_buffers[0].attributes.len(), 1);
            assert_eq!(vertex_state.vertex_buffers[0].attributes[0].format, VertexFormat::Float2);
            assert_eq!(vertex_state.vertex_buffers[0].attributes[0].offset, 8);
            assert_eq!(vertex_state.vertex_buffers[0].attributes[0].shader_location, 1);
            assert_eq!(sample_count, 4);
            assert_eq!(sample_mask, 0xffff_ffff);
            assert!(alpha_to_coverage_enabled);
        },
        other => panic!("unexpected {:?}", other),
    }
}

#[test]
fn render_pipeline_without_optional_parts() {
    let mut device = device();
    let mut descriptor = render_pipeline_descriptor();
    descriptor.fragment_stage = None;
    descriptor.depth_stencil_state = None;
    descriptor.color_states = vec![];
    let (_, request) = device.create_render_pipeline(&descriptor, WebGPURenderPipeline(44));
    match request {
        WebGPURequest::CreateRenderPipeline {
            scope_id,
            fragment_module,
            fragment_entry_point,
            color_states,
            depth_stencil_state,
            ..
        } => {
            assert_eq!(scope_id, None);
            assert_eq!(fragment_module, None);
            assert_eq!(fragment_entry_point, None);
            assert!(color_states.is_empty());
            assert_eq!(depth_stencil_state, None);
        },
        other => panic!("unexpected {:?}", other),
    }
}

#[test]
fn request_names_its_scope() {
    let mut device = device();
    let (_, outside) = device.create_buffer(&buffer_descriptor(4, 1, false), WebGPUBuffer(1));
    assert_eq!(outside.scope_id(), None);
    device.push_error_scope(GPUErrorFilter::Validation);
    device.push_error_scope(GPUErrorFilter::Validation);
    let (_, inside) = device.create_sampler(
        &GPUSamplerDescriptor {
            parent: unlabelled(),
            address_mode_u: GPUAddressMode::Repeat,
            address_mode_v: GPUAddressMode::Repeat,
            address_mode_w: GPUAddressMode::Repeat,
            mag_filter: GPUFilterMode::Linear,
            min_filter: GPUFilterMode::Linear,
            mipmap_filter: GPUFilterMode::Linear,
            lod_min_clamp: 0,
            lod_max_clamp: 0,
            compare: None,
        },
        WebGPUSampler(2),
    );
    assert_eq!(inside.scope_id(), Some(1));
    let (_, pipeline) =
        device.create_render_pipeline(&render_pipeline_descriptor(), WebGPURenderPipeline(3));
    assert_eq!(pipeline.scope_id(), Some(1));
}

#[test]
fn failed_transport_loses_the_device_and_fails_the_scope() {
    let mut device = device();
    assert!(!device.is_lost());
    device.push_error_scope(GPUErrorFilter::OutOfMemory);
    let (buffer, request) = device.create_buffer(&buffer_descriptor(4, 1, false), WebGPUBuffer(1));
    let error = GPUError::Validation("channel closed".to_string());
    assert_eq!(device.fail_transport(request.scope_id(), error.clone()), Completion::Counted);
    assert!(device.is_lost());
    assert_eq!(buffer.id, WebGPUBuffer(1));
    assert_eq!(device.scopes().pending_operations(0), Some(0));
    assert_eq!(
        device.pop_error_scope(),
        Ok(PopFuture { scope: 0, settlement: Settlement::Resolved(Some(error)) })
    );
    assert!(device.is_lost());
}

#[test]
fn failed_transport_outside_any_scope_only_loses_the_device() {
    let mut device = device();
    device.lost(PromiseId(3));
    assert_eq!(
        device.fail_transport(None, GPUError::OutOfMemory),
        Completion::UnknownScope
    );
    assert!(device.is_lost());
    assert_eq!(device.lost_promise(), Some(PromiseId(3)));
    assert_eq!(device.scopes().depth(), 0);
    assert_eq!(device.id(), DEVICE);
}

#[test]
fn failed_transport_resolves_a_pending_pop() {
    let mut device = device();
    device.push_error_scope(GPUErrorFilter::Validation);
    let (_, request) = device.create_buffer(&buffer_descriptor(4, 1, false), WebGPUBuffer(1));
    assert_eq!(device.pop_error_scope().unwrap().settlement, Settlement::Pending);
    assert_eq!(
        device.fail_transport(request.scope_id(), GPUError::OutOfMemory),
        Completion::Resolved(Some(GPUError::OutOfMemory))
    );
    assert!(!device.scopes().is_known(0));
    assert_eq!(
        device.fail_transport(Some(0), GPUError::OutOfMemory),
        Completion::UnknownScope
    );
}

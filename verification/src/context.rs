//! The context aggregate: owns the surface, adapter, device, queue, pipeline
//! layout, shader modules and pipeline for the life of the process, together
//! with the plain-value record of the configuration each was created from,
//! and records one clearing render pass per frame.

use vstd::prelude::*;
use crate::config::{
    adapter_request_options, baseline_pass_config, baseline_pipeline_config, device_request,
    pipeline_layout_config, render_pass_config, shader_entry_point, surface_format,
    PipelineConfig, PipelineLayoutConfig, RenderPassConfig, TextureFormat,
};
use crate::gpu::{
    begin_clear_pass, device_create_command_encoder, device_create_pipeline_layout,
    device_create_render_pipeline, device_create_shader_module, encoder_finish, end_pass,
    pass_set_pipeline, pop_validation_scope, push_validation_scope, request_adapter_blocking,
    request_device_blocking, FrameCommands, FrameEncoder, FramePass,
};
use crate::init::{blob_spirv_shaped, spec_blob_spirv_shaped, InitError};

verus! {

/// Everything the renderer acquires from the GPU driver at startup, plus the
/// plain-value configuration each resource was created from. Exactly one of
/// each exists for the process lifetime; the shader modules are retained
/// even though they are only consumed at pipeline-build time, as dropping
/// them early is undefined under some driver backends.
pub struct WGPUData {
    /// The logical device all GPU resources were created on.
    pub device: wgpu::Device,
    /// The command-submission queue associated with the device.
    pub queue: wgpu::Queue,
    /// The physical adapter the device was acquired from.
    pub adapter: wgpu::Adapter,
    /// The presentation surface the context was built against; it must
    /// outlive the device.
    pub surface: wgpu::Surface<'static>,
    /// The compiled graphics pipeline; immutable once created.
    pub render_pipeline: wgpu::RenderPipeline,
    /// The pipeline's (empty) resource-binding declaration.
    pub pipeline_layout: wgpu::PipelineLayout,
    /// The vertex and fragment shader modules, retained for the process
    /// lifetime.
    pub shader_module: (wgpu::ShaderModule, wgpu::ShaderModule),
    /// The binding interface the pipeline layout was created with.
    pub layout_config: PipelineLayoutConfig,
    /// The fixed-function state the pipeline was created with.
    pub pipeline_config: PipelineConfig,
    /// The shape of the pass every frame is recorded with.
    pub pass_config: RenderPassConfig,
    /// The presentation format of the surface.
    pub surface_format: TextureFormat,
}

impl WGPUData {
    /// The context invariant: the recorded configurations are exactly the
    /// baseline ones, and the pipeline's color target format equals the
    /// surface's presentation format.
    pub open spec fn wf(self) -> bool {
        &&& self.layout_config.is_empty()
        &&& self.surface_format == TextureFormat::Bgra8UnormSrgb
        &&& self.pipeline_config == baseline_pipeline_config(self.surface_format)
        &&& self.pass_config == baseline_pass_config()
    }

    /// Selects the one physical adapter the context is built on: the driver
    /// is asked for an adapter that can present to the surface under the
    /// baseline power policy, and failure to find one is fatal.
    fn make_adapter<'w>(instance: &wgpu::Instance, surface: &wgpu::Surface<'w>) -> (r: Result<
        wgpu::Adapter,
        InitError,
    >)
        ensures
            r matches Err(e) ==> e is NoCompatibleAdapter,
    {
        let opts = adapter_request_options();
        match request_adapter_blocking(instance, surface, &opts) {
            Some(adapter) => Ok(adapter),
            None => Err(InitError::NoCompatibleAdapter),
        }
    }

    /// Acquires the logical device and its submission queue from the
    /// selected adapter, with the baseline request: no optional features,
    /// default limits, shader validation on. Rejection is fatal.
    fn request_device(adapter: &wgpu::Adapter) -> (r: Result<
        (wgpu::Device, wgpu::Queue),
        InitError,
    >)
        ensures
            r matches Err(e) ==> e is DeviceRequestRejected,
    {
        let req = device_request();
        match request_device_blocking(adapter, &req) {
            Ok(pair) => Ok(pair),
            Err(msg) => Err(InitError::DeviceRequestRejected(msg)),
        }
    }

    /// Declares the (empty) resource-binding interface and creates the
    /// pipeline layout from it. Pure construction: cannot fail, and always
    /// yields the same declared structure.
    fn make_pipeline_layout(device: &wgpu::Device) -> (r: (
        wgpu::PipelineLayout,
        PipelineLayoutConfig,
    ))
        ensures
            r.1.is_empty(),
    {
        let cfg = pipeline_layout_config();
        let layout = device_create_pipeline_layout(device, &cfg);
        (layout, cfg)
    }

    /// Loads the two shader blobs as modules and assembles them with the
    /// layout and the baseline fixed-function state into the graphics
    /// pipeline. A blob not shaped like bytecode is rejected before the
    /// device sees it; a blob or a stage pairing the device rejects is a
    /// fatal error carrying the driver's reason, and no partial pipeline is
    /// handed out.
    fn make_render_pipeline(
        device: &wgpu::Device,
        pipeline_layout: &wgpu::PipelineLayout,
        vs_blob: &Vec<u8>,
        fs_blob: &Vec<u8>,
    ) -> (r: Result<((wgpu::ShaderModule, wgpu::ShaderModule), wgpu::RenderPipeline, PipelineConfig), InitError>)
        ensures
            r matches Ok(t) ==> t.2 == baseline_pipeline_config(TextureFormat::Bgra8UnormSrgb),
            !(spec_blob_spirv_shaped(vs_blob@) && spec_blob_spirv_shaped(fs_blob@)) <==> (
            r matches Err(e) && e is ShaderNotSpirv),
    {
        if !blob_spirv_shaped(vs_blob) || !blob_spirv_shaped(fs_blob) {
            return Err(InitError::ShaderNotSpirv);
        }
        let vs_scope = push_validation_scope(device);
        let vs_module = device_create_shader_module(device, vs_blob);
        match pop_validation_scope(vs_scope) {
            Some(msg) => {
                return Err(InitError::ShaderRejected(msg));
            },
            None => {},
        }
        let fs_scope = push_validation_scope(device);
        let fs_module = device_create_shader_module(device, fs_blob);
        match pop_validation_scope(fs_scope) {
            Some(msg) => {
                return Err(InitError::ShaderRejected(msg));
            },
            None => {},
        }
        let cfg = crate::config::pipeline_config(surface_format());
        let entry = shader_entry_point();
        let scope = push_validation_scope(device);
        let pipeline = device_create_render_pipeline(
            device,
            pipeline_layout,
            &vs_module,
            &fs_module,
            entry,
            &cfg,
        );
        match pop_validation_scope(scope) {
            Some(msg) => Err(InitError::PipelineRejected(msg)),
            None => Ok(((vs_module, fs_module), pipeline, cfg)),
        }
    }

    /// Begins a render pass on the recording scope against the target view
    /// with the given pass shape, and binds the compiled pipeline to it: the
    /// returned open pass has recorded exactly the baseline shape — cleared
    /// to green, stored, pipeline bound, and intentionally no draw call, so
    /// the pass is left open for future draw submission.
    fn make_render_pass(
        encoder: &mut FrameEncoder,
        render_pipeline: &wgpu::RenderPipeline,
        view: &wgpu::TextureView,
        cfg: &RenderPassConfig,
    ) -> (r: FramePass)
        requires
            !old(encoder).is_open(),
            *cfg == baseline_pass_config(),
        ensures
            final(encoder).is_open(),
            final(encoder).recorded() == old(encoder).recorded(),
            r.shape() == baseline_pass_config(),
    {
        let mut rpass = begin_clear_pass(encoder, view, cfg);
        pass_set_pipeline(&mut rpass, render_pipeline);
        rpass
    }

    /// Builds the whole context against an instance and a surface made from
    /// it: selects an adapter that can present to the surface, acquires the
    /// device and queue, declares the empty layout, and assembles the
    /// pipeline from the two shader blobs — in that order, each step only
    /// after the one before it succeeded. Any failure is fatal: no partial
    /// context is handed out, and the error names the failing stage.
    pub fn new(
        instance: &wgpu::Instance,
        surface: wgpu::Surface<'static>,
        vs_blob: &Vec<u8>,
        fs_blob: &Vec<u8>,
    ) -> (r: Result<WGPUData, InitError>)
        ensures
            r matches Ok(ctx) ==> ctx.wf(),
            !(spec_blob_spirv_shaped(vs_blob@) && spec_blob_spirv_shaped(fs_blob@)) ==> !(r
                is Ok),
            (r matches Err(e) && e is ShaderNotSpirv) ==> !(spec_blob_spirv_shaped(vs_blob@)
                && spec_blob_spirv_shaped(fs_blob@)),
    {
        let adapter = match Self::make_adapter(instance, &surface) {
            Ok(a) => a,
            Err(e) => {
                return Err(e);
            },
        };
        let (device, queue) = match Self::request_device(&adapter) {
            Ok(p) => p,
            Err(e) => {
                return Err(e);
            },
        };
        let (pipeline_layout, layout_config) = Self::make_pipeline_layout(&device);
        let (shader_module, render_pipeline, pipeline_config) = match Self::make_render_pipeline(
            &device,
            &pipeline_layout,
            vs_blob,
            fs_blob,
        ) {
            Ok(t) => t,
            Err(e) => {
                return Err(e);
            },
        };
        Ok(
            WGPUData {
                device,
                queue,
                adapter,
                surface,
                render_pipeline,
                pipeline_layout,
                shader_module,
                layout_config,
                pipeline_config,
                pass_config: render_pass_config(),
                surface_format: surface_format(),
            },
        )
    }

    /// Records one frame: opens a command-recording scope, begins the
    /// clearing render pass against the target view, binds the pipeline,
    /// ends the pass and the scope, and hands back the finished command
    /// stream — which encodes exactly one pass of the baseline shape — and
    /// that shape, for submission by the caller. Reads the context, never
    /// mutates it: frames recorded from fresh target views are independent.
    pub fn render_frame(&self, view: &wgpu::TextureView) -> (r: (FrameCommands, RenderPassConfig))
        requires
            self.wf(),
        ensures
            r.1 == baseline_pass_config(),
            r.0.recorded() =~= seq![baseline_pass_config()],
    {
        let plan = render_pass_config();
        let mut encoder = device_create_command_encoder(&self.device);
        let rpass = Self::make_render_pass(&mut encoder, &self.render_pipeline, view, &plan);
        end_pass(&mut encoder, rpass);
        let commands = encoder_finish(encoder);
        (commands, plan)
    }
}

} // verus!

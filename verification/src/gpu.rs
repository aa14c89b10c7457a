//! The trusted boundary to the GPU driver.
//!
//! Each item here either declares a driver type so that it can be carried
//! through verified code, or wraps exactly one driver call. The wrappers
//! translate the library's plain-value configuration types into the driver's
//! descriptors one field for one field; fields the library pins by a
//! `requires` clause are written out literally in the body.
//!
//! The asynchronous negotiation calls (adapter selection, device
//! acquisition) are driven to completion with a blocking single-threaded
//! wait, which is the sole suspend point of initialization.

use vstd::prelude::*;
use crate::config::{
    clear_color, AdapterOptions, DeviceRequest, LoadOp, PipelineConfig, PipelineLayoutConfig,
    PowerPreference, PrimitiveTopology, RenderPassConfig, StoreOp, TextureFormat,
};
use crate::init::spec_blob_spirv_shaped;

verus! {

#[verifier::external_type_specification]
#[verifier::external_body]
pub struct ExInstance(wgpu::Instance);

#[verifier::external_type_specification]
#[verifier::external_body]
pub struct ExSurface<'a>(wgpu::Surface<'a>);

#[verifier::external_type_specification]
#[verifier::external_body]
pub struct ExAdapter(wgpu::Adapter);

#[verifier::external_type_specification]
#[verifier::external_body]
pub struct ExDevice(wgpu::Device);

#[verifier::external_type_specification]
#[verifier::external_body]
pub struct ExQueue(wgpu::Queue);

#[verifier::external_type_specification]
#[verifier::external_body]
pub struct ExPipelineLayout(wgpu::PipelineLayout);

#[verifier::external_type_specification]
#[verifier::external_body]
pub struct ExShaderModule(wgpu::ShaderModule);

#[verifier::external_type_specification]
#[verifier::external_body]
pub struct ExRenderPipeline(wgpu::RenderPipeline);

#[verifier::external_type_specification]
#[verifier::external_body]
pub struct ExCommandEncoder(wgpu::CommandEncoder);

#[verifier::external_type_specification]
#[verifier::external_body]
pub struct ExRenderPass<'a>(wgpu::RenderPass<'a>);

#[verifier::external_type_specification]
#[verifier::external_body]
pub struct ExCommandBuffer(wgpu::CommandBuffer);

#[verifier::external_type_specification]
#[verifier::external_body]
pub struct ExTextureView(wgpu::TextureView);

#[verifier::external_type_specification]
#[verifier::external_body]
pub struct ExErrorScopeGuard(wgpu::ErrorScopeGuard);

/// Relies on wgpu::Instance::request_adapter: yields an adapter that can
/// present to the given surface and meets the power policy, or nothing if no
/// such adapter exists. The returned future is driven to completion with a
/// blocking wait (pollster::block_on); the options translate field by field,
/// with the surface passed as the required compatible surface and limit
/// bucketing left off.
#[verifier::external_body]
pub(crate) fn request_adapter_blocking<'w>(
    instance: &wgpu::Instance,
    surface: &wgpu::Surface<'w>,
    opts: &AdapterOptions,
) -> (r: Option<wgpu::Adapter>)
    requires
        opts.require_surface_compatible,
{
    let options = wgpu::RequestAdapterOptions {
        power_preference: match opts.power_preference {
            PowerPreference::NoPreference => wgpu::PowerPreference::None,
            PowerPreference::LowPower => wgpu::PowerPreference::LowPower,
            PowerPreference::HighPerformance => wgpu::PowerPreference::HighPerformance,
        },
        force_fallback_adapter: opts.fallback_only,
        compatible_surface: Some(surface),
        apply_limit_buckets: false,
    };
    match pollster::block_on(instance.request_adapter(&options)) { Ok(a) => Some(a), Err(_) => None }
}

/// Relies on wgpu::Adapter::request_device: yields the logical device and
/// its queue, or the driver's reason for rejection. The returned future is
/// driven to completion with a blocking wait. The required zero feature bits
/// translate to the empty feature set and the required default limits to the
/// driver's defaults; shader validation cannot be switched off in this
/// driver, so a request with validation on is translated faithfully. A
/// request the adapter cannot satisfy (features or limits) comes back as the
/// error value, which the body converts to the driver's reason text.
#[verifier::external_body]
pub(crate) fn request_device_blocking(
    adapter: &wgpu::Adapter,
    req: &DeviceRequest,
) -> (r: Result<(wgpu::Device, wgpu::Queue), String>)
    requires
        req.required_feature_bits == 0,
        req.default_limits,
        req.shader_validation,
{
    let desc = wgpu::DeviceDescriptor {
        label: None,
        required_features: wgpu::Features::empty(),
        required_limits: wgpu::Limits::default(),
        experimental_features: wgpu::ExperimentalFeatures::disabled(),
        memory_hints: wgpu::MemoryHints::Performance,
        trace: wgpu::Trace::Off,
    };
    match pollster::block_on(adapter.request_device(&desc)) { Ok(p) => Ok(p), Err(e) => Err(format!("{e}")) }
}

/// Relies on wgpu::Device::create_pipeline_layout: creates a layout with the
/// declared binding groups and immediate (push-constant) bytes. The
/// configuration is required empty, so the descriptor's slice is empty and
/// its immediate size zero.
#[verifier::external_body]
pub(crate) fn device_create_pipeline_layout(
    device: &wgpu::Device,
    cfg: &PipelineLayoutConfig,
) -> (r: wgpu::PipelineLayout)
    requires
        cfg.is_empty(),
{
    device.create_pipeline_layout(&wgpu::PipelineLayoutDescriptor {
        label: None,
        bind_group_layouts: &[],
        immediate_size: 0,
    })
}

/// Relies on wgpu::Device::push_error_scope: opens a validation error scope
/// on the device; driver validation failures of calls made until the guard
/// is popped are captured by the scope instead of being fatal.
#[verifier::external_body]
pub(crate) fn push_validation_scope(device: &wgpu::Device) -> (r: wgpu::ErrorScopeGuard) {
    device.push_error_scope(wgpu::ErrorFilter::Validation)
}

/// Relies on wgpu::ErrorScopeGuard::pop: closes the scope and reports the
/// first validation error it captured, if any, as the driver's own text. The
/// returned future is driven to completion with a blocking wait.
#[verifier::external_body]
pub(crate) fn pop_validation_scope(guard: wgpu::ErrorScopeGuard) -> (r: Option<String>) {
    match pollster::block_on(guard.pop()) {
        None => None,
        Some(e) => Some(format!("{e}")),
    }
}

/// Relies on wgpu::Device::create_shader_module (and wgpu::util::make_spirv,
/// which reads the blob as SPIR-V words and panics unless the blob is
/// nonempty, a whole number of words, and starts with the SPIR-V magic
/// number — exactly what the `requires` clause demands). Invalid bytecode is
/// reported to the innermost validation scope; callers in this crate bracket
/// the call with one.
#[verifier::external_body]
pub(crate) fn device_create_shader_module(
    device: &wgpu::Device,
    blob: &Vec<u8>,
) -> (r: wgpu::ShaderModule)
    requires
        spec_blob_spirv_shaped(blob@),
{
    device.create_shader_module(wgpu::ShaderModuleDescriptor {
        label: None,
        source: wgpu::util::make_spirv(blob.as_slice()),
    })
}

/// Relies on wgpu::Device::create_render_pipeline: assembles the two shader
/// stages, the layout and the fixed-function state into a pipeline. Each
/// literal in the descriptor mirrors a field the `requires` clause pins:
/// triangle-list topology with no strip index format, no culling and default
/// rasterization, no depth/stencil, a single color target in the 8-bit BGRA
/// sRGB format with default blending, no vertex buffers; the multisample
/// state translates field by field. Validation failures (such as stage
/// bytecode incompatible with its stage) are reported to the innermost
/// validation scope; callers in this crate bracket the call with one.
#[verifier::external_body]
pub(crate) fn device_create_render_pipeline(
    device: &wgpu::Device,
    layout: &wgpu::PipelineLayout,
    vs: &wgpu::ShaderModule,
    fs: &wgpu::ShaderModule,
    entry: &str,
    cfg: &PipelineConfig,
) -> (r: wgpu::RenderPipeline)
    requires
        cfg.topology == PrimitiveTopology::TriangleList,
        cfg.color_format == TextureFormat::Bgra8UnormSrgb,
        cfg.color_target_count == 1,
        !cfg.has_depth_stencil,
        cfg.vertex_buffer_count == 0,
        cfg.cull_mode == crate::config::CullMode::NoCulling,
        cfg.depth_bias == 0,
{
    device.create_render_pipeline(&wgpu::RenderPipelineDescriptor {
        label: None,
        layout: Some(layout),
        vertex: wgpu::VertexState { module: vs, entry_point: Some(entry), compilation_options: Default::default(), buffers: &[] },
        primitive: wgpu::PrimitiveState { topology: wgpu::PrimitiveTopology::TriangleList, strip_index_format: None, cull_mode: None, ..Default::default() },
        depth_stencil: None,
        multisample: wgpu::MultisampleState { count: cfg.sample_count, mask: cfg.sample_mask, alpha_to_coverage_enabled: cfg.alpha_to_coverage },
        fragment: Some(wgpu::FragmentState { module: fs, entry_point: Some(entry), compilation_options: Default::default(), targets: &[Some(wgpu::TextureFormat::Bgra8UnormSrgb.into())] }),
        multiview_mask: None,
        cache: None,
    })
}

/// A command-recording scope on the device, carrying the record of the
/// render passes encoded into it so far and whether one is still open. The
/// fields are private to this module: the record is written only by the
/// functions below, each of which makes the driver call it records.
pub struct FrameEncoder {
    inner: wgpu::CommandEncoder,
    passes: Ghost<Seq<RenderPassConfig>>,
    open: Ghost<bool>,
}

impl FrameEncoder {
    /// The shapes of the render passes recorded into this scope, in order.
    pub closed spec fn recorded(self) -> Seq<RenderPassConfig> {
        self.passes@
    }

    /// Whether a render pass begun on this scope is still open.
    pub closed spec fn is_open(self) -> bool {
        self.open@
    }
}

/// A render pass being recorded, together with the shape recorded into it
/// so far. Begun on a scope by `begin_clear_pass` and ended by `end_pass`,
/// which moves its final shape into the scope's record.
pub struct FramePass {
    inner: wgpu::RenderPass<'static>,
    recorded_shape: Ghost<RenderPassConfig>,
}

impl FramePass {
    /// The shape this pass has recorded so far.
    pub closed spec fn shape(self) -> RenderPassConfig {
        self.recorded_shape@
    }
}

/// A finished command stream: the driver's command buffer, ready for
/// submission, together with the record of the render passes it encodes.
pub struct FrameCommands {
    /// The driver's command buffer, ready for submission on the queue.
    pub inner: wgpu::CommandBuffer,
    passes: Ghost<Seq<RenderPassConfig>>,
}

impl FrameCommands {
    /// The shapes of the render passes this buffer encodes, in order.
    pub closed spec fn recorded(self) -> Seq<RenderPassConfig> {
        self.passes@
    }
}

/// Relies on wgpu::Device::create_command_encoder: opens a fresh
/// command-recording scope on the device.
#[verifier::external_body]
fn raw_create_command_encoder(device: &wgpu::Device) -> (r: wgpu::CommandEncoder) {
    device.create_command_encoder(&wgpu::CommandEncoderDescriptor { label: None })
}

/// Opens a fresh recording scope with an empty pass record.
pub(crate) fn device_create_command_encoder(device: &wgpu::Device) -> (r: FrameEncoder)
    ensures
        r.recorded() =~= Seq::<RenderPassConfig>::empty(),
        !r.is_open(),
{
    FrameEncoder {
        inner: raw_create_command_encoder(device),
        passes: Ghost(Seq::empty()),
        open: Ghost(false),
    }
}

/// Relies on wgpu::CommandEncoder::begin_render_pass (and on
/// wgpu::RenderPass::forget_lifetime, which only unties the compile-time
/// borrow of the encoder): begins a render pass against the given target
/// view. Each literal in the descriptor mirrors a field the `requires`
/// clause pins: a single color attachment with no resolve target, loaded by
/// clearing to opaque green (the driver's GREEN is the same color with
/// unit-scaled channels) and stored, and no depth/stencil attachment. The
/// begun pass binds no pipeline and issues no draw until told to.
#[verifier::external_body]
fn raw_begin_clear_pass(
    encoder: &mut wgpu::CommandEncoder,
    view: &wgpu::TextureView,
    cfg: &RenderPassConfig,
) -> (r: wgpu::RenderPass<'static>)
    requires
        cfg.load == LoadOp::Clear(clear_color()),
        cfg.store == StoreOp::Store,
        cfg.color_attachment_count == 1,
        !cfg.has_depth_stencil,
        !cfg.has_resolve_target,
{
    encoder.begin_render_pass(&wgpu::RenderPassDescriptor {
        label: None,
        color_attachments: &[Some(wgpu::RenderPassColorAttachment {
            view,
            depth_slice: None,
            resolve_target: None,
            ops: wgpu::Operations { load: wgpu::LoadOp::Clear(wgpu::Color::GREEN), store: wgpu::StoreOp::Store },
        })],
        depth_stencil_attachment: None,
        timestamp_writes: None,
        occlusion_query_set: None,
        multiview_mask: None,
    }).forget_lifetime()
}

/// Begins the clearing pass on the scope. The returned open pass has
/// recorded the attachment operations of the given shape and nothing else;
/// the scope's own record is unchanged until the pass is ended.
pub(crate) fn begin_clear_pass(
    encoder: &mut FrameEncoder,
    view: &wgpu::TextureView,
    cfg: &RenderPassConfig,
) -> (r: FramePass)
    requires
        !old(encoder).is_open(),
        cfg.load == LoadOp::Clear(clear_color()),
        cfg.store == StoreOp::Store,
        cfg.color_attachment_count == 1,
        !cfg.has_depth_stencil,
        !cfg.has_resolve_target,
    ensures
        final(encoder).is_open(),
        final(encoder).recorded() == old(encoder).recorded(),
        r.shape() == (RenderPassConfig { binds_pipeline: false, draw_count: 0, ..*cfg }),
{
    let pass = raw_begin_clear_pass(&mut encoder.inner, view, cfg);
    encoder.open = Ghost(true);
    FramePass {
        inner: pass,
        recorded_shape: Ghost(RenderPassConfig { binds_pipeline: false, draw_count: 0, ..*cfg }),
    }
}

/// Relies on wgpu::RenderPass::set_pipeline: binds the compiled pipeline to
/// the pass.
#[verifier::external_body]
fn raw_set_pipeline(pass: &mut wgpu::RenderPass<'static>, pipeline: &wgpu::RenderPipeline) {
    pass.set_pipeline(pipeline);
}

/// Binds the compiled pipeline to the pass; nothing else changes in what
/// the pass has recorded.
pub(crate) fn pass_set_pipeline(pass: &mut FramePass, pipeline: &wgpu::RenderPipeline)
    ensures
        final(pass).shape() == (RenderPassConfig {
            binds_pipeline: true,
            ..old(pass).shape()
        }),
{
    raw_set_pipeline(&mut pass.inner, pipeline);
    pass.recorded_shape = Ghost(RenderPassConfig { binds_pipeline: true, ..pass.recorded_shape@ });
}

/// Relies on wgpu::RenderPass's drop implementation, which ends the pass on
/// the encoder it was begun on.
#[verifier::external_body]
fn raw_end_pass(pass: wgpu::RenderPass<'static>) {
    drop(pass);
}

/// Ends the pass and moves its final shape into the scope's record. The
/// pass handed in must be the one begun on this scope: the library only
/// ever records on one scope at a time, and the driver validates the
/// pairing when the scope is finished.
pub(crate) fn end_pass(encoder: &mut FrameEncoder, pass: FramePass)
    requires
        old(encoder).is_open(),
    ensures
        !final(encoder).is_open(),
        final(encoder).recorded() == old(encoder).recorded().push(pass.shape()),
{
    let FramePass { inner, recorded_shape } = pass;
    raw_end_pass(inner);
    encoder.open = Ghost(false);
    encoder.passes = Ghost(encoder.passes@.push(recorded_shape@));
}

/// Relies on wgpu::CommandEncoder::finish: closes the recording scope and
/// yields the command buffer, which encodes exactly what was recorded into
/// the scope.
#[verifier::external_body]
fn raw_encoder_finish(encoder: wgpu::CommandEncoder) -> (r: wgpu::CommandBuffer) {
    encoder.finish()
}

/// Closes the scope and hands back the finished command stream, which
/// encodes exactly the passes recorded into the scope, in order.
pub(crate) fn encoder_finish(encoder: FrameEncoder) -> (r: FrameCommands)
    requires
        !encoder.is_open(),
    ensures
        r.recorded() == encoder.recorded(),
{
    let FrameEncoder { inner, passes, open: _ } = encoder;
    FrameCommands { inner: raw_encoder_finish(inner), passes }
}

} // verus!

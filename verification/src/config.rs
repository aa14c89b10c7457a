//! The fixed configuration of the baseline renderer, as plain values.
//!
//! Every knob the setup layer passes to the GPU driver is first built here as
//! a value of one of these types, with the construction verified; the trusted
//! boundary then translates the values one for one.

use vstd::prelude::*;

verus! {

/// A color with 8-bit red, green, blue and alpha channels, as a readback of a
/// rendered pixel reports it.
#[derive(Clone, Copy, PartialEq, Eq, Structural, Debug)]
pub struct Color {
    pub r: u8,
    pub g: u8,
    pub b: u8,
    pub a: u8,
}

/// The fixed clear color of the baseline: fully opaque green.
pub open spec fn clear_color() -> Color {
    Color { r: 0, g: 255, b: 0, a: 255 }
}

/// The clear color every frame is cleared to.
pub fn baseline_clear_color() -> (c: Color)
    ensures
        c == clear_color(),
{
    Color { r: 0, g: 255, b: 0, a: 255 }
}

/// The power-preference policy for adapter selection.
#[derive(Clone, Copy, PartialEq, Eq, Structural, Debug)]
pub enum PowerPreference {
    NoPreference,
    LowPower,
    HighPerformance,
}

/// What adapter selection asks of the driver.
#[derive(Clone, Copy, PartialEq, Eq, Structural, Debug)]
pub struct AdapterOptions {
    /// Which class of physical GPU to prefer.
    pub power_preference: PowerPreference,
    /// Whether the adapter must be able to present to the given surface.
    pub require_surface_compatible: bool,
    /// Whether only a software fallback adapter is acceptable.
    pub fallback_only: bool,
}

/// The adapter policy of the baseline: no power preference, surface
/// compatibility required, hardware adapters allowed.
pub open spec fn baseline_adapter_options() -> AdapterOptions {
    AdapterOptions {
        power_preference: PowerPreference::NoPreference,
        require_surface_compatible: true,
        fallback_only: false,
    }
}

/// Builds the options adapter selection is performed with.
pub fn adapter_request_options() -> (o: AdapterOptions)
    ensures
        o == baseline_adapter_options(),
{
    AdapterOptions {
        power_preference: PowerPreference::NoPreference,
        require_surface_compatible: true,
        fallback_only: false,
    }
}

/// What device acquisition asks of the adapter.
#[derive(Clone, Copy, PartialEq, Eq, Structural, Debug)]
pub struct DeviceRequest {
    /// The set of optional device features requested, as a bit set; zero
    /// means no optional feature is required.
    pub required_feature_bits: u64,
    /// Whether the default resource limits are requested.
    pub default_limits: bool,
    /// Whether shader validation is requested on the device.
    pub shader_validation: bool,
}

/// The device request of the baseline: no optional features, default limits,
/// shader validation on.
pub open spec fn baseline_device_request() -> DeviceRequest {
    DeviceRequest { required_feature_bits: 0, default_limits: true, shader_validation: true }
}

/// Builds the request device acquisition is performed with.
pub fn device_request() -> (d: DeviceRequest)
    ensures
        d == baseline_device_request(),
{
    DeviceRequest { required_feature_bits: 0, default_limits: true, shader_validation: true }
}

/// One push-constant range a pipeline layout may declare.
#[derive(Clone, Copy, PartialEq, Eq, Structural, Debug)]
pub struct PushConstantRange {
    /// The shader stages the range is visible to, as a bit set.
    pub stage_bits: u32,
    /// First byte of the range.
    pub start: u32,
    /// One past the last byte of the range.
    pub end: u32,
}

/// The resource-binding interface a pipeline declares: its binding-group
/// layout slots (held by identifier) and its push-constant ranges.
pub struct PipelineLayoutConfig {
    /// One identifier per declared binding-group layout slot.
    pub bind_group_slots: Vec<u32>,
    /// The declared push-constant ranges.
    pub push_constant_ranges: Vec<PushConstantRange>,
}

impl PipelineLayoutConfig {
    /// A layout that declares no binding groups and no push constants.
    pub open spec fn is_empty(self) -> bool {
        self.bind_group_slots@.len() == 0 && self.push_constant_ranges@.len() == 0
    }
}

/// Builds the pipeline layout of the baseline: no binding groups, no
/// push-constant ranges. Pure and deterministic; cannot fail.
pub fn pipeline_layout_config() -> (c: PipelineLayoutConfig)
    ensures
        c.is_empty(),
        c.bind_group_slots@ =~= Seq::<u32>::empty(),
        c.push_constant_ranges@ =~= Seq::<PushConstantRange>::empty(),
{
    PipelineLayoutConfig { bind_group_slots: Vec::new(), push_constant_ranges: Vec::new() }
}

/// The layout builder is pure and deterministic: any two layouts it builds
/// declare identical binding-group and push-constant structure (both empty).
pub proof fn lemma_layout_builder_deterministic(a: PipelineLayoutConfig, b: PipelineLayoutConfig)
    requires
        a.is_empty(),
        b.is_empty(),
    ensures
        a.bind_group_slots@ =~= b.bind_group_slots@,
        a.push_constant_ranges@ =~= b.push_constant_ranges@,
{
}

/// How vertices are assembled into primitives.
#[derive(Clone, Copy, PartialEq, Eq, Structural, Debug)]
pub enum PrimitiveTopology {
    PointList,
    LineList,
    LineStrip,
    TriangleList,
    TriangleStrip,
}

/// The pixel format of a color target.
#[derive(Clone, Copy, PartialEq, Eq, Structural, Debug)]
pub enum TextureFormat {
    Bgra8Unorm,
    Bgra8UnormSrgb,
    Rgba8Unorm,
    Rgba8UnormSrgb,
}

/// The width of index-buffer entries.
#[derive(Clone, Copy, PartialEq, Eq, Structural, Debug)]
pub enum IndexFormat {
    Uint16,
    Uint32,
}

/// Which primitive faces rasterization discards.
#[derive(Clone, Copy, PartialEq, Eq, Structural, Debug)]
pub enum CullMode {
    NoCulling,
    Front,
    Back,
}

/// The fixed-function state a graphics pipeline is assembled with.
#[derive(Clone, Copy, PartialEq, Eq, Structural, Debug)]
pub struct PipelineConfig {
    /// Primitive assembly of the vertex stream.
    pub topology: PrimitiveTopology,
    /// Format of the single color target.
    pub color_format: TextureFormat,
    /// Number of color targets.
    pub color_target_count: usize,
    /// Whether a depth/stencil attachment is declared.
    pub has_depth_stencil: bool,
    /// Declared index-buffer entry width; unused, as no index buffer is
    /// ever bound by the baseline.
    pub index_format: IndexFormat,
    /// Number of vertex buffer layouts bound.
    pub vertex_buffer_count: usize,
    /// Samples per pixel.
    pub sample_count: u32,
    /// Which samples a fragment may write, as a bit set.
    pub sample_mask: u64,
    /// Whether alpha-to-coverage is enabled.
    pub alpha_to_coverage: bool,
    /// Face culling policy.
    pub cull_mode: CullMode,
    /// Constant depth bias of rasterization.
    pub depth_bias: i32,
}

/// The fixed-function state of the baseline pipeline: triangle lists, a
/// single color target in the given format, no depth/stencil, 16-bit indices
/// declared but unused, no vertex buffers, single-sample with all sample
/// bits, no alpha-to-coverage, no culling, no depth bias.
pub open spec fn baseline_pipeline_config(surface_format: TextureFormat) -> PipelineConfig {
    PipelineConfig {
        topology: PrimitiveTopology::TriangleList,
        color_format: surface_format,
        color_target_count: 1,
        has_depth_stencil: false,
        index_format: IndexFormat::Uint16,
        vertex_buffer_count: 0,
        sample_count: 1,
        sample_mask: u64::MAX,
        alpha_to_coverage: false,
        cull_mode: CullMode::NoCulling,
        depth_bias: 0,
    }
}

/// Builds the fixed-function state for a pipeline whose single color target
/// has the given surface format.
pub fn pipeline_config(surface_format: TextureFormat) -> (c: PipelineConfig)
    ensures
        c == baseline_pipeline_config(surface_format),
        c.color_format == surface_format,
{
    PipelineConfig {
        topology: PrimitiveTopology::TriangleList,
        color_format: surface_format,
        color_target_count: 1,
        has_depth_stencil: false,
        index_format: IndexFormat::Uint16,
        vertex_buffer_count: 0,
        sample_count: 1,
        sample_mask: u64::MAX,
        alpha_to_coverage: false,
        cull_mode: CullMode::NoCulling,
        depth_bias: 0,
    }
}

/// The presentation format of the baseline surface: 8-bit BGRA,
/// sRGB-encoded.
pub fn surface_format() -> (f: TextureFormat)
    ensures
        f == TextureFormat::Bgra8UnormSrgb,
{
    TextureFormat::Bgra8UnormSrgb
}

/// The entry point both shader stages are bound at.
pub fn shader_entry_point() -> (s: &'static str)
    ensures
        s@ == "main"@,
{
    "main"
}

/// What a render pass does with the prior contents of its color attachment.
#[derive(Clone, Copy, PartialEq, Eq, Structural, Debug)]
pub enum LoadOp {
    /// Replace the attachment with the given color before any drawing.
    Clear(Color),
    /// Keep the attachment's prior contents.
    Load,
}

/// What a render pass does with its results when it ends.
#[derive(Clone, Copy, PartialEq, Eq, Structural, Debug)]
pub enum StoreOp {
    /// Persist the pass's results to the attachment.
    Store,
    /// Discard the pass's results.
    Discard,
}

/// The shape of one recorded render pass.
#[derive(Clone, Copy, PartialEq, Eq, Structural, Debug)]
pub struct RenderPassConfig {
    /// Load operation of the single color attachment.
    pub load: LoadOp,
    /// Store operation of the single color attachment.
    pub store: StoreOp,
    /// Number of color attachments.
    pub color_attachment_count: usize,
    /// Whether a depth/stencil attachment is bound.
    pub has_depth_stencil: bool,
    /// Whether the color attachment resolves into a second target.
    pub has_resolve_target: bool,
    /// Whether the graphics pipeline is bound to the pass.
    pub binds_pipeline: bool,
    /// Number of draw calls issued inside the pass.
    pub draw_count: usize,
}

/// The render pass of the baseline frame: clear the single color attachment
/// to opaque green, persist the result, bind the pipeline, and issue no draw
/// call.
pub open spec fn baseline_pass_config() -> RenderPassConfig {
    RenderPassConfig {
        load: LoadOp::Clear(clear_color()),
        store: StoreOp::Store,
        color_attachment_count: 1,
        has_depth_stencil: false,
        has_resolve_target: false,
        binds_pipeline: true,
        draw_count: 0,
    }
}

/// Builds the pass configuration every frame is recorded with.
pub fn render_pass_config() -> (c: RenderPassConfig)
    ensures
        c == baseline_pass_config(),
{
    RenderPassConfig {
        load: LoadOp::Clear(baseline_clear_color()),
        store: StoreOp::Store,
        color_attachment_count: 1,
        has_depth_stencil: false,
        has_resolve_target: false,
        binds_pipeline: true,
        draw_count: 0,
    }
}

} // verus!

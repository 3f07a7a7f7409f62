//! The fixed render pipeline, its two shader stages and the one draw call.

use vstd::prelude::*;
use crate::surface::TextureFormat;

verus! {

/// How consecutive vertices are assembled into primitives.
#[derive(Clone, Copy, Debug, PartialEq, Eq, Structural)]
pub enum PrimitiveTopology {
    PointList,
    LineList,
    LineStrip,
    TriangleList,
    TriangleStrip,
}

/// The winding order that marks a triangle's front.
#[derive(Clone, Copy, Debug, PartialEq, Eq, Structural)]
pub enum FrontFace {
    Ccw,
    Cw,
}

/// Which faces are dropped before rasterization.
#[derive(Clone, Copy, Debug, PartialEq, Eq, Structural)]
pub enum CullMode {
    /// No face is dropped.
    Neither,
    Front,
    Back,
}

/// Width of the indices of an indexed draw.
#[derive(Clone, Copy, Debug, PartialEq, Eq, Structural)]
pub enum IndexFormat {
    Uint16,
    Uint32,
}

/// A factor of the blend equation.
#[derive(Clone, Copy, Debug, PartialEq, Eq, Structural)]
pub enum BlendFactor {
    Zero,
    One,
    SrcColor,
    OneMinusSrcColor,
    SrcAlpha,
    OneMinusSrcAlpha,
    DstColor,
    OneMinusDstColor,
    DstAlpha,
    OneMinusDstAlpha,
    SrcAlphaSaturated,
    BlendColor,
    OneMinusBlendColor,
}

/// The operation of the blend equation.
#[derive(Clone, Copy, Debug, PartialEq, Eq, Structural)]
pub enum BlendOperation {
    Add,
    Subtract,
    ReverseSubtract,
    Min,
    Max,
}

/// How a fragment's value is combined with what the target holds.
#[derive(Clone, Copy, Debug, PartialEq, Eq, Structural)]
pub struct BlendConfig {
    pub src_factor: BlendFactor,
    pub dst_factor: BlendFactor,
    pub operation: BlendOperation,
}

impl BlendConfig {
    /// The fragment's value replaces what the target holds.
    pub open spec fn replace() -> BlendConfig {
        BlendConfig {
            src_factor: BlendFactor::One,
            dst_factor: BlendFactor::Zero,
            operation: BlendOperation::Add,
        }
    }
}

/// Write mask bit of the red channel.
pub const COLOR_WRITE_RED: u32 = 1;

/// Write mask bit of the green channel.
pub const COLOR_WRITE_GREEN: u32 = 2;

/// Write mask bit of the blue channel.
pub const COLOR_WRITE_BLUE: u32 = 4;

/// Write mask bit of the alpha channel.
pub const COLOR_WRITE_ALPHA: u32 = 8;

/// Write mask with all four channels enabled.
pub const COLOR_WRITE_ALL: u32 = 15;

/// How the compiler learns which stage a source text is for.
#[derive(Clone, Copy, Debug, PartialEq, Eq, Structural)]
pub enum ShaderKind {
    Vertex,
    Fragment,
    /// The source text names its stage in a pragma.
    InferFromSource,
}

/// The two programmable stages of the pipeline.
#[derive(Clone, Copy, Debug, PartialEq, Eq, Structural)]
pub enum ShaderStage {
    Vertex,
    Fragment,
}

impl ShaderStage {
    /// The name under which the stage's source text is reported to the compiler.
    pub open spec fn source_name(self) -> Seq<char> {
        match self {
            ShaderStage::Vertex => "shader.vert"@,
            ShaderStage::Fragment => "shader.frag"@,
        }
    }

    /// The name of the function at which both stages start.
    pub open spec fn entry_name() -> Seq<char> {
        "main"@
    }

    /// Returns the name under which the stage's source text is compiled.
    pub fn file_name(self) -> (name: &'static str)
        ensures
            name@ == self.source_name(),
    {
        match self {
            ShaderStage::Vertex => "shader.vert",
            ShaderStage::Fragment => "shader.frag",
        }
    }

    /// Returns the name of the stage's entry function, `main` for either stage.
    pub fn entry_point(self) -> (name: &'static str)
        ensures
            name@ == ShaderStage::entry_name(),
    {
        "main"
    }

    /// Returns the kind handed to the compiler: either stage is inferred
    /// from its source text.
    pub fn kind(self) -> (kind: ShaderKind)
        ensures
            kind == ShaderKind::InferFromSource,
    {
        ShaderKind::InferFromSource
    }
}

/// The settings of the render pipeline and of its layout that are plain values.
#[derive(Clone, Copy, Debug, PartialEq, Eq, Structural)]
pub struct PipelineConfig {
    /// Number of bind group layouts in the pipeline's layout.
    pub bind_group_layouts: u32,
    /// Number of push constant ranges in the pipeline's layout.
    pub push_constant_ranges: u32,
    pub front_face: FrontFace,
    pub cull_mode: CullMode,
    pub clamp_depth: bool,
    pub depth_bias: i32,
    pub topology: PrimitiveTopology,
    /// Number of color targets; all have the format, blends and mask below.
    pub color_targets: u32,
    pub color_format: TextureFormat,
    pub alpha_blend: BlendConfig,
    pub color_blend: BlendConfig,
    /// Channels written, as a sum of the `COLOR_WRITE_` bits.
    pub write_mask: u32,
    /// Whether a depth/stencil state is attached.
    pub depth_stencil: bool,
    pub index_format: IndexFormat,
    /// Number of vertex buffers the vertex stage reads.
    pub vertex_buffers: u32,
    pub sample_count: u32,
    pub sample_mask: u32,
    pub alpha_to_coverage: bool,
}

impl PipelineConfig {
    /// The pipeline that draws the triangle into a target of `format`: an
    /// empty layout, counter-clockwise fronts with nothing culled, a triangle
    /// list with no vertex input, one color target that is overwritten in all
    /// four channels, no depth or stencil state, one sample per pixel and
    /// every sample enabled.
    pub open spec fn triangle(format: TextureFormat) -> PipelineConfig {
        PipelineConfig {
            bind_group_layouts: 0,
            push_constant_ranges: 0,
            front_face: FrontFace::Ccw,
            cull_mode: CullMode::Neither,
            clamp_depth: false,
            depth_bias: 0,
            topology: PrimitiveTopology::TriangleList,
            color_targets: 1,
            color_format: format,
            alpha_blend: BlendConfig::replace(),
            color_blend: BlendConfig::replace(),
            write_mask: COLOR_WRITE_ALL,
            depth_stencil: false,
            index_format: IndexFormat::Uint16,
            vertex_buffers: 0,
            sample_count: 1,
            sample_mask: u32::MAX,
            alpha_to_coverage: false,
        }
    }

    /// The label of the pipeline.
    pub open spec fn label_text() -> Seq<char> {
        "my pipeline"@
    }

    /// The label of the pipeline's layout.
    pub open spec fn layout_label_text() -> Seq<char> {
        "a pipeline layout of mine"@
    }

    /// Builds the triangle pipeline for a color target of `format`.
    pub fn for_format(format: TextureFormat) -> (config: PipelineConfig)
        ensures
            config == PipelineConfig::triangle(format),
    {
        let replace = BlendConfig {
            src_factor: BlendFactor::One,
            dst_factor: BlendFactor::Zero,
            operation: BlendOperation::Add,
        };
        PipelineConfig {
            bind_group_layouts: 0,
            push_constant_ranges: 0,
            front_face: FrontFace::Ccw,
            cull_mode: CullMode::Neither,
            clamp_depth: false,
            depth_bias: 0,
            topology: PrimitiveTopology::TriangleList,
            color_targets: 1,
            color_format: format,
            alpha_blend: replace,
            color_blend: replace,
            write_mask: COLOR_WRITE_ALL,
            depth_stencil: false,
            index_format: IndexFormat::Uint16,
            vertex_buffers: 0,
            sample_count: 1,
            sample_mask: u32::MAX,
            alpha_to_coverage: false,
        }
    }

    /// Returns the label under which the pipeline is created.
    pub fn label(&self) -> (label: &'static str)
        ensures
            label@ == PipelineConfig::label_text(),
    {
        "my pipeline"
    }

    /// Returns the label under which the pipeline's layout is created.
    pub fn layout_label(&self) -> (label: &'static str)
        ensures
            label@ == PipelineConfig::layout_label_text(),
    {
        "a pipeline layout of mine"
    }
}

/// A draw call over half-open ranges of vertices and instances.
#[derive(Clone, Copy, Debug, PartialEq, Eq, Structural)]
pub struct DrawCall {
    pub vertex_start: u32,
    pub vertex_end: u32,
    pub instance_start: u32,
    pub instance_end: u32,
}

impl DrawCall {
    /// Number of vertices the call draws.
    pub open spec fn vertices(self) -> int {
        self.vertex_end - self.vertex_start
    }

    /// Number of instances the call draws.
    pub open spec fn instances(self) -> int {
        self.instance_end - self.instance_start
    }
}

/// What one frame records: the attachments of its one render pass, whether
/// the target is cleared and stored, and the draw call issued with the
/// pipeline bound.
#[derive(Clone, Copy, Debug, PartialEq, Eq, Structural)]
pub struct RenderPass {
    /// Number of color attachments; each is the frame's presentable image.
    pub color_attachments: u32,
    /// Whether the color attachment is resolved into a second target.
    pub resolve_target: bool,
    /// Whether a depth/stencil attachment is bound.
    pub depth_stencil_attachment: bool,
    /// Whether the target is cleared to the current clear color first.
    pub clear: bool,
    /// Whether what was drawn is written back to the target.
    pub store: bool,
    pub draw: DrawCall,
}

impl RenderPass {
    /// The pass of every frame: one color attachment without resolve target,
    /// no depth or stencil attachment; clear, draw vertices 0 to 2 once, store.
    pub open spec fn triangle() -> RenderPass {
        RenderPass {
            color_attachments: 1,
            resolve_target: false,
            depth_stencil_attachment: false,
            clear: true,
            store: true,
            draw: DrawCall { vertex_start: 0, vertex_end: 3, instance_start: 0, instance_end: 1 },
        }
    }

    /// The label of the command encoder that records the pass.
    pub open spec fn encoder_label_text() -> Seq<char> {
        "Render Encoder"@
    }

    /// Returns the label under which the pass's command encoder is created.
    pub fn encoder_label(&self) -> (label: &'static str)
        ensures
            label@ == RenderPass::encoder_label_text(),
    {
        "Render Encoder"
    }
}

} // verus!

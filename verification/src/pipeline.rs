//! Draw pipelines: one per shape kind, all built from one vertex stage and one
//! uniform layout, and alike in everything but the fragment stage.

use vstd::prelude::*;
use crate::geometry::Vertex;
use crate::geometry::VertexBufferLayout;
use crate::shape::ShapeKind;
use crate::surface::TextureFormat;

verus! {

/// The precompiled shader programs. What is inside them is not this
/// library's business; it only says which one goes where.
#[derive(Clone, Copy, Debug, PartialEq, Eq, Structural)]
pub enum ShaderModule {
    /// The vertex stage that all pipelines share.
    Vertex,
    /// Fills the whole quad.
    RectFragment,
    /// Fills the quad within its inscribed ellipse and discards the rest.
    EllipseFragment,
}

impl ShaderModule {
    /// Where the compiled program lies, from the directory the renderer is started in.
    pub open spec fn path(self) -> Seq<char> {
        match self {
            ShaderModule::Vertex => "shaders/shader.vert.spv"@,
            ShaderModule::RectFragment => "shaders/rect.frag.spv"@,
            ShaderModule::EllipseFragment => "shaders/ellipse.frag.spv"@,
        }
    }

    /// The file that holds the compiled program.
    pub fn file(self) -> (name: &'static str)
        ensures
            name@ == self.path(),
    {
        match self {
            ShaderModule::Vertex => "shaders/shader.vert.spv",
            ShaderModule::RectFragment => "shaders/rect.frag.spv",
            ShaderModule::EllipseFragment => "shaders/ellipse.frag.spv",
        }
    }
}

/// The stages of a pipeline that can see a binding.
#[derive(Clone, Copy, Debug, PartialEq, Eq, Structural)]
pub enum ShaderStage {
    Vertex,
    Fragment,
    Compute,
}

/// Kinds of buffer binding.
#[derive(Clone, Copy, Debug, PartialEq, Eq, Structural)]
pub enum BufferBindingType {
    Uniform,
    Storage { read_only: bool },
}

/// One binding of a bind group layout: a buffer.
#[derive(Clone, Copy, Debug, PartialEq, Eq, Structural)]
pub struct BindGroupLayoutEntry {
    pub binding: u32,
    pub visibility: ShaderStage,
    pub ty: BufferBindingType,
    pub has_dynamic_offset: bool,
    pub min_binding_size: Option<u64>,
    pub count: Option<u32>,
}

/// A bind group layout with a single entry.
#[derive(Clone, Copy, Debug, PartialEq, Eq, Structural)]
pub struct BindGroupLayoutDescriptor {
    pub entry: BindGroupLayoutEntry,
}

/// A pipeline layout: one bind group, at index 0, and so many push constant ranges.
#[derive(Clone, Copy, Debug, PartialEq, Eq, Structural)]
pub struct PipelineLayoutDescriptor {
    pub bind_group_layout: BindGroupLayoutDescriptor,
    pub push_constant_ranges: u32,
}

/// How vertices are assembled into primitives.
#[derive(Clone, Copy, Debug, PartialEq, Eq, Structural)]
pub enum PrimitiveTopology {
    PointList,
    LineList,
    LineStrip,
    TriangleList,
    TriangleStrip,
}

/// Winding order of a front face.
#[derive(Clone, Copy, Debug, PartialEq, Eq, Structural)]
pub enum FrontFace {
    Ccw,
    Cw,
}

/// Which faces are dropped before rasterization.
#[derive(Clone, Copy, Debug, PartialEq, Eq, Structural)]
pub enum CullMode {
    Off,
    Front,
    Back,
}

/// How a polygon is rasterized.
#[derive(Clone, Copy, Debug, PartialEq, Eq, Structural)]
pub enum PolygonMode {
    Fill,
    Line,
    Point,
}

/// Operands of the blend equation.
#[derive(Clone, Copy, Debug, PartialEq, Eq, Structural)]
pub enum BlendFactor {
    Zero,
    One,
    SrcColor,
    OneMinusSrcColor,
    SrcAlpha,
    OneMinusSrcAlpha,
    DstColor,
    OneMinusDstColor,
    DstAlpha,
    OneMinusDstAlpha,
    SrcAlphaSaturated,
    BlendColor,
    OneMinusBlendColor,
}

/// Operators of the blend equation.
#[derive(Clone, Copy, Debug, PartialEq, Eq, Structural)]
pub enum BlendOperation {
    Add,
    Subtract,
    ReverseSubtract,
    Min,
    Max,
}

/// A blend equation: `src * src_factor (operation) dst * dst_factor`.
#[derive(Clone, Copy, Debug, PartialEq, Eq, Structural)]
pub struct BlendState {
    pub src_factor: BlendFactor,
    pub dst_factor: BlendFactor,
    pub operation: BlendOperation,
}

impl BlendState {
    /// The equation under which what is drawn replaces what was there.
    pub open spec fn replace() -> BlendState {
        BlendState {
            src_factor: BlendFactor::One,
            dst_factor: BlendFactor::Zero,
            operation: BlendOperation::Add,
        }
    }
}

/// Bit mask of all four colour channels.
pub const COLOR_WRITE_ALL: u32 = 15;

/// Sample mask that lets every sample through.
pub const SAMPLE_MASK_ALL: u64 = 0xFFFF_FFFF_FFFF_FFFF;

/// State of the one colour target of a pipeline.
#[derive(Clone, Copy, Debug, PartialEq, Eq, Structural)]
pub struct ColorTargetState {
    pub format: TextureFormat,
    pub alpha_blend: BlendState,
    pub color_blend: BlendState,
    pub write_mask: u32,
}

/// Primitive assembly and rasterization state.
#[derive(Clone, Copy, Debug, PartialEq, Eq, Structural)]
pub struct PrimitiveState {
    pub topology: PrimitiveTopology,
    pub strip_index_format: Option<crate::geometry::IndexFormat>,
    pub front_face: FrontFace,
    pub cull_mode: CullMode,
    pub polygon_mode: PolygonMode,
}

/// Multisampling state.
#[derive(Clone, Copy, Debug, PartialEq, Eq, Structural)]
pub struct MultisampleState {
    pub count: u32,
    pub mask: u64,
    pub alpha_to_coverage_enabled: bool,
}

/// The vertex stage and the one buffer it reads.
#[derive(Clone, Copy, Debug, PartialEq, Eq, Structural)]
pub struct VertexState {
    pub module: ShaderModule,
    pub buffer: VertexBufferLayout,
}

/// The fragment stage and the one target it writes.
#[derive(Clone, Copy, Debug, PartialEq, Eq, Structural)]
pub struct FragmentState {
    pub module: ShaderModule,
    pub target: ColorTargetState,
}

/// Everything a draw pipeline is built from.
#[derive(Clone, Copy, Debug, PartialEq, Eq, Structural)]
pub struct RenderPipelineDescriptor {
    pub layout: PipelineLayoutDescriptor,
    pub vertex: VertexState,
    pub fragment: FragmentState,
    pub primitive: PrimitiveState,
    pub depth_stencil: bool,
    pub multisample: MultisampleState,
}

impl RenderPipelineDescriptor {
    /// The fixed-function state that all pipelines of the renderer have: a list
    /// of triangles, filled, back faces culled, one sample, no depth or stencil.
    pub open spec fn fixed_function(self) -> bool {
        &&& self.primitive == (PrimitiveState {
            topology: PrimitiveTopology::TriangleList,
            strip_index_format: None,
            front_face: FrontFace::Ccw,
            cull_mode: CullMode::Back,
            polygon_mode: PolygonMode::Fill,
        })
        &&& self.multisample == (MultisampleState {
            count: 1,
            mask: SAMPLE_MASK_ALL,
            alpha_to_coverage_enabled: false,
        })
        &&& !self.depth_stencil
    }
}

impl ShapeKind {
    /// The fragment program that draws this kind.
    pub open spec fn fragment(self) -> ShaderModule {
        match self {
            ShapeKind::Rectangle => ShaderModule::RectFragment,
            ShapeKind::Ellipse => ShaderModule::EllipseFragment,
        }
    }

    /// The fragment program that draws this kind of shape.
    pub fn fragment_module(self) -> (m: ShaderModule)
        ensures
            m == self.fragment(),
    {
        match self {
            ShapeKind::Rectangle => ShaderModule::RectFragment,
            ShapeKind::Ellipse => ShaderModule::EllipseFragment,
        }
    }
}

/// Name of the function at which every shader stage is entered.
pub fn entry_point() -> (name: &'static str)
    ensures
        name@ == "main"@,
{
    "main"
}

/// Holds what all pipelines share, and builds a pipeline for a fragment stage.
#[derive(Clone, Copy, Debug, PartialEq, Eq, Structural)]
pub struct RenderPipelineFactory {
    pub vs_module: ShaderModule,
    pub uniform_bind_group_layout: BindGroupLayoutDescriptor,
    pub render_pipeline_layout: PipelineLayoutDescriptor,
}

impl RenderPipelineFactory {
    /// The layout of the uniform block: one uniform buffer at binding 0, of
    /// fixed offset, seen by the vertex stage.
    pub open spec fn uniform_layout() -> BindGroupLayoutDescriptor {
        BindGroupLayoutDescriptor {
            entry: BindGroupLayoutEntry {
                binding: 0,
                visibility: ShaderStage::Vertex,
                ty: BufferBindingType::Uniform,
                has_dynamic_offset: false,
                min_binding_size: None,
                count: None,
            },
        }
    }

    /// The factory: the shared vertex stage, the uniform layout, and a pipeline
    /// layout over that uniform layout alone, without push constants.
    pub open spec fn shared() -> RenderPipelineFactory {
        RenderPipelineFactory {
            vs_module: ShaderModule::Vertex,
            uniform_bind_group_layout: Self::uniform_layout(),
            render_pipeline_layout: PipelineLayoutDescriptor {
                bind_group_layout: Self::uniform_layout(),
                push_constant_ranges: 0,
            },
        }
    }

    /// The pipeline that this factory builds for a fragment stage and a target format.
    pub open spec fn pipeline(self, fs_module: ShaderModule, format: TextureFormat)
        -> RenderPipelineDescriptor {
        RenderPipelineDescriptor {
            layout: self.render_pipeline_layout,
            vertex: VertexState {
                module: self.vs_module,
                buffer: VertexBufferLayout {
                    array_stride: 16,
                    step_mode: crate::geometry::InputStepMode::Vertex,
                    position: crate::geometry::VertexAttribute {
                        offset: 0,
                        shader_location: 0,
                        format: crate::geometry::VertexFormat::Float2,
                    },
                    tex_coords: crate::geometry::VertexAttribute {
                        offset: 8,
                        shader_location: 1,
                        format: crate::geometry::VertexFormat::Float2,
                    },
                },
            },
            fragment: FragmentState {
                module: fs_module,
                target: ColorTargetState {
                    format,
                    alpha_blend: BlendState::replace(),
                    color_blend: BlendState::replace(),
                    write_mask: COLOR_WRITE_ALL,
                },
            },
            primitive: PrimitiveState {
                topology: PrimitiveTopology::TriangleList,
                strip_index_format: None,
                front_face: FrontFace::Ccw,
                cull_mode: CullMode::Back,
                polygon_mode: PolygonMode::Fill,
            },
            depth_stencil: false,
            multisample: MultisampleState {
                count: 1,
                mask: SAMPLE_MASK_ALL,
                alpha_to_coverage_enabled: false,
            },
        }
    }

    /// Makes the factory. See [`RenderPipelineFactory::shared`].
    pub fn new() -> (f: RenderPipelineFactory)
        ensures
            f == Self::shared(),
    {
        let uniform_bind_group_layout = BindGroupLayoutDescriptor {
            entry: BindGroupLayoutEntry {
                binding: 0,
                visibility: ShaderStage::Vertex,
                ty: BufferBindingType::Uniform,
                has_dynamic_offset: false,
                min_binding_size: None,
                count: None,
            },
        };
        let render_pipeline_layout = PipelineLayoutDescriptor {
            bind_group_layout: uniform_bind_group_layout,
            push_constant_ranges: 0,
        };
        RenderPipelineFactory {
            vs_module: ShaderModule::Vertex,
            uniform_bind_group_layout,
            render_pipeline_layout,
        }
    }

    /// Describes the pipeline that draws with `fs_module` into a target of `format`.
    ///
    /// Whatever the fragment stage, the pipeline reads the unit quad's vertex
    /// layout through the shared vertex stage, replaces what it draws over in
    /// all channels, and has the renderer's fixed-function state.
    pub fn create(&self, fs_module: ShaderModule, format: TextureFormat) -> (p:
        RenderPipelineDescriptor)
        ensures
            p == self.pipeline(fs_module, format),
            p.fixed_function(),
            p.vertex.module == self.vs_module,
            p.vertex.buffer.packed(),
            p.fragment.module == fs_module,
            p.fragment.target.format == format,
    {
        RenderPipelineDescriptor {
            layout: self.render_pipeline_layout,
            vertex: VertexState { module: self.vs_module, buffer: Vertex::desc() },
            fragment: FragmentState {
                module: fs_module,
                target: ColorTargetState {
                    format,
                    alpha_blend: BlendState {
                        src_factor: BlendFactor::One,
                        dst_factor: BlendFactor::Zero,
                        operation: BlendOperation::Add,
                    },
                    color_blend: BlendState {
                        src_factor: BlendFactor::One,
                        dst_factor: BlendFactor::Zero,
                        operation: BlendOperation::Add,
                    },
                    write_mask: COLOR_WRITE_ALL,
                },
            },
            primitive: PrimitiveState {
                topology: PrimitiveTopology::TriangleList,
                strip_index_format: None,
                front_face: FrontFace::Ccw,
                cull_mode: CullMode::Back,
                polygon_mode: PolygonMode::Fill,
            },
            depth_stencil: false,
            multisample: MultisampleState {
                count: 1,
                mask: SAMPLE_MASK_ALL,
                alpha_to_coverage_enabled: false,
            },
        }
    }
}

/// Two pipelines of one factory for one target format differ in their
/// fragment program and in nothing else: putting the fragment program of the
/// one into the other gives the one.
pub proof fn lemma_pipelines_differ_in_fragment_only(
    factory: RenderPipelineFactory,
    a: ShaderModule,
    b: ShaderModule,
    format: TextureFormat,
)
    ensures
        factory.pipeline(a, format) == (RenderPipelineDescriptor {
            fragment: FragmentState { module: a, ..factory.pipeline(b, format).fragment },
            ..factory.pipeline(b, format)
        }),
        factory.pipeline(a, format).fixed_function(),
{
}

/// Each shape kind has a fragment program of its own, and none draws with the
/// vertex program.
pub proof fn lemma_fragment_tells_kinds_apart(a: ShapeKind, b: ShapeKind)
    ensures
        a.fragment() == b.fragment() <==> a == b,
        a.fragment() != ShaderModule::Vertex,
{
}

} // verus!

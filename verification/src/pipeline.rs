//! What the GPU is asked to build for an effect, as plain values.
//!
//! The caller turns a [`Setup`] into buffers, a bind group and a render
//! pipeline on its device. Nothing here touches a device.

use vstd::prelude::*;
use crate::vertex::VERTEX_2D_STRIDE;

verus! {

/// How vertices are assembled into primitives.
#[derive(Clone, Copy, Debug, PartialEq, Eq, Structural)]
pub enum Topology {
    PointList,
    LineList,
    LineStrip,
    TriangleList,
    TriangleStrip,
}

/// The winding that marks the front of a triangle.
#[derive(Clone, Copy, Debug, PartialEq, Eq, Structural)]
pub enum FrontFace {
    Ccw,
    Cw,
}

/// A side of a triangle.
#[derive(Clone, Copy, Debug, PartialEq, Eq, Structural)]
pub enum Face {
    Front,
    Back,
}

/// How a triangle is rasterized.
#[derive(Clone, Copy, Debug, PartialEq, Eq, Structural)]
pub enum PolygonMode {
    Fill,
    Line,
    Point,
}

/// Width of the indices of a strip.
#[derive(Clone, Copy, Debug, PartialEq, Eq, Structural)]
pub enum IndexFormat {
    Uint16,
    Uint32,
}

/// How often the vertex buffer advances.
#[derive(Clone, Copy, Debug, PartialEq, Eq, Structural)]
pub enum StepMode {
    Vertex,
    Instance,
}

/// Type of a vertex attribute: one to four single-precision numbers.
#[derive(Clone, Copy, Debug, PartialEq, Eq, Structural)]
pub enum VertexFormat {
    Float32,
    Float32x2,
    Float32x3,
    Float32x4,
}

/// The shader stages that see a binding.
#[derive(Clone, Copy, Debug, PartialEq, Eq, Structural)]
pub struct Stages {
    pub vertex: bool,
    pub fragment: bool,
    pub compute: bool,
}

/// What a buffer may be used for.
#[derive(Clone, Copy, Debug, PartialEq, Eq, Structural)]
pub struct BufferUsage {
    pub vertex: bool,
    pub uniform: bool,
    pub copy_dst: bool,
}

/// One input of the vertex stage.
#[derive(Clone, Copy, Debug, PartialEq, Eq, Structural)]
pub struct VertexAttribute {
    pub format: VertexFormat,
    pub offset: u64,
    pub shader_location: u32,
}

/// The vertex buffer as the vertex stage reads it.
#[derive(Clone, Copy, Debug, PartialEq, Eq, Structural)]
pub struct VertexLayout {
    pub array_stride: u64,
    pub step_mode: StepMode,
    pub attribute: VertexAttribute,
}

/// Primitive assembly and rasterization.
#[derive(Clone, Copy, Debug, PartialEq, Eq, Structural)]
pub struct Primitive {
    pub topology: Topology,
    pub strip_index_format: Option<IndexFormat>,
    pub front_face: FrontFace,
    pub cull_mode: Option<Face>,
    pub unclipped_depth: bool,
    pub polygon_mode: PolygonMode,
    pub conservative: bool,
}

/// Multisampling.
#[derive(Clone, Copy, Debug, PartialEq, Eq, Structural)]
pub struct Multisample {
    pub count: u32,
    pub mask: u64,
    pub alpha_to_coverage_enabled: bool,
}

/// The uniform buffer as the shader sees it: the slot it is bound at, and
/// the part of the buffer that is bound.
#[derive(Clone, Copy, Debug, PartialEq, Eq, Structural)]
pub struct UniformSlot {
    pub group: u32,
    pub binding: u32,
    pub visibility: Stages,
    pub has_dynamic_offset: bool,
    pub min_binding_size: Option<u64>,
    pub offset: u64,
    pub size: Option<u64>,
}

/// A render pipeline with one vertex buffer, one uniform buffer and one
/// colour target in the format of the surface.
#[derive(Clone, Copy, Debug, PartialEq, Eq, Structural)]
pub struct PipelineConfig {
    pub vertex: VertexLayout,
    pub uniform: UniformSlot,
    pub primitive: Primitive,
    pub depth_stencil: bool,
    pub multisample: Multisample,
}

/// A buffer to create, with what it holds at first.
pub struct BufferInit {
    pub contents: Vec<u8>,
    pub usage: BufferUsage,
}

/// All that is created once for an effect.
pub struct Setup {
    pub vertex_buffer: BufferInit,
    pub uniform_buffer: BufferInit,
    pub pipeline: PipelineConfig,
}

/// The pipeline that draws a quad of [`crate::vertex::Vertex2D`] with one
/// uniform buffer: a list of triangles whose front runs clockwise, nothing
/// culled, filled, no depth or stencil test, one sample per pixel. The
/// uniform buffer is bound whole at slot 0 of group 0 and seen by every
/// stage.
pub open spec fn quad_pipeline() -> PipelineConfig {
    PipelineConfig {
        vertex: VertexLayout {
            array_stride: VERTEX_2D_STRIDE,
            step_mode: StepMode::Vertex,
            attribute: VertexAttribute {
                format: VertexFormat::Float32x2,
                offset: 0,
                shader_location: 0,
            },
        },
        uniform: UniformSlot {
            group: 0,
            binding: 0,
            visibility: Stages { vertex: true, fragment: true, compute: true },
            has_dynamic_offset: false,
            min_binding_size: None,
            offset: 0,
            size: None,
        },
        primitive: Primitive {
            topology: Topology::TriangleList,
            strip_index_format: None,
            front_face: FrontFace::Cw,
            cull_mode: None,
            unclipped_depth: false,
            polygon_mode: PolygonMode::Fill,
            conservative: false,
        },
        depth_stencil: false,
        multisample: Multisample {
            count: 1,
            mask: u64::MAX,
            alpha_to_coverage_enabled: false,
        },
    }
}

impl Stages {
    /// Every stage.
    pub fn all() -> (s: Stages)
        ensures
            s == (Stages { vertex: true, fragment: true, compute: true }),
    {
        Stages { vertex: true, fragment: true, compute: true }
    }
}

impl PipelineConfig {
    /// The pipeline of [`quad_pipeline`].
    pub fn quad() -> (config: PipelineConfig)
        ensures
            config == quad_pipeline(),
    {
        PipelineConfig {
            vertex: VertexLayout {
                array_stride: VERTEX_2D_STRIDE,
                step_mode: StepMode::Vertex,
                attribute: VertexAttribute {
                    format: VertexFormat::Float32x2,
                    offset: 0,
                    shader_location: 0,
                },
            },
            uniform: UniformSlot {
                group: 0,
                binding: 0,
                visibility: Stages::all(),
                has_dynamic_offset: false,
                min_binding_size: None,
                offset: 0,
                size: None,
            },
            primitive: Primitive {
                topology: Topology::TriangleList,
                strip_index_format: None,
                front_face: FrontFace::Cw,
                cull_mode: None,
                unclipped_depth: false,
                polygon_mode: PolygonMode::Fill,
                conservative: false,
            },
            depth_stencil: false,
            multisample: Multisample { count: 1, mask: u64::MAX, alpha_to_coverage_enabled: false },
        }
    }
}

} // verus!

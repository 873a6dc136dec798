//! The fixed configuration of the one graphics pipeline, and the layout of
//! the vertex buffer that feeds it.
//!
//! A vertex is two vectors of three 32-bit floats, position then normal,
//! with nothing between them.

use vstd::prelude::*;

verus! {

/// Bytes of one 32-bit float.
pub const FLOAT_BYTES: u64 = 4;

/// Components of a position and of a normal.
pub const VECTOR_COMPONENTS: u32 = 3;

/// One input of the vertex stage: `components` 32-bit floats that start
/// `offset` bytes into the vertex.
#[derive(Clone, Copy, Debug, PartialEq, Eq, Structural)]
pub struct VertexAttribute {
    pub offset: u64,
    pub shader_location: u32,
    pub components: u32,
}

/// The layout of one vertex in the vertex buffer.
#[derive(Clone, Copy, Debug, PartialEq, Eq, Structural)]
pub struct VertexLayout {
    /// Bytes from one vertex to the next.
    pub array_stride: u64,
    pub position: VertexAttribute,
    pub normal: VertexAttribute,
}

impl VertexAttribute {
    /// Bytes that the attribute occupies.
    pub open spec fn size(&self) -> int {
        self.components * FLOAT_BYTES
    }
}

impl VertexLayout {
    /// The position comes first, the normal follows it at once, and the next
    /// vertex follows the normal at once.
    pub open spec fn tightly_packed(&self) -> bool {
        &&& self.position.offset == 0
        &&& self.normal.offset == self.position.offset + self.position.size()
        &&& self.array_stride == self.normal.offset + self.normal.size()
    }
}

/// The vertex layout of the mesh: position at shader location 0, normal at
/// location 1, three floats each, 24 bytes for a vertex.
pub fn vertex_layout() -> (layout: VertexLayout)
    ensures
        layout.tightly_packed(),
        layout.position == (VertexAttribute { offset: 0, shader_location: 0, components: 3 }),
        layout.normal == (VertexAttribute { offset: 12, shader_location: 1, components: 3 }),
        layout.array_stride == 24,
{
    let position = VertexAttribute {
        offset: 0,
        shader_location: 0,
        components: VECTOR_COMPONENTS,
    };
    let normal = VertexAttribute {
        offset: position.offset + position.components as u64 * FLOAT_BYTES,
        shader_location: 1,
        components: VECTOR_COMPONENTS,
    };
    VertexLayout {
        array_stride: normal.offset + normal.components as u64 * FLOAT_BYTES,
        position,
        normal,
    }
}

/// How vertices are assembled into primitives.
#[derive(Clone, Copy, Debug, PartialEq, Eq, Structural)]
pub enum Topology {
    TriangleList,
    TriangleStrip,
}

/// The winding of a triangle that faces the viewer.
#[derive(Clone, Copy, Debug, PartialEq, Eq, Structural)]
pub enum FrontFace {
    CounterClockwise,
    Clockwise,
}

/// Which triangles are dropped before they are filled.
#[derive(Clone, Copy, Debug, PartialEq, Eq, Structural)]
pub enum Culling {
    Off,
    FrontFaces,
    BackFaces,
}

/// When a fragment passes the depth test.
#[derive(Clone, Copy, Debug, PartialEq, Eq, Structural)]
pub enum DepthTest {
    /// Never tested: every fragment passes.
    Always,
    /// The fragment is nearer than what the depth target holds.
    Less,
    /// The fragment is nearer or as near.
    LessEqual,
}

/// The configuration of the pipeline.
#[derive(Clone, Copy, Debug, PartialEq, Eq, Structural)]
pub struct PipelineConfig {
    pub topology: Topology,
    pub front_face: FrontFace,
    pub culling: Culling,
    pub depth_test: DepthTest,
    pub depth_write: bool,
    pub sample_count: u32,
    pub vertex_layout: VertexLayout,
    /// Bind group and binding of the uniform block, and its size in bytes.
    pub uniform_group: u32,
    pub uniform_binding: u32,
    pub uniform_bytes: u64,
}

/// The pipeline that both bodies are drawn with.
pub open spec fn shared_pipeline() -> PipelineConfig {
    PipelineConfig {
        topology: Topology::TriangleList,
        front_face: FrontFace::CounterClockwise,
        culling: Culling::BackFaces,
        depth_test: DepthTest::Less,
        depth_write: true,
        sample_count: 1,
        vertex_layout: VertexLayout {
            array_stride: 24,
            position: VertexAttribute { offset: 0, shader_location: 0, components: 3 },
            normal: VertexAttribute { offset: 12, shader_location: 1, components: 3 },
        },
        uniform_group: 0,
        uniform_binding: 0,
        uniform_bytes: 144,
    }
}

/// The one pipeline: a triangle list whose counter-clockwise triangles face
/// the viewer, back faces culled, depth-tested with `Less` and writing depth,
/// one sample, the uniform block at binding 0 of bind group 0.
pub fn pipeline_config() -> (config: PipelineConfig)
    ensures
        config == shared_pipeline(),
        config.vertex_layout.tightly_packed(),
        config.uniform_bytes == crate::uniform::UNIFORM_BLOCK_BYTES,
{
    PipelineConfig {
        topology: Topology::TriangleList,
        front_face: FrontFace::CounterClockwise,
        culling: Culling::BackFaces,
        depth_test: DepthTest::Less,
        depth_write: true,
        sample_count: 1,
        vertex_layout: vertex_layout(),
        uniform_group: 0,
        uniform_binding: 0,
        uniform_bytes: crate::uniform::UNIFORM_BLOCK_BYTES as u64,
    }
}

} // verus!

//! Draw commands: what an effect asks of the GPU in one frame.
//!
//! The caller carries the commands out in order, on the resources it built
//! from the effect's [`crate::pipeline::Setup`].

use vstd::prelude::*;
use crate::layout::is_memory_image;
use crate::vertex::QUAD_VERTICES;

verus! {

/// One step of drawing an effect.
#[derive(Debug, PartialEq, Eq)]
pub enum DrawCommand {
    /// Overwrite the uniform buffer from `offset` on with `data`.
    WriteUniform { offset: u64, data: Vec<u8> },
    /// Make the effect's pipeline the current one.
    SetPipeline,
    /// Bind the effect's uniform buffer as group `index`, with no dynamic
    /// offsets.
    SetBindGroup { index: u32 },
    /// Bind the whole vertex buffer at `slot`.
    SetVertexBuffer { slot: u32 },
    /// Draw `vertex_count` vertices from `first_vertex` on, `instance_count`
    /// times.
    Draw { first_vertex: u32, vertex_count: u32, first_instance: u32, instance_count: u32 },
}

/// `commands` draw the quad once with `words` as the uniform buffer: the
/// buffer is overwritten from its start with the memory image of `words`,
/// then pipeline, uniform buffer (group 0) and vertex buffer (slot 0) are
/// bound, then the six vertices are drawn as one instance. Nothing else
/// happens.
pub open spec fn is_quad_draw(commands: Seq<DrawCommand>, words: Seq<u32>) -> bool {
    &&& commands.len() == 5
    &&& commands[0] matches DrawCommand::WriteUniform { offset, data }
        && offset == 0 && is_memory_image(words, data@)
    &&& commands[1] == DrawCommand::SetPipeline
    &&& commands[2] == (DrawCommand::SetBindGroup { index: 0 })
    &&& commands[3] == (DrawCommand::SetVertexBuffer { slot: 0 })
    &&& commands[4] == (DrawCommand::Draw {
        first_vertex: 0,
        vertex_count: QUAD_VERTICES,
        first_instance: 0,
        instance_count: 1,
    })
}

/// The commands that draw the quad once, with `data` as the new contents of
/// the uniform buffer.
pub(crate) fn quad_draw(data: Vec<u8>, words: Ghost<Seq<u32>>) -> (commands: Vec<DrawCommand>)
    requires
        is_memory_image(words@, data@),
    ensures
        is_quad_draw(commands@, words@),
{
    vec![
        DrawCommand::WriteUniform { offset: 0, data },
        DrawCommand::SetPipeline,
        DrawCommand::SetBindGroup { index: 0 },
        DrawCommand::SetVertexBuffer { slot: 0 },
        DrawCommand::Draw {
            first_vertex: 0,
            vertex_count: QUAD_VERTICES,
            first_instance: 0,
            instance_count: 1,
        },
    ]
}

} // verus!

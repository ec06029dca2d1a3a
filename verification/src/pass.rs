//! A pass: the commands of one draw, recorded once and run in any number of
//! frames.

use vstd::prelude::*;
use crate::pipeline::{DescriptorSetInfo, RenderPassInfo, WlxPipeline};
use crate::resource::BufferInfo;

verus! {

/// How often a recording is submitted.
#[derive(Clone, Copy, Debug, PartialEq, Eq, Structural)]
pub enum CommandBufferUsage {
    /// Once, after which it is discarded.
    OneTimeSubmit,
    /// Any number of times, one submission after the other.
    MultipleSubmit,
    /// Any number of times, also while an earlier submission still runs.
    SimultaneousUse,
}

/// One command of a pass.
#[derive(Clone, Copy, Debug, PartialEq, Eq, Structural)]
pub enum PassCommand {
    /// Sets viewport `first` to the rectangle of `width` by `height` pixels
    /// at the origin, with depths from 0 to 1.
    SetViewport { first: u32, width: u32, height: u32 },
    /// Binds the pass's pipeline.
    BindPipelineGraphics,
    /// Binds the pass's descriptor sets, `count` of them, from set
    /// `first_set` on.
    BindDescriptorSets { first_set: u32, count: usize },
    /// Binds the pass's vertex buffer at `first_binding`.
    BindVertexBuffers { first_binding: u32 },
    /// Binds the pass's index buffer.
    BindIndexBuffer,
    /// Draws `instance_count` instances of `index_count` indexed vertices.
    DrawIndexed {
        index_count: u32,
        instance_count: u32,
        first_index: u32,
        vertex_offset: i32,
        first_instance: u32,
    },
}

/// The recording of a pass: a secondary command buffer for the first subpass
/// of a render pass.
#[derive(Clone, Copy, Debug)]
pub struct SecondaryCommandBuffer {
    pub usage: CommandBufferUsage,
    /// The render pass inside which the recording runs.
    pub render_pass: RenderPassInfo,
    pub subpass: u32,
    pub commands: [PassCommand; 6],
}

/// A pass, with the resources that its recording refers to. They belong to
/// the pass, and live as long as it does.
#[derive(Debug)]
pub struct WlxPass {
    pub pipeline: WlxPipeline,
    pub vertex_buffer: BufferInfo,
    pub index_buffer: BufferInfo,
    pub descriptor_sets: Vec<DescriptorSetInfo>,
    pub command_buffer: SecondaryCommandBuffer,
}

/// The commands of a pass that draws `index_count` indices with `sets`
/// descriptor sets into a viewport of `width` by `height` pixels.
pub open spec fn recorded(width: u32, height: u32, sets: nat, index_count: u32) -> Seq<PassCommand> {
    seq![
        PassCommand::SetViewport { first: 0, width, height },
        PassCommand::BindPipelineGraphics,
        PassCommand::BindDescriptorSets { first_set: 0, count: sets as usize },
        PassCommand::BindVertexBuffers { first_binding: 0 },
        PassCommand::BindIndexBuffer,
        PassCommand::DrawIndexed {
            index_count,
            instance_count: 1,
            first_index: 0,
            vertex_offset: 0,
            first_instance: 0,
        },
    ]
}

impl WlxPass {
    /// The recording of a pass is that of its resources: it binds all of
    /// the pass's descriptor sets and draws every index of its index buffer,
    /// inside the render pass of its pipeline.
    pub open spec fn wf(self) -> bool {
        &&& self.index_buffer.len <= u32::MAX
        &&& self.command_buffer.render_pass == self.pipeline.render_pass
        &&& self.command_buffer.subpass == 0
        &&& self.command_buffer.commands@[0] matches PassCommand::SetViewport { width, height, .. }
        &&& self.command_buffer.commands@ == recorded(
            width,
            height,
            self.descriptor_sets@.len(),
            self.index_buffer.len as u32,
        )
    }

    /// Records the pass.
    ///
    /// The viewport is set to `dimensions`, the pipeline is bound, then the
    /// descriptor sets from set 0 on, the vertex buffer at binding 0 and the
    /// index buffer. One draw follows, of one instance and of all the
    /// indices.
    pub fn new(
        pipeline: WlxPipeline,
        dimensions: [u32; 2],
        vertex_buffer: BufferInfo,
        index_buffer: BufferInfo,
        descriptor_sets: Vec<DescriptorSetInfo>,
    ) -> (r: WlxPass)
        requires
            index_buffer.len <= u32::MAX,
        ensures
            r.wf(),
            r.pipeline == pipeline,
            r.vertex_buffer == vertex_buffer,
            r.index_buffer == index_buffer,
            r.descriptor_sets@ == descriptor_sets@,
            r.command_buffer.usage == CommandBufferUsage::MultipleSubmit,
            r.command_buffer.commands@ == recorded(
                dimensions[0],
                dimensions[1],
                descriptor_sets@.len(),
                index_buffer.len as u32,
            ),
    {
        let commands = [
            PassCommand::SetViewport { first: 0, width: dimensions[0], height: dimensions[1] },
            PassCommand::BindPipelineGraphics,
            PassCommand::BindDescriptorSets { first_set: 0, count: descriptor_sets.len() },
            PassCommand::BindVertexBuffers { first_binding: 0 },
            PassCommand::BindIndexBuffer,
            PassCommand::DrawIndexed {
                index_count: index_buffer.len as u32,
                instance_count: 1,
                first_index: 0,
                vertex_offset: 0,
                first_instance: 0,
            },
        ];
        assert(commands@ =~= recorded(
            dimensions[0],
            dimensions[1],
            descriptor_sets@.len(),
            index_buffer.len as u32,
        ));
        WlxPass {
            pipeline,
            vertex_buffer,
            index_buffer,
            descriptor_sets,
            command_buffer: SecondaryCommandBuffer {
                usage: CommandBufferUsage::MultipleSubmit,
                render_pass: pipeline.render_pass,
                subpass: 0,
                commands,
            },
        }
    }
}

/// A pass over an index buffer of `index_count` indices holds one indexed
/// draw and no other: the last of its commands, which draws `index_count`
/// indices once.
pub proof fn lemma_one_indexed_draw(width: u32, height: u32, sets: nat, index_count: u32)
    ensures
        forall|i: int|
            0 <= i < recorded(width, height, sets, index_count).len() ==> (#[trigger] recorded(
                width,
                height,
                sets,
                index_count,
            )[i] is DrawIndexed <==> i == 5),
        recorded(width, height, sets, index_count).len() == 6,
        recorded(width, height, sets, index_count)[5] == (PassCommand::DrawIndexed {
            index_count,
            instance_count: 1,
            first_index: 0,
            vertex_offset: 0,
            first_instance: 0,
        }),
{
}

} // verus!

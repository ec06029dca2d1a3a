//! The one pipeline of the renderer: a textured quad, blended by its alpha
//! into one color attachment.

use vstd::prelude::*;
use crate::format::{Format, ImageLayout, R32G32_SFLOAT};
use crate::graphics::WlxGraphics;
use crate::pass::{recorded, CommandBufferUsage, WlxPass};
use crate::resource::{BufferInfo, BufferUsage, MemoryPlacement, StagedBuffer};

verus! {

/// Name of the function that each shader stage starts at.
pub const ENTRY_POINT: &'static str = "main";

/// Bytes from one vertex to the next.
pub const VERTEX_STRIDE: u32 = 16;

/// One input of the vertex shader, as it lies in a vertex.
#[derive(Clone, Copy, Debug)]
pub struct VertexMember {
    /// Name of the input in the shader.
    pub name: &'static str,
    /// Byte at which the member starts in the vertex.
    pub offset: u32,
    pub format: Format,
    /// Bytes that the member takes.
    pub size: u32,
}

/// The members of a vertex: the position in two floating-point numbers of
/// 32 bits, then the texture coordinate in two more.
pub open spec fn vertex_layout() -> Seq<VertexMember> {
    seq![
        VertexMember { name: "in_pos", offset: 0, format: Format(R32G32_SFLOAT), size: 8 },
        VertexMember { name: "in_uv", offset: 8, format: Format(R32G32_SFLOAT), size: 8 },
    ]
}

/// Computes [`vertex_layout`].
pub fn vertex_members() -> (r: [VertexMember; 2])
    ensures
        r@ == vertex_layout(),
{
    let r = [
        VertexMember { name: "in_pos", offset: 0, format: Format(R32G32_SFLOAT), size: 8 },
        VertexMember { name: "in_uv", offset: 8, format: Format(R32G32_SFLOAT), size: 8 },
    ];
    assert(r@ =~= vertex_layout());
    r
}

/// A vertex is packed: its first member starts the vertex, each further
/// member starts where the one before it ends, and the last one ends the
/// vertex.
pub proof fn lemma_vertex_is_packed()
    ensures
        vertex_layout().len() > 0,
        vertex_layout()[0].offset == 0,
        forall|i: int|
            0 < i < vertex_layout().len() ==> (#[trigger] vertex_layout()[i]).offset
                == vertex_layout()[i - 1].offset + vertex_layout()[i - 1].size,
        vertex_layout().last().offset + vertex_layout().last().size == VERTEX_STRIDE,
{
}

/// What happens to an attachment when the render pass begins.
#[derive(Clone, Copy, Debug, PartialEq, Eq, Structural)]
pub enum LoadOp {
    Load,
    Clear,
    DontCare,
}

/// What happens to an attachment when the render pass ends.
#[derive(Clone, Copy, Debug, PartialEq, Eq, Structural)]
pub enum StoreOp {
    Store,
    DontCare,
}

/// A render pass with one subpass that draws to one color attachment and has
/// no depth or stencil attachment.
#[derive(Clone, Copy, Debug, PartialEq, Eq, Structural)]
pub struct RenderPassInfo {
    pub format: Format,
    /// Samples per pixel.
    pub samples: u32,
    pub load_op: LoadOp,
    pub store_op: StoreOp,
    /// Layout in which the target is when the render pass begins.
    pub initial_layout: ImageLayout,
    /// Layout in which the render pass leaves the target.
    pub final_layout: ImageLayout,
    /// Layout of the target while the subpass draws to it.
    pub subpass_layout: ImageLayout,
}

/// The fixed functions of the pipeline, and the subpass it is made for.
#[derive(Clone, Copy, Debug)]
pub struct PipelineInfo {
    /// Entry point of the vertex and of the fragment shader.
    pub entry_point: &'static str,
    /// The fragment's color is blended with the target's by its alpha.
    pub alpha_blending: bool,
    /// The viewport is set while recording, not when the pipeline is made.
    pub dynamic_viewport: bool,
    /// The subpass of the render pass that the pipeline draws in.
    pub subpass: u32,
}

/// A pipeline together with the render pass and the target it is bound to.
#[derive(Clone, Copy, Debug)]
pub struct WlxPipeline {
    pub graphics: WlxGraphics,
    pub pipeline: PipelineInfo,
    pub render_pass: RenderPassInfo,
    /// Format of the target.
    pub format: Format,
}

/// How a texture is magnified or minified.
#[derive(Clone, Copy, Debug, PartialEq, Eq, Structural)]
pub enum Filter {
    Nearest,
    Linear,
    Cubic,
}

/// What is sampled outside of a texture.
#[derive(Clone, Copy, Debug, PartialEq, Eq, Structural)]
pub enum SamplerAddressMode {
    Repeat,
    MirroredRepeat,
    ClampToEdge,
    ClampToBorder,
    MirrorClampToEdge,
}

/// How a texture is sampled.
#[derive(Clone, Copy, Debug, PartialEq, Eq, Structural)]
pub struct SamplerInfo {
    pub mag_filter: Filter,
    pub min_filter: Filter,
    /// Address mode along each of the three axes.
    pub address_mode: SamplerAddressMode,
}

/// What a descriptor set binds.
#[derive(Clone, Copy, Debug, PartialEq, Eq, Structural)]
pub enum DescriptorWrite {
    /// A texture with its sampler.
    ImageViewSampler(SamplerInfo),
    /// A uniform buffer.
    Buffer(BufferInfo),
}

/// A descriptor set with one binding.
#[derive(Clone, Copy, Debug, PartialEq, Eq, Structural)]
pub struct DescriptorSetInfo {
    /// Which of the pipeline's set layouts the set is laid out by.
    pub set: usize,
    pub binding: u32,
    pub write: DescriptorWrite,
}

impl RenderPassInfo {
    /// The render pass of a pipeline: the target is cleared when the pass
    /// begins and stored when it ends, and it is drawn to in the layout that
    /// is best for a color attachment.
    pub open spec fn color(
        format: Format,
        initial_layout: ImageLayout,
        final_layout: ImageLayout,
    ) -> RenderPassInfo {
        RenderPassInfo {
            format,
            samples: 1,
            load_op: LoadOp::Clear,
            store_op: StoreOp::Store,
            initial_layout,
            final_layout,
            subpass_layout: ImageLayout::ColorAttachmentOptimal,
        }
    }

    /// Two render passes are compatible if their attachments agree in format
    /// and sample count. What a pass does on load and store, and the
    /// layouts, do not count.
    pub open spec fn compatible(self, other: RenderPassInfo) -> bool {
        self.format == other.format && self.samples == other.samples
    }

    /// Computes [`RenderPassInfo::compatible`].
    pub fn is_compatible_with(&self, other: &RenderPassInfo) -> (r: bool)
        ensures
            r == self.compatible(*other),
    {
        self.format.0 == other.format.0 && self.samples == other.samples
    }
}

impl SamplerInfo {
    /// A sampler that filters both ways by `filter` and repeats the texture
    /// along every axis.
    pub open spec fn repeating(filter: Filter) -> SamplerInfo {
        SamplerInfo {
            mag_filter: filter,
            min_filter: filter,
            address_mode: SamplerAddressMode::Repeat,
        }
    }
}

impl WlxPipeline {
    /// What every pipeline holds, whatever its target: both shaders start at
    /// [`ENTRY_POINT`], colors are blended by alpha, the viewport is dynamic,
    /// and the render pass draws to the target's format.
    pub open spec fn wf(self) -> bool {
        &&& self.pipeline.entry_point == ENTRY_POINT
        &&& self.pipeline.alpha_blending
        &&& self.pipeline.dynamic_viewport
        &&& self.pipeline.subpass == 0
        &&& self.render_pass.format == self.format
    }

    /// A pipeline that renders to a texture: the target is in the color
    /// attachment layout before and after.
    pub fn new(graphics: WlxGraphics, format: Format) -> (r: WlxPipeline)
        ensures
            r.wf(),
            r.graphics == graphics,
            r.format == format,
            r.render_pass == RenderPassInfo::color(
                format,
                ImageLayout::ColorAttachmentOptimal,
                ImageLayout::ColorAttachmentOptimal,
            ),
    {
        Self::new_with_layout(
            graphics,
            format,
            ImageLayout::ColorAttachmentOptimal,
            ImageLayout::ColorAttachmentOptimal,
        )
    }

    /// A pipeline whose target is handed on: it is taken in
    /// `initial_layout` and left in `final_layout`.
    pub fn new_with_layout(
        graphics: WlxGraphics,
        format: Format,
        initial_layout: ImageLayout,
        final_layout: ImageLayout,
    ) -> (r: WlxPipeline)
        ensures
            r.wf(),
            r.graphics == graphics,
            r.format == format,
            r.render_pass == RenderPassInfo::color(format, initial_layout, final_layout),
    {
        let render_pass = RenderPassInfo {
            format,
            samples: 1,
            load_op: LoadOp::Clear,
            store_op: StoreOp::Store,
            initial_layout,
            final_layout,
            subpass_layout: ImageLayout::ColorAttachmentOptimal,
        };
        Self::new_from_pass(render_pass, graphics, format)
    }

    /// The pipeline for the first subpass of `render_pass`.
    pub fn new_from_pass(render_pass: RenderPassInfo, graphics: WlxGraphics, format: Format) -> (r:
        WlxPipeline)
        requires
            render_pass.format == format,
        ensures
            r.wf(),
            r.graphics == graphics,
            r.format == format,
            r.render_pass == render_pass,
    {
        WlxPipeline {
            graphics,
            pipeline: PipelineInfo {
                entry_point: ENTRY_POINT,
                alpha_blending: true,
                dynamic_viewport: true,
                subpass: 0,
            },
            render_pass,
            format,
        }
    }

    /// The fixed functions of the pipeline.
    pub fn inner(&self) -> (r: PipelineInfo)
        ensures
            r == self.pipeline,
    {
        self.pipeline
    }

    /// Describes the descriptor set that binds a texture at binding 0 of set
    /// layout `set`, sampled with `filter` and repeated along every axis.
    pub fn uniform_sampler(&self, set: usize, filter: Filter) -> (r: DescriptorSetInfo)
        ensures
            r == (DescriptorSetInfo {
                set,
                binding: 0,
                write: DescriptorWrite::ImageViewSampler(SamplerInfo::repeating(filter)),
            }),
    {
        DescriptorSetInfo {
            set,
            binding: 0,
            write: DescriptorWrite::ImageViewSampler(
                SamplerInfo {
                    mag_filter: filter,
                    min_filter: filter,
                    address_mode: SamplerAddressMode::Repeat,
                },
            ),
        }
    }

    /// Describes the descriptor set that binds a uniform buffer at binding 0
    /// of set layout `set`, and stages `data` for it: the buffer is as long
    /// as `data` and holds its elements, each in its place.
    pub fn uniform_buffer<T>(&self, set: usize, data: Vec<T>) -> (r: (
        DescriptorSetInfo,
        StagedBuffer<T>,
    ))
        requires
            data@.len() > 0,
        ensures
            r.0 == (DescriptorSetInfo {
                set,
                binding: 0,
                write: DescriptorWrite::Buffer(
                    BufferInfo::device(BufferUsage::Uniform, data@.len() as u64),
                ),
            }),
            r.1.info == BufferInfo::device(BufferUsage::Uniform, data@.len() as u64),
            r.1.contents@ == data@,
    {
        let info = BufferInfo {
            usage: BufferUsage::Uniform,
            placement: MemoryPlacement::DeviceUpload,
            len: data.len() as u64,
        };
        (
            DescriptorSetInfo { set, binding: 0, write: DescriptorWrite::Buffer(info) },
            StagedBuffer { info, contents: data },
        )
    }

    /// Records a pass that draws with this pipeline, see [`WlxPass::new`].
    pub fn create_pass(
        &self,
        dimensions: [u32; 2],
        vertex_buffer: BufferInfo,
        index_buffer: BufferInfo,
        descriptor_sets: Vec<DescriptorSetInfo>,
    ) -> (r: WlxPass)
        requires
            index_buffer.len <= u32::MAX,
        ensures
            r.wf(),
            r.pipeline == *self,
            r.vertex_buffer == vertex_buffer,
            r.index_buffer == index_buffer,
            r.descriptor_sets@ == descriptor_sets@,
            r.command_buffer.usage == CommandBufferUsage::MultipleSubmit,
            r.command_buffer.commands@ == recorded(
                dimensions[0],
                dimensions[1],
                descriptor_sets@.len(),
                index_buffer.len as u32,
            ),
    {
        WlxPass::new(*self, dimensions, vertex_buffer, index_buffer, descriptor_sets)
    }
}

} // verus!

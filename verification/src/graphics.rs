//! The rendering context: the instance, the device and its one queue, and
//! the resources that are made from it.

use vstd::prelude::*;
use vulkano::instance::InstanceExtensions;
use crate::device::{
    any_qualifies, is_chosen, is_first_serving, required_device_extensions,
    required_extension_set, required_extensions_known, select_physical_device, DeviceCandidate,
    DeviceSelection,
};
use crate::extensions::{
    device_extension_names, instance_extension_names, instance_extensions_union,
};
use crate::command::{FrameCommand, Recording, Stage, WlxCommandBuffer};
use crate::format::{Format, ImageLayout};
use crate::frame::{plan_import, DmabufFrame, DmabufImport, Rejection};
use crate::pass::CommandBufferUsage;
use crate::pipeline::{RenderPassInfo, WlxPipeline};
use crate::quad::{corner, indices, quad_corner, INDICES};
use crate::resource::{
    BufferInfo, BufferUsage, ImageInfo, ImageUsage, MemoryPlacement, StagedBuffer,
};

verus! {

/// Name of the layer that validates every call into Vulkan.
pub const VALIDATION_LAYER: &'static str = "VK_LAYER_KHRONOS_validation";

/// Number of secondary command buffers that the command pool sets aside at
/// a time.
pub const SECONDARY_BUFFER_COUNT: usize = 32;

/// How the Vulkan instance is created.
#[derive(Clone, Copy, Debug)]
pub struct InstanceInfo {
    /// Devices that do not conform in full are enumerated too.
    pub enumerate_portability: bool,
    /// Extensions of the window system and of the VR runtime.
    pub enabled_extensions: InstanceExtensions,
    /// Whether the validation layer is enabled.
    pub validation: bool,
}

/// Why no context can be made.
#[derive(Clone, Copy, Debug, PartialEq, Eq, Structural)]
pub enum ContextError {
    /// The Vulkan library in use has no name for one of the fixed device
    /// extensions.
    UnknownExtension,
    /// No physical device offers the extensions and a queue family that
    /// serves.
    NoSuitableDevice,
}

/// The rendering context.
#[derive(Clone, Copy, Debug)]
pub struct WlxGraphics {
    /// The physical device, the extensions enabled on it, and the family of
    /// the one queue.
    pub device: DeviceSelection,
    /// Rendering without render pass objects is enabled on the device.
    pub dynamic_rendering: bool,
    /// See [`SECONDARY_BUFFER_COUNT`].
    pub secondary_buffer_count: usize,
    /// The vertex buffer of the unit quad.
    pub quad_verts: BufferInfo,
    /// The corner at which each vertex of the unit quad stands. A vertex's
    /// position and its texture coordinate are both its corner: 0 on the
    /// near side of an axis and 1 on the far side.
    pub quad_corners: [(bool, bool); 4],
    /// The index buffer of the unit quad.
    pub quad_indices: BufferInfo,
    /// The indices that the index buffer holds.
    pub quad_index_values: [u16; 6],
}

/// How much of the surface's content shows what lies behind the window.
#[derive(Clone, Copy, Debug, PartialEq, Eq, Structural)]
pub enum CompositeAlpha {
    Opaque,
    PreMultiplied,
    PostMultiplied,
    Inherit,
}

/// The composite alpha modes that a surface supports.
#[derive(Clone, Copy, Debug, PartialEq, Eq, Structural)]
pub struct CompositeAlphas {
    pub opaque: bool,
    pub pre_multiplied: bool,
    pub post_multiplied: bool,
    pub inherit: bool,
}

/// What a surface supports, as far as a swapchain asks.
#[derive(Debug)]
pub struct SurfaceSupport {
    /// The least number of images that a swapchain must have.
    pub min_image_count: u32,
    pub composite_alpha: CompositeAlphas,
    /// Pixel formats, the preferred one first.
    pub formats: Vec<Format>,
}

/// How a swapchain is created.
#[derive(Clone, Copy, Debug, PartialEq, Eq, Structural)]
pub struct SwapchainInfo {
    pub min_image_count: u32,
    pub image_format: Format,
    pub width: u32,
    pub height: u32,
    pub image_usage: ImageUsage,
    pub composite_alpha: CompositeAlpha,
}

/// A stage of the device's pipeline, or a group of stages.
#[derive(Clone, Copy, Debug, PartialEq, Eq, Structural)]
pub enum PipelineStages {
    AllTransfer,
}

/// A kind of memory access.
#[derive(Clone, Copy, Debug, PartialEq, Eq, Structural)]
pub enum Access {
    TransferRead,
    TransferWrite,
}

/// A change of an image's layout, over all of its mip levels and layers.
///
/// It is recorded alone into a primary command buffer that is submitted
/// once, together with a fresh fence that the caller waits for.
#[derive(Clone, Copy, Debug, PartialEq, Eq, Structural)]
pub struct LayoutTransition {
    pub src_stages: PipelineStages,
    pub src_access: Access,
    pub dst_stages: PipelineStages,
    pub dst_access: Access,
    pub old_layout: ImageLayout,
    pub new_layout: ImageLayout,
    /// How often the command buffer that holds the barrier is submitted.
    pub usage: CommandBufferUsage,
    /// Family of the queue that the barrier is submitted to.
    pub queue_family_index: u32,
}

impl CompositeAlphas {
    /// The first mode that is supported, in the order opaque,
    /// pre-multiplied, post-multiplied, inherit.
    pub open spec fn first(self) -> Option<CompositeAlpha> {
        if self.opaque {
            Some(CompositeAlpha::Opaque)
        } else if self.pre_multiplied {
            Some(CompositeAlpha::PreMultiplied)
        } else if self.post_multiplied {
            Some(CompositeAlpha::PostMultiplied)
        } else if self.inherit {
            Some(CompositeAlpha::Inherit)
        } else {
            None
        }
    }

    /// Computes [`CompositeAlphas::first`].
    pub fn first_supported(&self) -> (r: Option<CompositeAlpha>)
        ensures
            r == self.first(),
    {
        if self.opaque {
            Some(CompositeAlpha::Opaque)
        } else if self.pre_multiplied {
            Some(CompositeAlpha::PreMultiplied)
        } else if self.post_multiplied {
            Some(CompositeAlpha::PostMultiplied)
        } else if self.inherit {
            Some(CompositeAlpha::Inherit)
        } else {
            None
        }
    }
}

impl InstanceInfo {
    /// The instance of a context: it enables what the window system and the
    /// VR runtime ask for, and the validation layer on request.
    pub fn new(
        library_extensions: &InstanceExtensions,
        runtime_extensions: &InstanceExtensions,
        validation: bool,
    ) -> (r: InstanceInfo)
        ensures
            r.enumerate_portability,
            r.validation == validation,
            instance_extension_names(r.enabled_extensions) == instance_extension_names(
                *library_extensions,
            ).union(instance_extension_names(*runtime_extensions)),
    {
        InstanceInfo {
            enumerate_portability: true,
            enabled_extensions: instance_extensions_union(library_extensions, runtime_extensions),
            validation,
        }
    }

    /// Names of the layers to enable: the validation layer or none.
    pub fn enabled_layers(&self) -> (r: Vec<&'static str>)
        ensures
            r@ == if self.validation {
                seq![VALIDATION_LAYER]
            } else {
                Seq::<&'static str>::empty()
            },
    {
        let mut layers: Vec<&'static str> = Vec::new();
        if self.validation {
            layers.push(VALIDATION_LAYER);
        }
        layers
    }
}

impl WlxGraphics {
    /// What every context holds beside the choice of its device: the unit
    /// quad with its four corners and six indices.
    pub open spec fn wf(self) -> bool {
        &&& self.dynamic_rendering
        &&& self.secondary_buffer_count == SECONDARY_BUFFER_COUNT
        &&& self.quad_verts == BufferInfo::device(BufferUsage::Vertex, 4)
        &&& self.quad_corners@ == Seq::new(4, |i: int| corner(i))
        &&& self.quad_indices == BufferInfo::device(BufferUsage::Index, 6)
        &&& self.quad_index_values@ == indices()
    }

    /// Whether a context can be made: `vulkano` knows the fixed extensions,
    /// and a device qualifies.
    pub open spec fn can_be_made(candidates: Seq<DeviceCandidate>, surface_requested: bool) -> bool {
        &&& required_extensions_known()
        &&& any_qualifies(candidates, required_extension_set(), surface_requested)
    }

    /// Whether `self` is the context on the best of `candidates`.
    pub open spec fn made_on(self, candidates: Seq<DeviceCandidate>, surface_requested: bool) -> bool {
        &&& self.wf()
        &&& is_chosen(
            candidates,
            required_extension_set(),
            surface_requested,
            self.device.index as int,
        )
        &&& device_extension_names(self.device.extensions)
            == candidates[self.device.index as int].needed(required_extension_set())
        &&& is_first_serving(
            candidates[self.device.index as int].queue_families@,
            surface_requested,
            self.device.queue_family_index as int,
        )
    }

    /// Makes the context on the best of the devices that were enumerated.
    ///
    /// The device is chosen as [`select_physical_device`] says, with the
    /// fixed extensions of [`required_device_extensions`]. The context
    /// renders with one queue of the first family that serves. Some device
    /// must qualify: see [`WlxGraphics::try_new`] for lists of which that is
    /// not known.
    pub fn new(candidates: &Vec<DeviceCandidate>, surface_requested: bool) -> (r: WlxGraphics)
        requires
            forall|i: int| 0 <= i < candidates@.len() ==> (#[trigger] candidates@[i]).wf(),
            Self::can_be_made(candidates@, surface_requested),
        ensures
            r.made_on(candidates@, surface_requested),
    {
        let required = required_device_extensions().unwrap();
        let device = select_physical_device(candidates, &required, surface_requested).unwrap();
        let quad_corners = [quad_corner(0), quad_corner(1), quad_corner(2), quad_corner(3)];
        assert(quad_corners@ =~= Seq::new(4, |i: int| corner(i)));
        WlxGraphics {
            device,
            dynamic_rendering: true,
            secondary_buffer_count: SECONDARY_BUFFER_COUNT,
            quad_verts: BufferInfo {
                usage: BufferUsage::Vertex,
                placement: MemoryPlacement::DeviceUpload,
                len: 4,
            },
            quad_corners,
            quad_indices: BufferInfo {
                usage: BufferUsage::Index,
                placement: MemoryPlacement::DeviceUpload,
                len: 6,
            },
            quad_index_values: INDICES,
        }
    }

    /// Makes the context where one can be made, and says why where none
    /// can.
    pub fn try_new(candidates: &Vec<DeviceCandidate>, surface_requested: bool) -> (r: Result<
        WlxGraphics,
        ContextError,
    >)
        requires
            forall|i: int| 0 <= i < candidates@.len() ==> (#[trigger] candidates@[i]).wf(),
        ensures
            match r {
                Ok(g) => Self::can_be_made(candidates@, surface_requested) && g.made_on(
                    candidates@,
                    surface_requested,
                ),
                Err(ContextError::UnknownExtension) => !required_extensions_known(),
                Err(ContextError::NoSuitableDevice) => required_extensions_known() && !any_qualifies(
                    candidates@,
                    required_extension_set(),
                    surface_requested,
                ),
            },
    {
        let required = match required_device_extensions() {
            Some(required) => required,
            None => {
                return Err(ContextError::UnknownExtension);
            },
        };
        if select_physical_device(candidates, &required, surface_requested).is_none() {
            return Err(ContextError::NoSuitableDevice);
        }
        Ok(Self::new(candidates, surface_requested))
    }

    /// The swapchain that presents to the context's surface.
    ///
    /// With a format given, the swapchain has one image of that format and
    /// is opaque. Without, it takes from the surface the least image count,
    /// the first composite alpha mode and the first format.
    pub open spec fn swapchain(
        format: Option<Format>,
        surface: SurfaceSupport,
        width: u32,
        height: u32,
    ) -> SwapchainInfo {
        let usage = ImageUsage {
            transfer_src: false,
            transfer_dst: false,
            sampled: false,
            color_attachment: true,
        };
        match format {
            Some(f) => SwapchainInfo {
                min_image_count: 1,
                image_format: f,
                width,
                height,
                image_usage: usage,
                composite_alpha: CompositeAlpha::Opaque,
            },
            None => SwapchainInfo {
                min_image_count: surface.min_image_count,
                image_format: surface.formats@[0],
                width,
                height,
                image_usage: usage,
                composite_alpha: surface.composite_alpha.first().unwrap(),
            },
        }
    }

    /// Describes the swapchain of a window of `width` by `height` pixels.
    pub fn create_swapchain(
        &self,
        format: Option<Format>,
        surface: &SurfaceSupport,
        width: u32,
        height: u32,
    ) -> (r: SwapchainInfo)
        requires
            format is None ==> surface.formats@.len() > 0 && surface.composite_alpha.first() is Some,
        ensures
            r == Self::swapchain(format, *surface, width, height),
    {
        let image_usage = ImageUsage {
            transfer_src: false,
            transfer_dst: false,
            sampled: false,
            color_attachment: true,
        };
        match format {
            Some(image_format) => SwapchainInfo {
                min_image_count: 1,
                image_format,
                width,
                height,
                image_usage,
                composite_alpha: CompositeAlpha::Opaque,
            },
            None => SwapchainInfo {
                min_image_count: surface.min_image_count,
                image_format: surface.formats[0],
                width,
                height,
                image_usage,
                composite_alpha: surface.composite_alpha.first_supported().unwrap(),
            },
        }
    }

    /// Stages the four vertices of a quad for upload as a vertex buffer.
    pub fn upload_verts<T: Copy>(&self, vertices: [T; 4]) -> (r: StagedBuffer<T>)
        ensures
            r.info == BufferInfo::upload(BufferUsage::Vertex, 4),
            r.contents@ == vertices@,
    {
        let mut contents: Vec<T> = Vec::new();
        contents.push(vertices[0]);
        contents.push(vertices[1]);
        contents.push(vertices[2]);
        contents.push(vertices[3]);
        assert(contents@ =~= vertices@);
        self.upload_buffer(BufferUsage::Vertex, contents)
    }

    /// Stages `contents` for upload: the buffer lies in memory that the host
    /// sees, is as long as `contents`, and is filled with its elements, each
    /// in its place, before the call that creates it returns.
    pub fn upload_buffer<T>(&self, usage: BufferUsage, contents: Vec<T>) -> (r: StagedBuffer<T>)
        requires
            contents@.len() > 0,
        ensures
            r.info == BufferInfo::upload(usage, contents@.len() as u64),
            r.contents@ == contents@,
    {
        StagedBuffer {
            info: BufferInfo { usage, placement: MemoryPlacement::Upload, len: contents.len() as u64 },
            contents,
        }
    }

    /// Plans the import of a shared frame as a texture, see [`plan_import`].
    pub fn dmabuf_texture(&self, frame: &DmabufFrame) -> (r: Result<DmabufImport, Rejection>)
        requires
            frame.well_formed(),
        ensures
            r == frame.import(),
    {
        plan_import(frame)
    }

    /// Describes an image to render to off screen. The image has a pixel.
    pub fn render_texture(&self, width: u32, height: u32, format: Format) -> (r: ImageInfo)
        requires
            width > 0,
            height > 0,
        ensures
            r == ImageInfo::render_target(width, height, format),
    {
        ImageInfo {
            width,
            height,
            format,
            usage: ImageUsage {
                transfer_src: true,
                transfer_dst: false,
                sampled: true,
                color_attachment: true,
            },
            placement: MemoryPlacement::Unspecified,
        }
    }

    /// A pipeline that renders to a texture of `format`, see
    /// [`WlxPipeline::new`].
    pub fn create_pipeline(&self, format: Format) -> (r: WlxPipeline)
        ensures
            r.wf(),
            r.graphics == *self,
            r.format == format,
            r.render_pass == RenderPassInfo::color(
                format,
                ImageLayout::ColorAttachmentOptimal,
                ImageLayout::ColorAttachmentOptimal,
            ),
    {
        WlxPipeline::new(*self, format)
    }

    /// A pipeline whose target is taken in `initial_layout` and left in
    /// `final_layout`, see [`WlxPipeline::new_with_layout`].
    pub fn create_pipeline_with_layouts(
        &self,
        format: Format,
        initial_layout: ImageLayout,
        final_layout: ImageLayout,
    ) -> (r: WlxPipeline)
        ensures
            r.wf(),
            r.graphics == *self,
            r.format == format,
            r.render_pass == RenderPassInfo::color(format, initial_layout, final_layout),
    {
        WlxPipeline::new_with_layout(*self, format, initial_layout, final_layout)
    }

    /// A command buffer for the context's queue, with nothing recorded.
    pub fn create_command_buffer(&self, usage: CommandBufferUsage) -> (r: WlxCommandBuffer)
        ensures
            r@ == (Recording {
                graphics: *self,
                usage,
                stage: Stage::Outside,
                commands: Seq::<FrameCommand>::empty(),
            }),
            r@.wf(),
    {
        WlxCommandBuffer::new(*self, usage)
    }

    /// Describes the barrier that takes an image from `old_layout` to
    /// `new_layout`: what transfers wrote before it is visible to the
    /// transfers that read after it.
    pub fn transition_layout(&self, old_layout: ImageLayout, new_layout: ImageLayout) -> (r:
        LayoutTransition)
        ensures
            r == (LayoutTransition {
                src_stages: PipelineStages::AllTransfer,
                src_access: Access::TransferWrite,
                dst_stages: PipelineStages::AllTransfer,
                dst_access: Access::TransferRead,
                old_layout,
                new_layout,
                usage: CommandBufferUsage::OneTimeSubmit,
                queue_family_index: self.device.queue_family_index,
            }),
    {
        LayoutTransition {
            src_stages: PipelineStages::AllTransfer,
            src_access: Access::TransferWrite,
            dst_stages: PipelineStages::AllTransfer,
            dst_access: Access::TransferRead,
            old_layout,
            new_layout,
            usage: CommandBufferUsage::OneTimeSubmit,
            queue_family_index: self.device.queue_family_index,
        }
    }
}

} // verus!

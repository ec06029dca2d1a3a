use vulkano::device::DeviceExtensions;
use vulkano::instance::InstanceExtensions;
use wlx_graphics::device::{DeviceCandidate, DeviceClass, QueueFamily, QUEUE_GRAPHICS_BIT};
use wlx_graphics::format::{Format, ImageLayout, B8G8R8A8_UNORM, R8G8B8A8_UNORM};
use wlx_graphics::graphics::{
    Access, CompositeAlpha, CompositeAlphas, ContextError, InstanceInfo, PipelineStages,
    SurfaceSupport, WlxGraphics, SECONDARY_BUFFER_COUNT, VALIDATION_LAYER,
};
use wlx_graphics::pass::CommandBufferUsage;
use wlx_graphics::resource::{BufferUsage, MemoryPlacement};

fn fixed() -> DeviceExtensions {
    DeviceExtensions {
        khr_swapchain: true,
        khr_external_memory: true,
        khr_external_memory_fd: true,
        ext_external_memory_dma_buf: true,
        ext_image_drm_format_modifier: true,
        ..DeviceExtensions::empty()
    }
}

fn candidate(class: DeviceClass, supported: DeviceExtensions) -> DeviceCandidate {
    DeviceCandidate {
        class,
        supported_extensions: supported,
        runtime_extensions: DeviceExtensions::empty(),
        queue_families: vec![
            QueueFamily { flags: 0x2, presents: false },
            QueueFamily { flags: QUEUE_GRAPHICS_BIT, presents: true },
        ],
    }
}

fn context() -> WlxGraphics {
    WlxGraphics::new(&vec![candidate(DeviceClass::Integrated, fixed())], true)
}

#[test]
fn instance_enables_both_sets_of_extensions() {
    let library = InstanceExtensions { khr_surface: true, ..InstanceExtensions::empty() };
    let runtime =
        InstanceExtensions { khr_external_memory_capabilities: true, ..InstanceExtensions::empty() };
    let info = InstanceInfo::new(&library, &runtime, false);
    assert!(info.enumerate_portability);
    assert!(!info.validation);
    assert!(info.enabled_extensions == library.union(&runtime));
    assert!(info.enabled_extensions != library);
    assert!(info.enabled_extensions != runtime);
    assert!(info.enabled_layers().is_empty());
}

#[test]
fn validation_layer_is_enabled_on_request() {
    let none = InstanceExtensions::empty();
    let info = InstanceInfo::new(&none, &none, true);
    assert!(info.validation);
    assert_eq!(info.enabled_layers(), vec![VALIDATION_LAYER]);
    assert_eq!(VALIDATION_LAYER, "VK_LAYER_KHRONOS_validation");
}

#[test]
fn context_is_made_on_the_chosen_device() {
    let candidates = vec![
        candidate(DeviceClass::Virtual, fixed()),
        candidate(DeviceClass::Discrete, fixed()),
        candidate(DeviceClass::Integrated, fixed()),
    ];
    let tried = WlxGraphics::try_new(&candidates, true).unwrap();
    assert_eq!(tried.device.index, 1);
    assert_eq!(tried.device.queue_family_index, 1);
    let graphics = WlxGraphics::new(&candidates, true);
    assert_eq!(graphics.device.index, 1);
    assert_eq!(graphics.device.queue_family_index, 1);
    assert!(graphics.device.extensions == fixed());
    assert!(graphics.dynamic_rendering);
    assert_eq!(graphics.secondary_buffer_count, 32);
    assert_eq!(SECONDARY_BUFFER_COUNT, 32);
    assert_eq!(graphics.quad_verts.usage, BufferUsage::Vertex);
    assert_eq!(graphics.quad_verts.len, 4);
    assert_eq!(graphics.quad_verts.placement, MemoryPlacement::DeviceUpload);
    assert_eq!(graphics.quad_indices.usage, BufferUsage::Index);
    assert_eq!(graphics.quad_indices.len, 6);
    assert_eq!(graphics.quad_indices.placement, MemoryPlacement::DeviceUpload);
}

#[test]
fn context_holds_the_unit_quad() {
    let graphics = context();
    assert_eq!(graphics.quad_index_values, [2, 1, 0, 1, 2, 3]);
    assert_eq!(graphics.quad_index_values.len() as u64, graphics.quad_indices.len);
    assert_eq!(
        graphics.quad_corners,
        [(false, false), (false, true), (true, false), (true, true)]
    );
    assert_eq!(graphics.quad_corners.len() as u64, graphics.quad_verts.len);
    let positions: Vec<[f32; 2]> = graphics
        .quad_corners
        .iter()
        .map(|(x, y)| [if *x { 1.0 } else { 0.0 }, if *y { 1.0 } else { 0.0 }])
        .collect();
    assert_eq!(positions, vec![[0.0, 0.0], [0.0, 1.0], [1.0, 0.0], [1.0, 1.0]]);
}

#[test]
fn context_fails_without_a_suitable_device() {
    let lacking = DeviceExtensions { khr_external_memory_fd: false, ..fixed() };
    let candidates = vec![candidate(DeviceClass::Discrete, lacking)];
    assert_eq!(
        WlxGraphics::try_new(&candidates, true).err(),
        Some(ContextError::NoSuitableDevice)
    );
    assert_eq!(
        WlxGraphics::try_new(&Vec::new(), false).err(),
        Some(ContextError::NoSuitableDevice)
    );
}

#[test]
fn swapchain_with_a_format_is_opaque_with_one_image() {
    let surface = SurfaceSupport {
        min_image_count: 3,
        composite_alpha: CompositeAlphas {
            opaque: false,
            pre_multiplied: true,
            post_multiplied: false,
            inherit: false,
        },
        formats: vec![Format(B8G8R8A8_UNORM)],
    };
    let info = context().create_swapchain(Some(Format(R8G8B8A8_UNORM)), &surface, 800, 600);
    assert_eq!(info.min_image_count, 1);
    assert_eq!(info.image_format, Format(R8G8B8A8_UNORM));
    assert_eq!(info.composite_alpha, CompositeAlpha::Opaque);
    assert_eq!((info.width, info.height), (800, 600));
    assert!(info.image_usage.color_attachment);
    assert!(!info.image_usage.sampled);
    assert!(!info.image_usage.transfer_src);
    assert!(!info.image_usage.transfer_dst);
}

#[test]
fn swapchain_without_a_format_follows_the_surface() {
    let surface = SurfaceSupport {
        min_image_count: 3,
        composite_alpha: CompositeAlphas {
            opaque: false,
            pre_multiplied: false,
            post_multiplied: true,
            inherit: true,
        },
        formats: vec![Format(B8G8R8A8_UNORM), Format(R8G8B8A8_UNORM)],
    };
    let info = context().create_swapchain(None, &surface, 1280, 720);
    assert_eq!(info.min_image_count, 3);
    assert_eq!(info.image_format, Format(B8G8R8A8_UNORM));
    assert_eq!(info.composite_alpha, CompositeAlpha::PostMultiplied);
    assert_eq!((info.width, info.height), (1280, 720));
    assert!(info.image_usage.color_attachment);
}

#[test]
fn composite_alpha_modes_are_tried_in_order() {
    let mut modes =
        CompositeAlphas { opaque: true, pre_multiplied: true, post_multiplied: true, inherit: true };
    assert_eq!(modes.first_supported(), Some(CompositeAlpha::Opaque));
    modes.opaque = false;
    assert_eq!(modes.first_supported(), Some(CompositeAlpha::PreMultiplied));
    modes.pre_multiplied = false;
    assert_eq!(modes.first_supported(), Some(CompositeAlpha::PostMultiplied));
    modes.post_multiplied = false;
    assert_eq!(modes.first_supported(), Some(CompositeAlpha::Inherit));
    modes.inherit = false;
    assert_eq!(modes.first_supported(), None);
}

#[test]
fn render_texture_can_be_drawn_to_sampled_and_read() {
    let image = context().render_texture(640, 480, Format(R8G8B8A8_UNORM));
    assert_eq!((image.width, image.height), (640, 480));
    assert_eq!(image.format, Format(37));
    assert!(image.usage.transfer_src);
    assert!(image.usage.sampled);
    assert!(image.usage.color_attachment);
    assert!(!image.usage.transfer_dst);
    assert_eq!(image.placement, MemoryPlacement::Unspecified);
}

#[test]
fn upload_buffer_stages_the_source_sequence() {
    let source: Vec<u8> = vec![9, 0, 255, 7, 7, 1];
    let staged = context().upload_buffer(BufferUsage::Index, source.clone());
    assert_eq!(staged.contents, source);
    assert_eq!(staged.info.len, 6);
    assert_eq!(staged.info.usage, BufferUsage::Index);
    assert_eq!(staged.info.placement, MemoryPlacement::Upload);
}

#[test]
fn upload_verts_stages_four_vertices() {
    let vertices = [[0.05f32, 0.1, 0.0, 0.0], [0.05, 0.6, 0.0, 1.0], [0.3, 0.1, 1.0, 0.0], [
        0.3, 0.6, 1.0, 1.0,
    ]];
    let staged = context().upload_verts(vertices);
    assert_eq!(staged.contents, vertices.to_vec());
    assert_eq!(staged.info.len, 4);
    assert_eq!(staged.info.usage, BufferUsage::Vertex);
    assert_eq!(staged.info.placement, MemoryPlacement::Upload);
}

#[test]
fn layout_transition_orders_transfer_writes_before_reads() {
    let graphics = context();
    let barrier =
        graphics.transition_layout(ImageLayout::Undefined, ImageLayout::TransferSrcOptimal);
    assert_eq!(barrier.src_stages, PipelineStages::AllTransfer);
    assert_eq!(barrier.dst_stages, PipelineStages::AllTransfer);
    assert_eq!(barrier.src_access, Access::TransferWrite);
    assert_eq!(barrier.dst_access, Access::TransferRead);
    assert_eq!(barrier.old_layout, ImageLayout::Undefined);
    assert_eq!(barrier.new_layout, ImageLayout::TransferSrcOptimal);
    assert_eq!(barrier.usage, CommandBufferUsage::OneTimeSubmit);
    assert_eq!(barrier.queue_family_index, graphics.device.queue_family_index);
    assert_eq!(barrier.queue_family_index, 1);
}

use vulkano::device::DeviceExtensions;
use wlx_graphics::device::{
    first_serving_family, required_device_extensions, select_physical_device, DeviceCandidate,
    DeviceClass, QueueFamily, QUEUE_GRAPHICS_BIT,
};

fn fixed() -> DeviceExtensions {
    DeviceExtensions {
        khr_swapchain: true,
        khr_external_memory: true,
        khr_external_memory_fd: true,
        ext_external_memory_dma_buf: true,
        ext_image_drm_format_modifier: true,
        ..DeviceExtensions::empty()
    }
}

fn graphics_family() -> QueueFamily {
    QueueFamily { flags: QUEUE_GRAPHICS_BIT, presents: true }
}

fn candidate(class: DeviceClass, supported: DeviceExtensions) -> DeviceCandidate {
    DeviceCandidate {
        class,
        supported_extensions: supported,
        runtime_extensions: DeviceExtensions::empty(),
        queue_families: vec![graphics_family()],
    }
}

#[test]
fn required_extensions_are_the_five_fixed_ones() {
    let required = required_device_extensions().expect("vulkano knows the fixed extensions");
    assert!(required == fixed());
}

#[test]
fn ranks_follow_the_device_class() {
    assert_eq!(DeviceClass::Discrete.rank_of(), 0);
    assert_eq!(DeviceClass::Integrated.rank_of(), 1);
    assert_eq!(DeviceClass::Virtual.rank_of(), 2);
    assert_eq!(DeviceClass::Software.rank_of(), 3);
    assert_eq!(DeviceClass::Other.rank_of(), 4);
    assert_eq!(DeviceClass::Unknown.rank_of(), 5);
}

#[test]
fn discrete_device_is_chosen_among_three() {
    let required = required_device_extensions().unwrap();
    let candidates = vec![
        candidate(DeviceClass::Virtual, fixed()),
        candidate(DeviceClass::Discrete, fixed()),
        candidate(DeviceClass::Integrated, fixed()),
    ];
    let chosen = select_physical_device(&candidates, &required, true).unwrap();
    assert_eq!(chosen.index, 1);
    assert_eq!(chosen.queue_family_index, 0);
    assert!(chosen.extensions == fixed());
}

#[test]
fn device_missing_an_extension_is_excluded() {
    let required = required_device_extensions().unwrap();
    let lacking = DeviceExtensions { ext_image_drm_format_modifier: false, ..fixed() };
    let candidates = vec![
        candidate(DeviceClass::Integrated, fixed()),
        candidate(DeviceClass::Discrete, lacking),
        candidate(DeviceClass::Software, fixed()),
    ];
    let chosen = select_physical_device(&candidates, &required, true).unwrap();
    assert_eq!(chosen.index, 0);
}

#[test]
fn only_discrete_device_lacking_an_extension_leaves_nothing() {
    let required = required_device_extensions().unwrap();
    let lacking = DeviceExtensions { khr_swapchain: false, ..fixed() };
    let candidates = vec![candidate(DeviceClass::Discrete, lacking)];
    assert!(select_physical_device(&candidates, &required, true).is_none());
}

#[test]
fn no_candidates_give_no_device() {
    let required = required_device_extensions().unwrap();
    assert!(select_physical_device(&Vec::new(), &required, false).is_none());
}

#[test]
fn equal_ranks_are_settled_by_enumeration_order() {
    let required = required_device_extensions().unwrap();
    let candidates = vec![
        candidate(DeviceClass::Software, fixed()),
        candidate(DeviceClass::Integrated, fixed()),
        candidate(DeviceClass::Integrated, fixed()),
    ];
    let chosen = select_physical_device(&candidates, &required, true).unwrap();
    assert_eq!(chosen.index, 1);
}

#[test]
fn runtime_extensions_are_needed_and_enabled() {
    let required = required_device_extensions().unwrap();
    let runtime = DeviceExtensions { khr_external_semaphore: true, ..DeviceExtensions::empty() };
    let mut without = candidate(DeviceClass::Discrete, fixed());
    without.runtime_extensions = runtime;
    let mut with = candidate(DeviceClass::Other, fixed().union(&runtime));
    with.runtime_extensions = runtime;
    let chosen = select_physical_device(&vec![without, with], &required, true).unwrap();
    assert_eq!(chosen.index, 1);
    assert!(chosen.extensions == fixed().union(&runtime));
    assert!(chosen.extensions != runtime);
    assert!(chosen.extensions != fixed());
}

#[test]
fn first_family_with_graphics_and_presentation_is_taken() {
    let families = vec![
        QueueFamily { flags: 0x4, presents: true },
        QueueFamily { flags: QUEUE_GRAPHICS_BIT | 0x2, presents: false },
        QueueFamily { flags: QUEUE_GRAPHICS_BIT, presents: true },
        QueueFamily { flags: QUEUE_GRAPHICS_BIT, presents: true },
    ];
    assert_eq!(first_serving_family(&families, true), Some(2));
    assert_eq!(first_serving_family(&families, false), Some(1));
    assert_eq!(first_serving_family(&Vec::new(), false), None);
}

#[test]
fn device_without_a_serving_family_is_excluded() {
    let required = required_device_extensions().unwrap();
    let mut compute_only = candidate(DeviceClass::Discrete, fixed());
    compute_only.queue_families = vec![QueueFamily { flags: 0x2, presents: true }];
    let mut second_family = candidate(DeviceClass::Virtual, fixed());
    second_family.queue_families =
        vec![QueueFamily { flags: QUEUE_GRAPHICS_BIT, presents: false }, graphics_family()];
    let candidates = vec![compute_only, second_family];
    let chosen = select_physical_device(&candidates, &required, true).unwrap();
    assert_eq!(chosen.index, 1);
    assert_eq!(chosen.queue_family_index, 1);
    let headless = select_physical_device(&candidates, &required, false).unwrap();
    assert_eq!(headless.index, 1);
    assert_eq!(headless.queue_family_index, 0);
}

#[test]
fn graphics_bit_is_the_one_of_vulkan() {
    let graphics = ash::vk::QueueFlags::from(vulkano::device::QueueFlags::GRAPHICS).as_raw();
    assert_eq!(graphics, QUEUE_GRAPHICS_BIT);
    let compute = ash::vk::QueueFlags::from(vulkano::device::QueueFlags::COMPUTE).as_raw();
    assert!(!QueueFamily { flags: compute, presents: true }.is_serving(false));
    assert!(QueueFamily { flags: graphics | compute, presents: false }.is_serving(false));
    assert!(!QueueFamily { flags: graphics | compute, presents: false }.is_serving(true));
    assert!(QueueFamily { flags: graphics, presents: true }.is_serving(true));
}

#[test]
fn unknown_class_comes_last() {
    let required = required_device_extensions().unwrap();
    let candidates = vec![
        candidate(DeviceClass::Unknown, fixed()),
        candidate(DeviceClass::Other, fixed()),
    ];
    let chosen = select_physical_device(&candidates, &required, true).unwrap();
    assert_eq!(chosen.index, 1);
    let alone = vec![candidate(DeviceClass::Unknown, fixed())];
    assert_eq!(select_physical_device(&alone, &required, true).unwrap().index, 0);
}

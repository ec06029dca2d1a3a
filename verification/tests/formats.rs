use wlx_graphics::format::{
    fourcc_code, fourcc_to_format, is_filling, supported_format, texel_size, Format,
    B8G8R8A8_UNORM, DRM_FORMAT_ABGR8888, DRM_FORMAT_ARGB8888, DRM_FORMAT_XBGR8888,
    DRM_FORMAT_XRGB8888, R32G32_SFLOAT, R8G8B8A8_UNORM,
};

#[test]
fn supported_codes_map_to_their_formats() {
    assert_eq!(fourcc_to_format(DRM_FORMAT_ABGR8888), Some(Format(R8G8B8A8_UNORM)));
    assert_eq!(fourcc_to_format(DRM_FORMAT_XBGR8888), Some(Format(R8G8B8A8_UNORM)));
    assert_eq!(fourcc_to_format(DRM_FORMAT_ARGB8888), Some(Format(B8G8R8A8_UNORM)));
    assert_eq!(fourcc_to_format(DRM_FORMAT_XRGB8888), Some(Format(B8G8R8A8_UNORM)));
    assert_eq!(supported_format(DRM_FORMAT_ABGR8888), Format(R8G8B8A8_UNORM));
    assert_eq!(supported_format(DRM_FORMAT_XBGR8888), Format(R8G8B8A8_UNORM));
    assert_eq!(supported_format(DRM_FORMAT_ARGB8888), Format(B8G8R8A8_UNORM));
    assert_eq!(supported_format(DRM_FORMAT_XRGB8888), Format(B8G8R8A8_UNORM));
}

#[test]
fn other_codes_have_no_format() {
    assert_eq!(fourcc_to_format(0), None);
    assert_eq!(fourcc_to_format(fourcc_code(b'N', b'V', b'1', b'2')), None);
    assert_eq!(fourcc_to_format(fourcc_code(b'R', b'G', b'2', b'4')), None);
    assert_eq!(fourcc_to_format(DRM_FORMAT_ABGR8888 + 1), None);
}

#[test]
fn codes_are_spelled_by_four_characters() {
    assert_eq!(fourcc_code(b'A', b'B', b'2', b'4'), DRM_FORMAT_ABGR8888);
    assert_eq!(fourcc_code(b'X', b'B', b'2', b'4'), DRM_FORMAT_XBGR8888);
    assert_eq!(fourcc_code(b'A', b'R', b'2', b'4'), DRM_FORMAT_ARGB8888);
    assert_eq!(fourcc_code(b'X', b'R', b'2', b'4'), DRM_FORMAT_XRGB8888);
    assert_eq!(fourcc_code(1, 2, 3, 4), 0x0403_0201);
    assert_eq!(fourcc_code(255, 255, 255, 255), u32::MAX);
}

#[test]
fn formats_carry_their_vulkan_numbers() {
    assert_eq!(R8G8B8A8_UNORM, 37);
    assert_eq!(B8G8R8A8_UNORM, 44);
    assert_eq!(
        vulkano::format::Format::try_from(ash::vk::Format::from_raw(R8G8B8A8_UNORM as i32)).ok(),
        Some(vulkano::format::Format::R8G8B8A8_UNORM)
    );
    assert_eq!(
        vulkano::format::Format::try_from(ash::vk::Format::from_raw(B8G8R8A8_UNORM as i32)).ok(),
        Some(vulkano::format::Format::B8G8R8A8_UNORM)
    );
}

#[test]
fn texel_sizes_are_those_of_vulkan() {
    assert_eq!(texel_size(Format(R8G8B8A8_UNORM)), Some(4));
    assert_eq!(texel_size(Format(B8G8R8A8_UNORM)), Some(4));
    assert_eq!(texel_size(Format(R32G32_SFLOAT)), Some(8));
    assert_eq!(texel_size(Format(0)), None);
    assert_eq!(texel_size(Format(9)), None);
    for code in [R8G8B8A8_UNORM, B8G8R8A8_UNORM, R32G32_SFLOAT] {
        let format = vulkano::format::Format::try_from(ash::vk::Format::from_raw(code as i32));
        assert_eq!(
            texel_size(Format(code)).map(u64::from),
            Some(format.unwrap().block_size())
        );
    }
}

#[test]
fn bytes_fill_an_image_of_a_known_format() {
    assert!(is_filling(16, 2, 2, Format(R8G8B8A8_UNORM)));
    assert!(is_filling(17, 2, 2, Format(B8G8R8A8_UNORM)));
    assert!(!is_filling(15, 2, 2, Format(R8G8B8A8_UNORM)));
    assert!(!is_filling(1, 2, 2, Format(R8G8B8A8_UNORM)));
    assert!(is_filling(32, 2, 2, Format(R32G32_SFLOAT)));
    assert!(!is_filling(31, 2, 2, Format(R32G32_SFLOAT)));
    assert!(is_filling(0, 0, 7, Format(R8G8B8A8_UNORM)));
    assert!(is_filling(1, 2, 2, Format(9)));
    assert!(!is_filling(usize::MAX, u32::MAX, u32::MAX, Format(R32G32_SFLOAT)));
}

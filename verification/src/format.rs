//! Pixel formats and the four-character codes that name them.

use vstd::prelude::*;

verus! {

/// A pixel format, by the number that Vulkan gives it.
#[derive(Clone, Copy, Debug, PartialEq, Eq, Structural)]
pub struct Format(pub u32);

/// Number of the format with four 8-bit channels in the order red, green,
/// blue, alpha, each an unsigned normalized value.
pub const R8G8B8A8_UNORM: u32 = 37;

/// Number of the format with four 8-bit channels in the order blue, green,
/// red, alpha, each an unsigned normalized value.
pub const B8G8R8A8_UNORM: u32 = 44;

/// Number of the format with two 32-bit floating-point channels.
pub const R32G32_SFLOAT: u32 = 103;

/// 32 bits per pixel: alpha, blue, green, red from the highest byte down.
pub const DRM_FORMAT_ABGR8888: u32 = 0x3432_4241;

/// 32 bits per pixel: padding, blue, green, red from the highest byte down.
pub const DRM_FORMAT_XBGR8888: u32 = 0x3432_4258;

/// 32 bits per pixel: alpha, red, green, blue from the highest byte down.
pub const DRM_FORMAT_ARGB8888: u32 = 0x3432_5241;

/// 32 bits per pixel: padding, red, green, blue from the highest byte down.
pub const DRM_FORMAT_XRGB8888: u32 = 0x3432_5258;

/// The code that four characters spell: the first in the lowest byte.
pub open spec fn fourcc(a: u8, b: u8, c: u8, d: u8) -> u32 {
    (a as u32) | ((b as u32) << 8) | ((c as u32) << 16) | ((d as u32) << 24)
}

/// Computes the four-character code of `a`, `b`, `c`, `d`.
pub fn fourcc_code(a: u8, b: u8, c: u8, d: u8) -> (r: u32)
    ensures
        r == fourcc(a, b, c, d),
{
    (a as u32) | ((b as u32) << 8) | ((c as u32) << 16) | ((d as u32) << 24)
}

/// The four codes are what their names spell: `AB24`, `XB24`, `AR24` and
/// `XR24`.
pub proof fn lemma_codes_spell_names()
    ensures
        DRM_FORMAT_ABGR8888 == fourcc(0x41, 0x42, 0x32, 0x34),
        DRM_FORMAT_XBGR8888 == fourcc(0x58, 0x42, 0x32, 0x34),
        DRM_FORMAT_ARGB8888 == fourcc(0x41, 0x52, 0x32, 0x34),
        DRM_FORMAT_XRGB8888 == fourcc(0x58, 0x52, 0x32, 0x34),
{
    assert(0x3432_4241u32 == (0x41u8 as u32) | ((0x42u8 as u32) << 8) | ((0x32u8 as u32) << 16) | ((
    0x34u8 as u32) << 24)) by (bit_vector);
    assert(0x3432_4258u32 == (0x58u8 as u32) | ((0x42u8 as u32) << 8) | ((0x32u8 as u32) << 16) | ((
    0x34u8 as u32) << 24)) by (bit_vector);
    assert(0x3432_5241u32 == (0x41u8 as u32) | ((0x52u8 as u32) << 8) | ((0x32u8 as u32) << 16) | ((
    0x34u8 as u32) << 24)) by (bit_vector);
    assert(0x3432_5258u32 == (0x58u8 as u32) | ((0x52u8 as u32) << 8) | ((0x32u8 as u32) << 16) | ((
    0x34u8 as u32) << 24)) by (bit_vector);
}

/// Whether frames of this code can be imported.
pub open spec fn is_supported_fourcc(code: u32) -> bool {
    code == DRM_FORMAT_ABGR8888 || code == DRM_FORMAT_XBGR8888 || code == DRM_FORMAT_ARGB8888
        || code == DRM_FORMAT_XRGB8888
}

/// The pixel format of a supported code: the two codes with red in the lowest
/// byte are RGBA, the two with blue there are BGRA.
pub open spec fn format_of_fourcc(code: u32) -> Option<Format> {
    if code == DRM_FORMAT_ABGR8888 || code == DRM_FORMAT_XBGR8888 {
        Some(Format(R8G8B8A8_UNORM))
    } else if code == DRM_FORMAT_ARGB8888 || code == DRM_FORMAT_XRGB8888 {
        Some(Format(B8G8R8A8_UNORM))
    } else {
        None
    }
}

/// Maps a four-character code to its pixel format; `None` for a code that is
/// not supported.
pub fn fourcc_to_format(code: u32) -> (r: Option<Format>)
    ensures
        r == format_of_fourcc(code),
        r is Some <==> is_supported_fourcc(code),
{
    if code == DRM_FORMAT_ABGR8888 || code == DRM_FORMAT_XBGR8888 {
        Some(Format(R8G8B8A8_UNORM))
    } else if code == DRM_FORMAT_ARGB8888 || code == DRM_FORMAT_XRGB8888 {
        Some(Format(B8G8R8A8_UNORM))
    } else {
        None
    }
}

/// The pixel format of a code that is supported.
pub fn supported_format(code: u32) -> (f: Format)
    requires
        is_supported_fourcc(code),
    ensures
        Some(f) == format_of_fourcc(code),
{
    if code == DRM_FORMAT_ABGR8888 || code == DRM_FORMAT_XBGR8888 {
        Format(R8G8B8A8_UNORM)
    } else {
        Format(B8G8R8A8_UNORM)
    }
}

/// Bytes that one texel takes in a format that this library names, `None`
/// for any other format.
pub open spec fn texel_bytes(format: Format) -> Option<nat> {
    if format.0 == R8G8B8A8_UNORM || format.0 == B8G8R8A8_UNORM {
        Some(4)
    } else if format.0 == R32G32_SFLOAT {
        Some(8)
    } else {
        None
    }
}

/// Computes [`texel_bytes`].
pub fn texel_size(format: Format) -> (r: Option<u8>)
    ensures
        match r {
            Some(bytes) => texel_bytes(format) == Some(bytes as nat),
            None => texel_bytes(format) is None,
        },
{
    if format.0 == R8G8B8A8_UNORM || format.0 == B8G8R8A8_UNORM {
        Some(4)
    } else if format.0 == R32G32_SFLOAT {
        Some(8)
    } else {
        None
    }
}

/// Whether `len` bytes fill an image of `width` by `height` texels: always
/// so for a format whose texel size is not known here.
pub open spec fn fills(len: nat, width: u32, height: u32, format: Format) -> bool {
    texel_bytes(format) matches Some(bytes) ==> len >= width * height * bytes
}

/// Computes [`fills`].
pub fn is_filling(len: usize, width: u32, height: u32, format: Format) -> (r: bool)
    ensures
        r == fills(len as nat, width, height, format),
{
    match texel_size(format) {
        Some(bytes) => {
            assert(width * height * bytes <= 0xffff_ffff * 0xffff_ffff * 8) by (nonlinear_arith)
                requires
                    0 <= width <= 0xffff_ffff,
                    0 <= height <= 0xffff_ffff,
                    0 <= bytes <= 8,
            ;
            assert(width * height <= 0xffff_ffff * 0xffff_ffff) by (nonlinear_arith)
                requires
                    0 <= width <= 0xffff_ffff,
                    0 <= height <= 0xffff_ffff,
            ;
            let texels: u128 = (width as u128) * (height as u128);
            len as u128 >= texels * (bytes as u128)
        },
        None => true,
    }
}

/// How the pixels of an image are arranged in memory for the operation that
/// is about to use it.
#[derive(Clone, Copy, Debug, PartialEq, Eq, Structural)]
pub enum ImageLayout {
    Undefined,
    General,
    ColorAttachmentOptimal,
    DepthStencilAttachmentOptimal,
    DepthStencilReadOnlyOptimal,
    ShaderReadOnlyOptimal,
    TransferSrcOptimal,
    TransferDstOptimal,
    Preinitialized,
    DepthReadOnlyStencilAttachmentOptimal,
    DepthAttachmentStencilReadOnlyOptimal,
    DepthAttachmentOptimal,
    DepthReadOnlyOptimal,
    StencilAttachmentOptimal,
    StencilReadOnlyOptimal,
    PresentSrc,
}

} // verus!

//! Frames that a capture source shares as DMA buffers, and how they are
//! imported without a copy.

use vstd::prelude::*;
use crate::format::{
    format_of_fourcc, fourcc_to_format, is_supported_fourcc, supported_format, Format,
};
use crate::resource::{ImageUsage, MemoryPlacement};

verus! {

/// Size and pixel format of a shared frame.
#[derive(Clone, Copy, Debug, PartialEq, Eq, Structural)]
pub struct FrameFormat {
    pub width: u32,
    pub height: u32,
    /// Four-character code of the pixel format.
    pub fourcc: u32,
}

/// One plane of a shared frame.
#[derive(Clone, Copy, Debug, PartialEq, Eq, Structural)]
pub struct FramePlane {
    /// File descriptor of the DMA buffer, if the plane has one.
    pub fd: Option<i32>,
    /// Bytes from one row to the next.
    pub stride: i32,
    /// Byte at which the plane starts in the buffer.
    pub offset: u32,
    /// Tiling of the plane, as a DRM format modifier.
    pub modifier: u64,
}

/// A frame that a capture source shares.
#[derive(Clone, Copy, Debug)]
pub struct DmabufFrame {
    pub format: FrameFormat,
    /// Number of planes in use.
    pub num_planes: usize,
    pub planes: [FramePlane; 4],
}

/// Where the one plane of an imported image lies in its memory.
#[derive(Clone, Copy, Debug, PartialEq, Eq, Structural)]
pub struct PlaneLayout {
    pub offset: u64,
    pub size: u64,
    pub row_pitch: u64,
}

/// How the pixels of an image are tiled.
#[derive(Clone, Copy, Debug, PartialEq, Eq, Structural)]
pub enum ImageTiling {
    /// As the device likes best.
    Optimal,
    /// Row by row.
    Linear,
    /// As a DRM format modifier says.
    DrmFormatModifier,
}

/// The kind of handle by which memory is shared between processes.
#[derive(Clone, Copy, Debug, PartialEq, Eq, Structural)]
pub enum ExternalMemoryHandleType {
    OpaqueFd,
    DmaBuf,
}

/// An image that is to be bound to the memory behind a file descriptor: no
/// pixel is copied.
#[derive(Clone, Copy, Debug, PartialEq, Eq, Structural)]
pub struct DmabufImport {
    pub width: u32,
    pub height: u32,
    pub format: Format,
    pub usage: ImageUsage,
    pub tiling: ImageTiling,
    /// The DRM format modifier by which the image is tiled.
    pub modifier: u64,
    pub layout: PlaneLayout,
    /// The kind of handle that `fd` is.
    pub handle_type: ExternalMemoryHandleType,
    pub fd: i32,
    /// The memory is allocated for this image alone.
    pub dedicated: bool,
    pub placement: MemoryPlacement,
}

/// Why a frame is not imported. The caller skips such a frame.
#[derive(Clone, Copy, Debug, PartialEq, Eq, Structural)]
pub enum Rejection {
    /// The frame has this many planes, and only one is supported.
    PlaneCount(usize),
    /// The plane has no file descriptor.
    MissingFd,
}

/// A stride as the 64-bit row pitch that stands for it: the value itself,
/// sign-extended.
pub open spec fn row_pitch_of(stride: i32) -> u64 {
    if stride >= 0 {
        stride as u64
    } else {
        (stride + 0x1_0000_0000_0000_0000) as u64
    }
}

/// Computes [`row_pitch_of`].
pub fn row_pitch(stride: i32) -> (r: u64)
    ensures
        r == row_pitch_of(stride),
{
    if stride >= 0 {
        stride as u64
    } else {
        let below: u64 = (-(stride as i64)) as u64;
        u64::MAX - below + 1
    }
}

impl DmabufFrame {
    /// A frame can be handed to the import if, where it has one plane with a
    /// file descriptor, its code is a supported one and it has a pixel.
    pub open spec fn well_formed(self) -> bool {
        self.num_planes == 1 && self.planes[0].fd is Some ==> is_supported_fourcc(
            self.format.fourcc,
        ) && self.format.width > 0 && self.format.height > 0
    }

    /// Computes [`DmabufFrame::well_formed`].
    pub fn is_well_formed(&self) -> (r: bool)
        ensures
            r == self.well_formed(),
    {
        if self.num_planes == 1 && self.planes[0].fd.is_some() {
            fourcc_to_format(self.format.fourcc).is_some() && self.format.width > 0
                && self.format.height > 0
        } else {
            true
        }
    }

    /// What the import of this frame comes to.
    pub open spec fn import(self) -> Result<DmabufImport, Rejection> {
        if self.num_planes != 1 {
            Err(Rejection::PlaneCount(self.num_planes))
        } else if self.planes[0].fd is None {
            Err(Rejection::MissingFd)
        } else {
            Ok(
                DmabufImport {
                    width: self.format.width,
                    height: self.format.height,
                    format: format_of_fourcc(self.format.fourcc).unwrap(),
                    usage: ImageUsage {
                        transfer_src: true,
                        transfer_dst: false,
                        sampled: true,
                        color_attachment: false,
                    },
                    tiling: ImageTiling::DrmFormatModifier,
                    modifier: self.planes[0].modifier,
                    layout: PlaneLayout {
                        offset: self.planes[0].offset as u64,
                        size: 0,
                        row_pitch: row_pitch_of(self.planes[0].stride),
                    },
                    handle_type: ExternalMemoryHandleType::DmaBuf,
                    fd: self.planes[0].fd.unwrap(),
                    dedicated: true,
                    placement: MemoryPlacement::Device,
                },
            )
        }
    }
}

/// Plans the import of a shared frame.
///
/// A frame with more or fewer planes than one, or whose plane has no file
/// descriptor, is rejected. Any other frame is imported as a sampled image
/// that transfers can read, tiled by the plane's modifier and laid out as
/// the plane says. Its memory is the DMA buffer behind the plane's file
/// descriptor, imported as an allocation of the image's own in memory local
/// to the device.
pub fn plan_import(frame: &DmabufFrame) -> (r: Result<DmabufImport, Rejection>)
    requires
        frame.well_formed(),
    ensures
        r == frame.import(),
{
    if frame.num_planes != 1 {
        return Err(Rejection::PlaneCount(frame.num_planes));
    }
    let plane = frame.planes[0];
    let fd = match plane.fd {
        Some(fd) => fd,
        None => {
            return Err(Rejection::MissingFd);
        },
    };
    let format = supported_format(frame.format.fourcc);
    Ok(
        DmabufImport {
            width: frame.format.width,
            height: frame.format.height,
            format,
            usage: ImageUsage {
                transfer_src: true,
                transfer_dst: false,
                sampled: true,
                color_attachment: false,
            },
            tiling: ImageTiling::DrmFormatModifier,
            modifier: plane.modifier,
            layout: PlaneLayout {
                offset: plane.offset as u64,
                size: 0,
                row_pitch: row_pitch(plane.stride),
            },
            handle_type: ExternalMemoryHandleType::DmaBuf,
            fd,
            dedicated: true,
            placement: MemoryPlacement::Device,
        },
    )
}

/// A frame whose plane count is not one is rejected, whatever else it holds.
pub proof fn lemma_plane_count_rejects(frame: DmabufFrame)
    requires
        frame.num_planes != 1,
    ensures
        frame.well_formed(),
        frame.import() == Err::<DmabufImport, Rejection>(Rejection::PlaneCount(frame.num_planes)),
{
}

} // verus!

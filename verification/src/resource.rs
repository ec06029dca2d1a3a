//! Descriptions of buffers and images.
//!
//! A description says how a resource is to be created. Once it is created
//! the description stays with it: a buffer's length and an image's format
//! are read from there.

use vstd::prelude::*;
use crate::format::Format;

verus! {

/// What a buffer is used for.
#[derive(Clone, Copy, Debug, PartialEq, Eq, Structural)]
pub enum BufferUsage {
    Vertex,
    Index,
    Uniform,
    TransferSource,
}

/// Where the memory of a resource is taken from.
#[derive(Clone, Copy, Debug, PartialEq, Eq, Structural)]
pub enum MemoryPlacement {
    /// Memory that the host sees and writes in sequence: for uploads.
    Upload,
    /// Memory that the device prefers and the host can still write in
    /// sequence.
    DeviceUpload,
    /// Memory local to the device.
    Device,
    /// Whatever the allocator picks when nothing is asked of it.
    Unspecified,
}

/// A buffer: a run of `len` elements of one type.
#[derive(Clone, Copy, Debug, PartialEq, Eq, Structural)]
pub struct BufferInfo {
    pub usage: BufferUsage,
    pub placement: MemoryPlacement,
    /// Number of elements.
    pub len: u64,
}

/// What an image is used for.
#[derive(Clone, Copy, Debug, PartialEq, Eq, Structural)]
pub struct ImageUsage {
    pub transfer_src: bool,
    pub transfer_dst: bool,
    pub sampled: bool,
    pub color_attachment: bool,
}

/// A two-dimensional image with one layer and one mip level, in memory of
/// the device's own.
#[derive(Clone, Copy, Debug, PartialEq, Eq, Structural)]
pub struct ImageInfo {
    pub width: u32,
    pub height: u32,
    pub format: Format,
    pub usage: ImageUsage,
    pub placement: MemoryPlacement,
}

/// A buffer together with the elements that the host writes into it when
/// it is created.
#[derive(Debug)]
pub struct StagedBuffer<T> {
    pub info: BufferInfo,
    pub contents: Vec<T>,
}

impl BufferInfo {
    /// A buffer of `len` elements that the host fills once.
    pub open spec fn upload(usage: BufferUsage, len: u64) -> BufferInfo {
        BufferInfo { usage, placement: MemoryPlacement::Upload, len }
    }

    /// A buffer of `len` elements in memory that the device prefers.
    pub open spec fn device(usage: BufferUsage, len: u64) -> BufferInfo {
        BufferInfo { usage, placement: MemoryPlacement::DeviceUpload, len }
    }
}

impl ImageInfo {
    /// An off-screen target: it can be drawn to, sampled, and read by a
    /// transfer.
    pub open spec fn render_target(width: u32, height: u32, format: Format) -> ImageInfo {
        ImageInfo {
            width,
            height,
            format,
            usage: ImageUsage {
                transfer_src: true,
                transfer_dst: false,
                sampled: true,
                color_attachment: true,
            },
            placement: MemoryPlacement::Unspecified,
        }
    }

    /// A texture that is filled by a transfer: it can be written and read by
    /// transfers, and sampled.
    pub open spec fn texture(width: u32, height: u32, format: Format) -> ImageInfo {
        ImageInfo {
            width,
            height,
            format,
            usage: ImageUsage {
                transfer_src: true,
                transfer_dst: true,
                sampled: true,
                color_attachment: false,
            },
            placement: MemoryPlacement::Unspecified,
        }
    }
}

} // verus!

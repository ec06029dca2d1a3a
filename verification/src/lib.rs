//! Verified core of a Vulkan rendering layer for desktop overlays.
//!
//! The crate decides what is created, recorded and submitted: which physical
//! device a context runs on, how a buffer or an image is described, how a
//! shared frame is imported, which commands a pass holds and in which order
//! a frame is composed. Every decision is a function on plain values with a
//! proved contract. The calls into the driver that carry the decisions out
//! belong to the application, which converts the descriptions it gets here.
//!
//! - [`device`] chooses the physical device, over the extension sets of
//!   [`extensions`].
//! - [`graphics`] is the context and what is made from it.
//! - [`format`], [`resource`] and [`frame`] describe pixel formats, buffers,
//!   images and shared frames.
//! - [`pipeline`], [`pass`] and [`command`] describe pipelines, the passes
//!   recorded for them, and the command buffer of a frame.
//! - [`quad`] is the geometry that every pass draws.
//! - [`png`] decodes textures.
//! - [`launch`] decides how the overlay starts.

pub mod extensions;

pub mod format;

pub mod device;

pub mod quad;

pub mod resource;

pub mod frame;

pub mod graphics;

pub mod pipeline;

pub mod pass;

pub mod png;

pub mod command;

pub mod launch;

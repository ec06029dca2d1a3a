//! The command buffer of a frame: it begins a render pass, runs passes in
//! it, ends it, and is built and submitted.

use vstd::prelude::*;
use crate::format::{fills, Format, R8G8B8A8_UNORM};
use crate::graphics::WlxGraphics;
use crate::pass::{CommandBufferUsage, SecondaryCommandBuffer, WlxPass};
use crate::pipeline::{RenderPassInfo, WlxPipeline};
use crate::png::{decode_frame, png_dimensions, png_frame, read_dimensions};
use crate::resource::{BufferInfo, BufferUsage, ImageInfo, ImageUsage, MemoryPlacement, StagedBuffer};

verus! {

/// The color that a target is cleared to.
#[derive(Clone, Copy, Debug, PartialEq, Eq, Structural)]
pub enum ClearColor {
    /// Red, green and blue at 0, alpha at 1.
    OpaqueBlack,
}

/// How the commands of a subpass are given.
#[derive(Clone, Copy, Debug, PartialEq, Eq, Structural)]
pub enum SubpassContents {
    /// In the primary command buffer itself.
    Inline,
    /// In secondary command buffers that the primary one executes.
    SecondaryCommandBuffers,
}

/// One command of a frame.
#[derive(Clone, Copy, Debug)]
pub enum FrameCommand {
    /// Begins the render pass on the framebuffer of the pipeline it was
    /// made for.
    BeginRenderPass { render_pass: RenderPassInfo, clear: ClearColor, contents: SubpassContents },
    /// Runs the recording of a pass.
    ExecuteCommands(SecondaryCommandBuffer),
    /// Copies a staging buffer into an image.
    CopyBufferToImage { source: BufferInfo, image: ImageInfo },
    /// Ends the render pass.
    EndRenderPass,
}

/// Where a command buffer stands with its render pass.
#[derive(Clone, Copy, Debug, PartialEq, Eq, Structural)]
pub enum Stage {
    /// The render pass has not begun.
    Outside,
    /// The render pass has begun, and has not ended.
    Inside(RenderPassInfo),
    /// The render pass has ended.
    Done,
}

/// The command buffer of a frame while it is recorded.
#[derive(Debug)]
pub struct WlxCommandBuffer {
    graphics: WlxGraphics,
    usage: CommandBufferUsage,
    stage: Stage,
    commands: Vec<FrameCommand>,
}

/// What a command buffer holds: the view of a [`WlxCommandBuffer`].
pub struct Recording {
    /// The context that the command buffer was made from.
    pub graphics: WlxGraphics,
    /// How often the recording is submitted.
    pub usage: CommandBufferUsage,
    /// Where the command buffer stands with its render pass.
    pub stage: Stage,
    /// The commands recorded so far.
    pub commands: Seq<FrameCommand>,
}

/// A command buffer that is built: nothing more is recorded into it.
#[derive(Debug)]
pub struct PrimaryCommandBuffer {
    pub usage: CommandBufferUsage,
    pub commands: Vec<FrameCommand>,
}

/// A command buffer on its way to the queue.
#[derive(Debug)]
pub struct Submission {
    pub command_buffer: PrimaryCommandBuffer,
    /// Family of the queue that runs the commands.
    pub queue_family_index: u32,
    /// Whether the caller is held until the device has run the commands,
    /// after which what the submission held is released.
    pub wait: bool,
}

/// An image that a frame fills from a staging buffer. The image holds the
/// bytes only once the frame has been submitted and has run.
#[derive(Debug)]
pub struct TextureUpload {
    pub image: ImageInfo,
    pub staging: StagedBuffer<u8>,
}

/// Why a PNG file gives no texture.
#[derive(Clone, Copy, Debug, PartialEq, Eq, Structural)]
pub enum PngError {
    /// The decoder refuses the file before it reaches the image data.
    Header,
    /// The image has no pixel, or more bytes than a `u32` counts at four
    /// bytes a pixel.
    Size,
    /// The decoder refuses the image data, or the image does not fit into
    /// four bytes a pixel.
    Frame,
}

/// The stage that follows on `stage` by `command`, or `None` where the
/// command has no place there. A render pass begins once, outside; passes
/// run inside, and must be compatible with the render pass; copies stay
/// outside.
pub open spec fn step(stage: Stage, command: FrameCommand) -> Option<Stage> {
    match (stage, command) {
        (Stage::Outside, FrameCommand::BeginRenderPass { render_pass, .. }) => Some(
            Stage::Inside(render_pass),
        ),
        (Stage::Inside(render_pass), FrameCommand::ExecuteCommands(pass)) => if render_pass.compatible(
            pass.render_pass,
        ) {
            Some(stage)
        } else {
            None
        },
        (Stage::Inside(_), FrameCommand::EndRenderPass) => Some(Stage::Done),
        (Stage::Outside, FrameCommand::CopyBufferToImage { .. }) => Some(Stage::Outside),
        (Stage::Done, FrameCommand::CopyBufferToImage { .. }) => Some(Stage::Done),
        _ => None,
    }
}

/// The stage that a command buffer is in after `commands`, or `None` where
/// one of them has no place.
pub open spec fn stage_after(commands: Seq<FrameCommand>) -> Option<Stage>
    decreases commands.len(),
{
    if commands.len() == 0 {
        Some(Stage::Outside)
    } else {
        match stage_after(commands.drop_last()) {
            Some(stage) => step(stage, commands.last()),
            None => None,
        }
    }
}

/// Number of render passes that `commands` begin.
pub open spec fn begins(commands: Seq<FrameCommand>) -> nat
    decreases commands.len(),
{
    if commands.len() == 0 {
        0
    } else {
        begins(commands.drop_last()) + if commands.last() is BeginRenderPass {
            1nat
        } else {
            0nat
        }
    }
}

/// Number of render passes that `commands` end.
pub open spec fn ends(commands: Seq<FrameCommand>) -> nat
    decreases commands.len(),
{
    if commands.len() == 0 {
        0
    } else {
        ends(commands.drop_last()) + if commands.last() is EndRenderPass {
            1nat
        } else {
            0nat
        }
    }
}

/// Bytes of an image of `width` by `height` pixels at four bytes a pixel.
pub open spec fn rgba_len(width: u32, height: u32) -> int {
    width * height * 4
}

/// What a PNG file comes to as a texture: its size, and its pixels as the
/// decoder leaves them in a buffer of four bytes a pixel.
pub open spec fn png_texture(bytes: Seq<u8>) -> Result<(u32, u32, Seq<u8>), PngError> {
    match png_dimensions(bytes) {
        None => Err(PngError::Header),
        Some((width, height)) => if rgba_len(width, height) == 0 || rgba_len(width, height)
            > u32::MAX {
            Err(PngError::Size)
        } else {
            match png_frame(bytes, rgba_len(width, height) as nat) {
                None => Err(PngError::Frame),
                Some(data) => Ok((width, height, data)),
            }
        },
    }
}

/// Computes [`rgba_len`], where it is not zero and a `u32` holds it.
pub fn rgba_buffer_len(width: u32, height: u32) -> (r: Option<u32>)
    ensures
        match r {
            Some(len) => len == rgba_len(width, height) && len > 0,
            None => rgba_len(width, height) == 0 || rgba_len(width, height) > u32::MAX,
        },
{
    assert(rgba_len(width, height) == (width * height) * 4) by (nonlinear_arith);
    let pixels = match width.checked_mul(height) {
        Some(pixels) => pixels,
        None => {
            return None;
        },
    };
    match pixels.checked_mul(4) {
        Some(len) => if len == 0 {
            None
        } else {
            Some(len)
        },
        None => None,
    }
}

impl View for WlxCommandBuffer {
    type V = Recording;

    closed spec fn view(&self) -> Recording {
        Recording {
            graphics: self.graphics,
            usage: self.usage,
            stage: self.stage,
            commands: self.commands@,
        }
    }
}

impl Recording {
    /// The stage is that of the commands recorded so far.
    pub open spec fn wf(self) -> bool {
        stage_after(self.commands) == Some(self.stage)
    }

    /// Whether `pass` can be run now: the render pass is open, and the pass
    /// was recorded for a render pass that is compatible with it.
    pub open spec fn accepts(self, pass: WlxPass) -> bool {
        self.stage matches Stage::Inside(render_pass) && render_pass.compatible(
            pass.command_buffer.render_pass,
        )
    }

    /// The recording with one more command, in the stage that the command
    /// leads to.
    pub open spec fn with(self, command: FrameCommand) -> Recording {
        Recording {
            graphics: self.graphics,
            usage: self.usage,
            stage: step(self.stage, command).unwrap(),
            commands: self.commands.push(command),
        }
    }
}

impl WlxCommandBuffer {
    #[verifier::type_invariant]
    spec fn consistent(self) -> bool {
        stage_after(self.commands@) == Some(self.stage)
    }

    /// The context that the command buffer was made from.
    pub fn graphics(&self) -> (r: WlxGraphics)
        ensures
            r == self@.graphics,
    {
        self.graphics
    }

    /// How often the recording is submitted.
    pub fn usage(&self) -> (r: CommandBufferUsage)
        ensures
            r == self@.usage,
    {
        self.usage
    }

    /// Where the command buffer stands with its render pass.
    pub fn stage(&self) -> (r: Stage)
        ensures
            r == self@.stage,
            self@.wf(),
    {
        proof {
            use_type_invariant(self);
        }
        self.stage
    }

    /// The commands recorded so far.
    pub fn commands(&self) -> (r: &Vec<FrameCommand>)
        ensures
            r@ == self@.commands,
            self@.wf(),
    {
        proof {
            use_type_invariant(self);
        }
        &self.commands
    }

    /// Whether the render pass has begun and has not ended.
    pub fn in_render_pass(&self) -> (r: bool)
        ensures
            r == (self@.stage is Inside),
    {
        match self.stage {
            Stage::Inside(_) => true,
            _ => false,
        }
    }

    /// Computes [`Recording::accepts`].
    pub fn can_run(&self, pass: &WlxPass) -> (r: bool)
        ensures
            r == self@.accepts(*pass),
    {
        match self.stage {
            Stage::Inside(render_pass) => render_pass.is_compatible_with(
                &pass.command_buffer.render_pass,
            ),
            _ => false,
        }
    }

    /// A command buffer with nothing recorded.
    pub fn new(graphics: WlxGraphics, usage: CommandBufferUsage) -> (r: WlxCommandBuffer)
        ensures
            r@ == (Recording {
                graphics,
                usage,
                stage: Stage::Outside,
                commands: Seq::<FrameCommand>::empty(),
            }),
            r@.wf(),
    {
        WlxCommandBuffer { graphics, usage, stage: Stage::Outside, commands: Vec::new() }
    }

    /// Begins the render pass of `pipeline` on its framebuffer. The target
    /// is cleared to opaque black, and the subpass is given in secondary
    /// command buffers.
    pub fn begin_render_pass(self, pipeline: &WlxPipeline) -> (r: WlxCommandBuffer)
        requires
            self@.stage == Stage::Outside,
        ensures
            r@ == self@.with(
                FrameCommand::BeginRenderPass {
                    render_pass: pipeline.render_pass,
                    clear: ClearColor::OpaqueBlack,
                    contents: SubpassContents::SecondaryCommandBuffers,
                },
            ),
            r@.stage == Stage::Inside(pipeline.render_pass),
            r@.wf(),
    {
        let command = FrameCommand::BeginRenderPass {
            render_pass: pipeline.render_pass,
            clear: ClearColor::OpaqueBlack,
            contents: SubpassContents::SecondaryCommandBuffers,
        };
        proof {
            use_type_invariant(&self);
            lemma_stage_after_push(self.commands@, command);
        }
        let graphics = self.graphics;
        let usage = self.usage;
        let mut commands = self.commands;
        commands.push(command);
        WlxCommandBuffer { graphics, usage, stage: Stage::Inside(pipeline.render_pass), commands }
    }

    /// Runs `pass` inside the render pass. The pass stays the caller's.
    pub fn run_ref(&mut self, pass: &WlxPass)
        requires
            old(self)@.accepts(*pass),
        ensures
            final(self)@ == old(self)@.with(FrameCommand::ExecuteCommands(pass.command_buffer)),
            final(self)@.stage == old(self)@.stage,
            final(self)@.wf(),
    {
        self.record(FrameCommand::ExecuteCommands(pass.command_buffer));
    }

    /// Records a command that leaves the command buffer in its stage.
    fn record(&mut self, command: FrameCommand)
        requires
            step(old(self)@.stage, command) == Some(old(self)@.stage),
        ensures
            final(self)@ == old(self)@.with(command),
            final(self)@.wf(),
    {
        let mut taken = WlxCommandBuffer::new(self.graphics, self.usage);
        std::mem::swap(self, &mut taken);
        proof {
            use_type_invariant(&taken);
            lemma_stage_after_push(taken.commands@, command);
        }
        let graphics = taken.graphics;
        let usage = taken.usage;
        let stage = taken.stage;
        let mut commands = taken.commands;
        commands.push(command);
        *self = WlxCommandBuffer { graphics, usage, stage, commands };
    }

    /// Creates a texture of `width` by `height` pixels and fills it with
    /// `data`: the bytes are staged in a buffer that the host sees, and a
    /// copy from there into the image is recorded. Nothing waits for the
    /// copy. The image has a pixel, and `data` holds a byte and is not
    /// shorter than the image.
    pub fn texture2d(&mut self, width: u32, height: u32, format: Format, data: Vec<u8>) -> (r:
        TextureUpload)
        requires
            !(old(self)@.stage is Inside),
            width > 0,
            height > 0,
            data@.len() > 0,
            fills(data@.len(), width, height, format),
        ensures
            final(self)@ == old(self)@.with(
                FrameCommand::CopyBufferToImage { source: r.staging.info, image: r.image },
            ),
            final(self)@.stage == old(self)@.stage,
            final(self)@.wf(),
            r.image == ImageInfo::texture(width, height, format),
            r.staging.info == BufferInfo::upload(BufferUsage::TransferSource, data@.len() as u64),
            r.staging.contents@ == data@,
    {
        let image = ImageInfo {
            width,
            height,
            format,
            usage: ImageUsage {
                transfer_src: true,
                transfer_dst: true,
                sampled: true,
                color_attachment: false,
            },
            placement: MemoryPlacement::Unspecified,
        };
        let info = BufferInfo {
            usage: BufferUsage::TransferSource,
            placement: MemoryPlacement::Upload,
            len: data.len() as u64,
        };
        self.record(FrameCommand::CopyBufferToImage { source: info, image });
        TextureUpload { image, staging: StagedBuffer { info, contents: data } }
    }

    /// Decodes a PNG file and uploads it as a texture of four 8-bit
    /// channels, see [`WlxCommandBuffer::texture2d`]. Where the file gives
    /// no texture, nothing is recorded.
    pub fn texture2d_png(&mut self, bytes: Vec<u8>) -> (r: Result<TextureUpload, PngError>)
        requires
            !(old(self)@.stage is Inside),
        ensures
            final(self)@.wf(),
            match r {
                Ok(upload) => {
                    &&& png_texture(bytes@) matches Ok((width, height, data))
                    &&& upload.image == ImageInfo::texture(width, height, Format(R8G8B8A8_UNORM))
                    &&& upload.staging.info == BufferInfo::upload(
                        BufferUsage::TransferSource,
                        data.len() as u64,
                    )
                    &&& upload.staging.contents@ == data
                    &&& final(self)@ == old(self)@.with(
                        FrameCommand::CopyBufferToImage {
                            source: upload.staging.info,
                            image: upload.image,
                        },
                    )
                    &&& final(self)@.stage == old(self)@.stage
                },
                Err(e) => png_texture(bytes@) == Err::<(u32, u32, Seq<u8>), PngError>(e)
                    && final(self)@ == old(self)@,
            },
    {
        proof {
            use_type_invariant(&*self);
        }
        let (width, height) = match read_dimensions(&bytes) {
            Some(size) => size,
            None => {
                return Err(PngError::Header);
            },
        };
        let len = match rgba_buffer_len(width, height) {
            Some(len) => len,
            None => {
                return Err(PngError::Size);
            },
        };
        let data = match decode_frame(&bytes, len as usize) {
            Some(data) => data,
            None => {
                return Err(PngError::Frame);
            },
        };
        assert(width > 0 && height > 0) by (nonlinear_arith)
            requires
                width * height * 4 > 0,
        ;
        Ok(self.texture2d(width, height, Format(R8G8B8A8_UNORM), data))
    }

    /// Ends the render pass.
    pub fn end_render_pass(self) -> (r: WlxCommandBuffer)
        requires
            self@.stage is Inside,
        ensures
            r@ == self@.with(FrameCommand::EndRenderPass),
            r@.stage == Stage::Done,
            r@.wf(),
    {
        proof {
            use_type_invariant(&self);
            lemma_stage_after_push(self.commands@, FrameCommand::EndRenderPass);
        }
        let graphics = self.graphics;
        let usage = self.usage;
        let mut commands = self.commands;
        commands.push(FrameCommand::EndRenderPass);
        WlxCommandBuffer { graphics, usage, stage: Stage::Done, commands }
    }

    /// Finishes the recording.
    pub fn build(self) -> (r: PrimaryCommandBuffer)
        requires
            !(self@.stage is Inside),
        ensures
            r.usage == self@.usage,
            r.commands@ == self@.commands,
            r.wf(),
    {
        proof {
            use_type_invariant(&self);
        }
        PrimaryCommandBuffer { usage: self.usage, commands: self.commands }
    }

    /// Finishes the recording and submits it to the queue. The caller gets
    /// on at once, and may poll the submission or chain work onto it.
    pub fn build_and_execute(self) -> (r: Submission)
        requires
            !(self@.stage is Inside),
        ensures
            r.command_buffer.usage == self@.usage,
            r.command_buffer.commands@ == self@.commands,
            r.command_buffer.wf(),
            r.queue_family_index == self@.graphics.device.queue_family_index,
            !r.wait,
    {
        let queue_family_index = self.graphics.device.queue_family_index;
        Submission { command_buffer: self.build(), queue_family_index, wait: false }
    }

    /// Finishes the recording, submits it, and holds the caller until the
    /// device has run it.
    pub fn build_and_execute_now(self) -> (r: Submission)
        requires
            !(self@.stage is Inside),
        ensures
            r.command_buffer.usage == self@.usage,
            r.command_buffer.commands@ == self@.commands,
            r.command_buffer.wf(),
            r.queue_family_index == self@.graphics.device.queue_family_index,
            r.wait,
    {
        let mut exec = self.build_and_execute();
        exec.wait = true;
        exec
    }
}

impl PrimaryCommandBuffer {
    /// Every command of a recording that is built has its place, and no
    /// render pass is left open.
    pub open spec fn wf(self) -> bool {
        stage_after(self.commands@) matches Some(stage) && !(stage is Inside)
    }
}

/// Recording one more command takes a command buffer one step further.
pub proof fn lemma_stage_after_push(commands: Seq<FrameCommand>, command: FrameCommand)
    ensures
        stage_after(commands.push(command)) == match stage_after(commands) {
            Some(stage) => step(stage, command),
            None => None,
        },
        begins(commands.push(command)) == begins(commands) + if command is BeginRenderPass {
            1nat
        } else {
            0nat
        },
        ends(commands.push(command)) == ends(commands) + if command is EndRenderPass {
            1nat
        } else {
            0nat
        },
{
    assert(commands.push(command).drop_last() =~= commands);
}

/// A command buffer begins its render pass once at most, and ends it as
/// often as it began it unless the render pass is still open: outside, no
/// render pass has begun; inside, one has begun and none has ended; once
/// done, one has begun and ended.
pub proof fn lemma_render_pass_once(commands: Seq<FrameCommand>)
    requires
        stage_after(commands) is Some,
    ensures
        match stage_after(commands).unwrap() {
            Stage::Outside => begins(commands) == 0 && ends(commands) == 0,
            Stage::Inside(_) => begins(commands) == 1 && ends(commands) == 0,
            Stage::Done => begins(commands) == 1 && ends(commands) == 1,
        },
    decreases commands.len(),
{
    if commands.len() > 0 {
        lemma_render_pass_once(commands.drop_last());
    }
}

/// Before its render pass begins, a command buffer holds copies and nothing
/// else.
pub proof fn lemma_outside_holds_copies(commands: Seq<FrameCommand>, i: int)
    requires
        stage_after(commands) == Some(Stage::Outside),
        0 <= i < commands.len(),
    ensures
        commands[i] is CopyBufferToImage,
    decreases commands.len(),
{
    if i < commands.len() - 1 {
        lemma_outside_holds_copies(commands.drop_last(), i);
    }
}

/// While a render pass is open, it is the one that the command buffer has
/// begun.
pub proof fn lemma_inside_what_began(
    commands: Seq<FrameCommand>,
    render_pass: RenderPassInfo,
    j: int,
)
    requires
        stage_after(commands) == Some(Stage::Inside(render_pass)),
        0 <= j < commands.len(),
        commands[j] is BeginRenderPass,
    ensures
        commands[j]->BeginRenderPass_render_pass == render_pass,
    decreases commands.len(),
{
    let before = commands.drop_last();
    if j < commands.len() - 1 {
        if commands.last() is BeginRenderPass {
            lemma_outside_holds_copies(before, j);
        } else {
            lemma_inside_what_began(before, render_pass, j);
        }
    }
}

/// Passes are not mixed: a pass that a command buffer runs comes after the
/// beginning of the render pass, was recorded for a render pass that is
/// compatible with it, and comes before its end.
pub proof fn lemma_passes_fit_render_pass(commands: Seq<FrameCommand>, begin: int, pass: int)
    requires
        stage_after(commands) is Some,
        0 <= begin < commands.len(),
        0 <= pass < commands.len(),
        commands[begin] is BeginRenderPass,
        commands[pass] is ExecuteCommands,
    ensures
        begin < pass,
        commands[begin]->BeginRenderPass_render_pass.compatible(
            commands[pass]->ExecuteCommands_0.render_pass,
        ),
        forall|end: int|
            0 <= end < commands.len() && (#[trigger] commands[end]) is EndRenderPass ==> pass < end,
    decreases commands.len(),
{
    let before = commands.drop_last();
    let last = commands.len() - 1;
    let stage = stage_after(before).unwrap();
    if begin < last && pass < last {
        lemma_passes_fit_render_pass(before, begin, pass);
        assert forall|end: int|
            0 <= end < commands.len() && (#[trigger] commands[end]) is EndRenderPass implies pass
            < end by {
            if end < last {
                assert(before[end] is EndRenderPass);
            }
        }
    } else if pass == last {
        lemma_inside_what_began(before, stage->Inside_0, begin);
        assert forall|end: int|
            0 <= end < commands.len() && (#[trigger] commands[end]) is EndRenderPass implies pass
            < end by {
            if end < last {
                lemma_no_end_inside(before, end);
            }
        }
    } else {
        lemma_outside_holds_copies(before, pass);
    }
}

/// While a render pass is open, the command buffer does not hold its end.
pub proof fn lemma_no_end_inside(commands: Seq<FrameCommand>, i: int)
    requires
        stage_after(commands) is Some,
        stage_after(commands).unwrap() is Inside,
        0 <= i < commands.len(),
    ensures
        !(commands[i] is EndRenderPass),
    decreases commands.len(),
{
    let before = commands.drop_last();
    if i < commands.len() - 1 {
        if commands.last() is BeginRenderPass {
            lemma_outside_holds_copies(before, i);
        } else {
            lemma_no_end_inside(before, i);
        }
    }
}

/// A render pass that runs no pass can be built: a command buffer whose
/// render pass has not begun may begin it, may then end it at once, and may
/// then be built. It holds the two commands and what it held before.
pub proof fn lemma_empty_render_pass_builds(recording: Recording, pipeline: WlxPipeline)
    requires
        recording.wf(),
        recording.stage == Stage::Outside,
    ensures
        ({
            let begin = FrameCommand::BeginRenderPass {
                render_pass: pipeline.render_pass,
                clear: ClearColor::OpaqueBlack,
                contents: SubpassContents::SecondaryCommandBuffers,
            };
            let begun = recording.with(begin);
            let ended = begun.with(FrameCommand::EndRenderPass);
            &&& begun.wf()
            &&& begun.stage is Inside
            &&& ended.wf()
            &&& ended.stage == Stage::Done
            &&& ended.commands == recording.commands.push(begin).push(FrameCommand::EndRenderPass)
        }),
{
    let begin = FrameCommand::BeginRenderPass {
        render_pass: pipeline.render_pass,
        clear: ClearColor::OpaqueBlack,
        contents: SubpassContents::SecondaryCommandBuffers,
    };
    lemma_stage_after_push(recording.commands, begin);
    lemma_stage_after_push(recording.commands.push(begin), FrameCommand::EndRenderPass);
}

} // verus!

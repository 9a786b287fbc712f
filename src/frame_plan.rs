//! The steps of one frame, in order: what to record, what to submit with
//! which signals, and what to present.

use vstd::prelude::*;
use crate::frame_sync::SyncIndices;
use crate::surface::Extent2D;

verus! {

/// One step of a frame. Slots index the frame-slot objects (command buffer,
/// image-available signal, fence); images index the presentable images and
/// their render-finished signals.
#[derive(Clone, Copy, Debug, PartialEq, Eq, Structural)]
pub enum FrameStep {
    /// Reset the slot's completion fence.
    ResetFence { slot: usize },
    /// Reset and begin the slot's command buffer for one submission.
    BeginCommands { buffer: usize },
    /// Move the image from an undefined layout to color-attachment writes.
    TransitionToColorAttachment { image: u32 },
    /// Begin rendering into the image: clear, then store.
    BeginRendering { image: u32, extent: Extent2D },
    /// Viewport and scissor over the whole extent.
    SetViewportScissor { extent: Extent2D },
    BindPipeline,
    /// Push identity model, current view and projection.
    PushCameraMatrices,
    BindVertexBuffer,
    Draw { vertex_count: u32 },
    EndRendering,
    /// Move the image from color-attachment writes to presentation.
    TransitionToPresent { image: u32 },
    EndCommands { buffer: usize },
    /// Submit the buffer: wait on the image-available signal at the
    /// color-attachment-output stage, signal the render-finished signal and
    /// the fence.
    Submit { buffer: usize, wait_image_available: usize, signal_render_finished: usize, fence: usize },
    /// Present the image once its render-finished signal has signalled.
    Present { image: u32, wait_render_finished: usize },
}

/// The steps of the frame that renders into `image_index` with the handles
/// `sync`.
pub open spec fn frame_steps(sync: SyncIndices, image_index: u32, extent: Extent2D, vertex_count: u32) -> Seq<FrameStep> {
    seq![
        FrameStep::ResetFence { slot: sync.fence },
        FrameStep::BeginCommands { buffer: sync.command_buffer },
        FrameStep::TransitionToColorAttachment { image: image_index },
        FrameStep::BeginRendering { image: image_index, extent },
        FrameStep::SetViewportScissor { extent },
        FrameStep::BindPipeline,
        FrameStep::PushCameraMatrices,
        FrameStep::BindVertexBuffer,
        FrameStep::Draw { vertex_count },
        FrameStep::EndRendering,
        FrameStep::TransitionToPresent { image: image_index },
        FrameStep::EndCommands { buffer: sync.command_buffer },
        FrameStep::Submit {
            buffer: sync.command_buffer,
            wait_image_available: sync.image_available,
            signal_render_finished: sync.render_finished,
            fence: sync.fence,
        },
        FrameStep::Present { image: image_index, wait_render_finished: sync.render_finished },
    ]
}

/// Plans the frame that renders `vertex_count` vertices into the acquired
/// image `image_index` with the handles `sync`.
pub fn plan_frame(sync: SyncIndices, image_index: u32, extent: Extent2D, vertex_count: u32) -> (r: Vec<FrameStep>)
    ensures
        r@ == frame_steps(sync, image_index, extent, vertex_count),
{
    let mut r: Vec<FrameStep> = Vec::with_capacity(14);
    r.push(FrameStep::ResetFence { slot: sync.fence });
    r.push(FrameStep::BeginCommands { buffer: sync.command_buffer });
    r.push(FrameStep::TransitionToColorAttachment { image: image_index });
    r.push(FrameStep::BeginRendering { image: image_index, extent });
    r.push(FrameStep::SetViewportScissor { extent });
    r.push(FrameStep::BindPipeline);
    r.push(FrameStep::PushCameraMatrices);
    r.push(FrameStep::BindVertexBuffer);
    r.push(FrameStep::Draw { vertex_count });
    r.push(FrameStep::EndRendering);
    r.push(FrameStep::TransitionToPresent { image: image_index });
    r.push(FrameStep::EndCommands { buffer: sync.command_buffer });
    r.push(
        FrameStep::Submit {
            buffer: sync.command_buffer,
            wait_image_available: sync.image_available,
            signal_render_finished: sync.render_finished,
            fence: sync.fence,
        },
    );
    r.push(FrameStep::Present { image: image_index, wait_render_finished: sync.render_finished });
    proof {
        assert(r@ =~= frame_steps(sync, image_index, extent, vertex_count));
    }
    r
}

/// A frame's presentation is never submitted before its rendering signals
/// completion: the plan submits exactly once, then presents exactly once,
/// and the present waits on the very render-finished signal that the
/// submission signals. When that signal is the acquired image's own, the
/// image-indexed signal is the one both use. The fence is reset before the
/// submission that signals it.
pub proof fn lemma_present_waits_on_submission(sync: SyncIndices, image_index: u32, extent: Extent2D, vertex_count: u32)
    ensures
        ({
            let s = frame_steps(sync, image_index, extent, vertex_count);
            &&& s.len() == 14
            &&& match (s[12], s[13]) {
                (
                    FrameStep::Submit { signal_render_finished, fence, .. },
                    FrameStep::Present { image, wait_render_finished },
                ) => {
                    &&& wait_render_finished == signal_render_finished
                    &&& image == image_index
                    &&& (sync.render_finished == image_index ==> wait_render_finished == image_index)
                    &&& s[0] == FrameStep::ResetFence { slot: fence }
                },
                _ => false,
            }
            &&& forall|i: int| 0 <= i < 12 ==> !(#[trigger] s[i] is Submit) && !(s[i] is Present)
        }),
{
}

} // verus!

//! Decisions of the window-driven frame loop: when to recreate the swapchain,
//! when to render, and what a frame's result means for the next one.

use vstd::prelude::*;
use crate::frame_sync::FrameError;
use crate::surface::Extent2D;
use crate::device::InitError;

verus! {

/// What the windowing collaborator reports.
#[derive(Clone, Copy, Debug, PartialEq, Eq, Structural)]
pub enum WindowEvent {
    /// The window now has this size in pixels.
    Resized { width: u32, height: u32 },
    /// A chance to draw; carries the window's current size in pixels.
    RedrawRequested { width: u32, height: u32 },
    CloseRequested,
}

/// What the loop does next.
#[derive(Clone, Copy, Debug, PartialEq, Eq, Structural)]
pub enum LoopAction {
    Nothing,
    /// Render one frame.
    Render,
    /// Recreate the swapchain for this size, and render nothing this time.
    Recreate { width: u32, height: u32 },
    /// Tear everything down and stop.
    Shutdown,
}

/// What the loop does after a frame.
#[derive(Clone, Copy, Debug, PartialEq, Eq, Structural)]
pub enum AfterFrame {
    Continue,
    /// The swapchain is stale: ask for another redraw, which recreates it.
    RedrawForResize,
    /// The frame failed and was dropped; the loop goes on.
    Dropped(FrameError),
}

/// The loop's memory between events.
#[derive(Clone, Copy, Debug, PartialEq, Eq, Structural)]
pub struct FrameLoop {
    /// The swapchain must be recreated before the next frame is rendered.
    pub needs_resize: bool,
    /// Extent of the current swapchain.
    pub extent: Extent2D,
    /// Shut down; nothing more happens.
    pub closed: bool,
}

/// Whether a window of this size can be drawn into (it is not minimized).
pub open spec fn drawable(width: u32, height: u32) -> bool {
    width > 0 && height > 0
}

impl FrameLoop {
    /// A loop over a freshly created swapchain of `extent`.
    pub fn new(extent: Extent2D) -> (r: Self)
        ensures
            r == (FrameLoop { needs_resize: false, extent, closed: false }),
    {
        FrameLoop { needs_resize: false, extent, closed: false }
    }

    /// Handles one window event. A resize to a drawable size other than the
    /// swapchain's marks the swapchain for recreation. A redraw recreates a
    /// marked swapchain instead of rendering (or skips while minimized), and
    /// renders otherwise. A close request shuts down; after that nothing
    /// happens.
    pub fn on_event(&mut self, event: WindowEvent) -> (r: LoopAction)
        ensures
            final(self).extent == old(self).extent,
            old(self).closed ==> r == LoopAction::Nothing && *final(self) == *old(self),
            !old(self).closed ==> match event {
                WindowEvent::Resized { width, height } => {
                    &&& r == LoopAction::Nothing
                    &&& final(self).closed == false
                    &&& final(self).needs_resize == (old(self).needs_resize || (drawable(width, height)
                        && (width != old(self).extent.width || height != old(self).extent.height)))
                },
                WindowEvent::RedrawRequested { width, height } => {
                    &&& *final(self) == *old(self)
                    &&& r == if !old(self).needs_resize {
                        LoopAction::Render
                    } else if drawable(width, height) {
                        LoopAction::Recreate { width, height }
                    } else {
                        LoopAction::Nothing
                    }
                },
                WindowEvent::CloseRequested => {
                    &&& r == LoopAction::Shutdown
                    &&& *final(self) == (FrameLoop { closed: true, ..*old(self) })
                },
            },
    {
        if self.closed {
            return LoopAction::Nothing;
        }
        match event {
            WindowEvent::Resized { width, height } => {
                if width > 0 && height > 0 && (width != self.extent.width || height
                    != self.extent.height) {
                    self.needs_resize = true;
                }
                LoopAction::Nothing
            },
            WindowEvent::RedrawRequested { width, height } => {
                if !self.needs_resize {
                    LoopAction::Render
                } else if width > 0 && height > 0 {
                    LoopAction::Recreate { width, height }
                } else {
                    LoopAction::Nothing
                }
            },
            WindowEvent::CloseRequested => {
                self.closed = true;
                LoopAction::Shutdown
            },
        }
    }

    /// Takes in the result of a recreation. On success the swapchain has the
    /// new extent and is no longer marked; the loop renders again from the
    /// next redraw on. A failure is fatal: a half-built swapchain is unsafe to
    /// render with.
    pub fn on_recreated(&mut self, result: Result<Extent2D, InitError>) -> (r: LoopAction)
        ensures
            match result {
                Ok(extent) => {
                    &&& r == LoopAction::Nothing
                    &&& *final(self) == (FrameLoop { needs_resize: false, extent, ..*old(self) })
                },
                Err(_) => {
                    &&& r == LoopAction::Shutdown
                    &&& *final(self) == (FrameLoop { closed: true, ..*old(self) })
                },
            },
    {
        match result {
            Ok(extent) => {
                self.needs_resize = false;
                self.extent = extent;
                LoopAction::Nothing
            },
            Err(_) => {
                self.closed = true;
                LoopAction::Shutdown
            },
        }
    }

    /// Takes in what rendering a frame returned: a requested resize marks the
    /// swapchain and asks for a redraw; a failure drops the frame only.
    pub fn on_frame_result(&mut self, result: Result<bool, FrameError>) -> (r: AfterFrame)
        ensures
            final(self).extent == old(self).extent,
            final(self).closed == old(self).closed,
            match result {
                Ok(true) => r == AfterFrame::RedrawForResize && final(self).needs_resize,
                Ok(false) => r == AfterFrame::Continue && final(self).needs_resize == old(
                    self,
                ).needs_resize,
                Err(e) => r == AfterFrame::Dropped(e) && final(self).needs_resize == old(
                    self,
                ).needs_resize,
            },
    {
        match result {
            Ok(true) => {
                self.needs_resize = true;
                AfterFrame::RedrawForResize
            },
            Ok(false) => AfterFrame::Continue,
            Err(e) => AfterFrame::Dropped(e),
        }
    }
}

} // verus!

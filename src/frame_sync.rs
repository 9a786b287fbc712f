//! Synchronization indexing of the acquire / submit / present protocol.
//!
//! Two index spaces are kept apart on purpose. The image-available signals and
//! the completion fences belong to the CPU-controlled frame slots, which rotate
//! through `0..FRAMES_IN_FLIGHT`. The render-finished signals belong to the
//! presentable images, whose order the presentation engine decides. The
//! image-fence table remembers, for every image, which slot's fence was last
//! recorded against it, so that an image is never rendered into before the
//! frame that used it last has completed.

use vstd::prelude::*;

verus! {

/// Number of frame slots: at most this many frames have GPU work outstanding.
pub const FRAMES_IN_FLIGHT: usize = 2;

/// The frame slot used by the frame with index `k` since the last reset.
pub open spec fn slot_of(k: nat) -> nat {
    k % (FRAMES_IN_FLIGHT as nat)
}

/// Lifecycle of a swapchain.
#[derive(Clone, Copy, Debug, PartialEq, Eq, Structural)]
pub enum SwapchainState {
    Ready,
    OutOfDate,
    Destroyed,
}

/// What acquiring an image from the presentation engine reported.
#[derive(Clone, Copy, Debug, PartialEq, Eq, Structural)]
pub enum AcquireOutcome {
    Acquired { image_index: u32, suboptimal: bool },
    OutOfDate,
    /// Any other failure, with the raw result code.
    Failed(i32),
}

/// What presenting an image reported.
#[derive(Clone, Copy, Debug, PartialEq, Eq, Structural)]
pub enum PresentOutcome {
    Presented { suboptimal: bool },
    OutOfDate,
    /// Any other failure, with the raw result code.
    Failed(i32),
}

/// A failure in one frame; the frame is dropped and the loop goes on.
#[derive(Clone, Copy, Debug, PartialEq, Eq, Structural)]
pub enum FrameError {
    AcquireFailed(i32),
    PresentFailed(i32),
    /// The presentation engine named an image that the swapchain does not hold.
    ImageIndexOutOfRange(u32),
    /// Recording or submitting the frame's commands failed, with the raw
    /// result code.
    CommandFailed(i32),
}

/// The handles, by index, to use when acquiring the next image.
#[derive(Clone, Copy, Debug, PartialEq, Eq, Structural)]
pub struct AcquireRequest {
    /// Slot whose completion fence must signal before the acquire.
    pub wait_fence: usize,
    /// Slot whose image-available signal the acquire signals.
    pub image_available: usize,
}

/// Result of a successful acquire step.
#[derive(Clone, Copy, Debug, PartialEq, Eq, Structural)]
pub enum Acquired {
    /// Render into `image_index`; first wait on the fence of
    /// `wait_image_fence` if one is named.
    Image { image_index: u32, suboptimal: bool, wait_image_fence: Option<usize> },
    /// The swapchain is stale: recreate it before the next frame.
    ResizeNeeded,
}

/// The synchronization handles, by index, for the frame being recorded.
#[derive(Clone, Copy, Debug, PartialEq, Eq, Structural)]
pub struct SyncIndices {
    /// Frame-slot index of the image-available signal to wait on.
    pub image_available: usize,
    /// Image index of the render-finished signal to signal, and to present on.
    pub render_finished: usize,
    /// Frame-slot index of the completion fence to reset and signal.
    pub fence: usize,
    /// Frame-slot index of the command buffer to record.
    pub command_buffer: usize,
}

/// The abstract state of a [`FrameSync`].
pub struct SyncModel {
    /// Current frame slot.
    pub slot: nat,
    /// Index of the image acquired last.
    pub image: nat,
    /// For every image, the slot whose fence was recorded against it last.
    pub table: Seq<Option<usize>>,
    pub state: SwapchainState,
    /// Frames presented since creation or the last recreation.
    pub frames: nat,
}

/// The fence an acquire of an image must wait out: that of another slot
/// recorded against the image, if any.
pub open spec fn prior_fence(entry: Option<usize>, slot: nat) -> Option<usize> {
    match entry {
        Some(s) => if s as nat != slot {
            Some(s)
        } else {
            None
        },
        None => None,
    }
}

/// A table of `n` images none of which is in flight.
pub open spec fn empty_table(table: Seq<Option<usize>>, n: nat) -> bool {
    &&& table.len() == n
    &&& forall|i: int| 0 <= i < n ==> #[trigger] table[i] is None
}

/// Frame-slot rotation and the image-fence table of one swapchain.
pub struct FrameSync {
    current_frame: usize,
    current_image: u32,
    images_in_flight: Vec<Option<usize>>,
    state: SwapchainState,
    frames: Ghost<nat>,
}

impl View for FrameSync {
    type V = SyncModel;

    closed spec fn view(&self) -> SyncModel {
        SyncModel {
            slot: self.current_frame as nat,
            image: self.current_image as nat,
            table: self.images_in_flight@,
            state: self.state,
            frames: self.frames@,
        }
    }
}

impl FrameSync {
    /// The slot follows the frame count, and every recorded slot is a slot.
    pub closed spec fn wf(&self) -> bool {
        &&& self.current_frame as nat == slot_of(self.frames@)
        &&& forall|i: int|
            0 <= i < self.images_in_flight@.len() ==> (#[trigger] self.images_in_flight@[i] matches Some(s)
                ==> s < FRAMES_IN_FLIGHT)
    }

    /// What well-formedness gives a caller: the current slot is that of frame
    /// `frames`, and every slot recorded in the image-fence table is a slot.
    pub proof fn lemma_wf(&self)
        requires
            self.wf(),
        ensures
            self@.slot == slot_of(self@.frames),
            self@.slot < FRAMES_IN_FLIGHT,
            forall|i: int|
                0 <= i < self@.table.len() ==> (#[trigger] self@.table[i] matches Some(s)
                    ==> s < FRAMES_IN_FLIGHT),
    {
    }

    /// The state of a new swapchain of `image_count` images: slot 0, no image
    /// in flight.
    pub fn new(image_count: usize) -> (r: Self)
        ensures
            r.wf(),
            r@.slot == 0,
            r@.image == 0,
            r@.frames == 0,
            r@.state == SwapchainState::Ready,
            empty_table(r@.table, image_count as nat),
    {
        FrameSync {
            current_frame: 0,
            current_image: 0,
            images_in_flight: empty_fence_table(image_count),
            state: SwapchainState::Ready,
            frames: Ghost(0),
        }
    }

    /// Number of frame slots: always `FRAMES_IN_FLIGHT`, whatever the image
    /// count.
    pub fn frames_in_flight(&self) -> (r: usize)
        ensures
            r == FRAMES_IN_FLIGHT,
    {
        FRAMES_IN_FLIGHT
    }

    /// Current frame slot.
    pub fn current_frame(&self) -> (r: usize)
        requires
            self.wf(),
        ensures
            r == self@.slot,
            r < FRAMES_IN_FLIGHT,
    {
        self.current_frame
    }

    /// Index of the image acquired last.
    pub fn current_image_index(&self) -> (r: u32)
        ensures
            r == self@.image,
    {
        self.current_image
    }

    /// Number of presentable images.
    pub fn image_count(&self) -> (r: usize)
        ensures
            r == self@.table.len(),
    {
        self.images_in_flight.len()
    }

    /// Lifecycle state.
    pub fn state(&self) -> (r: SwapchainState)
        ensures
            r == self@.state,
    {
        self.state
    }

    /// The slot whose fence was recorded against `image` last, if any.
    pub fn image_fence(&self, image: usize) -> (r: Option<usize>)
        requires
            image < self@.table.len(),
        ensures
            r == self@.table[image as int],
    {
        self.images_in_flight[image]
    }

    /// Which fence to wait on and which image-available signal to hand to the
    /// acquire: both those of the current slot, that of frame `frames`.
    pub fn acquire_request(&self) -> (r: AcquireRequest)
        requires
            self.wf(),
        ensures
            r.wait_fence == self@.slot,
            r.image_available == self@.slot,
            r.wait_fence == slot_of(self@.frames),
            r.wait_fence < FRAMES_IN_FLIGHT,
    {
        AcquireRequest { wait_fence: self.current_frame, image_available: self.current_frame }
    }

    /// Takes in what the acquire reported. On an image, names the fence of
    /// another slot that is still recorded against it (to be waited out before
    /// rendering), and records the current slot's fence against the image.
    /// A stale swapchain asks for a resize; any other failure is an error.
    pub fn on_acquire(&mut self, outcome: AcquireOutcome) -> (r: Result<Acquired, FrameError>)
        requires
            old(self).wf(),
        ensures
            final(self).wf(),
            match outcome {
                AcquireOutcome::Acquired { image_index, suboptimal } => if (image_index as int)
                    < old(self)@.table.len() {
                    &&& r == Ok::<Acquired, FrameError>(
                        Acquired::Image {
                            image_index,
                            suboptimal,
                            wait_image_fence: prior_fence(
                                old(self)@.table[image_index as int],
                                old(self)@.slot,
                            ),
                        },
                    )
                    &&& final(self)@ == (SyncModel {
                        image: image_index as nat,
                        table: old(self)@.table.update(
                            image_index as int,
                            Some(old(self)@.slot as usize),
                        ),
                        ..old(self)@
                    })
                } else {
                    &&& r == Err::<Acquired, FrameError>(FrameError::ImageIndexOutOfRange(image_index))
                    &&& final(self)@ == old(self)@
                },
                AcquireOutcome::OutOfDate => {
                    &&& r == Ok::<Acquired, FrameError>(Acquired::ResizeNeeded)
                    &&& final(self)@ == (SyncModel { state: SwapchainState::OutOfDate, ..old(self)@ })
                },
                AcquireOutcome::Failed(code) => {
                    &&& r == Err::<Acquired, FrameError>(FrameError::AcquireFailed(code))
                    &&& final(self)@ == old(self)@
                },
            },
    {
        match outcome {
            AcquireOutcome::Acquired { image_index, suboptimal } => {
                if (image_index as usize) < self.images_in_flight.len() {
                    let idx = image_index as usize;
                    let wait_image_fence = match self.images_in_flight[idx] {
                        Some(s) => if s != self.current_frame {
                            Some(s)
                        } else {
                            None
                        },
                        None => None,
                    };
                    self.images_in_flight.set(idx, Some(self.current_frame));
                    self.current_image = image_index;
                    Ok(Acquired::Image { image_index, suboptimal, wait_image_fence })
                } else {
                    Err(FrameError::ImageIndexOutOfRange(image_index))
                }
            },
            AcquireOutcome::OutOfDate => {
                self.state = SwapchainState::OutOfDate;
                Ok(Acquired::ResizeNeeded)
            },
            AcquireOutcome::Failed(code) => Err(FrameError::AcquireFailed(code)),
        }
    }

    /// The handles of the frame being recorded: image-available signal, fence
    /// and command buffer of the current slot, and the render-finished signal
    /// of the image acquired last.
    pub fn current_sync(&self) -> (r: SyncIndices)
        requires
            self.wf(),
        ensures
            r.image_available == self@.slot,
            r.render_finished == self@.image,
            r.fence == self@.slot,
            r.fence == slot_of(self@.frames),
            r.command_buffer == self@.slot,
    {
        SyncIndices {
            image_available: self.current_frame,
            render_finished: self.current_image as usize,
            fence: self.current_frame,
            command_buffer: self.current_frame,
        }
    }

    /// Takes in what the present reported and moves on to the next slot,
    /// whatever the outcome. Returns whether a resize is requested (stale or
    /// suboptimal swapchain); any other failure is an error.
    pub fn on_present(&mut self, outcome: PresentOutcome) -> (r: Result<bool, FrameError>)
        requires
            old(self).wf(),
        ensures
            final(self).wf(),
            final(self)@.slot == (old(self)@.slot + 1) % (FRAMES_IN_FLIGHT as nat),
            final(self)@.frames == old(self)@.frames + 1,
            final(self)@.image == old(self)@.image,
            final(self)@.table == old(self)@.table,
            final(self)@.state == if r == Ok::<bool, FrameError>(true) {
                SwapchainState::OutOfDate
            } else {
                old(self)@.state
            },
            r == match outcome {
                PresentOutcome::Presented { suboptimal } => Ok::<bool, FrameError>(suboptimal),
                PresentOutcome::OutOfDate => Ok(true),
                PresentOutcome::Failed(code) => Err(FrameError::PresentFailed(code)),
            },
    {
        self.current_frame = (self.current_frame + 1) % FRAMES_IN_FLIGHT;
        self.frames = Ghost(self.frames@ + 1);
        let r = match outcome {
            PresentOutcome::Presented { suboptimal } => Ok(suboptimal),
            PresentOutcome::OutOfDate => Ok(true),
            PresentOutcome::Failed(code) => Err(FrameError::PresentFailed(code)),
        };
        if let Ok(true) = r {
            self.state = SwapchainState::OutOfDate;
        }
        r
    }

    /// Starts over on a rebuilt image set of `new_image_count` images: slot 0,
    /// no image in flight, ready. Returns whether the render-finished signals
    /// must be rebuilt, which is when the image count changed.
    pub fn recreate(&mut self, new_image_count: usize) -> (rebuild_render_finished: bool)
        ensures
            final(self).wf(),
            rebuild_render_finished == (new_image_count as nat != old(self)@.table.len()),
            final(self)@.slot == 0,
            final(self)@.image == 0,
            final(self)@.frames == 0,
            final(self)@.state == SwapchainState::Ready,
            empty_table(final(self)@.table, new_image_count as nat),
    {
        let rebuild = new_image_count != self.images_in_flight.len();
        self.images_in_flight = empty_fence_table(new_image_count);
        self.current_frame = 0;
        self.current_image = 0;
        self.state = SwapchainState::Ready;
        self.frames = Ghost(0);
        rebuild
    }

    /// Marks the swapchain as torn down.
    pub fn destroy(&mut self)
        requires
            old(self).wf(),
        ensures
            final(self).wf(),
            final(self)@ == (SyncModel { state: SwapchainState::Destroyed, ..old(self)@ }),
    {
        self.state = SwapchainState::Destroyed;
    }
}

/// An image-fence table of `n` images, none in flight.
fn empty_fence_table(n: usize) -> (r: Vec<Option<usize>>)
    ensures
        empty_table(r@, n as nat),
{
    let mut table: Vec<Option<usize>> = Vec::with_capacity(n);
    let mut i: usize = 0;
    while i < n
        invariant
            i <= n,
            empty_table(table@, i as nat),
        decreases n - i,
    {
        table.push(None);
        i = i + 1;
    }
    table
}

/// Slot rotation bounds GPU lag: for every frame index `k` from
/// `FRAMES_IN_FLIGHT` on, the fence that gates the acquire of frame `k` is the
/// very fence that the submission of frame `k - FRAMES_IN_FLIGHT` signalled,
/// no frame in between signalled it, and the frames that can be in flight
/// together with frame `k` occupy pairwise distinct slots.
pub proof fn lemma_fence_gates_frame(k: nat)
    requires
        k >= FRAMES_IN_FLIGHT,
    ensures
        slot_of(k) == slot_of((k - FRAMES_IN_FLIGHT) as nat),
        forall|j: nat| k - FRAMES_IN_FLIGHT < j < k ==> #[trigger] slot_of(j) != slot_of(k),
        forall|a: nat, b: nat|
            k - FRAMES_IN_FLIGHT < a < b <= k ==> #[trigger] slot_of(a) != #[trigger] slot_of(b),
{
}

} // verus!

//! One frame in flight: the steps that draw a frame, what each of them needs
//! of the fence, the two semaphores and the command buffer, and what it
//! leaves behind.

use vstd::prelude::*;

verus! {

/// What the program does next to get a frame on screen.
#[derive(Clone, Copy, Debug, PartialEq, Eq, Structural)]
pub enum FrameStep {
    /// Block until the frame submitted last has left the GPU.
    WaitForFence,
    ResetFence,
    /// Ask the swapchain for an image; the image-available semaphore is
    /// signalled once the image can be drawn to.
    AcquireImage,
    ResetCommandBuffer,
    RecordCommands { image_index: u32 },
    /// Hand the command buffer to the graphics queue: it waits for the
    /// image-available semaphore, signals the render-finished semaphore
    /// and, when done, the fence.
    Submit,
    /// Hand the image to the present queue, which waits for the
    /// render-finished semaphore.
    Present { image_index: u32 },
}

/// Where the command buffer is in its life.
#[derive(Clone, Copy, Debug, PartialEq, Eq, Structural)]
pub enum CommandBufferState {
    Initial,
    /// Recorded for the framebuffer of the given image.
    Executable { image_index: u32 },
    /// Submitted, and the GPU may still be reading it.
    Pending { image_index: u32 },
}

/// The synchronisation objects as the host knows them, and the step that is
/// due.
#[derive(Clone, Copy, Debug, PartialEq, Eq, Structural)]
pub struct FrameState {
    pub next: FrameStep,
    /// Number of swapchain images, each with a framebuffer.
    pub image_count: u32,
    pub fence_signaled: bool,
    /// A submission was made and has not been waited for.
    pub in_flight: bool,
    /// The image-available semaphore is signalled or about to be.
    pub image_available: bool,
    /// The render-finished semaphore is signalled or about to be.
    pub render_finished: bool,
    pub commands: CommandBufferState,
    /// The image that was acquired and not yet presented.
    pub acquired: Option<u32>,
}

impl FrameState {
    /// Before the first frame: the fence was created signalled, so that the
    /// first wait returns at once; nothing else has happened.
    pub open spec fn spec_new(image_count: u32) -> FrameState {
        FrameState {
            next: FrameStep::WaitForFence,
            image_count,
            fence_signaled: true,
            in_flight: false,
            image_available: false,
            render_finished: false,
            commands: CommandBufferState::Initial,
            acquired: None,
        }
    }

    /// What the API asks of the synchronisation objects before `step` may be
    /// taken.
    pub open spec fn permits(self, step: FrameStep) -> bool {
        match step {
            // The wait must be able to end.
            FrameStep::WaitForFence => self.fence_signaled || self.in_flight,
            // No submission that will signal the fence is outstanding.
            FrameStep::ResetFence => !self.in_flight,
            // The semaphore to signal has no signal on it already.
            FrameStep::AcquireImage => !self.image_available && self.acquired is None,
            FrameStep::ResetCommandBuffer => !(self.commands is Pending),
            FrameStep::RecordCommands { image_index } => {
                &&& self.commands is Initial
                &&& self.acquired == Some(image_index)
                &&& image_index < self.image_count
            },
            FrameStep::Submit => {
                &&& self.commands is Executable
                &&& self.acquired == Some(self.commands->Executable_image_index)
                &&& self.image_available
                &&& !self.render_finished
                &&& !self.fence_signaled
                &&& !self.in_flight
            },
            FrameStep::Present { image_index } => {
                &&& self.render_finished
                &&& self.acquired == Some(image_index)
                &&& self.commands == (CommandBufferState::Pending { image_index })
            },
        }
    }

    /// The synchronisation objects after the step that was due, with the
    /// step that is due then. `acquired_image` is read after `AcquireImage`
    /// only.
    pub open spec fn spec_advance(self, acquired_image: Option<u32>) -> FrameState {
        match self.next {
            FrameStep::WaitForFence => FrameState {
                next: FrameStep::ResetFence,
                fence_signaled: true,
                in_flight: false,
                commands: match self.commands {
                    CommandBufferState::Pending { image_index } => CommandBufferState::Executable {
                        image_index,
                    },
                    other => other,
                },
                ..self
            },
            FrameStep::ResetFence => FrameState {
                next: FrameStep::AcquireImage,
                fence_signaled: false,
                ..self
            },
            FrameStep::AcquireImage => FrameState {
                next: FrameStep::ResetCommandBuffer,
                image_available: true,
                acquired: acquired_image,
                ..self
            },
            FrameStep::ResetCommandBuffer => FrameState {
                next: FrameStep::RecordCommands { image_index: self.acquired->0 },
                commands: CommandBufferState::Initial,
                ..self
            },
            FrameStep::RecordCommands { image_index } => FrameState {
                next: FrameStep::Submit,
                commands: CommandBufferState::Executable { image_index },
                ..self
            },
            FrameStep::Submit => FrameState {
                next: FrameStep::Present { image_index: self.acquired->0 },
                image_available: false,
                render_finished: true,
                in_flight: true,
                commands: CommandBufferState::Pending {
                    image_index: self.commands->Executable_image_index,
                },
                ..self
            },
            FrameStep::Present { image_index } => FrameState {
                next: FrameStep::WaitForFence,
                render_finished: false,
                acquired: None,
                ..self
            },
        }
    }

    /// The state is one that the frame loop reaches: the step that is due
    /// fits what the earlier steps of the frame have left behind.
    pub open spec fn wf(self) -> bool {
        &&& self.in_flight ==> !self.fence_signaled
        &&& match self.next {
            FrameStep::WaitForFence => {
                &&& self.fence_signaled || self.in_flight
                &&& !self.image_available
                &&& !self.render_finished
                &&& self.acquired is None
                &&& self.commands is Pending ==> self.in_flight
            },
            FrameStep::ResetFence => {
                &&& self.fence_signaled
                &&& !self.image_available
                &&& !self.render_finished
                &&& self.acquired is None
                &&& !(self.commands is Pending)
            },
            FrameStep::AcquireImage => {
                &&& !self.fence_signaled
                &&& !self.in_flight
                &&& !self.image_available
                &&& !self.render_finished
                &&& self.acquired is None
                &&& !(self.commands is Pending)
            },
            FrameStep::ResetCommandBuffer => {
                &&& !self.fence_signaled
                &&& !self.in_flight
                &&& self.image_available
                &&& !self.render_finished
                &&& self.acquired is Some
                &&& self.acquired->0 < self.image_count
                &&& !(self.commands is Pending)
            },
            FrameStep::RecordCommands { image_index } => {
                &&& !self.fence_signaled
                &&& !self.in_flight
                &&& self.image_available
                &&& !self.render_finished
                &&& self.acquired == Some(image_index)
                &&& image_index < self.image_count
                &&& self.commands is Initial
            },
            FrameStep::Submit => {
                &&& !self.fence_signaled
                &&& !self.in_flight
                &&& self.image_available
                &&& !self.render_finished
                &&& self.acquired is Some
                &&& self.acquired->0 < self.image_count
                &&& self.commands == (CommandBufferState::Executable {
                    image_index: self.acquired->0,
                })
            },
            FrameStep::Present { image_index } => {
                &&& self.in_flight
                &&& !self.image_available
                &&& self.render_finished
                &&& self.acquired == Some(image_index)
                &&& image_index < self.image_count
                &&& self.commands == (CommandBufferState::Pending { image_index })
            },
        }
    }

    /// What `advance` must be told: after `AcquireImage` the image that came
    /// back, which has a framebuffer; after any other step nothing.
    pub open spec fn accepts(self, acquired_image: Option<u32>) -> bool {
        if self.next is AcquireImage {
            acquired_image is Some && acquired_image->0 < self.image_count
        } else {
            acquired_image is None
        }
    }

    /// The state before the first frame, for a swapchain of `image_count`
    /// images.
    pub fn new(image_count: u32) -> (state: Self)
        ensures
            state == Self::spec_new(image_count),
            state.wf(),
    {
        FrameState {
            next: FrameStep::WaitForFence,
            image_count,
            fence_signaled: true,
            in_flight: false,
            image_available: false,
            render_finished: false,
            commands: CommandBufferState::Initial,
            acquired: None,
        }
    }

    /// Takes note that the step that was due has been performed, and says
    /// whether it was the last step of a frame.
    pub fn advance(&mut self, acquired_image: Option<u32>) -> (presented: bool)
        requires
            old(self).wf(),
            old(self).accepts(acquired_image),
        ensures
            *final(self) == old(self).spec_advance(acquired_image),
            final(self).wf(),
            presented == (old(self).next is Present),
    {
        match self.next {
            FrameStep::WaitForFence => {
                self.fence_signaled = true;
                self.in_flight = false;
                match self.commands {
                    CommandBufferState::Pending { image_index } => {
                        self.commands = CommandBufferState::Executable { image_index };
                    },
                    _ => {},
                }
                self.next = FrameStep::ResetFence;
                false
            },
            FrameStep::ResetFence => {
                self.fence_signaled = false;
                self.next = FrameStep::AcquireImage;
                false
            },
            FrameStep::AcquireImage => {
                self.image_available = true;
                self.acquired = acquired_image;
                self.next = FrameStep::ResetCommandBuffer;
                false
            },
            FrameStep::ResetCommandBuffer => {
                self.commands = CommandBufferState::Initial;
                self.next = FrameStep::RecordCommands { image_index: self.acquired.unwrap() };
                false
            },
            FrameStep::RecordCommands { image_index } => {
                self.commands = CommandBufferState::Executable { image_index };
                self.next = FrameStep::Submit;
                false
            },
            FrameStep::Submit => {
                let image_index: u32 = self.acquired.unwrap();
                self.image_available = false;
                self.render_finished = true;
                self.in_flight = true;
                self.commands = CommandBufferState::Pending { image_index };
                self.next = FrameStep::Present { image_index };
                false
            },
            FrameStep::Present { image_index } => {
                self.render_finished = false;
                self.acquired = None;
                self.next = FrameStep::WaitForFence;
                true
            },
        }
    }
}

/// Whatever the frame loop has done so far, the step that is due is one that
/// the API permits.
pub proof fn lemma_due_step_is_permitted(state: FrameState)
    requires
        state.wf(),
    ensures
        state.permits(state.next),
{
}

/// The command buffer is never reset or recorded while the GPU may still be
/// reading it, and at most one submission is outstanding at any time.
pub proof fn lemma_single_frame_in_flight(state: FrameState)
    requires
        state.wf(),
    ensures
        (state.next is ResetCommandBuffer || state.next is RecordCommands || state.next is Submit)
            ==> !state.in_flight && !(state.commands is Pending),
{
}

/// The state after `count` of the seven steps of a frame, begun in `state`
/// and given `image_index` by the swapchain.
pub open spec fn after_steps(state: FrameState, image_index: u32, count: nat) -> FrameState
    decreases count,
{
    if count == 0 {
        state
    } else {
        let before = after_steps(state, image_index, (count - 1) as nat);
        before.spec_advance(
            if before.next is AcquireImage {
                Some(image_index)
            } else {
                None
            },
        )
    }
}

/// A frame is seven steps: from a state in which the wait for the fence is
/// due, they present the acquired image, leave one submission in flight and
/// both semaphores unsignalled, and the wait for the fence is due again.
pub proof fn lemma_frame_cycle(state: FrameState, image_index: u32)
    requires
        state.wf(),
        state.next is WaitForFence,
        image_index < state.image_count,
    ensures
        after_steps(state, image_index, 6).next == (FrameStep::Present { image_index }),
        after_steps(state, image_index, 7) == (FrameState {
            next: FrameStep::WaitForFence,
            image_count: state.image_count,
            fence_signaled: false,
            in_flight: true,
            image_available: false,
            render_finished: false,
            commands: CommandBufferState::Pending { image_index },
            acquired: None,
        }),
        after_steps(state, image_index, 7).wf(),
{
    reveal_with_fuel(after_steps, 8);
}

} // verus!

//! The per-tick protocol of the frame loop: rebuild if asked to, acquire an
//! image, draw, present. An out-of-date chain is no error: it sets the
//! resize flag, and the next tick rebuilds.

use vstd::prelude::*;

verus! {

/// Where a tick stands.
#[derive(Clone, Copy, Debug, PartialEq, Eq, Structural)]
pub enum TickPhase {
    /// Between two ticks.
    Ready,
    /// Chain and framebuffers are being rebuilt.
    Rebuilding,
    /// The next image was asked for.
    Acquiring,
    /// The draw commands for the image are recorded and submitted.
    Drawing { image_index: u32 },
    /// The image was handed to presentation.
    Presenting { image_index: u32 },
}

/// What the caller reports back.
#[derive(Clone, Copy, Debug, PartialEq, Eq, Structural)]
pub enum FrameEvent {
    /// The loop asks for one frame.
    Tick,
    /// Chain and framebuffers stand again.
    Rebuilt,
    /// An image was acquired; `suboptimal` when the chain no longer fits the surface.
    Acquired { image_index: u32, suboptimal: bool },
    /// No image: the chain is out of date.
    AcquireOutOfDate,
    /// The draw commands were submitted.
    Submitted,
    Presented { suboptimal: bool },
    PresentOutOfDate,
}

/// The next thing the caller has to do.
#[derive(Clone, Copy, Debug, PartialEq, Eq, Structural)]
pub enum FrameAction {
    /// Wait for the device to idle and rebuild chain and framebuffers.
    Rebuild,
    /// Acquire the next image, signalling the present-complete semaphore.
    Acquire,
    /// Record and submit the draw commands for the image.
    Draw { image_index: u32 },
    /// Present the image, waiting for the render-complete semaphore.
    Present { image_index: u32 },
    /// The tick is over, with or without a frame.
    EndTick,
    /// The event answers nothing that was asked; nothing changed.
    Rejected,
}

/// The state that is threaded through the frame loop.
#[derive(Clone, Copy, Debug, PartialEq, Eq, Structural)]
pub struct Graphics {
    pub needs_resize: bool,
    pub phase: TickPhase,
}

/// The state between two ticks, with the resize flag as given.
pub open spec fn ready(needs_resize: bool) -> Graphics {
    Graphics { needs_resize, phase: TickPhase::Ready }
}

/// The transition table of a tick.
pub open spec fn frame_step(state: Graphics, event: FrameEvent) -> (Graphics, FrameAction) {
    match (state.phase, event) {
        (TickPhase::Ready, FrameEvent::Tick) => if state.needs_resize {
            (Graphics { needs_resize: false, phase: TickPhase::Rebuilding }, FrameAction::Rebuild)
        } else {
            (Graphics { phase: TickPhase::Acquiring, ..state }, FrameAction::Acquire)
        },
        (TickPhase::Rebuilding, FrameEvent::Rebuilt) => (
            Graphics { phase: TickPhase::Acquiring, ..state },
            FrameAction::Acquire,
        ),
        (TickPhase::Acquiring, FrameEvent::Acquired { image_index, suboptimal }) => if suboptimal {
            (ready(true), FrameAction::EndTick)
        } else {
            (
                Graphics { phase: TickPhase::Drawing { image_index }, ..state },
                FrameAction::Draw { image_index },
            )
        },
        (TickPhase::Acquiring, FrameEvent::AcquireOutOfDate) => (
            ready(true),
            FrameAction::EndTick,
        ),
        (TickPhase::Drawing { image_index }, FrameEvent::Submitted) => (
            Graphics { phase: TickPhase::Presenting { image_index }, ..state },
            FrameAction::Present { image_index },
        ),
        (TickPhase::Presenting { image_index }, FrameEvent::Presented { suboptimal }) => (
            ready(state.needs_resize || suboptimal),
            FrameAction::EndTick,
        ),
        (TickPhase::Presenting { image_index }, FrameEvent::PresentOutOfDate) => (
            ready(true),
            FrameAction::EndTick,
        ),
        _ => (state, FrameAction::Rejected),
    }
}

/// The state after the first `n` of `events`.
pub open spec fn state_after(start: Graphics, events: Seq<FrameEvent>, n: nat) -> Graphics
    decreases n,
{
    if n == 0 || n > events.len() {
        start
    } else {
        frame_step(state_after(start, events, (n - 1) as nat), events[n - 1]).0
    }
}

impl Graphics {
    /// Within a tick no resize is pending: the flag is looked at when the
    /// tick starts and set again only as the tick ends.
    pub open spec fn wf(&self) -> bool {
        self.phase != TickPhase::Ready ==> !self.needs_resize
    }

    /// The state before the first tick: the first frame starts with a rebuild.
    pub fn new() -> (r: Graphics)
        ensures
            r == ready(true),
            r.wf(),
    {
        Graphics { needs_resize: true, phase: TickPhase::Ready }
    }

    /// One step of the frame loop: takes what the previous step reported and
    /// returns what to do next.
    pub fn run(&mut self, event: FrameEvent) -> (action: FrameAction)
        ensures
            (*final(self), action) == frame_step(*old(self), event),
            old(self).wf() ==> final(self).wf(),
            action is Draw ==> old(self).phase == TickPhase::Acquiring,
            old(self).wf() && action is Acquire ==> !final(self).needs_resize,
    {
        match (self.phase, event) {
            (TickPhase::Ready, FrameEvent::Tick) => {
                if self.needs_resize {
                    self.needs_resize = false;
                    self.phase = TickPhase::Rebuilding;
                    FrameAction::Rebuild
                } else {
                    self.phase = TickPhase::Acquiring;
                    FrameAction::Acquire
                }
            },
            (TickPhase::Rebuilding, FrameEvent::Rebuilt) => {
                self.phase = TickPhase::Acquiring;
                FrameAction::Acquire
            },
            (TickPhase::Acquiring, FrameEvent::Acquired { image_index, suboptimal }) => {
                if suboptimal {
                    self.needs_resize = true;
                    self.phase = TickPhase::Ready;
                    FrameAction::EndTick
                } else {
                    self.phase = TickPhase::Drawing { image_index };
                    FrameAction::Draw { image_index }
                }
            },
            (TickPhase::Acquiring, FrameEvent::AcquireOutOfDate) => {
                self.needs_resize = true;
                self.phase = TickPhase::Ready;
                FrameAction::EndTick
            },
            (TickPhase::Drawing { image_index }, FrameEvent::Submitted) => {
                self.phase = TickPhase::Presenting { image_index };
                FrameAction::Present { image_index }
            },
            (TickPhase::Presenting { image_index }, FrameEvent::Presented { suboptimal }) => {
                if suboptimal {
                    self.needs_resize = true;
                }
                self.phase = TickPhase::Ready;
                FrameAction::EndTick
            },
            (TickPhase::Presenting { image_index }, FrameEvent::PresentOutOfDate) => {
                self.needs_resize = true;
                self.phase = TickPhase::Ready;
                FrameAction::EndTick
            },
            _ => FrameAction::Rejected,
        }
    }
}

/// When acquire reports the chain out of date, the tick ends without a draw
/// and with the resize flag set; the next tick starts with a rebuild, and
/// acquire is attempted again only once the rebuild is reported done.
pub proof fn lemma_out_of_date_acquire_rebuilds_next_tick(state: Graphics, event: FrameEvent)
    requires
        state.phase == TickPhase::Acquiring,
    ensures
        ({
            let (skipped, first) = frame_step(state, FrameEvent::AcquireOutOfDate);
            let (rebuilding, second) = frame_step(skipped, FrameEvent::Tick);
            let (after, third) = frame_step(rebuilding, event);
            &&& first == FrameAction::EndTick
            &&& skipped == ready(true)
            &&& second == FrameAction::Rebuild
            &&& third == if event == FrameEvent::Rebuilt {
                FrameAction::Acquire
            } else {
                FrameAction::Rejected
            }
        }),
{
}

/// Whatever the events, the state stays well-formed, and acquire is never
/// asked for while a resize is pending: a resize that was flagged is served
/// by a rebuild before the next image is acquired.
pub proof fn lemma_resize_is_served_before_acquire(
    start: Graphics,
    events: Seq<FrameEvent>,
    n: nat,
)
    requires
        start.wf(),
    ensures
        state_after(start, events, n).wf(),
        n < events.len() && frame_step(state_after(start, events, n), events[n as int]).1
            is Acquire ==> {
            &&& !state_after(start, events, n).needs_resize
            &&& !state_after(start, events, n + 1).needs_resize
        },
    decreases n,
{
    if n == 0 || n > events.len() {
    } else {
        lemma_resize_is_served_before_acquire(start, events, (n - 1) as nat);
    }
}

/// A draw is asked for only in answer to an image that was acquired from a
/// chain that still fits, and for that image.
pub proof fn lemma_draw_only_after_acquire(state: Graphics, event: FrameEvent)
    requires
        frame_step(state, event).1 is Draw,
    ensures
        state.phase == TickPhase::Acquiring,
        (event matches FrameEvent::Acquired { image_index, suboptimal } && !suboptimal
            && frame_step(state, event).1 == (FrameAction::Draw { image_index })),
{
}

/// An image is presented only in answer to the submission of its draw
/// commands, and a tick that ends has either presented or skipped its frame.
pub proof fn lemma_present_follows_draw(state: Graphics, event: FrameEvent)
    requires
        frame_step(state, event).1 is Present,
    ensures
        event == FrameEvent::Submitted,
        (state.phase matches TickPhase::Drawing { image_index } && frame_step(state, event).1
            == (FrameAction::Present { image_index })),
{
}

} // verus!

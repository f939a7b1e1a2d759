//! Semaphores and fences of the frame loop.

use vstd::prelude::*;
use crate::command::CommandData;
use crate::render_pass::STAGE_COLOR_ATTACHMENT_OUTPUT;
use crate::submit::{CommandSlot, SubmitPhase};

verus! {

/// Fence creation flag: the fence starts out signaled.
pub const FENCE_CREATE_SIGNALED: u32 = 1;

/// Two semaphores that order acquire, draw and present on the device, and
/// one reuse fence for each command buffer.
#[derive(Clone, Copy, Debug, PartialEq, Eq, Structural)]
pub struct SyncData {
    pub present_complete_semaphore: u64,
    pub rendering_complete_semaphore: u64,
    pub draw_commands_reuse_fence: u64,
    pub setup_commands_reuse_fence: u64,
}

/// Which semaphore each step of a frame signals and waits for.
#[derive(Clone, Copy, Debug, PartialEq, Eq, Structural)]
pub struct FrameSync {
    /// Signaled when the acquired image may be written.
    pub acquire_signal: u64,
    /// The draw submission waits for this one,
    pub submit_wait: u64,
    /// at this pipeline stage,
    pub submit_wait_stage: u32,
    /// and signals this one when rendering is complete.
    pub submit_signal: u64,
    /// Presentation waits for this one.
    pub present_wait: u64,
}

impl SyncData {
    /// The semaphore chain of one frame: acquire signals what the draw
    /// submission waits for at colour attachment output, and the submission
    /// signals what presentation waits for.
    pub fn frame_sync(&self) -> (r: FrameSync)
        ensures
            r == (FrameSync {
                acquire_signal: self.present_complete_semaphore,
                submit_wait: self.present_complete_semaphore,
                submit_wait_stage: STAGE_COLOR_ATTACHMENT_OUTPUT,
                submit_signal: self.rendering_complete_semaphore,
                present_wait: self.rendering_complete_semaphore,
            }),
            r.acquire_signal == r.submit_wait,
            r.submit_signal == r.present_wait,
    {
        FrameSync {
            acquire_signal: self.present_complete_semaphore,
            submit_wait: self.present_complete_semaphore,
            submit_wait_stage: STAGE_COLOR_ATTACHMENT_OUTPUT,
            submit_signal: self.rendering_complete_semaphore,
            present_wait: self.rendering_complete_semaphore,
        }
    }

    /// Flags both fences are created with: signaled, so that the first wait
    /// on them does not block.
    pub fn fence_create_flags() -> (r: u32)
        ensures
            r == FENCE_CREATE_SIGNALED,
    {
        FENCE_CREATE_SIGNALED
    }

    pub fn new(
        present_complete_semaphore: u64,
        rendering_complete_semaphore: u64,
        draw_commands_reuse_fence: u64,
        setup_commands_reuse_fence: u64,
    ) -> (r: SyncData)
        ensures
            r == (SyncData {
                present_complete_semaphore,
                rendering_complete_semaphore,
                draw_commands_reuse_fence,
                setup_commands_reuse_fence,
            }),
    {
        SyncData {
            present_complete_semaphore,
            rendering_complete_semaphore,
            draw_commands_reuse_fence,
            setup_commands_reuse_fence,
        }
    }

    /// The draw buffer with the fence that guards it, not yet submitted.
    pub fn draw_slot(&self, commands: &CommandData) -> (r: CommandSlot)
        ensures
            r == (CommandSlot {
                buffer: commands.draw_buffer,
                fence: self.draw_commands_reuse_fence,
                phase: SubmitPhase::Idle,
                fence_observed: false,
                in_flight: false,
            }),
    {
        CommandSlot::new(commands.draw_buffer, self.draw_commands_reuse_fence)
    }

    /// The setup buffer with the fence that guards it, not yet submitted.
    pub fn setup_slot(&self, commands: &CommandData) -> (r: CommandSlot)
        ensures
            r == (CommandSlot {
                buffer: commands.setup_buffer,
                fence: self.setup_commands_reuse_fence,
                phase: SubmitPhase::Idle,
                fence_observed: false,
                in_flight: false,
            }),
    {
        CommandSlot::new(commands.setup_buffer, self.setup_commands_reuse_fence)
    }
}

} // verus!

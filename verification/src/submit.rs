//! The reuse discipline of a command buffer and its fence.
//!
//! Recording and submitting one command buffer is a fixed series of device
//! calls. [`DeviceData::record_submit`] decides the next call from what the
//! previous one reported; the caller makes the calls. The buffer is never
//! re-recorded before its fence has been seen signaled.

use vstd::prelude::*;
use crate::device::DeviceData;

verus! {

/// Where a command slot stands; each phase but `Idle` and `Failed` names the
/// device call whose outcome is awaited.
#[derive(Clone, Copy, Debug, PartialEq, Eq, Structural)]
pub enum SubmitPhase {
    /// No recording is under way.
    Idle,
    /// Waiting for the reuse fence.
    AwaitingFence,
    ResettingFence,
    ResettingBuffer,
    Beginning,
    /// The caller's recording callback runs.
    Recording,
    Ending,
    Submitting,
    /// A device call failed; nothing more is issued.
    Failed,
}

/// What the caller reports back.
#[derive(Clone, Copy, Debug, PartialEq, Eq, Structural)]
pub enum SubmitEvent {
    /// A new recording is requested.
    Start,
    /// The wait on the reuse fence returned with the fence signaled.
    FenceSignaled,
    /// The call that was asked for succeeded.
    Completed,
    /// The call that was asked for failed or timed out.
    Failed,
}

/// Why a recording was given up.
#[derive(Clone, Copy, Debug, PartialEq, Eq, Structural)]
pub enum SubmitError {
    /// The device call awaited in this phase failed.
    CallFailed(SubmitPhase),
    /// The event does not answer what the slot was waiting for.
    OutOfOrder,
}

/// The next thing the caller has to do.
#[derive(Clone, Copy, Debug, PartialEq, Eq, Structural)]
pub enum SubmitAction {
    /// Block until the fence is signaled.
    WaitForFence { fence: u64 },
    ResetFence { fence: u64 },
    ResetCommandBuffer { buffer: u64 },
    BeginRecording { buffer: u64 },
    /// Run the recording callback on the buffer.
    Record { buffer: u64 },
    EndRecording { buffer: u64 },
    /// Submit the buffer with the fence as completion signal.
    Submit { buffer: u64, fence: u64 },
    /// The submission is under way; the slot is idle again.
    Done,
    /// Fatal: stop.
    Abort { error: SubmitError },
}

/// A command buffer together with the fence that guards its reuse.
#[derive(Clone, Copy, Debug, PartialEq, Eq, Structural)]
pub struct CommandSlot {
    pub buffer: u64,
    pub fence: u64,
    pub phase: SubmitPhase,
    /// The fence was seen signaled since the current recording was requested.
    pub fence_observed: bool,
    /// A submission of this buffer may still execute on the device.
    pub in_flight: bool,
}

/// What a queue submission of a slot is given.
#[derive(Clone, Debug)]
pub struct SubmitInfo {
    pub queue_family_index: u32,
    pub wait_semaphores: Vec<u64>,
    pub wait_dst_stage_mask: Vec<u32>,
    pub command_buffer: u64,
    pub signal_semaphores: Vec<u64>,
    pub fence: u64,
}

/// The slot with another phase.
pub open spec fn with_phase(slot: CommandSlot, phase: SubmitPhase) -> CommandSlot {
    CommandSlot { phase, ..slot }
}

/// The slot as it stands when a call has failed or an event came out of order.
pub open spec fn failed(slot: CommandSlot) -> CommandSlot {
    with_phase(slot, SubmitPhase::Failed)
}

/// The transition table: the slot after `event`, and the action it asks for.
pub open spec fn submit_step(slot: CommandSlot, event: SubmitEvent) -> (CommandSlot, SubmitAction) {
    match (slot.phase, event) {
        (SubmitPhase::Failed, _) => (
            slot,
            SubmitAction::Abort { error: SubmitError::OutOfOrder },
        ),
        (phase, SubmitEvent::Failed) => (
            failed(slot),
            SubmitAction::Abort { error: SubmitError::CallFailed(phase) },
        ),
        (SubmitPhase::Idle, SubmitEvent::Start) => (
            CommandSlot { phase: SubmitPhase::AwaitingFence, fence_observed: false, ..slot },
            SubmitAction::WaitForFence { fence: slot.fence },
        ),
        (SubmitPhase::AwaitingFence, SubmitEvent::FenceSignaled) => (
            CommandSlot {
                phase: SubmitPhase::ResettingFence,
                fence_observed: true,
                in_flight: false,
                ..slot
            },
            SubmitAction::ResetFence { fence: slot.fence },
        ),
        (SubmitPhase::ResettingFence, SubmitEvent::Completed) => (
            with_phase(slot, SubmitPhase::ResettingBuffer),
            SubmitAction::ResetCommandBuffer { buffer: slot.buffer },
        ),
        (SubmitPhase::ResettingBuffer, SubmitEvent::Completed) => (
            with_phase(slot, SubmitPhase::Beginning),
            SubmitAction::BeginRecording { buffer: slot.buffer },
        ),
        (SubmitPhase::Beginning, SubmitEvent::Completed) => (
            with_phase(slot, SubmitPhase::Recording),
            SubmitAction::Record { buffer: slot.buffer },
        ),
        (SubmitPhase::Recording, SubmitEvent::Completed) => (
            with_phase(slot, SubmitPhase::Ending),
            SubmitAction::EndRecording { buffer: slot.buffer },
        ),
        (SubmitPhase::Ending, SubmitEvent::Completed) => (
            with_phase(slot, SubmitPhase::Submitting),
            SubmitAction::Submit { buffer: slot.buffer, fence: slot.fence },
        ),
        (SubmitPhase::Submitting, SubmitEvent::Completed) => (
            CommandSlot {
                phase: SubmitPhase::Idle,
                fence_observed: false,
                in_flight: true,
                ..slot
            },
            SubmitAction::Done,
        ),
        _ => (failed(slot), SubmitAction::Abort { error: SubmitError::OutOfOrder }),
    }
}

/// The slot after the first `n` of `events`.
pub open spec fn slot_after(start: CommandSlot, events: Seq<SubmitEvent>, n: nat) -> CommandSlot
    decreases n,
{
    if n == 0 || n > events.len() {
        start
    } else {
        submit_step(slot_after(start, events, (n - 1) as nat), events[n - 1]).0
    }
}

/// The action that answers event `i` of `events`.
pub open spec fn action_at(start: CommandSlot, events: Seq<SubmitEvent>, i: int) -> SubmitAction {
    submit_step(slot_after(start, events, i as nat), events[i]).1
}

impl CommandSlot {
    /// A slot that has never been submitted. Its fence is to be created
    /// signaled, so that the first wait returns at once.
    pub fn new(buffer: u64, fence: u64) -> (r: CommandSlot)
        ensures
            r == (CommandSlot {
                buffer,
                fence,
                phase: SubmitPhase::Idle,
                fence_observed: false,
                in_flight: false,
            }),
    {
        CommandSlot {
            buffer,
            fence,
            phase: SubmitPhase::Idle,
            fence_observed: false,
            in_flight: false,
        }
    }

    /// Between fence wait and submission the fence has been seen signaled and
    /// nothing of this buffer executes on the device.
    pub open spec fn wf(&self) -> bool {
        match self.phase {
            SubmitPhase::Idle | SubmitPhase::AwaitingFence | SubmitPhase::Failed => true,
            _ => self.fence_observed && !self.in_flight,
        }
    }
}

impl DeviceData {
    /// One step of recording and submitting the slot's command buffer: takes
    /// what the previous device call reported and returns the next call to
    /// make. The order is: wait for the fence, reset it, reset the buffer,
    /// begin, record, end, submit. A failure is final.
    pub fn record_submit(&self, slot: &mut CommandSlot, event: SubmitEvent) -> (action:
        SubmitAction)
        ensures
            (*final(slot), action) == submit_step(*old(slot), event),
            old(slot).wf() ==> final(slot).wf(),
            action is BeginRecording ==> old(slot).phase == SubmitPhase::ResettingBuffer,
            action is BeginRecording && old(slot).wf() ==> old(slot).fence_observed && !old(
                slot,
            ).in_flight,
    {
        let phase = slot.phase;
        match (phase, event) {
            (SubmitPhase::Failed, _) => SubmitAction::Abort { error: SubmitError::OutOfOrder },
            (_, SubmitEvent::Failed) => {
                slot.phase = SubmitPhase::Failed;
                SubmitAction::Abort { error: SubmitError::CallFailed(phase) }
            },
            (SubmitPhase::Idle, SubmitEvent::Start) => {
                slot.phase = SubmitPhase::AwaitingFence;
                slot.fence_observed = false;
                SubmitAction::WaitForFence { fence: slot.fence }
            },
            (SubmitPhase::AwaitingFence, SubmitEvent::FenceSignaled) => {
                slot.phase = SubmitPhase::ResettingFence;
                slot.fence_observed = true;
                slot.in_flight = false;
                SubmitAction::ResetFence { fence: slot.fence }
            },
            (SubmitPhase::ResettingFence, SubmitEvent::Completed) => {
                slot.phase = SubmitPhase::ResettingBuffer;
                SubmitAction::ResetCommandBuffer { buffer: slot.buffer }
            },
            (SubmitPhase::ResettingBuffer, SubmitEvent::Completed) => {
                slot.phase = SubmitPhase::Beginning;
                SubmitAction::BeginRecording { buffer: slot.buffer }
            },
            (SubmitPhase::Beginning, SubmitEvent::Completed) => {
                slot.phase = SubmitPhase::Recording;
                SubmitAction::Record { buffer: slot.buffer }
            },
            (SubmitPhase::Recording, SubmitEvent::Completed) => {
                slot.phase = SubmitPhase::Ending;
                SubmitAction::EndRecording { buffer: slot.buffer }
            },
            (SubmitPhase::Ending, SubmitEvent::Completed) => {
                slot.phase = SubmitPhase::Submitting;
                SubmitAction::Submit { buffer: slot.buffer, fence: slot.fence }
            },
            (SubmitPhase::Submitting, SubmitEvent::Completed) => {
                slot.phase = SubmitPhase::Idle;
                slot.fence_observed = false;
                slot.in_flight = true;
                SubmitAction::Done
            },
            _ => {
                slot.phase = SubmitPhase::Failed;
                SubmitAction::Abort { error: SubmitError::OutOfOrder }
            },
        }
    }

    /// What the queue submission is given once the slot asks for it: the wait
    /// and signal sets as handed in, the slot's buffer, and the slot's fence as
    /// completion signal. `None` unless the slot is waiting to be submitted.
    pub fn submit_info(
        &self,
        slot: &CommandSlot,
        wait_mask: Vec<u32>,
        wait_semaphores: Vec<u64>,
        signal_semaphores: Vec<u64>,
    ) -> (r: Option<SubmitInfo>)
        ensures
            r is Some <==> slot.phase == SubmitPhase::Submitting,
            r matches Some(info) ==> {
                &&& info.queue_family_index == self.queue_family_index
                &&& info.wait_semaphores@ == wait_semaphores@
                &&& info.wait_dst_stage_mask@ == wait_mask@
                &&& info.command_buffer == slot.buffer
                &&& info.signal_semaphores@ == signal_semaphores@
                &&& info.fence == slot.fence
            },
    {
        match slot.phase {
            SubmitPhase::Submitting => Some(
                SubmitInfo {
                    queue_family_index: self.queue_family_index,
                    wait_semaphores,
                    wait_dst_stage_mask: wait_mask,
                    command_buffer: slot.buffer,
                    signal_semaphores,
                    fence: slot.fence,
                },
            ),
            _ => None,
        }
    }
}

/// Every slot reached from a well-formed one is well-formed.
pub proof fn lemma_steps_keep_wf(start: CommandSlot, events: Seq<SubmitEvent>, n: nat)
    requires
        start.wf(),
    ensures
        slot_after(start, events, n).wf(),
    decreases n,
{
    if n == 0 || n > events.len() {
    } else {
        lemma_steps_keep_wf(start, events, (n - 1) as nat);
    }
}

/// Buffer and fence of a slot never change.
pub proof fn lemma_steps_keep_handles(start: CommandSlot, events: Seq<SubmitEvent>, n: nat)
    ensures
        slot_after(start, events, n).buffer == start.buffer,
        slot_after(start, events, n).fence == start.fence,
    decreases n,
{
    if n == 0 || n > events.len() {
    } else {
        lemma_steps_keep_handles(start, events, (n - 1) as nat);
    }
}

/// Recording begins only on a fence seen signaled: whatever the events, when
/// the answer to event `i` is to begin recording, then event `i - 2` was the
/// report that the reuse fence is signaled, and the two calls in between
/// reset that fence and the buffer. Nothing was submitted in between.
pub proof fn lemma_begin_follows_signal(start: CommandSlot, events: Seq<SubmitEvent>, i: int)
    requires
        start.phase == SubmitPhase::Idle,
        0 <= i < events.len(),
        action_at(start, events, i) is BeginRecording,
    ensures
        i >= 2,
        events[i - 2] == SubmitEvent::FenceSignaled,
        action_at(start, events, i - 2) == (SubmitAction::ResetFence { fence: start.fence }),
        action_at(start, events, i - 1) == (SubmitAction::ResetCommandBuffer {
            buffer: start.buffer,
        }),
        action_at(start, events, i) == (SubmitAction::BeginRecording { buffer: start.buffer }),
{
    let before = slot_after(start, events, i as nat);
    assert(before.phase == SubmitPhase::ResettingBuffer);
    assert(i >= 1);
    let before1 = slot_after(start, events, (i - 1) as nat);
    assert(before == submit_step(before1, events[i - 1]).0);
    assert(before1.phase == SubmitPhase::ResettingFence);
    assert(i >= 2);
    let before2 = slot_after(start, events, (i - 2) as nat);
    assert(before1 == submit_step(before2, events[i - 2]).0);
    assert(before2.phase == SubmitPhase::AwaitingFence);
    lemma_steps_keep_handles(start, events, i as nat);
    lemma_steps_keep_handles(start, events, (i - 1) as nat);
    lemma_steps_keep_handles(start, events, (i - 2) as nat);
}

/// A buffer that was submitted is not recorded again before its fence is
/// waited for: the first answer of an idle slot, in flight or not, to
/// anything but a failure is to wait for the fence.
pub proof fn lemma_idle_slot_waits_first(slot: CommandSlot, event: SubmitEvent)
    requires
        slot.phase == SubmitPhase::Idle,
    ensures
        event == SubmitEvent::Start ==> submit_step(slot, event).1 == (SubmitAction::WaitForFence {
            fence: slot.fence,
        }),
        submit_step(slot, event).1 is WaitForFence || submit_step(slot, event).1 is Abort,
{
}

} // verus!

use gpu_vk::command::CommandData;
use gpu_vk::device::DeviceData;
use gpu_vk::submit::{CommandSlot, SubmitAction, SubmitError, SubmitEvent, SubmitPhase};
use gpu_vk::sync::{SyncData, FENCE_CREATE_SIGNALED};

fn device() -> DeviceData {
    DeviceData { physical_device: 1, queue_family_index: 3, memory_types: Vec::new() }
}

fn run_to_submit(device: &DeviceData, slot: &mut CommandSlot) {
    assert_eq!(
        device.record_submit(slot, SubmitEvent::Start),
        SubmitAction::WaitForFence { fence: slot.fence }
    );
    assert_eq!(
        device.record_submit(slot, SubmitEvent::FenceSignaled),
        SubmitAction::ResetFence { fence: slot.fence }
    );
    assert_eq!(
        device.record_submit(slot, SubmitEvent::Completed),
        SubmitAction::ResetCommandBuffer { buffer: slot.buffer }
    );
    assert_eq!(
        device.record_submit(slot, SubmitEvent::Completed),
        SubmitAction::BeginRecording { buffer: slot.buffer }
    );
    assert_eq!(
        device.record_submit(slot, SubmitEvent::Completed),
        SubmitAction::Record { buffer: slot.buffer }
    );
    assert_eq!(
        device.record_submit(slot, SubmitEvent::Completed),
        SubmitAction::EndRecording { buffer: slot.buffer }
    );
    assert_eq!(
        device.record_submit(slot, SubmitEvent::Completed),
        SubmitAction::Submit { buffer: slot.buffer, fence: slot.fence }
    );
}

#[test]
fn record_submit_walks_the_fixed_order() {
    let device = device();
    let mut slot = CommandSlot::new(11, 22);
    assert_eq!(slot.phase, SubmitPhase::Idle);
    assert!(!slot.in_flight);
    run_to_submit(&device, &mut slot);
    assert_eq!(slot.phase, SubmitPhase::Submitting);
    assert!(slot.fence_observed);
    assert_eq!(device.record_submit(&mut slot, SubmitEvent::Completed), SubmitAction::Done);
    assert_eq!(slot.phase, SubmitPhase::Idle);
    assert!(slot.in_flight);
    assert!(!slot.fence_observed);
    assert_eq!(slot.buffer, 11);
    assert_eq!(slot.fence, 22);
}

#[test]
fn second_record_submit_waits_for_delayed_fence() {
    let device = device();
    let mut slot = CommandSlot::new(5, 6);
    let mut clock: u32 = 0;
    let mut first_submitted_at: Option<u32> = None;
    let mut fence_signaled_at: Option<u32> = None;
    let mut second_begin_at: Option<u32> = None;

    run_to_submit(&device, &mut slot);
    clock += 7;
    assert_eq!(device.record_submit(&mut slot, SubmitEvent::Completed), SubmitAction::Done);
    clock += 1;
    first_submitted_at = first_submitted_at.or(Some(clock));

    // The second call starts while the first submission is still in flight.
    let mut action = device.record_submit(&mut slot, SubmitEvent::Start);
    clock += 1;
    assert_eq!(action, SubmitAction::WaitForFence { fence: 6 });
    assert!(slot.in_flight);
    assert!(!slot.fence_observed);

    // The device takes its time: nothing but the signal moves the slot on.
    clock += 100;
    fence_signaled_at = fence_signaled_at.or(Some(clock));
    let mut event = SubmitEvent::FenceSignaled;
    loop {
        action = device.record_submit(&mut slot, event);
        clock += 1;
        match action {
            SubmitAction::BeginRecording { buffer } => {
                assert_eq!(buffer, 5);
                second_begin_at = Some(clock);
                break;
            }
            SubmitAction::ResetFence { .. } | SubmitAction::ResetCommandBuffer { .. } => {
                event = SubmitEvent::Completed;
            }
            other => panic!("unexpected action {:?}", other),
        }
    }
    assert!(first_submitted_at.unwrap() < fence_signaled_at.unwrap());
    assert!(fence_signaled_at.unwrap() < second_begin_at.unwrap());
    assert!(!slot.in_flight);
    assert!(slot.fence_observed);
}

#[test]
fn recording_never_begins_without_the_fence_signal() {
    let device = device();
    for skipped in [SubmitEvent::Completed, SubmitEvent::Start] {
        let mut slot = CommandSlot::new(1, 2);
        assert_eq!(
            device.record_submit(&mut slot, SubmitEvent::Start),
            SubmitAction::WaitForFence { fence: 2 }
        );
        assert_eq!(
            device.record_submit(&mut slot, skipped),
            SubmitAction::Abort { error: SubmitError::OutOfOrder }
        );
        assert_eq!(slot.phase, SubmitPhase::Failed);
        for _ in 0..4 {
            let action = device.record_submit(&mut slot, SubmitEvent::Completed);
            assert_eq!(action, SubmitAction::Abort { error: SubmitError::OutOfOrder });
        }
    }
}

#[test]
fn failed_call_aborts_and_stays_failed() {
    let device = device();
    let mut slot = CommandSlot::new(1, 2);
    device.record_submit(&mut slot, SubmitEvent::Start);
    assert_eq!(
        device.record_submit(&mut slot, SubmitEvent::Failed),
        SubmitAction::Abort { error: SubmitError::CallFailed(SubmitPhase::AwaitingFence) }
    );
    assert_eq!(slot.phase, SubmitPhase::Failed);
    assert_eq!(
        device.record_submit(&mut slot, SubmitEvent::Start),
        SubmitAction::Abort { error: SubmitError::OutOfOrder }
    );
    assert_eq!(
        device.record_submit(&mut slot, SubmitEvent::Failed),
        SubmitAction::Abort { error: SubmitError::OutOfOrder }
    );

    let mut slot = CommandSlot::new(1, 2);
    device.record_submit(&mut slot, SubmitEvent::Start);
    device.record_submit(&mut slot, SubmitEvent::FenceSignaled);
    device.record_submit(&mut slot, SubmitEvent::Completed);
    device.record_submit(&mut slot, SubmitEvent::Completed);
    assert_eq!(
        device.record_submit(&mut slot, SubmitEvent::Failed),
        SubmitAction::Abort { error: SubmitError::CallFailed(SubmitPhase::Beginning) }
    );
}

#[test]
fn idle_slot_rejects_anything_but_start() {
    let device = device();
    for event in [SubmitEvent::FenceSignaled, SubmitEvent::Completed] {
        let mut slot = CommandSlot::new(1, 2);
        assert_eq!(
            device.record_submit(&mut slot, event),
            SubmitAction::Abort { error: SubmitError::OutOfOrder }
        );
    }
}

#[test]
fn submit_info_carries_sets_buffer_and_fence() {
    let device = device();
    let mut slot = CommandSlot::new(11, 22);
    assert!(device.submit_info(&slot, vec![0x400], vec![7], vec![8]).is_none());
    run_to_submit(&device, &mut slot);
    let info = device.submit_info(&slot, vec![0x400], vec![7], vec![8, 9]).unwrap();
    assert_eq!(info.queue_family_index, 3);
    assert_eq!(info.wait_dst_stage_mask, vec![0x400]);
    assert_eq!(info.wait_semaphores, vec![7]);
    assert_eq!(info.signal_semaphores, vec![8, 9]);
    assert_eq!(info.command_buffer, 11);
    assert_eq!(info.fence, 22);
    device.record_submit(&mut slot, SubmitEvent::Completed);
    assert!(device.submit_info(&slot, Vec::new(), Vec::new(), Vec::new()).is_none());
}

#[test]
fn command_data_takes_setup_then_draw() {
    let data = CommandData::new(9, &vec![100, 200]).unwrap();
    assert_eq!(data.pool, 9);
    assert_eq!(data.setup_buffer, 100);
    assert_eq!(data.draw_buffer, 200);
    assert_eq!(CommandData::new(9, &vec![100]), None);
    assert_eq!(CommandData::new(9, &Vec::new()), None);
    assert_eq!(CommandData::new(9, &vec![1, 2, 3]).unwrap().draw_buffer, 2);
}

#[test]
fn fences_are_created_signaled_and_slots_pair_buffer_with_fence() {
    assert_eq!(SyncData::fence_create_flags(), FENCE_CREATE_SIGNALED);
    assert_eq!(SyncData::fence_create_flags(), 1);
    let commands = CommandData::new(9, &vec![100, 200]).unwrap();
    let sync = SyncData::new(1, 2, 3, 4);
    assert_eq!(sync.present_complete_semaphore, 1);
    assert_eq!(sync.rendering_complete_semaphore, 2);
    let draw = sync.draw_slot(&commands);
    assert_eq!((draw.buffer, draw.fence), (200, 3));
    let setup = sync.setup_slot(&commands);
    assert_eq!((setup.buffer, setup.fence), (100, 4));
    assert_eq!(setup.phase, SubmitPhase::Idle);
    assert!(!setup.in_flight);
}

#[test]
fn frame_semaphores_chain_acquire_draw_present() {
    let sync = SyncData::new(10, 20, 30, 40).frame_sync();
    assert_eq!(sync.acquire_signal, 10);
    assert_eq!(sync.submit_wait, 10);
    assert_eq!(sync.submit_wait_stage, 0x400);
    assert_eq!(sync.submit_signal, 20);
    assert_eq!(sync.present_wait, 20);
}

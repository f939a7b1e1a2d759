use gpu_vk::command::CommandData;
use gpu_vk::device::DeviceData;
use gpu_vk::frame::{FrameAction, FrameEvent, Graphics, TickPhase};
use gpu_vk::render_pass::RenderPass;
use gpu_vk::resources::{
    LoopControl, LoopEvent, RebuildError, RebuildStep, Resources, VkBase,
};
use gpu_vk::swapchain::{
    ChainParts, ChainState, DestroyCall, Extent2D, SurfaceData, SwapchainData,
};
use gpu_vk::sync::SyncData;

fn parts(base: u64, images: u64, views: u64) -> ChainParts {
    ChainParts {
        swapchain: base,
        present_images: (0..images).map(|i| base + 10 + i).collect(),
        present_image_views: (0..views).map(|i| base + 20 + i).collect(),
        depth_image: base + 1,
        depth_image_view: base + 2,
        depth_image_memory: base + 3,
    }
}

fn framebuffers(base: u64, count: u64) -> Vec<u64> {
    (0..count).map(|i| base + 30 + i).collect()
}

fn resources(images: u64) -> Resources {
    let chain = SwapchainData::new(parts(100, images, images)).unwrap();
    let pass = RenderPass::new(55, &chain, framebuffers(100, images)).unwrap();
    let base = VkBase::new(
        DeviceData { physical_device: 1, queue_family_index: 0, memory_types: Vec::new() },
        SurfaceData::new(77, 640, 480),
        CommandData::new(9, &vec![1, 2]).unwrap(),
        SyncData::new(1, 2, 3, 4),
        chain,
    );
    Resources::new(base, pass).unwrap()
}

#[test]
fn first_tick_rebuilds_then_draws_and_presents() {
    let mut graphics = Graphics::new();
    assert!(graphics.needs_resize);
    assert_eq!(graphics.phase, TickPhase::Ready);
    assert_eq!(graphics.run(FrameEvent::Tick), FrameAction::Rebuild);
    assert!(!graphics.needs_resize);
    assert_eq!(graphics.run(FrameEvent::Rebuilt), FrameAction::Acquire);
    assert_eq!(
        graphics.run(FrameEvent::Acquired { image_index: 2, suboptimal: false }),
        FrameAction::Draw { image_index: 2 }
    );
    assert_eq!(graphics.run(FrameEvent::Submitted), FrameAction::Present { image_index: 2 });
    assert_eq!(graphics.run(FrameEvent::Presented { suboptimal: false }), FrameAction::EndTick);
    assert_eq!(graphics, Graphics { needs_resize: false, phase: TickPhase::Ready });
    assert_eq!(graphics.run(FrameEvent::Tick), FrameAction::Acquire);
}

#[test]
fn out_of_date_acquire_skips_the_frame_and_rebuilds_next_tick() {
    let mut graphics = Graphics { needs_resize: false, phase: TickPhase::Ready };
    // Tick N.
    assert_eq!(graphics.run(FrameEvent::Tick), FrameAction::Acquire);
    assert_eq!(graphics.run(FrameEvent::AcquireOutOfDate), FrameAction::EndTick);
    assert!(graphics.needs_resize);
    assert_eq!(graphics.phase, TickPhase::Ready);
    // Nothing can be drawn or presented in what is left of tick N.
    assert_eq!(graphics.run(FrameEvent::Submitted), FrameAction::Rejected);
    assert_eq!(graphics.run(FrameEvent::Presented { suboptimal: false }), FrameAction::Rejected);
    // Tick N + 1 rebuilds before it acquires.
    assert_eq!(graphics.run(FrameEvent::Tick), FrameAction::Rebuild);
    assert_eq!(
        graphics.run(FrameEvent::Acquired { image_index: 0, suboptimal: false }),
        FrameAction::Rejected
    );
    assert_eq!(graphics.phase, TickPhase::Rebuilding);
    assert_eq!(graphics.run(FrameEvent::Rebuilt), FrameAction::Acquire);
    assert!(!graphics.needs_resize);
    assert_eq!(
        graphics.run(FrameEvent::Acquired { image_index: 0, suboptimal: false }),
        FrameAction::Draw { image_index: 0 }
    );
}

#[test]
fn suboptimal_acquire_skips_the_frame() {
    let mut graphics = Graphics { needs_resize: false, phase: TickPhase::Acquiring };
    assert_eq!(
        graphics.run(FrameEvent::Acquired { image_index: 1, suboptimal: true }),
        FrameAction::EndTick
    );
    assert_eq!(graphics, Graphics { needs_resize: true, phase: TickPhase::Ready });
}

#[test]
fn present_out_of_date_or_suboptimal_sets_the_resize_flag() {
    for event in [FrameEvent::PresentOutOfDate, FrameEvent::Presented { suboptimal: true }] {
        let mut graphics =
            Graphics { needs_resize: false, phase: TickPhase::Presenting { image_index: 1 } };
        assert_eq!(graphics.run(event), FrameAction::EndTick);
        assert_eq!(graphics, Graphics { needs_resize: true, phase: TickPhase::Ready });
        assert_eq!(graphics.run(FrameEvent::Tick), FrameAction::Rebuild);
    }
}

#[test]
fn events_out_of_turn_change_nothing() {
    let start = Graphics { needs_resize: false, phase: TickPhase::Drawing { image_index: 4 } };
    for event in [
        FrameEvent::Tick,
        FrameEvent::Rebuilt,
        FrameEvent::AcquireOutOfDate,
        FrameEvent::PresentOutOfDate,
        FrameEvent::Acquired { image_index: 0, suboptimal: false },
    ] {
        let mut graphics = start;
        assert_eq!(graphics.run(event), FrameAction::Rejected);
        assert_eq!(graphics, start);
    }
}

#[test]
fn loop_exits_waits_or_renders() {
    let size = Extent2D { width: 640, height: 480 };
    let flat = Extent2D { width: 640, height: 0 };
    let thin = Extent2D { width: 0, height: 480 };
    assert_eq!(VkBase::render_loop(LoopEvent::CloseRequested, size), LoopControl::Exit);
    assert_eq!(VkBase::render_loop(LoopEvent::EscapePressed, flat), LoopControl::Exit);
    assert_eq!(VkBase::render_loop(LoopEvent::MainEventsCleared, size), LoopControl::PollAndRender);
    assert_eq!(VkBase::render_loop(LoopEvent::Resized, size), LoopControl::PollAndRender);
    assert_eq!(VkBase::render_loop(LoopEvent::MainEventsCleared, flat), LoopControl::Wait);
    assert_eq!(VkBase::render_loop(LoopEvent::Resized, thin), LoopControl::Wait);
    assert_eq!(VkBase::render_loop(LoopEvent::Other, size), LoopControl::Unchanged);
    assert_eq!(VkBase::render_loop(LoopEvent::Other, flat), LoopControl::Unchanged);
}

#[test]
fn resize_takes_window_size_and_gives_up_the_chain() {
    let mut resources = resources(2);
    let calls = resources.base.resize(800, 600);
    assert_eq!(resources.base.surface_data.resolution, Extent2D { width: 800, height: 600 });
    assert_eq!(resources.base.surface_data.surface, 77);
    assert_eq!(calls.len(), 6);
    assert_eq!(calls[0], DestroyCall::FreeMemory(103));
    assert_eq!(calls[5], DestroyCall::DestroySwapchain(100));
    assert_eq!(resources.base.swapchain_data.state, ChainState::Rebuilding);
}

#[test]
fn resources_need_matching_counts() {
    let chain = SwapchainData::new(parts(100, 2, 2)).unwrap();
    let mut pass = RenderPass::new(55, &chain, framebuffers(100, 2)).unwrap();
    pass.framebuffers.push(999);
    let base = VkBase::new(
        DeviceData { physical_device: 1, queue_family_index: 0, memory_types: Vec::new() },
        SurfaceData::new(77, 640, 480),
        CommandData::new(9, &vec![1, 2]).unwrap(),
        SyncData::new(1, 2, 3, 4),
        chain,
    );
    assert!(Resources::new(base, pass).is_none());
}

#[test]
fn rebuilds_keep_one_framebuffer_per_image() {
    let mut resources = resources(2);
    let mut previous = resources.render_pass.framebuffers.clone();
    for (round, images) in [3u64, 1, 4, 2, 2].into_iter().enumerate() {
        let base = 1000 * (round as u64 + 1);
        let retired = resources.begin_rebuild(640 + round as u32, 480);
        assert_eq!(retired.framebuffers, previous);
        assert!(resources.render_pass.framebuffers.is_empty());
        assert!(resources.base.swapchain_data.present_images.is_empty());
        assert_eq!(resources.finish_rebuild(parts(base, images, images), framebuffers(base, images)), Ok(()));
        assert_eq!(
            resources.render_pass.framebuffers.len(),
            resources.base.swapchain_data.present_images.len()
        );
        assert_eq!(resources.render_pass.framebuffers, framebuffers(base, images));
        for stale in &previous {
            assert!(!resources.render_pass.framebuffers.contains(stale));
        }
        assert_eq!(resources.render_pass.vk_render_pass, 55);
        assert_eq!(
            resources.base.surface_data.resolution,
            Extent2D { width: 640 + round as u32, height: 480 }
        );
        previous = resources.render_pass.framebuffers.clone();
    }
}

#[test]
fn begin_rebuild_hands_out_everything_held() {
    let mut resources = resources(2);
    let retired = resources.begin_rebuild(800, 600);
    assert_eq!(retired.framebuffers, vec![130, 131]);
    assert_eq!(
        retired.chain,
        vec![
            DestroyCall::FreeMemory(103),
            DestroyCall::DestroyImageView(102),
            DestroyCall::DestroyImage(101),
            DestroyCall::DestroyImageView(120),
            DestroyCall::DestroyImageView(121),
            DestroyCall::DestroySwapchain(100),
        ]
    );
    let again = resources.begin_rebuild(800, 600);
    assert!(again.framebuffers.is_empty());
    assert!(again.chain.is_empty());
}

#[test]
fn finish_rebuild_refuses_what_does_not_fit() {
    let mut resources = resources(2);
    assert_eq!(
        resources.finish_rebuild(parts(200, 2, 2), framebuffers(200, 2)),
        Err(RebuildError::StillValid)
    );
    assert_eq!(resources.render_pass.framebuffers, vec![130, 131]);
    assert_eq!(resources.base.swapchain_data.swapchain, 100);
    resources.begin_rebuild(640, 480);
    assert_eq!(
        resources.finish_rebuild(parts(200, 2, 3), framebuffers(200, 2)),
        Err(RebuildError::ViewCountMismatch)
    );
    assert_eq!(
        resources.finish_rebuild(parts(200, 2, 2), framebuffers(200, 3)),
        Err(RebuildError::FramebufferCountMismatch)
    );
    assert!(resources.render_pass.framebuffers.is_empty());
    assert_eq!(resources.base.swapchain_data.state, ChainState::Rebuilding);
    assert_eq!(resources.finish_rebuild(parts(200, 2, 2), framebuffers(200, 2)), Ok(()));
    assert_eq!(resources.base.swapchain_data.state, ChainState::Valid);
}

#[test]
fn rebuild_destroys_before_it_creates() {
    assert_eq!(
        Resources::rebuild_steps(),
        vec![
            RebuildStep::WaitIdle,
            RebuildStep::DestroyFramebuffers,
            RebuildStep::DestroyChain,
            RebuildStep::CreateChain,
            RebuildStep::CreateFramebuffers,
            RebuildStep::UpdateSizeDependentState,
            RebuildStep::RebindDescriptors,
        ]
    );
    assert!(resources(3).is_wf());
}

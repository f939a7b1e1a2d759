//! Everything the frame loop draws with, and the rebuild that follows a
//! resize: the old framebuffers and chain go first, then the new chain and
//! its framebuffers are taken in together.

use vstd::prelude::*;
use crate::command::CommandData;
use crate::device::DeviceData;
use crate::render_pass::RenderPass;
use crate::swapchain::{
    teardown_calls, ChainParts, ChainState, DestroyCall, Extent2D, SurfaceData, SwapchainData,
};
use crate::sync::SyncData;

verus! {

/// What the window reports to the loop.
#[derive(Clone, Copy, Debug, PartialEq, Eq, Structural)]
pub enum LoopEvent {
    CloseRequested,
    /// The escape key went down.
    EscapePressed,
    MainEventsCleared,
    Resized,
    Other,
}

/// What the loop does next.
#[derive(Clone, Copy, Debug, PartialEq, Eq, Structural)]
pub enum LoopControl {
    Exit,
    /// Sleep until the next event: there is nothing to draw on.
    Wait,
    /// Keep polling and run one frame now.
    PollAndRender,
    /// Leave the loop as it is.
    Unchanged,
}

/// One step of a rebuild.
#[derive(Clone, Copy, Debug, PartialEq, Eq, Structural)]
pub enum RebuildStep {
    /// Block until the device has finished all submitted work.
    WaitIdle,
    DestroyFramebuffers,
    DestroyChain,
    CreateChain,
    CreateFramebuffers,
    /// Recompute what depends on the size of the chain, such as the projection.
    UpdateSizeDependentState,
    RebindDescriptors,
}

/// Device, surface, chain, command buffers and synchronisation objects.
#[derive(Clone, Debug)]
pub struct VkBase {
    pub swapchain_data: SwapchainData,
    pub sync_data: SyncData,
    pub command_data: CommandData,
    pub surface_data: SurfaceData,
    pub device_data: DeviceData,
}

/// What a rebuild has given up: to be destroyed in this order.
#[derive(Clone, Debug)]
pub struct Retired {
    pub framebuffers: Vec<u64>,
    pub chain: Vec<DestroyCall>,
}

#[derive(Clone, Copy, Debug, PartialEq, Eq, Structural)]
pub enum RebuildError {
    /// The old chain was not given up first.
    StillValid,
    /// There is not exactly one image view per image.
    ViewCountMismatch,
    /// There is not exactly one framebuffer per image.
    FramebufferCountMismatch,
}

/// The base objects and the render pass that draws to the chain.
#[derive(Clone, Debug)]
pub struct Resources {
    pub render_pass: RenderPass,
    pub base: VkBase,
}

/// The presentable side of the resources, as values.
pub struct PresentState {
    pub valid: bool,
    pub images: Seq<u64>,
    pub framebuffers: Seq<u64>,
}

/// What one rebuild created.
pub struct Rebuild {
    pub images: Seq<u64>,
    pub views: Seq<u64>,
    pub framebuffers: Seq<u64>,
}

/// The state in which nothing is held.
pub open spec fn nothing_held() -> PresentState {
    PresentState { valid: false, images: Seq::empty(), framebuffers: Seq::empty() }
}

/// One view and one framebuffer per image.
pub open spec fn rebuild_accepted(rebuild: Rebuild) -> bool {
    rebuild.views.len() == rebuild.images.len() && rebuild.framebuffers.len()
        == rebuild.images.len()
}

/// The state after one rebuild: all that was held before is given up, and
/// what was created is held if it is accepted.
pub open spec fn after_rebuild(state: PresentState, rebuild: Rebuild) -> PresentState {
    if rebuild_accepted(rebuild) {
        PresentState { valid: true, images: rebuild.images, framebuffers: rebuild.framebuffers }
    } else {
        nothing_held()
    }
}

/// The state after a series of rebuilds.
pub open spec fn after_rebuilds(state: PresentState, rebuilds: Seq<Rebuild>) -> PresentState
    decreases rebuilds.len(),
{
    if rebuilds.len() == 0 {
        state
    } else {
        after_rebuild(after_rebuilds(state, rebuilds.drop_last()), rebuilds.last())
    }
}

/// The rebuild after a resize: with the device idle, the framebuffers and
/// the chain go, the chain and then its framebuffers are created, and what
/// depends on the size follows.
pub open spec fn rebuild_sequence() -> Seq<RebuildStep> {
    seq![
        RebuildStep::WaitIdle,
        RebuildStep::DestroyFramebuffers,
        RebuildStep::DestroyChain,
        RebuildStep::CreateChain,
        RebuildStep::CreateFramebuffers,
        RebuildStep::UpdateSizeDependentState,
        RebuildStep::RebindDescriptors,
    ]
}

/// What the window event means for the loop: close and escape end it; with
/// the main events cleared or the window resized a frame is run, unless the
/// window has no area, in which case the loop sleeps.
pub open spec fn loop_control(event: LoopEvent, window_size: Extent2D) -> LoopControl {
    match event {
        LoopEvent::CloseRequested | LoopEvent::EscapePressed => LoopControl::Exit,
        LoopEvent::MainEventsCleared | LoopEvent::Resized => if window_size.width == 0
            || window_size.height == 0 {
            LoopControl::Wait
        } else {
            LoopControl::PollAndRender
        },
        LoopEvent::Other => LoopControl::Unchanged,
    }
}

impl PresentState {
    /// One framebuffer per image.
    pub open spec fn wf(&self) -> bool {
        self.framebuffers.len() == self.images.len()
    }
}

impl VkBase {
    pub fn new(
        device_data: DeviceData,
        surface_data: SurfaceData,
        command_data: CommandData,
        sync_data: SyncData,
        swapchain_data: SwapchainData,
    ) -> (r: VkBase)
        ensures
            r.device_data == device_data,
            r.surface_data == surface_data,
            r.command_data == command_data,
            r.sync_data == sync_data,
            r.swapchain_data == swapchain_data,
    {
        VkBase { swapchain_data, sync_data, command_data, surface_data, device_data }
    }

    /// Decides what the loop does on a window event.
    pub fn render_loop(event: LoopEvent, window_size: Extent2D) -> (r: LoopControl)
        ensures
            r == loop_control(event, window_size),
    {
        match event {
            LoopEvent::CloseRequested | LoopEvent::EscapePressed => LoopControl::Exit,
            LoopEvent::MainEventsCleared | LoopEvent::Resized => {
                if window_size.width == 0 || window_size.height == 0 {
                    LoopControl::Wait
                } else {
                    LoopControl::PollAndRender
                }
            },
            LoopEvent::Other => LoopControl::Unchanged,
        }
    }

    /// Takes the window's new size as the surface resolution and gives up the
    /// chain; returns the calls that destroy it.
    pub fn resize(&mut self, window_width: u32, window_height: u32) -> (calls: Vec<DestroyCall>)
        ensures
            final(self).surface_data == (SurfaceData {
                resolution: Extent2D { width: window_width, height: window_height },
                ..old(self).surface_data
            }),
            final(self).device_data == old(self).device_data,
            final(self).command_data == old(self).command_data,
            final(self).sync_data == old(self).sync_data,
            final(self).swapchain_data.state == ChainState::Rebuilding,
            final(self).swapchain_data.images().len() == 0,
            final(self).swapchain_data.views().len() == 0,
            old(self).swapchain_data.state == ChainState::Valid ==> calls@ == teardown_calls(
                old(self).swapchain_data.swapchain,
                old(self).swapchain_data.views(),
                old(self).swapchain_data.depth_image,
                old(self).swapchain_data.depth_image_view,
                old(self).swapchain_data.depth_image_memory,
            ),
            old(self).swapchain_data.state == ChainState::Rebuilding ==> calls@.len() == 0,
    {
        self.surface_data.resolution.width = window_width;
        self.surface_data.resolution.height = window_height;
        self.swapchain_data.destroy()
    }
}

impl Resources {
    /// What is held for presentation.
    pub open spec fn present_state(&self) -> PresentState {
        PresentState {
            valid: self.base.swapchain_data.state == ChainState::Valid,
            images: self.base.swapchain_data.images(),
            framebuffers: self.render_pass.handles(),
        }
    }

    /// The chain is well-formed and has one framebuffer per image.
    pub open spec fn wf(&self) -> bool {
        self.base.swapchain_data.wf() && self.present_state().wf()
    }

    /// Whether chain and framebuffers fit together.
    pub fn is_wf(&self) -> (r: bool)
        ensures
            r == self.wf(),
    {
        let chain = &self.base.swapchain_data;
        let views_match = match chain.state {
            ChainState::Valid => chain.present_image_views.len() == chain.present_images.len(),
            ChainState::Rebuilding => chain.present_image_views.len() == 0
                && chain.present_images.len() == 0,
        };
        views_match && self.render_pass.framebuffers.len() == chain.present_images.len()
    }

    /// `None` unless the pass has one framebuffer per image of the chain and
    /// the chain one view per image.
    pub fn new(base: VkBase, render_pass: RenderPass) -> (r: Option<Resources>)
        ensures
            r is Some <==> (Resources { render_pass, base }).wf(),
            r matches Some(resources) ==> resources.base == base && resources.render_pass
                == render_pass,
    {
        let resources = Resources { render_pass, base };
        if resources.is_wf() {
            Some(resources)
        } else {
            None
        }
    }

    /// The steps of a rebuild, in order.
    pub fn rebuild_steps() -> (r: Vec<RebuildStep>)
        ensures
            r@ == rebuild_sequence(),
    {
        let mut steps: Vec<RebuildStep> = Vec::new();
        steps.push(RebuildStep::WaitIdle);
        steps.push(RebuildStep::DestroyFramebuffers);
        steps.push(RebuildStep::DestroyChain);
        steps.push(RebuildStep::CreateChain);
        steps.push(RebuildStep::CreateFramebuffers);
        steps.push(RebuildStep::UpdateSizeDependentState);
        steps.push(RebuildStep::RebindDescriptors);
        assert(steps@ =~= rebuild_sequence());
        steps
    }

    /// First half of a rebuild, to be run with the device idle: the surface
    /// takes the window's size, and every framebuffer and the whole chain are
    /// given up. Nothing of them is held afterwards.
    pub fn begin_rebuild(&mut self, window_width: u32, window_height: u32) -> (retired: Retired)
        ensures
            final(self).wf(),
            final(self).present_state() == nothing_held(),
            final(self).render_pass.vk_render_pass == old(self).render_pass.vk_render_pass,
            final(self).base.surface_data == (SurfaceData {
                resolution: Extent2D { width: window_width, height: window_height },
                ..old(self).base.surface_data
            }),
            final(self).base.device_data == old(self).base.device_data,
            final(self).base.command_data == old(self).base.command_data,
            final(self).base.sync_data == old(self).base.sync_data,
            retired.framebuffers@ == old(self).render_pass.handles(),
            old(self).base.swapchain_data.state == ChainState::Valid ==> retired.chain@
                == teardown_calls(
                old(self).base.swapchain_data.swapchain,
                old(self).base.swapchain_data.views(),
                old(self).base.swapchain_data.depth_image,
                old(self).base.swapchain_data.depth_image_view,
                old(self).base.swapchain_data.depth_image_memory,
            ),
            old(self).base.swapchain_data.state == ChainState::Rebuilding ==> retired.chain@.len()
                == 0,
    {
        let framebuffers = self.render_pass.retire();
        let chain = self.base.resize(window_width, window_height);
        assert(self.present_state().images =~= Seq::<u64>::empty());
        assert(self.present_state().framebuffers =~= Seq::<u64>::empty());
        Retired { framebuffers, chain }
    }

    /// Second half of a rebuild: takes the new chain and its framebuffers.
    /// Afterwards exactly the framebuffers handed in are held, one per image.
    /// Refused, with nothing changed, when the old chain was not given up or
    /// when the counts of images, views and framebuffers differ.
    pub fn finish_rebuild(&mut self, parts: ChainParts, framebuffers: Vec<u64>) -> (r: Result<
        (),
        RebuildError,
    >)
        requires
            old(self).wf(),
        ensures
            final(self).wf(),
            r is Ok <==> !old(self).present_state().valid && rebuild_accepted(
                Rebuild {
                    images: parts.present_images@,
                    views: parts.present_image_views@,
                    framebuffers: framebuffers@,
                },
            ),
            r is Ok ==> {
                &&& final(self).base.swapchain_data.holds(parts)
                &&& final(self).render_pass.handles() == framebuffers@
            },
            !old(self).present_state().valid ==> final(self).present_state() == after_rebuild(
                old(self).present_state(),
                Rebuild {
                    images: parts.present_images@,
                    views: parts.present_image_views@,
                    framebuffers: framebuffers@,
                },
            ),
            r matches Err(e) ==> {
                &&& final(self).present_state() == old(self).present_state()
                &&& e == if old(self).present_state().valid {
                    RebuildError::StillValid
                } else if parts.present_image_views@.len() != parts.present_images@.len() {
                    RebuildError::ViewCountMismatch
                } else {
                    RebuildError::FramebufferCountMismatch
                }
            },
            final(self).render_pass.vk_render_pass == old(self).render_pass.vk_render_pass,
            final(self).base.surface_data == old(self).base.surface_data,
            final(self).base.device_data == old(self).base.device_data,
            final(self).base.command_data == old(self).base.command_data,
            final(self).base.sync_data == old(self).base.sync_data,
    {
        match self.base.swapchain_data.state {
            ChainState::Valid => {
                return Err(RebuildError::StillValid);
            },
            ChainState::Rebuilding => {},
        }
        assert(self.present_state().images =~= Seq::<u64>::empty());
        assert(self.present_state().framebuffers =~= Seq::<u64>::empty());
        if parts.present_image_views.len() != parts.present_images.len() {
            return Err(RebuildError::ViewCountMismatch);
        }
        if framebuffers.len() != parts.present_images.len() {
            return Err(RebuildError::FramebufferCountMismatch);
        }
        let recreated = self.base.swapchain_data.recreate(parts);
        assert(recreated is Ok);
        let resized = self.render_pass.resize(&self.base.swapchain_data, framebuffers);
        assert(resized is Ok);
        assert(final(self).present_state() =~= after_rebuild(
            old(self).present_state(),
            Rebuild {
                images: parts.present_images@,
                views: parts.present_image_views@,
                framebuffers: framebuffers@,
            },
        ));
        Ok(())
    }
}

/// In a rebuild nothing is created before the device is idle and the old
/// framebuffers and chain are destroyed, and the framebuffers are created
/// after the chain whose views they attach.
pub proof fn lemma_rebuild_destroys_before_it_creates(i: int, j: int)
    requires
        0 <= i < rebuild_sequence().len(),
        0 <= j < rebuild_sequence().len(),
        rebuild_sequence()[i] == RebuildStep::WaitIdle || rebuild_sequence()[i]
            == RebuildStep::DestroyFramebuffers || rebuild_sequence()[i]
            == RebuildStep::DestroyChain,
        rebuild_sequence()[j] == RebuildStep::CreateChain || rebuild_sequence()[j]
            == RebuildStep::CreateFramebuffers,
    ensures
        i < j,
        rebuild_sequence()[0] == RebuildStep::WaitIdle,
        rebuild_sequence()[j] == RebuildStep::CreateFramebuffers ==> rebuild_sequence()[j - 1]
            == RebuildStep::CreateChain,
{
}

/// Whatever the series of rebuilds, afterwards there is one framebuffer per
/// image of the chain; and where the last rebuild was accepted, the images
/// and framebuffers held are exactly those it created.
pub proof fn lemma_rebuilds_keep_framebuffer_count(state: PresentState, rebuilds: Seq<Rebuild>)
    requires
        state.wf(),
    ensures
        after_rebuilds(state, rebuilds).wf(),
        rebuilds.len() > 0 && rebuild_accepted(rebuilds.last()) ==> {
            &&& after_rebuilds(state, rebuilds).valid
            &&& after_rebuilds(state, rebuilds).images == rebuilds.last().images
            &&& after_rebuilds(state, rebuilds).framebuffers == rebuilds.last().framebuffers
        },
    decreases rebuilds.len(),
{
    if rebuilds.len() > 0 {
        lemma_rebuilds_keep_framebuffer_count(state, rebuilds.drop_last());
    }
}

/// No framebuffer from before a rebuild is held after it: each one held
/// after a series of rebuilds was created by the last of them.
pub proof fn lemma_no_stale_framebuffer(state: PresentState, rebuilds: Seq<Rebuild>, handle: u64)
    requires
        rebuilds.len() > 0,
        after_rebuilds(state, rebuilds).framebuffers.contains(handle),
    ensures
        rebuilds.last().framebuffers.contains(handle),
        rebuild_accepted(rebuilds.last()),
{
}

} // verus!

//! The render pass and the framebuffers that follow the chain's images.

use vstd::prelude::*;
use crate::swapchain::{ChainState, Extent2D, SwapchainData};

verus! {

/// Depth format of the engine: 16-bit unsigned normalised.
pub const FORMAT_D16_UNORM: i32 = 124;

/// Sample count bit: one sample per pixel.
pub const SAMPLE_COUNT_1: u32 = 1;

/// Pipeline stage bit: colour attachment output.
pub const STAGE_COLOR_ATTACHMENT_OUTPUT: u32 = 0x400;

/// Access bits: read and write of a colour attachment.
pub const ACCESS_COLOR_ATTACHMENT_READ_WRITE: u32 = 0x180;

/// Index that stands for whatever runs outside the render pass.
pub const SUBPASS_EXTERNAL: u32 = 0xffff_ffff;

/// Layouts an image passes through in this engine.
#[derive(Clone, Copy, Debug, PartialEq, Eq, Structural)]
pub enum ImageLayout {
    Undefined,
    ColorAttachment,
    DepthStencilAttachment,
    ShaderReadOnly,
    TransferDst,
    PresentSrc,
}

/// What happens to an attachment's contents when the pass begins.
#[derive(Clone, Copy, Debug, PartialEq, Eq, Structural)]
pub enum LoadOp {
    Load,
    Clear,
}

/// What happens to an attachment's contents when the pass ends.
#[derive(Clone, Copy, Debug, PartialEq, Eq, Structural)]
pub enum StoreOp {
    Store,
    DontCare,
}

#[derive(Clone, Copy, Debug, PartialEq, Eq, Structural)]
pub struct AttachmentDescription {
    pub format: i32,
    pub samples: u32,
    pub load_op: LoadOp,
    pub store_op: StoreOp,
    pub initial_layout: ImageLayout,
    pub final_layout: ImageLayout,
}

#[derive(Clone, Copy, Debug, PartialEq, Eq, Structural)]
pub struct SubpassDependency {
    pub src_subpass: u32,
    pub dst_subpass: u32,
    pub src_stage_mask: u32,
    pub dst_stage_mask: u32,
    pub src_access_mask: u32,
    pub dst_access_mask: u32,
}

/// The one pass of the engine: a colour and a depth attachment, one subpass.
#[derive(Clone, Copy, Debug, PartialEq, Eq, Structural)]
pub struct RenderPassDescription {
    pub color: AttachmentDescription,
    pub depth: AttachmentDescription,
    /// Layout of the colour attachment during the subpass.
    pub color_layout: ImageLayout,
    /// Layout of the depth attachment during the subpass.
    pub depth_layout: ImageLayout,
    pub dependency: SubpassDependency,
}

/// What one framebuffer is created with.
#[derive(Clone, Copy, Debug, PartialEq, Eq, Structural)]
pub struct FramebufferRequest {
    pub render_pass: u64,
    pub color_view: u64,
    pub depth_view: u64,
    pub width: u32,
    pub height: u32,
    pub layers: u32,
}

/// What a render pass instance is begun with.
#[derive(Clone, Copy, Debug, PartialEq, Eq, Structural)]
pub struct RenderPassBegin {
    pub render_pass: u64,
    pub framebuffer: u64,
    pub render_area: Extent2D,
}

/// One command of a frame's recording.
#[derive(Clone, Copy, Debug, PartialEq, Eq, Structural)]
pub enum PassCommand {
    Begin(RenderPassBegin),
    /// Whatever the application draws.
    Draw,
    End,
}

#[derive(Clone, Copy, Debug, PartialEq, Eq, Structural)]
pub enum RenderPassError {
    /// The chain holds no live images.
    ChainNotValid,
    /// There is not exactly one framebuffer per image of the chain.
    FramebufferCountMismatch,
}

/// The pass and one framebuffer per image of the chain.
#[derive(Clone, Debug)]
pub struct RenderPass {
    pub vk_render_pass: u64,
    pub framebuffers: Vec<u64>,
}

/// The pass for a surface of the given colour format: colour is cleared,
/// stored and left presentable; depth is cleared and stays in the depth
/// attachment layout; colour writes wait for earlier colour output.
pub open spec fn pass_description(color_format: i32) -> RenderPassDescription {
    RenderPassDescription {
        color: AttachmentDescription {
            format: color_format,
            samples: SAMPLE_COUNT_1,
            load_op: LoadOp::Clear,
            store_op: StoreOp::Store,
            initial_layout: ImageLayout::Undefined,
            final_layout: ImageLayout::PresentSrc,
        },
        depth: AttachmentDescription {
            format: FORMAT_D16_UNORM,
            samples: SAMPLE_COUNT_1,
            load_op: LoadOp::Clear,
            store_op: StoreOp::Store,
            initial_layout: ImageLayout::DepthStencilAttachment,
            final_layout: ImageLayout::DepthStencilAttachment,
        },
        color_layout: ImageLayout::ColorAttachment,
        depth_layout: ImageLayout::DepthStencilAttachment,
        dependency: SubpassDependency {
            src_subpass: SUBPASS_EXTERNAL,
            dst_subpass: 0,
            src_stage_mask: STAGE_COLOR_ATTACHMENT_OUTPUT,
            dst_stage_mask: STAGE_COLOR_ATTACHMENT_OUTPUT,
            src_access_mask: 0,
            dst_access_mask: ACCESS_COLOR_ATTACHMENT_READ_WRITE,
        },
    }
}

/// The request for the framebuffer of image view `color_view`.
pub open spec fn framebuffer_request(
    render_pass: u64,
    color_view: u64,
    depth_view: u64,
    extent: Extent2D,
) -> FramebufferRequest {
    FramebufferRequest {
        render_pass,
        color_view,
        depth_view,
        width: extent.width,
        height: extent.height,
        layers: 1,
    }
}

impl RenderPass {
    /// The framebuffers, in the order of the chain's images.
    pub open spec fn handles(&self) -> Seq<u64> {
        self.framebuffers@
    }

    /// The description the pass is created from.
    pub fn describe(color_format: i32) -> (r: RenderPassDescription)
        ensures
            r == pass_description(color_format),
    {
        RenderPassDescription {
            color: AttachmentDescription {
                format: color_format,
                samples: SAMPLE_COUNT_1,
                load_op: LoadOp::Clear,
                store_op: StoreOp::Store,
                initial_layout: ImageLayout::Undefined,
                final_layout: ImageLayout::PresentSrc,
            },
            depth: AttachmentDescription {
                format: FORMAT_D16_UNORM,
                samples: SAMPLE_COUNT_1,
                load_op: LoadOp::Clear,
                store_op: StoreOp::Store,
                initial_layout: ImageLayout::DepthStencilAttachment,
                final_layout: ImageLayout::DepthStencilAttachment,
            },
            color_layout: ImageLayout::ColorAttachment,
            depth_layout: ImageLayout::DepthStencilAttachment,
            dependency: SubpassDependency {
                src_subpass: SUBPASS_EXTERNAL,
                dst_subpass: 0,
                src_stage_mask: STAGE_COLOR_ATTACHMENT_OUTPUT,
                dst_stage_mask: STAGE_COLOR_ATTACHMENT_OUTPUT,
                src_access_mask: 0,
                dst_access_mask: ACCESS_COLOR_ATTACHMENT_READ_WRITE,
            },
        }
    }

    /// One request per image view of the chain, in order, each with the
    /// chain's depth view as second attachment and one layer.
    pub fn new_framebuffers(render_pass: u64, swapchain: &SwapchainData, extent: Extent2D) -> (r:
        Vec<FramebufferRequest>)
        ensures
            r@.len() == swapchain.views().len(),
            forall|i: int|
                0 <= i < r@.len() ==> r@[i] == framebuffer_request(
                    render_pass,
                    swapchain.views()[i],
                    swapchain.depth_image_view,
                    extent,
                ),
    {
        let mut requests: Vec<FramebufferRequest> = Vec::new();
        let mut i: usize = 0;
        while i < swapchain.present_image_views.len()
            invariant
                i <= swapchain.present_image_views.len(),
                requests@.len() == i,
                forall|k: int|
                    0 <= k < i ==> requests@[k] == framebuffer_request(
                        render_pass,
                        swapchain.views()[k],
                        swapchain.depth_image_view,
                        extent,
                    ),
            decreases swapchain.present_image_views.len() - i,
        {
            requests.push(
                FramebufferRequest {
                    render_pass,
                    color_view: swapchain.present_image_views[i],
                    depth_view: swapchain.depth_image_view,
                    width: extent.width,
                    height: extent.height,
                    layers: 1,
                },
            );
            i += 1;
        }
        requests
    }

    /// The pass with the framebuffers created for `swapchain`. Fails unless
    /// the chain is valid and has one framebuffer per image.
    pub fn new(vk_render_pass: u64, swapchain: &SwapchainData, framebuffers: Vec<u64>) -> (r:
        Result<RenderPass, RenderPassError>)
        ensures
            r is Ok <==> swapchain.state == ChainState::Valid && framebuffers@.len()
                == swapchain.images().len(),
            r matches Ok(pass) ==> pass.vk_render_pass == vk_render_pass && pass.handles()
                == framebuffers@,
            r matches Err(e) ==> e == if swapchain.state == ChainState::Valid {
                RenderPassError::FramebufferCountMismatch
            } else {
                RenderPassError::ChainNotValid
            },
    {
        match swapchain.state {
            ChainState::Valid => {},
            ChainState::Rebuilding => {
                return Err(RenderPassError::ChainNotValid);
            },
        }
        if framebuffers.len() != swapchain.present_images.len() {
            return Err(RenderPassError::FramebufferCountMismatch);
        }
        Ok(RenderPass { vk_render_pass, framebuffers })
    }

    /// Gives up every framebuffer and returns them for destruction.
    pub fn retire(&mut self) -> (stale: Vec<u64>)
        ensures
            stale@ == old(self).handles(),
            final(self).handles().len() == 0,
            final(self).vk_render_pass == old(self).vk_render_pass,
    {
        let mut stale: Vec<u64> = Vec::new();
        std::mem::swap(&mut stale, &mut self.framebuffers);
        stale
    }

    /// Replaces the framebuffers by those created for the rebuilt chain and
    /// returns the ones held before, which are to be destroyed. The pass
    /// itself is kept. Fails, and changes nothing, unless the chain is valid
    /// and has one new framebuffer per image.
    pub fn resize(&mut self, swapchain: &SwapchainData, framebuffers: Vec<u64>) -> (r: Result<
        Vec<u64>,
        RenderPassError,
    >)
        ensures
            r is Ok <==> swapchain.state == ChainState::Valid && framebuffers@.len()
                == swapchain.images().len(),
            final(self).vk_render_pass == old(self).vk_render_pass,
            r matches Ok(stale) ==> stale@ == old(self).handles() && final(self).handles()
                == framebuffers@,
            r matches Err(e) ==> {
                &&& final(self).handles() == old(self).handles()
                &&& e == if swapchain.state == ChainState::Valid {
                    RenderPassError::FramebufferCountMismatch
                } else {
                    RenderPassError::ChainNotValid
                }
            },
    {
        match swapchain.state {
            ChainState::Valid => {},
            ChainState::Rebuilding => {
                return Err(RenderPassError::ChainNotValid);
            },
        }
        if framebuffers.len() != swapchain.present_images.len() {
            return Err(RenderPassError::FramebufferCountMismatch);
        }
        let mut stale: Vec<u64> = framebuffers;
        std::mem::swap(&mut stale, &mut self.framebuffers);
        Ok(stale)
    }

    /// What the pass is begun with for the image just acquired: the
    /// framebuffer at `present_index`, over the whole surface. `None` when
    /// there is no such framebuffer.
    pub fn begin(&self, present_index: u32, resolution: Extent2D) -> (r: Option<RenderPassBegin>)
        ensures
            r is Some <==> (present_index as int) < self.handles().len(),
            r matches Some(begin) ==> begin == (RenderPassBegin {
                render_pass: self.vk_render_pass,
                framebuffer: self.handles()[present_index as int],
                render_area: resolution,
            }),
    {
        let index: usize = present_index as usize;
        if index < self.framebuffers.len() {
            Some(
                RenderPassBegin {
                    render_pass: self.vk_render_pass,
                    framebuffer: self.framebuffers[index],
                    render_area: resolution,
                },
            )
        } else {
            None
        }
    }

    /// What is recorded for one frame: the application's drawing, between
    /// the begin of the pass on the framebuffer of the acquired image and
    /// its end. `None` when there is no such framebuffer.
    pub fn record(&self, present_index: u32, resolution: Extent2D) -> (r: Option<Vec<PassCommand>>)
        ensures
            r is Some <==> (present_index as int) < self.handles().len(),
            r matches Some(commands) ==> commands@ == seq![
                PassCommand::Begin(
                    RenderPassBegin {
                        render_pass: self.vk_render_pass,
                        framebuffer: self.handles()[present_index as int],
                        render_area: resolution,
                    },
                ),
                PassCommand::Draw,
                PassCommand::End,
            ],
    {
        match self.begin(present_index, resolution) {
            Some(begin) => {
                let mut commands: Vec<PassCommand> = Vec::new();
                commands.push(PassCommand::Begin(begin));
                commands.push(PassCommand::Draw);
                commands.push(PassCommand::End);
                assert(commands@ =~= seq![
                    PassCommand::Begin(begin),
                    PassCommand::Draw,
                    PassCommand::End,
                ]);
                Some(commands)
            },
            None => None,
        }
    }
}

} // verus!

//! The presentable image chain: what it is created with, what it holds, and
//! what has to be destroyed before it is built again.

use vstd::prelude::*;
use crate::device::MEMORY_DEVICE_LOCAL;
use crate::render_pass::{FORMAT_D16_UNORM, ImageLayout};
use crate::texture::TransferCommand;

verus! {

/// Image usage bit: depth and stencil attachment.
pub const USAGE_DEPTH_STENCIL_ATTACHMENT: u32 = 0x20;

/// Present mode: a single-entry queue that replaces the waiting image.
pub const PRESENT_MODE_MAILBOX: i32 = 1;

/// Present mode: first in, first out. Every surface supports it.
pub const PRESENT_MODE_FIFO: i32 = 2;

/// Surface transform bit: no transform.
pub const TRANSFORM_IDENTITY: u32 = 1;

/// Width and height in pixels.
#[derive(Clone, Copy, Debug, PartialEq, Eq, Structural)]
pub struct Extent2D {
    pub width: u32,
    pub height: u32,
}

/// Pixel format and colour space of a surface.
#[derive(Clone, Copy, Debug, PartialEq, Eq, Structural)]
pub struct SurfaceFormat {
    pub format: i32,
    pub color_space: i32,
}

/// What the surface reports about the chains it can carry.
#[derive(Clone, Copy, Debug, PartialEq, Eq, Structural)]
pub struct SurfaceCapabilities {
    pub min_image_count: u32,
    /// Zero when the surface sets no upper limit.
    pub max_image_count: u32,
    pub supported_transforms: u32,
    pub current_transform: u32,
}

/// The window surface, its chosen format and its current size.
#[derive(Clone, Copy, Debug, PartialEq, Eq, Structural)]
pub struct SurfaceData {
    pub surface: u64,
    pub format: Option<SurfaceFormat>,
    pub resolution: Extent2D,
}

/// What can go wrong with a chain.
#[derive(Clone, Copy, Debug, PartialEq, Eq, Structural)]
pub enum SwapchainError {
    /// The surface reports no format at all.
    NoSurfaceFormat,
    /// The surface format has not been chosen yet.
    FormatUnset,
    /// There is not exactly one image view per image.
    ViewCountMismatch,
    /// The chain still holds live resources: destroy them first.
    StillValid,
}

/// Whether the chain's resources are live.
#[derive(Clone, Copy, Debug, PartialEq, Eq, Structural)]
pub enum ChainState {
    Valid,
    /// The resources were handed out for destruction; new ones are awaited.
    Rebuilding,
}

/// The decisions a chain is created with.
#[derive(Clone, Copy, Debug, PartialEq, Eq, Structural)]
pub struct SwapchainPlan {
    pub surface: u64,
    pub min_image_count: u32,
    pub format: SurfaceFormat,
    pub extent: Extent2D,
    pub pre_transform: u32,
    pub present_mode: i32,
}

/// What the depth image of a chain is created with.
#[derive(Clone, Copy, Debug, PartialEq, Eq, Structural)]
pub struct DepthImagePlan {
    pub format: i32,
    pub extent: Extent2D,
    pub usage: u32,
    /// Properties the memory type of the image must have.
    pub memory_properties: u32,
}

/// The freshly created resources of one chain.
#[derive(Clone, Debug)]
pub struct ChainParts {
    pub swapchain: u64,
    pub present_images: Vec<u64>,
    pub present_image_views: Vec<u64>,
    pub depth_image: u64,
    pub depth_image_view: u64,
    pub depth_image_memory: u64,
}

/// One call of the teardown of a chain.
#[derive(Clone, Copy, Debug, PartialEq, Eq, Structural)]
pub enum DestroyCall {
    FreeMemory(u64),
    DestroyImageView(u64),
    DestroyImage(u64),
    DestroySwapchain(u64),
}

/// The chain and its depth buffer.
#[derive(Clone, Debug)]
pub struct SwapchainData {
    pub state: ChainState,
    pub swapchain: u64,
    pub present_images: Vec<u64>,
    pub present_image_views: Vec<u64>,
    pub depth_image: u64,
    pub depth_image_view: u64,
    pub depth_image_memory: u64,
}

/// One image more than the minimum, but no more than the maximum where the
/// surface sets one, and no more than a `u32` holds.
pub open spec fn desired_image_count(capabilities: SurfaceCapabilities) -> int {
    let wanted = capabilities.min_image_count + 1;
    if capabilities.max_image_count > 0 && wanted > capabilities.max_image_count {
        capabilities.max_image_count as int
    } else if wanted > u32::MAX {
        u32::MAX as int
    } else {
        wanted
    }
}

/// Identity where the surface supports it, else the transform it has now.
pub open spec fn desired_pre_transform(capabilities: SurfaceCapabilities) -> u32 {
    if capabilities.supported_transforms & TRANSFORM_IDENTITY == TRANSFORM_IDENTITY {
        TRANSFORM_IDENTITY
    } else {
        capabilities.current_transform
    }
}

/// Mailbox where the surface offers it, else FIFO.
pub open spec fn desired_present_mode(modes: Seq<i32>) -> i32 {
    if modes.contains(PRESENT_MODE_MAILBOX) {
        PRESENT_MODE_MAILBOX
    } else {
        PRESENT_MODE_FIFO
    }
}

/// The teardown of a chain, in order: depth memory, depth view, depth image,
/// each image view in its place, the chain itself.
pub open spec fn teardown_calls(
    swapchain: u64,
    views: Seq<u64>,
    depth_image: u64,
    depth_image_view: u64,
    depth_image_memory: u64,
) -> Seq<DestroyCall> {
    seq![
        DestroyCall::FreeMemory(depth_image_memory),
        DestroyCall::DestroyImageView(depth_image_view),
        DestroyCall::DestroyImage(depth_image),
    ] + Seq::new(views.len(), |i: int| DestroyCall::DestroyImageView(views[i]))
        + seq![DestroyCall::DestroySwapchain(swapchain)]
}

/// Number of images the chain is asked to hold at least.
pub fn choose_image_count(capabilities: &SurfaceCapabilities) -> (r: u32)
    ensures
        r == desired_image_count(*capabilities),
        capabilities.max_image_count == 0 ==> r >= capabilities.min_image_count,
        capabilities.max_image_count > 0 ==> r <= capabilities.max_image_count,
        capabilities.min_image_count <= capabilities.max_image_count ==> r
            >= capabilities.min_image_count,
{
    let wanted: u32 = if capabilities.min_image_count < u32::MAX {
        capabilities.min_image_count + 1
    } else {
        u32::MAX
    };
    if capabilities.max_image_count > 0 && wanted > capabilities.max_image_count {
        capabilities.max_image_count
    } else {
        wanted
    }
}

/// Transform applied to the images before presentation.
pub fn choose_pre_transform(capabilities: &SurfaceCapabilities) -> (r: u32)
    ensures
        r == desired_pre_transform(*capabilities),
{
    if capabilities.supported_transforms & TRANSFORM_IDENTITY == TRANSFORM_IDENTITY {
        TRANSFORM_IDENTITY
    } else {
        capabilities.current_transform
    }
}

/// Mailbox if `modes` holds it, else FIFO; never fails.
pub fn choose_present_mode(modes: &Vec<i32>) -> (r: i32)
    ensures
        r == desired_present_mode(modes@),
        r == PRESENT_MODE_MAILBOX || r == PRESENT_MODE_FIFO,
        r == PRESENT_MODE_MAILBOX <==> modes@.contains(PRESENT_MODE_MAILBOX),
{
    let mut i: usize = 0;
    while i < modes.len()
        invariant
            i <= modes.len(),
            forall|k: int| 0 <= k < i ==> modes@[k] != PRESENT_MODE_MAILBOX,
        decreases modes.len() - i,
    {
        if modes[i] == PRESENT_MODE_MAILBOX {
            assert(modes@.contains(PRESENT_MODE_MAILBOX));
            return PRESENT_MODE_MAILBOX;
        }
        i += 1;
    }
    PRESENT_MODE_FIFO
}

impl SurfaceData {
    /// A surface of the window's size whose format is not chosen yet.
    pub fn new(surface: u64, width: u32, height: u32) -> (r: SurfaceData)
        ensures
            r == (SurfaceData { surface, format: None, resolution: Extent2D { width, height } }),
    {
        SurfaceData { surface, format: None, resolution: Extent2D { width, height } }
    }

    /// Takes the first format the surface reports. With none reported the
    /// surface stays as it is.
    pub fn update_surface_format(&mut self, formats: &Vec<SurfaceFormat>) -> (r: Result<
        (),
        SwapchainError,
    >)
        ensures
            r is Ok <==> formats@.len() > 0,
            r is Ok ==> *final(self) == (SurfaceData { format: Some(formats@[0]), ..*old(self) }),
            r matches Err(e) ==> e == SwapchainError::NoSurfaceFormat && *final(self) == *old(
                self,
            ),
    {
        if formats.len() == 0 {
            return Err(SwapchainError::NoSurfaceFormat);
        }
        self.format = Some(formats[0]);
        Ok(())
    }
}

impl SwapchainData {
    /// The images of the chain, in order.
    pub open spec fn images(&self) -> Seq<u64> {
        self.present_images@
    }

    /// The view of each image, in the same order.
    pub open spec fn views(&self) -> Seq<u64> {
        self.present_image_views@
    }

    /// A valid chain has one view per image; a chain being rebuilt holds nothing.
    pub open spec fn wf(&self) -> bool {
        match self.state {
            ChainState::Valid => self.views().len() == self.images().len(),
            ChainState::Rebuilding => self.views().len() == 0 && self.images().len() == 0,
        }
    }

    /// The chain holds exactly `parts` and is valid.
    pub open spec fn holds(&self, parts: ChainParts) -> bool {
        &&& self.state == ChainState::Valid
        &&& self.swapchain == parts.swapchain
        &&& self.images() == parts.present_images@
        &&& self.views() == parts.present_image_views@
        &&& self.depth_image == parts.depth_image
        &&& self.depth_image_view == parts.depth_image_view
        &&& self.depth_image_memory == parts.depth_image_memory
    }

    /// What the chain is to be created with, from what the surface reports.
    /// Fails only while the surface format is not chosen.
    pub fn plan(
        surface: &SurfaceData,
        capabilities: &SurfaceCapabilities,
        present_modes: &Vec<i32>,
    ) -> (r: Result<SwapchainPlan, SwapchainError>)
        ensures
            match surface.format {
                Some(format) => r == Ok::<SwapchainPlan, SwapchainError>(
                    SwapchainPlan {
                        surface: surface.surface,
                        min_image_count: desired_image_count(*capabilities) as u32,
                        format,
                        extent: surface.resolution,
                        pre_transform: desired_pre_transform(*capabilities),
                        present_mode: desired_present_mode(present_modes@),
                    },
                ),
                None => r == Err::<SwapchainPlan, SwapchainError>(SwapchainError::FormatUnset),
            },
    {
        match surface.format {
            Some(format) => Ok(
                SwapchainPlan {
                    surface: surface.surface,
                    min_image_count: choose_image_count(capabilities),
                    format,
                    extent: surface.resolution,
                    pre_transform: choose_pre_transform(capabilities),
                    present_mode: choose_present_mode(present_modes),
                },
            ),
            None => Err(SwapchainError::FormatUnset),
        }
    }

    /// What the depth image is created with: 16-bit depth, as large as the
    /// chain's images, in memory local to the device.
    pub fn depth_plan(plan: &SwapchainPlan) -> (r: DepthImagePlan)
        ensures
            r == (DepthImagePlan {
                format: FORMAT_D16_UNORM,
                extent: plan.extent,
                usage: USAGE_DEPTH_STENCIL_ATTACHMENT,
                memory_properties: MEMORY_DEVICE_LOCAL,
            }),
    {
        DepthImagePlan {
            format: FORMAT_D16_UNORM,
            extent: plan.extent,
            usage: USAGE_DEPTH_STENCIL_ATTACHMENT,
            memory_properties: MEMORY_DEVICE_LOCAL,
        }
    }

    /// The one command recorded on the setup buffer after the depth image is
    /// created: it takes the image from no layout to the depth attachment
    /// layout.
    pub fn depth_transition(depth_image: u64) -> (r: TransferCommand)
        ensures
            r == (TransferCommand::Barrier {
                image: depth_image,
                old_layout: ImageLayout::Undefined,
                new_layout: ImageLayout::DepthStencilAttachment,
            }),
    {
        TransferCommand::Barrier {
            image: depth_image,
            old_layout: ImageLayout::Undefined,
            new_layout: ImageLayout::DepthStencilAttachment,
        }
    }

    /// A valid chain of the created parts. Fails unless there is exactly one
    /// view per image.
    pub fn new(parts: ChainParts) -> (r: Result<SwapchainData, SwapchainError>)
        ensures
            r is Ok <==> parts.present_image_views@.len() == parts.present_images@.len(),
            r matches Ok(chain) ==> chain.holds(parts) && chain.wf(),
            r matches Err(e) ==> e == SwapchainError::ViewCountMismatch,
    {
        if parts.present_image_views.len() != parts.present_images.len() {
            return Err(SwapchainError::ViewCountMismatch);
        }
        Ok(
            SwapchainData {
                state: ChainState::Valid,
                swapchain: parts.swapchain,
                present_images: parts.present_images,
                present_image_views: parts.present_image_views,
                depth_image: parts.depth_image,
                depth_image_view: parts.depth_image_view,
                depth_image_memory: parts.depth_image_memory,
            },
        )
    }

    /// Gives up every resource of the chain and returns the calls that destroy
    /// them, in order. Afterwards the chain holds no image and no view and
    /// awaits new parts. A chain that is already being rebuilt has nothing to
    /// destroy.
    pub fn destroy(&mut self) -> (calls: Vec<DestroyCall>)
        ensures
            final(self).state == ChainState::Rebuilding,
            final(self).images().len() == 0,
            final(self).views().len() == 0,
            final(self).wf(),
            final(self).swapchain == old(self).swapchain,
            final(self).depth_image == old(self).depth_image,
            final(self).depth_image_view == old(self).depth_image_view,
            final(self).depth_image_memory == old(self).depth_image_memory,
            old(self).state == ChainState::Valid ==> calls@ == teardown_calls(
                old(self).swapchain,
                old(self).views(),
                old(self).depth_image,
                old(self).depth_image_view,
                old(self).depth_image_memory,
            ),
            old(self).state == ChainState::Rebuilding ==> calls@.len() == 0,
    {
        let mut calls: Vec<DestroyCall> = Vec::new();
        match self.state {
            ChainState::Valid => {
                calls.push(DestroyCall::FreeMemory(self.depth_image_memory));
                calls.push(DestroyCall::DestroyImageView(self.depth_image_view));
                calls.push(DestroyCall::DestroyImage(self.depth_image));
                let mut i: usize = 0;
                while i < self.present_image_views.len()
                    invariant
                        i <= self.present_image_views.len(),
                        *self == *old(self),
                        calls@.len() == 3 + i,
                        calls@[0] == DestroyCall::FreeMemory(self.depth_image_memory),
                        calls@[1] == DestroyCall::DestroyImageView(self.depth_image_view),
                        calls@[2] == DestroyCall::DestroyImage(self.depth_image),
                        forall|k: int|
                            0 <= k < i ==> calls@[3 + k] == DestroyCall::DestroyImageView(
                                self.present_image_views@[k],
                            ),
                    decreases self.present_image_views.len() - i,
                {
                    calls.push(DestroyCall::DestroyImageView(self.present_image_views[i]));
                    i += 1;
                }
                calls.push(DestroyCall::DestroySwapchain(self.swapchain));
                assert(calls@ =~= teardown_calls(
                    old(self).swapchain,
                    old(self).views(),
                    old(self).depth_image,
                    old(self).depth_image_view,
                    old(self).depth_image_memory,
                ));
            },
            ChainState::Rebuilding => {},
        }
        self.state = ChainState::Rebuilding;
        self.present_images = Vec::new();
        self.present_image_views = Vec::new();
        calls
    }

    /// Takes the parts of the chain that was created after [`Self::destroy`].
    /// A chain whose old resources were not given up first, and parts without
    /// exactly one view per image, are refused and leave the chain as it is.
    pub fn recreate(&mut self, parts: ChainParts) -> (r: Result<(), SwapchainError>)
        ensures
            r is Ok <==> old(self).state == ChainState::Rebuilding
                && parts.present_image_views@.len() == parts.present_images@.len(),
            r is Ok ==> final(self).holds(parts) && final(self).wf(),
            r matches Err(e) ==> {
                &&& *final(self) == *old(self)
                &&& e == if old(self).state == ChainState::Valid {
                    SwapchainError::StillValid
                } else {
                    SwapchainError::ViewCountMismatch
                }
            },
    {
        match self.state {
            ChainState::Valid => {
                return Err(SwapchainError::StillValid);
            },
            ChainState::Rebuilding => {},
        }
        if parts.present_image_views.len() != parts.present_images.len() {
            return Err(SwapchainError::ViewCountMismatch);
        }
        self.state = ChainState::Valid;
        self.swapchain = parts.swapchain;
        self.present_images = parts.present_images;
        self.present_image_views = parts.present_image_views;
        self.depth_image = parts.depth_image;
        self.depth_image_view = parts.depth_image_view;
        self.depth_image_memory = parts.depth_image_memory;
        Ok(())
    }
}

} // verus!

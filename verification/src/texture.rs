//! Textures: decoding the pixels, sizing the staging buffer and the image,
//! and the transfer that brings the image into the layout shaders read.

use vstd::prelude::*;
use crate::buffer::Buffer;
use crate::device::MEMORY_DEVICE_LOCAL;
use crate::render_pass::ImageLayout;
use crate::swapchain::Extent2D;

verus! {

/// Sampler filter: nearest texel.
pub const FILTER_NEAREST: i32 = 0;

/// Sampler filter: linear interpolation.
pub const FILTER_LINEAR: i32 = 1;

/// Image format: four 8-bit unsigned normalised channels.
pub const FORMAT_R8G8B8A8_UNORM: i32 = 37;

/// Image usage bits: destination of a transfer, and sampled by shaders.
pub const USAGE_TRANSFER_DST_SAMPLED: u32 = 0x6;

/// Access bit: read by a shader.
pub const ACCESS_SHADER_READ: u32 = 0x20;

/// Access bits: read and write of the depth attachment.
pub const ACCESS_DEPTH_STENCIL_READ_WRITE: u32 = 0x600;

/// Access bit: write of a transfer.
pub const ACCESS_TRANSFER_WRITE: u32 = 0x1000;

/// Pipeline stage bit: fragment shader.
pub const STAGE_FRAGMENT_SHADER: u32 = 0x80;

/// Pipeline stage bit: the depth tests after the fragment shader.
pub const STAGE_LATE_FRAGMENT_TESTS: u32 = 0x200;

/// Pipeline stage bit: transfer.
pub const STAGE_TRANSFER: u32 = 0x1000;

/// Pipeline stage bit: the end of the pipeline.
pub const STAGE_BOTTOM_OF_PIPE: u32 = 0x2000;

/// Image aspect bit: colour.
pub const ASPECT_COLOR: u32 = 0x1;

/// Image aspect bit: depth.
pub const ASPECT_DEPTH: u32 = 0x2;

/// Bytes per pixel of a decoded texture.
pub const BYTES_PER_PIXEL: u64 = 4;

/// How the sampler reads between texels.
#[derive(Clone, Copy, Debug, PartialEq, Eq, Structural)]
pub enum Filter {
    Linear,
    Nearest,
}

/// Decoded pixels, four bytes each, row by row.
#[derive(Clone, Debug)]
pub struct Pixels {
    pub width: u32,
    pub height: u32,
    pub data: Vec<u8>,
}

#[derive(Clone, Copy, Debug, PartialEq, Eq, Structural)]
pub enum TextureError {
    /// The bytes are no image that can be decoded.
    Decode,
    /// The image has no pixels.
    Empty,
    /// The pixel data is not four bytes per pixel.
    SizeMismatch,
}

/// What the image and the sampler of a texture are created with.
#[derive(Clone, Copy, Debug, PartialEq, Eq, Structural)]
pub struct TexturePlan {
    pub extent: Extent2D,
    /// Size of the staging buffer in bytes.
    pub staging_size: u64,
    pub format: i32,
    pub usage: u32,
    pub mip_levels: u32,
    /// Properties the memory of the image must have: local to the device.
    pub memory_properties: u32,
    /// Filter for both magnification and minification.
    pub sampler_filter: i32,
}

/// One command of the upload, recorded on the setup command buffer.
#[derive(Clone, Copy, Debug, PartialEq, Eq, Structural)]
pub enum TransferCommand {
    /// Moves the image from one layout to another.
    Barrier { image: u64, old_layout: ImageLayout, new_layout: ImageLayout },
    /// Copies the staging buffer into the whole image.
    CopyBufferToImage { buffer: u64, image: u64, extent: Extent2D },
}

/// What a layout transition waits for and what waits for it.
#[derive(Clone, Copy, Debug, PartialEq, Eq, Structural)]
pub struct BarrierScope {
    pub src_access_mask: u32,
    pub dst_access_mask: u32,
    pub src_stage_mask: u32,
    pub dst_stage_mask: u32,
    pub aspect_mask: u32,
}

/// What a shader is given to read the texture.
#[derive(Clone, Copy, Debug, PartialEq, Eq, Structural)]
pub struct DescriptorImageInfo {
    pub image_layout: ImageLayout,
    pub image_view: u64,
    pub sampler: u64,
}

/// The image, its view and sampler, and the staging buffer, which is kept
/// for as long as the texture lives.
#[derive(Clone, Debug)]
pub struct Texture {
    pub descriptor: DescriptorImageInfo,
    pub image_buffer: Buffer,
    pub image_view: u64,
    pub allocation: u64,
    pub texture_image: u64,
    pub sampler: u64,
}

/// The error type of the `image` crate, carried as an opaque value.
#[verifier::external_type_specification]
#[verifier::external_body]
pub struct ExImageError(image::ImageError);

/// What the `image` crate decodes from PNG bytes and converts to 8-bit RGBA:
/// width, height and the pixel bytes; `None` where it reports an error.
pub uninterp spec fn png_rgba8(bytes: Seq<u8>) -> Option<(u32, u32, Seq<u8>)>;

/// Decodes PNG bytes with `image::load`, converts the picture with
/// `DynamicImage::to_rgba8` and takes it apart with `dimensions` and
/// `into_raw`. Trusted: the outcome depends on the bytes alone, and the
/// converted buffer is allocated with exactly four bytes per pixel.
#[verifier::external_body]
fn load_png_rgba8(bytes: &[u8]) -> (r: Result<Pixels, image::ImageError>)
    ensures
        r is Ok <==> png_rgba8(bytes@) is Some,
        r matches Ok(pixels) ==> png_rgba8(bytes@) == Some(
            (pixels.width, pixels.height, pixels.data@),
        ) && pixels.data@.len() == 4 * (pixels.width * pixels.height),
{
    match image::load(std::io::Cursor::new(bytes), image::ImageFormat::Png) {
        Ok(picture) => {
            let rgba = picture.to_rgba8();
            let (width, height) = rgba.dimensions();
            Ok(Pixels { width, height, data: rgba.into_raw() })
        },
        Err(error) => Err(error),
    }
}

/// The sampler filter a [`Filter`] stands for.
pub open spec fn filter_code(filter: Filter) -> i32 {
    match filter {
        Filter::Linear => FILTER_LINEAR,
        Filter::Nearest => FILTER_NEAREST,
    }
}

/// `pixels` has at least one pixel and four bytes for each.
pub open spec fn pixels_complete(pixels: Pixels) -> bool {
    pixels.width > 0 && pixels.height > 0 && pixels.data@.len() == 4 * (pixels.width
        * pixels.height)
}

/// The upload: the image becomes a transfer destination, takes the copy,
/// and becomes readable by shaders.
pub open spec fn upload_sequence(staging: u64, image: u64, extent: Extent2D) -> Seq<
    TransferCommand,
> {
    seq![
        TransferCommand::Barrier {
            image,
            old_layout: ImageLayout::Undefined,
            new_layout: ImageLayout::TransferDst,
        },
        TransferCommand::CopyBufferToImage { buffer: staging, image, extent },
        TransferCommand::Barrier {
            image,
            old_layout: ImageLayout::TransferDst,
            new_layout: ImageLayout::ShaderReadOnly,
        },
    ]
}

/// The scope of each transition the engine makes; `None` for any other.
/// A fresh image waits for nothing. A transfer destination is written by the
/// transfer stage; shaders read it in the fragment stage once the transfer
/// has written; the depth buffer is read and written by the late depth tests.
pub open spec fn transition_scope(old_layout: ImageLayout, new_layout: ImageLayout) -> Option<
    BarrierScope,
> {
    match (old_layout, new_layout) {
        (ImageLayout::Undefined, ImageLayout::TransferDst) => Some(
            BarrierScope {
                src_access_mask: 0,
                dst_access_mask: ACCESS_TRANSFER_WRITE,
                src_stage_mask: STAGE_BOTTOM_OF_PIPE,
                dst_stage_mask: STAGE_TRANSFER,
                aspect_mask: ASPECT_COLOR,
            },
        ),
        (ImageLayout::TransferDst, ImageLayout::ShaderReadOnly) => Some(
            BarrierScope {
                src_access_mask: ACCESS_TRANSFER_WRITE,
                dst_access_mask: ACCESS_SHADER_READ,
                src_stage_mask: STAGE_TRANSFER,
                dst_stage_mask: STAGE_FRAGMENT_SHADER,
                aspect_mask: ASPECT_COLOR,
            },
        ),
        (ImageLayout::Undefined, ImageLayout::DepthStencilAttachment) => Some(
            BarrierScope {
                src_access_mask: 0,
                dst_access_mask: ACCESS_DEPTH_STENCIL_READ_WRITE,
                src_stage_mask: STAGE_BOTTOM_OF_PIPE,
                dst_stage_mask: STAGE_LATE_FRAGMENT_TESTS,
                aspect_mask: ASPECT_DEPTH,
            },
        ),
        _ => None,
    }
}

/// The layout of `image` after one command, starting in `layout`; `None`
/// where the command does not fit the layout the image is in: a barrier
/// that names another old layout, or a copy into an image that is no
/// transfer destination.
pub open spec fn layout_after_command(
    image: u64,
    layout: ImageLayout,
    command: TransferCommand,
) -> Option<ImageLayout> {
    match command {
        TransferCommand::Barrier { image: target, old_layout, new_layout } => if target != image {
            Some(layout)
        } else if old_layout == layout {
            Some(new_layout)
        } else {
            None
        },
        TransferCommand::CopyBufferToImage { buffer, image: target, extent } => if target == image
            && layout != ImageLayout::TransferDst {
            None
        } else {
            Some(layout)
        },
    }
}

/// The layout of `image` after all of `commands`, if each of them fits.
pub open spec fn layout_after(image: u64, layout: ImageLayout, commands: Seq<TransferCommand>)
    -> Option<ImageLayout>
    decreases commands.len(),
{
    if commands.len() == 0 {
        Some(layout)
    } else {
        match layout_after(image, layout, commands.drop_last()) {
            Some(before) => layout_after_command(image, before, commands.last()),
            None => None,
        }
    }
}

/// Number of barriers in `commands` that move `image` into `layout`.
pub open spec fn transitions_into(image: u64, layout: ImageLayout, commands: Seq<TransferCommand>)
    -> nat
    decreases commands.len(),
{
    if commands.len() == 0 {
        0
    } else {
        let rest = transitions_into(image, layout, commands.drop_last());
        match commands.last() {
            TransferCommand::Barrier { image: target, old_layout, new_layout } => if target
                == image && new_layout == layout {
                rest + 1
            } else {
                rest
            },
            _ => rest,
        }
    }
}

impl Filter {
    /// The filter the sampler is created with.
    pub fn sampler_filter(&self) -> (r: i32)
        ensures
            r == filter_code(*self),
    {
        match self {
            Filter::Linear => FILTER_LINEAR,
            Filter::Nearest => FILTER_NEAREST,
        }
    }
}

impl Texture {
    /// Decodes the bytes of a PNG file to 8-bit RGBA pixels. Whether and to
    /// what they decode is the decoder's matter; what comes out has four
    /// bytes per pixel.
    pub fn decode(bytes: &[u8]) -> (r: Result<Pixels, TextureError>)
        ensures
            r is Ok <==> png_rgba8(bytes@) is Some,
            r matches Ok(pixels) ==> png_rgba8(bytes@) == Some(
                (pixels.width, pixels.height, pixels.data@),
            ) && pixels.data@.len() == 4 * (pixels.width * pixels.height),
            r matches Err(e) ==> e == TextureError::Decode,
    {
        match load_png_rgba8(bytes) {
            Ok(pixels) => Ok(pixels),
            Err(_) => Err(TextureError::Decode),
        }
    }

    /// What image and sampler are created with for the decoded pixels: an
    /// image of the pixels' extent, local to the device and without mip
    /// levels, a staging buffer of exactly the pixel bytes, and the sampler
    /// filter asked for.
    pub fn plan(pixels: &Pixels, filter: Filter) -> (r: Result<TexturePlan, TextureError>)
        ensures
            r is Ok <==> pixels_complete(*pixels),
            r matches Ok(plan) ==> plan == (TexturePlan {
                extent: Extent2D { width: pixels.width, height: pixels.height },
                staging_size: pixels.data@.len() as u64,
                format: FORMAT_R8G8B8A8_UNORM,
                usage: USAGE_TRANSFER_DST_SAMPLED,
                mip_levels: 1,
                memory_properties: MEMORY_DEVICE_LOCAL,
                sampler_filter: filter_code(filter),
            }),
            r matches Err(e) ==> e == if pixels.width == 0 || pixels.height == 0 {
                TextureError::Empty
            } else {
                TextureError::SizeMismatch
            },
    {
        if pixels.width == 0 || pixels.height == 0 {
            return Err(TextureError::Empty);
        }
        assert(pixels.width * pixels.height <= 0xffff_ffff * 0xffff_ffff) by (nonlinear_arith)
            requires
                pixels.width <= 0xffff_ffff,
                pixels.height <= 0xffff_ffff,
        ;
        let texels: u64 = pixels.width as u64 * pixels.height as u64;
        let data_len: u64 = pixels.data.len() as u64;
        if data_len % BYTES_PER_PIXEL != 0 || data_len / BYTES_PER_PIXEL != texels {
            return Err(TextureError::SizeMismatch);
        }
        Ok(
            TexturePlan {
                extent: Extent2D { width: pixels.width, height: pixels.height },
                staging_size: data_len,
                format: FORMAT_R8G8B8A8_UNORM,
                usage: USAGE_TRANSFER_DST_SAMPLED,
                mip_levels: 1,
                memory_properties: MEMORY_DEVICE_LOCAL,
                sampler_filter: filter.sampler_filter(),
            },
        )
    }

    /// Access masks, stages and aspect of a layout transition, for the
    /// transitions this engine makes; `None` for any other pair of layouts.
    pub fn barrier_scope(old_layout: ImageLayout, new_layout: ImageLayout) -> (r: Option<
        BarrierScope,
    >)
        ensures
            r == transition_scope(old_layout, new_layout),
    {
        match (old_layout, new_layout) {
            (ImageLayout::Undefined, ImageLayout::TransferDst) => Some(
                BarrierScope {
                    src_access_mask: 0,
                    dst_access_mask: ACCESS_TRANSFER_WRITE,
                    src_stage_mask: STAGE_BOTTOM_OF_PIPE,
                    dst_stage_mask: STAGE_TRANSFER,
                    aspect_mask: ASPECT_COLOR,
                },
            ),
            (ImageLayout::TransferDst, ImageLayout::ShaderReadOnly) => Some(
                BarrierScope {
                    src_access_mask: ACCESS_TRANSFER_WRITE,
                    dst_access_mask: ACCESS_SHADER_READ,
                    src_stage_mask: STAGE_TRANSFER,
                    dst_stage_mask: STAGE_FRAGMENT_SHADER,
                    aspect_mask: ASPECT_COLOR,
                },
            ),
            (ImageLayout::Undefined, ImageLayout::DepthStencilAttachment) => Some(
                BarrierScope {
                    src_access_mask: 0,
                    dst_access_mask: ACCESS_DEPTH_STENCIL_READ_WRITE,
                    src_stage_mask: STAGE_BOTTOM_OF_PIPE,
                    dst_stage_mask: STAGE_LATE_FRAGMENT_TESTS,
                    aspect_mask: ASPECT_DEPTH,
                },
            ),
            _ => None,
        }
    }

    /// The commands of the upload, in order.
    pub fn upload_commands(staging: u64, image: u64, extent: Extent2D) -> (r: Vec<TransferCommand>)
        ensures
            r@ == upload_sequence(staging, image, extent),
    {
        let mut commands: Vec<TransferCommand> = Vec::new();
        commands.push(
            TransferCommand::Barrier {
                image,
                old_layout: ImageLayout::Undefined,
                new_layout: ImageLayout::TransferDst,
            },
        );
        commands.push(TransferCommand::CopyBufferToImage { buffer: staging, image, extent });
        commands.push(
            TransferCommand::Barrier {
                image,
                old_layout: ImageLayout::TransferDst,
                new_layout: ImageLayout::ShaderReadOnly,
            },
        );
        assert(commands@ =~= upload_sequence(staging, image, extent));
        commands
    }

    /// The texture once its image is uploaded. The descriptor names the
    /// layout the upload leaves the image in; the staging buffer is kept.
    pub fn new(
        image_buffer: Buffer,
        texture_image: u64,
        allocation: u64,
        image_view: u64,
        sampler: u64,
    ) -> (r: Texture)
        ensures
            r.descriptor == (DescriptorImageInfo {
                image_layout: ImageLayout::ShaderReadOnly,
                image_view,
                sampler,
            }),
            r.image_buffer == image_buffer,
            r.texture_image == texture_image,
            r.allocation == allocation,
            r.image_view == image_view,
            r.sampler == sampler,
    {
        Texture {
            descriptor: DescriptorImageInfo {
                image_layout: ImageLayout::ShaderReadOnly,
                image_view,
                sampler,
            },
            image_buffer,
            image_view,
            allocation,
            texture_image,
            sampler,
        }
    }
}

/// The upload moves a fresh image through its layouts in order, each
/// exactly once: from undefined to transfer destination, the copy, and on
/// to shader-read-only, where it ends.
pub proof fn lemma_upload_layouts(staging: u64, image: u64, extent: Extent2D)
    ensures
        layout_after(image, ImageLayout::Undefined, upload_sequence(staging, image, extent))
            == Some(ImageLayout::ShaderReadOnly),
        layout_after(
            image,
            ImageLayout::Undefined,
            upload_sequence(staging, image, extent).subrange(0, 1),
        ) == Some(ImageLayout::TransferDst),
        transitions_into(
            image,
            ImageLayout::TransferDst,
            upload_sequence(staging, image, extent),
        ) == 1,
        transitions_into(
            image,
            ImageLayout::ShaderReadOnly,
            upload_sequence(staging, image, extent),
        ) == 1,
        forall|k: int|
            0 <= k < 3 ==> (#[trigger] upload_sequence(
                staging,
                image,
                extent,
            )[k] matches TransferCommand::Barrier { image: target, old_layout, new_layout }
                ==> transition_scope(old_layout, new_layout) is Some),
{
    let all = upload_sequence(staging, image, extent);
    let two = all.drop_last();
    let one = two.drop_last();
    let none = one.drop_last();
    assert(none.len() == 0);
    assert(one =~= all.subrange(0, 1));
    assert(layout_after(image, ImageLayout::Undefined, none) == Some(ImageLayout::Undefined));
    assert(layout_after(image, ImageLayout::Undefined, one) == Some(ImageLayout::TransferDst));
    assert(layout_after(image, ImageLayout::Undefined, two) == Some(ImageLayout::TransferDst));
    assert(transitions_into(image, ImageLayout::TransferDst, none) == 0);
    assert(transitions_into(image, ImageLayout::TransferDst, one) == 1);
    assert(transitions_into(image, ImageLayout::TransferDst, two) == 1);
    assert(transitions_into(image, ImageLayout::ShaderReadOnly, none) == 0);
    assert(transitions_into(image, ImageLayout::ShaderReadOnly, one) == 0);
    assert(transitions_into(image, ImageLayout::ShaderReadOnly, two) == 0);
}

} // verus!

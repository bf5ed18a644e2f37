//! The parameters of a swapchain, derived from what a surface reports.

use vstd::prelude::*;
use vulkano::format::Format;
use vulkano::swapchain::ColorSpace;
use vulkano::swapchain::CompositeAlpha;
use vulkano::swapchain::SurfaceTransform;
use crate::error::Error;

verus! {

/// `vulkano::format::Format`, the layout of a pixel. Values of it are handed
/// on as the surface reported them; nothing here looks inside one.
#[verifier::external_type_specification]
#[verifier::external_body]
pub struct ExFormat(Format);

/// `vulkano::swapchain::ColorSpace`, how the presentation engine reads pixel
/// values. Values of it are handed on as the surface reported them.
#[verifier::external_type_specification]
#[verifier::external_body]
pub struct ExColorSpace(ColorSpace);

/// `vulkano::swapchain::SurfaceTransform`, a rotation or mirroring applied on
/// presentation. Values of it are handed on as the surface reported them.
#[verifier::external_type_specification]
#[verifier::external_body]
pub struct ExSurfaceTransform(SurfaceTransform);

/// `vulkano::swapchain::CompositeAlpha`, how the compositor treats the alpha
/// channel. Values of it are handed on as the surface reported them.
#[verifier::external_type_specification]
#[verifier::external_body]
pub struct ExCompositeAlpha(CompositeAlpha);

/// The fewest images that allow double buffering.
pub const DOUBLE_BUFFERED: u32 = 2;

/// The width of swapchain images where the surface prescribes none.
pub const DEFAULT_WIDTH: u32 = 640;

/// The height of swapchain images where the surface prescribes none.
pub const DEFAULT_HEIGHT: u32 = 480;

/// The size of an image, in pixels.
#[derive(Clone, Copy, Debug, PartialEq, Eq, Structural)]
pub struct Extent {
    pub width: u32,
    pub height: u32,
}

/// What the images of a swapchain will be used for.
#[derive(Clone, Copy, Debug, PartialEq, Eq, Structural)]
pub struct ImageUsage {
    pub transfer_src: bool,
    pub transfer_dst: bool,
    pub sampled: bool,
    pub storage: bool,
    pub color_attachment: bool,
    pub depth_stencil_attachment: bool,
    pub transient_attachment: bool,
    pub input_attachment: bool,
}

impl ImageUsage {
    /// Use as a colour attachment, and no other use.
    pub open spec fn color_attachment_only() -> ImageUsage {
        ImageUsage {
            transfer_src: false,
            transfer_dst: false,
            sampled: false,
            storage: false,
            color_attachment: true,
            depth_stencil_attachment: false,
            transient_attachment: false,
            input_attachment: false,
        }
    }

    /// Use as a colour attachment, and no other use.
    pub fn color_attachment() -> (usage: ImageUsage)
        ensures
            usage == ImageUsage::color_attachment_only(),
    {
        ImageUsage {
            transfer_src: false,
            transfer_dst: false,
            sampled: false,
            storage: false,
            color_attachment: true,
            depth_stencil_attachment: false,
            transient_attachment: false,
            input_attachment: false,
        }
    }
}

/// What a surface reports to the device that is to present to it.
#[derive(Debug)]
pub struct SurfaceConstraints {
    /// The fewest images a swapchain may have.
    pub min_image_count: u32,
    /// The most images a swapchain may have; `None` where there is no limit.
    pub max_image_count: Option<u32>,
    /// The size the surface has now; `None` where the swapchain decides it.
    pub current_extent: Option<Extent>,
    /// The transform the surface applies now.
    pub current_transform: SurfaceTransform,
    /// The composite alpha modes the surface supports, in the order reported.
    pub supported_composite_alpha: Vec<CompositeAlpha>,
    /// The formats the surface supports, each with its colour space, in the
    /// order reported.
    pub supported_formats: Vec<(Format, ColorSpace)>,
}

/// The parameters with which a swapchain is created.
#[derive(Clone, Copy, Debug, PartialEq)]
pub struct SwapchainConfig {
    pub min_image_count: u32,
    pub image_format: Format,
    pub image_color_space: ColorSpace,
    pub image_extent: Extent,
    pub image_usage: ImageUsage,
    pub pre_transform: SurfaceTransform,
    pub composite_alpha: CompositeAlpha,
}

/// The number of images to ask for, given the fewest (`lo`) and the most
/// (`hi`) that the surface allows: two or `lo`, whichever is more, but no
/// more than `hi`.
pub open spec fn image_count(lo: u32, hi: Option<u32>) -> u32 {
    let target = if lo < DOUBLE_BUFFERED { DOUBLE_BUFFERED } else { lo };
    match hi {
        Some(limit) => if limit < target { limit } else { target },
        None => target,
    }
}

/// The number of images to ask for, given the fewest (`lo`) and the most
/// (`hi`) that the surface allows.
///
/// The engine wants double buffering, so it asks for at least two images and
/// for no fewer than the surface's minimum. The surface's maximum is applied
/// last and wins: where it is below two, fewer than two images are asked for.
pub fn min_image_count(lo: u32, hi: Option<u32>) -> (count: u32)
    ensures
        count == image_count(lo, hi),
{
    let target = if lo < DOUBLE_BUFFERED { DOUBLE_BUFFERED } else { lo };
    match hi {
        Some(limit) => if limit < target { limit } else { target },
        None => target,
    }
}

/// The image count never exceeds the surface's maximum. It is at least two
/// unless that maximum is below two, and at least the surface's minimum
/// unless that maximum is below the minimum.
pub proof fn image_count_respects_bounds(lo: u32, hi: Option<u32>)
    ensures
        hi matches Some(limit) ==> image_count(lo, hi) <= limit,
        (hi matches Some(limit) ==> limit >= 2) ==> image_count(lo, hi) >= 2,
        (hi matches Some(limit) ==> limit >= lo) ==> image_count(lo, hi) >= lo,
{
}

/// The extent of the swapchain's images: the surface's own where it has
/// one, and otherwise 640 by 480.
pub open spec fn extent_or_default(current: Option<Extent>) -> Extent {
    match current {
        Some(extent) => extent,
        None => Extent { width: DEFAULT_WIDTH, height: DEFAULT_HEIGHT },
    }
}

/// The extent of the swapchain's images: the surface's own where it has
/// one, and otherwise 640 by 480.
pub fn image_extent(current: Option<Extent>) -> (extent: Extent)
    ensures
        extent == extent_or_default(current),
        current matches Some(reported) ==> extent == reported,
        current is None ==> extent.width == 640 && extent.height == 480,
{
    match current {
        Some(extent) => extent,
        None => Extent { width: DEFAULT_WIDTH, height: DEFAULT_HEIGHT },
    }
}

/// The swapchain parameters that follow from `constraints`, or the failure
/// where the surface offers no composite alpha mode or no format.
pub open spec fn negotiated(constraints: SurfaceConstraints) -> Result<SwapchainConfig, Error> {
    if constraints.supported_composite_alpha@.len() == 0 || constraints.supported_formats@.len()
        == 0 {
        Err(Error::SurfaceCapabilityQueryFailure)
    } else {
        Ok(
            SwapchainConfig {
                min_image_count: image_count(
                    constraints.min_image_count,
                    constraints.max_image_count,
                ),
                image_format: constraints.supported_formats@[0].0,
                image_color_space: constraints.supported_formats@[0].1,
                image_extent: extent_or_default(constraints.current_extent),
                image_usage: ImageUsage::color_attachment_only(),
                pre_transform: constraints.current_transform,
                composite_alpha: constraints.supported_composite_alpha@[0],
            },
        )
    }
}

/// Derives the parameters of the swapchain from what the surface reports.
///
/// The image count and the extent are those of [`min_image_count`] and
/// [`image_extent`]. The first supported composite alpha mode and the first
/// supported format, with its colour space, are taken as reported. The
/// surface's current transform is kept, and the images serve as colour
/// attachments only. A surface that reports no composite alpha mode or no
/// format leaves nothing to choose, which is a failed capability query.
pub fn negotiate_swapchain(constraints: &SurfaceConstraints) -> (outcome: Result<
    SwapchainConfig,
    Error,
>)
    ensures
        outcome == negotiated(*constraints),
{
    if constraints.supported_composite_alpha.len() == 0 || constraints.supported_formats.len()
        == 0 {
        return Err(Error::SurfaceCapabilityQueryFailure);
    }
    let (image_format, image_color_space) = constraints.supported_formats[0];
    Ok(
        SwapchainConfig {
            min_image_count: min_image_count(
                constraints.min_image_count,
                constraints.max_image_count,
            ),
            image_format,
            image_color_space,
            image_extent: image_extent(constraints.current_extent),
            image_usage: ImageUsage::color_attachment(),
            pre_transform: constraints.current_transform,
            composite_alpha: constraints.supported_composite_alpha[0],
        },
    )
}

} // verus!

use sentinel::error::Error;
use sentinel::swapchain::image_extent;
use sentinel::swapchain::min_image_count;
use sentinel::swapchain::negotiate_swapchain;
use sentinel::swapchain::Extent;
use sentinel::swapchain::ImageUsage;
use sentinel::swapchain::SurfaceConstraints;
use sentinel::swapchain::SwapchainConfig;
use sentinel::swapchain::DEFAULT_HEIGHT;
use sentinel::swapchain::DEFAULT_WIDTH;
use sentinel::swapchain::DOUBLE_BUFFERED;
use vulkano::format::Format;
use vulkano::swapchain::ColorSpace;
use vulkano::swapchain::CompositeAlpha;
use vulkano::swapchain::SurfaceTransform;

fn constraints() -> SurfaceConstraints {
    SurfaceConstraints {
        min_image_count: 1,
        max_image_count: None,
        current_extent: Some(Extent { width: 1280, height: 720 }),
        current_transform: SurfaceTransform::Rotate90,
        supported_composite_alpha: vec![CompositeAlpha::PreMultiplied, CompositeAlpha::Opaque],
        supported_formats: vec![
            (Format::B8G8R8A8_SRGB, ColorSpace::SrgbNonLinear),
            (Format::R8G8B8A8_UNORM, ColorSpace::DisplayP3NonLinear),
        ],
    }
}

#[test]
fn unbounded_count_is_raised_to_two() {
    assert_eq!(min_image_count(1, None), 2);
    assert_eq!(min_image_count(0, None), 2);
    assert_eq!(min_image_count(2, None), 2);
}

#[test]
fn count_follows_a_minimum_above_two() {
    assert_eq!(min_image_count(3, None), 3);
    assert_eq!(min_image_count(3, Some(3)), 3);
    assert_eq!(min_image_count(3, Some(8)), 3);
    assert_eq!(min_image_count(u32::MAX, None), u32::MAX);
}

#[test]
fn count_is_two_where_the_maximum_allows() {
    assert_eq!(min_image_count(1, Some(2)), 2);
    assert_eq!(min_image_count(1, Some(3)), 2);
    assert_eq!(min_image_count(2, Some(u32::MAX)), 2);
}

#[test]
fn a_maximum_below_two_overrides_double_buffering() {
    assert_eq!(min_image_count(1, Some(1)), 1);
    assert_eq!(min_image_count(0, Some(0)), 0);
    assert_eq!(min_image_count(0, Some(1)), 1);
}

#[test]
fn a_maximum_below_the_minimum_wins() {
    assert_eq!(min_image_count(5, Some(3)), 3);
    assert_eq!(min_image_count(4, Some(1)), 1);
}

#[test]
fn count_stays_within_bounds_that_admit_two() {
    for lo in 0..6u32 {
        for hi in 2..8u32 {
            if hi >= lo {
                let count = min_image_count(lo, Some(hi));
                assert!(count >= 2);
                assert!(count >= lo);
                assert!(count <= hi);
            }
        }
        let count = min_image_count(lo, None);
        assert!(count >= 2);
        assert!(count >= lo);
    }
}

#[test]
fn policy_constants() {
    assert_eq!(DOUBLE_BUFFERED, 2);
    assert_eq!(DEFAULT_WIDTH, 640);
    assert_eq!(DEFAULT_HEIGHT, 480);
}

#[test]
fn a_reported_extent_is_kept() {
    let reported = Extent { width: 1920, height: 1080 };
    assert_eq!(image_extent(Some(reported)), reported);
    let empty = Extent { width: 0, height: 0 };
    assert_eq!(image_extent(Some(empty)), empty);
    let largest = Extent { width: u32::MAX, height: u32::MAX };
    assert_eq!(image_extent(Some(largest)), largest);
}

#[test]
fn an_undefined_extent_becomes_640_by_480() {
    assert_eq!(image_extent(None), Extent { width: 640, height: 480 });
}

#[test]
fn colour_attachment_is_the_only_usage() {
    let usage = ImageUsage::color_attachment();
    assert_eq!(
        usage,
        ImageUsage {
            transfer_src: false,
            transfer_dst: false,
            sampled: false,
            storage: false,
            color_attachment: true,
            depth_stencil_attachment: false,
            transient_attachment: false,
            input_attachment: false,
        }
    );
}

#[test]
fn negotiation_takes_the_first_of_what_is_offered() {
    let config = negotiate_swapchain(&constraints());
    assert_eq!(
        config,
        Ok(SwapchainConfig {
            min_image_count: 2,
            image_format: Format::B8G8R8A8_SRGB,
            image_color_space: ColorSpace::SrgbNonLinear,
            image_extent: Extent { width: 1280, height: 720 },
            image_usage: ImageUsage::color_attachment(),
            pre_transform: SurfaceTransform::Rotate90,
            composite_alpha: CompositeAlpha::PreMultiplied,
        })
    );
}

#[test]
fn negotiation_keeps_format_and_colour_space_together() {
    let mut reported = constraints();
    reported.supported_formats = vec![
        (Format::R8G8B8A8_UNORM, ColorSpace::DisplayP3NonLinear),
        (Format::B8G8R8A8_SRGB, ColorSpace::SrgbNonLinear),
    ];
    reported.supported_composite_alpha = vec![CompositeAlpha::Inherit];
    reported.current_transform = SurfaceTransform::Identity;
    let config = negotiate_swapchain(&reported).unwrap();
    assert_eq!(config.image_format, Format::R8G8B8A8_UNORM);
    assert_eq!(config.image_color_space, ColorSpace::DisplayP3NonLinear);
    assert_eq!(config.composite_alpha, CompositeAlpha::Inherit);
    assert_eq!(config.pre_transform, SurfaceTransform::Identity);
}

#[test]
fn negotiation_applies_the_count_and_extent_policies() {
    let mut reported = constraints();
    reported.min_image_count = 3;
    reported.max_image_count = Some(3);
    reported.current_extent = None;
    let config = negotiate_swapchain(&reported).unwrap();
    assert_eq!(config.min_image_count, 3);
    assert_eq!(config.image_extent, Extent { width: 640, height: 480 });
    reported.min_image_count = 1;
    reported.max_image_count = Some(1);
    assert_eq!(negotiate_swapchain(&reported).unwrap().min_image_count, 1);
}

#[test]
fn no_composite_alpha_mode_is_a_failed_query() {
    let mut reported = constraints();
    reported.supported_composite_alpha = vec![];
    assert_eq!(negotiate_swapchain(&reported), Err(Error::SurfaceCapabilityQueryFailure));
}

#[test]
fn no_format_is_a_failed_query() {
    let mut reported = constraints();
    reported.supported_formats = vec![];
    assert_eq!(negotiate_swapchain(&reported), Err(Error::SurfaceCapabilityQueryFailure));
}

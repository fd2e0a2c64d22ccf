use image::DynamicImage;
use rust_lambda_image_uploader::geometry::{plan, thumbnail_size, TransformPlan, MAX_IMAGE_SIZE};
use rust_lambda_image_uploader::ImageMetadata;

fn geometry(x1: u32, y1: u32, portrait_width: u32, portrait_hight: u32) -> ImageMetadata {
    ImageMetadata { portrait_hight, portrait_width, x1, y1 }
}

#[test]
fn rectangle_inside_the_image_fits() {
    assert!(geometry(50, 50, 200, 200).fits_within(800, 600));
    assert!(geometry(0, 0, 800, 600).fits_within(800, 600));
    assert!(geometry(600, 400, 200, 200).fits_within(800, 600));
    assert!(geometry(800, 600, 0, 0).fits_within(800, 600));
    assert!(geometry(0, 0, 0, 0).fits_within(0, 0));
}

#[test]
fn rectangle_that_reaches_outside_does_not_fit() {
    assert!(!geometry(250, 250, 200, 200).fits_within(300, 300));
    assert!(!geometry(601, 0, 200, 200).fits_within(800, 600));
    assert!(!geometry(0, 401, 200, 200).fits_within(800, 600));
    assert!(!geometry(0, 0, 801, 600).fits_within(800, 600));
    assert!(!geometry(0, 0, 800, 601).fits_within(800, 600));
    assert!(!geometry(801, 0, 0, 0).fits_within(800, 600));
    assert!(!geometry(0, 0, 1, 1).fits_within(0, 0));
}

#[test]
fn bounds_check_does_not_wrap() {
    let max = u32::MAX;
    // In 32 bits each of these sums would wrap to a small number.
    assert!(!geometry(max, 0, 1, 1).fits_within(800, 600));
    assert!(!geometry(0, max, 1, 1).fits_within(800, 600));
    assert!(!geometry(max, max, max, max).fits_within(max, max));
    assert!(!geometry(1, 0, max, 1).fits_within(max, max));
    assert!(!geometry(max - 10, 0, 20, 1).fits_within(9, 600));
    assert!(!geometry(0, 2, 1, max - 1).fits_within(max, 0));
    assert!(geometry(0, 0, max, max).fits_within(max, max));
    assert!(geometry(max, max, 0, 0).fits_within(max, max));
    assert!(geometry(max - 1, 1, 1, max - 1).fits_within(max, max));
}

#[test]
fn size_that_fits_is_kept() {
    assert_eq!(MAX_IMAGE_SIZE, 400);
    for size in [(300, 300), (400, 400), (1, 1), (400, 1), (1, 400), (0, 0), (0, 400), (399, 400)] {
        assert_eq!(thumbnail_size(size.0, size.1), size);
    }
}

#[test]
fn larger_size_is_scaled_in_proportion() {
    assert_eq!(thumbnail_size(800, 600), (400, 300));
    assert_eq!(thumbnail_size(600, 800), (300, 400));
    assert_eq!(thumbnail_size(401, 401), (400, 400));
    assert_eq!(thumbnail_size(1000, 500), (400, 200));
    assert_eq!(thumbnail_size(401, 400), (400, 399));
    assert_eq!(thumbnail_size(400, 401), (399, 400));
    assert_eq!(thumbnail_size(4000, 3000), (400, 300));
    assert_eq!(thumbnail_size(1920, 1080), (400, 225));
    assert_eq!(thumbnail_size(u32::MAX, u32::MAX), (400, 400));
    assert_eq!(thumbnail_size(u32::MAX, 1), (400, 1));
    assert_eq!(thumbnail_size(1, u32::MAX), (1, 400));
}

#[test]
fn scaled_side_is_rounded_to_the_nearest() {
    // 333 * 400 / 1000 = 133.2
    assert_eq!(thumbnail_size(1000, 333), (400, 133));
    // 334 * 400 / 1000 = 133.6
    assert_eq!(thumbnail_size(1000, 334), (400, 134));
    // 1 * 400 / 800 = 0.5, a half goes up
    assert_eq!(thumbnail_size(800, 1), (400, 1));
    // 3 * 400 / 800 = 1.5
    assert_eq!(thumbnail_size(800, 3), (400, 2));
    // 5 * 400 / 1600 = 1.25
    assert_eq!(thumbnail_size(5, 1600), (1, 400));
}

#[test]
fn side_with_pixels_keeps_one() {
    assert_eq!(thumbnail_size(4000, 3), (400, 1));
    assert_eq!(thumbnail_size(3, 4000), (1, 400));
    assert_eq!(thumbnail_size(u32::MAX, 2), (400, 1));
    assert_eq!(thumbnail_size(0, 800), (0, 400));
    assert_eq!(thumbnail_size(800, 0), (400, 0));
}

#[test]
fn result_never_exceeds_the_bound_nor_the_source() {
    let sides = [0, 1, 2, 3, 199, 200, 399, 400, 401, 402, 799, 800, 801, 1234, 65535, 65536,
        1 << 20, u32::MAX - 1, u32::MAX];
    for &width in &sides {
        for &height in &sides {
            let (w, h) = thumbnail_size(width, height);
            assert!(w <= MAX_IMAGE_SIZE && h <= MAX_IMAGE_SIZE, "{width} {height}");
            assert!(w <= width && h <= height, "{width} {height}");
            assert_eq!(w == 0, width == 0, "{width} {height}");
            assert_eq!(h == 0, height == 0, "{width} {height}");
            if width <= MAX_IMAGE_SIZE && height <= MAX_IMAGE_SIZE {
                assert_eq!((w, h), (width, height));
            } else {
                assert!(w == MAX_IMAGE_SIZE || h == MAX_IMAGE_SIZE, "{width} {height}");
            }
        }
    }
}

#[test]
fn scaling_down_agrees_with_the_thumbnail_of_the_image_crate() {
    for (width, height) in [(800, 600), (600, 800), (1000, 333), (1000, 334), (401, 401),
        (1920, 1080), (401, 7), (7, 401), (1234, 777), (999, 1000), (4000, 3)]
    {
        let scaled = DynamicImage::new_rgb8(width, height).thumbnail(MAX_IMAGE_SIZE, MAX_IMAGE_SIZE);
        assert_eq!(
            thumbnail_size(width, height),
            (scaled.width(), scaled.height()),
            "{width} {height}"
        );
    }
}

#[test]
fn plan_crops_a_rectangle_that_fits() {
    assert_eq!(
        plan(&geometry(50, 50, 200, 200), 800, 600),
        TransformPlan { crop: true, width: 200, height: 200 }
    );
    assert_eq!(
        plan(&geometry(0, 0, 800, 600), 800, 600),
        TransformPlan { crop: true, width: 400, height: 300 }
    );
    assert_eq!(
        plan(&geometry(100, 100, 0, 10), 800, 600),
        TransformPlan { crop: true, width: 0, height: 10 }
    );
}

#[test]
fn plan_falls_back_to_the_whole_image() {
    assert_eq!(
        plan(&geometry(250, 250, 200, 200), 300, 300),
        TransformPlan { crop: false, width: 300, height: 300 }
    );
    assert_eq!(
        plan(&geometry(700, 0, 200, 200), 800, 600),
        TransformPlan { crop: false, width: 400, height: 300 }
    );
}

#[test]
fn fallback_plan_ignores_the_geometry() {
    let fallback = TransformPlan { crop: false, width: 400, height: 200 };
    for g in [
        geometry(900, 0, 200, 100),
        geometry(0, 0, 1001, 1),
        geometry(0, 0, 1, 501),
        geometry(u32::MAX, u32::MAX, u32::MAX, u32::MAX),
        geometry(1000, 500, 1, 1),
    ] {
        assert_eq!(plan(&g, 1000, 500), fallback);
    }
}

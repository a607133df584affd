use std::sync::Arc;

use j3pic::display::{display_pixel_source, display_pixels, prepare_display_pixels};
use j3pic::export::{ExportFormat, ExportOptions, SupportedImageFormat};
use j3pic::export_request::{
    begin_current_image_export, prepare_export_pixels, ExportPixelsError, ImageExportRequest, ImageExportSource,
};
use j3pic::geometry::{ImageOrientation, ImageRotation, ImageSize};
use j3pic::loaded::{ImageMetadata, ImageState, LoadedImage};
use j3pic::pixels::{PixelImage, Rgba8Image};
use j3pic::render_cache::RenderCache;
use j3pic::resample::ExportResizeError;
use j3pic::settings::RgbColor;

fn test_rgba8_image(width: u32, height: u32) -> Rgba8Image {
    let pixels = (0..width * height)
        .flat_map(|index| {
            let value = index as u8;
            [value, value, value, 255]
        })
        .collect::<Vec<_>>();
    Rgba8Image::new(width, height, pixels)
}

fn test_image(name: &str, width: u32, height: u32) -> ImageState {
    ImageState::Loaded(LoadedImage::new(
        test_rgba8_image(width, height),
        ImageMetadata::new(name.to_owned(), 1, SupportedImageFormat::Png),
    ))
}

fn png() -> ExportOptions {
    ExportOptions::new(ExportFormat::Png, None)
}

#[test]
fn begin_export_shares_cached_display_orientation_when_available() {
    let state = Arc::new(test_image("cached-export.png", 3, 2));
    let mut render = RenderCache::new();
    assert_eq!(prepare_display_pixels(&state, ImageRotation::Degrees90, 1, &mut render, 0), Some(true));
    let cached_pixels = display_pixels(&state, ImageRotation::Degrees90, 1, &render)
        .expect("display image")
        .pixels()
        .as_ptr();

    let request = begin_current_image_export(
        &state,
        ImageRotation::Degrees90,
        1,
        &render,
        RgbColor::white(),
        "cached-export.png",
        png(),
    )
    .expect("export request");

    assert_eq!(request.orientation(), ImageOrientation::NORMAL);
    let shared_pixels = match request.source() {
        ImageExportSource::SharedPixels(pixels) => pixels,
        ImageExportSource::SharedImageState(_) => panic!("shared cache pixels"),
    };
    assert_eq!(shared_pixels.size(), ImageSize::new(2, 3));
    assert_eq!(shared_pixels.pixels().as_ptr(), cached_pixels);
    let retained_pixels = render
        .oriented_image(1, ImageSize::new(3, 2), ImageOrientation::Rotate90)
        .expect("retained oriented cache");
    assert_eq!(retained_pixels.pixels().as_ptr(), cached_pixels);
}

#[test]
fn begin_export_keeps_orientation_fallback_when_display_cache_is_missing() {
    let state = Arc::new(test_image("uncached-export.png", 3, 2));
    let render = RenderCache::new();

    let request = begin_current_image_export(
        &state,
        ImageRotation::Degrees90,
        1,
        &render,
        RgbColor::white(),
        "uncached-export.png",
        png(),
    )
    .expect("export request");

    assert_eq!(request.orientation(), ImageOrientation::Rotate90);
    match request.source() {
        ImageExportSource::SharedImageState(shared) => match shared.as_ref() {
            ImageState::Loaded(image) => assert_eq!(image.pixels().size(), ImageSize::new(3, 2)),
            ImageState::Empty => panic!("shared image state"),
        },
        ImageExportSource::SharedPixels(_) => panic!("shared image state"),
    }
    assert_eq!(request.path(), "uncached-export.png");
    assert_eq!(request.options().jpeg_alpha_background_rgb(), RgbColor::white());

    let exported = request.export_pixels().expect("export pixels");
    assert_eq!(exported.size(), ImageSize::new(2, 3));
}

#[test]
fn borrowed_export_pixels_are_reused_when_resize_is_noop() {
    let pixels = PixelImage::from(test_rgba8_image(3, 2));
    let source_ptr = pixels.pixels().as_ptr();

    let without_target = prepare_export_pixels("noop-export.png", &pixels, ImageOrientation::NORMAL, png())
        .expect("prepare export pixels");
    assert_eq!(without_target.pixels().as_ptr(), source_ptr);

    let same_size = prepare_export_pixels(
        "noop-export.png",
        &pixels,
        ImageOrientation::NORMAL,
        png().with_target_size(Some(pixels.size())),
    )
    .expect("prepare export pixels");
    assert_eq!(same_size.pixels().as_ptr(), source_ptr);
}

#[test]
fn export_pixels_are_oriented_then_resized() {
    let pixels = PixelImage::from(test_rgba8_image(3, 2));
    let rotated = prepare_export_pixels("rotated.png", &pixels, ImageOrientation::Rotate90, png())
        .expect("oriented pixels");
    assert_eq!(rotated.size(), ImageSize::new(2, 3));
    assert_eq!(&rotated.pixels()[0..4], &[3, 3, 3, 255]);

    let resized = prepare_export_pixels(
        "resized.png",
        &pixels,
        ImageOrientation::Rotate90,
        png().with_target_size(Some(ImageSize::new(4, 6))),
    )
    .expect("resized pixels");
    assert_eq!(resized.size(), ImageSize::new(4, 6));

    let broken = PixelImage::new(3, 2, vec![0u8; 5], j3pic::geometry::PixelFormat::Rgba8);
    let failed = prepare_export_pixels("broken.png", &broken, ImageOrientation::Rotate90, png());
    assert_eq!(failed, Err(ExportResizeError::AllocationFailed { path: "broken.png".to_owned() }));
}

#[test]
fn exporting_without_an_image_has_nothing_to_write() {
    let state = Arc::new(ImageState::Empty);
    let render = RenderCache::new();
    assert!(begin_current_image_export(&state, ImageRotation::Degrees0, 1, &render, RgbColor::white(), "x.png", png())
        .is_none());
    let request = ImageExportRequest::new(
        "x.png".to_owned(),
        ImageExportSource::SharedImageState(state),
        ImageOrientation::NORMAL,
        png(),
    );
    assert_eq!(request.export_pixels(), Err(ExportPixelsError::NoImageToExport));
}

#[test]
fn display_pixel_source_keeps_orientation_without_building_display_cache() {
    let state = test_image("copy-source.png", 3, 2);
    let render = RenderCache::new();
    let source_pixels = match &state {
        ImageState::Loaded(image) => image.pixels().pixels().as_ptr(),
        ImageState::Empty => panic!("test image should be loaded"),
    };
    let source = display_pixel_source(&state, ImageRotation::Degrees90, 1, &render)
        .expect("display pixel source for clipboard");

    assert_eq!(source.orientation(), ImageOrientation::Rotate90);
    assert_eq!(source.pixels().size(), ImageSize::new(3, 2));
    assert_eq!(source.pixels().pixels().as_ptr(), source_pixels);
    assert!(!render.has_oriented_image());
}

#[test]
fn display_pixel_source_reuses_cached_display_orientation() {
    let state = test_image("cached-copy-source.png", 3, 2);
    let mut render = RenderCache::new();
    assert_eq!(prepare_display_pixels(&state, ImageRotation::Degrees90, 1, &mut render, 0), Some(true));
    let cached_pixels = display_pixels(&state, ImageRotation::Degrees90, 1, &render)
        .expect("cached display pixels")
        .pixels()
        .as_ptr();
    let source = display_pixel_source(&state, ImageRotation::Degrees90, 1, &render)
        .expect("display pixel source for clipboard");

    assert_eq!(source.orientation(), ImageOrientation::NORMAL);
    assert_eq!(source.pixels().size(), ImageSize::new(2, 3));
    assert_eq!(source.pixels().pixels().as_ptr(), cached_pixels);
}

//! A request to export the shown image: what it is taken from (the shown
//! image, or the upright copy already in the render cache), the orientation
//! still to apply, and the options; and the pixels such an export writes.
use std::sync::Arc;
use vstd::prelude::*;

use crate::cache_policy::{current_display_orientation, shown_orientation};
use crate::export::ExportOptions;
use crate::geometry::{ImageOrientation, ImageRotation, ImageSize};
use crate::loaded::ImageState;
use crate::pixels::{orient_pixel_image, orients_to, PixelImage};
use crate::render_cache::{oriented_matches, OrientedImageCacheKey, RenderCache};
use crate::resample::{export_resized, resize_export_pixels, resize_fits, ExportResizeError};
use crate::settings::RgbColor;
use crate::shared::share;

verus! {

broadcast use {ImageSize::lemma_spec_new, ImageSize::lemma_swapped};

/// Where exported pixels come from: the shown image, or a copy that is
/// already upright.
pub enum ImageExportSource {
    SharedImageState(Arc<ImageState>),
    SharedPixels(Arc<PixelImage>),
}

/// A request to export to `path`: the source, the orientation to apply to
/// it, and the options.
pub struct ImageExportRequest {
    path: String,
    source: ImageExportSource,
    orientation: ImageOrientation,
    options: ExportOptions,
}

/// Why an export has no pixels to write.
#[derive(Debug, Clone, PartialEq, Eq)]
pub enum ExportPixelsError {
    /// No image is shown.
    NoImageToExport,
    /// The pixels could not be oriented or resized.
    Resize(ExportResizeError),
}

impl ImageExportRequest {
    pub closed spec fn spec_path(&self) -> Seq<char> {
        self.path@
    }

    pub closed spec fn spec_source(&self) -> ImageExportSource {
        self.source
    }

    pub closed spec fn spec_orientation(&self) -> ImageOrientation {
        self.orientation
    }

    pub closed spec fn spec_options(&self) -> ExportOptions {
        self.options
    }

    pub fn new(path: String, source: ImageExportSource, orientation: ImageOrientation, options: ExportOptions) -> (request: Self)
        ensures
            request.spec_path() == path@,
            request.spec_source() == source,
            request.spec_orientation() == orientation,
            request.spec_options() == options,
    {
        Self { path, source, orientation, options }
    }

    pub fn path(&self) -> (path: &str)
        ensures
            path@ == self.spec_path(),
    {
        self.path.as_str()
    }

    pub fn options(&self) -> (options: ExportOptions)
        ensures
            options == self.spec_options(),
    {
        self.options
    }

    pub fn orientation(&self) -> (orientation: ImageOrientation)
        ensures
            orientation == self.spec_orientation(),
    {
        self.orientation
    }

    pub fn source(&self) -> (source: &ImageExportSource)
        ensures
            *source == self.spec_source(),
    {
        &self.source
    }

    /// The pixels this export writes (see [`prepare_export_pixels`]), with
    /// the request's orientation followed by the rotation of the options;
    /// none when the source is the shown image and no image is shown.
    pub fn export_pixels(&self) -> (result: Result<PixelImage, ExportPixelsError>)
        requires
            source_resize_fits(self.spec_source(), self.spec_options()),
        ensures
            match source_pixels(self.spec_source()) {
                None => result == Err::<PixelImage, ExportPixelsError>(ExportPixelsError::NoImageToExport),
                Some(pixels) => exported(
                    self.spec_path(),
                    pixels,
                    self.spec_orientation().then_rotation(self.spec_options().rotation()),
                    self.spec_options(),
                    result,
                ),
            },
    {
        let orientation = self.orientation.then_rotation(self.options.rotation());
        let outcome = match &self.source {
            ImageExportSource::SharedImageState(state) => match &**state {
                ImageState::Loaded(image) => prepare_export_pixels(
                    self.path.as_str(),
                    image.pixels(),
                    orientation,
                    self.options,
                ),
                ImageState::Empty => return Err(ExportPixelsError::NoImageToExport),
            },
            ImageExportSource::SharedPixels(pixels) => prepare_export_pixels(
                self.path.as_str(),
                &**pixels,
                orientation,
                self.options,
            ),
        };
        match outcome {
            Ok(pixels) => Ok(pixels),
            Err(error) => Err(ExportPixelsError::Resize(error)),
        }
    }
}

/// The pixels a source holds: those of the shown image, if any, or the copy.
pub open spec fn source_pixels(source: ImageExportSource) -> Option<PixelImage> {
    match source {
        ImageExportSource::SharedImageState(state) => match *state {
            ImageState::Loaded(image) => Some(image.spec_pixels()),
            ImageState::Empty => None,
        },
        ImageExportSource::SharedPixels(pixels) => Some(*pixels),
    }
}

/// Whether resizing any orientation of `pixels` to the target of `options`
/// fits in memory.
pub open spec fn export_resize_fits(pixels: PixelImage, options: ExportOptions) -> bool {
    options.target_size() matches Some(t) ==> (resize_fits(pixels.width(), t.width(), t.height(), 4) && resize_fits(
        pixels.height(),
        t.width(),
        t.height(),
        4,
    ))
}

/// Whether resizing the pixels of a source for an export fits in memory.
pub open spec fn source_resize_fits(source: ImageExportSource, options: ExportOptions) -> bool {
    source_pixels(source) matches Some(pixels) ==> export_resize_fits(pixels, options)
}

/// Whether `result` is what an export of `pixels` in `orientation` with
/// `options` writes: drawn as stored, the pixels resized as the options ask;
/// otherwise the pixels are oriented first, which fails when the oriented
/// copy cannot be made.
pub open spec fn exported(
    path: Seq<char>,
    pixels: PixelImage,
    orientation: ImageOrientation,
    options: ExportOptions,
    result: Result<PixelImage, ExportPixelsError>,
) -> bool {
    if orientation.is_identity() {
        exists|resized: Result<PixelImage, ExportResizeError>|
            #![trigger export_resized(path, pixels, options, resized)]
            export_resized(path, pixels, options, resized) && result == lift(resized)
    } else {
        ||| (result matches Err(ExportPixelsError::Resize(ExportResizeError::AllocationFailed { path: p })) && p@
            == path)
        ||| exists|oriented: PixelImage, resized: Result<PixelImage, ExportResizeError>|
            #![trigger export_resized(path, oriented, options, resized)]
            pixels.is_valid() && oriented.pixel_format() == pixels.pixel_format() && orients_to(
                pixels.bytes(),
                pixels.spec_size(),
                pixels.pixel_format(),
                orientation,
                oriented.spec_size(),
                oriented.bytes(),
            ) && export_resized(path, oriented, options, resized) && result == lift(resized)
    }
}

/// A resize result as an export result.
pub open spec fn lift(resized: Result<PixelImage, ExportResizeError>) -> Result<PixelImage, ExportPixelsError> {
    match resized {
        Ok(p) => Ok(p),
        Err(e) => Err(ExportPixelsError::Resize(e)),
    }
}

/// The pixels an export of `pixels` in `orientation` writes (see [`exported`]).
pub fn prepare_export_pixels(
    path: &str,
    pixels: &PixelImage,
    orientation: ImageOrientation,
    options: ExportOptions,
) -> (result: Result<PixelImage, ExportResizeError>)
    requires
        export_resize_fits(*pixels, options),
    ensures
        exported(path@, *pixels, orientation, options, lift(result)),
{
    if orientation.is_identity() {
        let owned = pixels.clone();
        proof {
            assert(owned == *pixels);
        }
        let resized = resize_export_pixels(path, owned, options);
        return resized;
    }
    let oriented = match orient_pixel_image(pixels, orientation) {
        Some(oriented) => oriented,
        None => return Err(ExportResizeError::AllocationFailed { path: path.to_string() }),
    };
    proof {
        assert(pixels.is_valid());
        assert(oriented.spec_size() == pixels.spec_size().oriented(orientation));
        assert(oriented.spec_size().width() == oriented.spec_width());
        assert(pixels.spec_size().swapped().width() == pixels.spec_height());
    }
    let resized = resize_export_pixels(path, oriented, options);
    resized
}

/// The request to export the shown image to `path`: none without an image.
/// When the upright copy the shown image needs is in the render cache, the
/// export shares it and applies no further orientation; otherwise it shares
/// the shown image and applies its display orientation. The options get the
/// JPEG background colour of the settings.
pub fn begin_current_image_export(
    state: &Arc<ImageState>,
    user_rotation: ImageRotation,
    image_revision: u64,
    render: &RenderCache,
    jpeg_alpha_background_rgb: RgbColor,
    path: &str,
    options: ExportOptions,
) -> (request: Option<ImageExportRequest>)
    ensures
        match **state {
            ImageState::Empty => request is None,
            ImageState::Loaded(image) => request matches Some(r) && r.spec_path() == path@ && r.spec_options()
                == options.spec_with_jpeg_alpha_background_rgb(jpeg_alpha_background_rgb) && {
                let orientation = image.spec_metadata().exif_orientation().then_rotation(user_rotation);
                let key = OrientedImageCacheKey { image_revision, source_size: image.spec_pixels().spec_size(), orientation };
                match render.oriented() {
                    Some(cache) => if oriented_matches(cache, key) {
                        r.spec_source() == ImageExportSource::SharedPixels(cache.pixels) && r.spec_orientation()
                            == ImageOrientation::Normal
                    } else {
                        r.spec_source() == ImageExportSource::SharedImageState(*state) && r.spec_orientation()
                            == orientation
                    },
                    None => r.spec_source() == ImageExportSource::SharedImageState(*state) && r.spec_orientation()
                        == orientation,
                }
            },
        },
{
    let orientation = match current_display_orientation(&**state, user_rotation) {
        Some(orientation) => orientation,
        None => return None,
    };
    let source_size = match &**state {
        ImageState::Loaded(image) => image.pixels().size(),
        ImageState::Empty => return None,
    };
    let options = options.with_jpeg_alpha_background_rgb(jpeg_alpha_background_rgb);
    match render.shared_oriented_image(image_revision, source_size, orientation) {
        Some(pixels) => Some(
            ImageExportRequest::new(
                path.to_string(),
                ImageExportSource::SharedPixels(pixels),
                ImageOrientation::Normal,
                options,
            ),
        ),
        None => Some(
            ImageExportRequest::new(
                path.to_string(),
                ImageExportSource::SharedImageState(share(state)),
                orientation,
                options,
            ),
        ),
    }
}

} // verus!

//! Resizing pixels with the `image` crate: for display at a chosen quality,
//! and for export at the requested size.
use image::imageops::{resize, FilterType};
use image::{ImageBuffer, Rgb, Rgba};
use vstd::prelude::*;

use crate::export::ExportOptions;
use crate::geometry::{pixel_byte_len_spec, ImageSize, PixelFormat, ScalingQuality};
use crate::pixels::{bgra_to_rgba, PixelImage, Rgb8Image, Rgba8Image};

verus! {

broadcast use ImageSize::lemma_spec_new;

/// The resampling filters the viewer uses.
#[derive(Debug, Clone, Copy, PartialEq, Eq, Structural)]
pub enum ResampleFilter {
    Nearest,
    Triangle,
    Lanczos3,
}

/// The filter for a scaling quality: nearest neighbour, linear, or Lanczos.
pub fn filter_type_for_quality(quality: ScalingQuality) -> (filter: ResampleFilter)
    ensures
        filter == (match quality {
            ScalingQuality::Nearest => ResampleFilter::Nearest,
            ScalingQuality::Balanced => ResampleFilter::Triangle,
            ScalingQuality::HighQuality => ResampleFilter::Lanczos3,
        }),
{
    match quality {
        ScalingQuality::Nearest => ResampleFilter::Nearest,
        ScalingQuality::Balanced => ResampleFilter::Triangle,
        ScalingQuality::HighQuality => ResampleFilter::Lanczos3,
    }
}

/// What `image::imageops::resize` gives for an 8-bit RGB buffer of
/// `width` x `height` resized to `new_width` x `new_height` with `filter`.
pub uninterp spec fn resized_rgb8_pixels(
    source: Seq<u8>,
    width: u32,
    height: u32,
    new_width: u32,
    new_height: u32,
    filter: ResampleFilter,
) -> Seq<u8>;

/// What `image::imageops::resize` gives for an 8-bit RGBA buffer of
/// `width` x `height` resized to `new_width` x `new_height` with `filter`.
pub uninterp spec fn resized_rgba8_pixels(
    source: Seq<u8>,
    width: u32,
    height: u32,
    new_width: u32,
    new_height: u32,
    filter: ResampleFilter,
) -> Seq<u8>;

/// Whether `image::imageops::resize` can hold its buffers for a source `width`
/// wide resized to `new_width` x `new_height` with `channels` channels: the
/// intermediate `f32` RGBA image of `width` x `new_height` and the output.
pub open spec fn resize_fits(width: u32, new_width: u32, new_height: u32, channels: int) -> bool {
    &&& width * new_height * 16 <= isize::MAX
    &&& new_width * new_height * channels <= isize::MAX
}

/// Calls `image::imageops::resize` on an 8-bit RGB buffer that holds exactly
/// `width` x `height` pixels, so `ImageBuffer::from_raw` accepts it. The
/// result holds `new_width` x `new_height` pixels; the source shows the empty
/// and the unchanged sizes handled without resampling.
#[verifier::external_body]
fn resize_rgb8_buffer(
    source: &[u8],
    width: u32,
    height: u32,
    new_width: u32,
    new_height: u32,
    filter: ResampleFilter,
) -> (resized: Vec<u8>)
    requires
        source@.len() == width * height * 3,
        resize_fits(width, new_width, new_height, 3),
    ensures
        resized@ == resized_rgb8_pixels(source@, width, height, new_width, new_height, filter),
        resized@.len() == new_width * new_height * 3,
{
    let filter = match filter {
        ResampleFilter::Nearest => FilterType::Nearest,
        ResampleFilter::Triangle => FilterType::Triangle,
        ResampleFilter::Lanczos3 => FilterType::Lanczos3,
    };
    match ImageBuffer::<Rgb<u8>, &[u8]>::from_raw(width, height, source) {
        Some(image) => resize(&image, new_width, new_height, filter).into_raw(),
        None => Vec::new(),
    }
}

/// Calls `image::imageops::resize` on an 8-bit RGBA buffer that holds exactly
/// `width` x `height` pixels; the result holds `new_width` x `new_height` pixels.
#[verifier::external_body]
fn resize_rgba8_buffer(
    source: &[u8],
    width: u32,
    height: u32,
    new_width: u32,
    new_height: u32,
    filter: ResampleFilter,
) -> (resized: Vec<u8>)
    requires
        source@.len() == width * height * 4,
        resize_fits(width, new_width, new_height, 4),
    ensures
        resized@ == resized_rgba8_pixels(source@, width, height, new_width, new_height, filter),
        resized@.len() == new_width * new_height * 4,
{
    let filter = match filter {
        ResampleFilter::Nearest => FilterType::Nearest,
        ResampleFilter::Triangle => FilterType::Triangle,
        ResampleFilter::Lanczos3 => FilterType::Lanczos3,
    };
    match ImageBuffer::<Rgba<u8>, &[u8]>::from_raw(width, height, source) {
        Some(image) => resize(&image, new_width, new_height, filter).into_raw(),
        None => Vec::new(),
    }
}

/// Whether `pixels` resized to `target` holds `format` pixels that it describes.
pub open spec fn is_resized(
    resized: PixelImage,
    target: ImageSize,
    format: PixelFormat,
    source: Seq<u8>,
    width: u32,
    height: u32,
    filter: ResampleFilter,
) -> bool {
    &&& resized.pixel_format() == format
    &&& resized.width() == target.width()
    &&& resized.height() == target.height()
    &&& resized.bytes() == (if format == PixelFormat::Rgb8 {
        resized_rgb8_pixels(source, width, height, target.width(), target.height(), filter)
    } else {
        resized_rgba8_pixels(source, width, height, target.width(), target.height(), filter)
    })
}

/// The buffers a resize of `source` to `target` needs fit in memory.
pub open spec fn resize_of_fits(source: PixelImage, target: ImageSize) -> bool {
    resize_fits(source.width(), target.width(), target.height(), 4)
}

/// Whether the buffers of resizing `source` to `target` can be held (see
/// [`resize_of_fits`]).
pub fn resize_of_source_fits(source: &PixelImage, target: ImageSize) -> (fits: bool)
    ensures
        fits == resize_of_fits(*source, target),
{
    let width = source.width() as u128;
    let new_width = target.width() as u128;
    let new_height = target.height() as u128;
    assert(width * new_height <= 0xffff_ffff * 0xffff_ffff) by (nonlinear_arith)
        requires
            width <= 0xffff_ffff,
            new_height <= 0xffff_ffff,
    ;
    assert(new_width * new_height <= 0xffff_ffff * 0xffff_ffff) by (nonlinear_arith)
        requires
            new_width <= 0xffff_ffff,
            new_height <= 0xffff_ffff,
    ;
    let limit = isize::MAX as u128;
    width * new_height * 16 <= limit && new_width * new_height * 4 <= limit
}

/// `source` resized to `target` with `filter`: RGB stays RGB, RGBA and BGRA
/// become RGBA. None when the buffer does not hold exactly one pixel per
/// position.
pub open spec fn resampled(source: PixelImage, target: ImageSize, filter: ResampleFilter, resized: PixelImage) -> bool {
    let w = source.width();
    let h = source.height();
    match source {
        PixelImage::Rgb8(_) => is_resized(resized, target, PixelFormat::Rgb8, source.bytes(), w, h, filter),
        PixelImage::Rgba8(_) => is_resized(resized, target, PixelFormat::Rgba8, source.bytes(), w, h, filter),
        PixelImage::Bgra8(_) => is_resized(
            resized,
            target,
            PixelFormat::Rgba8,
            bgra_to_rgba(source.bytes()),
            w,
            h,
            filter,
        ),
    }
}

fn resize_rgb8_image(image: &Rgb8Image, target_size: ImageSize, filter: ResampleFilter) -> (resized: PixelImage)
    requires
        PixelImage::Rgb8(*image).is_valid(),
        resize_of_fits(PixelImage::Rgb8(*image), target_size),
    ensures
        resampled(PixelImage::Rgb8(*image), target_size, filter, resized),
{
    let raw = resize_rgb8_buffer(
        image.pixels(),
        image.width(),
        image.height(),
        target_size.width(),
        target_size.height(),
        filter,
    );
    PixelImage::Rgb8(Rgb8Image::new(target_size.width(), target_size.height(), raw))
}

fn resize_rgba8_image(image: &Rgba8Image, target_size: ImageSize, filter: ResampleFilter) -> (resized: PixelImage)
    requires
        PixelImage::Rgba8(*image).is_valid(),
        resize_of_fits(PixelImage::Rgba8(*image), target_size),
    ensures
        resampled(PixelImage::Rgba8(*image), target_size, filter, resized),
{
    let raw = resize_rgba8_buffer(
        image.pixels(),
        image.width(),
        image.height(),
        target_size.width(),
        target_size.height(),
        filter,
    );
    PixelImage::Rgba8(Rgba8Image::new(target_size.width(), target_size.height(), raw))
}

/// Pixels resized for display at `target_size` with the filter of `quality`;
/// none when the source buffer does not hold exactly one pixel per position.
/// BGRA is first copied to RGBA; when that copy cannot be allocated there is
/// none either.
pub fn resample_display_pixels(source: &PixelImage, target_size: ImageSize, quality: ScalingQuality) -> (resized: Option<PixelImage>)
    requires
        resize_of_fits(*source, target_size),
    ensures
        !(source is Bgra8) ==> (resized is Some <==> source.is_valid()),
        resized is Some ==> source.is_valid(),
        resized matches Some(r) ==> resampled(*source, target_size, filter_for(quality), r),
{
    let filter = filter_type_for_quality(quality);
    if !source.is_valid() {
        return None;
    }
    match source {
        PixelImage::Rgb8(image) => Some(resize_rgb8_image(image, target_size, filter)),
        PixelImage::Rgba8(image) => Some(resize_rgba8_image(image, target_size, filter)),
        PixelImage::Bgra8(_) => match source.to_rgba8() {
            Some(rgba) => Some(resize_rgba8_image(&rgba, target_size, filter)),
            None => None,
        },
    }
}

pub open spec fn filter_for(quality: ScalingQuality) -> ResampleFilter {
    match quality {
        ScalingQuality::Nearest => ResampleFilter::Nearest,
        ScalingQuality::Balanced => ResampleFilter::Triangle,
        ScalingQuality::HighQuality => ResampleFilter::Lanczos3,
    }
}

/// Why export pixels could not be resized.
#[derive(Debug, Clone, PartialEq, Eq)]
pub enum ExportResizeError {
    /// The resized image would not fit in memory.
    AllocationFailed { path: String },
    /// The buffer does not hold exactly one pixel per position.
    InvalidPixelBuffer { path: String, size: ImageSize, actual_len: usize },
}

/// The format exported pixels are resized in: RGB stays RGB, the others are RGBA.
pub open spec fn export_resize_format(pixels: PixelImage) -> PixelFormat {
    if pixels is Rgb8 {
        PixelFormat::Rgb8
    } else {
        PixelFormat::Rgba8
    }
}

/// Whether `result` is what resizing `pixels` for an export with `options`
/// gives (see [`resize_export_pixels`]).
pub open spec fn export_resized(
    path: Seq<char>,
    pixels: PixelImage,
    options: ExportOptions,
    result: Result<PixelImage, ExportResizeError>,
) -> bool {
    match options.target_size() {
        None => result == Ok::<PixelImage, ExportResizeError>(pixels),
        Some(t) => if t == pixels.size() {
            result == Ok::<PixelImage, ExportResizeError>(pixels)
        } else if pixel_byte_len_spec(t, export_resize_format(pixels)) is None {
            result matches Err(ExportResizeError::AllocationFailed { path: p }) && p@ == path
        } else if !pixels.is_valid() {
            result matches Err(ExportResizeError::InvalidPixelBuffer { path: p, size, actual_len }) && p@ == path
                && size == pixels.size() && actual_len == pixels.bytes().len()
        } else {
            result matches Ok(r) && resampled(pixels, t, ResampleFilter::Lanczos3, r)
        },
    }
}

/// The pixels an export writes: unchanged without a target size or at the
/// pixels' own size; otherwise resized to the target with the Lanczos filter.
/// Fails when the target would not fit in memory or the buffer does not hold
/// exactly one pixel per position.
pub fn resize_export_pixels(path: &str, pixels: PixelImage, options: ExportOptions) -> (result: Result<PixelImage, ExportResizeError>)
    requires
        options.target_size() matches Some(t) ==> resize_of_fits(pixels, t),
    ensures
        export_resized(path@, pixels, options, result),
{
    let target_size = match options.target_size() {
        Some(t) => t,
        None => return Ok(pixels),
    };
    if target_size == pixels.size() {
        return Ok(pixels);
    }
    let format = if pixels.pixel_format() == PixelFormat::Rgb8 {
        PixelFormat::Rgb8
    } else {
        PixelFormat::Rgba8
    };
    if target_size.pixel_byte_len(format).is_none() {
        return Err(ExportResizeError::AllocationFailed { path: path.to_owned() });
    }
    if !pixels.is_valid() {
        return Err(
            ExportResizeError::InvalidPixelBuffer {
                path: path.to_owned(),
                size: pixels.size(),
                actual_len: pixels.byte_len(),
            },
        );
    }
    let filter = ResampleFilter::Lanczos3;
    let ghost source = pixels;
    match pixels {
        PixelImage::Rgb8(image) => Ok(resize_rgb8_image(&image, target_size, filter)),
        PixelImage::Rgba8(image) => Ok(resize_rgba8_image(&image, target_size, filter)),
        PixelImage::Bgra8(_) => {
            let rgba = match pixels.into_rgba8() {
                Some(rgba) => rgba,
                None => {
                    assert(false);
                    return Err(ExportResizeError::AllocationFailed { path: path.to_owned() });
                },
            };
            assert(rgba.bytes() == bgra_to_rgba(source.bytes()));
            Ok(resize_rgba8_image(&rgba, target_size, filter))
        },
    }
}

} // verus!

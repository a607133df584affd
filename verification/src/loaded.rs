//! A decoded image with its file metadata, the pixels prepared for the last
//! render, and its animation playback.
use std::time::SystemTime;
use vstd::prelude::*;

use crate::animation::AnimationPlayback;
use crate::export::SupportedImageFormat;
use crate::geometry::{
    ImageBufferKind, ImageDisplayRect, ImageOrientation, ImageSize, ScalingQuality, ViewMode, ViewportSize,
};
use crate::paths::{file_name_of, path_file_name};
use crate::pixels::{PixelImage, Rgba8Image};

verus! {

broadcast use ImageSize::lemma_spec_new;

#[verifier::external_type_specification]
#[verifier::external_body]
pub struct ExSystemTime(SystemTime);

/// The size and modification time a file had when it was read.
#[derive(Debug, Clone, Copy, PartialEq, Eq)]
pub struct ImageFileVersion {
    file_size: u64,
    modified: SystemTime,
}

impl ImageFileVersion {
    pub closed spec fn spec_file_size(self) -> u64 {
        self.file_size
    }

    pub closed spec fn spec_modified(self) -> SystemTime {
        self.modified
    }

    pub fn new(file_size: u64, modified: SystemTime) -> (version: Self)
        ensures
            version.file_size() == file_size,
            version.modified() == modified,
    {
        Self { file_size, modified }
    }

    #[verifier::when_used_as_spec(spec_file_size)]
    pub fn file_size(self) -> (size: u64)
        ensures
            size == self.file_size(),
    {
        self.file_size
    }

    #[verifier::when_used_as_spec(spec_modified)]
    pub fn modified(self) -> (modified: SystemTime)
        ensures
            modified == self.modified(),
    {
        self.modified
    }

    /// Whether both versions have the same size and modification time.
    pub fn same_version(self, other: Self) -> (same: bool)
        ensures
            same == (self == other),
    {
        self.file_size == other.file_size && same_instant(self.modified, other.modified)
    }
}

/// Calls `SystemTime::eq`: two times are equal exactly when they are the
/// same instant.
#[verifier::external_body]
fn same_instant(a: SystemTime, b: SystemTime) -> (same: bool)
    ensures
        same == (a == b),
{
    a == b
}

/// Whether two optional file versions are both absent or the same version.
pub fn same_file_version(a: Option<ImageFileVersion>, b: Option<ImageFileVersion>) -> (same: bool)
    ensures
        same == (a == b),
{
    match (a, b) {
        (Some(x), Some(y)) => x.same_version(y),
        (None, None) => true,
        _ => false,
    }
}

/// What is known of an image's file: its path, size, version when read,
/// format and EXIF orientation.
#[derive(Debug, PartialEq, Eq)]
pub struct ImageMetadata {
    path: String,
    file_size: u64,
    file_version: Option<ImageFileVersion>,
    format: SupportedImageFormat,
    exif_orientation: ImageOrientation,
}

impl ImageMetadata {
    pub closed spec fn spec_path(&self) -> Seq<char> {
        self.path@
    }

    pub closed spec fn spec_file_size(&self) -> u64 {
        self.file_size
    }

    pub closed spec fn spec_file_version(&self) -> Option<ImageFileVersion> {
        self.file_version
    }

    pub closed spec fn spec_format(&self) -> SupportedImageFormat {
        self.format
    }

    pub closed spec fn spec_exif_orientation(&self) -> ImageOrientation {
        self.exif_orientation
    }

    /// Metadata with no file version and the normal orientation.
    pub fn new(path: String, file_size: u64, format: SupportedImageFormat) -> (metadata: Self)
        ensures
            metadata.spec_path() == path@,
            metadata.file_size() == file_size,
            metadata.file_version() is None,
            metadata.format() == format,
            metadata.exif_orientation() == ImageOrientation::Normal,
    {
        Self::with_exif_orientation(path, file_size, format, ImageOrientation::NORMAL)
    }

    /// Metadata whose size is the version's, with the normal orientation.
    pub fn with_file_version(path: String, file_version: ImageFileVersion, format: SupportedImageFormat) -> (metadata: Self)
        ensures
            metadata.spec_path() == path@,
            metadata.file_size() == file_version.file_size(),
            metadata.file_version() == Some(file_version),
            metadata.format() == format,
            metadata.exif_orientation() == ImageOrientation::Normal,
    {
        Self::with_file_version_and_exif_orientation(path, file_version, format, ImageOrientation::NORMAL)
    }

    pub fn with_exif_orientation(
        path: String,
        file_size: u64,
        format: SupportedImageFormat,
        exif_orientation: ImageOrientation,
    ) -> (metadata: Self)
        ensures
            metadata.spec_path() == path@,
            metadata.file_size() == file_size,
            metadata.file_version() is None,
            metadata.format() == format,
            metadata.exif_orientation() == exif_orientation,
    {
        Self { path, file_size, file_version: None, format, exif_orientation }
    }

    pub fn with_file_version_and_exif_orientation(
        path: String,
        file_version: ImageFileVersion,
        format: SupportedImageFormat,
        exif_orientation: ImageOrientation,
    ) -> (metadata: Self)
        ensures
            metadata.spec_path() == path@,
            metadata.file_size() == file_version.file_size(),
            metadata.file_version() == Some(file_version),
            metadata.format() == format,
            metadata.exif_orientation() == exif_orientation,
    {
        Self { path, file_size: file_version.file_size(), file_version: Some(file_version), format, exif_orientation }
    }

    pub fn path(&self) -> (path: &str)
        ensures
            path@ == self.spec_path(),
    {
        self.path.as_str()
    }

    #[verifier::when_used_as_spec(spec_file_size)]
    pub fn file_size(&self) -> (size: u64)
        ensures
            size == self.file_size(),
    {
        self.file_size
    }

    #[verifier::when_used_as_spec(spec_file_version)]
    pub fn file_version(&self) -> (version: Option<ImageFileVersion>)
        ensures
            version == self.file_version(),
    {
        self.file_version
    }

    #[verifier::when_used_as_spec(spec_format)]
    pub fn format(&self) -> (format: SupportedImageFormat)
        ensures
            format == self.format(),
    {
        self.format
    }

    #[verifier::when_used_as_spec(spec_exif_orientation)]
    pub fn exif_orientation(&self) -> (orientation: ImageOrientation)
        ensures
            orientation == self.exif_orientation(),
    {
        self.exif_orientation
    }

    /// The file name of the path.
    pub fn file_name(&self) -> (name: Option<String>)
        ensures
            match name {
                Some(n) => file_name_of(self.spec_path()) == Some(n@),
                None => file_name_of(self.spec_path()) is None,
            },
    {
        path_file_name(self.path.as_str())
    }

    pub fn file_name_for_display(&self) -> (name: String)
        ensures
            name@ == display_file_name(self.spec_path()),
    {
        file_name_for_display(self.path.as_str())
    }
}

impl Clone for ImageMetadata {
    fn clone(&self) -> (metadata: Self)
        ensures
            metadata.spec_path() == self.spec_path(),
            metadata.file_size() == self.file_size(),
            metadata.file_version() == self.file_version(),
            metadata.format() == self.format(),
            metadata.exif_orientation() == self.exif_orientation(),
    {
        Self {
            path: self.path.clone(),
            file_size: self.file_size,
            file_version: self.file_version,
            format: self.format,
            exif_orientation: self.exif_orientation,
        }
    }
}

/// The name a path is shown by: its file name when it has a non-empty one,
/// else the whole path.
pub open spec fn display_file_name(path: Seq<char>) -> Seq<char> {
    match file_name_of(path) {
        Some(name) => if name.len() > 0 {
            name
        } else {
            path
        },
        None => path,
    }
}

pub fn file_name_for_display(path: &str) -> (name: String)
    ensures
        name@ == display_file_name(path@),
{
    match path_file_name(path) {
        Some(name) => if name.unicode_len() > 0 {
            name
        } else {
            path.to_owned()
        },
        None => path.to_owned(),
    }
}

/// Pixels prepared for one render: the viewport, view mode, scaling and
/// orientation they were made for, and where they are drawn. Their size is
/// the size of the drawn rectangle.
#[derive(Debug, PartialEq, Eq)]
pub struct RenderReadyImage {
    pixels: PixelImage,
    viewport: ViewportSize,
    view_mode: ViewMode,
    preferred_scaling_quality: ScalingQuality,
    orientation: ImageOrientation,
    display_rect: ImageDisplayRect,
    scaling_quality: ScalingQuality,
}

impl RenderReadyImage {
    #[verifier::type_invariant]
    closed spec fn wf(self) -> bool {
        self.display_rect.size() == Some(self.pixels.size())
    }

    pub closed spec fn spec_pixels(&self) -> PixelImage {
        self.pixels
    }

    pub closed spec fn spec_viewport(&self) -> ViewportSize {
        self.viewport
    }

    pub closed spec fn spec_view_mode(&self) -> ViewMode {
        self.view_mode
    }

    pub closed spec fn spec_preferred_scaling_quality(&self) -> ScalingQuality {
        self.preferred_scaling_quality
    }

    pub closed spec fn spec_orientation(&self) -> ImageOrientation {
        self.orientation
    }

    pub closed spec fn spec_display_rect(&self) -> ImageDisplayRect {
        self.display_rect
    }

    pub closed spec fn spec_scaling_quality(&self) -> ScalingQuality {
        self.scaling_quality
    }

    /// Prepared pixels, when their size is the size of `display_rect`.
    pub fn new(
        pixels: PixelImage,
        viewport: ViewportSize,
        view_mode: ViewMode,
        preferred_scaling_quality: ScalingQuality,
        orientation: ImageOrientation,
        display_rect: ImageDisplayRect,
        scaling_quality: ScalingQuality,
    ) -> (ready: Option<Self>)
        ensures
            ready is Some <==> display_rect.size() == Some(pixels.size()),
            ready matches Some(r) ==> r.spec_pixels() == pixels && r.spec_viewport() == viewport
                && r.spec_view_mode() == view_mode && r.spec_preferred_scaling_quality()
                == preferred_scaling_quality && r.spec_orientation() == orientation
                && r.spec_display_rect() == display_rect && r.spec_scaling_quality() == scaling_quality,
    {
        let size = match display_rect.size() {
            Some(size) => size,
            None => return None,
        };
        if size != pixels.size() {
            return None;
        }
        Some(
            Self {
                pixels,
                viewport,
                view_mode,
                preferred_scaling_quality,
                orientation,
                display_rect,
                scaling_quality,
            },
        )
    }

    pub fn pixels(&self) -> (pixels: &PixelImage)
        ensures
            *pixels == self.spec_pixels(),
    {
        &self.pixels
    }

    pub fn viewport(&self) -> (viewport: ViewportSize)
        ensures
            viewport == self.spec_viewport(),
    {
        self.viewport
    }

    pub fn view_mode(&self) -> (view_mode: ViewMode)
        ensures
            view_mode == self.spec_view_mode(),
    {
        self.view_mode
    }

    pub fn preferred_scaling_quality(&self) -> (quality: ScalingQuality)
        ensures
            quality == self.spec_preferred_scaling_quality(),
    {
        self.preferred_scaling_quality
    }

    pub fn orientation(&self) -> (orientation: ImageOrientation)
        ensures
            orientation == self.spec_orientation(),
    {
        self.orientation
    }

    pub fn display_rect(&self) -> (rect: ImageDisplayRect)
        ensures
            rect == self.spec_display_rect(),
            rect.size() == Some(self.spec_pixels().size()),
    {
        proof {
            use_type_invariant(self);
        }
        self.display_rect
    }

    pub fn scaling_quality(&self) -> (quality: ScalingQuality)
        ensures
            quality == self.spec_scaling_quality(),
    {
        self.scaling_quality
    }

    pub fn byte_len(&self) -> (len: usize)
        ensures
            len == self.spec_pixels().bytes().len(),
    {
        self.pixels.byte_len()
    }

    /// Whether these pixels were made for exactly this render.
    pub fn matches_render(
        &self,
        viewport: ViewportSize,
        view_mode: ViewMode,
        preferred_scaling_quality: ScalingQuality,
        orientation: ImageOrientation,
        display_rect: ImageDisplayRect,
        scaling_quality: ScalingQuality,
    ) -> (matches: bool)
        ensures
            matches == (self.spec_viewport() == viewport && self.spec_view_mode() == view_mode
                && self.spec_preferred_scaling_quality() == preferred_scaling_quality
                && self.spec_orientation() == orientation && self.spec_display_rect() == display_rect
                && self.spec_scaling_quality() == scaling_quality && display_rect.size() == Some(
                self.spec_pixels().size(),
            )),
    {
        if !(self.viewport == viewport && self.view_mode == view_mode && self.preferred_scaling_quality
            == preferred_scaling_quality && self.orientation == orientation && self.display_rect
            == display_rect && self.scaling_quality == scaling_quality) {
            return false;
        }
        match display_rect.size() {
            Some(size) => size == self.pixels.size(),
            None => false,
        }
    }
}

/// A decoded image: its pixels (a preview or the full resolution), the size
/// of its source, its metadata, the pixels prepared for the last render, and
/// its playback when it is animated.
#[derive(Debug, PartialEq, Eq)]
pub struct LoadedImage {
    pixels: PixelImage,
    source_size: ImageSize,
    buffer_kind: ImageBufferKind,
    metadata: ImageMetadata,
    render_ready: Option<RenderReadyImage>,
    animation: Option<AnimationPlayback>,
}

impl LoadedImage {
    pub closed spec fn spec_pixels(&self) -> PixelImage {
        self.pixels
    }

    pub closed spec fn spec_source_size(&self) -> ImageSize {
        self.source_size
    }

    pub closed spec fn spec_buffer_kind(&self) -> ImageBufferKind {
        self.buffer_kind
    }

    pub closed spec fn spec_metadata(&self) -> ImageMetadata {
        self.metadata
    }

    pub closed spec fn spec_render_ready(&self) -> Option<RenderReadyImage> {
        self.render_ready
    }

    pub closed spec fn spec_animation(&self) -> Option<AnimationPlayback> {
        self.animation
    }

    /// This image with `playback` as its playback.
    pub closed spec fn spec_with_animation(self, playback: AnimationPlayback) -> Self {
        LoadedImage {
            pixels: self.pixels,
            source_size: self.source_size,
            buffer_kind: self.buffer_kind,
            metadata: self.metadata,
            render_ready: self.render_ready,
            animation: Some(playback),
        }
    }

    /// This image with `pixels` as its full resolution, with nothing prepared
    /// for render.
    pub closed spec fn spec_with_full_resolution(self, pixels: PixelImage) -> Self {
        LoadedImage {
            pixels,
            source_size: self.source_size,
            buffer_kind: ImageBufferKind::FullResolution,
            metadata: self.metadata,
            render_ready: None,
            animation: self.animation,
        }
    }

    pub broadcast proof fn lemma_with_full_resolution(self, pixels: PixelImage)
        ensures
            #[trigger] self.spec_with_full_resolution(pixels).spec_pixels() == pixels,
            self.spec_with_full_resolution(pixels).spec_buffer_kind() == ImageBufferKind::FullResolution,
            self.spec_with_full_resolution(pixels).spec_render_ready() is None,
            self.spec_with_full_resolution(pixels).spec_metadata() == self.spec_metadata(),
            self.spec_with_full_resolution(pixels).spec_source_size() == self.spec_source_size(),
            self.spec_with_full_resolution(pixels).spec_animation() == self.spec_animation(),
    {
    }

    /// This image showing the frame `rgba8`, with nothing prepared for render.
    pub closed spec fn spec_with_frame(self, rgba8: Rgba8Image) -> Self {
        LoadedImage {
            pixels: PixelImage::Rgba8(rgba8),
            source_size: self.source_size,
            buffer_kind: self.buffer_kind,
            metadata: self.metadata,
            render_ready: None,
            animation: self.animation,
        }
    }

    pub broadcast proof fn lemma_with_animation(self, playback: AnimationPlayback)
        ensures
            #[trigger] self.spec_with_animation(playback).spec_animation() == Some(playback),
            self.spec_with_animation(playback).spec_pixels() == self.spec_pixels(),
            self.spec_with_animation(playback).spec_metadata() == self.spec_metadata(),
            self.spec_with_animation(playback).spec_source_size() == self.spec_source_size(),
            self.spec_with_animation(playback).spec_render_ready() == self.spec_render_ready(),
            self.spec_with_animation(playback).spec_buffer_kind() == self.spec_buffer_kind(),
    {
    }

    pub broadcast proof fn lemma_with_frame(self, rgba8: Rgba8Image)
        ensures
            #[trigger] self.spec_with_frame(rgba8).spec_pixels() == PixelImage::Rgba8(rgba8),
            self.spec_with_frame(rgba8).spec_animation() == self.spec_animation(),
            self.spec_with_frame(rgba8).spec_metadata() == self.spec_metadata(),
            self.spec_with_frame(rgba8).spec_source_size() == self.spec_source_size(),
            self.spec_with_frame(rgba8).spec_render_ready() is None,
            self.spec_with_frame(rgba8).spec_buffer_kind() == self.spec_buffer_kind(),
    {
    }

    /// A full-resolution still image.
    pub fn new(rgba8: Rgba8Image, metadata: ImageMetadata) -> (image: Self)
        ensures
            image.spec_pixels() == PixelImage::Rgba8(rgba8),
            image.spec_source_size() == rgba8.size(),
            image.spec_buffer_kind() == ImageBufferKind::FullResolution,
            image.spec_metadata() == metadata,
            image.spec_render_ready() is None,
            image.spec_animation() is None,
    {
        Self::from_pixels(PixelImage::Rgba8(rgba8), metadata)
    }

    /// A full-resolution still image whose source size is the pixels' size.
    pub fn from_pixels(pixels: PixelImage, metadata: ImageMetadata) -> (image: Self)
        ensures
            image.spec_pixels() == pixels,
            image.spec_source_size() == pixels.size(),
            image.spec_buffer_kind() == ImageBufferKind::FullResolution,
            image.spec_metadata() == metadata,
            image.spec_render_ready() is None,
            image.spec_animation() is None,
    {
        let source_size = pixels.size();
        Self {
            pixels,
            source_size,
            buffer_kind: ImageBufferKind::FullResolution,
            metadata,
            render_ready: None,
            animation: None,
        }
    }

    /// A preview of a source of `source_size`.
    pub fn from_preview(rgba8: Rgba8Image, source_size: ImageSize, metadata: ImageMetadata) -> (image: Self)
        ensures
            image.spec_pixels() == PixelImage::Rgba8(rgba8),
            image.spec_source_size() == source_size,
            image.spec_buffer_kind() == ImageBufferKind::Preview,
            image.spec_metadata() == metadata,
            image.spec_render_ready() is None,
            image.spec_animation() is None,
    {
        Self::from_preview_pixels(PixelImage::Rgba8(rgba8), source_size, metadata)
    }

    pub fn from_preview_pixels(pixels: PixelImage, source_size: ImageSize, metadata: ImageMetadata) -> (image: Self)
        ensures
            image.spec_pixels() == pixels,
            image.spec_source_size() == source_size,
            image.spec_buffer_kind() == ImageBufferKind::Preview,
            image.spec_metadata() == metadata,
            image.spec_render_ready() is None,
            image.spec_animation() is None,
    {
        Self { pixels, source_size, buffer_kind: ImageBufferKind::Preview, metadata, render_ready: None, animation: None }
    }

    /// An animated image showing the frame `rgba8`.
    pub fn from_animation(
        rgba8: Rgba8Image,
        source_size: ImageSize,
        buffer_kind: ImageBufferKind,
        metadata: ImageMetadata,
        animation: AnimationPlayback,
    ) -> (image: Self)
        ensures
            image.spec_pixels() == PixelImage::Rgba8(rgba8),
            image.spec_source_size() == source_size,
            image.spec_buffer_kind() == buffer_kind,
            image.spec_metadata() == metadata,
            image.spec_render_ready() is None,
            image.spec_animation() == Some(animation),
    {
        Self {
            pixels: PixelImage::Rgba8(rgba8),
            source_size,
            buffer_kind,
            metadata,
            render_ready: None,
            animation: Some(animation),
        }
    }

    pub fn pixels(&self) -> (pixels: &PixelImage)
        ensures
            *pixels == self.spec_pixels(),
    {
        &self.pixels
    }

    /// The pixels when they are RGBA.
    pub fn rgba8(&self) -> (rgba8: Option<&Rgba8Image>)
        ensures
            match self.spec_pixels() {
                PixelImage::Rgba8(image) => rgba8 == Some(&image),
                _ => rgba8 is None,
            },
    {
        self.pixels.as_rgba8()
    }

    pub fn source_size(&self) -> (size: ImageSize)
        ensures
            size == self.spec_source_size(),
    {
        self.source_size
    }

    pub fn buffer_kind(&self) -> (kind: ImageBufferKind)
        ensures
            kind == self.spec_buffer_kind(),
    {
        self.buffer_kind
    }

    pub fn has_full_resolution(&self) -> (full: bool)
        ensures
            full == (self.spec_buffer_kind() == ImageBufferKind::FullResolution),
    {
        self.buffer_kind == ImageBufferKind::FullResolution
    }

    pub fn render_ready_image(&self) -> (ready: Option<&RenderReadyImage>)
        ensures
            match self.spec_render_ready() {
                Some(r) => ready == Some(&r),
                None => ready is None,
            },
    {
        match &self.render_ready {
            Some(ready) => Some(ready),
            None => None,
        }
    }

    pub fn set_render_ready_image(&mut self, render_ready: Option<RenderReadyImage>)
        ensures
            final(self).spec_render_ready() == render_ready,
            final(self).spec_pixels() == old(self).spec_pixels(),
            final(self).spec_source_size() == old(self).spec_source_size(),
            final(self).spec_buffer_kind() == old(self).spec_buffer_kind(),
            final(self).spec_metadata() == old(self).spec_metadata(),
            final(self).spec_animation() == old(self).spec_animation(),
    {
        self.render_ready = render_ready;
    }

    /// The bytes the image keeps in memory: its pixels and the prepared
    /// pixels, saturating at the top of `usize`.
    pub fn resident_byte_len(&self) -> (len: usize)
        ensures
            len == (if self.spec_pixels().bytes().len() + ready_bytes(self.spec_render_ready()) > usize::MAX {
                usize::MAX as int
            } else {
                self.spec_pixels().bytes().len() + ready_bytes(self.spec_render_ready())
            }),
    {
        let ready = match &self.render_ready {
            Some(ready) => ready.byte_len(),
            None => 0,
        };
        self.pixels.byte_len().saturating_add(ready)
    }

    /// Replaces a preview of a still image with its full resolution, which
    /// must have the source's size; says whether it did.
    pub fn replace_with_full_resolution(&mut self, pixels: PixelImage) -> (replaced: bool)
        ensures
            replaced == (old(self).spec_animation() is None && pixels.size() == old(self).spec_source_size()),
            replaced ==> final(self).spec_pixels() == pixels && final(self).spec_buffer_kind()
                == ImageBufferKind::FullResolution && final(self).spec_render_ready() is None,
            !replaced ==> final(self).spec_pixels() == old(self).spec_pixels() && final(self).spec_buffer_kind()
                == old(self).spec_buffer_kind() && final(self).spec_render_ready() == old(self).spec_render_ready(),
            final(self).spec_source_size() == old(self).spec_source_size(),
            final(self).spec_metadata() == old(self).spec_metadata(),
            final(self).spec_animation() == old(self).spec_animation(),
            replaced ==> *final(self) == old(self).spec_with_full_resolution(pixels),
            !replaced ==> *final(self) == *old(self),
    {
        if self.is_animated() {
            return false;
        }
        if pixels.size() != self.source_size {
            return false;
        }
        self.pixels = pixels;
        self.buffer_kind = ImageBufferKind::FullResolution;
        self.render_ready = None;
        true
    }

    pub fn metadata(&self) -> (metadata: &ImageMetadata)
        ensures
            *metadata == self.spec_metadata(),
    {
        &self.metadata
    }

    pub fn animation(&self) -> (animation: Option<&AnimationPlayback>)
        ensures
            match self.spec_animation() {
                Some(a) => animation == Some(&a),
                None => animation is None,
            },
    {
        match &self.animation {
            Some(animation) => Some(animation),
            None => None,
        }
    }

    pub fn is_animated(&self) -> (animated: bool)
        ensures
            animated == self.spec_animation() is Some,
    {
        self.animation.is_some()
    }

    /// Replaces the playback of an animated image by one with as many
    /// frames; says whether it did.
    pub fn set_animation_playback(&mut self, playback: AnimationPlayback) -> (replaced: bool)
        ensures
            replaced == (old(self).spec_animation() matches Some(a) && a@.frame_count()
                == playback@.frame_count()),
            replaced ==> final(self).spec_animation() == Some(playback),
            !replaced ==> final(self).spec_animation() == old(self).spec_animation(),
            final(self).spec_pixels() == old(self).spec_pixels(),
            final(self).spec_source_size() == old(self).spec_source_size(),
            final(self).spec_buffer_kind() == old(self).spec_buffer_kind(),
            final(self).spec_metadata() == old(self).spec_metadata(),
            final(self).spec_render_ready() == old(self).spec_render_ready(),
            replaced ==> *final(self) == old(self).spec_with_animation(playback),
            !replaced ==> *final(self) == *old(self),
    {
        let same_frame_count = match &self.animation {
            Some(animation) => animation.frame_count() == playback.frame_count(),
            None => false,
        };
        if !same_frame_count {
            return false;
        }
        self.animation = Some(playback);
        true
    }

    /// Shows the frame `rgba8`, which must have the current pixels' size;
    /// gives back the frame it replaced, as RGBA.
    pub fn replace_current_rgba8(&mut self, rgba8: Rgba8Image) -> (previous: Option<Rgba8Image>)
        ensures
            rgba8.size() != old(self).spec_pixels().size() ==> previous is None && final(self).spec_pixels()
                == old(self).spec_pixels() && final(self).spec_render_ready() == old(self).spec_render_ready(),
            rgba8.size() == old(self).spec_pixels().size() ==> final(self).spec_pixels() == PixelImage::Rgba8(rgba8)
                && final(self).spec_render_ready() is None && (old(self).spec_pixels() is Rgba8 ==> previous
                is Some) && (previous matches Some(p) ==> p.width() == old(self).spec_pixels().width()
                && p.height() == old(self).spec_pixels().height() && p.bytes()
                == old(self).spec_pixels().rgba_bytes()),
            final(self).spec_source_size() == old(self).spec_source_size(),
            final(self).spec_buffer_kind() == old(self).spec_buffer_kind(),
            final(self).spec_metadata() == old(self).spec_metadata(),
            final(self).spec_animation() == old(self).spec_animation(),
            rgba8.size() == old(self).spec_pixels().size() ==> *final(self) == old(self).spec_with_frame(rgba8),
            rgba8.size() != old(self).spec_pixels().size() ==> *final(self) == *old(self),
    {
        if rgba8.size() != self.pixels.size() {
            return None;
        }
        self.render_ready = None;
        let mut previous = PixelImage::Rgba8(rgba8);
        std::mem::swap(&mut self.pixels, &mut previous);
        previous.into_rgba8()
    }
}

/// The bytes of prepared pixels, if any.
pub open spec fn ready_bytes(ready: Option<RenderReadyImage>) -> int {
    match ready {
        Some(r) => r.spec_pixels().bytes().len() as int,
        None => 0,
    }
}

/// What the viewer shows: nothing yet, or a loaded image.
#[derive(Debug, PartialEq, Eq)]
pub enum ImageState {
    Empty,
    Loaded(LoadedImage),
}

impl ImageState {
    pub fn has_image(&self) -> (has: bool)
        ensures
            has == (self is Loaded),
    {
        match self {
            ImageState::Empty => false,
            ImageState::Loaded(_) => true,
        }
    }

    pub fn has_animation(&self) -> (has: bool)
        ensures
            has == (self matches ImageState::Loaded(image) && image.spec_animation() is Some),
    {
        match self {
            ImageState::Empty => false,
            ImageState::Loaded(image) => image.is_animated(),
        }
    }
}

/// Why an image could not be opened, as the user is told.
#[derive(Debug, Clone, Copy, PartialEq, Eq, Structural)]
pub enum ImageOpenErrorCategory {
    UnsupportedFormat,
    CorruptOrDecodingFailed,
    PermissionDenied,
    FileNotFoundOrMoved,
    FileLocked,
    ImageTooLargeOrOutOfMemory,
    UnknownIo,
    NotAFile,
    Canceled,
}

/// The step of loading at which an image failed.
#[derive(Debug, Clone, Copy, PartialEq, Eq, Structural)]
pub enum ImageLoadFailureStage {
    FormatDetection,
    FileIo,
    Decoder,
    PixelConversion,
    Win32Rendering,
}

} // verus!

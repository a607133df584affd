//! What the viewer reports: the outcomes of its commands, the window title,
//! the status line after an export, and what a render draws.
use vstd::prelude::*;

use crate::commands::ImageNavigationDirection;
use crate::export::{export_format_display_name, export_format_name, ExportOptions};
use crate::geometry::{ImageDisplayRect, ImageOrientation, ImageRotation, ImageSize, ScalingQuality};
use crate::info::{decimal, decimal_text};
use crate::loaded::{display_file_name, LoadedImage};
use crate::paths::{file_name_of, parent_of, path_file_name, path_parent};
use crate::pixels::{PixelImage, Rgba8Image};
use crate::settings::UiLanguage;

verus! {

/// The name the window title ends with.
pub const DEFAULT_TITLE: &'static str = "j3Pic";

#[derive(Debug, Clone, Copy, PartialEq, Eq, Structural)]
pub enum NavigationOutcome {
    Moved,
    Noop,
}

#[derive(Debug, Clone, Copy, PartialEq, Eq, Structural)]
pub enum AppCommandOutcome {
    Changed,
    Unchanged,
    Unhandled,
}

#[derive(Debug, Clone, Copy, PartialEq, Eq, Structural)]
pub enum DecodeApplyOutcome {
    Applied,
    Stale,
    Unchanged,
}

/// Why an image is decoded.
#[derive(Debug, Clone, Copy, PartialEq, Eq, Structural)]
pub enum ImageDecodePurpose {
    OpenImage,
    FolderNavigation(ImageNavigationDirection),
    FullResolution,
}

impl ImageDecodePurpose {
    pub fn is_folder_navigation(self) -> (navigation: bool)
        ensures
            navigation == (self is FolderNavigation),
    {
        match self {
            ImageDecodePurpose::FolderNavigation(_) => true,
            _ => false,
        }
    }
}

/// A handled command changed the view or did not.
pub fn command_outcome(changed: bool) -> (outcome: AppCommandOutcome)
    ensures
        outcome == (if changed {
            AppCommandOutcome::Changed
        } else {
            AppCommandOutcome::Unchanged
        }),
{
    if changed {
        AppCommandOutcome::Changed
    } else {
        AppCommandOutcome::Unchanged
    }
}

/// What a drawn image was drawn from: which revision of the image, in which
/// orientation, at which source size.
#[derive(Debug, Clone, Copy, PartialEq, Eq, Structural)]
pub struct RenderImageCacheKey {
    image_revision: u64,
    orientation: ImageOrientation,
    source_size: ImageSize,
}

impl RenderImageCacheKey {
    pub closed spec fn parts(self) -> (u64, ImageOrientation, ImageSize) {
        (self.image_revision, self.orientation, self.source_size)
    }

    pub fn new(image_revision: u64, orientation: ImageOrientation, source_size: ImageSize) -> (key: Self)
        ensures
            key.parts() == (image_revision, orientation, source_size),
    {
        Self { image_revision, orientation, source_size }
    }
}

/// An image ready to draw: where, which pixels, with which scaling.
#[derive(Debug, Clone, Copy)]
pub struct RenderImage<'a> {
    rect: ImageDisplayRect,
    pixels: &'a PixelImage,
    scaling_quality: ScalingQuality,
    cache_key: RenderImageCacheKey,
}

impl<'a> RenderImage<'a> {
    pub closed spec fn spec_rect(&self) -> ImageDisplayRect {
        self.rect
    }

    pub closed spec fn spec_pixels(&self) -> PixelImage {
        *self.pixels
    }

    pub closed spec fn spec_scaling_quality(&self) -> ScalingQuality {
        self.scaling_quality
    }

    pub closed spec fn spec_cache_key(&self) -> RenderImageCacheKey {
        self.cache_key
    }

    pub fn new(
        rect: ImageDisplayRect,
        pixels: &'a PixelImage,
        scaling_quality: ScalingQuality,
        cache_key: RenderImageCacheKey,
    ) -> (image: Self)
        ensures
            image.spec_rect() == rect,
            image.spec_pixels() == *pixels,
            image.spec_scaling_quality() == scaling_quality,
            image.spec_cache_key() == cache_key,
    {
        Self { rect, pixels, scaling_quality, cache_key }
    }

    pub fn rect(&self) -> (rect: ImageDisplayRect)
        ensures
            rect == self.spec_rect(),
    {
        self.rect
    }

    pub fn pixels(&self) -> (pixels: &'a PixelImage)
        ensures
            *pixels == self.spec_pixels(),
    {
        self.pixels
    }

    pub fn rgba8(&self) -> (rgba8: Option<&'a Rgba8Image>)
        ensures
            match self.spec_pixels() {
                PixelImage::Rgba8(image) => rgba8 == Some(&image),
                _ => rgba8 is None,
            },
    {
        self.pixels.as_rgba8()
    }

    pub fn scaling_quality(&self) -> (quality: ScalingQuality)
        ensures
            quality == self.spec_scaling_quality(),
    {
        self.scaling_quality
    }

    pub fn cache_key(&self) -> (key: RenderImageCacheKey)
        ensures
            key == self.spec_cache_key(),
    {
        self.cache_key
    }
}

/// The pixels a display is made from and the orientation they are shown in.
#[derive(Debug, Clone, Copy)]
pub struct DisplayPixelSource<'a> {
    pixels: &'a PixelImage,
    orientation: ImageOrientation,
}

impl<'a> DisplayPixelSource<'a> {
    pub closed spec fn spec_pixels(&self) -> PixelImage {
        *self.pixels
    }

    pub closed spec fn spec_orientation(&self) -> ImageOrientation {
        self.orientation
    }

    pub fn new(pixels: &'a PixelImage, orientation: ImageOrientation) -> (source: Self)
        ensures
            source.spec_pixels() == *pixels,
            source.spec_orientation() == orientation,
    {
        Self { pixels, orientation }
    }

    pub fn pixels(&self) -> (pixels: &'a PixelImage)
        ensures
            *pixels == self.spec_pixels(),
    {
        self.pixels
    }

    pub fn orientation(&self) -> (orientation: ImageOrientation)
        ensures
            orientation == self.spec_orientation(),
    {
        self.orientation
    }
}

/// What the title says of the orientation: nothing for an image shown as
/// stored, else its EXIF orientation, the user's rotation, or both.
pub open spec fn title_orientation_text(exif: ImageOrientation, rotation: ImageRotation) -> Seq<char> {
    let exif_text = "EXIF "@ + decimal(exif.exif_value() as nat);
    let rotation_text = "rotation "@ + decimal(rotation.degrees() as nat) + " deg"@;
    if exif.is_identity() {
        if rotation == ImageRotation::Degrees0 {
            Seq::empty()
        } else {
            " ("@ + rotation_text + ")"@
        }
    } else if rotation == ImageRotation::Degrees0 {
        " ("@ + exif_text + ")"@
    } else {
        " ("@ + exif_text + " + "@ + rotation_text + ")"@
    }
}

/// The window title for an image: its name, how it is turned, and the
/// viewer's name.
pub open spec fn title_text(name: Seq<char>, exif: ImageOrientation, rotation: ImageRotation) -> Seq<char> {
    name + title_orientation_text(exif, rotation) + " - "@ + "j3Pic"@
}

pub fn image_title(image: &LoadedImage, user_rotation: ImageRotation) -> (title: String)
    ensures
        title@ == title_text(
            display_file_name(image.spec_metadata().spec_path()),
            image.spec_metadata().exif_orientation(),
            user_rotation,
        ),
{
    let metadata = image.metadata();
    let exif = metadata.exif_orientation();
    let mut title = metadata.file_name_for_display();
    match (exif.is_identity(), user_rotation.is_identity()) {
        (true, true) => {},
        (false, true) => {
            title.append(" (EXIF ");
            title.append(decimal_text(exif.exif_value() as u64).as_str());
            title.append(")");
            proof {
                reveal_strlit(" (EXIF ");
                reveal_strlit(" (");
                reveal_strlit("EXIF ");
            }
        },
        (true, false) => {
            title.append(" (rotation ");
            title.append(decimal_text(user_rotation.degrees() as u64).as_str());
            title.append(" deg)");
            proof {
                reveal_strlit(" (rotation ");
                reveal_strlit(" (");
                reveal_strlit("rotation ");
                reveal_strlit(" deg)");
                reveal_strlit(" deg");
                reveal_strlit(")");
            }
        },
        (false, false) => {
            title.append(" (EXIF ");
            title.append(decimal_text(exif.exif_value() as u64).as_str());
            title.append(" + rotation ");
            title.append(decimal_text(user_rotation.degrees() as u64).as_str());
            title.append(" deg)");
            proof {
                reveal_strlit(" (EXIF ");
                reveal_strlit(" (");
                reveal_strlit("EXIF ");
                reveal_strlit(" + rotation ");
                reveal_strlit(" + ");
                reveal_strlit("rotation ");
                reveal_strlit(" deg)");
                reveal_strlit(" deg");
                reveal_strlit(")");
            }
        },
    }
    title.append(" - ");
    title.append(DEFAULT_TITLE);
    proof {
        reveal_strlit("j3Pic");
    }
    title
}

/// The status line after an export: the file name, the format with its
/// quality, and the size it was resized to.
pub open spec fn export_success_text(file_name: Seq<char>, options: ExportOptions, language: UiLanguage) -> Seq<char> {
    let size = match options.target_size() {
        Some(size) => " | "@ + decimal(size.width() as nat) + "x"@ + decimal(size.height() as nat),
        None => Seq::empty(),
    };
    let quality = match options.quality() {
        Some(q) => " quality "@ + decimal(q as nat),
        None => Seq::empty(),
    };
    let saved = match language {
        UiLanguage::Korean => "저장됨: "@,
        UiLanguage::English => "Saved: "@,
    };
    saved + file_name + " | "@ + export_format_name(options.format()) + quality + size
}

/// The name of an exported file as shown: its file name, or the whole path.
pub open spec fn exported_name(path: Seq<char>) -> Seq<char> {
    match file_name_of(path) {
        Some(name) => name,
        None => path,
    }
}

pub fn export_success_status_text(path: &str, options: ExportOptions, language: UiLanguage) -> (text: String)
    ensures
        text@ == export_success_text(exported_name(path@), options, language),
{
    let file_name = match path_file_name(path) {
        Some(name) => name,
        None => path.to_owned(),
    };
    let mut text = match language {
        UiLanguage::Korean => "저장됨: ".to_owned(),
        UiLanguage::English => "Saved: ".to_owned(),
    };
    text.append(file_name.as_str());
    text.append(" | ");
    text.append(export_format_display_name(options.format()));
    if let Some(quality) = options.quality() {
        text.append(" quality ");
        text.append(decimal_text(quality as u64).as_str());
    }
    if let Some(size) = options.target_size() {
        text.append(" | ");
        text.append(decimal_text(size.width() as u64).as_str());
        text.append("x");
        text.append(decimal_text(size.height() as u64).as_str());
    }
    text
}

/// The folder of a path, when it has a non-empty one.
pub open spec fn parent_folder_of(path: Seq<char>) -> Option<Seq<char>> {
    match parent_of(path) {
        Some(parent) => if parent.len() > 0 {
            Some(parent)
        } else {
            None
        },
        None => None,
    }
}

pub fn parent_folder(path: &str) -> (folder: Option<String>)
    ensures
        match folder {
            Some(f) => parent_folder_of(path@) == Some(f@),
            None => parent_folder_of(path@) is None,
        },
{
    match path_parent(path) {
        Some(parent) => if parent.unicode_len() > 0 {
            Some(parent)
        } else {
            None
        },
        None => None,
    }
}

} // verus!

//! Image formats, export options, and the rules that name an exported file.
use vstd::prelude::*;

use crate::geometry::{ImageRotation, ImageSize};
use crate::paths::{
    joined_path, parent_of, path_extension, path_extension_of, path_file_stem, path_join,
    path_parent, path_set_extension, holds_no_separator, path_stem_of, path_with_extension, file_name_of,
    stem_of_name, lemma_stem_of_name_not_empty, lemma_extension_of_joined_name,
};
use crate::settings::RgbColor;
use crate::text::{
    ascii_lower, eq_ignore_ascii_case, equal_ignoring_ascii_case, is_control, is_control_char, is_whitespace_char, trim,
    trim_end, trim_start, trimmed,
};

verus! {

/// The quality a lossy export uses when none is asked for.
pub const DEFAULT_EXPORT_QUALITY: u8 = 90;

pub const MIN_EXPORT_QUALITY: u8 = 1;

pub const MAX_EXPORT_QUALITY: u8 = 100;

/// The longest export file-name suffix, in characters.
pub const MAX_EXPORT_FILENAME_SUFFIX_CHARS: usize = 64;

/// The formats the viewer opens.
#[derive(Debug, Clone, Copy, PartialEq, Eq, Structural)]
pub enum SupportedImageFormat {
    Jpeg,
    Png,
    Bmp,
    Gif,
    Webp,
    Ico,
    Tiff,
    Tga,
}

/// `extension` without one leading `.`.
pub open spec fn without_leading_dot(extension: Seq<char>) -> Seq<char> {
    if extension.len() > 0 && extension[0] == '.' {
        extension.drop_first()
    } else {
        extension
    }
}

/// The format an extension names, compared without regard to ASCII case.
pub open spec fn supported_format_for_extension(extension: Seq<char>) -> Option<SupportedImageFormat> {
    let e = without_leading_dot(extension);
    if equal_ignoring_ascii_case(e, "jpg"@) || equal_ignoring_ascii_case(e, "jpeg"@) {
        Some(SupportedImageFormat::Jpeg)
    } else if equal_ignoring_ascii_case(e, "png"@) {
        Some(SupportedImageFormat::Png)
    } else if equal_ignoring_ascii_case(e, "bmp"@) {
        Some(SupportedImageFormat::Bmp)
    } else if equal_ignoring_ascii_case(e, "gif"@) {
        Some(SupportedImageFormat::Gif)
    } else if equal_ignoring_ascii_case(e, "webp"@) {
        Some(SupportedImageFormat::Webp)
    } else if equal_ignoring_ascii_case(e, "ico"@) {
        Some(SupportedImageFormat::Ico)
    } else if equal_ignoring_ascii_case(e, "tif"@) || equal_ignoring_ascii_case(e, "tiff"@) {
        Some(SupportedImageFormat::Tiff)
    } else if equal_ignoring_ascii_case(e, "tga"@) {
        Some(SupportedImageFormat::Tga)
    } else {
        None
    }
}

pub open spec fn supported_format_name(format: SupportedImageFormat) -> Seq<char> {
    match format {
        SupportedImageFormat::Jpeg => "JPEG"@,
        SupportedImageFormat::Png => "PNG"@,
        SupportedImageFormat::Bmp => "BMP"@,
        SupportedImageFormat::Gif => "GIF"@,
        SupportedImageFormat::Webp => "WebP"@,
        SupportedImageFormat::Ico => "ICO"@,
        SupportedImageFormat::Tiff => "TIFF"@,
        SupportedImageFormat::Tga => "TGA"@,
    }
}

/// `extension` without one leading `.`.
fn strip_leading_dot(extension: &str) -> (stripped: &str)
    ensures
        stripped@ == without_leading_dot(extension@),
{
    let len = extension.unicode_len();
    if len > 0 && extension.get_char(0) == '.' {
        extension.substring_char(1, len)
    } else {
        extension
    }
}

impl SupportedImageFormat {
    pub fn display_name(self) -> (name: &'static str)
        ensures
            name@ == supported_format_name(self),
    {
        match self {
            Self::Jpeg => "JPEG",
            Self::Png => "PNG",
            Self::Bmp => "BMP",
            Self::Gif => "GIF",
            Self::Webp => "WebP",
            Self::Ico => "ICO",
            Self::Tiff => "TIFF",
            Self::Tga => "TGA",
        }
    }

    pub fn from_extension(extension: &str) -> (format: Option<Self>)
        ensures
            format == supported_format_for_extension(extension@),
    {
        let e = strip_leading_dot(extension);
        if eq_ignore_ascii_case(e, "jpg") || eq_ignore_ascii_case(e, "jpeg") {
            Some(Self::Jpeg)
        } else if eq_ignore_ascii_case(e, "png") {
            Some(Self::Png)
        } else if eq_ignore_ascii_case(e, "bmp") {
            Some(Self::Bmp)
        } else if eq_ignore_ascii_case(e, "gif") {
            Some(Self::Gif)
        } else if eq_ignore_ascii_case(e, "webp") {
            Some(Self::Webp)
        } else if eq_ignore_ascii_case(e, "ico") {
            Some(Self::Ico)
        } else if eq_ignore_ascii_case(e, "tif") || eq_ignore_ascii_case(e, "tiff") {
            Some(Self::Tiff)
        } else if eq_ignore_ascii_case(e, "tga") {
            Some(Self::Tga)
        } else {
            None
        }
    }
}

/// The name a format is shown by.
pub fn standard_image_format_name(format: SupportedImageFormat) -> (name: &'static str)
    ensures
        name@ == supported_format_name(format),
{
    format.display_name()
}

/// The formats the viewer writes.
#[derive(Debug, Clone, Copy, PartialEq, Eq, Structural)]
pub enum ExportFormat {
    Jpeg,
    Png,
    Bmp,
    Webp,
    Ico,
}

/// The qualities a lossy format accepts, and the one it uses by default.
#[derive(Debug, Clone, Copy, PartialEq, Eq, Structural)]
pub struct ExportQualityRange {
    min: u8,
    max: u8,
    default: u8,
}

impl ExportQualityRange {
    pub closed spec fn spec_min(self) -> u8 {
        self.min
    }

    pub closed spec fn spec_max(self) -> u8 {
        self.max
    }

    pub closed spec fn spec_default(self) -> u8 {
        self.default
    }

    pub proof fn lemma_eq(a: Self, b: Self)
        ensures
            (a == b) <==> (a.min() == b.min() && a.max() == b.max() && a.default() == b.default()),
    {
    }

    pub fn new(min: u8, max: u8, default: u8) -> (range: Self)
        ensures
            range.min() == min,
            range.max() == max,
            range.default() == default,
    {
        Self { min, max, default }
    }

    #[verifier::when_used_as_spec(spec_min)]
    pub fn min(self) -> (min: u8)
        ensures
            min == self.min(),
    {
        self.min
    }

    #[verifier::when_used_as_spec(spec_max)]
    pub fn max(self) -> (max: u8)
        ensures
            max == self.max(),
    {
        self.max
    }

    #[verifier::when_used_as_spec(spec_default)]
    pub fn default(self) -> (default: u8)
        ensures
            default == self.default(),
    {
        self.default
    }

    /// `quality` limited to `min ..= max`.
    pub open spec fn clamped(self, quality: u8) -> u8 {
        if quality < self.min() {
            self.min()
        } else if quality > self.max() {
            self.max()
        } else {
            quality
        }
    }

    /// `quality` limited to the range; the range must not be empty.
    pub fn clamp(self, quality: u8) -> (clamped: u8)
        requires
            self.min() <= self.max(),
        ensures
            clamped == self.clamped(quality),
    {
        if quality < self.min {
            self.min
        } else if quality > self.max {
            self.max
        } else {
            quality
        }
    }
}

#[derive(Debug, Clone, Copy, PartialEq, Eq, Structural)]
pub enum ExportOrientationPolicy {
    Display,
}

#[derive(Debug, Clone, Copy, PartialEq, Eq, Structural)]
pub enum ExportAnimationPolicy {
    CurrentFrame,
}

/// The quality range of a format: JPEG takes 1 ..= 100 with 90 by default;
/// the lossless formats take none.
pub open spec fn quality_range_of(format: ExportFormat) -> Option<(u8, u8, u8)> {
    match format {
        ExportFormat::Jpeg => Some((MIN_EXPORT_QUALITY, MAX_EXPORT_QUALITY, DEFAULT_EXPORT_QUALITY)),
        _ => None,
    }
}

/// The limits of a range as a triple.
pub open spec fn range_limits(range: ExportQualityRange) -> (u8, u8, u8) {
    (range.min(), range.max(), range.default())
}

pub fn export_quality_range(format: ExportFormat) -> (range: Option<ExportQualityRange>)
    ensures
        match range {
            Some(r) => quality_range_of(format) == Some(range_limits(r)),
            None => quality_range_of(format) is None,
        },
{
    match format {
        ExportFormat::Jpeg => Some(ExportQualityRange::new(MIN_EXPORT_QUALITY, MAX_EXPORT_QUALITY, DEFAULT_EXPORT_QUALITY)),
        ExportFormat::Png | ExportFormat::Bmp | ExportFormat::Webp | ExportFormat::Ico => None,
    }
}

/// `quality` limited to 1 ..= 100.
pub open spec fn clamped_quality(quality: u8) -> u8 {
    if quality < MIN_EXPORT_QUALITY {
        MIN_EXPORT_QUALITY
    } else if quality > MAX_EXPORT_QUALITY {
        MAX_EXPORT_QUALITY
    } else {
        quality
    }
}

/// The quality a format uses for a requested one: limited to the range for
/// JPEG, none for the lossless formats.
pub fn clamp_export_quality(format: ExportFormat, quality: u8) -> (clamped: Option<u8>)
    ensures
        clamped == (match format {
            ExportFormat::Jpeg => Some(clamped_quality(quality)),
            _ => None,
        }),
{
    match export_quality_range(format) {
        Some(range) => Some(range.clamp(quality)),
        None => None,
    }
}

/// How an image is written: its format and quality, the rotation and size it
/// gets, whether its metadata is kept, and the colour behind transparent pixels
/// in a JPEG.
#[derive(Debug, Clone, Copy, PartialEq, Eq, Structural)]
pub struct ExportOptions {
    format: ExportFormat,
    quality: Option<u8>,
    orientation_policy: ExportOrientationPolicy,
    animation_policy: ExportAnimationPolicy,
    rotation: ImageRotation,
    target_size: Option<ImageSize>,
    remove_metadata: bool,
    jpeg_alpha_background_rgb: RgbColor,
}

/// A requested size that an export can take: none for ICO, and none for an
/// empty size.
pub open spec fn accepted_target_size(format: ExportFormat, target_size: Option<ImageSize>) -> Option<ImageSize> {
    if format == ExportFormat::Ico {
        None
    } else {
        match target_size {
            Some(size) => if size.width() == 0 || size.height() == 0 {
                None
            } else {
                Some(size)
            },
            None => None,
        }
    }
}

impl ExportOptions {
    pub closed spec fn spec_format(self) -> ExportFormat {
        self.format
    }

    pub closed spec fn spec_quality(self) -> Option<u8> {
        self.quality
    }

    pub closed spec fn spec_rotation(self) -> ImageRotation {
        self.rotation
    }

    pub closed spec fn spec_target_size(self) -> Option<ImageSize> {
        self.target_size
    }

    pub closed spec fn spec_remove_metadata(self) -> bool {
        self.remove_metadata
    }

    pub closed spec fn spec_jpeg_alpha_background_rgb(self) -> RgbColor {
        self.jpeg_alpha_background_rgb
    }

    pub proof fn lemma_eq(a: Self, b: Self)
        ensures
            (a == b) <==> (a.format() == b.format() && a.quality() == b.quality() && a.rotation()
                == b.rotation() && a.target_size() == b.target_size() && a.remove_metadata()
                == b.remove_metadata() && a.jpeg_alpha_background_rgb()
                == b.jpeg_alpha_background_rgb()),
    {
        if a.format() == b.format() && a.quality() == b.quality() && a.rotation() == b.rotation()
            && a.target_size() == b.target_size() && a.remove_metadata() == b.remove_metadata()
            && a.jpeg_alpha_background_rgb() == b.jpeg_alpha_background_rgb() {
            assert(a.orientation_policy == b.orientation_policy);
            assert(a.animation_policy == b.animation_policy);
        }
    }

    /// Options for `format` with the requested quality (the format's default
    /// when none is given) limited to its range, no rotation, no resizing,
    /// metadata kept and a white JPEG background.
    pub fn new(format: ExportFormat, requested_quality: Option<u8>) -> (options: Self)
        ensures
            options.format() == format,
            options.quality() == (match format {
                ExportFormat::Jpeg => Some(
                    clamped_quality(
                        match requested_quality {
                            Some(q) => q,
                            None => DEFAULT_EXPORT_QUALITY,
                        },
                    ),
                ),
                _ => None,
            }),
            options.rotation() == ImageRotation::Degrees0,
            options.target_size() is None,
            !options.remove_metadata(),
            options.jpeg_alpha_background_rgb().red() == 255,
            options.jpeg_alpha_background_rgb().green() == 255,
            options.jpeg_alpha_background_rgb().blue() == 255,
    {
        let quality = match export_quality_range(format) {
            Some(range) => {
                let requested = match requested_quality {
                    Some(q) => q,
                    None => range.default(),
                };
                Some(range.clamp(requested))
            },
            None => None,
        };
        Self {
            format,
            quality,
            orientation_policy: ExportOrientationPolicy::Display,
            animation_policy: ExportAnimationPolicy::CurrentFrame,
            rotation: ImageRotation::ZERO,
            target_size: None,
            remove_metadata: false,
            jpeg_alpha_background_rgb: RgbColor::white(),
        }
    }

    pub fn with_rotation(self, rotation: ImageRotation) -> (options: Self)
        ensures
            options.format() == self.format(),
            options.quality() == self.quality(),
            options.rotation() == rotation,
            options.target_size() == self.target_size(),
            options.remove_metadata() == self.remove_metadata(),
            options.jpeg_alpha_background_rgb() == self.jpeg_alpha_background_rgb(),
    {
        Self { rotation, ..self }
    }

    /// The same options resizing to `target_size`; an empty size, or any size
    /// for ICO, means no resizing.
    pub fn with_target_size(self, target_size: Option<ImageSize>) -> (options: Self)
        ensures
            options.format() == self.format(),
            options.quality() == self.quality(),
            options.rotation() == self.rotation(),
            options.target_size() == accepted_target_size(self.format(), target_size),
            options.remove_metadata() == self.remove_metadata(),
            options.jpeg_alpha_background_rgb() == self.jpeg_alpha_background_rgb(),
    {
        let accepted = match self.format {
            ExportFormat::Ico => None,
            _ => match target_size {
                Some(size) => if size.is_empty() {
                    None
                } else {
                    Some(size)
                },
                None => None,
            },
        };
        Self { target_size: accepted, ..self }
    }

    pub fn with_remove_metadata(self, remove_metadata: bool) -> (options: Self)
        ensures
            options.format() == self.format(),
            options.quality() == self.quality(),
            options.rotation() == self.rotation(),
            options.target_size() == self.target_size(),
            options.remove_metadata() == remove_metadata,
            options.jpeg_alpha_background_rgb() == self.jpeg_alpha_background_rgb(),
    {
        Self { remove_metadata, ..self }
    }

    /// These options with `color` behind transparent pixels in a JPEG.
    pub closed spec fn spec_with_jpeg_alpha_background_rgb(self, color: RgbColor) -> Self {
        Self { jpeg_alpha_background_rgb: color, ..self }
    }

    pub fn with_jpeg_alpha_background_rgb(self, color: RgbColor) -> (options: Self)
        ensures
            options == self.spec_with_jpeg_alpha_background_rgb(color),
            options.format() == self.format(),
            options.quality() == self.quality(),
            options.rotation() == self.rotation(),
            options.target_size() == self.target_size(),
            options.remove_metadata() == self.remove_metadata(),
            options.jpeg_alpha_background_rgb() == color,
    {
        Self { jpeg_alpha_background_rgb: color, ..self }
    }

    #[verifier::when_used_as_spec(spec_format)]
    pub fn format(self) -> (format: ExportFormat)
        ensures
            format == self.format(),
    {
        self.format
    }

    #[verifier::when_used_as_spec(spec_quality)]
    pub fn quality(self) -> (quality: Option<u8>)
        ensures
            quality == self.quality(),
    {
        self.quality
    }

    /// Exports are always written as displayed.
    pub fn orientation_policy(self) -> (policy: ExportOrientationPolicy)
        ensures
            policy == ExportOrientationPolicy::Display,
    {
        self.orientation_policy
    }

    /// Animations are always exported as their current frame.
    pub fn animation_policy(self) -> (policy: ExportAnimationPolicy)
        ensures
            policy == ExportAnimationPolicy::CurrentFrame,
    {
        self.animation_policy
    }

    #[verifier::when_used_as_spec(spec_rotation)]
    pub fn rotation(self) -> (rotation: ImageRotation)
        ensures
            rotation == self.rotation(),
    {
        self.rotation
    }

    #[verifier::when_used_as_spec(spec_target_size)]
    pub fn target_size(self) -> (target_size: Option<ImageSize>)
        ensures
            target_size == self.target_size(),
    {
        self.target_size
    }

    #[verifier::when_used_as_spec(spec_remove_metadata)]
    pub fn remove_metadata(self) -> (remove: bool)
        ensures
            remove == self.remove_metadata(),
    {
        self.remove_metadata
    }

    #[verifier::when_used_as_spec(spec_jpeg_alpha_background_rgb)]
    pub fn jpeg_alpha_background_rgb(self) -> (color: RgbColor)
        ensures
            color == self.jpeg_alpha_background_rgb(),
    {
        self.jpeg_alpha_background_rgb
    }
}

/// `source_other_axis * target_axis / source_axis`, rounded to nearest with
/// halves up, at least 1; none when an axis is zero or the result does not
/// fit in `u32`.
pub open spec fn scaled_dimension(source_other_axis: u32, target_axis: u32, source_axis: u32) -> Option<u32> {
    if source_axis == 0 || source_other_axis == 0 || target_axis == 0 {
        None
    } else {
        let rounded = (source_other_axis * target_axis + source_axis / 2) / (source_axis as int);
        let at_least_one = if rounded < 1 {
            1
        } else {
            rounded
        };
        if at_least_one <= u32::MAX {
            Some(at_least_one as u32)
        } else {
            None
        }
    }
}

fn scaled_dimension_preserving_aspect(source_other_axis: u32, target_axis: u32, source_axis: u32) -> (dimension: Option<u32>)
    ensures
        dimension == scaled_dimension(source_other_axis, target_axis, source_axis),
{
    if source_axis == 0 || source_other_axis == 0 || target_axis == 0 {
        return None;
    }
    let other: u64 = source_other_axis as u64;
    let target: u64 = target_axis as u64;
    assert(other * target <= 0xffff_fffe_0000_0001) by (nonlinear_arith)
        requires
            other <= 0xffff_ffff,
            target <= 0xffff_ffff,
    ;
    let numerator: u64 = other * target;
    let half: u64 = (source_axis / 2) as u64;
    let rounded: u64 = (numerator + half) / (source_axis as u64);
    let at_least_one: u64 = if rounded < 1 {
        1
    } else {
        rounded
    };
    if at_least_one <= 0xffff_ffff {
        Some(at_least_one as u32)
    } else {
        None
    }
}

/// The other axis of a resized image is the source's other axis scaled by
/// `target / axis` and rounded half up, and at least one: with
/// `q = other * target + axis / 2`, it is the `r` with `r * axis <= q <
/// (r + 1) * axis` (or one when `q < axis`); there is none when that does not
/// fit in `u32`. This holds for every target, larger or smaller than the
/// source.
pub proof fn law_scaled_dimension_rounds_the_ratio(other: u32, target: u32, axis: u32)
    requires
        other > 0,
        target > 0,
        axis > 0,
    ensures
        ({
            let q = other * target + axis / 2;
            match scaled_dimension(other, target, axis) {
                Some(r) => {
                    &&& r >= 1
                    &&& q >= axis ==> r * axis <= q < (r + 1) * axis
                    &&& q < axis ==> r == 1
                },
                None => q >= (u32::MAX + 1) * axis,
            }
        }),
{
    let q = other * target + axis / 2;
    let d = q / (axis as int);
    assert(q == axis * d + q % (axis as int) && 0 <= q % (axis as int) < axis) by {
        vstd::arithmetic::div_mod::lemma_fundamental_div_mod(q, axis as int);
        vstd::arithmetic::div_mod::lemma_mod_bound(q, axis as int);
    }
    assert(d * axis <= q < (d + 1) * axis) by (nonlinear_arith)
        requires
            q == axis * d + q % (axis as int),
            0 <= q % (axis as int) < axis,
    ;
    if q >= axis {
        assert(d >= 1) by (nonlinear_arith)
            requires
                d * axis <= q < (d + 1) * axis,
                q >= axis,
                axis > 0,
        ;
    } else {
        assert(d < 1) by (nonlinear_arith)
            requires
                d * axis <= q,
                q < axis,
                (d + 1) * axis > q,
                q >= 0,
                axis > 0,
        ;
    }
    if d > u32::MAX {
        assert(q >= (u32::MAX + 1) * axis) by (nonlinear_arith)
            requires
                d * axis <= q,
                d >= u32::MAX + 1,
                axis > 0,
        ;
    } else if q >= axis {
        assert(q < (u32::MAX + 1) * axis) by (nonlinear_arith)
            requires
                q < (d + 1) * axis,
                d <= u32::MAX,
                axis > 0,
        ;
    }
}

/// Resizing to `k` times the source's axis gives exactly `k` times its other
/// axis, when that fits: an image twice as wide is twice as tall.
pub proof fn law_scaled_dimension_of_a_multiple(other: u32, axis: u32, k: int)
    requires
        other > 0,
        axis > 0,
        k >= 1,
        k * axis <= u32::MAX,
        other * k <= u32::MAX,
    ensures
        scaled_dimension(other, (k * axis) as u32, axis) == Some((other * k) as u32),
{
    assert(k * axis >= axis) by (nonlinear_arith)
        requires
            k >= 1,
            axis > 0,
    ;
    let target = (k * axis) as u32;
    assert(target == k * axis && target > 0);
    let q = other * target + axis / 2;
    assert(q == (other * k) * axis + axis / 2) by (nonlinear_arith)
        requires
            target == k * axis,
            q == other * target + axis / 2,
    ;
    assert(0 <= axis / 2 < axis);
    vstd::arithmetic::div_mod::lemma_fundamental_div_mod_converse(q, axis as int, other * k, (axis / 2) as int);
    assert(other * k >= 1) by (nonlinear_arith)
        requires
            other >= 1,
            k >= 1,
    ;
    assert((other * target + axis / 2) / (axis as int) == other * k);
}

/// The export size with `width` and the source's aspect ratio.
pub fn export_size_from_width_preserving_aspect(source_size: ImageSize, width: u32) -> (size: Option<ImageSize>)
    ensures
        size == (match scaled_dimension(source_size.height(), width, source_size.width()) {
            Some(height) => Some(ImageSize::spec_new(width, height)),
            None => None,
        }),
{
    match scaled_dimension_preserving_aspect(source_size.height(), width, source_size.width()) {
        Some(height) => Some(ImageSize::new(width, height)),
        None => None,
    }
}

/// The export size with `height` and the source's aspect ratio.
pub fn export_size_from_height_preserving_aspect(source_size: ImageSize, height: u32) -> (size: Option<ImageSize>)
    ensures
        size == (match scaled_dimension(source_size.width(), height, source_size.height()) {
            Some(width) => Some(ImageSize::spec_new(width, height)),
            None => None,
        }),
{
    match scaled_dimension_preserving_aspect(source_size.width(), height, source_size.height()) {
        Some(width) => Some(ImageSize::new(width, height)),
        None => None,
    }
}

pub open spec fn export_format_name(format: ExportFormat) -> Seq<char> {
    match format {
        ExportFormat::Jpeg => "JPEG"@,
        ExportFormat::Png => "PNG"@,
        ExportFormat::Bmp => "BMP"@,
        ExportFormat::Webp => "WebP"@,
        ExportFormat::Ico => "ICO"@,
    }
}

pub open spec fn export_format_mime(format: ExportFormat) -> Seq<char> {
    match format {
        ExportFormat::Jpeg => "image/jpeg"@,
        ExportFormat::Png => "image/png"@,
        ExportFormat::Bmp => "image/bmp"@,
        ExportFormat::Webp => "image/webp"@,
        ExportFormat::Ico => "image/vnd.microsoft.icon"@,
    }
}

/// The extension an exported file gets.
pub open spec fn export_extension(format: ExportFormat) -> Seq<char> {
    match format {
        ExportFormat::Jpeg => "jpg"@,
        ExportFormat::Png => "png"@,
        ExportFormat::Bmp => "bmp"@,
        ExportFormat::Webp => "webp"@,
        ExportFormat::Ico => "ico"@,
    }
}

/// A format's default extension is not empty and holds no `.`.
pub proof fn lemma_export_extension_plain(format: ExportFormat)
    ensures
        export_extension(format).len() > 0,
        !export_extension(format).contains('.'),
{
    reveal_strlit("jpg");
    reveal_strlit("png");
    reveal_strlit("bmp");
    reveal_strlit("webp");
    reveal_strlit("ico");
    let extension = export_extension(format);
    assert(!extension.contains('.'));
}

/// A format's default extension names that format.
pub proof fn lemma_export_extension_names_format(format: ExportFormat)
    ensures
        export_format_for_extension_text(export_extension(format)) == Some(format),
{
    reveal_strlit("jpg");
    reveal_strlit("jpeg");
    reveal_strlit("png");
    reveal_strlit("bmp");
    reveal_strlit("webp");
    reveal_strlit("ico");
    let extension = export_extension(format);
    assert(without_leading_dot(extension) == extension);
    assert(equal_ignoring_ascii_case(extension, extension));
    let first = ascii_lower(extension[0]);
    assert(first != ascii_lower("jpg"@[0]) ==> !equal_ignoring_ascii_case(extension, "jpg"@));
    assert(first != ascii_lower("jpeg"@[0]) ==> !equal_ignoring_ascii_case(extension, "jpeg"@));
    assert(first != ascii_lower("png"@[0]) ==> !equal_ignoring_ascii_case(extension, "png"@));
    assert(first != ascii_lower("bmp"@[0]) ==> !equal_ignoring_ascii_case(extension, "bmp"@));
    assert(first != ascii_lower("webp"@[0]) ==> !equal_ignoring_ascii_case(extension, "webp"@));
}

/// A format's default extension is a plain name, with no path separator in it.
pub proof fn lemma_export_extension_holds_no_separator(format: ExportFormat)
    ensures
        holds_no_separator(export_extension(format)),
{
    reveal_strlit("jpg");
    reveal_strlit("png");
    reveal_strlit("bmp");
    reveal_strlit("webp");
    reveal_strlit("ico");
    let extension = export_extension(format);
    assert(!extension.contains('/'));
    assert(!extension.contains('\\'));
}

pub fn export_format_display_name(format: ExportFormat) -> (name: &'static str)
    ensures
        name@ == export_format_name(format),
{
    match format {
        ExportFormat::Jpeg => "JPEG",
        ExportFormat::Png => "PNG",
        ExportFormat::Bmp => "BMP",
        ExportFormat::Webp => "WebP",
        ExportFormat::Ico => "ICO",
    }
}

pub fn export_format_mime_type(format: ExportFormat) -> (mime: &'static str)
    ensures
        mime@ == export_format_mime(format),
{
    match format {
        ExportFormat::Jpeg => "image/jpeg",
        ExportFormat::Png => "image/png",
        ExportFormat::Bmp => "image/bmp",
        ExportFormat::Webp => "image/webp",
        ExportFormat::Ico => "image/vnd.microsoft.icon",
    }
}

pub fn export_format_default_extension(format: ExportFormat) -> (extension: &'static str)
    ensures
        extension@ == export_extension(format),
{
    match format {
        ExportFormat::Jpeg => "jpg",
        ExportFormat::Png => "png",
        ExportFormat::Bmp => "bmp",
        ExportFormat::Webp => "webp",
        ExportFormat::Ico => "ico",
    }
}

/// Every extension a format is written with; the default one first.
pub fn export_format_extensions(format: ExportFormat) -> (extensions: Vec<&'static str>)
    ensures
        extensions@.len() >= 1,
        extensions@[0]@ == export_extension(format),
        format == ExportFormat::Jpeg ==> extensions@.len() == 2 && extensions@[1]@ == "jpeg"@,
        format != ExportFormat::Jpeg ==> extensions@.len() == 1,
{
    match format {
        ExportFormat::Jpeg => vec!["jpg", "jpeg"],
        ExportFormat::Png => vec!["png"],
        ExportFormat::Bmp => vec!["bmp"],
        ExportFormat::Webp => vec!["webp"],
        ExportFormat::Ico => vec!["ico"],
    }
}

/// The export format an extension names, compared without regard to ASCII
/// case; GIF, TIFF and TGA are not written.
pub open spec fn export_format_for_extension_text(extension: Seq<char>) -> Option<ExportFormat> {
    let e = without_leading_dot(extension);
    if equal_ignoring_ascii_case(e, "jpg"@) || equal_ignoring_ascii_case(e, "jpeg"@) {
        Some(ExportFormat::Jpeg)
    } else if equal_ignoring_ascii_case(e, "png"@) {
        Some(ExportFormat::Png)
    } else if equal_ignoring_ascii_case(e, "bmp"@) {
        Some(ExportFormat::Bmp)
    } else if equal_ignoring_ascii_case(e, "webp"@) {
        Some(ExportFormat::Webp)
    } else if equal_ignoring_ascii_case(e, "ico"@) {
        Some(ExportFormat::Ico)
    } else {
        None
    }
}

pub fn export_format_for_extension(extension: &str) -> (format: Option<ExportFormat>)
    ensures
        format == export_format_for_extension_text(extension@),
{
    let e = strip_leading_dot(extension);
    if eq_ignore_ascii_case(e, "jpg") || eq_ignore_ascii_case(e, "jpeg") {
        Some(ExportFormat::Jpeg)
    } else if eq_ignore_ascii_case(e, "png") {
        Some(ExportFormat::Png)
    } else if eq_ignore_ascii_case(e, "bmp") {
        Some(ExportFormat::Bmp)
    } else if eq_ignore_ascii_case(e, "webp") {
        Some(ExportFormat::Webp)
    } else if eq_ignore_ascii_case(e, "ico") {
        Some(ExportFormat::Ico)
    } else {
        None
    }
}

/// The export format a path's extension names.
pub open spec fn export_format_of_path(path: Seq<char>) -> Option<ExportFormat> {
    match path_extension_of(path) {
        Some(extension) => export_format_for_extension_text(extension),
        None => None,
    }
}

pub fn export_format_for_path(path: &str) -> (format: Option<ExportFormat>)
    ensures
        format == export_format_of_path(path@),
{
    match path_extension(path) {
        Some(extension) => export_format_for_extension(extension.as_str()),
        None => None,
    }
}

/// The format a source is exported to by default: its own where it can be
/// written, PNG for GIF, TIFF and TGA.
pub open spec fn source_export_format(format: SupportedImageFormat) -> ExportFormat {
    match format {
        SupportedImageFormat::Jpeg => ExportFormat::Jpeg,
        SupportedImageFormat::Png => ExportFormat::Png,
        SupportedImageFormat::Bmp => ExportFormat::Bmp,
        SupportedImageFormat::Gif => ExportFormat::Png,
        SupportedImageFormat::Webp => ExportFormat::Webp,
        SupportedImageFormat::Ico => ExportFormat::Ico,
        SupportedImageFormat::Tiff | SupportedImageFormat::Tga => ExportFormat::Png,
    }
}

pub fn default_export_format_for_source_format(format: SupportedImageFormat) -> (export_format: ExportFormat)
    ensures
        export_format == source_export_format(format),
{
    match format {
        SupportedImageFormat::Jpeg => ExportFormat::Jpeg,
        SupportedImageFormat::Png => ExportFormat::Png,
        SupportedImageFormat::Bmp => ExportFormat::Bmp,
        SupportedImageFormat::Gif => ExportFormat::Png,
        SupportedImageFormat::Webp => ExportFormat::Webp,
        SupportedImageFormat::Ico => ExportFormat::Ico,
        SupportedImageFormat::Tiff | SupportedImageFormat::Tga => ExportFormat::Png,
    }
}

/// `path` when its extension already names `format`; otherwise `path` with
/// its extension set to the format's default one.
pub open spec fn path_for_format(path: Seq<char>, format: ExportFormat) -> Seq<char> {
    if export_format_of_path(path) == Some(format) {
        path
    } else {
        path_with_extension(path, export_extension(format))
    }
}

/// Corrects `path` to the format's extension (see [`path_for_format`]). A
/// path with a file name then names the format, so correcting it again
/// changes nothing.
pub fn export_path_with_format_extension(path: &str, format: ExportFormat) -> (corrected: String)
    ensures
        corrected@ == path_for_format(path@, format),
        (file_name_of(path@) matches Some(name) && name.len() > 0) ==> export_format_of_path(corrected@) == Some(format),
        (file_name_of(path@) matches Some(name) && name.len() > 0) ==> path_for_format(corrected@, format)
            == corrected@,
{
    let extension_matches = match export_format_for_path(path) {
        Some(path_format) => path_format == format,
        None => false,
    };
    if extension_matches {
        return path.to_owned();
    }
    let extension = export_format_default_extension(format);
    proof {
        lemma_export_extension_holds_no_separator(format);
    }
    let corrected = path_set_extension(path, extension);
    proof {
        if let Some(name) = file_name_of(path@) {
            if name.len() > 0 {
                lemma_stem_of_name_not_empty(name);
                lemma_export_extension_plain(format);
                lemma_extension_of_joined_name(stem_of_name(name), export_extension(format));
                lemma_export_extension_names_format(format);
            }
        }
    }
    corrected
}

/// The format of the image a path names, by its extension.
pub open spec fn supported_format_of_path(path: Seq<char>) -> Option<SupportedImageFormat> {
    match path_extension_of(path) {
        Some(extension) => supported_format_for_extension(extension),
        None => None,
    }
}

pub fn supported_image_format_for_path(path: &str) -> (format: Option<SupportedImageFormat>)
    ensures
        format == supported_format_of_path(path@),
{
    match path_extension(path) {
        Some(extension) => SupportedImageFormat::from_extension(extension.as_str()),
        None => None,
    }
}

pub fn is_supported_image_path(path: &str) -> (supported: bool)
    ensures
        supported == supported_format_of_path(path@) is Some,
{
    supported_image_format_for_path(path).is_some()
}

/// The first path of `paths` that names a supported image, in their order.
pub fn first_supported_image_path<'a>(paths: &[&'a str]) -> (first: Option<&'a str>)
    ensures
        match first {
            Some(p) => exists|i: int|
                0 <= i < paths@.len() && paths@[i] == p && supported_format_of_path(p@) is Some
                    && forall|j: int| 0 <= j < i ==> supported_format_of_path(#[trigger] paths@[j]@) is None,
            None => forall|j: int| 0 <= j < paths@.len() ==> supported_format_of_path(#[trigger] paths@[j]@) is None,
        },
{
    let mut i: usize = 0;
    while i < paths.len()
        invariant
            i <= paths@.len(),
            forall|j: int| 0 <= j < i ==> supported_format_of_path(#[trigger] paths@[j]@) is None,
        decreases paths@.len() - i,
    {
        if is_supported_image_path(paths[i]) {
            return Some(paths[i]);
        }
        i = i + 1;
    }
    None
}

/// Why a file-name suffix was refused.
#[derive(Debug, Clone, Copy, PartialEq, Eq, Structural)]
pub enum ExportFilenameSuffixValidationError {
    Empty,
    TooLong,
    InvalidCharacter,
}

/// The characters a file-name suffix may not hold: control characters and
/// those Windows reserves in file names.
pub open spec fn is_invalid_suffix_char(c: char) -> bool {
    is_control_char(c) || c == '\\' || c == '/' || c == ':' || c == '*' || c == '?' || c == '"' || c == '<'
        || c == '>' || c == '|'
}

fn is_invalid_export_suffix_character(c: char) -> (invalid: bool)
    ensures
        invalid == is_invalid_suffix_char(c),
{
    is_control(c) || c == '\\' || c == '/' || c == ':' || c == '*' || c == '?' || c == '"' || c == '<'
        || c == '>' || c == '|'
}

/// The outcome of checking a suffix: the trimmed suffix, or why it is refused.
pub open spec fn suffix_check(suffix: Seq<char>) -> Result<Seq<char>, ExportFilenameSuffixValidationError> {
    let t = trimmed(suffix);
    if t.len() == 0 {
        Err(ExportFilenameSuffixValidationError::Empty)
    } else if t.len() > MAX_EXPORT_FILENAME_SUFFIX_CHARS {
        Err(ExportFilenameSuffixValidationError::TooLong)
    } else if exists|i: int| 0 <= i < t.len() && is_invalid_suffix_char(#[trigger] t[i]) {
        Err(ExportFilenameSuffixValidationError::InvalidCharacter)
    } else {
        Ok(t)
    }
}

/// The suffix trimmed, when it is not empty, at most 64 characters long and
/// free of characters a file name may not hold.
pub fn validate_export_filename_suffix(suffix: &str) -> (checked: Result<&str, ExportFilenameSuffixValidationError>)
    ensures
        match checked {
            Ok(s) => suffix_check(suffix@) == Ok::<Seq<char>, ExportFilenameSuffixValidationError>(s@),
            Err(e) => suffix_check(suffix@) == Err::<Seq<char>, ExportFilenameSuffixValidationError>(e),
        },
{
    let checked = trim(suffix);
    let len = checked.unicode_len();
    if len == 0 {
        return Err(ExportFilenameSuffixValidationError::Empty);
    }
    if len > MAX_EXPORT_FILENAME_SUFFIX_CHARS {
        return Err(ExportFilenameSuffixValidationError::TooLong);
    }
    let mut i: usize = 0;
    while i < len
        invariant
            checked@ == trimmed(suffix@),
            len == checked@.len(),
            0 < len <= MAX_EXPORT_FILENAME_SUFFIX_CHARS,
            i <= len,
            forall|j: int| 0 <= j < i ==> !is_invalid_suffix_char(#[trigger] checked@[j]),
        decreases len - i,
    {
        if is_invalid_export_suffix_character(checked.get_char(i)) {
            assert(is_invalid_suffix_char(checked@[i as int]));
            return Err(ExportFilenameSuffixValidationError::InvalidCharacter);
        }
        i = i + 1;
    }
    Ok(checked)
}

/// The suffix added to the name of an exported file unless another is set.
pub open spec fn default_suffix() -> Seq<char> {
    "-export"@
}

/// The suffix a setting holds: the checked suffix, or `-export` when it is refused.
pub open spec fn sanitized_suffix(suffix: Seq<char>) -> Seq<char> {
    match suffix_check(suffix) {
        Ok(s) => s,
        Err(_) => default_suffix(),
    }
}

pub fn sanitize_export_filename_suffix(suffix: &str) -> (sanitized: String)
    ensures
        sanitized@ == sanitized_suffix(suffix@),
{
    match validate_export_filename_suffix(suffix) {
        Ok(suffix) => suffix.to_owned(),
        Err(_) => "-export".to_owned(),
    }
}

/// The name an exported file gets: the source's stem (or `image`), the
/// suffix and the format's extension, beside the source when it has a folder.
pub open spec fn suggested_path(source: Seq<char>, format: ExportFormat, suffix: Seq<char>) -> Seq<char> {
    let stem = match path_stem_of(source) {
        Some(stem) => if stem.len() > 0 {
            stem
        } else {
            "image"@
        },
        None => "image"@,
    };
    let file_name = stem + sanitized_suffix(suffix) + "."@ + export_extension(format);
    match parent_of(source) {
        Some(parent) => if parent.len() > 0 {
            joined_path(parent, file_name)
        } else {
            file_name
        },
        None => file_name,
    }
}

pub fn suggested_export_path_with_suffix(source_path: &str, format: ExportFormat, suffix: &str) -> (path: String)
    ensures
        path@ == suggested_path(source_path@, format, suffix@),
{
    let suffix = sanitize_export_filename_suffix(suffix);
    let mut file_name = match path_file_stem(source_path) {
        Some(stem) => if stem.unicode_len() > 0 {
            stem
        } else {
            "image".to_owned()
        },
        None => "image".to_owned(),
    };
    file_name.append(suffix.as_str());
    file_name.append(".");
    file_name.append(export_format_default_extension(format));
    match path_parent(source_path) {
        Some(parent) => if parent.unicode_len() > 0 {
            path_join(parent.as_str(), file_name.as_str())
        } else {
            file_name
        },
        None => file_name,
    }
}

pub fn suggested_export_path(source_path: &str, format: ExportFormat) -> (path: String)
    ensures
        path@ == suggested_path(source_path@, format, default_suffix()),
{
    suggested_export_path_with_suffix(source_path, format, "-export")
}

/// Which format an export starts from: the source's own, or a fixed one.
#[derive(Debug, Clone, Copy, PartialEq, Eq, Structural)]
pub enum DefaultExportFormatPolicy {
    Source,
    Png,
    Jpeg,
    Bmp,
    Webp,
    Ico,
}

impl DefaultExportFormatPolicy {
    pub open spec fn format_for(self, source_format: SupportedImageFormat) -> ExportFormat {
        match self {
            DefaultExportFormatPolicy::Source => source_export_format(source_format),
            DefaultExportFormatPolicy::Png => ExportFormat::Png,
            DefaultExportFormatPolicy::Jpeg => ExportFormat::Jpeg,
            DefaultExportFormatPolicy::Bmp => ExportFormat::Bmp,
            DefaultExportFormatPolicy::Webp => ExportFormat::Webp,
            DefaultExportFormatPolicy::Ico => ExportFormat::Ico,
        }
    }

    pub fn export_format_for_source(self, source_format: SupportedImageFormat) -> (format: ExportFormat)
        ensures
            format == self.format_for(source_format),
    {
        match self {
            Self::Source => default_export_format_for_source_format(source_format),
            Self::Png => ExportFormat::Png,
            Self::Jpeg => ExportFormat::Jpeg,
            Self::Bmp => ExportFormat::Bmp,
            Self::Webp => ExportFormat::Webp,
            Self::Ico => ExportFormat::Ico,
        }
    }
}

/// Under the `source` policy an image is exported in its own format wherever
/// that format can be written: a file carrying an export format's default
/// extension opens as a source that exports back to that same format, and
/// every source exports to the export format of its own name, or to PNG when
/// no export format has that name.
pub proof fn law_source_policy_keeps_writable_formats(export: ExportFormat, source: SupportedImageFormat)
    ensures
        supported_format_for_extension(export_extension(export)) matches Some(opened)
            && DefaultExportFormatPolicy::Source.format_for(opened) == export,
        export_format_name(DefaultExportFormatPolicy::Source.format_for(source)) == supported_format_name(source)
            || (DefaultExportFormatPolicy::Source.format_for(source) == ExportFormat::Png && forall|e: ExportFormat|
            #[trigger] export_format_name(e) != supported_format_name(source)),
{
    reveal_strlit("jpg");
    reveal_strlit("jpeg");
    reveal_strlit("png");
    reveal_strlit("bmp");
    reveal_strlit("gif");
    reveal_strlit("webp");
    reveal_strlit("ico");
    let extension = export_extension(export);
    assert(without_leading_dot(extension) == extension);
    assert(equal_ignoring_ascii_case(extension, extension));
    let first = ascii_lower(extension[0]);
    assert(first != ascii_lower("jpg"@[0]) ==> !equal_ignoring_ascii_case(extension, "jpg"@));
    assert(first != ascii_lower("jpeg"@[0]) ==> !equal_ignoring_ascii_case(extension, "jpeg"@));
    assert(first != ascii_lower("png"@[0]) ==> !equal_ignoring_ascii_case(extension, "png"@));
    assert(first != ascii_lower("bmp"@[0]) ==> !equal_ignoring_ascii_case(extension, "bmp"@));
    assert(first != ascii_lower("gif"@[0]) ==> !equal_ignoring_ascii_case(extension, "gif"@));
    assert(first != ascii_lower("webp"@[0]) ==> !equal_ignoring_ascii_case(extension, "webp"@));
    reveal_strlit("JPEG");
    reveal_strlit("PNG");
    reveal_strlit("BMP");
    reveal_strlit("GIF");
    reveal_strlit("WebP");
    reveal_strlit("ICO");
    reveal_strlit("TIFF");
    reveal_strlit("TGA");
    let name = supported_format_name(source);
    if source == SupportedImageFormat::Gif || source == SupportedImageFormat::Tiff || source
        == SupportedImageFormat::Tga {
        assert forall|e: ExportFormat| #[trigger] export_format_name(e) != name by {
            assert(export_format_name(e)[0] != name[0]);
        }
    }
}

/// Whether a suffix passes the check unchanged.
pub open spec fn is_valid_suffix(suffix: Seq<char>) -> bool {
    suffix_check(suffix) == Ok::<Seq<char>, ExportFilenameSuffixValidationError>(suffix)
}

proof fn lemma_trim_start_no_leading(s: Seq<char>)
    ensures
        trim_start(s).len() > 0 ==> !is_whitespace_char(trim_start(s)[0]),
        trim_start(s).len() <= s.len(),
        trim_start(s) == s.subrange(s.len() - trim_start(s).len(), s.len() as int),
    decreases s.len(),
{
    if s.len() > 0 && is_whitespace_char(s[0]) {
        lemma_trim_start_no_leading(s.drop_first());
        let t = trim_start(s.drop_first());
        assert(s.drop_first().subrange(s.drop_first().len() - t.len(), s.drop_first().len() as int)
            == s.subrange(s.len() - t.len(), s.len() as int));
    } else {
        assert(s.subrange(0, s.len() as int) == s);
    }
}

proof fn lemma_trim_end_keeps_front(s: Seq<char>)
    ensures
        trim_end(s) == s.subrange(0, trim_end(s).len() as int),
        trim_end(s).len() <= s.len(),
        trim_end(s).len() > 0 ==> !is_whitespace_char(trim_end(s).last()),
    decreases s.len(),
{
    if s.len() > 0 && is_whitespace_char(s.last()) {
        lemma_trim_end_keeps_front(s.drop_last());
        let t = trim_end(s.drop_last());
        assert(s.drop_last().subrange(0, t.len() as int) == s.subrange(0, t.len() as int));
    } else {
        assert(s.subrange(0, s.len() as int) == s);
    }
}

proof fn lemma_trimmed_is_trimmed(s: Seq<char>)
    ensures
        trimmed(trimmed(s)) == trimmed(s),
{
    let a = trim_start(s);
    lemma_trim_start_no_leading(s);
    lemma_trim_end_keeps_front(a);
    let t = trim_end(a);
    if t.len() > 0 {
        assert(t[0] == a[0]);
        assert(trim_start(t) == t);
        assert(trim_end(t) == t);
    } else {
        assert(trim_start(t) == t);
        assert(trim_end(t) == t);
    }
}

/// Every suffix the check lets through, and every sanitized suffix, passes
/// the check again unchanged.
pub proof fn law_sanitized_suffix_is_valid(suffix: Seq<char>)
    ensures
        suffix_check(suffix) is Ok ==> is_valid_suffix(suffix_check(suffix)->Ok_0),
        is_valid_suffix(sanitized_suffix(suffix)),
{
    lemma_trimmed_is_trimmed(suffix);
    lemma_default_suffix_is_valid();
}

proof fn lemma_default_suffix_is_valid()
    ensures
        is_valid_suffix(default_suffix()),
{
    reveal_strlit("-export");
    let d = default_suffix();
    assert(d.len() == 7);
    assert(!is_whitespace_char(d[0]));
    assert(trim_start(d) == d);
    assert(!is_whitespace_char(d[6]));
    assert(trim_end(d) == d);
    assert forall|i: int| 0 <= i < d.len() implies !is_invalid_suffix_char(#[trigger] d[i]) by {
        assert(d[i] == '-' || ('a' <= d[i] <= 'z'));
    }
}

/// What the export settings hold: the default format policy, the suffix of
/// exported file names (always a valid one) and the JPEG background colour.
#[derive(Debug, PartialEq, Eq)]
pub struct ExportSettings {
    default_export_format_policy: DefaultExportFormatPolicy,
    export_filename_suffix: String,
    jpeg_alpha_background_rgb: RgbColor,
}

impl ExportSettings {
    #[verifier::type_invariant]
    closed spec fn wf(self) -> bool {
        is_valid_suffix(self.export_filename_suffix@)
    }

    pub closed spec fn policy(self) -> DefaultExportFormatPolicy {
        self.default_export_format_policy
    }

    pub closed spec fn suffix(self) -> Seq<char> {
        self.export_filename_suffix@
    }

    pub closed spec fn background(self) -> RgbColor {
        self.jpeg_alpha_background_rgb
    }

    /// Settings with the given policy, suffix (sanitized) and colour.
    pub fn new(default_export_format_policy: DefaultExportFormatPolicy, export_filename_suffix: &str, jpeg_alpha_background_rgb: RgbColor) -> (settings: Self)
        ensures
            settings.policy() == default_export_format_policy,
            settings.suffix() == sanitized_suffix(export_filename_suffix@),
            settings.background() == jpeg_alpha_background_rgb,
    {
        proof {
            law_sanitized_suffix_is_valid(export_filename_suffix@);
        }
        Self {
            default_export_format_policy,
            export_filename_suffix: sanitize_export_filename_suffix(export_filename_suffix),
            jpeg_alpha_background_rgb,
        }
    }

    pub fn default_export_format_policy(&self) -> (policy: DefaultExportFormatPolicy)
        ensures
            policy == self.policy(),
    {
        self.default_export_format_policy
    }

    pub fn set_default_export_format_policy(&mut self, policy: DefaultExportFormatPolicy)
        ensures
            final(self).policy() == policy,
            final(self).suffix() == old(self).suffix(),
            final(self).background() == old(self).background(),
    {
        proof {
            use_type_invariant(&*self);
        }
        self.default_export_format_policy = policy;
    }

    pub fn export_filename_suffix(&self) -> (suffix: &str)
        ensures
            suffix@ == self.suffix(),
            is_valid_suffix(suffix@),
    {
        proof {
            use_type_invariant(self);
        }
        self.export_filename_suffix.as_str()
    }

    /// Sets the suffix, sanitized: the default `-export` replaces a refused one.
    pub fn set_export_filename_suffix(&mut self, suffix: &str)
        ensures
            final(self).policy() == old(self).policy(),
            final(self).suffix() == sanitized_suffix(suffix@),
            final(self).background() == old(self).background(),
    {
        proof {
            law_sanitized_suffix_is_valid(suffix@);
        }
        self.export_filename_suffix = sanitize_export_filename_suffix(suffix);
    }

    pub fn jpeg_alpha_background_rgb(&self) -> (color: RgbColor)
        ensures
            color == self.background(),
    {
        self.jpeg_alpha_background_rgb
    }

    pub fn set_jpeg_alpha_background_rgb(&mut self, color: RgbColor)
        ensures
            final(self).policy() == old(self).policy(),
            final(self).suffix() == old(self).suffix(),
            final(self).background() == color,
    {
        proof {
            use_type_invariant(&*self);
        }
        self.jpeg_alpha_background_rgb = color;
    }
}

impl Clone for ExportSettings {
    fn clone(&self) -> (cloned: Self)
        ensures
            cloned.policy() == self.policy(),
            cloned.suffix() == self.suffix(),
            cloned.background() == self.background(),
    {
        proof {
            use_type_invariant(self);
        }
        Self {
            default_export_format_policy: self.default_export_format_policy,
            export_filename_suffix: self.export_filename_suffix.clone(),
            jpeg_alpha_background_rgb: self.jpeg_alpha_background_rgb,
        }
    }
}

impl Default for ExportSettings {
    /// PNG, the suffix `-export` and a white background.
    fn default() -> (settings: Self)
        ensures
            settings.policy() == DefaultExportFormatPolicy::Png,
            settings.suffix() == default_suffix(),
            settings.background().red() == 255 && settings.background().green() == 255
                && settings.background().blue() == 255,
    {
        proof {
            lemma_default_suffix_is_valid();
        }
        Self {
            default_export_format_policy: DefaultExportFormatPolicy::Png,
            export_filename_suffix: "-export".to_owned(),
            jpeg_alpha_background_rgb: RgbColor::white(),
        }
    }
}

/// Why an exported image could not be saved, as the user is told.
#[derive(Debug, Clone, Copy, PartialEq, Eq, Structural)]
pub enum ExportSaveErrorCategory {
    PermissionDenied,
    PathNotFound,
    FileLocked,
    EncodingFailed,
    ImageDataInvalid,
    ImageTooLargeOrOutOfMemory,
    UnknownIo,
}

} // verus!

//! Sizes, pixel formats, rotations and EXIF orientations.
use vstd::prelude::*;

verus! {

pub const RGB8_BYTES_PER_PIXEL: usize = 3;

pub const RGBA8_BYTES_PER_PIXEL: usize = 4;

pub const BGRA8_BYTES_PER_PIXEL: usize = 4;

/// The client area of the viewer window, in pixels.
#[derive(Debug, Clone, Copy, PartialEq, Eq, Structural)]
pub struct ViewportSize {
    width: u32,
    height: u32,
}

impl ViewportSize {
    pub closed spec fn spec_width(self) -> u32 {
        self.width
    }

    pub closed spec fn spec_height(self) -> u32 {
        self.height
    }

    /// The viewport with no area.
    pub fn empty() -> (size: Self)
        ensures
            size.width() == 0,
            size.height() == 0,
    {
        Self { width: 0, height: 0 }
    }

    /// Negative client extents count as zero.
    pub fn from_client_size(width: i32, height: i32) -> (size: Self)
        ensures
            size.width() == (if width < 0 { 0 } else { width as int }),
            size.height() == (if height < 0 { 0 } else { height as int }),
    {
        let w: u32 = if width < 0 { 0 } else { width as u32 };
        let h: u32 = if height < 0 { 0 } else { height as u32 };
        Self { width: w, height: h }
    }

    #[verifier::when_used_as_spec(spec_width)]
    pub fn width(self) -> (w: u32)
        ensures
            w == self.width(),
    {
        self.width
    }

    #[verifier::when_used_as_spec(spec_height)]
    pub fn height(self) -> (h: u32)
        ensures
            h == self.height(),
    {
        self.height
    }

    pub open spec fn spec_is_empty(self) -> bool {
        self.width() == 0 || self.height() == 0
    }

    #[verifier::when_used_as_spec(spec_is_empty)]
    pub fn is_empty(self) -> (empty: bool)
        ensures
            empty == self.is_empty(),
    {
        self.width == 0 || self.height == 0
    }

    pub proof fn lemma_eq(a: Self, b: Self)
        ensures
            (a == b) <==> (a.width() == b.width() && a.height() == b.height()),
    {
    }
}

/// Width and height of an image in pixels.
#[derive(Debug, Clone, Copy, PartialEq, Eq, Structural, Hash)]
pub struct ImageSize {
    width: u32,
    height: u32,
}

/// The number of pixels of a size, as a mathematical integer.
pub open spec fn pixel_count_of(size: ImageSize) -> int {
    size.width() * size.height()
}

/// The number of bytes that a buffer of `size` in `format` occupies.
pub open spec fn byte_len_of(size: ImageSize, format: PixelFormat) -> int {
    pixel_count_of(size) * format.bytes_per_pixel()
}

/// What `pixel_byte_len` answers: the byte count when it fits in `usize`.
pub open spec fn pixel_byte_len_spec(size: ImageSize, format: PixelFormat) -> Option<usize> {
    if byte_len_of(size, format) <= usize::MAX {
        Some(byte_len_of(size, format) as usize)
    } else {
        None
    }
}

proof fn lemma_pixel_count_fits(width: u32, height: u32)
    ensures
        0 <= width * height <= u64::MAX,
{
    assert(0 <= width * height <= 0xffff_ffffu64 * 0xffff_ffffu64) by (nonlinear_arith)
        requires
            width <= 0xffff_ffffu64,
            height <= 0xffff_ffffu64,
    ;
}

impl ImageSize {
    pub closed spec fn spec_width(self) -> u32 {
        self.width
    }

    pub closed spec fn spec_height(self) -> u32 {
        self.height
    }

    pub fn new(width: u32, height: u32) -> (size: Self)
        ensures
            size.width() == width,
            size.height() == height,
            size == Self::spec_new(width, height),
    {
        Self { width, height }
    }

    #[verifier::when_used_as_spec(spec_width)]
    pub fn width(self) -> (w: u32)
        ensures
            w == self.width(),
    {
        self.width
    }

    #[verifier::when_used_as_spec(spec_height)]
    pub fn height(self) -> (h: u32)
        ensures
            h == self.height(),
    {
        self.height
    }

    pub proof fn lemma_eq(a: Self, b: Self)
        ensures
            (a == b) <==> (a.width() == b.width() && a.height() == b.height()),
    {
    }

    pub open spec fn spec_is_empty(self) -> bool {
        self.width() == 0 || self.height() == 0
    }

    #[verifier::when_used_as_spec(spec_is_empty)]
    pub fn is_empty(self) -> (empty: bool)
        ensures
            empty == self.is_empty(),
    {
        self.width == 0 || self.height == 0
    }

    pub fn pixel_count(self) -> (count: Option<u64>)
        ensures
            count == Some(pixel_count_of(self) as u64),
            pixel_count_of(self) <= u64::MAX,
    {
        image_pixel_count(self)
    }

    pub fn rgba8_byte_len(self) -> (len: Option<usize>)
        ensures
            len == pixel_byte_len_spec(self, PixelFormat::Rgba8),
    {
        rgba8_byte_len(self)
    }

    pub fn pixel_byte_len(self, format: PixelFormat) -> (len: Option<usize>)
        ensures
            len == pixel_byte_len_spec(self, format),
    {
        pixel_byte_len(self, format)
    }

    pub open spec fn spec_with_right_angle_rotation(self, degrees: u16) -> ImageSize {
        if degrees % 180 == 90 {
            self.swapped()
        } else {
            self
        }
    }

    pub closed spec fn swapped(self) -> ImageSize {
        ImageSize { width: self.height, height: self.width }
    }

    pub broadcast proof fn lemma_swapped(self)
        ensures
            #[trigger] self.swapped().width() == self.height(),
            self.swapped().height() == self.width(),
    {
    }

    /// Exchanges the edges when `degrees` is an odd multiple of ninety.
    pub fn with_right_angle_rotation(self, degrees: u16) -> (size: Self)
        ensures
            size == self.spec_with_right_angle_rotation(degrees),
    {
        if degrees % 180 == 90 {
            Self { width: self.height, height: self.width }
        } else {
            self
        }
    }

    pub fn with_rotation(self, rotation: ImageRotation) -> (size: Self)
        ensures
            size == (if rotation.swaps_axes() { self.swapped() } else { self }),
    {
        self.with_right_angle_rotation(rotation.degrees())
    }

    pub open spec fn oriented(self, orientation: ImageOrientation) -> ImageSize {
        if orientation.swaps_axes() {
            self.swapped()
        } else {
            self
        }
    }

    pub fn with_orientation(self, orientation: ImageOrientation) -> (size: Self)
        ensures
            size == self.oriented(orientation),
    {
        if orientation.swaps_axes() {
            Self { width: self.height, height: self.width }
        } else {
            self
        }
    }
}

#[derive(Debug, Clone, Copy, PartialEq, Eq, Structural, Hash)]
pub enum PixelFormat {
    Rgb8,
    Rgba8,
    Bgra8,
}

impl PixelFormat {
    pub open spec fn spec_bytes_per_pixel(self) -> usize {
        match self {
            PixelFormat::Rgb8 => RGB8_BYTES_PER_PIXEL,
            PixelFormat::Rgba8 => RGBA8_BYTES_PER_PIXEL,
            PixelFormat::Bgra8 => BGRA8_BYTES_PER_PIXEL,
        }
    }

    #[verifier::when_used_as_spec(spec_bytes_per_pixel)]
    pub fn bytes_per_pixel(self) -> (bytes: usize)
        ensures
            bytes == self.bytes_per_pixel(),
            3 <= bytes <= 4,
    {
        match self {
            PixelFormat::Rgb8 => RGB8_BYTES_PER_PIXEL,
            PixelFormat::Rgba8 => RGBA8_BYTES_PER_PIXEL,
            PixelFormat::Bgra8 => BGRA8_BYTES_PER_PIXEL,
        }
    }

    pub fn has_alpha(self) -> (alpha: bool)
        ensures
            alpha == (self != PixelFormat::Rgb8),
    {
        match self {
            PixelFormat::Rgb8 => false,
            PixelFormat::Rgba8 | PixelFormat::Bgra8 => true,
        }
    }
}

#[derive(Debug, Clone, Copy, PartialEq, Eq, Structural)]
pub enum ImageBufferKind {
    Preview,
    FullResolution,
}

/// The number of pixels of `size`; a product of two `u32` always fits in `u64`.
pub fn image_pixel_count(size: ImageSize) -> (count: Option<u64>)
    ensures
        count == Some(pixel_count_of(size) as u64),
        pixel_count_of(size) <= u64::MAX,
{
    proof {
        lemma_pixel_count_fits(size.width(), size.height());
    }
    let width = size.width() as u64;
    let height = size.height() as u64;
    Some(width * height)
}

pub fn rgba8_byte_len(size: ImageSize) -> (len: Option<usize>)
    ensures
        len == pixel_byte_len_spec(size, PixelFormat::Rgba8),
{
    pixel_byte_len(size, PixelFormat::Rgba8)
}

/// The byte length of a buffer of `size` pixels in `format`, or `None` when it
/// does not fit in `usize`.
pub fn pixel_byte_len(size: ImageSize, format: PixelFormat) -> (len: Option<usize>)
    ensures
        len == pixel_byte_len_spec(size, format),
{
    let pixels = match image_pixel_count(size) {
        Some(pixels) => pixels,
        None => return None,
    };
    let bpp = format.bytes_per_pixel() as u64;
    assert(pixels * bpp == byte_len_of(size, format));
    let bytes = match pixels.checked_mul(bpp) {
        Some(bytes) => bytes,
        None => return None,
    };
    if bytes <= usize::MAX as u64 {
        Some(bytes as usize)
    } else {
        None
    }
}

#[derive(Debug, Clone, Copy, PartialEq, Eq, Structural, Hash)]
pub enum ImageRotation {
    Degrees0,
    Degrees90,
    Degrees180,
    Degrees270,
}

impl ImageRotation {
    pub const ZERO: Self = Self::Degrees0;

    pub open spec fn spec_degrees(self) -> u16 {
        match self {
            ImageRotation::Degrees0 => 0,
            ImageRotation::Degrees90 => 90,
            ImageRotation::Degrees180 => 180,
            ImageRotation::Degrees270 => 270,
        }
    }

    #[verifier::when_used_as_spec(spec_degrees)]
    pub fn degrees(self) -> (degrees: u16)
        ensures
            degrees == self.degrees(),
    {
        match self {
            ImageRotation::Degrees0 => 0,
            ImageRotation::Degrees90 => 90,
            ImageRotation::Degrees180 => 180,
            ImageRotation::Degrees270 => 270,
        }
    }

    pub open spec fn swaps_axes(self) -> bool {
        self == ImageRotation::Degrees90 || self == ImageRotation::Degrees270
    }

    pub open spec fn spec_clockwise(self) -> Self {
        match self {
            ImageRotation::Degrees0 => ImageRotation::Degrees90,
            ImageRotation::Degrees90 => ImageRotation::Degrees180,
            ImageRotation::Degrees180 => ImageRotation::Degrees270,
            ImageRotation::Degrees270 => ImageRotation::Degrees0,
        }
    }

    #[verifier::when_used_as_spec(spec_clockwise)]
    pub fn clockwise(self) -> (rotation: Self)
        ensures
            rotation == self.clockwise(),
            rotation.quarter_turns_clockwise() == (self.quarter_turns_clockwise() + 1) % 4,
    {
        match self {
            ImageRotation::Degrees0 => ImageRotation::Degrees90,
            ImageRotation::Degrees90 => ImageRotation::Degrees180,
            ImageRotation::Degrees180 => ImageRotation::Degrees270,
            ImageRotation::Degrees270 => ImageRotation::Degrees0,
        }
    }

    pub open spec fn spec_counter_clockwise(self) -> Self {
        match self {
            ImageRotation::Degrees0 => ImageRotation::Degrees270,
            ImageRotation::Degrees90 => ImageRotation::Degrees0,
            ImageRotation::Degrees180 => ImageRotation::Degrees90,
            ImageRotation::Degrees270 => ImageRotation::Degrees180,
        }
    }

    #[verifier::when_used_as_spec(spec_counter_clockwise)]
    pub fn counter_clockwise(self) -> (rotation: Self)
        ensures
            rotation == self.counter_clockwise(),
            rotation.quarter_turns_clockwise() == (self.quarter_turns_clockwise() + 3) % 4,
    {
        match self {
            ImageRotation::Degrees0 => ImageRotation::Degrees270,
            ImageRotation::Degrees90 => ImageRotation::Degrees0,
            ImageRotation::Degrees180 => ImageRotation::Degrees90,
            ImageRotation::Degrees270 => ImageRotation::Degrees180,
        }
    }

    pub fn is_identity(self) -> (identity: bool)
        ensures
            identity == (self == ImageRotation::Degrees0),
    {
        match self {
            ImageRotation::Degrees0 => true,
            _ => false,
        }
    }

    pub open spec fn spec_quarter_turns_clockwise(self) -> u8 {
        match self {
            ImageRotation::Degrees0 => 0,
            ImageRotation::Degrees90 => 1,
            ImageRotation::Degrees180 => 2,
            ImageRotation::Degrees270 => 3,
        }
    }

    #[verifier::when_used_as_spec(spec_quarter_turns_clockwise)]
    pub fn quarter_turns_clockwise(self) -> (turns: u8)
        ensures
            turns == self.quarter_turns_clockwise(),
            turns < 4,
            turns * 90 == self.degrees(),
    {
        match self {
            ImageRotation::Degrees0 => 0,
            ImageRotation::Degrees90 => 1,
            ImageRotation::Degrees180 => 2,
            ImageRotation::Degrees270 => 3,
        }
    }
}

/// Turning clockwise then counter-clockwise (or the other way round) gives the
/// rotation back, and four clockwise turns are no turn at all.
pub proof fn law_rotation_turns_cancel(rotation: ImageRotation)
    ensures
        rotation.clockwise().counter_clockwise() == rotation,
        rotation.counter_clockwise().clockwise() == rotation,
        rotation.clockwise().clockwise().clockwise().clockwise() == rotation,
{
}

/// One of the eight EXIF orientations: how stored pixels map to the upright image.
#[derive(Debug, Clone, Copy, PartialEq, Eq, Structural, Hash)]
pub enum ImageOrientation {
    Normal,
    FlipHorizontal,
    Rotate180,
    FlipVertical,
    Rotate90FlipHorizontal,
    Rotate90,
    Rotate270FlipHorizontal,
    Rotate270,
}

impl ImageOrientation {
    pub const NORMAL: Self = Self::Normal;

    pub open spec fn spec_from_exif_value(value: u8) -> Option<Self> {
        if value == 1 {
            Some(ImageOrientation::Normal)
        } else if value == 2 {
            Some(ImageOrientation::FlipHorizontal)
        } else if value == 3 {
            Some(ImageOrientation::Rotate180)
        } else if value == 4 {
            Some(ImageOrientation::FlipVertical)
        } else if value == 5 {
            Some(ImageOrientation::Rotate90FlipHorizontal)
        } else if value == 6 {
            Some(ImageOrientation::Rotate90)
        } else if value == 7 {
            Some(ImageOrientation::Rotate270FlipHorizontal)
        } else if value == 8 {
            Some(ImageOrientation::Rotate270)
        } else {
            None
        }
    }

    /// Reads an EXIF `Orientation` tag value; only 1 through 8 are defined.
    pub fn from_exif_value(value: u8) -> (orientation: Option<Self>)
        ensures
            orientation == Self::spec_from_exif_value(value),
            orientation is Some <==> 1 <= value <= 8,
    {
        match value {
            1 => Some(ImageOrientation::Normal),
            2 => Some(ImageOrientation::FlipHorizontal),
            3 => Some(ImageOrientation::Rotate180),
            4 => Some(ImageOrientation::FlipVertical),
            5 => Some(ImageOrientation::Rotate90FlipHorizontal),
            6 => Some(ImageOrientation::Rotate90),
            7 => Some(ImageOrientation::Rotate270FlipHorizontal),
            8 => Some(ImageOrientation::Rotate270),
            _ => None,
        }
    }

    pub open spec fn spec_exif_value(self) -> u8 {
        match self {
            ImageOrientation::Normal => 1,
            ImageOrientation::FlipHorizontal => 2,
            ImageOrientation::Rotate180 => 3,
            ImageOrientation::FlipVertical => 4,
            ImageOrientation::Rotate90FlipHorizontal => 5,
            ImageOrientation::Rotate90 => 6,
            ImageOrientation::Rotate270FlipHorizontal => 7,
            ImageOrientation::Rotate270 => 8,
        }
    }

    #[verifier::when_used_as_spec(spec_exif_value)]
    pub fn exif_value(self) -> (value: u8)
        ensures
            value == self.exif_value(),
            1 <= value <= 8,
    {
        match self {
            ImageOrientation::Normal => 1,
            ImageOrientation::FlipHorizontal => 2,
            ImageOrientation::Rotate180 => 3,
            ImageOrientation::FlipVertical => 4,
            ImageOrientation::Rotate90FlipHorizontal => 5,
            ImageOrientation::Rotate90 => 6,
            ImageOrientation::Rotate270FlipHorizontal => 7,
            ImageOrientation::Rotate270 => 8,
        }
    }

    pub open spec fn spec_is_identity(self) -> bool {
        self == ImageOrientation::Normal
    }

    #[verifier::when_used_as_spec(spec_is_identity)]
    pub fn is_identity(self) -> (identity: bool)
        ensures
            identity == self.is_identity(),
    {
        match self {
            ImageOrientation::Normal => true,
            _ => false,
        }
    }

    pub open spec fn spec_swaps_axes(self) -> bool {
        match self {
            ImageOrientation::Rotate90 | ImageOrientation::Rotate270
            | ImageOrientation::Rotate90FlipHorizontal
            | ImageOrientation::Rotate270FlipHorizontal => true,
            _ => false,
        }
    }

    #[verifier::when_used_as_spec(spec_swaps_axes)]
    pub fn swaps_axes(self) -> (swaps: bool)
        ensures
            swaps == self.swaps_axes(),
    {
        match self {
            ImageOrientation::Rotate90 | ImageOrientation::Rotate270
            | ImageOrientation::Rotate90FlipHorizontal
            | ImageOrientation::Rotate270FlipHorizontal => true,
            _ => false,
        }
    }

    /// The orientation followed by a quarter turn clockwise.
    pub open spec fn spec_then_clockwise(self) -> Self {
        match self {
            ImageOrientation::Normal => ImageOrientation::Rotate90,
            ImageOrientation::Rotate90 => ImageOrientation::Rotate180,
            ImageOrientation::Rotate180 => ImageOrientation::Rotate270,
            ImageOrientation::Rotate270 => ImageOrientation::Normal,
            ImageOrientation::FlipHorizontal => ImageOrientation::Rotate270FlipHorizontal,
            ImageOrientation::Rotate270FlipHorizontal => ImageOrientation::FlipVertical,
            ImageOrientation::FlipVertical => ImageOrientation::Rotate90FlipHorizontal,
            ImageOrientation::Rotate90FlipHorizontal => ImageOrientation::FlipHorizontal,
        }
    }

    #[verifier::when_used_as_spec(spec_then_clockwise)]
    fn then_clockwise(self) -> (orientation: Self)
        ensures
            orientation == self.then_clockwise(),
    {
        match self {
            ImageOrientation::Normal => ImageOrientation::Rotate90,
            ImageOrientation::Rotate90 => ImageOrientation::Rotate180,
            ImageOrientation::Rotate180 => ImageOrientation::Rotate270,
            ImageOrientation::Rotate270 => ImageOrientation::Normal,
            ImageOrientation::FlipHorizontal => ImageOrientation::Rotate270FlipHorizontal,
            ImageOrientation::Rotate270FlipHorizontal => ImageOrientation::FlipVertical,
            ImageOrientation::FlipVertical => ImageOrientation::Rotate90FlipHorizontal,
            ImageOrientation::Rotate90FlipHorizontal => ImageOrientation::FlipHorizontal,
        }
    }

    /// The orientation followed by `turns` quarter turns clockwise.
    pub open spec fn then_turns(self, turns: nat) -> Self
        decreases turns,
    {
        if turns == 0 {
            self
        } else {
            self.then_turns((turns - 1) as nat).spec_then_clockwise()
        }
    }

    pub open spec fn spec_then_rotation(self, rotation: ImageRotation) -> Self {
        self.then_turns(rotation.quarter_turns_clockwise() as nat)
    }

    /// The orientation followed by a user rotation.
    #[verifier::when_used_as_spec(spec_then_rotation)]
    pub fn then_rotation(self, rotation: ImageRotation) -> (orientation: Self)
        ensures
            orientation == self.then_rotation(rotation),
    {
        let turns = rotation.quarter_turns_clockwise();
        let mut orientation = self;
        let mut step: u8 = 0;
        while step < turns
            invariant
                step <= turns,
                turns == rotation.quarter_turns_clockwise(),
                orientation == self.then_turns(step as nat),
            decreases turns - step,
        {
            orientation = orientation.then_clockwise();
            step = step + 1;
        }
        orientation
    }
}

/// The orientation in which an image is shown: its EXIF orientation followed by
/// the user's rotation.
pub fn display_orientation(exif_orientation: ImageOrientation, user_rotation: ImageRotation) -> (orientation: ImageOrientation)
    ensures
        orientation == exif_orientation.then_rotation(user_rotation),
{
    exif_orientation.then_rotation(user_rotation)
}

proof fn lemma_then_turns_add(orientation: ImageOrientation, first: nat, second: nat)
    ensures
        orientation.then_turns(first).then_turns(second) == orientation.then_turns(first + second),
    decreases second,
{
    if second > 0 {
        lemma_then_turns_add(orientation, first, (second - 1) as nat);
    }
}

proof fn lemma_then_turns_full_circle(orientation: ImageOrientation)
    ensures
        orientation.then_turns(4) == orientation,
{
    reveal_with_fuel(ImageOrientation::then_turns, 5);
}

/// Following an orientation by one rotation and then another is following it by
/// the sum of the two rotations, taken modulo a full circle.
pub proof fn law_then_rotation_composes(
    orientation: ImageOrientation,
    first: ImageRotation,
    second: ImageRotation,
)
    ensures
        orientation.then_rotation(first).then_rotation(second) == orientation.then_turns(
            ((first.quarter_turns_clockwise() + second.quarter_turns_clockwise()) % 4) as nat,
        ),
{
    let a = first.quarter_turns_clockwise() as nat;
    let b = second.quarter_turns_clockwise() as nat;
    lemma_then_turns_add(orientation, a, b);
    if a + b >= 4 {
        let rest = (a + b - 4) as nat;
        lemma_then_turns_add(orientation, 4, rest);
        lemma_then_turns_full_circle(orientation);
    }
}

/// Four quarter turns bring every orientation back to itself, so a rotation
/// followed by the remaining turns of a full circle changes nothing.
pub proof fn law_then_rotation_inverse(orientation: ImageOrientation, rotation: ImageRotation)
    ensures
        orientation.then_turns(4) == orientation,
        orientation.then_rotation(rotation).then_turns(
            ((4 - rotation.quarter_turns_clockwise()) % 4) as nat,
        ) == orientation,
{
    lemma_then_turns_full_circle(orientation);
    let a = rotation.quarter_turns_clockwise() as nat;
    let b = ((4 - a) % 4) as nat;
    lemma_then_turns_add(orientation, a, b);
}

/// Mapping an orientation to its EXIF tag value and back is the identity.
pub proof fn law_exif_value_round_trip(orientation: ImageOrientation, value: u8)
    ensures
        ImageOrientation::spec_from_exif_value(orientation.exif_value()) == Some(orientation),
        ImageOrientation::spec_from_exif_value(value) matches Some(o) ==> o.exif_value() == value,
{
}

/// The size of the displayed image follows the orientation: the edges are
/// exchanged exactly when the orientation is a quarter turn.
pub proof fn law_oriented_size(size: ImageSize, orientation: ImageOrientation, rotation: ImageRotation)
    ensures
        size.oriented(orientation).oriented(orientation) == size,
        pixel_count_of(size.oriented(orientation)) == pixel_count_of(size),
        orientation.then_rotation(rotation).swaps_axes() == (orientation.swaps_axes()
            != rotation.swaps_axes()),
{
    reveal_with_fuel(ImageOrientation::then_turns, 4);
    broadcast use ImageSize::lemma_swapped;

    assert(pixel_count_of(size.swapped()) == pixel_count_of(size)) by (nonlinear_arith)
        requires
            size.swapped().width() == size.height(),
            size.swapped().height() == size.width(),
    ;
    ImageSize::lemma_eq(size.swapped().swapped(), size);
}

#[derive(Debug, Clone, Copy, PartialEq, Eq, Structural)]
pub enum ViewMode {
    FitToWindow,
    ActualSize,
    ManualZoom,
}

#[derive(Debug, Clone, Copy, PartialEq, Eq, Structural, Hash)]
pub enum ScalingQuality {
    Nearest,
    Balanced,
    HighQuality,
}

pub const DEFAULT_SCALING_QUALITY: ScalingQuality = ScalingQuality::Balanced;

/// The view that a render-ready image was prepared for.
#[derive(Debug, Clone, Copy, PartialEq, Eq, Structural)]
pub struct RenderReadySpec {
    viewport: ViewportSize,
    view_mode: ViewMode,
    scaling_quality: ScalingQuality,
}

impl RenderReadySpec {
    pub closed spec fn spec_viewport(self) -> ViewportSize {
        self.viewport
    }

    pub closed spec fn spec_view_mode(self) -> ViewMode {
        self.view_mode
    }

    pub closed spec fn spec_scaling_quality(self) -> ScalingQuality {
        self.scaling_quality
    }

    pub fn new(viewport: ViewportSize, view_mode: ViewMode, scaling_quality: ScalingQuality) -> (spec: Self)
        ensures
            spec.viewport() == viewport,
            spec.view_mode() == view_mode,
            spec.scaling_quality() == scaling_quality,
    {
        Self { viewport, view_mode, scaling_quality }
    }

    #[verifier::when_used_as_spec(spec_viewport)]
    pub fn viewport(self) -> (viewport: ViewportSize)
        ensures
            viewport == self.viewport(),
    {
        self.viewport
    }

    #[verifier::when_used_as_spec(spec_view_mode)]
    pub fn view_mode(self) -> (mode: ViewMode)
        ensures
            mode == self.view_mode(),
    {
        self.view_mode
    }

    #[verifier::when_used_as_spec(spec_scaling_quality)]
    pub fn scaling_quality(self) -> (quality: ScalingQuality)
        ensures
            quality == self.scaling_quality(),
    {
        self.scaling_quality
    }
}

/// Where and how large the image is drawn in the viewport.
#[derive(Debug, Clone, Copy, PartialEq, Eq, Structural)]
pub struct ImageDisplayRect {
    x: i32,
    y: i32,
    width: i32,
    height: i32,
}

impl ImageDisplayRect {
    pub closed spec fn spec_x(self) -> i32 {
        self.x
    }

    pub closed spec fn spec_y(self) -> i32 {
        self.y
    }

    pub closed spec fn spec_width(self) -> i32 {
        self.width
    }

    pub closed spec fn spec_height(self) -> i32 {
        self.height
    }

    pub fn new(x: i32, y: i32, width: i32, height: i32) -> (rect: Self)
        ensures
            rect.x() == x,
            rect.y() == y,
            rect.width() == width,
            rect.height() == height,
    {
        Self { x, y, width, height }
    }

    #[verifier::when_used_as_spec(spec_x)]
    pub fn x(self) -> (x: i32)
        ensures
            x == self.x(),
    {
        self.x
    }

    #[verifier::when_used_as_spec(spec_y)]
    pub fn y(self) -> (y: i32)
        ensures
            y == self.y(),
    {
        self.y
    }

    #[verifier::when_used_as_spec(spec_width)]
    pub fn width(self) -> (width: i32)
        ensures
            width == self.width(),
    {
        self.width
    }

    #[verifier::when_used_as_spec(spec_height)]
    pub fn height(self) -> (height: i32)
        ensures
            height == self.height(),
    {
        self.height
    }

    pub proof fn lemma_eq(a: Self, b: Self)
        ensures
            (a == b) <==> (a.x() == b.x() && a.y() == b.y() && a.width() == b.width()
                && a.height() == b.height()),
    {
    }

    pub open spec fn spec_size(self) -> Option<ImageSize> {
        if self.width() > 0 && self.height() > 0 {
            Some(ImageSize::spec_new(self.width() as u32, self.height() as u32))
        } else {
            None
        }
    }

    /// The drawn size, when both extents are positive.
    #[verifier::when_used_as_spec(spec_size)]
    pub fn size(self) -> (size: Option<ImageSize>)
        ensures
            size == self.size(),
    {
        if self.width > 0 && self.height > 0 {
            let size = ImageSize::new(self.width as u32, self.height as u32);
            proof {
                ImageSize::lemma_eq(size, ImageSize::spec_new(self.width as u32, self.height as u32));
            }
            Some(size)
        } else {
            None
        }
    }
}

impl ImageSize {
    pub closed spec fn spec_new(width: u32, height: u32) -> ImageSize {
        ImageSize { width, height }
    }

    pub broadcast proof fn lemma_spec_new(width: u32, height: u32)
        ensures
            #[trigger] Self::spec_new(width, height).width() == width,
            Self::spec_new(width, height).height() == height,
    {
    }
}

pub const MIN_SAVED_WINDOW_WIDTH: i32 = 320;

pub const MIN_SAVED_WINDOW_HEIGHT: i32 = 240;

pub const MAX_SAVED_WINDOW_EXTENT: i32 = 32_767;

pub const MIN_SAVED_WINDOW_ORIGIN: i32 = -32_768;

pub const MAX_SAVED_WINDOW_ORIGIN: i32 = 32_767;

pub open spec fn valid_window_bounds(x: i32, y: i32, width: i32, height: i32) -> bool {
    &&& MIN_SAVED_WINDOW_ORIGIN <= x <= MAX_SAVED_WINDOW_ORIGIN
    &&& MIN_SAVED_WINDOW_ORIGIN <= y <= MAX_SAVED_WINDOW_ORIGIN
    &&& MIN_SAVED_WINDOW_WIDTH <= width <= MAX_SAVED_WINDOW_EXTENT
    &&& MIN_SAVED_WINDOW_HEIGHT <= height <= MAX_SAVED_WINDOW_EXTENT
}

/// A saved window placement, always within the range that can be restored.
#[derive(Debug, Clone, Copy, PartialEq, Eq, Structural)]
pub struct WindowBounds {
    x: i32,
    y: i32,
    width: i32,
    height: i32,
}

impl WindowBounds {
    #[verifier::type_invariant]
    closed spec fn wf(self) -> bool {
        valid_window_bounds(self.x, self.y, self.width, self.height)
    }

    pub closed spec fn spec_x(self) -> i32 {
        self.x
    }

    pub closed spec fn spec_y(self) -> i32 {
        self.y
    }

    pub closed spec fn spec_width(self) -> i32 {
        self.width
    }

    pub closed spec fn spec_height(self) -> i32 {
        self.height
    }

    /// Accepts the placement only when it lies within the restorable range.
    pub fn new(x: i32, y: i32, width: i32, height: i32) -> (bounds: Option<Self>)
        ensures
            bounds is Some <==> valid_window_bounds(x, y, width, height),
            bounds matches Some(b) ==> b.x() == x && b.y() == y && b.width() == width
                && b.height() == height,
    {
        if !valid_window_origin(x) || !valid_window_origin(y) || !(MIN_SAVED_WINDOW_WIDTH <= width
            && width <= MAX_SAVED_WINDOW_EXTENT) || !(MIN_SAVED_WINDOW_HEIGHT <= height && height
            <= MAX_SAVED_WINDOW_EXTENT) {
            return None;
        }
        Some(Self { x, y, width, height })
    }

    #[verifier::when_used_as_spec(spec_x)]
    pub fn x(self) -> (x: i32)
        ensures
            x == self.x(),
            MIN_SAVED_WINDOW_ORIGIN <= x <= MAX_SAVED_WINDOW_ORIGIN,
    {
        proof {
            use_type_invariant(&self);
        }
        self.x
    }

    #[verifier::when_used_as_spec(spec_y)]
    pub fn y(self) -> (y: i32)
        ensures
            y == self.y(),
            MIN_SAVED_WINDOW_ORIGIN <= y <= MAX_SAVED_WINDOW_ORIGIN,
    {
        proof {
            use_type_invariant(&self);
        }
        self.y
    }

    #[verifier::when_used_as_spec(spec_width)]
    pub fn width(self) -> (width: i32)
        ensures
            width == self.width(),
            MIN_SAVED_WINDOW_WIDTH <= width <= MAX_SAVED_WINDOW_EXTENT,
    {
        proof {
            use_type_invariant(&self);
        }
        self.width
    }

    #[verifier::when_used_as_spec(spec_height)]
    pub fn height(self) -> (height: i32)
        ensures
            height == self.height(),
            MIN_SAVED_WINDOW_HEIGHT <= height <= MAX_SAVED_WINDOW_EXTENT,
    {
        proof {
            use_type_invariant(&self);
        }
        self.height
    }

}

fn valid_window_origin(value: i32) -> (valid: bool)
    ensures
        valid == (MIN_SAVED_WINDOW_ORIGIN <= value <= MAX_SAVED_WINDOW_ORIGIN),
{
    MIN_SAVED_WINDOW_ORIGIN <= value && value <= MAX_SAVED_WINDOW_ORIGIN
}

} // verus!

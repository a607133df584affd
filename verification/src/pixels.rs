//! Pixel buffers in the three layouts the viewer handles, their conversions to
//! RGBA, and the re-ordering of pixels for an EXIF orientation.
use std::sync::Arc;
use vstd::arithmetic::div_mod::lemma_fundamental_div_mod_converse;
use vstd::prelude::*;
use vstd::slice::slice_to_vec;

use crate::shared::{share, unwrap_shared};
use crate::geometry::{byte_len_of, pixel_byte_len_spec, ImageOrientation, ImageRotation, ImageSize, PixelFormat};

verus! {

broadcast use ImageSize::lemma_spec_new, ImageSize::lemma_swapped;

// ---------------------------------------------------------------------------
// Trusted glue to std
// ---------------------------------------------------------------------------
/// `Vec::try_reserve_exact`: reports whether the allocation succeeded (which
/// depends on the machine); the contents stay as they were either way. Asking
/// for no more room needs no allocation and always succeeds (the capacity is
/// already sufficient, so nothing happens).
#[verifier::external_body]
pub(crate) fn try_reserve_exact_bytes(buffer: &mut Vec<u8>, additional: usize) -> (reserved: bool)
    ensures
        final(buffer)@ == old(buffer)@,
        additional == 0 ==> reserved,
{
    buffer.try_reserve_exact(additional).is_ok()
}

// ---------------------------------------------------------------------------
// The three pixel layouts
// ---------------------------------------------------------------------------
/// An 8-bit RGB image; the buffer is shared between clones.
#[derive(Debug, PartialEq, Eq)]
pub struct Rgb8Image {
    width: u32,
    height: u32,
    pixels: Arc<Vec<u8>>,
}

/// An 8-bit RGBA image; the buffer is shared between clones.
#[derive(Debug, PartialEq, Eq)]
pub struct Rgba8Image {
    width: u32,
    height: u32,
    pixels: Arc<Vec<u8>>,
}

/// An 8-bit BGRA image; the buffer is shared between clones.
#[derive(Debug, PartialEq, Eq)]
pub struct Bgra8Image {
    width: u32,
    height: u32,
    pixels: Arc<Vec<u8>>,
}

impl Rgb8Image {
    pub closed spec fn spec_width(&self) -> u32 {
        self.width
    }

    pub closed spec fn spec_height(&self) -> u32 {
        self.height
    }

    /// The pixel bytes, row by row.
    pub closed spec fn bytes(&self) -> Seq<u8> {
        self.pixels@
    }

    pub open spec fn spec_size(&self) -> ImageSize {
        ImageSize::spec_new(self.width(), self.height())
    }

    /// Wraps a buffer as it is; `PixelImage::is_valid` tells whether its length fits.
    pub fn new(width: u32, height: u32, pixels: Vec<u8>) -> (image: Self)
        ensures
            image.width() == width,
            image.height() == height,
            image.bytes() == pixels@,
    {
        Self { width, height, pixels: Arc::new(pixels) }
    }

    #[verifier::when_used_as_spec(spec_width)]
    pub fn width(&self) -> (width: u32)
        ensures
            width == self.width(),
    {
        self.width
    }

    #[verifier::when_used_as_spec(spec_height)]
    pub fn height(&self) -> (height: u32)
        ensures
            height == self.height(),
    {
        self.height
    }

    #[verifier::when_used_as_spec(spec_size)]
    pub fn size(&self) -> (size: ImageSize)
        ensures
            size == self.size(),
    {
        let size = ImageSize::new(self.width, self.height);
        proof {
            ImageSize::lemma_eq(size, self.size());
        }
        size
    }

    pub fn pixel_format(&self) -> (format: PixelFormat)
        ensures
            format == PixelFormat::Rgb8,
    {
        PixelFormat::Rgb8
    }

    pub fn pixels(&self) -> (pixels: &[u8])
        ensures
            pixels@ == self.bytes(),
    {
        self.pixels.as_slice()
    }

    pub fn byte_len(&self) -> (len: usize)
        ensures
            len == self.bytes().len(),
    {
        self.pixels.len()
    }

    /// The buffer, taken over when unshared and copied otherwise.
    pub fn into_raw(self) -> (raw: Vec<u8>)
        ensures
            raw@ == self.bytes(),
    {
        match unwrap_shared(self.pixels) {
            Ok(pixels) => pixels,
            Err(pixels) => slice_to_vec(pixels.as_slice()),
        }
    }

    /// The buffer when this is its only owner; the image unchanged otherwise.
    pub fn try_into_raw(self) -> (raw: Result<Vec<u8>, Self>)
        ensures
            match raw {
                Ok(pixels) => pixels@ == self.bytes(),
                Err(image) => image == self,
            },
    {
        let width = self.width;
        let height = self.height;
        match unwrap_shared(self.pixels) {
            Ok(pixels) => Ok(pixels),
            Err(pixels) => Err(Self { width, height, pixels }),
        }
    }
}

impl Clone for Rgb8Image {
    /// A clone shares the pixel buffer.
    fn clone(&self) -> (image: Self)
        ensures
            image == *self,
    {
        Self { width: self.width, height: self.height, pixels: share(&self.pixels) }
    }
}

impl Rgba8Image {
    pub closed spec fn spec_width(&self) -> u32 {
        self.width
    }

    pub closed spec fn spec_height(&self) -> u32 {
        self.height
    }

    /// The pixel bytes, row by row.
    pub closed spec fn bytes(&self) -> Seq<u8> {
        self.pixels@
    }

    pub open spec fn spec_size(&self) -> ImageSize {
        ImageSize::spec_new(self.width(), self.height())
    }

    /// Wraps a buffer as it is; `PixelImage::is_valid` tells whether its length fits.
    pub fn new(width: u32, height: u32, pixels: Vec<u8>) -> (image: Self)
        ensures
            image.width() == width,
            image.height() == height,
            image.bytes() == pixels@,
    {
        Self { width, height, pixels: Arc::new(pixels) }
    }

    #[verifier::when_used_as_spec(spec_width)]
    pub fn width(&self) -> (width: u32)
        ensures
            width == self.width(),
    {
        self.width
    }

    #[verifier::when_used_as_spec(spec_height)]
    pub fn height(&self) -> (height: u32)
        ensures
            height == self.height(),
    {
        self.height
    }

    #[verifier::when_used_as_spec(spec_size)]
    pub fn size(&self) -> (size: ImageSize)
        ensures
            size == self.size(),
    {
        let size = ImageSize::new(self.width, self.height);
        proof {
            ImageSize::lemma_eq(size, self.size());
        }
        size
    }

    pub fn pixel_format(&self) -> (format: PixelFormat)
        ensures
            format == PixelFormat::Rgba8,
    {
        PixelFormat::Rgba8
    }

    pub fn pixels(&self) -> (pixels: &[u8])
        ensures
            pixels@ == self.bytes(),
    {
        self.pixels.as_slice()
    }

    pub fn byte_len(&self) -> (len: usize)
        ensures
            len == self.bytes().len(),
    {
        self.pixels.len()
    }

    /// The buffer, taken over when unshared and copied otherwise.
    pub fn into_raw(self) -> (raw: Vec<u8>)
        ensures
            raw@ == self.bytes(),
    {
        match unwrap_shared(self.pixels) {
            Ok(pixels) => pixels,
            Err(pixels) => slice_to_vec(pixels.as_slice()),
        }
    }

    /// The buffer when this is its only owner; the image unchanged otherwise.
    pub fn try_into_raw(self) -> (raw: Result<Vec<u8>, Self>)
        ensures
            match raw {
                Ok(pixels) => pixels@ == self.bytes(),
                Err(image) => image == self,
            },
    {
        let width = self.width;
        let height = self.height;
        match unwrap_shared(self.pixels) {
            Ok(pixels) => Ok(pixels),
            Err(pixels) => Err(Self { width, height, pixels }),
        }
    }
}

impl Clone for Rgba8Image {
    /// A clone shares the pixel buffer.
    fn clone(&self) -> (image: Self)
        ensures
            image == *self,
    {
        Self { width: self.width, height: self.height, pixels: share(&self.pixels) }
    }
}

impl Bgra8Image {
    pub closed spec fn spec_width(&self) -> u32 {
        self.width
    }

    pub closed spec fn spec_height(&self) -> u32 {
        self.height
    }

    /// The pixel bytes, row by row.
    pub closed spec fn bytes(&self) -> Seq<u8> {
        self.pixels@
    }

    pub open spec fn spec_size(&self) -> ImageSize {
        ImageSize::spec_new(self.width(), self.height())
    }

    /// Wraps a buffer as it is; `PixelImage::is_valid` tells whether its length fits.
    pub fn new(width: u32, height: u32, pixels: Vec<u8>) -> (image: Self)
        ensures
            image.width() == width,
            image.height() == height,
            image.bytes() == pixels@,
    {
        Self { width, height, pixels: Arc::new(pixels) }
    }

    #[verifier::when_used_as_spec(spec_width)]
    pub fn width(&self) -> (width: u32)
        ensures
            width == self.width(),
    {
        self.width
    }

    #[verifier::when_used_as_spec(spec_height)]
    pub fn height(&self) -> (height: u32)
        ensures
            height == self.height(),
    {
        self.height
    }

    #[verifier::when_used_as_spec(spec_size)]
    pub fn size(&self) -> (size: ImageSize)
        ensures
            size == self.size(),
    {
        let size = ImageSize::new(self.width, self.height);
        proof {
            ImageSize::lemma_eq(size, self.size());
        }
        size
    }

    pub fn pixel_format(&self) -> (format: PixelFormat)
        ensures
            format == PixelFormat::Bgra8,
    {
        PixelFormat::Bgra8
    }

    pub fn pixels(&self) -> (pixels: &[u8])
        ensures
            pixels@ == self.bytes(),
    {
        self.pixels.as_slice()
    }

    pub fn byte_len(&self) -> (len: usize)
        ensures
            len == self.bytes().len(),
    {
        self.pixels.len()
    }

    /// The buffer, taken over when unshared and copied otherwise.
    pub fn into_raw(self) -> (raw: Vec<u8>)
        ensures
            raw@ == self.bytes(),
    {
        match unwrap_shared(self.pixels) {
            Ok(pixels) => pixels,
            Err(pixels) => slice_to_vec(pixels.as_slice()),
        }
    }

    /// The buffer when this is its only owner; the image unchanged otherwise.
    pub fn try_into_raw(self) -> (raw: Result<Vec<u8>, Self>)
        ensures
            match raw {
                Ok(pixels) => pixels@ == self.bytes(),
                Err(image) => image == self,
            },
    {
        let width = self.width;
        let height = self.height;
        match unwrap_shared(self.pixels) {
            Ok(pixels) => Ok(pixels),
            Err(pixels) => Err(Self { width, height, pixels }),
        }
    }
}

impl Clone for Bgra8Image {
    /// A clone shares the pixel buffer.
    fn clone(&self) -> (image: Self)
        ensures
            image == *self,
    {
        Self { width: self.width, height: self.height, pixels: share(&self.pixels) }
    }
}

// ---------------------------------------------------------------------------
// Layout conversions
// ---------------------------------------------------------------------------
/// RGB bytes widened to RGBA with an opaque alpha channel.
pub open spec fn rgb_to_rgba(rgb: Seq<u8>) -> Seq<u8> {
    Seq::new(
        (rgb.len() / 3 * 4) as nat,
        |i: int|
            if i % 4 == 3 {
                255u8
            } else {
                rgb[i / 4 * 3 + i % 4]
            },
    )
}

/// BGRA bytes with the blue and red channels exchanged.
pub open spec fn bgra_to_rgba(bgra: Seq<u8>) -> Seq<u8> {
    Seq::new(
        bgra.len(),
        |i: int|
            if i % 4 == 0 {
                bgra[i + 2]
            } else if i % 4 == 2 {
                bgra[i - 2]
            } else {
                bgra[i]
            },
    )
}

proof fn lemma_split_index(i: int, d: int, q: int, r: int)
    requires
        d > 0,
        0 <= r < d,
        i == q * d + r,
    ensures
        i / d == q,
        i % d == r,
{
    lemma_fundamental_div_mod_converse(i, d, q, r);
}

fn rgb8_slice_to_rgba8(width: u32, height: u32, rgb8: &[u8]) -> (rgba: Option<Rgba8Image>)
    ensures
        rgb8@.len() != byte_len_of(ImageSize::spec_new(width, height), PixelFormat::Rgb8)
            ==> rgba is None,
        rgb8@.len() == byte_len_of(ImageSize::spec_new(width, height), PixelFormat::Rgb8) && rgb8@.len() == 0
            ==> rgba is Some,
        rgba matches Some(image) ==> image.width() == width && image.height() == height
            && image.bytes() == rgb_to_rgba(rgb8@) && rgb8@.len() == byte_len_of(
            ImageSize::spec_new(width, height),
            PixelFormat::Rgb8,
        ),
{
    proof {
        let n = width * height;
        if rgb8@.len() == 0 && rgb8@.len() == byte_len_of(ImageSize::spec_new(width, height), PixelFormat::Rgb8) {
            assert(n * 3 == 0);
            assert(n == 0) by (nonlinear_arith)
                requires
                    n * 3 == 0,
            ;
            assert(byte_len_of(ImageSize::spec_new(width, height), PixelFormat::Rgba8) == 0);
        }
    }
    let size = ImageSize::new(width, height);
    let expected_len = match size.pixel_byte_len(PixelFormat::Rgb8) {
        Some(len) => len,
        None => return None,
    };
    if rgb8.len() != expected_len {
        return None;
    }
    let rgba_len = match size.rgba8_byte_len() {
        Some(len) => len,
        None => return None,
    };
    let mut rgba8: Vec<u8> = Vec::new();
    if !try_reserve_exact_bytes(&mut rgba8, rgba_len) {
        return None;
    }
    let pixel_count = rgb8.len() / 3;
    proof {
        lemma_split_index(rgb8@.len() as int, 3, width * height, 0);
    }
    assert(rgb_to_rgba(rgb8@).len() == pixel_count * 4);
    let mut p: usize = 0;
    while p < pixel_count
        invariant
            p <= pixel_count,
            pixel_count * 3 == rgb8@.len(),
            rgb8@.len() <= usize::MAX,
            rgba8@.len() == p * 4,
            rgb_to_rgba(rgb8@).len() == pixel_count * 4,
            forall|j: int| 0 <= j < rgba8@.len() ==> rgba8@[j] == rgb_to_rgba(rgb8@)[j],
        decreases pixel_count - p,
    {
        let base = p * 3;
        let ghost start = rgba8@.len() as int;
        rgba8.push(rgb8[base]);
        rgba8.push(rgb8[base + 1]);
        rgba8.push(rgb8[base + 2]);
        rgba8.push(255);
        proof {
            assert forall|j: int| start <= j < start + 4 implies rgba8@[j] == rgb_to_rgba(
                rgb8@,
            )[j] by {
                lemma_split_index(j, 4, p as int, j - start);
            }
        }
        p = p + 1;
    }
    assert(rgba8@ =~= rgb_to_rgba(rgb8@));
    Some(Rgba8Image::new(width, height, rgba8))
}

fn bgra8_slice_to_rgba8(width: u32, height: u32, bgra8: &[u8]) -> (rgba: Option<Rgba8Image>)
    ensures
        bgra8@.len() != byte_len_of(ImageSize::spec_new(width, height), PixelFormat::Bgra8)
            ==> rgba is None,
        bgra8@.len() == byte_len_of(ImageSize::spec_new(width, height), PixelFormat::Bgra8) && bgra8@.len() == 0
            ==> rgba is Some,
        rgba matches Some(image) ==> image.width() == width && image.height() == height
            && image.bytes() == bgra_to_rgba(bgra8@),
{
    proof {
        let n = width * height;
        if bgra8@.len() == 0 && bgra8@.len() == byte_len_of(ImageSize::spec_new(width, height), PixelFormat::Bgra8) {
            assert(n * 4 == 0);
            assert(n == 0) by (nonlinear_arith)
                requires
                    n * 4 == 0,
            ;
            assert(byte_len_of(ImageSize::spec_new(width, height), PixelFormat::Rgba8) == 0);
        }
    }
    let size = ImageSize::new(width, height);
    let expected_len = match size.pixel_byte_len(PixelFormat::Bgra8) {
        Some(len) => len,
        None => return None,
    };
    if bgra8.len() != expected_len {
        return None;
    }
    let rgba_len = match size.rgba8_byte_len() {
        Some(len) => len,
        None => return None,
    };
    let mut rgba8: Vec<u8> = Vec::new();
    if !try_reserve_exact_bytes(&mut rgba8, rgba_len) {
        return None;
    }
    let pixel_count = bgra8.len() / 4;
    proof {
        lemma_split_index(bgra8@.len() as int, 4, width * height, 0);
    }
    let mut p: usize = 0;
    while p < pixel_count
        invariant
            p <= pixel_count,
            pixel_count * 4 == bgra8@.len(),
            bgra8@.len() <= usize::MAX,
            rgba8@.len() == p * 4,
            forall|j: int| 0 <= j < rgba8@.len() ==> rgba8@[j] == bgra_to_rgba(bgra8@)[j],
        decreases pixel_count - p,
    {
        let base = p * 4;
        let ghost start = rgba8@.len() as int;
        rgba8.push(bgra8[base + 2]);
        rgba8.push(bgra8[base + 1]);
        rgba8.push(bgra8[base]);
        rgba8.push(bgra8[base + 3]);
        proof {
            assert forall|j: int| start <= j < start + 4 implies rgba8@[j] == bgra_to_rgba(
                bgra8@,
            )[j] by {
                lemma_split_index(j, 4, p as int, j - start);
            }
        }
        p = p + 1;
    }
    assert(rgba8@ =~= bgra_to_rgba(bgra8@));
    Some(Rgba8Image::new(width, height, rgba8))
}

fn bgra8_vec_to_rgba8(width: u32, height: u32, bgra8: Vec<u8>) -> (rgba: Option<Rgba8Image>)
    ensures
        bgra8@.len() != byte_len_of(ImageSize::spec_new(width, height), PixelFormat::Bgra8)
            ==> rgba is None,
        bgra8@.len() == byte_len_of(ImageSize::spec_new(width, height), PixelFormat::Bgra8)
            ==> rgba is Some,
        rgba matches Some(image) ==> image.width() == width && image.height() == height
            && image.bytes() == bgra_to_rgba(bgra8@),
{
    let actual_len = bgra8.len();
    let size = ImageSize::new(width, height);
    let expected_len = match size.pixel_byte_len(PixelFormat::Bgra8) {
        Some(len) => len,
        None => return None,
    };
    if actual_len != expected_len {
        return None;
    }
    let ghost original = bgra8@;
    let mut pixels = bgra8;
    let pixel_count = pixels.len() / 4;
    proof {
        lemma_split_index(original.len() as int, 4, width * height, 0);
    }
    let mut p: usize = 0;
    while p < pixel_count
        invariant
            p <= pixel_count,
            pixel_count * 4 == original.len(),
            original.len() <= usize::MAX,
            pixels@.len() == original.len(),
            forall|j: int| 0 <= j < p * 4 ==> pixels@[j] == bgra_to_rgba(original)[j],
            forall|j: int| p * 4 <= j < pixels@.len() ==> pixels@[j] == original[j],
        decreases pixel_count - p,
    {
        let base = p * 4;
        let blue = pixels[base];
        let red = pixels[base + 2];
        pixels.set(base, red);
        pixels.set(base + 2, blue);
        proof {
            assert forall|j: int| base <= j < base + 4 implies pixels@[j] == bgra_to_rgba(
                original,
            )[j] by {
                lemma_split_index(j, 4, p as int, j - base);
            }
        }
        p = p + 1;
    }
    assert(pixels@ =~= bgra_to_rgba(original));
    Some(Rgba8Image::new(width, height, pixels))
}

// ---------------------------------------------------------------------------
// Any of the three layouts
// ---------------------------------------------------------------------------
#[derive(Debug, PartialEq, Eq)]
pub enum PixelImage {
    Rgb8(Rgb8Image),
    Rgba8(Rgba8Image),
    Bgra8(Bgra8Image),
}

impl Clone for PixelImage {
    fn clone(&self) -> (image: Self)
        ensures
            image == *self,
    {
        match self {
            PixelImage::Rgb8(image) => PixelImage::Rgb8(image.clone()),
            PixelImage::Rgba8(image) => PixelImage::Rgba8(image.clone()),
            PixelImage::Bgra8(image) => PixelImage::Bgra8(image.clone()),
        }
    }
}

impl PixelImage {
    pub open spec fn spec_pixel_format(&self) -> PixelFormat {
        match self {
            PixelImage::Rgb8(_) => PixelFormat::Rgb8,
            PixelImage::Rgba8(_) => PixelFormat::Rgba8,
            PixelImage::Bgra8(_) => PixelFormat::Bgra8,
        }
    }

    pub open spec fn spec_width(&self) -> u32 {
        match self {
            PixelImage::Rgb8(image) => image.width(),
            PixelImage::Rgba8(image) => image.width(),
            PixelImage::Bgra8(image) => image.width(),
        }
    }

    pub open spec fn spec_height(&self) -> u32 {
        match self {
            PixelImage::Rgb8(image) => image.height(),
            PixelImage::Rgba8(image) => image.height(),
            PixelImage::Bgra8(image) => image.height(),
        }
    }

    pub open spec fn spec_size(&self) -> ImageSize {
        ImageSize::spec_new(self.width(), self.height())
    }

    pub open spec fn bytes(&self) -> Seq<u8> {
        match self {
            PixelImage::Rgb8(image) => image.bytes(),
            PixelImage::Rgba8(image) => image.bytes(),
            PixelImage::Bgra8(image) => image.bytes(),
        }
    }

    /// Whether the buffer holds exactly one pixel per position.
    pub open spec fn spec_is_valid(&self) -> bool {
        self.bytes().len() == byte_len_of(self.size(), self.pixel_format())
    }

    pub fn new(width: u32, height: u32, pixels: Vec<u8>, format: PixelFormat) -> (image: Self)
        ensures
            image.pixel_format() == format,
            image.width() == width,
            image.height() == height,
            image.bytes() == pixels@,
    {
        match format {
            PixelFormat::Rgb8 => PixelImage::Rgb8(Rgb8Image::new(width, height, pixels)),
            PixelFormat::Rgba8 => PixelImage::Rgba8(Rgba8Image::new(width, height, pixels)),
            PixelFormat::Bgra8 => PixelImage::Bgra8(Bgra8Image::new(width, height, pixels)),
        }
    }

    #[verifier::when_used_as_spec(spec_pixel_format)]
    pub fn pixel_format(&self) -> (format: PixelFormat)
        ensures
            format == self.pixel_format(),
    {
        match self {
            PixelImage::Rgb8(_) => PixelFormat::Rgb8,
            PixelImage::Rgba8(_) => PixelFormat::Rgba8,
            PixelImage::Bgra8(_) => PixelFormat::Bgra8,
        }
    }

    #[verifier::when_used_as_spec(spec_width)]
    pub fn width(&self) -> (width: u32)
        ensures
            width == self.width(),
    {
        match self {
            PixelImage::Rgb8(image) => image.width(),
            PixelImage::Rgba8(image) => image.width(),
            PixelImage::Bgra8(image) => image.width(),
        }
    }

    #[verifier::when_used_as_spec(spec_height)]
    pub fn height(&self) -> (height: u32)
        ensures
            height == self.height(),
    {
        match self {
            PixelImage::Rgb8(image) => image.height(),
            PixelImage::Rgba8(image) => image.height(),
            PixelImage::Bgra8(image) => image.height(),
        }
    }

    #[verifier::when_used_as_spec(spec_size)]
    pub fn size(&self) -> (size: ImageSize)
        ensures
            size == self.size(),
    {
        let size = ImageSize::new(self.width(), self.height());
        proof {
            ImageSize::lemma_eq(size, self.size());
        }
        size
    }

    pub fn pixels(&self) -> (pixels: &[u8])
        ensures
            pixels@ == self.bytes(),
    {
        match self {
            PixelImage::Rgb8(image) => image.pixels(),
            PixelImage::Rgba8(image) => image.pixels(),
            PixelImage::Bgra8(image) => image.pixels(),
        }
    }

    pub fn byte_len(&self) -> (len: usize)
        ensures
            len == self.bytes().len(),
    {
        self.pixels().len()
    }

    /// The byte length that the size and format call for, when it fits in `usize`.
    pub fn expected_byte_len(&self) -> (len: Option<usize>)
        ensures
            len == pixel_byte_len_spec(self.size(), self.pixel_format()),
    {
        self.size().pixel_byte_len(self.pixel_format())
    }

    pub fn has_alpha(&self) -> (alpha: bool)
        ensures
            alpha == (self.pixel_format() != PixelFormat::Rgb8),
    {
        self.pixel_format().has_alpha()
    }

    #[verifier::when_used_as_spec(spec_is_valid)]
    pub fn is_valid(&self) -> (valid: bool)
        ensures
            valid == self.is_valid(),
    {
        let actual_len = self.pixels().len();
        match self.expected_byte_len() {
            Some(expected_len) => expected_len == actual_len,
            None => false,
        }
    }

    pub fn as_rgba8(&self) -> (image: Option<&Rgba8Image>)
        ensures
            match self {
                PixelImage::Rgba8(inner) => image == Some(inner),
                _ => image is None,
            },
    {
        match self {
            PixelImage::Rgba8(image) => Some(image),
            PixelImage::Rgb8(_) | PixelImage::Bgra8(_) => None,
        }
    }

    /// The pixels as RGBA: what `to_rgba8` and `into_rgba8` produce.
    pub open spec fn rgba_bytes(&self) -> Seq<u8> {
        match self {
            PixelImage::Rgb8(image) => rgb_to_rgba(image.bytes()),
            PixelImage::Rgba8(image) => image.bytes(),
            PixelImage::Bgra8(image) => bgra_to_rgba(image.bytes()),
        }
    }

    /// An RGBA copy; `None` for an RGB or BGRA buffer of the wrong length (or
    /// when the copy cannot be allocated).
    pub fn to_rgba8(&self) -> (image: Option<Rgba8Image>)
        ensures
            self is Rgba8 ==> image is Some,
            !(self is Rgba8) && !self.is_valid() ==> image is None,
            self.is_valid() && self.bytes().len() == 0 ==> image is Some,
            image matches Some(rgba) ==> rgba.width() == self.width() && rgba.height()
                == self.height() && rgba.bytes() == self.rgba_bytes(),
    {
        match self {
            PixelImage::Rgb8(image) => rgb8_slice_to_rgba8(
                image.width(),
                image.height(),
                image.pixels(),
            ),
            PixelImage::Rgba8(image) => Some(image.clone()),
            PixelImage::Bgra8(image) => bgra8_slice_to_rgba8(
                image.width(),
                image.height(),
                image.pixels(),
            ),
        }
    }

    /// The image as RGBA, converting BGRA in place; `None` for an RGB or BGRA
    /// buffer of the wrong length.
    pub fn into_rgba8(self) -> (image: Option<Rgba8Image>)
        ensures
            self is Rgba8 ==> image is Some,
            self is Bgra8 ==> (image is Some <==> self.is_valid()),
            !(self is Rgba8) && !self.is_valid() ==> image is None,
            image matches Some(rgba) ==> rgba.width() == self.width() && rgba.height()
                == self.height() && rgba.bytes() == self.rgba_bytes(),
    {
        match self {
            PixelImage::Rgb8(image) => {
                let width = image.width();
                let height = image.height();
                let raw = image.into_raw();
                rgb8_slice_to_rgba8(width, height, raw.as_slice())
            },
            PixelImage::Rgba8(image) => Some(image),
            PixelImage::Bgra8(image) => {
                let width = image.width();
                let height = image.height();
                bgra8_vec_to_rgba8(width, height, image.into_raw())
            },
        }
    }

    pub fn into_raw(self) -> (raw: Vec<u8>)
        ensures
            raw@ == self.bytes(),
    {
        match self {
            PixelImage::Rgb8(image) => image.into_raw(),
            PixelImage::Rgba8(image) => image.into_raw(),
            PixelImage::Bgra8(image) => image.into_raw(),
        }
    }
}

impl From<Rgb8Image> for PixelImage {
    fn from(image: Rgb8Image) -> (pixels: Self) {
        PixelImage::Rgb8(image)
    }
}

impl vstd::std_specs::convert::FromSpecImpl<Rgb8Image> for PixelImage {
    open spec fn obeys_from_spec() -> bool {
        true
    }

    open spec fn from_spec(image: Rgb8Image) -> Self {
        PixelImage::Rgb8(image)
    }
}

impl From<Rgba8Image> for PixelImage {
    fn from(image: Rgba8Image) -> (pixels: Self) {
        PixelImage::Rgba8(image)
    }
}

impl vstd::std_specs::convert::FromSpecImpl<Rgba8Image> for PixelImage {
    open spec fn obeys_from_spec() -> bool {
        true
    }

    open spec fn from_spec(image: Rgba8Image) -> Self {
        PixelImage::Rgba8(image)
    }
}

impl From<Bgra8Image> for PixelImage {
    fn from(image: Bgra8Image) -> (pixels: Self) {
        PixelImage::Bgra8(image)
    }
}

impl vstd::std_specs::convert::FromSpecImpl<Bgra8Image> for PixelImage {
    open spec fn obeys_from_spec() -> bool {
        true
    }

    open spec fn from_spec(image: Bgra8Image) -> Self {
        PixelImage::Bgra8(image)
    }
}

// ---------------------------------------------------------------------------
// Orientation
// ---------------------------------------------------------------------------
/// The stored pixel shown at `(x, y)` of the oriented image, for a stored image
/// of `width` by `height` pixels.
pub open spec fn source_position(
    orientation: ImageOrientation,
    x: int,
    y: int,
    width: int,
    height: int,
) -> (int, int) {
    match orientation {
        ImageOrientation::Normal => (x, y),
        ImageOrientation::FlipHorizontal => (width - 1 - x, y),
        ImageOrientation::Rotate180 => (width - 1 - x, height - 1 - y),
        ImageOrientation::FlipVertical => (x, height - 1 - y),
        ImageOrientation::Rotate90FlipHorizontal => (y, x),
        ImageOrientation::Rotate90 => (y, height - 1 - x),
        ImageOrientation::Rotate270FlipHorizontal => (width - 1 - y, height - 1 - x),
        ImageOrientation::Rotate270 => (width - 1 - y, x),
    }
}

/// The width of the oriented image.
pub open spec fn oriented_width(orientation: ImageOrientation, width: int, height: int) -> int {
    if orientation.swaps_axes() {
        height
    } else {
        width
    }
}

/// The height of the oriented image.
pub open spec fn oriented_height(orientation: ImageOrientation, width: int, height: int) -> int {
    if orientation.swaps_axes() {
        width
    } else {
        height
    }
}

/// Byte `i` of the oriented image: channel `i % bpp` of the stored pixel that
/// `source_position` names for output pixel `i / bpp`.
pub open spec fn oriented_byte(
    source: Seq<u8>,
    width: int,
    height: int,
    bpp: int,
    orientation: ImageOrientation,
    i: int,
) -> u8 {
    let out_width = oriented_width(orientation, width, height);
    let pixel = i / bpp;
    let position = source_position(orientation, pixel % out_width, pixel / out_width, width, height);
    source[(position.1 * width + position.0) * bpp + i % bpp]
}

/// The bytes of the stored image re-ordered for `orientation`.
pub open spec fn oriented_bytes(
    source: Seq<u8>,
    width: int,
    height: int,
    bpp: int,
    orientation: ImageOrientation,
) -> Seq<u8> {
    Seq::new(source.len(), |i: int| oriented_byte(source, width, height, bpp, orientation, i))
}

proof fn lemma_source_position_in_bounds(
    orientation: ImageOrientation,
    x: int,
    y: int,
    width: int,
    height: int,
)
    requires
        0 <= x < oriented_width(orientation, width, height),
        0 <= y < oriented_height(orientation, width, height),
    ensures
        0 <= source_position(orientation, x, y, width, height).0 < width,
        0 <= source_position(orientation, x, y, width, height).1 < height,
{
}

proof fn lemma_pixel_index_bounds(x: int, y: int, c: int, width: int, height: int, bpp: int)
    requires
        0 <= x < width,
        0 <= y < height,
        0 <= c < bpp,
    ensures
        0 <= (y * width + x) * bpp + c < width * height * bpp,
        0 <= y * width + x < width * height,
        0 <= y * width <= y * width + x <= (y * width + x) * bpp,
{
    assert(0 <= y * width + x < width * height) by (nonlinear_arith)
        requires
            0 <= x < width,
            0 <= y < height,
    ;
    assert(0 <= (y * width + x) * bpp + c < width * height * bpp) by (nonlinear_arith)
        requires
            0 <= y * width + x < width * height,
            0 <= c < bpp,
    ;
    assert(0 <= y * width <= y * width + x <= (y * width + x) * bpp) by (nonlinear_arith)
        requires
            0 <= x,
            0 <= y,
            0 <= width,
            1 <= bpp,
    ;
}

/// Splits byte index `(y * width + x) * bpp + c` back into its pixel and channel.
proof fn lemma_pixel_index_split(x: int, y: int, c: int, width: int, bpp: int)
    requires
        0 <= x < width,
        0 <= y,
        0 <= c < bpp,
    ensures
        ((y * width + x) * bpp + c) / bpp == y * width + x,
        ((y * width + x) * bpp + c) % bpp == c,
        (y * width + x) % width == x,
        (y * width + x) / width == y,
{
    lemma_split_index((y * width + x) * bpp + c, bpp, y * width + x, c);
    lemma_split_index(y * width + x, width, y, x);
}

/// Every index below `width * height * bpp` is the index of some pixel channel.
proof fn lemma_index_decomposes(i: int, width: int, height: int, bpp: int)
    requires
        width > 0,
        bpp > 0,
        0 <= i < width * height * bpp,
    ensures
        0 <= (i / bpp) % width < width,
        0 <= (i / bpp) / width < height,
        0 <= i % bpp < bpp,
        i == ((i / bpp) / width * width + (i / bpp) % width) * bpp + i % bpp,
{
    let p = i / bpp;
    let r = i % bpp;
    vstd::arithmetic::div_mod::lemma_fundamental_div_mod(i, bpp);
    vstd::arithmetic::div_mod::lemma_mod_bound(i, bpp);
    vstd::arithmetic::div_mod::lemma_div_pos_is_pos(i, bpp);
    let q = p / width;
    let s = p % width;
    vstd::arithmetic::div_mod::lemma_fundamental_div_mod(p, width);
    vstd::arithmetic::div_mod::lemma_mod_bound(p, width);
    vstd::arithmetic::div_mod::lemma_div_pos_is_pos(p, width);
    assert(p < width * height) by (nonlinear_arith)
        requires
            i == bpp * p + r,
            0 <= r,
            i < width * height * bpp,
            bpp > 0,
    ;
    assert(q < height) by (nonlinear_arith)
        requires
            p == width * q + s,
            0 <= s,
            p < width * height,
            width > 0,
    ;
    assert(i == (q * width + s) * bpp + r) by (nonlinear_arith)
        requires
            i == bpp * p + r,
            p == width * q + s,
    ;
}

/// Orienting bytes for the identity orientation gives them back.
proof fn lemma_oriented_identity(source: Seq<u8>, width: int, height: int, bpp: int)
    requires
        width > 0,
        bpp > 0,
        source.len() == width * height * bpp,
    ensures
        oriented_bytes(source, width, height, bpp, ImageOrientation::Normal) == source,
{
    assert forall|i: int| 0 <= i < source.len() implies oriented_byte(
        source,
        width,
        height,
        bpp,
        ImageOrientation::Normal,
        i,
    ) == source[i] by {
        lemma_index_decomposes(i, width, height, bpp);
    }
    assert(oriented_bytes(source, width, height, bpp, ImageOrientation::Normal) =~= source);
}

/// The exec counterpart of `source_position`.
fn source_pixel_position(
    orientation: ImageOrientation,
    x: usize,
    y: usize,
    width: usize,
    height: usize,
) -> (position: (usize, usize))
    requires
        0 <= x < oriented_width(orientation, width as int, height as int),
        0 <= y < oriented_height(orientation, width as int, height as int),
    ensures
        position.0 as int == source_position(orientation, x as int, y as int, width as int, height as int).0,
        position.1 as int == source_position(orientation, x as int, y as int, width as int, height as int).1,
{
    match orientation {
        ImageOrientation::Normal => (x, y),
        ImageOrientation::FlipHorizontal => (width - 1 - x, y),
        ImageOrientation::Rotate180 => (width - 1 - x, height - 1 - y),
        ImageOrientation::FlipVertical => (x, height - 1 - y),
        ImageOrientation::Rotate90FlipHorizontal => (y, x),
        ImageOrientation::Rotate90 => (y, height - 1 - x),
        ImageOrientation::Rotate270FlipHorizontal => (width - 1 - y, height - 1 - x),
        ImageOrientation::Rotate270 => (width - 1 - y, x),
    }
}

/// Whether `pixels` holds exactly one `format` pixel per position of `size`.
pub open spec fn fits_size(pixels: Seq<u8>, size: ImageSize, format: PixelFormat) -> bool {
    pixels.len() == byte_len_of(size, format)
}

/// Re-orders stored pixels for `orientation`. `None` when the buffer does not
/// fit the size (or the output cannot be allocated).
fn orient_pixel_bytes(
    source_size: ImageSize,
    source_pixels: &[u8],
    format: PixelFormat,
    orientation: ImageOrientation,
) -> (oriented: Option<(ImageSize, Vec<u8>)>)
    ensures
        !fits_size(source_pixels@, source_size, format) ==> oriented is None,
        fits_size(source_pixels@, source_size, format) && (orientation.is_identity() || source_pixels@.len() == 0)
            ==> oriented is Some,
        oriented matches Some((size, bytes)) ==> {
            &&& fits_size(source_pixels@, source_size, format)
            &&& size == source_size.oriented(orientation)
            &&& bytes@ == oriented_bytes(
                source_pixels@,
                source_size.width() as int,
                source_size.height() as int,
                format.bytes_per_pixel() as int,
                orientation,
            )
        },
{
    let actual_len = source_pixels.len();
    let expected_source_len = match source_size.pixel_byte_len(format) {
        Some(len) => len,
        None => return None,
    };
    if actual_len != expected_source_len {
        return None;
    }
    let bpp = format.bytes_per_pixel();
    let width = source_size.width() as usize;
    let height = source_size.height() as usize;
    let ghost (w, h, b) = (width as int, height as int, bpp as int);
    assert(actual_len == w * h * b);
    if orientation.is_identity() {
        if width > 0 {
            proof {
                lemma_oriented_identity(source_pixels@, w, h, b);
            }
        } else {
            assert(source_pixels@.len() == 0) by (nonlinear_arith)
                requires
                    source_pixels@.len() == w * h * b,
                    w == 0,
            ;
            assert(oriented_bytes(source_pixels@, w, h, b, orientation) =~= source_pixels@);
        }
        return Some((source_size, slice_to_vec(source_pixels)));
    }
    let output_size = source_size.with_orientation(orientation);
    let output_len = actual_len;
    let mut output: Vec<u8> = Vec::new();
    if !try_reserve_exact_bytes(&mut output, output_len) {
        return None;
    }
    let out_width = output_size.width() as usize;
    let out_height = output_size.height() as usize;
    assert(out_width == oriented_width(orientation, w, h));
    assert(out_height == oriented_height(orientation, w, h));
    assert(out_width * out_height == w * h) by (nonlinear_arith)
        requires
            (out_width == w && out_height == h) || (out_width == h && out_height == w),
    ;
    let ghost target = oriented_bytes(source_pixels@, w, h, b, orientation);
    let mut y: usize = 0;
    assert(y * out_width * b == 0) by (nonlinear_arith)
        requires
            y == 0,
    ;
    while y < out_height
        invariant
            y <= out_height,
            out_width == oriented_width(orientation, w, h),
            out_height == oriented_height(orientation, w, h),
            out_width * out_height == w * h,
            width == w,
            height == h,
            bpp == b,
            3 <= b <= 4,
            source_pixels@.len() == w * h * b,
            source_pixels@.len() <= usize::MAX,
            target == oriented_bytes(source_pixels@, w, h, b, orientation),
            output@.len() == y * out_width * b,
            forall|j: int| 0 <= j < output@.len() ==> output@[j] == target[j],
        decreases out_height - y,
    {
        let mut x: usize = 0;
        while x < out_width
            invariant
                y < out_height,
                x <= out_width,
                out_width == oriented_width(orientation, w, h),
                out_height == oriented_height(orientation, w, h),
                out_width * out_height == w * h,
                width == w,
                height == h,
                bpp == b,
                3 <= b <= 4,
                source_pixels@.len() == w * h * b,
                source_pixels@.len() <= usize::MAX,
                target == oriented_bytes(source_pixels@, w, h, b, orientation),
                output@.len() == (y * out_width + x) * b,
                forall|j: int| 0 <= j < output@.len() ==> output@[j] == target[j],
            decreases out_width - x,
        {
            let (source_x, source_y) = source_pixel_position(orientation, x, y, width, height);
            proof {
                lemma_source_position_in_bounds(orientation, x as int, y as int, w, h);
                lemma_pixel_index_bounds(source_x as int, source_y as int, 0, w, h, b);
                lemma_pixel_index_bounds(x as int, y as int, 0, out_width as int, out_height as int, b);
            }
            let base = (source_y * width + source_x) * bpp;
            let mut c: usize = 0;
            while c < bpp
                invariant
                    y < out_height,
                    x < out_width,
                    c <= bpp,
                    out_width == oriented_width(orientation, w, h),
                    out_width * out_height == w * h,
                    width == w,
                    height == h,
                    bpp == b,
                    3 <= b <= 4,
                    source_x < w,
                    source_y < h,
                    (source_x as int, source_y as int) == source_position(orientation, x as int, y as int, w, h),
                    base == (source_y * w + source_x) * b,
                    source_pixels@.len() == w * h * b,
                    source_pixels@.len() <= usize::MAX,
                    target == oriented_bytes(source_pixels@, w, h, b, orientation),
                    output@.len() == (y * out_width + x) * b + c,
                    forall|j: int| 0 <= j < output@.len() ==> output@[j] == target[j],
                decreases bpp - c,
            {
                proof {
                    lemma_pixel_index_bounds(source_x as int, source_y as int, c as int, w, h, b);
                    lemma_pixel_index_bounds(x as int, y as int, c as int, out_width as int, out_height as int, b);
                    lemma_pixel_index_split(x as int, y as int, c as int, out_width as int, b);
                }
                let ghost j = output@.len() as int;
                output.push(source_pixels[base + c]);
                assert(output@[j] == target[j]);
                c = c + 1;
            }
            assert((y * out_width + x) * b + b == (y * out_width + (x + 1)) * b) by (nonlinear_arith);
            x = x + 1;
        }
        assert((y * out_width + out_width) * b == (y + 1) * out_width * b) by (nonlinear_arith);
        y = y + 1;
    }
    assert(output@.len() == source_pixels@.len()) by (nonlinear_arith)
        requires
            output@.len() == out_height * out_width * b,
            out_width * out_height == w * h,
            source_pixels@.len() == w * h * b,
    ;
    assert(output@ =~= target);
    Some((output_size, output))
}

/// The bytes of `pixels`, laid out as `size` in `format`, re-ordered for `orientation`.
pub open spec fn oriented_image_bytes(
    pixels: Seq<u8>,
    size: ImageSize,
    format: PixelFormat,
    orientation: ImageOrientation,
) -> Seq<u8> {
    oriented_bytes(
        pixels,
        size.width() as int,
        size.height() as int,
        format.bytes_per_pixel() as int,
        orientation,
    )
}

proof fn lemma_oriented_identity_any(pixels: Seq<u8>, size: ImageSize, format: PixelFormat)
    requires
        fits_size(pixels, size, format),
    ensures
        oriented_image_bytes(pixels, size, format, ImageOrientation::Normal) == pixels,
{
    let (w, h, b) = (size.width() as int, size.height() as int, format.bytes_per_pixel() as int);
    if w > 0 {
        lemma_oriented_identity(pixels, w, h, b);
    } else {
        assert(pixels.len() == 0) by (nonlinear_arith)
            requires
                pixels.len() == w * h * b,
                w == 0,
        ;
        assert(oriented_image_bytes(pixels, size, format, ImageOrientation::Normal) =~= pixels);
    }
}

/// Orienting by `orientation` and then by the pure rotation of `rotation` picks
/// the same stored pixel as orienting once by `orientation.then_rotation(rotation)`.
proof fn lemma_source_position_composes(
    orientation: ImageOrientation,
    rotation: ImageRotation,
    x: int,
    y: int,
    width: int,
    height: int,
)
    ensures
        ({
            let turn = ImageOrientation::Normal.then_rotation(rotation);
            let middle = source_position(
                turn,
                x,
                y,
                oriented_width(orientation, width, height),
                oriented_height(orientation, width, height),
            );
            source_position(orientation, middle.0, middle.1, width, height) == source_position(
                orientation.then_rotation(rotation),
                x,
                y,
                width,
                height,
            )
        }),
{
    reveal_with_fuel(ImageOrientation::then_turns, 4);
}

/// Orienting an image by its EXIF orientation and then rotating the result is
/// the same as orienting it once by the composed display orientation: the same
/// size and the same bytes.
pub proof fn law_orientation_then_rotation(
    pixels: Seq<u8>,
    size: ImageSize,
    format: PixelFormat,
    orientation: ImageOrientation,
    rotation: ImageRotation,
)
    requires
        fits_size(pixels, size, format),
    ensures
        size.oriented(orientation).oriented(ImageOrientation::Normal.then_rotation(rotation))
            == size.oriented(orientation.then_rotation(rotation)),
        oriented_image_bytes(
            oriented_image_bytes(pixels, size, format, orientation),
            size.oriented(orientation),
            format,
            ImageOrientation::Normal.then_rotation(rotation),
        ) == oriented_image_bytes(pixels, size, format, orientation.then_rotation(rotation)),
{
    reveal_with_fuel(ImageOrientation::then_turns, 4);
    let turn = ImageOrientation::Normal.then_rotation(rotation);
    let composed = orientation.then_rotation(rotation);
    let (w, h, b) = (size.width() as int, size.height() as int, format.bytes_per_pixel() as int);
    let middle_size = size.oriented(orientation);
    let (mw, mh) = (middle_size.width() as int, middle_size.height() as int);
    assert(mw == oriented_width(orientation, w, h) && mh == oriented_height(orientation, w, h));
    let out_w = oriented_width(turn, mw, mh);
    let out_h = oriented_height(turn, mw, mh);
    assert(out_w == oriented_width(composed, w, h) && out_h == oriented_height(composed, w, h));
    assert(middle_size.oriented(turn).width() == out_w);
    assert(middle_size.oriented(turn).height() == out_h);
    assert(size.oriented(composed).width() == out_w);
    assert(size.oriented(composed).height() == out_h);
    ImageSize::lemma_eq(middle_size.oriented(turn), size.oriented(composed));
    let middle = oriented_image_bytes(pixels, size, format, orientation);
    let left = oriented_image_bytes(middle, middle_size, format, turn);
    let right = oriented_image_bytes(pixels, size, format, composed);
    assert(mw * mh == w * h) by (nonlinear_arith)
        requires
            (mw == w && mh == h) || (mw == h && mh == w),
    ;
    assert(out_w * out_h == w * h) by (nonlinear_arith)
        requires
            (out_w == w && out_h == h) || (out_w == h && out_h == w),
    ;
    assert(left.len() == out_w * out_h * b);
    assert forall|i: int| 0 <= i < left.len() implies left[i] == right[i] by {
        assert(out_w > 0) by (nonlinear_arith)
            requires
                0 <= i < out_w * out_h * b,
                out_w >= 0,
                out_h >= 0,
                b > 0,
        ;
        lemma_index_decomposes(i, out_w, out_h, b);
        let p = i / b;
        let c = i % b;
        let (x, y) = (p % out_w, p / out_w);
        let position = source_position(turn, x, y, mw, mh);
        lemma_source_position_in_bounds(turn, x, y, mw, mh);
        lemma_source_position_composes(orientation, rotation, x, y, w, h);
        lemma_pixel_index_bounds(position.0, position.1, c, mw, mh, b);
        lemma_pixel_index_split(position.0, position.1, c, mw, b);
    }
    assert(left =~= right);
}

/// The bytes that orienting an image in `format` by `orientation` produces, when
/// its buffer fits its size.
pub open spec fn orients_to(
    source_bytes: Seq<u8>,
    source_size: ImageSize,
    format: PixelFormat,
    orientation: ImageOrientation,
    out_size: ImageSize,
    out_bytes: Seq<u8>,
) -> bool {
    &&& out_size == source_size.oriented(orientation)
    &&& out_bytes == oriented_image_bytes(source_bytes, source_size, format, orientation)
}

pub fn orient_rgb8_image(image: &Rgb8Image, orientation: ImageOrientation) -> (oriented: Option<Rgb8Image>)
    ensures
        orientation.is_identity() ==> oriented == Some(*image),
        !orientation.is_identity() && !fits_size(image.bytes(), image.size(), PixelFormat::Rgb8)
            ==> oriented is None,
        fits_size(image.bytes(), image.size(), PixelFormat::Rgb8) && image.bytes().len() == 0 ==> oriented is Some,
        oriented matches Some(out) ==> fits_size(image.bytes(), image.size(), PixelFormat::Rgb8)
            ==> orients_to(image.bytes(), image.size(), PixelFormat::Rgb8, orientation, out.size(), out.bytes()),
{
    if orientation.is_identity() {
        proof {
            if fits_size(image.bytes(), image.size(), PixelFormat::Rgb8) {
                lemma_oriented_identity_any(image.bytes(), image.size(), PixelFormat::Rgb8);
            }
        }
        return Some(image.clone());
    }
    let (output_size, output) = match orient_pixel_bytes(
        image.size(),
        image.pixels(),
        PixelFormat::Rgb8,
        orientation,
    ) {
        Some(oriented) => oriented,
        None => return None,
    };
    let out = Rgb8Image::new(output_size.width(), output_size.height(), output);
    proof {
        ImageSize::lemma_eq(out.size(), output_size);
    }
    Some(out)
}

pub fn orient_rgba8_image(image: &Rgba8Image, orientation: ImageOrientation) -> (oriented: Option<Rgba8Image>)
    ensures
        orientation.is_identity() ==> oriented == Some(*image),
        !orientation.is_identity() && !fits_size(image.bytes(), image.size(), PixelFormat::Rgba8)
            ==> oriented is None,
        fits_size(image.bytes(), image.size(), PixelFormat::Rgba8) && image.bytes().len() == 0 ==> oriented is Some,
        oriented matches Some(out) ==> fits_size(image.bytes(), image.size(), PixelFormat::Rgba8)
            ==> orients_to(image.bytes(), image.size(), PixelFormat::Rgba8, orientation, out.size(), out.bytes()),
{
    if orientation.is_identity() {
        proof {
            if fits_size(image.bytes(), image.size(), PixelFormat::Rgba8) {
                lemma_oriented_identity_any(image.bytes(), image.size(), PixelFormat::Rgba8);
            }
        }
        return Some(image.clone());
    }
    let (output_size, output) = match orient_pixel_bytes(
        image.size(),
        image.pixels(),
        PixelFormat::Rgba8,
        orientation,
    ) {
        Some(oriented) => oriented,
        None => return None,
    };
    let out = Rgba8Image::new(output_size.width(), output_size.height(), output);
    proof {
        ImageSize::lemma_eq(out.size(), output_size);
    }
    Some(out)
}

pub fn orient_bgra8_image(image: &Bgra8Image, orientation: ImageOrientation) -> (oriented: Option<Bgra8Image>)
    ensures
        orientation.is_identity() ==> oriented == Some(*image),
        !orientation.is_identity() && !fits_size(image.bytes(), image.size(), PixelFormat::Bgra8)
            ==> oriented is None,
        fits_size(image.bytes(), image.size(), PixelFormat::Bgra8) && image.bytes().len() == 0 ==> oriented is Some,
        oriented matches Some(out) ==> fits_size(image.bytes(), image.size(), PixelFormat::Bgra8)
            ==> orients_to(image.bytes(), image.size(), PixelFormat::Bgra8, orientation, out.size(), out.bytes()),
{
    if orientation.is_identity() {
        proof {
            if fits_size(image.bytes(), image.size(), PixelFormat::Bgra8) {
                lemma_oriented_identity_any(image.bytes(), image.size(), PixelFormat::Bgra8);
            }
        }
        return Some(image.clone());
    }
    let (output_size, output) = match orient_pixel_bytes(
        image.size(),
        image.pixels(),
        PixelFormat::Bgra8,
        orientation,
    ) {
        Some(oriented) => oriented,
        None => return None,
    };
    let out = Bgra8Image::new(output_size.width(), output_size.height(), output);
    proof {
        ImageSize::lemma_eq(out.size(), output_size);
    }
    Some(out)
}

/// Orients an image in any layout, keeping the layout.
pub fn orient_pixel_image(image: &PixelImage, orientation: ImageOrientation) -> (oriented: Option<PixelImage>)
    ensures
        orientation.is_identity() ==> oriented == Some(*image),
        !orientation.is_identity() && !image.is_valid() ==> oriented is None,
        image.is_valid() && image.bytes().len() == 0 ==> oriented is Some,
        oriented matches Some(out) ==> out.pixel_format() == image.pixel_format(),
        oriented matches Some(out) ==> image.is_valid() ==> orients_to(
            image.bytes(),
            image.size(),
            image.pixel_format(),
            orientation,
            out.size(),
            out.bytes(),
        ),
{
    match image {
        PixelImage::Rgb8(inner) => match orient_rgb8_image(inner, orientation) {
            Some(out) => Some(PixelImage::Rgb8(out)),
            None => None,
        },
        PixelImage::Rgba8(inner) => match orient_rgba8_image(inner, orientation) {
            Some(out) => Some(PixelImage::Rgba8(out)),
            None => None,
        },
        PixelImage::Bgra8(inner) => match orient_bgra8_image(inner, orientation) {
            Some(out) => Some(PixelImage::Bgra8(out)),
            None => None,
        },
    }
}

/// Rotates an RGBA image clockwise by a user rotation.
pub fn rotate_rgba8_image(image: &Rgba8Image, rotation: ImageRotation) -> (rotated: Option<Rgba8Image>)
    ensures
        rotation == ImageRotation::Degrees0 ==> rotated == Some(*image),
        rotation != ImageRotation::Degrees0 && !fits_size(image.bytes(), image.size(), PixelFormat::Rgba8)
            ==> rotated is None,
        rotated matches Some(out) ==> fits_size(image.bytes(), image.size(), PixelFormat::Rgba8)
            ==> orients_to(
            image.bytes(),
            image.size(),
            PixelFormat::Rgba8,
            ImageOrientation::Normal.then_rotation(rotation),
            out.size(),
            out.bytes(),
        ),
{
    proof {
        reveal_with_fuel(ImageOrientation::then_turns, 4);
    }
    orient_rgba8_image(image, ImageOrientation::NORMAL.then_rotation(rotation))
}

/// Rotates an image in any layout clockwise by a user rotation.
pub fn rotate_pixel_image(image: &PixelImage, rotation: ImageRotation) -> (rotated: Option<PixelImage>)
    ensures
        rotation == ImageRotation::Degrees0 ==> rotated == Some(*image),
        rotation != ImageRotation::Degrees0 && !image.is_valid() ==> rotated is None,
        rotated matches Some(out) ==> out.pixel_format() == image.pixel_format(),
        rotated matches Some(out) ==> image.is_valid() ==> orients_to(
            image.bytes(),
            image.size(),
            image.pixel_format(),
            ImageOrientation::Normal.then_rotation(rotation),
            out.size(),
            out.bytes(),
        ),
{
    proof {
        reveal_with_fuel(ImageOrientation::then_turns, 4);
    }
    orient_pixel_image(image, ImageOrientation::NORMAL.then_rotation(rotation))
}

} // verus!

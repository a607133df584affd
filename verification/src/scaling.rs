//! When a scaled copy of the displayed image is made in software, the size it
//! is made at, and the keys that decide when it must be made again; the
//! generations that tell current decode results from stale ones; and the
//! entries of the memory cache.
use vstd::prelude::*;

use crate::geometry::{ImageOrientation, ImageSize, ScalingQuality};

verus! {

broadcast use ImageSize::lemma_spec_new;

/// Scaled copies are made at sizes rounded up to multiples of this many pixels.
pub const SCALING_CACHE_TARGET_BUCKET_PIXELS: u32 = 16;

/// What a scaled copy was made from and for.
#[derive(Debug, Clone, Copy, PartialEq, Eq, Structural, Hash)]
pub struct ScalingCacheKey {
    image_revision: u64,
    orientation: ImageOrientation,
    target_size: ImageSize,
    quality: ScalingQuality,
}

impl ScalingCacheKey {
    pub closed spec fn spec_image_revision(self) -> u64 {
        self.image_revision
    }

    pub closed spec fn spec_orientation(self) -> ImageOrientation {
        self.orientation
    }

    pub closed spec fn spec_target_size(self) -> ImageSize {
        self.target_size
    }

    pub closed spec fn spec_quality(self) -> ScalingQuality {
        self.quality
    }

    /// Two keys are equal exactly when their four parts are.
    pub proof fn lemma_eq(a: Self, b: Self)
        ensures
            (a == b) <==> (a.image_revision() == b.image_revision() && a.orientation() == b.orientation()
                && a.target_size() == b.target_size() && a.quality() == b.quality()),
    {
    }

    pub fn new(image_revision: u64, orientation: ImageOrientation, target_size: ImageSize, quality: ScalingQuality) -> (key: Self)
        ensures
            key.image_revision() == image_revision,
            key.orientation() == orientation,
            key.target_size() == target_size,
            key.quality() == quality,
    {
        Self { image_revision, orientation, target_size, quality }
    }

    #[verifier::when_used_as_spec(spec_image_revision)]
    pub fn image_revision(self) -> (revision: u64)
        ensures
            revision == self.image_revision(),
    {
        self.image_revision
    }

    #[verifier::when_used_as_spec(spec_orientation)]
    pub fn orientation(self) -> (orientation: ImageOrientation)
        ensures
            orientation == self.orientation(),
    {
        self.orientation
    }

    #[verifier::when_used_as_spec(spec_target_size)]
    pub fn target_size(self) -> (size: ImageSize)
        ensures
            size == self.target_size(),
    {
        self.target_size
    }

    #[verifier::when_used_as_spec(spec_quality)]
    pub fn quality(self) -> (quality: ScalingQuality)
        ensures
            quality == self.quality(),
    {
        self.quality
    }
}

/// Whether one extent is less than 98 % of another.
///
/// This is the comparison `target as f64 / source as f64 < 0.98` made exactly:
/// two distinct fractions with 32-bit terms differ by more than 2^-64, far
/// more than the rounding of the division, so the floating-point comparison
/// and `50 * target < 49 * source` always agree.
pub open spec fn below_balanced_threshold(target_extent: u32, source_extent: u32) -> bool {
    source_extent > 0 && 50 * target_extent < 49 * source_extent
}

fn below_balanced_downscale_threshold(target_extent: u32, source_extent: u32) -> (below: bool)
    ensures
        below == below_balanced_threshold(target_extent, source_extent),
{
    source_extent > 0 && (target_extent as u64) * 50 < (source_extent as u64) * 49
}

/// Whether a scaled copy is made in software: never for an empty size, an
/// unchanged size or nearest-neighbour scaling; for high-quality scaling
/// always; for balanced scaling only when shrinking one axis below 98 %.
pub open spec fn uses_software_resampling(source_size: ImageSize, target_size: ImageSize, quality: ScalingQuality) -> bool {
    if source_size.width() == 0 || source_size.height() == 0 || target_size.width() == 0
        || target_size.height() == 0 || source_size == target_size {
        false
    } else {
        match quality {
            ScalingQuality::Nearest => false,
            ScalingQuality::Balanced => below_balanced_threshold(target_size.width(), source_size.width())
                || below_balanced_threshold(target_size.height(), source_size.height()),
            ScalingQuality::HighQuality => true,
        }
    }
}

pub fn should_use_software_resampling(source_size: ImageSize, target_size: ImageSize, quality: ScalingQuality) -> (software: bool)
    ensures
        software == uses_software_resampling(source_size, target_size, quality),
{
    if source_size.is_empty() || target_size.is_empty() || source_size == target_size {
        return false;
    }
    match quality {
        ScalingQuality::Nearest => false,
        ScalingQuality::Balanced => below_balanced_downscale_threshold(target_size.width(), source_size.width())
            || below_balanced_downscale_threshold(target_size.height(), source_size.height()),
        ScalingQuality::HighQuality => true,
    }
}

/// An extent rounded up to a multiple of 16 (at least 1); small extents stay
/// as they are, and the rounding saturates at the top of `u32`.
pub open spec fn quantized_extent(extent: u32) -> u32 {
    if extent <= SCALING_CACHE_TARGET_BUCKET_PIXELS {
        if extent < 1 {
            1
        } else {
            extent
        }
    } else {
        let padded = if extent + 15 > u32::MAX {
            u32::MAX as int
        } else {
            extent + 15
        };
        ((padded / 16) * 16) as u32
    }
}

fn quantized_scaling_cache_extent(extent: u32) -> (quantized: u32)
    ensures
        quantized == quantized_extent(extent),
{
    if extent <= SCALING_CACHE_TARGET_BUCKET_PIXELS {
        return if extent < 1 {
            1
        } else {
            extent
        };
    }
    let bucket_count = extent.saturating_add(SCALING_CACHE_TARGET_BUCKET_PIXELS - 1) / SCALING_CACHE_TARGET_BUCKET_PIXELS;
    assert(bucket_count * 16 <= u32::MAX);
    bucket_count * SCALING_CACHE_TARGET_BUCKET_PIXELS
}

pub open spec fn min_u32(a: u32, b: u32) -> u32 {
    if a < b {
        a
    } else {
        b
    }
}

/// The size a scaled copy is made at: the display size rounded up per axis
/// (and, for balanced scaling, no larger than the source); none when no copy
/// is made or it would have the source's size.
pub open spec fn cache_target_size(source_size: ImageSize, display_size: ImageSize, quality: ScalingQuality) -> Option<ImageSize> {
    if !uses_software_resampling(source_size, display_size, quality) {
        None
    } else {
        let w = quantized_extent(display_size.width());
        let h = quantized_extent(display_size.height());
        let (w, h) = if quality == ScalingQuality::Balanced {
            (min_u32(w, source_size.width()), min_u32(h, source_size.height()))
        } else {
            (w, h)
        };
        if w == source_size.width() && h == source_size.height() {
            None
        } else {
            Some(ImageSize::spec_new(w, h))
        }
    }
}

pub fn scaling_cache_target_size(source_size: ImageSize, display_size: ImageSize, quality: ScalingQuality) -> (target: Option<ImageSize>)
    ensures
        target == cache_target_size(source_size, display_size, quality),
{
    if !should_use_software_resampling(source_size, display_size, quality) {
        return None;
    }
    let mut width = quantized_scaling_cache_extent(display_size.width());
    let mut height = quantized_scaling_cache_extent(display_size.height());
    if quality == ScalingQuality::Balanced {
        if source_size.width() < width {
            width = source_size.width();
        }
        if source_size.height() < height {
            height = source_size.height();
        }
    }
    if width == source_size.width() && height == source_size.height() {
        None
    } else {
        Some(ImageSize::new(width, height))
    }
}

/// The key of the scaled copy for a render, when one is made.
pub fn scaling_cache_key_for_render(
    image_revision: u64,
    orientation: ImageOrientation,
    source_size: ImageSize,
    display_size: ImageSize,
    quality: ScalingQuality,
) -> (key: Option<ScalingCacheKey>)
    ensures
        match cache_target_size(source_size, display_size, quality) {
            Some(target) => key matches Some(k) && k.image_revision() == image_revision && k.orientation()
                == orientation && k.target_size() == target && k.quality() == quality,
            None => key is None,
        },
{
    match scaling_cache_target_size(source_size, display_size, quality) {
        Some(target) => Some(ScalingCacheKey::new(image_revision, orientation, target, quality)),
        None => None,
    }
}

/// A scaled copy is made again unless the cached one has the same key.
pub fn should_rebuild_scaling_cache(cached_key: Option<ScalingCacheKey>, next_key: ScalingCacheKey) -> (rebuild: bool)
    ensures
        rebuild == (cached_key != Some(next_key)),
{
    match cached_key {
        Some(cached) => cached != next_key,
        None => true,
    }
}

/// Display sizes in the same 16-pixel bucket give the same key, so resizing
/// the window a little reuses the scaled copy.
pub proof fn law_same_bucket_same_target(source_size: ImageSize, a: ImageSize, b: ImageSize, quality: ScalingQuality)
    requires
        quantized_extent(a.width()) == quantized_extent(b.width()),
        quantized_extent(a.height()) == quantized_extent(b.height()),
        uses_software_resampling(source_size, a, quality) == uses_software_resampling(source_size, b, quality),
    ensures
        cache_target_size(source_size, a, quality) == cache_target_size(source_size, b, quality),
{
}

/// A made copy is never larger than the source under balanced scaling, and
/// never has the source's size.
pub proof fn law_cache_target_bounds(source_size: ImageSize, display_size: ImageSize, quality: ScalingQuality)
    ensures
        cache_target_size(source_size, display_size, quality) matches Some(t) ==> (t != source_size && (
        quality == ScalingQuality::Balanced ==> t.width() <= source_size.width() && t.height()
            <= source_size.height())),
{
}

/// Which decode a result belongs to; a result whose generation is not the
/// active one is stale.
#[derive(Debug, Clone, Copy, PartialEq, Eq, Structural, Hash)]
pub struct DecodeGeneration(u64);

impl DecodeGeneration {
    pub closed spec fn spec_value(self) -> u64 {
        self.0
    }

    pub proof fn lemma_eq(a: Self, b: Self)
        ensures
            (a == b) <==> (a.value() == b.value()),
    {
    }

    /// The first generation.
    pub fn zero() -> (generation: Self)
        ensures
            generation.value() == 0,
    {
        Self(0)
    }

    /// The following generation, wrapping after the last.
    pub fn next(self) -> (generation: Self)
        ensures
            generation.value() == (if self.value() == u64::MAX {
                0
            } else {
                self.value() + 1
            }),
    {
        Self(self.0.wrapping_add(1))
    }

    #[verifier::when_used_as_spec(spec_value)]
    pub fn value(self) -> (value: u64)
        ensures
            value == self.value(),
    {
        self.0
    }
}

impl Default for DecodeGeneration {
    fn default() -> (generation: Self)
        ensures
            generation.value() == 0,
    {
        Self(0)
    }
}

pub fn is_stale_decode_generation(active_generation: DecodeGeneration, result_generation: DecodeGeneration) -> (stale: bool)
    ensures
        stale == (active_generation.value() != result_generation.value()),
{
    active_generation.0 != result_generation.0
}

/// A new generation makes the results of the one before it stale.
pub proof fn law_next_generation_makes_results_stale(generation: DecodeGeneration, next: DecodeGeneration)
    requires
        next.value() == (if generation.value() == u64::MAX {
            0
        } else {
            generation.value() + 1
        }),
    ensures
        next.value() != generation.value(),
{
}

/// What a cache entry holds.
#[derive(Debug, Clone, Copy, PartialEq, Eq, Structural, Hash)]
pub enum ImageCacheSlot {
    OrientedImage,
    ScaledImage,
    AnimationFrame { frame_index: Option<usize> },
    NavigationPreload { path_key: u64 },
}

/// A cache entry: what it holds, its size in bytes and when it was last used.
#[derive(Debug, Clone, Copy, PartialEq, Eq, Structural)]
pub struct MemoryCacheEntry {
    slot: ImageCacheSlot,
    bytes: usize,
    last_used: u64,
}

impl MemoryCacheEntry {
    pub closed spec fn spec_slot(self) -> ImageCacheSlot {
        self.slot
    }

    pub closed spec fn spec_bytes(self) -> usize {
        self.bytes
    }

    pub closed spec fn spec_last_used(self) -> u64 {
        self.last_used
    }

    /// The entry with these three parts.
    pub closed spec fn spec_new(slot: ImageCacheSlot, bytes: usize, last_used: u64) -> Self {
        Self { slot, bytes, last_used }
    }

    pub broadcast proof fn lemma_spec_new(slot: ImageCacheSlot, bytes: usize, last_used: u64)
        ensures
            #[trigger] Self::spec_new(slot, bytes, last_used).slot() == slot,
            Self::spec_new(slot, bytes, last_used).bytes() == bytes,
            Self::spec_new(slot, bytes, last_used).last_used() == last_used,
    {
    }

    pub fn new(slot: ImageCacheSlot, bytes: usize, last_used: u64) -> (entry: Self)
        ensures
            entry == Self::spec_new(slot, bytes, last_used),
            entry.slot() == slot,
            entry.bytes() == bytes,
            entry.last_used() == last_used,
    {
        Self { slot, bytes, last_used }
    }

    #[verifier::when_used_as_spec(spec_slot)]
    pub fn slot(self) -> (slot: ImageCacheSlot)
        ensures
            slot == self.slot(),
    {
        self.slot
    }

    #[verifier::when_used_as_spec(spec_bytes)]
    pub fn bytes(self) -> (bytes: usize)
        ensures
            bytes == self.bytes(),
    {
        self.bytes
    }

    #[verifier::when_used_as_spec(spec_last_used)]
    pub fn last_used(self) -> (last_used: u64)
        ensures
            last_used == self.last_used(),
    {
        self.last_used
    }
}

} // verus!

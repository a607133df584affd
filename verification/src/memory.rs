//! Memory limits for decoding, keeping and caching images, and the decisions
//! taken from them.
use vstd::prelude::*;

use crate::export::SupportedImageFormat;
use crate::scaling::{ImageCacheSlot, MemoryCacheEntry};
use crate::order::{lemma_lists_every_position, lemma_order_unique, lists_in_order, positions, strict_total_order};
use crate::settings::{clamp_int, clamp_u32, clamp_usize};
use crate::geometry::{
    image_pixel_count, pixel_byte_len_spec, pixel_count_of, rgba8_byte_len, ImageSize,
    PixelFormat, ViewportSize,
};

verus! {

pub const BYTES_PER_MIB: usize = 1048576;

pub const DEFAULT_LARGE_IMAGE_PIXEL_THRESHOLD: u64 = 24_000_000;

pub const DEFAULT_MAX_IMAGE_PIXELS: u64 = 160_000_000;

pub const DEFAULT_PREVIEW_MAX_PIXELS: u64 = 8_000_000;

pub const DEFAULT_PREVIEW_OVERSAMPLE: u32 = 2;

pub const DEFAULT_FALLBACK_VIEWPORT_WIDTH: u32 = 1920;

pub const DEFAULT_FALLBACK_VIEWPORT_HEIGHT: u32 = 1080;

pub const DEFAULT_MAX_TRANSIENT_DECODE_MIB: u32 = 640;

pub const DEFAULT_MAX_FULL_RESOLUTION_MIB: u32 = 128;

pub const DEFAULT_MAX_RESIDENT_MIB: u32 = 256;

pub const DEFAULT_MAX_CACHE_ENTRY_MIB: u32 = 128;

pub const DEFAULT_MAX_CACHE_ENTRIES: usize = 2;

pub const DEFAULT_MAX_ANIMATION_METADATA_FRAMES: usize = 10_000;

pub const MIN_CONFIG_PIXEL_LIMIT: u64 = 1;

pub const MAX_CONFIG_IMAGE_PIXELS: u64 = 1_000_000_000;

pub const MIN_CONFIG_PREVIEW_OVERSAMPLE: u32 = 1;

pub const MAX_CONFIG_PREVIEW_OVERSAMPLE: u32 = 8;

pub const MIN_CONFIG_VIEWPORT_EDGE: u32 = 1;

pub const MAX_CONFIG_VIEWPORT_EDGE: u32 = 16_384;

pub const MIN_CONFIG_MEMORY_MIB: u32 = 1;

pub const MAX_CONFIG_MEMORY_MIB: u32 = 4096;

pub const MIN_CONFIG_CACHE_ENTRIES: usize = 0;

pub const MAX_CONFIG_CACHE_ENTRIES: usize = 64;

pub const MIN_CONFIG_ANIMATION_METADATA_FRAMES: usize = 1;

pub const MAX_CONFIG_ANIMATION_METADATA_FRAMES: usize = 1_000_000;

/// The number of bytes in `mib` mebibytes, or `usize::MAX` when that does
/// not fit.
pub open spec fn mib_bytes(mib: int) -> usize {
    if mib * 1048576 <= usize::MAX {
        (mib * 1048576) as usize
    } else {
        usize::MAX
    }
}

pub fn mib_to_bytes(mib: u32) -> (bytes: usize)
    ensures
        bytes == mib_bytes(mib as int),
{
    let bytes = (mib as u64) * 1048576u64;
    if bytes <= usize::MAX as u64 {
        bytes as usize
    } else {
        usize::MAX
    }
}

/// The limits that decide how an image is decoded, kept and cached. The
/// pixel count above which an image is first shown as a preview, the pixel
/// count above which it is refused, the largest preview, how much larger than
/// the viewport a preview is made, the viewport assumed before the window has
/// one, and byte budgets for decoding, for a kept full-resolution buffer, for
/// everything resident and for one cache entry; the number of cache entries
/// and of animation frames whose metadata is read.
#[derive(Debug, Clone, Copy, PartialEq, Eq, Structural)]
pub struct ImageMemoryPolicy {
    large_image_pixel_threshold: u64,
    max_image_pixels: u64,
    preview_max_pixels: u64,
    preview_oversample: u32,
    fallback_viewport: ImageSize,
    max_transient_decode_bytes: usize,
    max_full_resolution_bytes: usize,
    max_resident_bytes: usize,
    max_cache_entry_bytes: usize,
    max_cache_entries: usize,
    max_animation_metadata_frames: usize,
}

impl ImageMemoryPolicy {
    /// The policy that memory limits give: the same counts, the fallback
    /// viewport as a size, and each budget in bytes.
    pub closed spec fn spec_from_limits(l: MemoryLimits) -> Self {
        ImageMemoryPolicy {
            large_image_pixel_threshold: l.large_image_pixel_threshold as u64,
            max_image_pixels: l.max_image_pixels as u64,
            preview_max_pixels: l.preview_max_pixels as u64,
            preview_oversample: l.preview_oversample as u32,
            fallback_viewport: ImageSize::spec_new(l.fallback_viewport_width as u32, l.fallback_viewport_height as u32),
            max_transient_decode_bytes: mib_bytes(l.max_transient_decode_mib),
            max_full_resolution_bytes: mib_bytes(l.max_full_resolution_mib),
            max_resident_bytes: mib_bytes(l.max_resident_mib),
            max_cache_entry_bytes: mib_bytes(l.max_cache_entry_mib),
            max_cache_entries: l.max_cache_entries as usize,
            max_animation_metadata_frames: l.max_animation_metadata_frames as usize,
        }
    }

    pub closed spec fn spec_large_image_pixel_threshold(self) -> u64 {
        self.large_image_pixel_threshold
    }

    pub closed spec fn spec_max_image_pixels(self) -> u64 {
        self.max_image_pixels
    }

    pub closed spec fn spec_preview_max_pixels(self) -> u64 {
        self.preview_max_pixels
    }

    pub closed spec fn spec_preview_oversample(self) -> u32 {
        self.preview_oversample
    }

    pub closed spec fn spec_fallback_viewport(self) -> ImageSize {
        self.fallback_viewport
    }

    pub closed spec fn spec_max_transient_decode_bytes(self) -> usize {
        self.max_transient_decode_bytes
    }

    pub closed spec fn spec_max_full_resolution_bytes(self) -> usize {
        self.max_full_resolution_bytes
    }

    pub closed spec fn spec_max_resident_bytes(self) -> usize {
        self.max_resident_bytes
    }

    pub closed spec fn spec_max_cache_entry_bytes(self) -> usize {
        self.max_cache_entry_bytes
    }

    pub closed spec fn spec_max_cache_entries(self) -> usize {
        self.max_cache_entries
    }

    pub closed spec fn spec_max_animation_metadata_frames(self) -> usize {
        self.max_animation_metadata_frames
    }

    /// Two policies are equal exactly when all their limits are.
    pub proof fn lemma_eq(a: Self, b: Self)
        ensures
            (a == b) <==> (a.large_image_pixel_threshold() == b.large_image_pixel_threshold()
                && a.max_image_pixels() == b.max_image_pixels()
                && a.preview_max_pixels() == b.preview_max_pixels()
                && a.preview_oversample() == b.preview_oversample()
                && a.fallback_viewport() == b.fallback_viewport()
                && a.max_transient_decode_bytes() == b.max_transient_decode_bytes()
                && a.max_full_resolution_bytes() == b.max_full_resolution_bytes()
                && a.max_resident_bytes() == b.max_resident_bytes()
                && a.max_cache_entry_bytes() == b.max_cache_entry_bytes()
                && a.max_cache_entries() == b.max_cache_entries()
                && a.max_animation_metadata_frames() == b.max_animation_metadata_frames()),
    {
    }

    /// The policy that `defaults` returns.
    pub closed spec fn spec_defaults() -> Self {
        Self {
            large_image_pixel_threshold: DEFAULT_LARGE_IMAGE_PIXEL_THRESHOLD,
            max_image_pixels: DEFAULT_MAX_IMAGE_PIXELS,
            preview_max_pixels: DEFAULT_PREVIEW_MAX_PIXELS,
            preview_oversample: DEFAULT_PREVIEW_OVERSAMPLE,
            fallback_viewport: ImageSize::spec_new(
                DEFAULT_FALLBACK_VIEWPORT_WIDTH,
                DEFAULT_FALLBACK_VIEWPORT_HEIGHT,
            ),
            max_transient_decode_bytes: mib_bytes(DEFAULT_MAX_TRANSIENT_DECODE_MIB as int),
            max_full_resolution_bytes: mib_bytes(DEFAULT_MAX_FULL_RESOLUTION_MIB as int),
            max_resident_bytes: mib_bytes(DEFAULT_MAX_RESIDENT_MIB as int),
            max_cache_entry_bytes: mib_bytes(DEFAULT_MAX_CACHE_ENTRY_MIB as int),
            max_cache_entries: DEFAULT_MAX_CACHE_ENTRIES,
            max_animation_metadata_frames: DEFAULT_MAX_ANIMATION_METADATA_FRAMES,
        }
    }

    /// 24 million pixels before a preview is used, 160 million at most, 8
    /// million in a preview made at twice the viewport (1920 x 1080 when there
    /// is none yet), 640 MiB to decode, 128 MiB for a kept full-resolution
    /// buffer, 256 MiB resident, 128 MiB and two entries in the cache, and the
    /// metadata of 10 000 animation frames.
    pub fn defaults() -> (policy: Self)
        ensures
            policy == Self::spec_defaults(),
            policy.large_image_pixel_threshold() == DEFAULT_LARGE_IMAGE_PIXEL_THRESHOLD,
            policy.max_image_pixels() == DEFAULT_MAX_IMAGE_PIXELS,
            policy.preview_max_pixels() == DEFAULT_PREVIEW_MAX_PIXELS,
            policy.preview_oversample() == DEFAULT_PREVIEW_OVERSAMPLE,
            policy.fallback_viewport() == ImageSize::spec_new(
                DEFAULT_FALLBACK_VIEWPORT_WIDTH,
                DEFAULT_FALLBACK_VIEWPORT_HEIGHT,
            ),
            policy.max_transient_decode_bytes() == mib_bytes(DEFAULT_MAX_TRANSIENT_DECODE_MIB as int),
            policy.max_full_resolution_bytes() == mib_bytes(DEFAULT_MAX_FULL_RESOLUTION_MIB as int),
            policy.max_resident_bytes() == mib_bytes(DEFAULT_MAX_RESIDENT_MIB as int),
            policy.max_cache_entry_bytes() == mib_bytes(DEFAULT_MAX_CACHE_ENTRY_MIB as int),
            policy.max_cache_entries() == DEFAULT_MAX_CACHE_ENTRIES,
            policy.max_animation_metadata_frames() == DEFAULT_MAX_ANIMATION_METADATA_FRAMES,
    {
        Self {
            large_image_pixel_threshold: DEFAULT_LARGE_IMAGE_PIXEL_THRESHOLD,
            max_image_pixels: DEFAULT_MAX_IMAGE_PIXELS,
            preview_max_pixels: DEFAULT_PREVIEW_MAX_PIXELS,
            preview_oversample: DEFAULT_PREVIEW_OVERSAMPLE,
            fallback_viewport: ImageSize::new(
                DEFAULT_FALLBACK_VIEWPORT_WIDTH,
                DEFAULT_FALLBACK_VIEWPORT_HEIGHT,
            ),
            max_transient_decode_bytes: mib_to_bytes(DEFAULT_MAX_TRANSIENT_DECODE_MIB),
            max_full_resolution_bytes: mib_to_bytes(DEFAULT_MAX_FULL_RESOLUTION_MIB),
            max_resident_bytes: mib_to_bytes(DEFAULT_MAX_RESIDENT_MIB),
            max_cache_entry_bytes: mib_to_bytes(DEFAULT_MAX_CACHE_ENTRY_MIB),
            max_cache_entries: DEFAULT_MAX_CACHE_ENTRIES,
            max_animation_metadata_frames: DEFAULT_MAX_ANIMATION_METADATA_FRAMES,
        }
    }

    #[verifier::when_used_as_spec(spec_large_image_pixel_threshold)]
    pub fn large_image_pixel_threshold(self) -> (threshold: u64)
        ensures
            threshold == self.large_image_pixel_threshold(),
    {
        self.large_image_pixel_threshold
    }

    #[verifier::when_used_as_spec(spec_max_image_pixels)]
    pub fn max_image_pixels(self) -> (pixels: u64)
        ensures
            pixels == self.max_image_pixels(),
    {
        self.max_image_pixels
    }

    #[verifier::when_used_as_spec(spec_preview_max_pixels)]
    pub fn preview_max_pixels(self) -> (pixels: u64)
        ensures
            pixels == self.preview_max_pixels(),
    {
        self.preview_max_pixels
    }

    #[verifier::when_used_as_spec(spec_preview_oversample)]
    pub fn preview_oversample(self) -> (factor: u32)
        ensures
            factor == self.preview_oversample(),
    {
        self.preview_oversample
    }

    #[verifier::when_used_as_spec(spec_fallback_viewport)]
    pub fn fallback_viewport(self) -> (size: ImageSize)
        ensures
            size == self.fallback_viewport(),
    {
        self.fallback_viewport
    }

    #[verifier::when_used_as_spec(spec_max_transient_decode_bytes)]
    pub fn max_transient_decode_bytes(self) -> (bytes: usize)
        ensures
            bytes == self.max_transient_decode_bytes(),
    {
        self.max_transient_decode_bytes
    }

    #[verifier::when_used_as_spec(spec_max_full_resolution_bytes)]
    pub fn max_full_resolution_bytes(self) -> (bytes: usize)
        ensures
            bytes == self.max_full_resolution_bytes(),
    {
        self.max_full_resolution_bytes
    }

    #[verifier::when_used_as_spec(spec_max_resident_bytes)]
    pub fn max_resident_bytes(self) -> (bytes: usize)
        ensures
            bytes == self.max_resident_bytes(),
    {
        self.max_resident_bytes
    }

    #[verifier::when_used_as_spec(spec_max_cache_entry_bytes)]
    pub fn max_cache_entry_bytes(self) -> (bytes: usize)
        ensures
            bytes == self.max_cache_entry_bytes(),
    {
        self.max_cache_entry_bytes
    }

    #[verifier::when_used_as_spec(spec_max_cache_entries)]
    pub fn max_cache_entries(self) -> (entries: usize)
        ensures
            entries == self.max_cache_entries(),
    {
        self.max_cache_entries
    }

    #[verifier::when_used_as_spec(spec_max_animation_metadata_frames)]
    pub fn max_animation_metadata_frames(self) -> (frames: usize)
        ensures
            frames == self.max_animation_metadata_frames(),
    {
        self.max_animation_metadata_frames
    }
}

impl Default for ImageMemoryPolicy {
    fn default() -> (policy: Self)
        ensures
            policy.large_image_pixel_threshold() == DEFAULT_LARGE_IMAGE_PIXEL_THRESHOLD,
            policy.max_image_pixels() == DEFAULT_MAX_IMAGE_PIXELS,
            policy.preview_max_pixels() == DEFAULT_PREVIEW_MAX_PIXELS,
            policy.max_full_resolution_bytes() == mib_bytes(DEFAULT_MAX_FULL_RESOLUTION_MIB as int),
            policy.max_cache_entries() == DEFAULT_MAX_CACHE_ENTRIES,
    {
        Self::defaults()
    }
}

// ---------------------------------------------------------------------------
// Decisions on one image
// ---------------------------------------------------------------------------
/// The byte length of `size` as RGBA pixels, when it fits in `usize`.
pub open spec fn rgba8_bytes(size: ImageSize) -> Option<usize> {
    pixel_byte_len_spec(size, PixelFormat::Rgba8)
}

/// An image is large when it has more pixels than the threshold, or when its
/// RGBA buffer would not fit in `usize` or exceed the full-resolution budget.
pub open spec fn spec_is_large_image(size: ImageSize, policy: ImageMemoryPolicy) -> bool {
    ||| pixel_count_of(size) > policy.large_image_pixel_threshold()
    ||| match rgba8_bytes(size) {
        Some(bytes) => bytes > policy.max_full_resolution_bytes(),
        None => true,
    }
}

/// An image is too large to open when it has more pixels than the maximum, or
/// when its RGBA buffer would not fit in `usize` or exceed the decode budget.
pub open spec fn spec_is_image_too_large(size: ImageSize, policy: ImageMemoryPolicy) -> bool {
    ||| pixel_count_of(size) > policy.max_image_pixels()
    ||| match rgba8_bytes(size) {
        Some(bytes) => bytes > policy.max_transient_decode_bytes(),
        None => true,
    }
}

/// A full-resolution buffer is kept when its RGBA bytes fit the budget.
pub open spec fn spec_should_retain_full_resolution(size: ImageSize, policy: ImageMemoryPolicy) -> bool {
    match rgba8_bytes(size) {
        Some(bytes) => bytes <= policy.max_full_resolution_bytes(),
        None => false,
    }
}

#[verifier::when_used_as_spec(spec_is_large_image)]
pub fn is_large_image(size: ImageSize, policy: ImageMemoryPolicy) -> (large: bool)
    ensures
        large == spec_is_large_image(size, policy),
{
    let pixels = match image_pixel_count(size) {
        Some(pixels) => pixels,
        None => return true,
    };
    if pixels > policy.large_image_pixel_threshold() {
        return true;
    }
    match rgba8_byte_len(size) {
        Some(bytes) => bytes > policy.max_full_resolution_bytes(),
        None => true,
    }
}

#[verifier::when_used_as_spec(spec_is_image_too_large)]
pub fn is_image_too_large(size: ImageSize, policy: ImageMemoryPolicy) -> (too_large: bool)
    ensures
        too_large == spec_is_image_too_large(size, policy),
{
    let pixels = match image_pixel_count(size) {
        Some(pixels) => pixels,
        None => return true,
    };
    if pixels > policy.max_image_pixels() {
        return true;
    }
    match rgba8_byte_len(size) {
        Some(bytes) => bytes > policy.max_transient_decode_bytes(),
        None => true,
    }
}

#[verifier::when_used_as_spec(spec_should_retain_full_resolution)]
pub fn should_retain_full_resolution(size: ImageSize, policy: ImageMemoryPolicy) -> (retain: bool)
    ensures
        retain == spec_should_retain_full_resolution(size, policy),
{
    match rgba8_byte_len(size) {
        Some(bytes) => bytes <= policy.max_full_resolution_bytes(),
        None => false,
    }
}

/// A preview is worth making when it has some pixels, fewer than the source,
/// and at most half as many (twice its count saturating at `u64::MAX`).
pub open spec fn spec_is_meaningfully_smaller_preview(source_size: ImageSize, preview_size: ImageSize) -> bool {
    let source = pixel_count_of(source_size);
    let preview = pixel_count_of(preview_size);
    let doubled = if 2 * preview <= u64::MAX {
        2 * preview
    } else {
        u64::MAX as int
    };
    &&& preview > 0
    &&& preview < source
    &&& source >= doubled
}

#[verifier::when_used_as_spec(spec_is_meaningfully_smaller_preview)]
pub fn is_meaningfully_smaller_preview(source_size: ImageSize, preview_size: ImageSize) -> (smaller: bool)
    ensures
        smaller == spec_is_meaningfully_smaller_preview(source_size, preview_size),
{
    let source_pixels = match image_pixel_count(source_size) {
        Some(pixels) => pixels,
        None => return false,
    };
    let preview_pixels = match image_pixel_count(preview_size) {
        Some(pixels) => pixels,
        None => return false,
    };
    let doubled: u64 = if preview_pixels <= u64::MAX / 2 {
        preview_pixels * 2
    } else {
        u64::MAX
    };
    preview_pixels > 0 && preview_pixels < source_pixels && source_pixels >= doubled
}

/// A static preview is decoded first for every large image, and for a JPEG
/// shown in a window of some size whose preview is meaningfully smaller.
pub open spec fn spec_should_load_static_preview_first(
    format: SupportedImageFormat,
    source_size: ImageSize,
    viewport: ViewportSize,
    preview_size: ImageSize,
    policy: ImageMemoryPolicy,
) -> bool {
    ||| spec_is_large_image(source_size, policy)
    ||| (format == SupportedImageFormat::Jpeg && !viewport.spec_is_empty()
        && spec_is_meaningfully_smaller_preview(source_size, preview_size))
}

/// An image is large exactly when it has more pixels than the threshold or
/// its four bytes per pixel exceed the full-resolution budget, whatever the
/// threshold says; so every image whose full-resolution buffer is not kept is
/// large, and a large image always has its static preview decoded first.
pub proof fn law_large_image_rule(
    size: ImageSize,
    policy: ImageMemoryPolicy,
    format: SupportedImageFormat,
    viewport: ViewportSize,
    preview_size: ImageSize,
)
    ensures
        spec_is_large_image(size, policy) <==> (pixel_count_of(size) > policy.large_image_pixel_threshold()
            || pixel_count_of(size) * 4 > policy.max_full_resolution_bytes()),
        !spec_should_retain_full_resolution(size, policy) ==> spec_is_large_image(size, policy),
        spec_is_large_image(size, policy) ==> spec_should_load_static_preview_first(
            format,
            size,
            viewport,
            preview_size,
            policy,
        ),
{
}

pub fn should_load_static_preview_first(
    format: SupportedImageFormat,
    source_size: ImageSize,
    viewport: ViewportSize,
    preview_size: ImageSize,
    policy: ImageMemoryPolicy,
) -> (first: bool)
    ensures
        first == spec_should_load_static_preview_first(format, source_size, viewport, preview_size, policy),
{
    if is_large_image(source_size, policy) {
        return true;
    }
    format == SupportedImageFormat::Jpeg && !viewport.is_empty()
        && is_meaningfully_smaller_preview(source_size, preview_size)
}

/// `edge` times `factor`, saturating at `u32::MAX`, and at least 1.
pub open spec fn oversampled_edge(edge: u32, factor: u32) -> u32 {
    if edge * factor > u32::MAX {
        u32::MAX
    } else if edge * factor < 1 {
        1
    } else {
        (edge * factor) as u32
    }
}

/// The box a preview is fitted into: the viewport enlarged by the oversample
/// factor, or the fallback viewport while the window has no size.
pub open spec fn spec_preview_bounds_for_viewport(viewport: ViewportSize, policy: ImageMemoryPolicy) -> ImageSize {
    if viewport.spec_is_empty() {
        policy.fallback_viewport()
    } else {
        ImageSize::spec_new(
            oversampled_edge(viewport.width(), policy.preview_oversample()),
            oversampled_edge(viewport.height(), policy.preview_oversample()),
        )
    }
}

fn oversample_edge(edge: u32, factor: u32) -> (oversampled: u32)
    ensures
        oversampled == oversampled_edge(edge, factor),
{
    assert(edge * factor <= 0xffff_ffffu64 * 0xffff_ffffu64) by (nonlinear_arith)
        requires
            edge <= 0xffff_ffffu64,
            factor <= 0xffff_ffffu64,
    ;
    let wide: u64 = (edge as u64) * (factor as u64);
    if wide > u32::MAX as u64 {
        u32::MAX
    } else if wide < 1 {
        1
    } else {
        wide as u32
    }
}

pub fn preview_bounds_for_viewport(viewport: ViewportSize, policy: ImageMemoryPolicy) -> (bounds: ImageSize)
    ensures
        bounds == spec_preview_bounds_for_viewport(viewport, policy),
{
    if viewport.is_empty() {
        return policy.fallback_viewport();
    }
    let factor = policy.preview_oversample();
    ImageSize::new(oversample_edge(viewport.width(), factor), oversample_edge(viewport.height(), factor))
}

// ---------------------------------------------------------------------------
// Cache eviction
// ---------------------------------------------------------------------------
/// Whether entry `i` is considered for eviction before entry `j`: the less
/// recently used first, the larger first among entries last used together,
/// and by position among entries equal in both (the order a stable sort
/// gives). It is strict: no entry comes before itself.
pub open spec fn evicted_before(entries: Seq<MemoryCacheEntry>, i: int, j: int) -> bool {
    let a = entries[i];
    let b = entries[j];
    ||| a.last_used() < b.last_used()
    ||| (a.last_used() == b.last_used() && a.bytes() > b.bytes())
    ||| (a.last_used() == b.last_used() && a.bytes() == b.bytes() && i < j)
}

/// `order` lists the positions of `entries`, each once, in the order in
/// which they are considered for eviction.
pub open spec fn is_eviction_order(entries: Seq<MemoryCacheEntry>, order: Seq<usize>) -> bool {
    &&& order.len() == entries.len()
    &&& forall|k: int| 0 <= k < order.len() ==> order[k] < entries.len()
    &&& forall|a: int, b: int|
        0 <= a < b < order.len() ==> evicted_before(entries, order[a] as int, order[b] as int)
}

/// The bytes of all entries together.
pub open spec fn total_bytes(entries: Seq<MemoryCacheEntry>) -> int
    decreases entries.len(),
{
    if entries.len() == 0 {
        0
    } else {
        total_bytes(entries.drop_last()) + entries.last().bytes()
    }
}

/// `n`, or `usize::MAX` when it is larger.
pub open spec fn saturated(n: int) -> int {
    if n > usize::MAX {
        usize::MAX as int
    } else {
        n
    }
}

/// `n` minus `m`, or 0 when that is negative.
pub open spec fn minus_or_zero(n: int, m: int) -> int {
    if n >= m {
        n - m
    } else {
        0
    }
}

/// The slots evicted when the entries are taken in `order`, with `total`
/// bytes and `count` entries resident before the first: an entry goes when it
/// alone exceeds the entry budget, when the resident bytes exceed their
/// budget, or when there are more entries than allowed; each eviction takes
/// its bytes and one entry off the totals.
pub open spec fn evictions(
    entries: Seq<MemoryCacheEntry>,
    order: Seq<usize>,
    total: int,
    count: int,
    policy: ImageMemoryPolicy,
) -> Seq<ImageCacheSlot>
    decreases order.len(),
{
    if order.len() == 0 {
        Seq::empty()
    } else {
        let entry = entries[order[0] as int];
        let rest = order.drop_first();
        if entry.bytes() > policy.max_cache_entry_bytes() || total > policy.max_resident_bytes()
            || count > policy.max_cache_entries() {
            seq![entry.slot()] + evictions(
                entries,
                rest,
                minus_or_zero(total, entry.bytes() as int),
                minus_or_zero(count, 1),
                policy,
            )
        } else {
            evictions(entries, rest, total, count, policy)
        }
    }
}

/// The order in which cache entries are considered for eviction is fixed by
/// the entries: any two lists of them in that order are the same list.
pub proof fn law_eviction_order_unique(entries: Seq<MemoryCacheEntry>, first: Seq<usize>, second: Seq<usize>)
    requires
        is_eviction_order(entries, first),
        is_eviction_order(entries, second),
    ensures
        first == second,
{
    let n = entries.len() as int;
    let before = |i: int, j: int| evicted_before(entries, i, j);
    assert(strict_total_order(n, before));
    assert(lists_in_order(n, before, first));
    assert(lists_in_order(n, before, second));
    lemma_order_unique(n, before, first, second);
}

proof fn lemma_evicted_before_transitive(entries: Seq<MemoryCacheEntry>, a: int, b: int, c: int)
    requires
        evicted_before(entries, a, b),
        evicted_before(entries, b, c),
    ensures
        evicted_before(entries, a, c),
{
}

/// Whether `a`, found at a later position than `b`, is still considered
/// before it: it was used less recently, or as recently and is larger.
fn goes_before(a: MemoryCacheEntry, b: MemoryCacheEntry) -> (before: bool)
    ensures
        before == (a.last_used() < b.last_used() || (a.last_used() == b.last_used() && a.bytes()
            > b.bytes())),
{
    a.last_used() < b.last_used() || (a.last_used() == b.last_used() && a.bytes() > b.bytes())
}

/// The positions of `entries` in the order they are considered for eviction.
fn eviction_order(entries: &[MemoryCacheEntry]) -> (order: Vec<usize>)
    ensures
        is_eviction_order(entries@, order@),
{
    let ghost es = entries@;
    let mut order: Vec<usize> = Vec::new();
    let mut i: usize = 0;
    while i < entries.len()
        invariant
            es == entries@,
            i <= es.len(),
            order@.len() == i,
            forall|k: int| 0 <= k < order@.len() ==> order@[k] < i,
            forall|a: int, b: int|
                0 <= a < b < order@.len() ==> evicted_before(es, order@[a] as int, order@[b] as int),
        decreases es.len() - i,
    {
        let mut p: usize = 0;
        while p < order.len() && !goes_before(entries[i], entries[order[p]])
            invariant
                es == entries@,
                i < es.len(),
                order@.len() == i,
                p <= order@.len(),
                forall|k: int| 0 <= k < order@.len() ==> order@[k] < i,
                forall|k: int| 0 <= k < p ==> evicted_before(es, order@[k] as int, i as int),
            decreases order@.len() - p,
        {
            p = p + 1;
        }
        let ghost before = order@;
        proof {
            if p < before.len() {
                assert(evicted_before(es, i as int, before[p as int] as int));
            }
            before.insert_ensures(p as int, i);
        }
        order.insert(p, i);
        proof {
            assert forall|a: int, b: int| 0 <= a < b < order@.len() implies evicted_before(
                es,
                order@[a] as int,
                order@[b] as int,
            ) by {
                if b < p {
                    assert(order@[a] == before[a] && order@[b] == before[b]);
                } else if b == p {
                    assert(order@[a] == before[a]);
                } else if a == p {
                    assert(order@[b] == before[b - 1]);
                    if b - 1 > p {
                        lemma_evicted_before_transitive(
                            es,
                            i as int,
                            before[p as int] as int,
                            before[b - 1] as int,
                        );
                    }
                } else if a < p {
                    assert(order@[a] == before[a] && order@[b] == before[b - 1]);
                } else {
                    assert(order@[a] == before[a - 1] && order@[b] == before[b - 1]);
                }
            }
        }
        i = i + 1;
    }
    order
}

/// The resident bytes: `base` plus every entry, saturating at `usize::MAX`.
fn resident_bytes(base_bytes: usize, entries: &[MemoryCacheEntry]) -> (total: usize)
    ensures
        total == saturated(base_bytes + total_bytes(entries@)),
{
    let ghost es = entries@;
    let mut total: usize = base_bytes;
    let mut k: usize = 0;
    while k < entries.len()
        invariant
            es == entries@,
            k <= es.len(),
            total == saturated(base_bytes + total_bytes(es.take(k as int))),
        decreases es.len() - k,
    {
        proof {
            assert(es.take(k + 1).drop_last() == es.take(k as int));
            assert(total_bytes(es.take(k as int)) >= 0) by {
                lemma_total_bytes_nonnegative(es.take(k as int));
            }
        }
        let bytes = entries[k].bytes();
        total = if total > usize::MAX - bytes {
            usize::MAX
        } else {
            total + bytes
        };
        k = k + 1;
    }
    assert(es.take(es.len() as int) == es);
    total
}

proof fn lemma_total_bytes_nonnegative(entries: Seq<MemoryCacheEntry>)
    ensures
        total_bytes(entries) >= 0,
    decreases entries.len(),
{
    if entries.len() > 0 {
        lemma_total_bytes_nonnegative(entries.drop_last());
    }
}

/// The cache slots to drop so that the cache keeps within the policy. The
/// entries are taken least recently used first (the larger first among those
/// last used together, and in their given order when equal in both); with
/// `base_bytes` and all entries counted as resident at the start, an entry is
/// evicted when it alone exceeds the entry budget, when the resident bytes
/// exceed their budget or when there are more entries than allowed, and an
/// eviction lowers both totals.
pub fn memory_cache_slots_to_evict(
    base_bytes: usize,
    entries: &[MemoryCacheEntry],
    policy: ImageMemoryPolicy,
) -> (evicted: Vec<ImageCacheSlot>)
    ensures
        exists|order: Seq<usize>|
            is_eviction_order(entries@, order) && evicted@ == evictions(
                entries@,
                order,
                saturated(base_bytes + total_bytes(entries@)),
                entries@.len() as int,
                policy,
            ),
{
    let ghost es = entries@;
    let order = eviction_order(entries);
    let mut total_bytes_now = resident_bytes(base_bytes, entries);
    let mut entry_count = entries.len();
    let mut evicted: Vec<ImageCacheSlot> = Vec::new();
    let ghost start_total = total_bytes_now as int;
    let ghost start_count = entry_count as int;
    let mut k: usize = 0;
    proof {
        assert(order@.skip(0) == order@);
        let whole = evictions(es, order@, start_total, start_count, policy);
        assert(evicted@ + whole == whole);
    }
    while k < order.len()
        invariant
            es == entries@,
            is_eviction_order(es, order@),
            k <= order@.len(),
            evictions(es, order@, start_total, start_count, policy) == evicted@ + evictions(
                es,
                order@.skip(k as int),
                total_bytes_now as int,
                entry_count as int,
                policy,
            ),
        decreases order@.len() - k,
    {
        let entry = entries[order[k]];
        proof {
            assert(order@.skip(k as int).drop_first() == order@.skip(k + 1));
            assert(order@.skip(k as int)[0] == order@[k as int]);
        }
        let over_entry_limit = entry.bytes() > policy.max_cache_entry_bytes();
        let over_total_limit = total_bytes_now > policy.max_resident_bytes();
        let over_count_limit = entry_count > policy.max_cache_entries();
        if over_entry_limit || over_total_limit || over_count_limit {
            let ghost before = evicted@;
            evicted.push(entry.slot());
            proof {
                assert(evicted@ == before + seq![entry.slot()]);
                assert(before + (seq![entry.slot()] + evictions(
                    es,
                    order@.skip(k + 1),
                    minus_or_zero(total_bytes_now as int, entry.bytes() as int),
                    minus_or_zero(entry_count as int, 1),
                    policy,
                )) == evicted@ + evictions(
                    es,
                    order@.skip(k + 1),
                    minus_or_zero(total_bytes_now as int, entry.bytes() as int),
                    minus_or_zero(entry_count as int, 1),
                    policy,
                ));
            }
            total_bytes_now = if total_bytes_now >= entry.bytes() {
                total_bytes_now - entry.bytes()
            } else {
                0
            };
            entry_count = if entry_count >= 1 {
                entry_count - 1
            } else {
                0
            };
        }
        k = k + 1;
    }
    proof {
        assert(order@.skip(order@.len() as int).len() == 0);
        assert(evicted@ + Seq::<ImageCacheSlot>::empty() == evicted@);
    }
    evicted
}

/// However the entries are ordered for eviction, at most
/// `max_cache_entries` of them stay: whenever more remain, the next one
/// considered is evicted.
/// The running total of resident bytes after the entries are taken in
/// `order` and the evicted ones subtracted, as [`evictions`] keeps it.
pub open spec fn remaining_total(
    entries: Seq<MemoryCacheEntry>,
    order: Seq<usize>,
    total: int,
    count: int,
    policy: ImageMemoryPolicy,
) -> int
    decreases order.len(),
{
    if order.len() == 0 {
        total
    } else {
        let entry = entries[order[0] as int];
        let rest = order.drop_first();
        if entry.bytes() > policy.max_cache_entry_bytes() || total > policy.max_resident_bytes()
            || count > policy.max_cache_entries() {
            remaining_total(
                entries,
                rest,
                minus_or_zero(total, entry.bytes() as int),
                minus_or_zero(count, 1),
                policy,
            )
        } else {
            remaining_total(entries, rest, total, count, policy)
        }
    }
}

proof fn lemma_remaining_total_falls(
    entries: Seq<MemoryCacheEntry>,
    order: Seq<usize>,
    total: int,
    count: int,
    policy: ImageMemoryPolicy,
)
    requires
        total >= 0,
    ensures
        0 <= remaining_total(entries, order, total, count, policy) <= total,
    decreases order.len(),
{
    if order.len() > 0 {
        let entry = entries[order[0] as int];
        lemma_remaining_total_falls(entries, order.drop_first(), minus_or_zero(total, entry.bytes() as int), minus_or_zero(count, 1), policy);
        lemma_remaining_total_falls(entries, order.drop_first(), total, count, policy);
    }
}

/// Eviction leaves the running total of resident bytes within the policy's
/// limit, unless it evicts every entry.
pub proof fn law_eviction_bounds_resident_total(
    entries: Seq<MemoryCacheEntry>,
    order: Seq<usize>,
    total: int,
    count: int,
    policy: ImageMemoryPolicy,
)
    requires
        total >= 0,
    ensures
        remaining_total(entries, order, total, count, policy) <= policy.max_resident_bytes()
            || evictions(entries, order, total, count, policy).len() == order.len(),
    decreases order.len(),
{
    if order.len() > 0 {
        let entry = entries[order[0] as int];
        let rest = order.drop_first();
        if entry.bytes() > policy.max_cache_entry_bytes() || total > policy.max_resident_bytes()
            || count > policy.max_cache_entries() {
            law_eviction_bounds_resident_total(
                entries,
                rest,
                minus_or_zero(total, entry.bytes() as int),
                minus_or_zero(count, 1),
                policy,
            );
        } else {
            lemma_remaining_total_falls(entries, rest, total, count, policy);
        }
    }
}

/// Nothing is evicted while no entry is over the entry limit, the total is
/// within the resident limit and the count within the entry count limit.
pub proof fn law_nothing_evicted_within_limits(
    entries: Seq<MemoryCacheEntry>,
    order: Seq<usize>,
    total: int,
    count: int,
    policy: ImageMemoryPolicy,
)
    requires
        forall|k: int| 0 <= k < order.len() ==> entries[#[trigger] order[k] as int].bytes() <= policy.max_cache_entry_bytes(),
        total <= policy.max_resident_bytes(),
        count <= policy.max_cache_entries(),
    ensures
        evictions(entries, order, total, count, policy).len() == 0,
    decreases order.len(),
{
    if order.len() > 0 {
        let rest = order.drop_first();
        assert forall|k: int| 0 <= k < rest.len() implies entries[#[trigger] rest[k] as int].bytes()
            <= policy.max_cache_entry_bytes() by {
            assert(rest[k] == order[k + 1]);
        }
        assert(entries[order[0] as int].bytes() <= policy.max_cache_entry_bytes());
        law_nothing_evicted_within_limits(entries, rest, total, count, policy);
    }
}

/// The entries the walk of [`evictions`] keeps, in `order`.
pub open spec fn kept_entries(
    entries: Seq<MemoryCacheEntry>,
    order: Seq<usize>,
    total: int,
    count: int,
    policy: ImageMemoryPolicy,
) -> Seq<MemoryCacheEntry>
    decreases order.len(),
{
    if order.len() == 0 {
        Seq::empty()
    } else {
        let entry = entries[order[0] as int];
        let rest = order.drop_first();
        if entry.bytes() > policy.max_cache_entry_bytes() || total > policy.max_resident_bytes()
            || count > policy.max_cache_entries() {
            kept_entries(entries, rest, minus_or_zero(total, entry.bytes() as int), minus_or_zero(count, 1), policy)
        } else {
            seq![entry] + kept_entries(entries, rest, total, count, policy)
        }
    }
}

/// The bytes of `list`, added up.
pub open spec fn bytes_sum(list: Seq<MemoryCacheEntry>) -> int
    decreases list.len(),
{
    if list.len() == 0 {
        0
    } else {
        list[0].bytes() + bytes_sum(list.drop_first())
    }
}

/// The bytes of the entries named by `order`, added up.
pub open spec fn order_bytes(entries: Seq<MemoryCacheEntry>, order: Seq<usize>) -> int
    decreases order.len(),
{
    if order.len() == 0 {
        0
    } else {
        entries[order[0] as int].bytes() + order_bytes(entries, order.drop_first())
    }
}

proof fn lemma_remaining_total_is_kept_bytes(
    entries: Seq<MemoryCacheEntry>,
    order: Seq<usize>,
    base: int,
    total: int,
    count: int,
    policy: ImageMemoryPolicy,
)
    requires
        base >= 0,
        total == base + order_bytes(entries, order),
    ensures
        remaining_total(entries, order, total, count, policy) == base + bytes_sum(kept_entries(entries, order, total, count, policy)),
        evictions(entries, order, total, count, policy).len() + kept_entries(entries, order, total, count, policy).len()
            == order.len(),
    decreases order.len(),
{
    if order.len() > 0 {
        let entry = entries[order[0] as int];
        let rest = order.drop_first();
        lemma_order_bytes_nonnegative(entries, rest);
        if entry.bytes() > policy.max_cache_entry_bytes() || total > policy.max_resident_bytes()
            || count > policy.max_cache_entries() {
            lemma_remaining_total_is_kept_bytes(
                entries,
                rest,
                base,
                minus_or_zero(total, entry.bytes() as int),
                minus_or_zero(count, 1),
                policy,
            );
        } else {
            lemma_remaining_total_is_kept_bytes(entries, rest, base + entry.bytes(), total, count, policy);
            let kept = kept_entries(entries, rest, total, count, policy);
            assert((seq![entry] + kept).drop_first() =~= kept);
        }
    }
}

proof fn lemma_order_bytes_nonnegative(entries: Seq<MemoryCacheEntry>, order: Seq<usize>)
    ensures
        order_bytes(entries, order) >= 0,
    decreases order.len(),
{
    if order.len() > 0 {
        lemma_order_bytes_nonnegative(entries, order.drop_first());
    }
}

/// Starting from `base` bytes held elsewhere plus the bytes of the entries,
/// eviction keeps entries whose bytes, with `base`, fit the policy's
/// resident limit, unless it keeps none.
pub proof fn law_eviction_keeps_resident_bytes_within_limit(
    entries: Seq<MemoryCacheEntry>,
    order: Seq<usize>,
    base: int,
    count: int,
    policy: ImageMemoryPolicy,
)
    requires
        base >= 0,
    ensures
        ({
            let kept = kept_entries(entries, order, base + order_bytes(entries, order), count, policy);
            kept.len() == 0 || base + bytes_sum(kept) <= policy.max_resident_bytes()
        }),
{
    let total = base + order_bytes(entries, order);
    lemma_order_bytes_nonnegative(entries, order);
    lemma_remaining_total_is_kept_bytes(entries, order, base, total, count, policy);
    law_eviction_bounds_resident_total(entries, order, total, count, policy);
}

proof fn lemma_order_bytes_remove(entries: Seq<MemoryCacheEntry>, order: Seq<usize>, k: int)
    requires
        0 <= k < order.len(),
    ensures
        order_bytes(entries, order) == entries[order[k] as int].bytes() + order_bytes(entries, order.remove(k)),
    decreases order.len(),
{
    if k == 0 {
        assert(order.remove(0) =~= order.drop_first());
    } else {
        lemma_order_bytes_remove(entries, order.drop_first(), k - 1);
        assert(order.remove(k).drop_first() =~= order.drop_first().remove(k - 1));
        assert(order.remove(k)[0] == order[0]);
    }
}

proof fn lemma_ordered_bytes_are_all_bytes(
    entries: Seq<MemoryCacheEntry>,
    order: Seq<usize>,
    n: int,
    before: spec_fn(int, int) -> bool,
)
    requires
        0 <= n <= entries.len(),
        strict_total_order(n, before),
        lists_in_order(n, before, order),
    ensures
        order_bytes(entries, order) == total_bytes(entries.subrange(0, n)),
    decreases n,
{
    if n == 0 {
        assert(entries.subrange(0, 0).len() == 0);
    } else {
        lemma_lists_every_position(n, before, order);
        assert(positions(order).contains(n - 1));
        let k = choose|k: int| 0 <= k < positions(order).len() && positions(order)[k] == n - 1;
        assert(order[k] == n - 1);
        let rest = order.remove(k);
        assert forall|i: int| 0 <= i < rest.len() implies rest[i] < n - 1 by {
            let j = if i < k { i } else { i + 1 };
            assert(rest[i] == order[j]);
            if j < k {
                assert(before(order[j] as int, order[k] as int));
            } else {
                assert(before(order[k] as int, order[j] as int));
            }
        }
        assert forall|a: int, b: int| 0 <= a < b < rest.len() implies before(rest[a] as int, rest[b] as int) by {
            let ja = if a < k { a } else { a + 1 };
            let jb = if b < k { b } else { b + 1 };
            assert(rest[a] == order[ja]);
            assert(rest[b] == order[jb]);
        }
        assert(lists_in_order(n - 1, before, rest));
        lemma_ordered_bytes_are_all_bytes(entries, rest, n - 1, before);
        lemma_order_bytes_remove(entries, order, k);
        assert(entries.subrange(0, n).drop_last() =~= entries.subrange(0, n - 1));
    }
}

/// Eviction in an eviction order, from `base` bytes held elsewhere plus the
/// bytes of every entry (without overflow), evicts or keeps each entry once;
/// it keeps no more entries than the policy allows, and keeps entries whose
/// bytes, with `base`, fit the policy's resident limit, unless it keeps none.
pub proof fn law_eviction_keeps_entries_within_limits(
    entries: Seq<MemoryCacheEntry>,
    order: Seq<usize>,
    base: int,
    policy: ImageMemoryPolicy,
)
    requires
        is_eviction_order(entries, order),
        base >= 0,
        base + total_bytes(entries) <= usize::MAX,
    ensures
        ({
            let total = saturated(base + total_bytes(entries));
            let evicted = evictions(entries, order, total, entries.len() as int, policy);
            let kept = kept_entries(entries, order, total, entries.len() as int, policy);
            &&& evicted.len() + kept.len() == entries.len()
            &&& kept.len() <= policy.max_cache_entries()
            &&& kept.len() == 0 || base + bytes_sum(kept) <= policy.max_resident_bytes()
        }),
{
    let n = entries.len() as int;
    let before = |i: int, j: int| evicted_before(entries, i, j);
    assert(strict_total_order(n, before));
    assert(lists_in_order(n, before, order));
    lemma_ordered_bytes_are_all_bytes(entries, order, n, before);
    assert(entries.subrange(0, n) =~= entries);
    let total = saturated(base + total_bytes(entries));
    assert(total == base + order_bytes(entries, order));
    law_eviction_keeps_resident_bytes_within_limit(entries, order, base, n, policy);
    lemma_remaining_total_is_kept_bytes(entries, order, base, total, n, policy);
    law_eviction_keeps_entry_count(entries, order, total, policy);
}

/// The whole eviction rule, for entries whose slots are pairwise distinct and
/// whose bytes with `base` do not overflow, taken in their eviction order (as
/// `memory_cache_slots_to_evict` does): an entry is kept exactly when its slot
/// is not evicted; the kept entries are within the entry count limit and,
/// with `base`, within the resident limit unless none is kept; every entry
/// over the entry limit is evicted; and nothing is evicted when no limit is
/// exceeded.
pub proof fn law_eviction_rule(entries: Seq<MemoryCacheEntry>, order: Seq<usize>, base: int, policy: ImageMemoryPolicy)
    requires
        is_eviction_order(entries, order),
        base >= 0,
        base + total_bytes(entries) <= usize::MAX,
        forall|i: int, j: int|
            0 <= i < j < entries.len() ==> (#[trigger] entries[i]).slot() != (#[trigger] entries[j]).slot(),
    ensures
        ({
            let total = saturated(base + total_bytes(entries));
            let evicted = evictions(entries, order, total, entries.len() as int, policy);
            let kept = kept_entries(entries, order, total, entries.len() as int, policy);
            &&& forall|i: int|
                0 <= i < entries.len() ==> (kept.contains(#[trigger] entries[i]) <==> !evicted.contains(entries[i].slot()))
            &&& kept.len() <= policy.max_cache_entries()
            &&& kept.len() == 0 || base + bytes_sum(kept) <= policy.max_resident_bytes()
            &&& forall|i: int|
                0 <= i < entries.len() && (#[trigger] entries[i]).bytes() > policy.max_cache_entry_bytes()
                    ==> evicted.contains(entries[i].slot())
            &&& (forall|i: int| 0 <= i < entries.len() ==> (#[trigger] entries[i]).bytes() <= policy.max_cache_entry_bytes())
                && total <= policy.max_resident_bytes() && entries.len() <= policy.max_cache_entries() ==> evicted.len()
                == 0
        }),
{
    let n = entries.len() as int;
    let total = saturated(base + total_bytes(entries));
    let before = |i: int, j: int| evicted_before(entries, i, j);
    assert(strict_total_order(n, before));
    assert(lists_in_order(n, before, order));
    lemma_lists_every_position(n, before, order);
    assert forall|a: int, b: int| 0 <= a < b < order.len() implies order[a] != order[b] by {
        assert(before(order[a] as int, order[b] as int));
    }
    law_eviction_keeps_entries_within_limits(entries, order, base, policy);
    law_evicted_slots_are_those_not_kept(entries, order, total, n, policy);
    let evicted = evictions(entries, order, total, n, policy);
    let kept = kept_entries(entries, order, total, n, policy);
    assert forall|i: int| 0 <= i < entries.len() implies (kept.contains(#[trigger] entries[i])
        <==> !evicted.contains(entries[i].slot())) by {
        assert(positions(order).contains(i));
        let k = choose|k: int| 0 <= k < positions(order).len() && positions(order)[k] == i;
        assert(order[k] as int == i);
    }
    assert forall|i: int|
        0 <= i < entries.len() && (#[trigger] entries[i]).bytes() > policy.max_cache_entry_bytes() implies evicted.contains(
        entries[i].slot(),
    ) by {
        assert(positions(order).contains(i));
        let k = choose|k: int| 0 <= k < positions(order).len() && positions(order)[k] == i;
        assert(order[k] as int == i);
        law_oversized_entries_are_evicted(entries, order, total, n, policy, k);
    }
    if (forall|i: int| 0 <= i < entries.len() ==> (#[trigger] entries[i]).bytes() <= policy.max_cache_entry_bytes())
        && total <= policy.max_resident_bytes() && entries.len() <= policy.max_cache_entries() {
        assert forall|k: int| 0 <= k < order.len() implies entries[#[trigger] order[k] as int].bytes()
            <= policy.max_cache_entry_bytes() by {
            assert(order[k] < entries.len());
        }
        law_nothing_evicted_within_limits(entries, order, total, n, policy);
    }
}

/// Every slot evicted is the slot of an entry the walk visits.
pub proof fn lemma_evicted_slots_are_listed(
    entries: Seq<MemoryCacheEntry>,
    order: Seq<usize>,
    total: int,
    count: int,
    policy: ImageMemoryPolicy,
    slot: ImageCacheSlot,
)
    requires
        evictions(entries, order, total, count, policy).contains(slot),
    ensures
        exists|k: int| 0 <= k < order.len() && slot == (#[trigger] entries[order[k] as int]).slot(),
    decreases order.len(),
{
    let first = entries[order[0] as int];
    let rest = order.drop_first();
    let evicted = evictions(entries, order, total, count, policy);
    if first.bytes() > policy.max_cache_entry_bytes() || total > policy.max_resident_bytes()
        || count > policy.max_cache_entries() {
        let next = evictions(entries, rest, minus_or_zero(total, first.bytes() as int), minus_or_zero(count, 1), policy);
        assert(evicted == seq![first.slot()] + next);
        if slot == first.slot() {
            assert(slot == entries[order[0] as int].slot());
        } else {
            let i = choose|i: int| 0 <= i < evicted.len() && evicted[i] == slot;
            assert(next[i - 1] == slot);
            lemma_evicted_slots_are_listed(entries, rest, minus_or_zero(total, first.bytes() as int), minus_or_zero(count, 1), policy, slot);
            let k = choose|k: int| 0 <= k < rest.len() && slot == (#[trigger] entries[rest[k] as int]).slot();
            assert(rest[k] == order[k + 1]);
        }
    } else {
        lemma_evicted_slots_are_listed(entries, rest, total, count, policy, slot);
        let k = choose|k: int| 0 <= k < rest.len() && slot == (#[trigger] entries[rest[k] as int]).slot();
        assert(rest[k] == order[k + 1]);
    }
}

/// The walk of [`evictions`] over `order` keeps only entries it visits and
/// evicts only slots of entries it visits; when the entries' slots are
/// pairwise distinct and `order` names no entry twice, a visited entry is
/// kept exactly when its slot is not among the evicted ones.
pub proof fn law_evicted_slots_are_those_not_kept(
    entries: Seq<MemoryCacheEntry>,
    order: Seq<usize>,
    total: int,
    count: int,
    policy: ImageMemoryPolicy,
)
    requires
        forall|k: int| 0 <= k < order.len() ==> order[k] < entries.len(),
        forall|a: int, b: int| 0 <= a < b < order.len() ==> order[a] != order[b],
        forall|i: int, j: int|
            0 <= i < j < entries.len() ==> (#[trigger] entries[i]).slot() != (#[trigger] entries[j]).slot(),
    ensures
        forall|x: MemoryCacheEntry|
            #[trigger] kept_entries(entries, order, total, count, policy).contains(x) ==> exists|k: int|
                0 <= k < order.len() && x == entries[order[k] as int],
        forall|s: ImageCacheSlot|
            #[trigger] evictions(entries, order, total, count, policy).contains(s) ==> exists|k: int|
                0 <= k < order.len() && s == entries[order[k] as int].slot(),
        forall|k: int|
            0 <= k < order.len() ==> (kept_entries(entries, order, total, count, policy).contains(
                #[trigger] entries[order[k] as int],
            ) <==> !evictions(entries, order, total, count, policy).contains(entries[order[k] as int].slot())),
    decreases order.len(),
{
    if order.len() > 0 {
        let rest = order.drop_first();
        let first = entries[order[0] as int];
        assert forall|a: int, b: int| 0 <= a < b < rest.len() implies rest[a] != rest[b] by {
            assert(rest[a] == order[a + 1] && rest[b] == order[b + 1]);
        }
        assert forall|k: int| 0 <= k < rest.len() implies rest[k] < entries.len() by {
            assert(rest[k] == order[k + 1]);
        }
        // Distinct positions hold distinct entries with distinct slots.
        assert forall|k: int| 0 <= k < rest.len() implies entries[rest[k] as int].slot() != first.slot()
            && entries[rest[k] as int] != first by {
            assert(rest[k] == order[k + 1]);
            assert(order[0] != order[k + 1]);
            let a = order[0] as int;
            let b = rest[k] as int;
            if a < b {
                assert(entries[a].slot() != entries[b].slot());
            } else {
                assert(entries[b].slot() != entries[a].slot());
            }
        }
        let evicted_first = first.bytes() > policy.max_cache_entry_bytes() || total > policy.max_resident_bytes()
            || count > policy.max_cache_entries();
        let next_total = if evicted_first {
            minus_or_zero(total, first.bytes() as int)
        } else {
            total
        };
        let next_count = if evicted_first {
            minus_or_zero(count, 1)
        } else {
            count
        };
        law_evicted_slots_are_those_not_kept(entries, rest, next_total, next_count, policy);
        let kept_rest = kept_entries(entries, rest, next_total, next_count, policy);
        let evicted_rest = evictions(entries, rest, next_total, next_count, policy);
        let kept = kept_entries(entries, order, total, count, policy);
        let evicted = evictions(entries, order, total, count, policy);
        if evicted_first {
            assert(kept == kept_rest);
            assert(evicted == seq![first.slot()] + evicted_rest);
        } else {
            assert(kept == seq![first] + kept_rest);
            assert(evicted == evicted_rest);
        }
        assert(!kept_rest.contains(first)) by {
            if kept_rest.contains(first) {
                let k = choose|k: int| 0 <= k < rest.len() && first == entries[rest[k] as int];
                assert(entries[rest[k] as int] != first);
            }
        }
        assert(!evicted_rest.contains(first.slot())) by {
            if evicted_rest.contains(first.slot()) {
                let k = choose|k: int| 0 <= k < rest.len() && first.slot() == entries[rest[k] as int].slot();
                assert(entries[rest[k] as int].slot() != first.slot());
            }
        }
        assert forall|x: MemoryCacheEntry| #[trigger] kept.contains(x) implies exists|k: int|
            0 <= k < order.len() && x == entries[order[k] as int] by {
            if x == first {
                assert(x == entries[order[0] as int]);
            } else {
                assert(kept_rest.contains(x)) by {
                    if !evicted_first {
                        let i = choose|i: int| 0 <= i < kept.len() && kept[i] == x;
                        assert(i > 0);
                        assert(kept_rest[i - 1] == x);
                    }
                }
                let k = choose|k: int| 0 <= k < rest.len() && x == entries[rest[k] as int];
                assert(x == entries[order[k + 1] as int]);
            }
        }
        assert forall|sl: ImageCacheSlot| #[trigger] evicted.contains(sl) implies exists|k: int|
            0 <= k < order.len() && sl == entries[order[k] as int].slot() by {
            if sl == first.slot() {
                assert(sl == entries[order[0] as int].slot());
            } else {
                assert(evicted_rest.contains(sl)) by {
                    if evicted_first {
                        let i = choose|i: int| 0 <= i < evicted.len() && evicted[i] == sl;
                        assert(i > 0);
                        assert(evicted_rest[i - 1] == sl);
                    }
                }
                let k = choose|k: int| 0 <= k < rest.len() && sl == entries[rest[k] as int].slot();
                assert(sl == entries[order[k + 1] as int].slot());
            }
        }
        assert forall|k: int| 0 <= k < order.len() implies (kept.contains(#[trigger] entries[order[k] as int])
            <==> !evicted.contains(entries[order[k] as int].slot())) by {
            if k == 0 {
                if evicted_first {
                    assert(evicted[0] == first.slot());
                } else {
                    assert(kept[0] == first);
                }
            } else {
                let e = entries[order[k] as int];
                assert(order[k] == rest[k - 1]);
                assert(kept_rest.contains(e) <==> !evicted_rest.contains(e.slot()));
                assert(e != first && e.slot() != first.slot());
                if evicted_first {
                    assert(evicted.contains(e.slot()) <==> evicted_rest.contains(e.slot())) by {
                        if evicted_rest.contains(e.slot()) {
                            let i = choose|i: int| 0 <= i < evicted_rest.len() && evicted_rest[i] == e.slot();
                            assert(evicted[i + 1] == e.slot());
                        }
                        if evicted.contains(e.slot()) {
                            let i = choose|i: int| 0 <= i < evicted.len() && evicted[i] == e.slot();
                            assert(evicted_rest[i - 1] == e.slot());
                        }
                    }
                } else {
                    assert(kept.contains(e) <==> kept_rest.contains(e)) by {
                        if kept_rest.contains(e) {
                            let i = choose|i: int| 0 <= i < kept_rest.len() && kept_rest[i] == e;
                            assert(kept[i + 1] == e);
                        }
                        if kept.contains(e) {
                            let i = choose|i: int| 0 <= i < kept.len() && kept[i] == e;
                            assert(kept_rest[i - 1] == e);
                        }
                    }
                }
            }
        }
    }
}

pub proof fn law_eviction_keeps_entry_count(
    entries: Seq<MemoryCacheEntry>,
    order: Seq<usize>,
    total: int,
    policy: ImageMemoryPolicy,
)
    requires
        is_eviction_order(entries, order),
    ensures
        entries.len() - evictions(entries, order, total, entries.len() as int, policy).len()
            <= policy.max_cache_entries(),
{
    lemma_evictions_count(entries, order, total, entries.len() as int, policy);
}

proof fn lemma_evictions_count(
    entries: Seq<MemoryCacheEntry>,
    order: Seq<usize>,
    total: int,
    count: int,
    policy: ImageMemoryPolicy,
)
    requires
        count >= 0,
    ensures
        count - evictions(entries, order, total, count, policy).len() <= (if policy.max_cache_entries()
            >= count - order.len() {
            policy.max_cache_entries() as int
        } else {
            count - order.len()
        }),
    decreases order.len(),
{
    if order.len() > 0 {
        let entry = entries[order[0] as int];
        lemma_evictions_count(
            entries,
            order.drop_first(),
            minus_or_zero(total, entry.bytes() as int),
            minus_or_zero(count, 1),
            policy,
        );
        lemma_evictions_count(entries, order.drop_first(), total, count, policy);
    }
}

/// Every entry larger than the entry budget is evicted, whatever else is
/// resident.
pub proof fn law_oversized_entries_are_evicted(
    entries: Seq<MemoryCacheEntry>,
    order: Seq<usize>,
    total: int,
    count: int,
    policy: ImageMemoryPolicy,
    k: int,
)
    requires
        is_eviction_order(entries, order),
        0 <= k < order.len(),
        entries[order[k] as int].bytes() > policy.max_cache_entry_bytes(),
    ensures
        evictions(entries, order, total, count, policy).contains(entries[order[k] as int].slot()),
{
    lemma_oversized_evicted(entries, order, total, count, policy, k);
}

proof fn lemma_eviction_suffix(entries: Seq<MemoryCacheEntry>, order: Seq<usize>)
    requires
        order.len() > 0,
        forall|k: int| 0 <= k < order.len() ==> order[k] < entries.len(),
    ensures
        forall|k: int| 0 <= k < order.drop_first().len() ==> order.drop_first()[k] < entries.len(),
{
    assert forall|k: int| 0 <= k < order.drop_first().len() implies order.drop_first()[k] < entries.len() by {
        assert(order.drop_first()[k] == order[k + 1]);
    }
}

proof fn lemma_oversized_evicted(
    entries: Seq<MemoryCacheEntry>,
    order: Seq<usize>,
    total: int,
    count: int,
    policy: ImageMemoryPolicy,
    k: int,
)
    requires
        forall|i: int| 0 <= i < order.len() ==> order[i] < entries.len(),
        0 <= k < order.len(),
        entries[order[k] as int].bytes() > policy.max_cache_entry_bytes(),
    ensures
        evictions(entries, order, total, count, policy).contains(entries[order[k] as int].slot()),
    decreases k,
{
    let entry = entries[order[0] as int];
    let evicted_now = entry.bytes() > policy.max_cache_entry_bytes() || total
        > policy.max_resident_bytes() || count > policy.max_cache_entries();
    let next_total = if evicted_now {
        minus_or_zero(total, entry.bytes() as int)
    } else {
        total
    };
    let next_count = if evicted_now {
        minus_or_zero(count, 1)
    } else {
        count
    };
    let rest = evictions(entries, order.drop_first(), next_total, next_count, policy);
    let ev = evictions(entries, order, total, count, policy);
    if k == 0 {
        assert(ev[0] == entry.slot());
    } else {
        lemma_eviction_suffix(entries, order);
        assert(order.drop_first()[k - 1] == order[k]);
        lemma_oversized_evicted(entries, order.drop_first(), next_total, next_count, policy, k - 1);
        let target = entries[order[k] as int].slot();
        let j = choose|j: int| 0 <= j < rest.len() && rest[j] == target;
        if evicted_now {
            assert(ev[j + 1] == target);
        } else {
            assert(ev[j] == target);
        }
    }
}

// ---------------------------------------------------------------------------
// Configured limits
// ---------------------------------------------------------------------------
/// The configured memory limits as whole numbers: pixel counts, the preview
/// oversample factor, the fallback viewport, budgets in MiB, and counts.
pub struct MemoryLimits {
    pub large_image_pixel_threshold: int,
    pub max_image_pixels: int,
    pub preview_max_pixels: int,
    pub preview_oversample: int,
    pub fallback_viewport_width: int,
    pub fallback_viewport_height: int,
    pub max_transient_decode_mib: int,
    pub max_full_resolution_mib: int,
    pub max_resident_mib: int,
    pub max_cache_entry_mib: int,
    pub max_cache_entries: int,
    pub max_animation_metadata_frames: int,
}

/// Each limit within its configurable range, and the dependent limits within
/// the ones they depend on: the preview threshold and the preview size within
/// the pixel maximum, the full-resolution budget within the decode budget,
/// and the cache entry budget within the resident budget.
pub open spec fn limits_ordered(l: MemoryLimits) -> bool {
    &&& MIN_CONFIG_PIXEL_LIMIT <= l.large_image_pixel_threshold <= l.max_image_pixels
    &&& MIN_CONFIG_PIXEL_LIMIT <= l.preview_max_pixels <= l.max_image_pixels
    &&& l.max_image_pixels <= MAX_CONFIG_IMAGE_PIXELS
    &&& MIN_CONFIG_PREVIEW_OVERSAMPLE <= l.preview_oversample <= MAX_CONFIG_PREVIEW_OVERSAMPLE
    &&& MIN_CONFIG_VIEWPORT_EDGE <= l.fallback_viewport_width <= MAX_CONFIG_VIEWPORT_EDGE
    &&& MIN_CONFIG_VIEWPORT_EDGE <= l.fallback_viewport_height <= MAX_CONFIG_VIEWPORT_EDGE
    &&& MIN_CONFIG_MEMORY_MIB <= l.max_full_resolution_mib <= l.max_transient_decode_mib
    &&& l.max_transient_decode_mib <= MAX_CONFIG_MEMORY_MIB
    &&& MIN_CONFIG_MEMORY_MIB <= l.max_cache_entry_mib <= l.max_resident_mib
    &&& l.max_resident_mib <= MAX_CONFIG_MEMORY_MIB
    &&& MIN_CONFIG_CACHE_ENTRIES <= l.max_cache_entries <= MAX_CONFIG_CACHE_ENTRIES
    &&& MIN_CONFIG_ANIMATION_METADATA_FRAMES <= l.max_animation_metadata_frames
    &&& l.max_animation_metadata_frames <= MAX_CONFIG_ANIMATION_METADATA_FRAMES
}

pub open spec fn min_int(a: int, b: int) -> int {
    if a <= b {
        a
    } else {
        b
    }
}

/// The limits with each dependent limit lowered to the one it depends on.
pub open spec fn normalized_limits(l: MemoryLimits) -> MemoryLimits {
    MemoryLimits {
        large_image_pixel_threshold: min_int(l.large_image_pixel_threshold, l.max_image_pixels),
        preview_max_pixels: min_int(l.preview_max_pixels, l.max_image_pixels),
        max_full_resolution_mib: min_int(l.max_full_resolution_mib, l.max_transient_decode_mib),
        max_cache_entry_mib: min_int(l.max_cache_entry_mib, l.max_resident_mib),
        ..l
    }
}

/// The default limits.
pub open spec fn default_limits() -> MemoryLimits {
    MemoryLimits {
        large_image_pixel_threshold: DEFAULT_LARGE_IMAGE_PIXEL_THRESHOLD as int,
        max_image_pixels: DEFAULT_MAX_IMAGE_PIXELS as int,
        preview_max_pixels: DEFAULT_PREVIEW_MAX_PIXELS as int,
        preview_oversample: DEFAULT_PREVIEW_OVERSAMPLE as int,
        fallback_viewport_width: DEFAULT_FALLBACK_VIEWPORT_WIDTH as int,
        fallback_viewport_height: DEFAULT_FALLBACK_VIEWPORT_HEIGHT as int,
        max_transient_decode_mib: DEFAULT_MAX_TRANSIENT_DECODE_MIB as int,
        max_full_resolution_mib: DEFAULT_MAX_FULL_RESOLUTION_MIB as int,
        max_resident_mib: DEFAULT_MAX_RESIDENT_MIB as int,
        max_cache_entry_mib: DEFAULT_MAX_CACHE_ENTRY_MIB as int,
        max_cache_entries: DEFAULT_MAX_CACHE_ENTRIES as int,
        max_animation_metadata_frames: DEFAULT_MAX_ANIMATION_METADATA_FRAMES as int,
    }
}

/// The limits read from eleven stored values: each limited to its
/// configurable range, then the dependent limits lowered as needed.
pub open spec fn limits_from_values(
    large_image_pixel_threshold: int,
    max_image_pixels: int,
    preview_max_pixels: int,
    preview_oversample: int,
    fallback_viewport_width: int,
    fallback_viewport_height: int,
    max_transient_decode_mib: int,
    max_full_resolution_mib: int,
    max_resident_mib: int,
    max_cache_entry_mib: int,
    max_cache_entries: int,
    max_animation_metadata_frames: int,
) -> MemoryLimits {
    normalized_limits(
        MemoryLimits {
            large_image_pixel_threshold: clamp_int(large_image_pixel_threshold, 1, 1_000_000_000),
            max_image_pixels: clamp_int(max_image_pixels, 1, 1_000_000_000),
            preview_max_pixels: clamp_int(preview_max_pixels, 1, 1_000_000_000),
            preview_oversample: clamp_int(preview_oversample, 1, 8),
            fallback_viewport_width: clamp_int(fallback_viewport_width, 1, 16_384),
            fallback_viewport_height: clamp_int(fallback_viewport_height, 1, 16_384),
            max_transient_decode_mib: clamp_int(max_transient_decode_mib, 1, 4096),
            max_full_resolution_mib: clamp_int(max_full_resolution_mib, 1, 4096),
            max_resident_mib: clamp_int(max_resident_mib, 1, 4096),
            max_cache_entry_mib: clamp_int(max_cache_entry_mib, 1, 4096),
            max_cache_entries: clamp_int(max_cache_entries, 0, 64),
            max_animation_metadata_frames: clamp_int(max_animation_metadata_frames, 1, 1_000_000),
        },
    )
}

/// Memory limits as a user configures them; budgets are in MiB. Every
/// change keeps each limit within its range and the dependent limits within
/// the ones they depend on.
#[derive(Debug, Clone, Copy, PartialEq, Eq, Structural)]
pub struct MemoryPolicySettings {
    large_image_pixel_threshold: u64,
    max_image_pixels: u64,
    preview_max_pixels: u64,
    preview_oversample: u32,
    fallback_viewport_width: u32,
    fallback_viewport_height: u32,
    max_transient_decode_mib: u32,
    max_full_resolution_mib: u32,
    max_resident_mib: u32,
    max_cache_entry_mib: u32,
    max_cache_entries: usize,
    max_animation_metadata_frames: usize,
}

impl View for MemoryPolicySettings {
    type V = MemoryLimits;

    closed spec fn view(&self) -> MemoryLimits {
        MemoryLimits {
            large_image_pixel_threshold: self.large_image_pixel_threshold as int,
            max_image_pixels: self.max_image_pixels as int,
            preview_max_pixels: self.preview_max_pixels as int,
            preview_oversample: self.preview_oversample as int,
            fallback_viewport_width: self.fallback_viewport_width as int,
            fallback_viewport_height: self.fallback_viewport_height as int,
            max_transient_decode_mib: self.max_transient_decode_mib as int,
            max_full_resolution_mib: self.max_full_resolution_mib as int,
            max_resident_mib: self.max_resident_mib as int,
            max_cache_entry_mib: self.max_cache_entry_mib as int,
            max_cache_entries: self.max_cache_entries as int,
            max_animation_metadata_frames: self.max_animation_metadata_frames as int,
        }
    }
}

fn clamp_u64(value: u64, low: u64, high: u64) -> (clamped: u64)
    requires
        low <= high,
    ensures
        clamped == clamp_int(value as int, low as int, high as int),
{
    if value < low {
        low
    } else if value > high {
        high
    } else {
        value
    }
}

fn min_u64(a: u64, b: u64) -> (m: u64)
    ensures
        m == min_int(a as int, b as int),
{
    if a <= b {
        a
    } else {
        b
    }
}

fn min_u32(a: u32, b: u32) -> (m: u32)
    ensures
        m == min_int(a as int, b as int),
{
    if a <= b {
        a
    } else {
        b
    }
}

impl MemoryPolicySettings {
    #[verifier::type_invariant]
    closed spec fn wf(self) -> bool {
        limits_ordered(self@)
    }

    /// Two settings are equal exactly when their limits are.
    pub proof fn lemma_eq(a: Self, b: Self)
        ensures
            (a == b) <==> (a@ == b@),
    {
        if a@ == b@ {
            assert(a.large_image_pixel_threshold == b.large_image_pixel_threshold);
        }
    }

    /// The default limits (see `ImageMemoryPolicy::defaults`).
    pub fn defaults() -> (settings: Self)
        ensures
            settings@ == default_limits(),
            limits_ordered(settings@),
    {
        Self {
            large_image_pixel_threshold: DEFAULT_LARGE_IMAGE_PIXEL_THRESHOLD,
            max_image_pixels: DEFAULT_MAX_IMAGE_PIXELS,
            preview_max_pixels: DEFAULT_PREVIEW_MAX_PIXELS,
            preview_oversample: DEFAULT_PREVIEW_OVERSAMPLE,
            fallback_viewport_width: DEFAULT_FALLBACK_VIEWPORT_WIDTH,
            fallback_viewport_height: DEFAULT_FALLBACK_VIEWPORT_HEIGHT,
            max_transient_decode_mib: DEFAULT_MAX_TRANSIENT_DECODE_MIB,
            max_full_resolution_mib: DEFAULT_MAX_FULL_RESOLUTION_MIB,
            max_resident_mib: DEFAULT_MAX_RESIDENT_MIB,
            max_cache_entry_mib: DEFAULT_MAX_CACHE_ENTRY_MIB,
            max_cache_entries: DEFAULT_MAX_CACHE_ENTRIES,
            max_animation_metadata_frames: DEFAULT_MAX_ANIMATION_METADATA_FRAMES,
        }
    }

    /// Settings from stored values: each limited to its configurable range,
    /// then the dependent limits lowered as needed.
    pub fn from_values(
        large_image_pixel_threshold: u64,
        max_image_pixels: u64,
        preview_max_pixels: u64,
        preview_oversample: u32,
        fallback_viewport_width: u32,
        fallback_viewport_height: u32,
        max_transient_decode_mib: u32,
        max_full_resolution_mib: u32,
        max_resident_mib: u32,
        max_cache_entry_mib: u32,
        max_cache_entries: usize,
        max_animation_metadata_frames: usize,
    ) -> (settings: Self)
        ensures
            settings@ == limits_from_values(
                large_image_pixel_threshold as int,
                max_image_pixels as int,
                preview_max_pixels as int,
                preview_oversample as int,
                fallback_viewport_width as int,
                fallback_viewport_height as int,
                max_transient_decode_mib as int,
                max_full_resolution_mib as int,
                max_resident_mib as int,
                max_cache_entry_mib as int,
                max_cache_entries as int,
                max_animation_metadata_frames as int,
            ),
            limits_ordered(settings@),
    {
        let max_image_pixels = clamp_u64(max_image_pixels, MIN_CONFIG_PIXEL_LIMIT, MAX_CONFIG_IMAGE_PIXELS);
        let max_transient_decode_mib = clamp_u32(max_transient_decode_mib, MIN_CONFIG_MEMORY_MIB, MAX_CONFIG_MEMORY_MIB);
        let max_resident_mib = clamp_u32(max_resident_mib, MIN_CONFIG_MEMORY_MIB, MAX_CONFIG_MEMORY_MIB);
        Self {
            large_image_pixel_threshold: min_u64(
                clamp_u64(large_image_pixel_threshold, MIN_CONFIG_PIXEL_LIMIT, MAX_CONFIG_IMAGE_PIXELS),
                max_image_pixels,
            ),
            max_image_pixels,
            preview_max_pixels: min_u64(
                clamp_u64(preview_max_pixels, MIN_CONFIG_PIXEL_LIMIT, MAX_CONFIG_IMAGE_PIXELS),
                max_image_pixels,
            ),
            preview_oversample: clamp_u32(
                preview_oversample,
                MIN_CONFIG_PREVIEW_OVERSAMPLE,
                MAX_CONFIG_PREVIEW_OVERSAMPLE,
            ),
            fallback_viewport_width: clamp_u32(fallback_viewport_width, MIN_CONFIG_VIEWPORT_EDGE, MAX_CONFIG_VIEWPORT_EDGE),
            fallback_viewport_height: clamp_u32(fallback_viewport_height, MIN_CONFIG_VIEWPORT_EDGE, MAX_CONFIG_VIEWPORT_EDGE),
            max_transient_decode_mib,
            max_full_resolution_mib: min_u32(
                clamp_u32(max_full_resolution_mib, MIN_CONFIG_MEMORY_MIB, MAX_CONFIG_MEMORY_MIB),
                max_transient_decode_mib,
            ),
            max_resident_mib,
            max_cache_entry_mib: min_u32(
                clamp_u32(max_cache_entry_mib, MIN_CONFIG_MEMORY_MIB, MAX_CONFIG_MEMORY_MIB),
                max_resident_mib,
            ),
            max_cache_entries: clamp_usize(max_cache_entries, MIN_CONFIG_CACHE_ENTRIES, MAX_CONFIG_CACHE_ENTRIES),
            max_animation_metadata_frames: clamp_usize(
                max_animation_metadata_frames,
                MIN_CONFIG_ANIMATION_METADATA_FRAMES,
                MAX_CONFIG_ANIMATION_METADATA_FRAMES,
            ),
        }
    }

    pub fn large_image_pixel_threshold(self) -> (threshold: u64)
        ensures
            threshold == self@.large_image_pixel_threshold,
            limits_ordered(self@),
    {
        proof {
            use_type_invariant(&self);
        }
        self.large_image_pixel_threshold
    }

    pub fn max_image_pixels(self) -> (pixels: u64)
        ensures
            pixels == self@.max_image_pixels,
            limits_ordered(self@),
    {
        proof {
            use_type_invariant(&self);
        }
        self.max_image_pixels
    }

    pub fn preview_max_pixels(self) -> (pixels: u64)
        ensures
            pixels == self@.preview_max_pixels,
            limits_ordered(self@),
    {
        proof {
            use_type_invariant(&self);
        }
        self.preview_max_pixels
    }

    pub fn preview_oversample(self) -> (factor: u32)
        ensures
            factor == self@.preview_oversample,
            limits_ordered(self@),
    {
        proof {
            use_type_invariant(&self);
        }
        self.preview_oversample
    }

    pub fn fallback_viewport_width(self) -> (width: u32)
        ensures
            width == self@.fallback_viewport_width,
            limits_ordered(self@),
    {
        proof {
            use_type_invariant(&self);
        }
        self.fallback_viewport_width
    }

    pub fn fallback_viewport_height(self) -> (height: u32)
        ensures
            height == self@.fallback_viewport_height,
            limits_ordered(self@),
    {
        proof {
            use_type_invariant(&self);
        }
        self.fallback_viewport_height
    }

    pub fn max_transient_decode_mib(self) -> (mib: u32)
        ensures
            mib == self@.max_transient_decode_mib,
            limits_ordered(self@),
    {
        proof {
            use_type_invariant(&self);
        }
        self.max_transient_decode_mib
    }

    pub fn max_full_resolution_mib(self) -> (mib: u32)
        ensures
            mib == self@.max_full_resolution_mib,
            limits_ordered(self@),
    {
        proof {
            use_type_invariant(&self);
        }
        self.max_full_resolution_mib
    }

    pub fn max_resident_mib(self) -> (mib: u32)
        ensures
            mib == self@.max_resident_mib,
            limits_ordered(self@),
    {
        proof {
            use_type_invariant(&self);
        }
        self.max_resident_mib
    }

    pub fn max_cache_entry_mib(self) -> (mib: u32)
        ensures
            mib == self@.max_cache_entry_mib,
            limits_ordered(self@),
    {
        proof {
            use_type_invariant(&self);
        }
        self.max_cache_entry_mib
    }

    pub fn max_cache_entries(self) -> (entries: usize)
        ensures
            entries == self@.max_cache_entries,
            limits_ordered(self@),
    {
        proof {
            use_type_invariant(&self);
        }
        self.max_cache_entries
    }

    pub fn max_animation_metadata_frames(self) -> (frames: usize)
        ensures
            frames == self@.max_animation_metadata_frames,
            limits_ordered(self@),
    {
        proof {
            use_type_invariant(&self);
        }
        self.max_animation_metadata_frames
    }

    /// Sets the pixel count above which a preview is shown first, limited to
    /// 1 ..= 1 000 000 000 and to the pixel maximum.
    pub fn set_large_image_pixel_threshold(&mut self, threshold: u64)
        ensures
            final(self)@ == normalized_limits(MemoryLimits {
                large_image_pixel_threshold: clamp_int(threshold as int, 1, 1_000_000_000),
                ..old(self)@
            }),
            limits_ordered(final(self)@),
    {
        proof {
            use_type_invariant(&*self);
        }
        self.large_image_pixel_threshold = min_u64(
            clamp_u64(threshold, MIN_CONFIG_PIXEL_LIMIT, MAX_CONFIG_IMAGE_PIXELS),
            self.max_image_pixels,
        );
    }

    /// Sets the pixel count above which an image is refused, limited to
    /// 1 ..= 1 000 000 000; the preview threshold and the preview size are
    /// lowered to it when above it.
    pub fn set_max_image_pixels(&mut self, max_image_pixels: u64)
        ensures
            final(self)@ == normalized_limits(MemoryLimits {
                max_image_pixels: clamp_int(max_image_pixels as int, 1, 1_000_000_000),
                ..old(self)@
            }),
            limits_ordered(final(self)@),
    {
        proof {
            use_type_invariant(&*self);
        }
        let max_image_pixels = clamp_u64(max_image_pixels, MIN_CONFIG_PIXEL_LIMIT, MAX_CONFIG_IMAGE_PIXELS);
        *self = Self {
            large_image_pixel_threshold: min_u64(self.large_image_pixel_threshold, max_image_pixels),
            max_image_pixels,
            preview_max_pixels: min_u64(self.preview_max_pixels, max_image_pixels),
            ..*self
        };
    }

    /// Sets the largest preview in pixels, limited to 1 ..= 1 000 000 000 and
    /// to the pixel maximum.
    pub fn set_preview_max_pixels(&mut self, preview_max_pixels: u64)
        ensures
            final(self)@ == normalized_limits(MemoryLimits {
                preview_max_pixels: clamp_int(preview_max_pixels as int, 1, 1_000_000_000),
                ..old(self)@
            }),
            limits_ordered(final(self)@),
    {
        proof {
            use_type_invariant(&*self);
        }
        self.preview_max_pixels = min_u64(
            clamp_u64(preview_max_pixels, MIN_CONFIG_PIXEL_LIMIT, MAX_CONFIG_IMAGE_PIXELS),
            self.max_image_pixels,
        );
    }

    /// Sets how much larger than the viewport a preview is made, limited to 1 ..= 8.
    pub fn set_preview_oversample(&mut self, preview_oversample: u32)
        ensures
            final(self)@ == (MemoryLimits {
                preview_oversample: clamp_int(preview_oversample as int, 1, 8),
                ..old(self)@
            }),
            limits_ordered(final(self)@),
    {
        proof {
            use_type_invariant(&*self);
        }
        self.preview_oversample = clamp_u32(
            preview_oversample,
            MIN_CONFIG_PREVIEW_OVERSAMPLE,
            MAX_CONFIG_PREVIEW_OVERSAMPLE,
        );
    }

    /// Sets the width assumed before the window has a size, limited to 1 ..= 16 384.
    pub fn set_fallback_viewport_width(&mut self, width: u32)
        ensures
            final(self)@ == (MemoryLimits {
                fallback_viewport_width: clamp_int(width as int, 1, 16_384),
                ..old(self)@
            }),
            limits_ordered(final(self)@),
    {
        proof {
            use_type_invariant(&*self);
        }
        self.fallback_viewport_width = clamp_u32(width, MIN_CONFIG_VIEWPORT_EDGE, MAX_CONFIG_VIEWPORT_EDGE);
    }

    /// Sets the height assumed before the window has a size, limited to 1 ..= 16 384.
    pub fn set_fallback_viewport_height(&mut self, height: u32)
        ensures
            final(self)@ == (MemoryLimits {
                fallback_viewport_height: clamp_int(height as int, 1, 16_384),
                ..old(self)@
            }),
            limits_ordered(final(self)@),
    {
        proof {
            use_type_invariant(&*self);
        }
        self.fallback_viewport_height = clamp_u32(height, MIN_CONFIG_VIEWPORT_EDGE, MAX_CONFIG_VIEWPORT_EDGE);
    }

    /// Sets the decode budget in MiB, limited to 1 ..= 4096; the
    /// full-resolution budget is lowered to it when above it.
    pub fn set_max_transient_decode_mib(&mut self, max_mib: u32)
        ensures
            final(self)@ == normalized_limits(MemoryLimits {
                max_transient_decode_mib: clamp_int(max_mib as int, 1, 4096),
                ..old(self)@
            }),
            limits_ordered(final(self)@),
    {
        proof {
            use_type_invariant(&*self);
        }
        let max_mib = clamp_u32(max_mib, MIN_CONFIG_MEMORY_MIB, MAX_CONFIG_MEMORY_MIB);
        *self = Self {
            max_transient_decode_mib: max_mib,
            max_full_resolution_mib: min_u32(self.max_full_resolution_mib, max_mib),
            ..*self
        };
    }

    /// Sets the budget of a kept full-resolution buffer in MiB, limited to
    /// 1 ..= 4096 and to the decode budget.
    pub fn set_max_full_resolution_mib(&mut self, max_mib: u32)
        ensures
            final(self)@ == normalized_limits(MemoryLimits {
                max_full_resolution_mib: clamp_int(max_mib as int, 1, 4096),
                ..old(self)@
            }),
            limits_ordered(final(self)@),
    {
        proof {
            use_type_invariant(&*self);
        }
        self.max_full_resolution_mib = min_u32(
            clamp_u32(max_mib, MIN_CONFIG_MEMORY_MIB, MAX_CONFIG_MEMORY_MIB),
            self.max_transient_decode_mib,
        );
    }

    /// Sets the resident budget in MiB, limited to 1 ..= 4096; the cache
    /// entry budget is lowered to it when above it.
    pub fn set_max_resident_mib(&mut self, max_mib: u32)
        ensures
            final(self)@ == normalized_limits(MemoryLimits {
                max_resident_mib: clamp_int(max_mib as int, 1, 4096),
                ..old(self)@
            }),
            limits_ordered(final(self)@),
    {
        proof {
            use_type_invariant(&*self);
        }
        let max_mib = clamp_u32(max_mib, MIN_CONFIG_MEMORY_MIB, MAX_CONFIG_MEMORY_MIB);
        *self = Self {
            max_resident_mib: max_mib,
            max_cache_entry_mib: min_u32(self.max_cache_entry_mib, max_mib),
            ..*self
        };
    }

    /// Sets the budget of one cache entry in MiB, limited to 1 ..= 4096 and
    /// to the resident budget.
    pub fn set_max_cache_entry_mib(&mut self, max_mib: u32)
        ensures
            final(self)@ == normalized_limits(MemoryLimits {
                max_cache_entry_mib: clamp_int(max_mib as int, 1, 4096),
                ..old(self)@
            }),
            limits_ordered(final(self)@),
    {
        proof {
            use_type_invariant(&*self);
        }
        self.max_cache_entry_mib = min_u32(
            clamp_u32(max_mib, MIN_CONFIG_MEMORY_MIB, MAX_CONFIG_MEMORY_MIB),
            self.max_resident_mib,
        );
    }

    /// Sets the number of cache entries, limited to 0 ..= 64.
    pub fn set_max_cache_entries(&mut self, max_cache_entries: usize)
        ensures
            final(self)@ == (MemoryLimits {
                max_cache_entries: clamp_int(max_cache_entries as int, 0, 64),
                ..old(self)@
            }),
            limits_ordered(final(self)@),
    {
        proof {
            use_type_invariant(&*self);
        }
        self.max_cache_entries = clamp_usize(max_cache_entries, MIN_CONFIG_CACHE_ENTRIES, MAX_CONFIG_CACHE_ENTRIES);
    }

    /// Sets the number of animation frames whose metadata is read, limited
    /// to 1 ..= 1 000 000.
    pub fn set_max_animation_metadata_frames(&mut self, max_frames: usize)
        ensures
            final(self)@ == (MemoryLimits {
                max_animation_metadata_frames: clamp_int(max_frames as int, 1, 1_000_000),
                ..old(self)@
            }),
            limits_ordered(final(self)@),
    {
        proof {
            use_type_invariant(&*self);
        }
        self.max_animation_metadata_frames = clamp_usize(
            max_frames,
            MIN_CONFIG_ANIMATION_METADATA_FRAMES,
            MAX_CONFIG_ANIMATION_METADATA_FRAMES,
        );
    }

    /// The policy these settings give: the same counts, the fallback viewport
    /// as a size, and each budget in bytes.
    pub fn image_memory_policy(self) -> (policy: ImageMemoryPolicy)
        ensures
            policy.large_image_pixel_threshold() == self@.large_image_pixel_threshold,
            policy.max_image_pixels() == self@.max_image_pixels,
            policy.preview_max_pixels() == self@.preview_max_pixels,
            policy.preview_oversample() == self@.preview_oversample,
            policy.fallback_viewport() == ImageSize::spec_new(
                self@.fallback_viewport_width as u32,
                self@.fallback_viewport_height as u32,
            ),
            policy.max_transient_decode_bytes() == mib_bytes(self@.max_transient_decode_mib),
            policy.max_full_resolution_bytes() == mib_bytes(self@.max_full_resolution_mib),
            policy.max_resident_bytes() == mib_bytes(self@.max_resident_mib),
            policy.max_cache_entry_bytes() == mib_bytes(self@.max_cache_entry_mib),
            policy.max_cache_entries() == self@.max_cache_entries,
            policy.max_animation_metadata_frames() == self@.max_animation_metadata_frames,
            self@ == default_limits() ==> policy == ImageMemoryPolicy::spec_defaults(),
            policy == ImageMemoryPolicy::spec_from_limits(self@),
    {
        ImageMemoryPolicy {
            large_image_pixel_threshold: self.large_image_pixel_threshold,
            max_image_pixels: self.max_image_pixels,
            preview_max_pixels: self.preview_max_pixels,
            preview_oversample: self.preview_oversample,
            fallback_viewport: ImageSize::new(self.fallback_viewport_width, self.fallback_viewport_height),
            max_transient_decode_bytes: mib_to_bytes(self.max_transient_decode_mib),
            max_full_resolution_bytes: mib_to_bytes(self.max_full_resolution_mib),
            max_resident_bytes: mib_to_bytes(self.max_resident_mib),
            max_cache_entry_bytes: mib_to_bytes(self.max_cache_entry_mib),
            max_cache_entries: self.max_cache_entries,
            max_animation_metadata_frames: self.max_animation_metadata_frames,
        }
    }
}

impl Default for MemoryPolicySettings {
    fn default() -> (settings: Self)
        ensures
            settings@ == default_limits(),
    {
        Self::defaults()
    }
}

} // verus!

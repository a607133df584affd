//! The pixels the shown image is drawn from: its own pixels when it is drawn
//! as stored, and otherwise an upright copy kept in the render cache.
use vstd::prelude::*;

use crate::cache_policy::{current_display_orientation, shown_orientation};
use crate::geometry::{pixel_byte_len_spec, ImageRotation, ImageSize, PixelFormat, ScalingQuality};
use crate::loaded::ImageState;
use crate::pixels::{orient_pixel_image, orients_to, PixelImage};
use crate::render_cache::{oriented_matches, OrientedImageCache, OrientedImageCacheKey, RenderCache, ScaledImageCache};
use crate::resample::{filter_for, resample_display_pixels, resampled, resize_of_fits, resize_of_source_fits};
use crate::scaling::{cache_target_size, scaling_cache_key_for_render, should_rebuild_scaling_cache, ScalingCacheKey};
use crate::viewer::DisplayPixelSource;
use crate::geometry::ImageOrientation;

verus! {

/// The key of the upright copy a loaded image needs, drawn in `orientation`.
pub open spec fn needed_key(
    image_revision: u64,
    pixels: PixelImage,
    orientation: crate::geometry::ImageOrientation,
) -> OrientedImageCacheKey {
    OrientedImageCacheKey { image_revision, source_size: pixels.spec_size(), orientation }
}

/// Whether the cached upright copy is missing or was made for another key.
pub open spec fn needs_rebuild(oriented: Option<OrientedImageCache>, key: OrientedImageCacheKey) -> bool {
    match oriented {
        Some(cache) => cache.key != key,
        None => true,
    }
}

/// Makes sure the upright copy the shown image needs is cached. Without an
/// image both render copies are dropped and there is nothing to draw. An
/// image drawn as stored needs no copy, and a cached one is dropped. When the
/// copy is missing or stale it is made and kept, used at `paint_count`; the
/// result then says so, since the memory policy must be applied again. There
/// is nothing to draw when the copy cannot be made.
pub fn prepare_display_pixels(
    state: &ImageState,
    user_rotation: ImageRotation,
    image_revision: u64,
    render: &mut RenderCache,
    paint_count: u64,
) -> (prepared: Option<bool>)
    ensures
        match *state {
            ImageState::Empty => prepared is None && final(render).oriented() is None && final(render).scaled() is None,
            ImageState::Loaded(image) => {
                let orientation = image.spec_metadata().exif_orientation().then_rotation(user_rotation);
                let key = needed_key(image_revision, image.spec_pixels(), orientation);
                if orientation.is_identity() {
                    &&& prepared == Some(false)
                    &&& final(render).oriented() is None
                    &&& final(render).scaled() == old(render).scaled()
                } else if needs_rebuild(old(render).oriented(), key) {
                    &&& final(render).scaled() == old(render).scaled()
                    &&& prepared != Some(false)
                    &&& !image.spec_pixels().is_valid() ==> prepared is None
                    &&& prepared is None ==> final(render).oriented() == old(render).oriented()
                    &&& prepared == Some(true) ==> (final(render).oriented() matches Some(cache) && cache.key == key
                        && cache.last_used == paint_count && (*cache.pixels).pixel_format()
                        == image.spec_pixels().pixel_format() && orients_to(
                        image.spec_pixels().bytes(),
                        image.spec_pixels().spec_size(),
                        image.spec_pixels().pixel_format(),
                        orientation,
                        (*cache.pixels).spec_size(),
                        (*cache.pixels).bytes(),
                    ))
                } else {
                    &&& prepared == Some(false)
                    &&& final(render).oriented() == old(render).oriented()
                    &&& final(render).scaled() == old(render).scaled()
                }
            },
        },
{
    let image = match state {
        ImageState::Loaded(image) => image,
        ImageState::Empty => {
            render.clear_all();
            return None;
        },
    };
    let orientation = match current_display_orientation(state, user_rotation) {
        Some(orientation) => orientation,
        None => return None,
    };
    if orientation.is_identity() {
        render.clear_oriented();
        return Some(false);
    }
    let source_size = image.pixels().size();
    if !render.oriented_image_needs_rebuild(image_revision, source_size, orientation) {
        return Some(false);
    }
    let oriented = match orient_pixel_image(image.pixels(), orientation) {
        Some(oriented) => oriented,
        None => return None,
    };
    render.store_oriented_image(image_revision, source_size, orientation, oriented, paint_count);
    Some(true)
}

/// The pixels the shown image is drawn from: its own when drawn as stored,
/// the cached upright copy for its key otherwise (when it is there and has
/// the upright size).
pub fn display_pixels<'a>(
    state: &'a ImageState,
    user_rotation: ImageRotation,
    image_revision: u64,
    render: &'a RenderCache,
) -> (pixels: Option<&'a PixelImage>)
    ensures
        match *state {
            ImageState::Empty => pixels is None,
            ImageState::Loaded(image) => {
                let orientation = image.spec_metadata().exif_orientation().then_rotation(user_rotation);
                let key = needed_key(image_revision, image.spec_pixels(), orientation);
                if orientation.is_identity() {
                    pixels matches Some(p) && *p == image.spec_pixels()
                } else {
                    match render.oriented() {
                        Some(cache) => if oriented_matches(cache, key) {
                            pixels matches Some(p) && *p == *cache.pixels
                        } else {
                            pixels is None
                        },
                        None => pixels is None,
                    }
                }
            },
        },
{
    let orientation = match current_display_orientation(state, user_rotation) {
        Some(orientation) => orientation,
        None => return None,
    };
    match state {
        ImageState::Loaded(image) => {
            if orientation.is_identity() {
                Some(image.pixels())
            } else {
                render.oriented_image(image_revision, image.pixels().size(), orientation)
            }
        },
        ImageState::Empty => None,
    }
}

/// The pixels to copy the shown image from, and the orientation they still
/// need: the image's own pixels when drawn as stored; the cached upright copy
/// when it is there; otherwise the image's own pixels with its display
/// orientation. Nothing without an image; no copy is made.
pub fn display_pixel_source<'a>(
    state: &'a ImageState,
    user_rotation: ImageRotation,
    image_revision: u64,
    render: &'a RenderCache,
) -> (source: Option<DisplayPixelSource<'a>>)
    ensures
        match *state {
            ImageState::Empty => source is None,
            ImageState::Loaded(image) => {
                let orientation = image.spec_metadata().exif_orientation().then_rotation(user_rotation);
                let key = needed_key(image_revision, image.spec_pixels(), orientation);
                source matches Some(s) && if orientation.is_identity() {
                    s.spec_pixels() == image.spec_pixels() && s.spec_orientation() == ImageOrientation::Normal
                } else {
                    match render.oriented() {
                        Some(cache) => if oriented_matches(cache, key) {
                            s.spec_pixels() == *cache.pixels && s.spec_orientation() == ImageOrientation::Normal
                        } else {
                            s.spec_pixels() == image.spec_pixels() && s.spec_orientation() == orientation
                        },
                        None => s.spec_pixels() == image.spec_pixels() && s.spec_orientation() == orientation,
                    }
                }
            },
        },
{
    let orientation = match current_display_orientation(state, user_rotation) {
        Some(orientation) => orientation,
        None => return None,
    };
    let image = match state {
        ImageState::Loaded(image) => image,
        ImageState::Empty => return None,
    };
    if orientation.is_identity() {
        return Some(DisplayPixelSource::new(image.pixels(), ImageOrientation::Normal));
    }
    match render.oriented_image(image_revision, image.pixels().size(), orientation) {
        Some(pixels) => Some(DisplayPixelSource::new(pixels, ImageOrientation::Normal)),
        None => Some(DisplayPixelSource::new(image.pixels(), orientation)),
    }
}

/// The pixels the shown image is drawn from (see [`display_pixels`]).
pub open spec fn drawn_pixels(
    state: ImageState,
    user_rotation: ImageRotation,
    image_revision: u64,
    oriented: Option<OrientedImageCache>,
) -> Option<PixelImage> {
    match state {
        ImageState::Empty => None,
        ImageState::Loaded(image) => {
            let orientation = image.spec_metadata().exif_orientation().then_rotation(user_rotation);
            if orientation.is_identity() {
                Some(image.spec_pixels())
            } else {
                match oriented {
                    Some(cache) => if oriented_matches(cache, needed_key(image_revision, image.spec_pixels(), orientation)) {
                        Some(*cache.pixels)
                    } else {
                        None
                    },
                    None => None,
                }
            }
        },
    }
}

/// Whether a copy of `size` in `format` fits in one cache entry.
pub open spec fn fits_entry(size: ImageSize, format: PixelFormat, max_entry_bytes: usize) -> bool {
    pixel_byte_len_spec(size, format) matches Some(bytes) && bytes <= max_entry_bytes
}

/// Whether the cached scaled copy is the one made for these values.
pub open spec fn scaled_copy_is(
    scaled: Option<ScaledImageCache>,
    image_revision: u64,
    orientation: ImageOrientation,
    target: ImageSize,
    quality: ScalingQuality,
) -> bool {
    scaled matches Some(cache) && cache.key.image_revision() == image_revision && cache.key.orientation() == orientation
        && cache.key.target_size() == target && cache.key.quality() == quality
}

/// What refreshing the scaled copy did: whether the scaled copy is the one
/// to draw (the display pixels otherwise), whether making it was put off,
/// and whether a new copy was kept (the memory policy must then be applied
/// again).
#[derive(Debug, Clone, Copy, PartialEq, Eq, Structural)]
pub struct ScaledCopyUpdate {
    pub use_scaled: bool,
    pub deferred: bool,
    pub stored: bool,
}

/// Keeps the scaled copy the render of the shown image needs at
/// `display_size` (see [`cache_target_size`]), after the display pixels were
/// prepared. Nothing when there are no display pixels. When no copy is
/// needed, a cached one is dropped. A cached copy for the same values is
/// drawn. Otherwise the copy is put off when `defer` is asked and it would fit
/// in one cache entry; made, kept (used at `paint_count`) and drawn when it
/// fits and can be made; and in every other case the cached copy is dropped
/// and the display pixels drawn.
pub fn refresh_scaled_copy(
    render: &mut RenderCache,
    state: &ImageState,
    user_rotation: ImageRotation,
    image_revision: u64,
    display_size: ImageSize,
    quality: ScalingQuality,
    defer: bool,
    max_entry_bytes: usize,
    paint_count: u64,
) -> (update: Option<ScaledCopyUpdate>)
    ensures
        final(render).oriented() == old(render).oriented(),
        match drawn_pixels(*state, user_rotation, image_revision, old(render).oriented()) {
            None => update is None && final(render).scaled() == old(render).scaled(),
            Some(p) => {
                let orientation = shown_orientation(*state, user_rotation)->0;
                match cache_target_size(p.spec_size(), display_size, quality) {
                    None => update == Some(ScaledCopyUpdate { use_scaled: false, deferred: false, stored: false })
                        && final(render).scaled() is None,
                    Some(t) => if scaled_copy_is(old(render).scaled(), image_revision, orientation, t, quality) {
                        update == Some(ScaledCopyUpdate { use_scaled: true, deferred: false, stored: false })
                            && final(render).scaled() == old(render).scaled()
                    } else if defer && fits_entry(t, p.pixel_format(), max_entry_bytes) {
                        update == Some(ScaledCopyUpdate { use_scaled: false, deferred: true, stored: false })
                            && final(render).scaled() is None
                    } else if !fits_entry(t, p.pixel_format(), max_entry_bytes) {
                        update == Some(ScaledCopyUpdate { use_scaled: false, deferred: false, stored: false })
                            && final(render).scaled() is None
                    } else {
                        ||| (update == Some(ScaledCopyUpdate { use_scaled: true, deferred: false, stored: true })
                            && scaled_copy_is(final(render).scaled(), image_revision, orientation, t, quality)
                            && resampled(p, t, filter_for(quality), final(render).scaled()->0.pixels)
                            && final(render).scaled()->0.last_used == paint_count)
                        ||| (update == Some(ScaledCopyUpdate { use_scaled: false, deferred: false, stored: false })
                            && final(render).scaled() is None && !(!(p is Bgra8) && p.is_valid() && resize_of_fits(p, t)))
                    },
                }
            },
        },
{
    let orientation = match current_display_orientation(state, user_rotation) {
        Some(orientation) => orientation,
        None => return None,
    };
    let (buffer_size, format) = match display_pixels(state, user_rotation, image_revision, render) {
        Some(pixels) => (pixels.size(), pixels.pixel_format()),
        None => return None,
    };
    let key = match scaling_cache_key_for_render(image_revision, orientation, buffer_size, display_size, quality) {
        Some(key) => key,
        None => {
            render.clear_scaled();
            return Some(ScaledCopyUpdate { use_scaled: false, deferred: false, stored: false });
        },
    };
    let mut deferred = false;
    let mut stored = false;
    proof {
        if let Some(cached) = old(render).scaled() {
            ScalingCacheKey::lemma_eq(cached.key, key);
        }
    }
    if should_rebuild_scaling_cache(render.scaled_key(), key) {
        let fits = match key.target_size().pixel_byte_len(format) {
            Some(bytes) => bytes <= max_entry_bytes,
            None => false,
        };
        if defer && fits {
            deferred = true;
        } else {
            let scaled = if fits {
                match display_pixels(state, user_rotation, image_revision, render) {
                    Some(source) => if resize_of_source_fits(source, key.target_size()) {
                        resample_display_pixels(source, key.target_size(), key.quality())
                    } else {
                        None
                    },
                    None => None,
                }
            } else {
                None
            };
            match scaled {
                Some(scaled) => {
                    render.store_scaled_image(key, scaled, paint_count);
                    stored = true;
                },
                None => render.clear_scaled(),
            }
        }
    }
    proof {
        if let Some(cached) = render.scaled() {
            ScalingCacheKey::lemma_eq(cached.key, key);
        }
    }
    if render.scaled_image(key).is_some() {
        return Some(ScaledCopyUpdate { use_scaled: true, deferred, stored });
    }
    render.clear_scaled();
    Some(ScaledCopyUpdate { use_scaled: false, deferred, stored })
}

} // verus!

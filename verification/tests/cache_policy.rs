use j3pic::display::{display_pixels, prepare_display_pixels, refresh_scaled_copy, ScaledCopyUpdate};
use j3pic::cache_policy::{
    current_display_orientation, current_image_byte_len, enforce_memory_policy, protected_oriented_image_cache_key,
};
use j3pic::export::SupportedImageFormat;
use j3pic::frame_cache::AnimationFrameCache;
use j3pic::geometry::{ImageOrientation, ImageRotation, ImageSize, ScalingQuality, ViewportSize};
use j3pic::loaded::{ImageMetadata, ImageState, LoadedImage};
use j3pic::memory::ImageMemoryPolicy;
use j3pic::pixels::{PixelImage, Rgba8Image};
use j3pic::preload_cache::NavigationPreloadCache;
use j3pic::render_cache::{OrientedImageCacheKey, RenderCache};
use j3pic::scaling::{ImageCacheSlot, MemoryCacheEntry, ScalingCacheKey};
use j3pic::settings::AnimationTimingSettings;

fn rgba(width: u32, height: u32) -> Rgba8Image {
    Rgba8Image::new(width, height, vec![1u8; (width * height * 4) as usize])
}

fn shown(width: u32, height: u32) -> ImageState {
    ImageState::Loaded(LoadedImage::new(
        rgba(width, height),
        ImageMetadata::new("shown.png".to_owned(), 1, SupportedImageFormat::Png),
    ))
}

struct Caches {
    render: RenderCache,
    frames: AnimationFrameCache,
    preloads: NavigationPreloadCache,
}

fn caches() -> Caches {
    let mut render = RenderCache::new();
    render.store_oriented_image(1, ImageSize::new(2, 1), ImageOrientation::Rotate180, PixelImage::from(rgba(2, 1)), 1);
    let key = ScalingCacheKey::new(1, ImageOrientation::Normal, ImageSize::new(1, 1), ScalingQuality::Balanced);
    render.store_scaled_image(key, PixelImage::from(rgba(1, 1)), 5);
    let mut frames = AnimationFrameCache::new();
    frames.store(0, rgba(1, 1), 64, 2);
    frames.store(1, rgba(1, 1), 64, 6);
    let mut preloads = NavigationPreloadCache::new();
    preloads.store(
        9,
        LoadedImage::new(rgba(1, 1), ImageMetadata::new("next.png".to_owned(), 1, SupportedImageFormat::Png)),
        ViewportSize::from_client_size(800, 600),
        ImageMemoryPolicy::defaults(),
        AnimationTimingSettings::defaults(),
        3,
    );
    Caches { render, frames, preloads }
}

fn remaining(caches: &Caches) -> Vec<MemoryCacheEntry> {
    let mut entries = Vec::new();
    caches.render.append_memory_entries(&mut entries, None);
    caches.frames.append_memory_entries(&mut entries);
    caches.preloads.append_memory_entries(&mut entries);
    entries
}

#[test]
fn policy_evicts_least_recently_used_entries_down_to_the_entry_count() {
    let mut c = caches();
    let state = shown(2, 1);
    let clear = enforce_memory_policy(
        &mut c.render,
        &mut c.frames,
        &mut c.preloads,
        &state,
        ImageRotation::Degrees0,
        1,
        0,
        ImageMemoryPolicy::defaults(),
    );
    assert!(!clear);
    assert_eq!(
        remaining(&c),
        vec![
            MemoryCacheEntry::new(ImageCacheSlot::ScaledImage, 4, 5),
            MemoryCacheEntry::new(ImageCacheSlot::AnimationFrame { frame_index: Some(1) }, 4, 6),
        ]
    );
}

#[test]
fn resident_animation_frames_are_evicted_first_and_reported() {
    let mut c = caches();
    let state = shown(2, 1);
    let clear = enforce_memory_policy(
        &mut c.render,
        &mut c.frames,
        &mut c.preloads,
        &state,
        ImageRotation::Degrees0,
        1,
        100,
        ImageMemoryPolicy::defaults(),
    );
    assert!(clear);
    assert_eq!(remaining(&c).len(), 2);
}

#[test]
fn the_oriented_copy_the_shown_image_needs_is_not_evicted() {
    let mut c = caches();
    let state = shown(2, 1);
    let key = protected_oriented_image_cache_key(&state, ImageRotation::Degrees180, 1);
    assert_eq!(key, Some(OrientedImageCacheKey::new(1, ImageSize::new(2, 1), ImageOrientation::Rotate180)));
    let clear = enforce_memory_policy(
        &mut c.render,
        &mut c.frames,
        &mut c.preloads,
        &state,
        ImageRotation::Degrees180,
        1,
        0,
        ImageMemoryPolicy::defaults(),
    );
    assert!(!clear);
    assert!(c.render.has_oriented_image());
    let mut entries = Vec::new();
    c.render.append_memory_entries(&mut entries, key);
    c.frames.append_memory_entries(&mut entries);
    c.preloads.append_memory_entries(&mut entries);
    assert_eq!(
        entries,
        vec![
            MemoryCacheEntry::new(ImageCacheSlot::ScaledImage, 4, 5),
            MemoryCacheEntry::new(ImageCacheSlot::AnimationFrame { frame_index: Some(1) }, 4, 6),
        ]
    );
}

#[test]
fn shown_image_orientation_and_size_come_from_the_image_state() {
    let state = shown(3, 2);
    assert_eq!(current_image_byte_len(&state), 24);
    assert_eq!(current_image_byte_len(&ImageState::Empty), 0);
    assert_eq!(current_display_orientation(&state, ImageRotation::Degrees90), Some(ImageOrientation::Rotate90));
    assert_eq!(current_display_orientation(&ImageState::Empty, ImageRotation::Degrees90), None);
    assert_eq!(protected_oriented_image_cache_key(&state, ImageRotation::Degrees0, 4), None);
    assert_eq!(protected_oriented_image_cache_key(&ImageState::Empty, ImageRotation::Degrees90, 4), None);
}

#[test]
fn upright_copy_is_made_once_and_drawn_from() {
    let state = shown(3, 2);
    let mut render = RenderCache::new();
    assert_eq!(display_pixels(&state, ImageRotation::Degrees90, 1, &render), None);
    assert_eq!(prepare_display_pixels(&state, ImageRotation::Degrees90, 1, &mut render, 7), Some(true));
    assert!(render.has_oriented_image());
    let drawn = display_pixels(&state, ImageRotation::Degrees90, 1, &render).expect("upright copy");
    assert_eq!(drawn.size(), ImageSize::new(2, 3));
    assert_eq!(prepare_display_pixels(&state, ImageRotation::Degrees90, 1, &mut render, 8), Some(false));
    assert_eq!(prepare_display_pixels(&state, ImageRotation::Degrees90, 2, &mut render, 9), Some(true));

    assert_eq!(prepare_display_pixels(&state, ImageRotation::Degrees0, 2, &mut render, 10), Some(false));
    assert!(!render.has_oriented_image());
    let drawn = display_pixels(&state, ImageRotation::Degrees0, 2, &render).expect("own pixels");
    assert_eq!(drawn.size(), ImageSize::new(3, 2));

    let key = ScalingCacheKey::new(2, ImageOrientation::Normal, ImageSize::new(1, 1), ScalingQuality::Nearest);
    render.store_scaled_image(key, PixelImage::from(rgba(1, 1)), 3);
    assert_eq!(prepare_display_pixels(&ImageState::Empty, ImageRotation::Degrees0, 2, &mut render, 11), None);
    assert!(!render.has_scaled_image());
}

#[test]
fn scaled_copy_is_made_reused_put_off_and_dropped() {
    let state = shown(100, 100);
    let mut render = RenderCache::new();
    let max = ImageMemoryPolicy::defaults().max_cache_entry_bytes();
    let refresh = |render: &mut RenderCache, size: u32, quality: ScalingQuality, defer: bool, paint: u64| {
        refresh_scaled_copy(render, &state, ImageRotation::Degrees0, 1, ImageSize::new(size, size), quality, defer, max, paint)
    };

    let made = refresh(&mut render, 50, ScalingQuality::Balanced, false, 1);
    assert_eq!(made, Some(ScaledCopyUpdate { use_scaled: true, deferred: false, stored: true }));
    assert_eq!(render.scaled_key().map(|key| key.target_size()), Some(ImageSize::new(64, 64)));

    let reused = refresh(&mut render, 52, ScalingQuality::Balanced, false, 2);
    assert_eq!(reused, Some(ScaledCopyUpdate { use_scaled: true, deferred: false, stored: false }));

    let put_off = refresh(&mut render, 30, ScalingQuality::Balanced, true, 3);
    assert_eq!(put_off, Some(ScaledCopyUpdate { use_scaled: false, deferred: true, stored: false }));
    assert!(!render.has_scaled_image());

    let resumed = refresh(&mut render, 30, ScalingQuality::Balanced, false, 4);
    assert_eq!(resumed, Some(ScaledCopyUpdate { use_scaled: true, deferred: false, stored: true }));
    assert_eq!(render.scaled_key().map(|key| key.target_size()), Some(ImageSize::new(32, 32)));

    let nearest = refresh(&mut render, 30, ScalingQuality::Nearest, false, 5);
    assert_eq!(nearest, Some(ScaledCopyUpdate { use_scaled: false, deferred: false, stored: false }));
    assert!(!render.has_scaled_image());

    let actual = refresh(&mut render, 100, ScalingQuality::HighQuality, false, 6);
    assert_eq!(actual, Some(ScaledCopyUpdate { use_scaled: false, deferred: false, stored: false }));

    let empty = refresh_scaled_copy(&mut render, &ImageState::Empty, ImageRotation::Degrees0, 1, ImageSize::new(5, 5), ScalingQuality::Balanced, false, max, 7);
    assert_eq!(empty, None);
}

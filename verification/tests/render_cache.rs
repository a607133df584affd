use std::sync::Arc;

use j3pic::geometry::{ImageOrientation, ImageSize, PixelFormat, ScalingQuality};
use j3pic::pixels::PixelImage;
use j3pic::render_cache::{OrientedImageCacheKey, RenderCache};
use j3pic::scaling::{ImageCacheSlot, MemoryCacheEntry, ScalingCacheKey};

fn rgba(width: u32, height: u32) -> PixelImage {
    let len = (width * height * 4) as usize;
    PixelImage::new(width, height, vec![7u8; len], PixelFormat::Rgba8)
}

#[test]
fn oriented_copy_is_found_only_for_its_key() {
    let mut cache = RenderCache::new();
    let source = ImageSize::new(4, 2);
    assert!(cache.oriented_image_needs_rebuild(1, source, ImageOrientation::Rotate90));
    cache.store_oriented_image(1, source, ImageOrientation::Rotate90, rgba(2, 4), 5);
    assert!(!cache.oriented_image_needs_rebuild(1, source, ImageOrientation::Rotate90));
    assert!(cache.oriented_image_needs_rebuild(2, source, ImageOrientation::Rotate90));
    assert!(cache.oriented_image_needs_rebuild(1, source, ImageOrientation::Rotate180));

    let found = cache.oriented_image(1, source, ImageOrientation::Rotate90).unwrap();
    assert_eq!(found.size(), ImageSize::new(2, 4));
    assert!(cache.oriented_image(2, source, ImageOrientation::Rotate90).is_none());
    let shared = cache.shared_oriented_image(1, source, ImageOrientation::Rotate90).unwrap();
    assert_eq!(Arc::strong_count(&shared), 2);
}

#[test]
fn oriented_copy_of_the_wrong_size_is_not_used() {
    let mut cache = RenderCache::new();
    let source = ImageSize::new(4, 2);
    cache.store_oriented_image(1, source, ImageOrientation::Rotate90, rgba(4, 2), 5);
    assert!(!cache.oriented_image_needs_rebuild(1, source, ImageOrientation::Rotate90));
    let key = OrientedImageCacheKey::new(1, source, ImageOrientation::Rotate90);
    assert_eq!(key.display_size(), ImageSize::new(2, 4));
    assert!(cache.oriented_image_by_key(key).is_none());
    assert!(cache.matching_oriented_image_by_key(key).is_none());
}

#[test]
fn scaled_copy_is_found_only_for_its_key() {
    let mut cache = RenderCache::default();
    let key = ScalingCacheKey::new(3, ImageOrientation::Normal, ImageSize::new(2, 2), ScalingQuality::Balanced);
    let other = ScalingCacheKey::new(4, ImageOrientation::Normal, ImageSize::new(2, 2), ScalingQuality::Balanced);
    assert_eq!(cache.scaled_key(), None);
    cache.store_scaled_image(key, rgba(2, 2), 9);
    assert_eq!(cache.scaled_key(), Some(key));
    assert_eq!(cache.scaled_image(key).unwrap().last_used, 9);
    assert!(cache.scaled_image(other).is_none());
}

#[test]
fn memory_entries_skip_the_protected_oriented_copy() {
    let mut cache = RenderCache::new();
    let source = ImageSize::new(2, 1);
    cache.store_oriented_image(1, source, ImageOrientation::Rotate90, rgba(1, 2), 4);
    let key = ScalingCacheKey::new(1, ImageOrientation::Rotate90, ImageSize::new(1, 1), ScalingQuality::Nearest);
    cache.store_scaled_image(key, rgba(1, 1), 6);

    let mut entries = vec![MemoryCacheEntry::new(ImageCacheSlot::AnimationFrame { frame_index: Some(0) }, 1, 1)];
    cache.append_memory_entries(&mut entries, None);
    assert_eq!(
        entries,
        vec![
            MemoryCacheEntry::new(ImageCacheSlot::AnimationFrame { frame_index: Some(0) }, 1, 1),
            MemoryCacheEntry::new(ImageCacheSlot::OrientedImage, 8, 4),
            MemoryCacheEntry::new(ImageCacheSlot::ScaledImage, 4, 6),
        ]
    );

    let mut protected = Vec::new();
    let oriented_key = OrientedImageCacheKey::new(1, source, ImageOrientation::Rotate90);
    cache.append_memory_entries(&mut protected, Some(oriented_key));
    assert_eq!(protected, vec![MemoryCacheEntry::new(ImageCacheSlot::ScaledImage, 4, 6)]);
}

#[test]
fn eviction_drops_only_the_named_copy() {
    let mut cache = RenderCache::new();
    let source = ImageSize::new(1, 1);
    cache.store_oriented_image(1, source, ImageOrientation::FlipHorizontal, rgba(1, 1), 1);
    let key = ScalingCacheKey::new(1, ImageOrientation::FlipHorizontal, source, ScalingQuality::HighQuality);
    cache.store_scaled_image(key, rgba(1, 1), 2);

    cache.evict(ImageCacheSlot::NavigationPreload { path_key: 3 });
    assert!(cache.has_oriented_image() && cache.has_scaled_image());
    cache.evict(ImageCacheSlot::ScaledImage);
    assert!(cache.has_oriented_image() && !cache.has_scaled_image());
    cache.evict(ImageCacheSlot::OrientedImage);
    assert!(!cache.has_oriented_image());

    cache.store_scaled_image(key, rgba(1, 1), 2);
    cache.clear_scaled();
    assert!(!cache.has_scaled_image());
    cache.store_oriented_image(1, source, ImageOrientation::FlipHorizontal, rgba(1, 1), 1);
    cache.store_scaled_image(key, rgba(1, 1), 2);
    cache.clear_oriented();
    assert!(!cache.has_oriented_image() && cache.has_scaled_image());
    cache.clear_all();
    assert!(!cache.has_oriented_image() && !cache.has_scaled_image());
}

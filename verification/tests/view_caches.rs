use j3pic::export::SupportedImageFormat;
use j3pic::frame_cache::AnimationFrameCache;
use j3pic::geometry::ViewportSize;
use j3pic::loaded::{ImageMetadata, LoadedImage};
use j3pic::memory::ImageMemoryPolicy;
use j3pic::pixels::Rgba8Image;
use j3pic::preload_cache::NavigationPreloadCache;
use j3pic::scaling::{ImageCacheSlot, MemoryCacheEntry};
use j3pic::settings::AnimationTimingSettings;

fn frame(width: u32, height: u32, value: u8) -> Rgba8Image {
    Rgba8Image::new(width, height, vec![value; (width * height * 4) as usize])
}

fn loaded(path: &str, width: u32) -> LoadedImage {
    LoadedImage::new(
        frame(width, 1, 1),
        ImageMetadata::new(path.to_owned(), 10, SupportedImageFormat::Png),
    )
}

#[test]
fn frame_cache_keeps_one_copy_per_frame_and_skips_oversized_frames() {
    let mut cache = AnimationFrameCache::new();
    cache.store(0, frame(1, 1, 1), 64, 1);
    cache.store(1, frame(2, 1, 2), 64, 2);
    cache.store(0, frame(1, 1, 3), 64, 3);
    assert_eq!(cache.len(), 2);
    cache.store(2, frame(4, 4, 4), 63, 4);
    assert_eq!(cache.len(), 2);

    let mut entries = Vec::new();
    cache.append_memory_entries(&mut entries);
    assert_eq!(
        entries,
        vec![
            MemoryCacheEntry::new(ImageCacheSlot::AnimationFrame { frame_index: Some(1) }, 8, 2),
            MemoryCacheEntry::new(ImageCacheSlot::AnimationFrame { frame_index: Some(0) }, 4, 3),
        ]
    );

    let taken = cache.take(0).expect("frame 0 is cached");
    assert_eq!(taken.pixels(), &[3u8, 3, 3, 3][..]);
    assert_eq!(cache.len(), 1);
    assert!(cache.take(0).is_none());
    cache.evict(1);
    assert_eq!(cache.len(), 0);
    cache.store(5, frame(1, 1, 5), 4, 6);
    cache.clear();
    assert_eq!(cache.len(), 0);
}

#[test]
fn frame_cache_take_moves_the_last_frame_into_the_gap() {
    let mut cache = AnimationFrameCache::new();
    for index in 0..3 {
        cache.store(index, frame(1, 1, index as u8), 4, index as u64);
    }
    assert!(cache.take(0).is_some());
    let mut entries = Vec::new();
    cache.append_memory_entries(&mut entries);
    assert_eq!(
        entries,
        vec![
            MemoryCacheEntry::new(ImageCacheSlot::AnimationFrame { frame_index: Some(2) }, 4, 2),
            MemoryCacheEntry::new(ImageCacheSlot::AnimationFrame { frame_index: Some(1) }, 4, 1),
        ]
    );
}

#[test]
fn preload_cache_replaces_the_entry_for_the_same_path_and_key() {
    let viewport = ViewportSize::from_client_size(800, 600);
    let policy = ImageMemoryPolicy::defaults();
    let timing = AnimationTimingSettings::defaults();
    let mut cache = NavigationPreloadCache::new();
    cache.store(7, loaded("a.png", 1), viewport, policy, timing, 1);
    cache.store(8, loaded("b.png", 1), viewport, policy, timing, 2);
    cache.store(7, loaded("a.png", 2), viewport, policy, timing, 3);
    assert_eq!(cache.len(), 2);

    let mut entries = Vec::new();
    cache.append_memory_entries(&mut entries);
    assert_eq!(
        entries,
        vec![
            MemoryCacheEntry::new(ImageCacheSlot::NavigationPreload { path_key: 7 }, 8, 3),
            MemoryCacheEntry::new(ImageCacheSlot::NavigationPreload { path_key: 8 }, 4, 2),
        ]
    );

    assert!(cache.has_current("a.png", viewport, policy, timing));
    assert!(!cache.has_current("a.png", ViewportSize::from_client_size(640, 480), policy, timing));
    assert!(!cache.has_current("c.png", viewport, policy, timing));
}

#[test]
fn preload_cache_hands_out_only_images_decoded_for_the_current_settings() {
    let viewport = ViewportSize::from_client_size(800, 600);
    let policy = ImageMemoryPolicy::defaults();
    let timing = AnimationTimingSettings::defaults();
    let mut cache = NavigationPreloadCache::new();
    cache.store(1, loaded("a.png", 1), viewport, policy, timing, 1);
    cache.store(2, loaded("b.png", 1), ViewportSize::from_client_size(10, 10), policy, timing, 2);

    let image = cache.take_current("a.png", viewport, policy, timing).expect("current preload");
    assert_eq!(image.metadata().path(), "a.png");
    assert_eq!(cache.len(), 1);
    assert!(cache.take_current("b.png", viewport, policy, timing).is_none());
    assert_eq!(cache.len(), 0);
    assert!(cache.take_current("a.png", viewport, policy, timing).is_none());
}

#[test]
fn preload_cache_evicts_by_key_and_clears() {
    let viewport = ViewportSize::from_client_size(800, 600);
    let policy = ImageMemoryPolicy::defaults();
    let timing = AnimationTimingSettings::defaults();
    let mut cache = NavigationPreloadCache::new();
    cache.store(1, loaded("a.png", 1), viewport, policy, timing, 1);
    cache.store(2, loaded("b.png", 1), viewport, policy, timing, 2);
    cache.store(1, loaded("c.png", 1), viewport, policy, timing, 3);
    assert_eq!(cache.len(), 3);
    cache.evict(1);
    assert_eq!(cache.len(), 1);
    assert!(cache.has_current("b.png", viewport, policy, timing));
    cache.clear();
    assert_eq!(cache.len(), 0);
}

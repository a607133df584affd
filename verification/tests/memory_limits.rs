use j3pic::config::parse_config_values;
use j3pic::export::SupportedImageFormat;
use j3pic::geometry::{ImageSize, ViewportSize};
use j3pic::memory::{
    is_image_too_large, is_large_image, is_meaningfully_smaller_preview, memory_cache_slots_to_evict,
    mib_to_bytes, preview_bounds_for_viewport, should_load_static_preview_first, should_retain_full_resolution,
    ImageMemoryPolicy, MemoryPolicySettings,
};
use j3pic::scaling::{ImageCacheSlot, MemoryCacheEntry};

#[test]
fn large_image_policy_uses_pixels_and_retained_full_resolution_budget() {
    let policy = ImageMemoryPolicy::defaults();

    assert!(!is_large_image(ImageSize::new(4000, 3000), policy));
    assert!(is_large_image(ImageSize::new(8000, 4000), policy));
    assert!(should_retain_full_resolution(ImageSize::new(4000, 3000), policy));
    assert!(!should_retain_full_resolution(ImageSize::new(8000, 5000), policy));
    assert!(is_image_too_large(ImageSize::new(20_000, 10_000), policy));
}

#[test]
fn large_image_classification_separates_preview_retain_and_reject_cases() {
    let policy = ImageMemoryPolicy::defaults();
    let preview_with_lazy_full_resolution = ImageSize::new(7000, 4000);
    let preview_only = ImageSize::new(9000, 5000);
    let rejected = ImageSize::new(20_000, 10_000);

    assert!(is_large_image(preview_with_lazy_full_resolution, policy));
    assert!(!is_image_too_large(preview_with_lazy_full_resolution, policy));
    assert!(should_retain_full_resolution(preview_with_lazy_full_resolution, policy));

    assert!(is_large_image(preview_only, policy));
    assert!(!is_image_too_large(preview_only, policy));
    assert!(!should_retain_full_resolution(preview_only, policy));

    assert!(is_image_too_large(rejected, policy));
    assert!(rejected.pixel_count().expect("pixel count") > policy.max_image_pixels());
}

#[test]
fn large_image_classification_uses_exclusive_thresholds_and_byte_budget() {
    let policy = ImageMemoryPolicy::defaults();
    let exactly_pixel_threshold = ImageSize::new(6000, 4000);
    let exactly_full_resolution_budget = ImageSize::new(8192, 4096);
    let over_full_resolution_budget = ImageSize::new(8193, 4096);

    assert_eq!(exactly_pixel_threshold.pixel_count(), Some(policy.large_image_pixel_threshold()));
    assert!(!is_large_image(exactly_pixel_threshold, policy));

    assert_eq!(exactly_full_resolution_budget.rgba8_byte_len(), Some(policy.max_full_resolution_bytes()));
    assert!(is_large_image(exactly_full_resolution_budget, policy));
    assert!(should_retain_full_resolution(exactly_full_resolution_budget, policy));

    assert!(is_large_image(over_full_resolution_budget, policy));
    assert!(!should_retain_full_resolution(over_full_resolution_budget, policy));
}

#[test]
fn image_memory_calculations_reject_byte_length_overflow() {
    let size = ImageSize::new(u32::MAX, u32::MAX);

    assert_eq!(size.pixel_count(), Some(u64::from(u32::MAX) * u64::from(u32::MAX)));
    assert_eq!(size.rgba8_byte_len(), None);
    assert!(is_large_image(size, ImageMemoryPolicy::defaults()));
    assert!(is_image_too_large(size, ImageMemoryPolicy::defaults()));
}

#[test]
fn memory_cache_eviction_uses_lru_count_entry_and_total_budgets() {
    let policy = ImageMemoryPolicy::defaults();
    let entries = [
        MemoryCacheEntry::new(ImageCacheSlot::OrientedImage, 48 * 1024 * 1024, 3),
        MemoryCacheEntry::new(ImageCacheSlot::ScaledImage, 80 * 1024 * 1024, 2),
        MemoryCacheEntry::new(ImageCacheSlot::AnimationFrame { frame_index: Some(7) }, 24 * 1024 * 1024, 1),
    ];

    let evicted = memory_cache_slots_to_evict(160 * 1024 * 1024, &entries, policy);

    assert_eq!(
        evicted,
        vec![ImageCacheSlot::AnimationFrame { frame_index: Some(7) }, ImageCacheSlot::ScaledImage]
    );
}

#[test]
fn memory_cache_eviction_drops_oversized_entry_even_when_total_fits() {
    let policy = ImageMemoryPolicy::defaults();
    let entries = [
        MemoryCacheEntry::new(ImageCacheSlot::OrientedImage, policy.max_cache_entry_bytes() + 1, 10),
        MemoryCacheEntry::new(ImageCacheSlot::ScaledImage, 1, 1),
    ];

    let evicted = memory_cache_slots_to_evict(0, &entries, policy);

    assert_eq!(evicted, vec![ImageCacheSlot::OrientedImage]);
}

#[test]
fn app_config_range_correction_normalizes_dependent_memory_limits() {
    let values = parse_config_values(
        "\
version=1
large_image_pixel_threshold=900
max_image_pixels=100
preview_max_pixels=500
max_transient_decode_mib=64
max_full_resolution_mib=512
max_resident_mib=32
max_cache_entry_mib=64
",
    )
    .expect("config parses with normalized relationships")
    .expect("config has entries");

    let memory = values.memory_policy();
    assert_eq!(memory.max_image_pixels(), 100);
    assert_eq!(memory.large_image_pixel_threshold(), 100);
    assert_eq!(memory.preview_max_pixels(), 100);
    assert_eq!(memory.max_transient_decode_mib(), 64);
    assert_eq!(memory.max_full_resolution_mib(), 64);
    assert_eq!(memory.max_resident_mib(), 32);
    assert_eq!(memory.max_cache_entry_mib(), 32);
}

#[test]
fn memory_settings_drive_policy_decisions() {
    let mut memory = MemoryPolicySettings::default();
    memory.set_large_image_pixel_threshold(100);
    memory.set_max_image_pixels(1_000);
    memory.set_max_full_resolution_mib(1);
    let policy = memory.image_memory_policy();
    assert!(is_large_image(ImageSize::new(11, 10), policy));
    assert!(is_image_too_large(ImageSize::new(40, 30), policy));
    assert_eq!(policy.max_full_resolution_bytes(), 1024 * 1024);
}

#[test]
fn default_settings_give_default_policy() {
    assert_eq!(MemoryPolicySettings::default().image_memory_policy(), ImageMemoryPolicy::defaults());
    assert_eq!(ImageMemoryPolicy::default(), ImageMemoryPolicy::defaults());
    let policy = ImageMemoryPolicy::defaults();
    assert_eq!(policy.max_transient_decode_bytes(), 640 * 1024 * 1024);
    assert_eq!(policy.fallback_viewport(), ImageSize::new(1920, 1080));
    assert_eq!(policy.max_cache_entries(), 2);
}

#[test]
fn settings_setters_clamp_and_keep_dependent_limits_ordered() {
    let mut memory = MemoryPolicySettings::defaults();
    memory.set_max_image_pixels(0);
    assert_eq!(memory.max_image_pixels(), 1);
    assert_eq!(memory.large_image_pixel_threshold(), 1);
    assert_eq!(memory.preview_max_pixels(), 1);

    memory.set_max_image_pixels(5_000_000_000);
    assert_eq!(memory.max_image_pixels(), 1_000_000_000);
    assert_eq!(memory.large_image_pixel_threshold(), 1);

    memory.set_large_image_pixel_threshold(2_000_000_000);
    assert_eq!(memory.large_image_pixel_threshold(), 1_000_000_000);

    memory.set_max_resident_mib(16);
    assert_eq!(memory.max_cache_entry_mib(), 16);
    memory.set_max_cache_entry_mib(100);
    assert_eq!(memory.max_cache_entry_mib(), 16);

    memory.set_preview_oversample(0);
    assert_eq!(memory.preview_oversample(), 1);
    memory.set_fallback_viewport_width(100_000);
    assert_eq!(memory.fallback_viewport_width(), 16_384);
    memory.set_max_cache_entries(1000);
    assert_eq!(memory.max_cache_entries(), 64);
    memory.set_max_animation_metadata_frames(0);
    assert_eq!(memory.max_animation_metadata_frames(), 1);
}

#[test]
fn eviction_keeps_at_most_the_allowed_entry_count() {
    let policy = MemoryPolicySettings::defaults().image_memory_policy();
    let entries = [
        MemoryCacheEntry::new(ImageCacheSlot::ScaledImage, 10, 5),
        MemoryCacheEntry::new(ImageCacheSlot::OrientedImage, 10, 5),
        MemoryCacheEntry::new(ImageCacheSlot::NavigationPreload { path_key: 9 }, 20, 5),
        MemoryCacheEntry::new(ImageCacheSlot::AnimationFrame { frame_index: None }, 10, 7),
    ];
    let evicted = memory_cache_slots_to_evict(0, &entries, policy);
    // Same last use: the larger first, then in the given order.
    assert_eq!(evicted, vec![ImageCacheSlot::NavigationPreload { path_key: 9 }, ImageCacheSlot::ScaledImage]);
    assert!(entries.len() - evicted.len() <= policy.max_cache_entries());
}

#[test]
fn eviction_with_saturating_base_evicts_everything() {
    let policy = ImageMemoryPolicy::defaults();
    let entries = [
        MemoryCacheEntry::new(ImageCacheSlot::ScaledImage, 10, 1),
        MemoryCacheEntry::new(ImageCacheSlot::OrientedImage, 10, 2),
    ];
    let evicted = memory_cache_slots_to_evict(usize::MAX, &entries, policy);
    assert_eq!(evicted, vec![ImageCacheSlot::ScaledImage, ImageCacheSlot::OrientedImage]);
}

#[test]
fn static_preview_is_loaded_first_for_large_images_and_small_jpeg_previews() {
    let policy = ImageMemoryPolicy::defaults();
    let viewport = ViewportSize::from_client_size(800, 600);
    assert!(should_load_static_preview_first(
        SupportedImageFormat::Png,
        ImageSize::new(8000, 4000),
        viewport,
        ImageSize::new(1600, 800),
        policy
    ));
    assert!(should_load_static_preview_first(
        SupportedImageFormat::Jpeg,
        ImageSize::new(4000, 3000),
        viewport,
        ImageSize::new(1600, 1200),
        policy
    ));
    assert!(!should_load_static_preview_first(
        SupportedImageFormat::Png,
        ImageSize::new(4000, 3000),
        viewport,
        ImageSize::new(1600, 1200),
        policy
    ));
    assert!(!should_load_static_preview_first(
        SupportedImageFormat::Jpeg,
        ImageSize::new(4000, 3000),
        ViewportSize::empty(),
        ImageSize::new(1600, 1200),
        policy
    ));
    assert!(!is_meaningfully_smaller_preview(ImageSize::new(100, 100), ImageSize::new(80, 80)));
    assert!(is_meaningfully_smaller_preview(ImageSize::new(100, 100), ImageSize::new(70, 70)));
    assert!(!is_meaningfully_smaller_preview(ImageSize::new(100, 100), ImageSize::new(0, 70)));
}

#[test]
fn preview_bounds_use_oversampled_viewport_or_fallback() {
    let policy = ImageMemoryPolicy::defaults();
    assert_eq!(
        preview_bounds_for_viewport(ViewportSize::from_client_size(1000, 500), policy),
        ImageSize::new(2000, 1000)
    );
    assert_eq!(preview_bounds_for_viewport(ViewportSize::empty(), policy), ImageSize::new(1920, 1080));
    assert_eq!(
        preview_bounds_for_viewport(ViewportSize::from_client_size(i32::MAX, 1), policy),
        ImageSize::new(4_294_967_294, 2)
    );
}

#[test]
fn mebibytes_convert_to_bytes() {
    assert_eq!(mib_to_bytes(0), 0);
    assert_eq!(mib_to_bytes(3), 3 * 1024 * 1024);
    assert_eq!(mib_to_bytes(4096), 4096 * 1024 * 1024);
}

#[test]
fn nothing_is_evicted_within_every_limit_and_the_kept_total_fits_the_budget() {
    let policy = ImageMemoryPolicy::defaults();
    let small = [
        MemoryCacheEntry::new(ImageCacheSlot::OrientedImage, 1024, 2),
        MemoryCacheEntry::new(ImageCacheSlot::ScaledImage, 2048, 1),
    ];
    assert!(memory_cache_slots_to_evict(4096, &small, policy).is_empty());

    let entry = policy.max_cache_entry_bytes();
    let large = [
        MemoryCacheEntry::new(ImageCacheSlot::OrientedImage, entry, 3),
        MemoryCacheEntry::new(ImageCacheSlot::ScaledImage, entry, 2),
        MemoryCacheEntry::new(ImageCacheSlot::AnimationFrame { frame_index: Some(1) }, entry, 1),
    ];
    let base = policy.max_resident_bytes() - entry;
    let evicted = memory_cache_slots_to_evict(base, &large, policy);
    let kept: usize = large.iter().filter(|e| !evicted.contains(&e.slot())).map(|e| e.bytes()).sum();
    assert!(evicted.len() == large.len() || base + kept <= policy.max_resident_bytes());
    assert!(!evicted.is_empty());
}

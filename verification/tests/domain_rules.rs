use std::path::{Path, PathBuf};

use j3pic::animation::{
    animation_state_after_home, animation_state_after_manual_step, animation_state_after_timer_tick,
    animation_state_after_toggle, animation_timer_interval_ms, AnimationFrameStepDirection, AnimationLoopPolicy,
    AnimationPlayback, AnimationPlaybackState,
};
use j3pic::commands::{
    command_for_key_input, command_for_key_input_with_context, AnimationCommand, Command, CommandContext,
    ImageNavigationDirection, KeyCode, KeyInput, KeyModifiers,
};
use j3pic::export::{
    clamp_export_quality, default_export_format_for_source_format, export_format_default_extension,
    export_format_display_name, export_format_extensions, export_format_for_extension, export_format_for_path,
    export_format_mime_type, export_path_with_format_extension, export_quality_range,
    export_size_from_height_preserving_aspect, export_size_from_width_preserving_aspect,
    first_supported_image_path, is_supported_image_path, standard_image_format_name, suggested_export_path,
    suggested_export_path_with_suffix, supported_image_format_for_path, ExportAnimationPolicy, ExportFormat,
    ExportOptions, ExportOrientationPolicy, SupportedImageFormat,
};
use j3pic::folder::{navigation_index, navigation_index_with_settings, ImageFolder, MAX_IMAGE_FOLDER_SNAPSHOT_PATHS};
use j3pic::geometry::{
    display_orientation, ImageDisplayRect, ImageOrientation, ImageRotation, ImageSize, ScalingQuality,
    ViewportSize, WindowBounds,
};
use j3pic::info::{format_file_size, image_display_info_text, image_info_text};
use j3pic::loaded::{ImageMetadata, ImageState, LoadedImage};
use j3pic::pixels::{orient_rgba8_image, rotate_rgba8_image, Rgba8Image};
use j3pic::scaling::{
    is_stale_decode_generation, scaling_cache_key_for_render, scaling_cache_target_size,
    should_rebuild_scaling_cache, should_use_software_resampling, DecodeGeneration, ScalingCacheKey,
};
use j3pic::settings::{
    navigation_failure_policy, normalize_animation_frame_delay_ms,
    normalize_animation_frame_delay_ms_with_settings, AnimationTimingSettings, NavigationFailurePolicy,
    NavigationSettings, RgbColor, DEFAULT_ANIMATION_FRAME_DELAY_MS, MAX_ANIMATION_FRAME_DELAY_MS,
    MIN_ANIMATION_FRAME_DELAY_MS,
};

trait TestKeyInputModifiers {
    fn control(self) -> Self;
    fn shift(self) -> Self;
    fn alt(self) -> Self;
}

impl TestKeyInputModifiers for KeyInput {
    fn control(self) -> Self {
        let modifiers = self.modifiers();
        KeyInput::new(self.key(), KeyModifiers::new(true, modifiers.shift(), modifiers.alt()))
    }

    fn shift(self) -> Self {
        let modifiers = self.modifiers();
        KeyInput::new(self.key(), KeyModifiers::new(modifiers.control(), true, modifiers.alt()))
    }

    fn alt(self) -> Self {
        let modifiers = self.modifiers();
        KeyInput::new(self.key(), KeyModifiers::new(modifiers.control(), modifiers.shift(), true))
    }
}

fn key(key: KeyCode) -> KeyInput {
    KeyInput::new(key, KeyModifiers::none())
}

fn image_folder_file_names(folder: &ImageFolder) -> Vec<String> {
    folder
        .paths()
        .iter()
        .filter_map(|path| Path::new(path).file_name().and_then(|name| name.to_str()).map(str::to_owned))
        .collect()
}

fn numbered_rgba8_image_3x2() -> Rgba8Image {
    let pixels = (1u8..=6).flat_map(|id| [id, id, id, 255]).collect::<Vec<_>>();
    Rgba8Image::new(3, 2, pixels)
}

fn pixel_ids(image: &Rgba8Image) -> Vec<u8> {
    image.pixels().chunks_exact(4).map(|pixel| pixel[0]).collect()
}

#[test]
fn navigation_failure_policy_keeps_current_image_without_auto_skip() {
    let policy = navigation_failure_policy();

    assert_eq!(policy, NavigationFailurePolicy::KeepCurrentAndReport);
    assert!(!policy.auto_skips_failed_files());
    assert_eq!(policy.max_attempts_per_command(), 1);
}

#[test]
fn window_bounds_rejects_values_outside_persisted_range() {
    assert!(WindowBounds::new(-32768, 32767, 320, 240).is_some());
    assert!(WindowBounds::new(-32769, 0, 320, 240).is_none());
    assert!(WindowBounds::new(0, 32768, 320, 240).is_none());
    assert!(WindowBounds::new(0, 0, 319, 240).is_none());
    assert!(WindowBounds::new(0, 0, 320, 239).is_none());
    assert!(WindowBounds::new(0, 0, 32768, 240).is_none());
}

#[test]
fn client_size_clamps_negative_values_to_empty_edges() {
    let size = ViewportSize::from_client_size(-10, 320);

    assert_eq!(size.width(), 0);
    assert_eq!(size.height(), 320);
    assert!(size.is_empty());
}

#[test]
fn client_size_preserves_positive_dimensions() {
    let size = ViewportSize::from_client_size(800, 600);

    assert_eq!(size.width(), 800);
    assert_eq!(size.height(), 600);
    assert!(!size.is_empty());
}

#[test]
fn right_angle_rotation_updates_display_size() {
    let size = ImageSize::new(3, 2);

    assert_eq!(
        size.with_rotation(ImageRotation::Degrees0),
        ImageSize::new(3, 2)
    );
    assert_eq!(
        size.with_rotation(ImageRotation::Degrees90),
        ImageSize::new(2, 3)
    );
    assert_eq!(
        size.with_rotation(ImageRotation::Degrees180),
        ImageSize::new(3, 2)
    );
    assert_eq!(
        size.with_rotation(ImageRotation::Degrees270),
        ImageSize::new(2, 3)
    );
}

#[test]
fn exif_orientation_values_map_to_display_transforms() {
    let cases = [
        (1, ImageOrientation::Normal),
        (2, ImageOrientation::FlipHorizontal),
        (3, ImageOrientation::Rotate180),
        (4, ImageOrientation::FlipVertical),
        (5, ImageOrientation::Rotate90FlipHorizontal),
        (6, ImageOrientation::Rotate90),
        (7, ImageOrientation::Rotate270FlipHorizontal),
        (8, ImageOrientation::Rotate270),
    ];

    for (value, orientation) in cases {
        assert_eq!(ImageOrientation::from_exif_value(value), Some(orientation));
        assert_eq!(orientation.exif_value(), value);
    }
    assert_eq!(ImageOrientation::from_exif_value(0), None);
    assert_eq!(ImageOrientation::from_exif_value(9), None);
}

#[test]
fn image_size_with_orientation_swaps_only_transposed_orientations() {
    let size = ImageSize::new(3, 2);
    let cases = [
        (ImageOrientation::Normal, ImageSize::new(3, 2)),
        (ImageOrientation::FlipHorizontal, ImageSize::new(3, 2)),
        (ImageOrientation::Rotate180, ImageSize::new(3, 2)),
        (ImageOrientation::FlipVertical, ImageSize::new(3, 2)),
        (
            ImageOrientation::Rotate90FlipHorizontal,
            ImageSize::new(2, 3),
        ),
        (ImageOrientation::Rotate90, ImageSize::new(2, 3)),
        (
            ImageOrientation::Rotate270FlipHorizontal,
            ImageSize::new(2, 3),
        ),
        (ImageOrientation::Rotate270, ImageSize::new(2, 3)),
    ];

    for (orientation, expected) in cases {
        assert_eq!(
            size.with_orientation(orientation),
            expected,
            "{orientation:?}"
        );
    }
}

#[test]
fn user_rotation_is_composed_after_exif_orientation() {
    let clockwise_exif_values = [
        (1, 6),
        (2, 7),
        (3, 8),
        (4, 5),
        (5, 2),
        (6, 3),
        (7, 4),
        (8, 1),
    ];

    for (exif_value, expected_value) in clockwise_exif_values {
        let exif_orientation =
            ImageOrientation::from_exif_value(exif_value).expect("EXIF orientation");
        let expected =
            ImageOrientation::from_exif_value(expected_value).expect("expected orientation");

        assert_eq!(
            display_orientation(exif_orientation, ImageRotation::Degrees90),
            expected
        );
    }

    assert_eq!(
        display_orientation(ImageOrientation::Rotate90, ImageRotation::Degrees90),
        ImageOrientation::Rotate180
    );
    assert_eq!(
        display_orientation(ImageOrientation::FlipHorizontal, ImageRotation::Degrees270),
        ImageOrientation::Rotate90FlipHorizontal
    );
}

#[test]
fn display_orientation_matches_exif_then_manual_pixel_transform_for_all_cases() {
    let source = numbered_rgba8_image_3x2();
    let orientations = [
        ImageOrientation::Normal,
        ImageOrientation::FlipHorizontal,
        ImageOrientation::Rotate180,
        ImageOrientation::FlipVertical,
        ImageOrientation::Rotate90FlipHorizontal,
        ImageOrientation::Rotate90,
        ImageOrientation::Rotate270FlipHorizontal,
        ImageOrientation::Rotate270,
    ];
    let rotations = [
        ImageRotation::Degrees0,
        ImageRotation::Degrees90,
        ImageRotation::Degrees180,
        ImageRotation::Degrees270,
    ];

    for orientation in orientations {
        for rotation in rotations {
            let exif_then_rotation = rotate_rgba8_image(
                &orient_rgba8_image(&source, orientation).expect("EXIF-oriented image"),
                rotation,
            )
            .expect("rotated image");
            let composed =
                orient_rgba8_image(&source, display_orientation(orientation, rotation))
                    .expect("composed display image");

            assert_eq!(
                composed.size(),
                exif_then_rotation.size(),
                "{orientation:?} + {rotation:?}"
            );
            assert_eq!(
                pixel_ids(&composed),
                pixel_ids(&exif_then_rotation),
                "{orientation:?} + {rotation:?}"
            );
        }
    }
}

#[test]
fn rgba8_rotation_90_maps_pixels_clockwise() {
    let rotated = rotate_rgba8_image(&numbered_rgba8_image_3x2(), ImageRotation::Degrees90)
        .expect("rotated image");

    assert_eq!(rotated.size(), ImageSize::new(2, 3));
    assert_eq!(pixel_ids(&rotated), vec![4, 1, 5, 2, 6, 3]);
}

#[test]
fn rgba8_rotation_180_maps_pixels() {
    let rotated = rotate_rgba8_image(&numbered_rgba8_image_3x2(), ImageRotation::Degrees180)
        .expect("rotated image");

    assert_eq!(rotated.size(), ImageSize::new(3, 2));
    assert_eq!(pixel_ids(&rotated), vec![6, 5, 4, 3, 2, 1]);
}

#[test]
fn rgba8_rotation_270_maps_pixels_clockwise() {
    let rotated = rotate_rgba8_image(&numbered_rgba8_image_3x2(), ImageRotation::Degrees270)
        .expect("rotated image");

    assert_eq!(rotated.size(), ImageSize::new(2, 3));
    assert_eq!(pixel_ids(&rotated), vec![3, 6, 2, 5, 1, 4]);
}

#[test]
fn rgba8_orientation_maps_exif_1_through_8_pixels() {
    let cases = [
        (
            ImageOrientation::Normal,
            ImageSize::new(3, 2),
            vec![1, 2, 3, 4, 5, 6],
        ),
        (
            ImageOrientation::FlipHorizontal,
            ImageSize::new(3, 2),
            vec![3, 2, 1, 6, 5, 4],
        ),
        (
            ImageOrientation::Rotate180,
            ImageSize::new(3, 2),
            vec![6, 5, 4, 3, 2, 1],
        ),
        (
            ImageOrientation::FlipVertical,
            ImageSize::new(3, 2),
            vec![4, 5, 6, 1, 2, 3],
        ),
        (
            ImageOrientation::Rotate90FlipHorizontal,
            ImageSize::new(2, 3),
            vec![1, 4, 2, 5, 3, 6],
        ),
        (
            ImageOrientation::Rotate90,
            ImageSize::new(2, 3),
            vec![4, 1, 5, 2, 6, 3],
        ),
        (
            ImageOrientation::Rotate270FlipHorizontal,
            ImageSize::new(2, 3),
            vec![6, 3, 5, 2, 4, 1],
        ),
        (
            ImageOrientation::Rotate270,
            ImageSize::new(2, 3),
            vec![3, 6, 2, 5, 1, 4],
        ),
    ];

    for (orientation, expected_size, expected_pixels) in cases {
        let oriented =
            orient_rgba8_image(&numbered_rgba8_image_3x2(), orientation).expect("image");

        assert_eq!(oriented.size(), expected_size, "{orientation:?}");
        assert_eq!(pixel_ids(&oriented), expected_pixels, "{orientation:?}");
    }
}

#[test]
fn rgba8_orientation_rejects_invalid_pixel_buffer_without_panicking() {
    let invalid = Rgba8Image::new(2, 2, vec![0, 0, 0, 255]);

    assert_eq!(
        orient_rgba8_image(&invalid, ImageOrientation::Rotate90),
        None
    );
    assert_eq!(
        rotate_rgba8_image(&invalid, ImageRotation::Degrees180),
        None
    );
}

#[test]
fn rgba8_clone_shares_pixel_buffer() {
    let image = Rgba8Image::new(2, 1, vec![1, 2, 3, 4, 5, 6, 7, 8]);
    let cloned = image.clone();

    assert!(std::ptr::eq(image.pixels().as_ptr(), cloned.pixels().as_ptr()));
    assert_eq!(cloned.pixels(), image.pixels());
}

#[test]
fn display_rect_reports_positive_size() {
    let rect = ImageDisplayRect::new(10, 20, 300, 200);

    assert_eq!(rect.size(), Some(ImageSize::new(300, 200)));
    assert_eq!(
        ImageDisplayRect::new(0, 0, 0, 200).size(),
        None
    );
}

#[test]
fn scaling_cache_key_includes_display_orientation_target_size_and_quality() {
    let key = scaling_cache_key_for_render(
        7,
        ImageOrientation::Rotate90,
        ImageSize::new(1000, 800),
        ImageSize::new(501, 401),
        ScalingQuality::Balanced,
    )
    .expect("cache key");

    assert_eq!(key.image_revision(), 7);
    assert_eq!(key.orientation(), ImageOrientation::Rotate90);
    assert_eq!(key.target_size(), ImageSize::new(512, 416));
    assert_eq!(key.quality(), ScalingQuality::Balanced);
}

#[test]
fn scaling_cache_rebuilds_when_revision_orientation_target_or_quality_changes() {
    let base = scaling_cache_key_for_render(
        1,
        ImageOrientation::Normal,
        ImageSize::new(1000, 800),
        ImageSize::new(501, 401),
        ScalingQuality::Balanced,
    )
    .expect("base cache key");
    let same_bucket = scaling_cache_key_for_render(
        1,
        ImageOrientation::Normal,
        ImageSize::new(1000, 800),
        ImageSize::new(510, 408),
        ScalingQuality::Balanced,
    )
    .expect("same target bucket");
    let next_revision = ScalingCacheKey::new(
        base.image_revision() + 1,
        base.orientation(),
        base.target_size(),
        base.quality(),
    );
    let next_orientation = ScalingCacheKey::new(
        base.image_revision(),
        ImageOrientation::Rotate90,
        base.target_size(),
        base.quality(),
    );
    let next_target = scaling_cache_key_for_render(
        1,
        ImageOrientation::Normal,
        ImageSize::new(1000, 800),
        ImageSize::new(520, 420),
        ScalingQuality::Balanced,
    )
    .expect("next target bucket");
    let next_quality = scaling_cache_key_for_render(
        1,
        ImageOrientation::Normal,
        ImageSize::new(1000, 800),
        ImageSize::new(500, 400),
        ScalingQuality::HighQuality,
    )
    .expect("next quality");

    assert!(!should_rebuild_scaling_cache(Some(base), same_bucket));
    assert!(should_rebuild_scaling_cache(Some(base), next_revision));
    assert!(should_rebuild_scaling_cache(Some(base), next_orientation));
    assert!(should_rebuild_scaling_cache(Some(base), next_target));
    assert!(should_rebuild_scaling_cache(Some(base), next_quality));
    assert!(should_rebuild_scaling_cache(None, base));
}

#[test]
fn scaling_cache_target_skips_actual_size_nearest_and_small_balanced_changes() {
    let source_size = ImageSize::new(1000, 800);

    assert_eq!(
        scaling_cache_target_size(source_size, source_size, ScalingQuality::Balanced),
        None
    );
    assert_eq!(
        scaling_cache_target_size(
            source_size,
            ImageSize::new(500, 400),
            ScalingQuality::Nearest
        ),
        None
    );
    assert_eq!(
        scaling_cache_target_size(
            source_size,
            ImageSize::new(990, 792),
            ScalingQuality::Balanced
        ),
        None
    );
    assert_eq!(
        scaling_cache_target_size(
            source_size,
            ImageSize::new(970, 776),
            ScalingQuality::Balanced
        ),
        Some(ImageSize::new(976, 784))
    );
    assert_eq!(
        scaling_cache_target_size(
            ImageSize::new(20, 20),
            ImageSize::new(19, 19),
            ScalingQuality::Balanced
        ),
        None
    );
}

#[test]
fn software_resampling_policy_prefers_balanced_downscale_and_high_quality_changes() {
    let source_size = ImageSize::new(1000, 800);

    assert!(should_use_software_resampling(
        source_size,
        ImageSize::new(500, 400),
        ScalingQuality::Balanced
    ));
    assert!(!should_use_software_resampling(
        source_size,
        ImageSize::new(1200, 960),
        ScalingQuality::Balanced
    ));
    assert!(should_use_software_resampling(
        source_size,
        ImageSize::new(1200, 960),
        ScalingQuality::HighQuality
    ));
}

#[test]
fn decode_generation_marks_only_non_active_results_as_stale() {
    let first = DecodeGeneration::zero().next();
    let second = first.next();

    assert!(!is_stale_decode_generation(first, first));
    assert!(is_stale_decode_generation(second, first));
    assert_ne!(first.value(), second.value());
}

#[test]
fn animation_delay_normalization_clamps_zero_fast_and_extreme_values() {
    assert_eq!(
        normalize_animation_frame_delay_ms(0),
        DEFAULT_ANIMATION_FRAME_DELAY_MS
    );
    assert_eq!(
        normalize_animation_frame_delay_ms(1),
        MIN_ANIMATION_FRAME_DELAY_MS
    );
    assert_eq!(normalize_animation_frame_delay_ms(125), 125);
    assert_eq!(
        normalize_animation_frame_delay_ms(u32::MAX),
        MAX_ANIMATION_FRAME_DELAY_MS
    );
}

#[test]
fn animation_timing_settings_normalize_playback_delays() {
    let mut timing = AnimationTimingSettings::default();
    timing.set_min_frame_delay_ms(30);
    timing.set_max_frame_delay_ms(200);
    timing.set_default_frame_delay_ms(80);

    assert_eq!(
        normalize_animation_frame_delay_ms_with_settings(0, timing),
        80
    );
    assert_eq!(
        normalize_animation_frame_delay_ms_with_settings(1, timing),
        30
    );
    assert_eq!(
        normalize_animation_frame_delay_ms_with_settings(500, timing),
        200
    );

    let playback = AnimationPlayback::new_with_timing(
        vec![0, 1, 500],
        AnimationLoopPolicy::Infinite,
        timing,
    )
    .expect("custom timing playback");

    assert_eq!(playback.frame_delays_ms(), &[80, 30, 200]);
}

#[test]
fn animation_playback_retiming_preserves_source_zero_delays() {
    let playback =
        AnimationPlayback::new(vec![0, 5, 500], AnimationLoopPolicy::Infinite).unwrap();
    assert_eq!(playback.frame_delays_ms(), &[100, 10, 500]);

    let mut timing = AnimationTimingSettings::default();
    timing.set_min_frame_delay_ms(50);
    timing.set_max_frame_delay_ms(200);
    timing.set_default_frame_delay_ms(150);
    let retimed = playback.with_timing_settings(timing);

    assert_eq!(retimed.frame_delays_ms(), &[150, 50, 200]);
    assert_eq!(
        retimed.current_frame_index(),
        playback.current_frame_index()
    );
    assert_eq!(retimed.playback_state(), playback.playback_state());
}

#[test]
fn animation_playback_clone_reuses_delay_storage() {
    let playback =
        AnimationPlayback::new(vec![0, 5, 500], AnimationLoopPolicy::Infinite).unwrap();
    let cloned = playback.clone();

    assert!(std::ptr::eq(
        playback.source_frame_delays_ms().as_ptr(),
        cloned.source_frame_delays_ms().as_ptr()
    ));
    assert!(std::ptr::eq(
        playback.frame_delays_ms().as_ptr(),
        cloned.frame_delays_ms().as_ptr()
    ));

    let mut timing = AnimationTimingSettings::default();
    timing.set_min_frame_delay_ms(50);
    let retimed = playback.with_timing_settings(timing);

    assert!(std::ptr::eq(
        playback.source_frame_delays_ms().as_ptr(),
        retimed.source_frame_delays_ms().as_ptr()
    ));
    assert!(!std::ptr::eq(
        playback.frame_delays_ms().as_ptr(),
        retimed.frame_delays_ms().as_ptr()
    ));
}

#[test]
fn animation_timer_advances_frames_and_wraps_infinite_loop() {
    let playback =
        AnimationPlayback::new(vec![0, 40, 50], AnimationLoopPolicy::Infinite).unwrap();

    assert_eq!(
        animation_timer_interval_ms(&playback),
        Some(DEFAULT_ANIMATION_FRAME_DELAY_MS)
    );

    let second = animation_state_after_timer_tick(&playback);
    assert_eq!(second.frame_index(), Some(1));
    assert_eq!(second.state().current_frame_index(), 1);

    let third = animation_state_after_timer_tick(second.state());
    assert_eq!(third.frame_index(), Some(2));
    assert_eq!(third.state().current_frame_index(), 2);

    let wrapped = animation_state_after_timer_tick(third.state());
    assert_eq!(wrapped.frame_index(), Some(0));
    assert_eq!(wrapped.state().current_frame_index(), 0);
    assert_eq!(wrapped.state().completed_loops(), 1);
    assert_eq!(
        wrapped.state().playback_state(),
        AnimationPlaybackState::Playing
    );
}

#[test]
fn finite_animation_finishes_on_last_frame_after_requested_repeats() {
    let playback =
        AnimationPlayback::new(vec![30, 40], AnimationLoopPolicy::finite(1)).unwrap();
    let last = animation_state_after_timer_tick(&playback);
    let finished = animation_state_after_timer_tick(last.state());

    assert_eq!(finished.frame_index(), None);
    assert_eq!(finished.state().current_frame_index(), 1);
    assert_eq!(finished.state().completed_loops(), 1);
    assert_eq!(
        finished.state().playback_state(),
        AnimationPlaybackState::Finished
    );
    assert_eq!(animation_timer_interval_ms(finished.state()), None);
}

#[test]
fn animation_toggle_pause_resume_and_restart_finished_state() {
    let playback =
        AnimationPlayback::new(vec![30, 40], AnimationLoopPolicy::finite(1)).unwrap();

    let paused = animation_state_after_toggle(&playback);
    assert_eq!(paused.frame_index(), None);
    assert_eq!(
        paused.state().playback_state(),
        AnimationPlaybackState::Paused
    );
    assert_eq!(animation_timer_interval_ms(paused.state()), None);

    let resumed = animation_state_after_toggle(paused.state());
    assert_eq!(
        resumed.state().playback_state(),
        AnimationPlaybackState::Playing
    );

    let last = animation_state_after_timer_tick(resumed.state());
    let finished = animation_state_after_timer_tick(last.state());
    let restarted = animation_state_after_toggle(finished.state());
    assert_eq!(restarted.frame_index(), Some(0));
    assert_eq!(restarted.state().current_frame_index(), 0);
    assert_eq!(restarted.state().completed_loops(), 0);
    assert_eq!(
        restarted.state().playback_state(),
        AnimationPlaybackState::Playing
    );
}

#[test]
fn paused_animation_ignores_timer_and_resume_keeps_current_frame_delay() {
    let playback =
        AnimationPlayback::new(vec![25, 80, 120], AnimationLoopPolicy::Infinite).unwrap();
    let on_second_frame = animation_state_after_timer_tick(&playback);
    let paused = animation_state_after_toggle(on_second_frame.state());

    assert_eq!(paused.frame_index(), None);
    assert_eq!(paused.state().current_frame_index(), 1);
    assert_eq!(
        paused.state().playback_state(),
        AnimationPlaybackState::Paused
    );
    assert_eq!(animation_timer_interval_ms(paused.state()), None);

    let ignored = animation_state_after_timer_tick(paused.state());
    assert_eq!(ignored.frame_index(), None);
    assert_eq!(ignored.state().current_frame_index(), 1);
    assert_eq!(
        ignored.state().playback_state(),
        AnimationPlaybackState::Paused
    );

    let resumed = animation_state_after_toggle(ignored.state());
    assert_eq!(
        resumed.state().playback_state(),
        AnimationPlaybackState::Playing
    );
    assert_eq!(resumed.state().current_frame_index(), 1);
    assert_eq!(animation_timer_interval_ms(resumed.state()), Some(80));
}

#[test]
fn manual_animation_frame_navigation_pauses_and_clamps() {
    let playback =
        AnimationPlayback::new(vec![30, 40, 50], AnimationLoopPolicy::Infinite).unwrap();

    let previous =
        animation_state_after_manual_step(&playback, AnimationFrameStepDirection::Previous);
    assert_eq!(previous.frame_index(), None);
    assert_eq!(previous.state().current_frame_index(), 0);
    assert_eq!(
        previous.state().playback_state(),
        AnimationPlaybackState::Paused
    );

    let next = animation_state_after_manual_step(&playback, AnimationFrameStepDirection::Next);
    assert_eq!(next.frame_index(), Some(1));
    assert_eq!(next.state().current_frame_index(), 1);
    assert_eq!(
        next.state().playback_state(),
        AnimationPlaybackState::Paused
    );

    let home = animation_state_after_home(next.state());
    assert_eq!(home.frame_index(), Some(0));
    assert_eq!(home.state().current_frame_index(), 0);
}

#[test]
fn scaling_cache_invalidation_rebuilds_only_when_key_changes() {
    let key = ScalingCacheKey::new(
        1,
        ImageOrientation::Normal,
        ImageSize::new(512, 416),
        ScalingQuality::Balanced,
    );

    assert!(should_rebuild_scaling_cache(None, key));
    assert!(!should_rebuild_scaling_cache(Some(key), key));
    assert!(should_rebuild_scaling_cache(
        Some(key),
        ScalingCacheKey::new(
            2,
            ImageOrientation::Normal,
            ImageSize::new(512, 416),
            ScalingQuality::Balanced,
        )
    ));
    assert!(should_rebuild_scaling_cache(
        Some(key),
        ScalingCacheKey::new(
            1,
            ImageOrientation::Rotate90,
            ImageSize::new(512, 416),
            ScalingQuality::Balanced,
        )
    ));
    assert!(should_rebuild_scaling_cache(
        Some(key),
        ScalingCacheKey::new(
            1,
            ImageOrientation::Normal,
            ImageSize::new(528, 416),
            ScalingQuality::Balanced,
        )
    ));
    assert!(should_rebuild_scaling_cache(
        Some(key),
        ScalingCacheKey::new(
            1,
            ImageOrientation::Normal,
            ImageSize::new(512, 416),
            ScalingQuality::HighQuality,
        )
    ));
}

#[test]
fn image_state_reports_loaded_status() {
    assert!(!ImageState::Empty.has_image());

    let image = LoadedImage::new(
        Rgba8Image::new(1, 1, vec![0, 0, 0, 255]),
        ImageMetadata::new(String::from("image.png"), 4, SupportedImageFormat::Png),
    );
    assert!(ImageState::Loaded(image).has_image());
}

#[test]
fn image_info_text_uses_file_name_resolution_size_and_format() {
    let image = LoadedImage::new(
        Rgba8Image::new(1920, 1080, Vec::new()),
        ImageMetadata::new(
            String::from("C:/images/photo.JPG"),
            1_572_864,
            SupportedImageFormat::Jpeg,
        ),
    );

    assert_eq!(
        image_info_text(&image),
        "photo.JPG | 1920x1080 | 1.5 MB | JPEG"
    );
}

#[test]
fn image_info_text_reports_exif_display_orientation_without_losing_source_size() {
    let image = LoadedImage::new(
        Rgba8Image::new(1920, 1080, Vec::new()),
        ImageMetadata::with_exif_orientation(
            String::from("C:/images/photo.JPG"),
            1_572_864,
            SupportedImageFormat::Jpeg,
            ImageOrientation::Rotate90,
        ),
    );

    assert_eq!(
        image_info_text(&image),
        "photo.JPG | source 1920x1080 | display 1080x1920 | EXIF 6 | 1.5 MB | JPEG"
    );
}

#[test]
fn image_display_info_text_reports_exif_and_user_rotation_separately() {
    let image = LoadedImage::new(
        Rgba8Image::new(1920, 1080, Vec::new()),
        ImageMetadata::with_exif_orientation(
            String::from("C:/images/photo.JPG"),
            1_572_864,
            SupportedImageFormat::Jpeg,
            ImageOrientation::Rotate90,
        ),
    );

    assert_eq!(
        image_display_info_text(&image, ImageRotation::Degrees90),
        "photo.JPG | source 1920x1080 | display 1920x1080 | EXIF 6 + rotation 90 deg | 1.5 MB | JPEG"
    );
}

#[test]
fn file_size_formatting_uses_readable_binary_units() {
    assert_eq!(format_file_size(0), "0 B");
    assert_eq!(format_file_size(1023), "1023 B");
    assert_eq!(format_file_size(1024), "1.0 KB");
    assert_eq!(format_file_size(1536), "1.5 KB");
    assert_eq!(format_file_size(1_048_576), "1.0 MB");
    assert_eq!(format_file_size(1_073_741_824), "1.0 GB");
    assert_eq!(format_file_size(1_099_511_627_776), "1.0 TB");
}

#[test]
fn standard_format_names_are_canonical_for_display() {
    assert_eq!(
        standard_image_format_name(SupportedImageFormat::Jpeg),
        "JPEG"
    );
    assert_eq!(standard_image_format_name(SupportedImageFormat::Png), "PNG");
    assert_eq!(standard_image_format_name(SupportedImageFormat::Bmp), "BMP");
    assert_eq!(standard_image_format_name(SupportedImageFormat::Gif), "GIF");
    assert_eq!(
        standard_image_format_name(SupportedImageFormat::Webp),
        "WebP"
    );
    assert_eq!(standard_image_format_name(SupportedImageFormat::Ico), "ICO");
    assert_eq!(
        standard_image_format_name(SupportedImageFormat::Tiff),
        "TIFF"
    );
    assert_eq!(standard_image_format_name(SupportedImageFormat::Tga), "TGA");
}

#[test]
fn export_format_detection_is_case_insensitive_and_excludes_gif() {
    let cases = [
        ("photo.JPG", ExportFormat::Jpeg),
        ("photo.jpeg", ExportFormat::Jpeg),
        ("icon.PnG", ExportFormat::Png),
        ("scan.BMP", ExportFormat::Bmp),
        ("poster.WEBP", ExportFormat::Webp),
        ("favicon.ICO", ExportFormat::Ico),
    ];

    for (path, expected) in cases {
        assert_eq!(export_format_for_path(path), Some(expected));
    }

    assert_eq!(
        export_format_for_extension(".JPEG"),
        Some(ExportFormat::Jpeg)
    );
    assert_eq!(export_format_for_path("anim.gif"), None);
}

#[test]
fn export_format_metadata_is_canonical() {
    assert_eq!(export_format_display_name(ExportFormat::Jpeg), "JPEG");
    assert_eq!(export_format_mime_type(ExportFormat::Jpeg), "image/jpeg");
    assert_eq!(export_format_default_extension(ExportFormat::Jpeg), "jpg");
    assert_eq!(
        export_format_extensions(ExportFormat::Jpeg),
        ["jpg", "jpeg"]
    );
    assert_eq!(export_format_mime_type(ExportFormat::Png), "image/png");
    assert_eq!(export_format_mime_type(ExportFormat::Bmp), "image/bmp");
    assert_eq!(export_format_mime_type(ExportFormat::Webp), "image/webp");
    assert_eq!(
        export_format_mime_type(ExportFormat::Ico),
        "image/vnd.microsoft.icon"
    );
    assert_eq!(export_format_default_extension(ExportFormat::Ico), "ico");
    assert_eq!(export_format_extensions(ExportFormat::Ico), ["ico"]);
    assert_eq!(
        default_export_format_for_source_format(SupportedImageFormat::Gif),
        ExportFormat::Png
    );
    assert_eq!(
        default_export_format_for_source_format(SupportedImageFormat::Ico),
        ExportFormat::Ico
    );
    assert_eq!(
        default_export_format_for_source_format(SupportedImageFormat::Tiff),
        ExportFormat::Png
    );
    assert_eq!(
        default_export_format_for_source_format(SupportedImageFormat::Tga),
        ExportFormat::Png
    );
}

#[test]
fn export_extension_correction_uses_selected_format() {
    assert_eq!(
        PathBuf::from(export_path_with_format_extension("C:/images/photo.png", ExportFormat::Jpeg)),
        PathBuf::from("C:/images/photo.jpg")
    );
    assert_eq!(
        PathBuf::from(export_path_with_format_extension("C:/images/photo.jpeg", ExportFormat::Jpeg)),
        PathBuf::from("C:/images/photo.jpeg")
    );
    assert_eq!(
        PathBuf::from(export_path_with_format_extension("C:/images/photo", ExportFormat::Png)),
        PathBuf::from("C:/images/photo.png")
    );
    assert_eq!(
        PathBuf::from(export_path_with_format_extension("C:/images/photo.png", ExportFormat::Ico)),
        PathBuf::from("C:/images/photo.ico")
    );
}

#[test]
fn export_quality_range_clamps_lossy_formats_only() {
    let range = export_quality_range(ExportFormat::Jpeg).expect("jpeg range");
    assert_eq!(range.min(), 1);
    assert_eq!(range.max(), 100);
    assert_eq!(range.default(), 90);
    assert_eq!(clamp_export_quality(ExportFormat::Jpeg, 0), Some(1));
    assert_eq!(clamp_export_quality(ExportFormat::Jpeg, 85), Some(85));
    assert_eq!(clamp_export_quality(ExportFormat::Jpeg, 101), Some(100));
    assert_eq!(clamp_export_quality(ExportFormat::Png, 50), None);
    assert_eq!(clamp_export_quality(ExportFormat::Webp, 50), None);
    assert_eq!(clamp_export_quality(ExportFormat::Ico, 50), None);
}

#[test]
fn export_options_creation_applies_default_policies_and_quality() {
    let jpeg_default = ExportOptions::new(ExportFormat::Jpeg, None);
    assert_eq!(jpeg_default.format(), ExportFormat::Jpeg);
    assert_eq!(jpeg_default.quality(), Some(90));
    assert_eq!(jpeg_default.jpeg_alpha_background_rgb(), RgbColor::white());
    assert_eq!(
        jpeg_default.orientation_policy(),
        ExportOrientationPolicy::Display
    );
    assert_eq!(
        jpeg_default.animation_policy(),
        ExportAnimationPolicy::CurrentFrame
    );
    assert_eq!(jpeg_default.rotation(), ImageRotation::Degrees0);
    assert_eq!(jpeg_default.target_size(), None);
    assert!(!jpeg_default.remove_metadata());

    let jpeg_clamped = ExportOptions::new(ExportFormat::Jpeg, Some(200));
    assert_eq!(jpeg_clamped.quality(), Some(100));

    let jpeg_clamped_low = ExportOptions::new(ExportFormat::Jpeg, Some(0));
    assert_eq!(jpeg_clamped_low.quality(), Some(1));

    let png = ExportOptions::new(ExportFormat::Png, Some(10));
    assert_eq!(png.quality(), None);
    assert_eq!(png.orientation_policy(), ExportOrientationPolicy::Display);
    assert_eq!(png.animation_policy(), ExportAnimationPolicy::CurrentFrame);
    assert_eq!(
        png.with_rotation(ImageRotation::Degrees270).rotation(),
        ImageRotation::Degrees270
    );

    let jpeg_with_background =
        jpeg_default.with_jpeg_alpha_background_rgb(RgbColor::new(10, 20, 30));
    assert_eq!(
        jpeg_with_background.jpeg_alpha_background_rgb(),
        RgbColor::new(10, 20, 30)
    );
    assert!(jpeg_default.with_remove_metadata(true).remove_metadata());

    let resized = jpeg_default.with_target_size(Some(ImageSize::new(320, 180)));
    assert_eq!(resized.target_size(), Some(ImageSize::new(320, 180)));
    assert_eq!(
        jpeg_default
            .with_target_size(Some(ImageSize::new(0, 180)))
            .target_size(),
        None
    );
    assert_eq!(
        ExportOptions::new(ExportFormat::Ico, None)
            .with_target_size(Some(ImageSize::new(32, 32)))
            .target_size(),
        None
    );
}

#[test]
fn export_resize_helpers_preserve_aspect_ratio_with_rounding() {
    let source = ImageSize::new(4000, 3000);

    assert_eq!(
        export_size_from_width_preserving_aspect(source, 1024),
        Some(ImageSize::new(1024, 768))
    );
    assert_eq!(
        export_size_from_height_preserving_aspect(source, 500),
        Some(ImageSize::new(667, 500))
    );
    assert_eq!(export_size_from_width_preserving_aspect(source, 0), None);
    assert_eq!(
        export_size_from_width_preserving_aspect(ImageSize::new(0, 3000), 1024),
        None
    );
}

#[test]
fn suggested_export_path_adds_export_suffix() {
    assert_eq!(
        PathBuf::from(suggested_export_path("C:/images/photo.jpg", ExportFormat::Png)),
        PathBuf::from("C:/images/photo-export.png")
    );
    assert_eq!(
        PathBuf::from(suggested_export_path("photo", ExportFormat::Jpeg)),
        PathBuf::from("photo-export.jpg")
    );
}

#[test]
fn suggested_export_path_uses_configured_safe_suffix() {
    assert_eq!(
        PathBuf::from(suggested_export_path_with_suffix("C:/images/photo.jpg", ExportFormat::Png, "_edited")),
        PathBuf::from("C:/images/photo_edited.png")
    );
    assert_eq!(
        PathBuf::from(suggested_export_path_with_suffix("photo", ExportFormat::Jpeg, "bad/name")),
        PathBuf::from("photo-export.jpg")
    );
}

#[test]
fn key_input_maps_to_viewer_commands() {
    let cases = [
        (key(KeyCode::O).control(), Command::OpenImage),
        (key(KeyCode::S).control(), Command::ExportImage),
        (key(KeyCode::S).control().shift(), Command::ExportImage),
        (key(KeyCode::C).control(), Command::CopyImageToClipboard),
        (
            key(KeyCode::Right),
            Command::Navigate(ImageNavigationDirection::Next),
        ),
        (
            key(KeyCode::Space),
            Command::Navigate(ImageNavigationDirection::Next),
        ),
        (
            key(KeyCode::PageDown),
            Command::Navigate(ImageNavigationDirection::Next),
        ),
        (
            key(KeyCode::P),
            Command::Animation(AnimationCommand::TogglePlayback),
        ),
        (
            key(KeyCode::BracketLeft),
            Command::Animation(AnimationCommand::StepFrame(
                AnimationFrameStepDirection::Previous,
            )),
        ),
        (
            key(KeyCode::BracketRight),
            Command::Animation(AnimationCommand::StepFrame(
                AnimationFrameStepDirection::Next,
            )),
        ),
        (
            key(KeyCode::Home),
            Command::Animation(AnimationCommand::FirstFrame),
        ),
        (
            key(KeyCode::Left),
            Command::Navigate(ImageNavigationDirection::Previous),
        ),
        (
            key(KeyCode::Backspace),
            Command::Navigate(ImageNavigationDirection::Previous),
        ),
        (
            key(KeyCode::PageUp),
            Command::Navigate(ImageNavigationDirection::Previous),
        ),
        (key(KeyCode::Equals).shift(), Command::ZoomIn),
        (key(KeyCode::Equals), Command::ZoomIn),
        (key(KeyCode::NumpadAdd), Command::ZoomIn),
        (key(KeyCode::Minus), Command::ZoomOut),
        (key(KeyCode::NumpadSubtract), Command::ZoomOut),
        (key(KeyCode::Digit1), Command::ActualSize),
        (key(KeyCode::Digit0), Command::FitToWindow),
        (key(KeyCode::R), Command::RotateClockwise),
        (key(KeyCode::R).shift(), Command::RotateCounterClockwise),
        (key(KeyCode::F11), Command::ToggleFullscreen),
        (key(KeyCode::Enter).alt(), Command::ToggleFullscreen),
        (key(KeyCode::Escape), Command::ExitFullscreenOrQuit),
        (key(KeyCode::Q), Command::Quit),
        (key(KeyCode::F4).alt(), Command::Quit),
    ];

    for (input, expected) in cases {
        assert_eq!(command_for_key_input(input), Some(expected), "{input:?}");
    }
}

#[test]
fn space_key_resolves_by_image_context() {
    assert_eq!(
        command_for_key_input_with_context(key(KeyCode::Space), CommandContext::StaticImage),
        Some(Command::Navigate(ImageNavigationDirection::Next))
    );
    assert_eq!(
        command_for_key_input_with_context(key(KeyCode::Space), CommandContext::AnimationImage),
        Some(Command::Animation(AnimationCommand::TogglePlayback))
    );
}

#[test]
fn key_input_ignores_conflicting_modifier_combinations() {
    assert_eq!(command_for_key_input(key(KeyCode::O)), None);
    assert_eq!(
        command_for_key_input(key(KeyCode::O).control().shift()),
        None
    );
    assert_eq!(
        command_for_key_input(key(KeyCode::C).control().shift()),
        None
    );
    assert_eq!(command_for_key_input(key(KeyCode::S).control().alt()), None);
    assert_eq!(command_for_key_input(key(KeyCode::Right).control()), None);
    assert_eq!(command_for_key_input(key(KeyCode::Enter)), None);
    assert_eq!(command_for_key_input(key(KeyCode::F4)), None);
}

#[test]
fn supported_format_detection_is_case_insensitive() {
    let cases = [
        ("photo.JPG", SupportedImageFormat::Jpeg),
        ("photo.jpeg", SupportedImageFormat::Jpeg),
        ("icon.PnG", SupportedImageFormat::Png),
        ("scan.BMP", SupportedImageFormat::Bmp),
        ("clip.Gif", SupportedImageFormat::Gif),
        ("poster.WEBP", SupportedImageFormat::Webp),
        ("favicon.ICO", SupportedImageFormat::Ico),
        ("scan.tif", SupportedImageFormat::Tiff),
        ("scan.TIFF", SupportedImageFormat::Tiff),
        ("sprite.TGA", SupportedImageFormat::Tga),
    ];

    for (path, expected) in cases {
        assert_eq!(supported_image_format_for_path(path), Some(expected));
        assert!(is_supported_image_path(path));
    }
}

#[test]
fn unsupported_format_detection_rejects_unknown_extensions() {
    assert_eq!(supported_image_format_for_path("notes.txt"), None);
    assert!(!is_supported_image_path("archive.tar.gz"));
    assert!(!is_supported_image_path("no-extension"));
}

#[test]
fn first_supported_image_path_keeps_drop_order() {
    let paths = ["notes.txt", "photo.PNG", "later.jpg"];

    assert_eq!(first_supported_image_path(&paths), Some(paths[1]));
}

#[test]
fn image_folder_filters_supported_paths_and_sorts_by_case_insensitive_file_name() {
    let folder = ImageFolder::from_paths(
        "C:/images/photo.jpg",
        [
            "C:/images/zeta.PNG",
            "C:/images/Photo.JPG",
            "C:/images/notes.txt",
            "C:/images/alpha.bmp",
            "C:/images/photo.jpg",
            "C:/images/clip.webp",
            "C:/images/favicon.ico",
        ]
        .into_iter()
        .map(String::from)
        .collect(),
    );

    assert_eq!(
        image_folder_file_names(&folder),
        [
            "alpha.bmp",
            "clip.webp",
            "favicon.ico",
            "Photo.JPG",
            "photo.jpg",
            "zeta.PNG"
        ]
    );
    assert_eq!(folder.current_index(), Some(4));
}

#[test]
fn image_folder_limits_snapshot_paths() {
    let current_path = String::from("C:/images/current.png");
    let paths = std::iter::once(current_path.clone())
        .chain((0..(MAX_IMAGE_FOLDER_SNAPSHOT_PATHS + 8)).map(|index| format!("C:/images/{index:05}.png")))
        .collect();

    let folder = ImageFolder::from_paths(&current_path, paths);

    assert_eq!(folder.len(), MAX_IMAGE_FOLDER_SNAPSHOT_PATHS);
    assert!(folder.paths().iter().any(|path| path == &current_path));
    assert!(folder.current_index().is_some());
}

#[test]
fn image_folder_matches_current_index_by_file_name_when_paths_differ() {
    let folder = ImageFolder::from_paths(
        "C:/images/beta.png",
        ["beta.png", "alpha.png"].into_iter().map(String::from).collect(),
    );

    assert_eq!(image_folder_file_names(&folder), ["alpha.png", "beta.png"]);
    assert_eq!(folder.current_index(), Some(1));
}

#[test]
fn image_folder_matches_current_index_by_case_insensitive_file_name() {
    let folder = ImageFolder::from_paths(
        "C:/images/photo.png",
        ["alpha.png", "PHOTO.PNG", "zeta.png"]
            .into_iter()
            .map(String::from)
            .collect(),
    );

    assert_eq!(
        image_folder_file_names(&folder),
        ["alpha.png", "PHOTO.PNG", "zeta.png"]
    );
    assert_eq!(folder.current_index(), Some(1));
}

#[test]
fn image_folder_retargets_current_path_without_resorting_paths() {
    let mut folder = ImageFolder::from_paths(
        "b.png",
        ["c.png", "a.png", "b.png"].into_iter().map(String::from).collect(),
    );

    assert!(folder.retarget_current_path("c.png"));

    assert_eq!(
        image_folder_file_names(&folder),
        ["a.png", "b.png", "c.png"]
    );
    assert_eq!(folder.current_index(), Some(2));
}

#[test]
fn navigation_index_wraps_next_and_previous() {
    assert_eq!(
        navigation_index(3, Some(2), ImageNavigationDirection::Next),
        Some(0)
    );
    assert_eq!(
        navigation_index(3, Some(0), ImageNavigationDirection::Previous),
        Some(2)
    );
}

#[test]
fn navigation_settings_can_disable_wrapping() {
    let mut settings = NavigationSettings::default();
    settings.set_wrap_navigation(false);

    assert_eq!(
        navigation_index_with_settings(3, Some(2), ImageNavigationDirection::Next, settings),
        None
    );
    assert_eq!(
        navigation_index_with_settings(
            3,
            Some(0),
            ImageNavigationDirection::Previous,
            settings
        ),
        None
    );
    assert_eq!(
        navigation_index_with_settings(3, Some(1), ImageNavigationDirection::Next, settings),
        Some(2)
    );
}

#[test]
fn image_folder_navigation_selects_adjacent_paths() {
    let folder = ImageFolder::from_paths(
        "b.png",
        ["a.png", "b.png", "c.png"].into_iter().map(String::from).collect(),
    );

    assert_eq!(
        folder.navigation_path(ImageNavigationDirection::Next),
        Some("c.png")
    );
    assert_eq!(
        folder.navigation_path(ImageNavigationDirection::Previous),
        Some("a.png")
    );
}

#[test]
fn image_folder_navigation_attempts_skip_over_failed_targets() {
    let folder = ImageFolder::from_paths(
        "b.png",
        ["a.png", "b.png", "c.png", "d.png"]
            .into_iter()
            .map(String::from)
            .collect(),
    );
    let settings = NavigationSettings::default();

    assert_eq!(
        folder.navigation_path_for_attempt(ImageNavigationDirection::Next, settings, 0),
        Some("c.png")
    );
    assert_eq!(
        folder.navigation_path_for_attempt(ImageNavigationDirection::Next, settings, 1),
        Some("d.png")
    );
    assert_eq!(
        folder.navigation_path_for_attempt(ImageNavigationDirection::Next, settings, 2),
        Some("a.png")
    );
    assert_eq!(
        folder.navigation_path_for_attempt(ImageNavigationDirection::Next, settings, 3),
        None
    );
}

#[test]
fn image_folder_navigation_is_noop_for_single_or_missing_current_image() {
    let single = ImageFolder::from_paths("only.png", vec![String::from("only.png")]);
    assert_eq!(single.len(), 1);
    assert_eq!(single.navigation_path(ImageNavigationDirection::Next), None);
    assert_eq!(
        single.navigation_path(ImageNavigationDirection::Previous),
        None
    );

    let missing = ImageFolder::from_paths(
        "missing.png",
        ["a.png", "b.png"].into_iter().map(String::from).collect(),
    );
    assert_eq!(missing.current_index(), None);
    assert_eq!(
        missing.navigation_path(ImageNavigationDirection::Next),
        None
    );
}

#[test]
fn corrected_export_path_names_its_format_and_stays_corrected() {
    for format in [ExportFormat::Jpeg, ExportFormat::Png, ExportFormat::Bmp, ExportFormat::Webp, ExportFormat::Ico] {
        for path in ["C:/images/photo.png", "C:/images/photo", "archive.tar.gz", ".hidden", "shot."] {
            let corrected = export_path_with_format_extension(path, format);
            assert_eq!(export_format_for_path(&corrected), Some(format));
            assert_eq!(export_path_with_format_extension(&corrected, format), corrected);
        }
    }
    assert_eq!(export_path_with_format_extension(".hidden", ExportFormat::Png), ".hidden.png");
    assert_eq!(export_path_with_format_extension("shot.", ExportFormat::Bmp), "shot.bmp");
}

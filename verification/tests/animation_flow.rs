use std::time::{Duration, UNIX_EPOCH};

use j3pic::animation::{AnimationFrameStepDirection, AnimationLoopPolicy, AnimationPlayback, AnimationPlaybackState};
use j3pic::animation_frames::{
    animation_timer_interval_ms, apply_animation_frame_pixels, current_animation_playback,
    finish_failed_animation_frame_decode, handle_animation_command, handle_animation_timer, PendingAnimationFrame,
};
use j3pic::commands::AnimationCommand;
use j3pic::config_apply::apply_viewer_config;
use j3pic::preload_cache::NavigationPreloadCache;
use j3pic::render_cache::RenderCache;
use j3pic::scaling::ScalingCacheKey;
use j3pic::config_file::ViewerConfig;
use j3pic::decode::{AnimationFrameDecodeRequest, AnimationFrameOutcome, ImageDecodeCoordinator};
use j3pic::export::SupportedImageFormat;
use j3pic::frame_cache::AnimationFrameCache;
use j3pic::geometry::{ImageBufferKind, ImageSize, ScalingQuality, ViewportSize};
use j3pic::loaded::{ImageFileVersion, ImageMetadata, ImageState, LoadedImage};
use j3pic::memory::ImageMemoryPolicy;
use j3pic::pixels::{PixelImage, Rgba8Image};
use j3pic::viewer::DecodeApplyOutcome;

fn test_rgba8_image(width: u32, height: u32) -> Rgba8Image {
    let pixels = (0..width * height)
        .flat_map(|index| {
            let value = index as u8;
            [value, value, value, 255]
        })
        .collect::<Vec<_>>();
    Rgba8Image::new(width, height, pixels)
}

fn animated_test_image(name: &str, width: u32, height: u32) -> LoadedImage {
    let animation = AnimationPlayback::new(vec![100, 120], AnimationLoopPolicy::Infinite).expect("animation playback");
    LoadedImage::from_animation(
        test_rgba8_image(width, height),
        ImageSize::new(width, height),
        ImageBufferKind::FullResolution,
        ImageMetadata::with_file_version(name.to_owned(), ImageFileVersion::new(0, UNIX_EPOCH), SupportedImageFormat::Gif),
        animation,
    )
}

struct Viewer {
    state: ImageState,
    config: ViewerConfig,
    frames: AnimationFrameCache,
    pending: Option<PendingAnimationFrame>,
    decode: ImageDecodeCoordinator,
}

impl Viewer {
    fn with_animation() -> Self {
        Viewer {
            state: ImageState::Loaded(animated_test_image("anim.gif", 2, 1)),
            config: ViewerConfig::defaults(),
            frames: AnimationFrameCache::new(),
            pending: None,
            decode: ImageDecodeCoordinator::new(),
        }
    }

    fn command(&mut self, command: AnimationCommand) -> AnimationFrameOutcome {
        handle_animation_command(
            &mut self.state,
            &mut self.config,
            &mut self.frames,
            &mut self.pending,
            self.decode.generation(),
            ViewportSize::from_client_size(800, 600),
            ImageMemoryPolicy::defaults(),
            0,
            command,
        )
    }

    fn timer(&mut self) -> AnimationFrameOutcome {
        handle_animation_timer(
            &mut self.state,
            &mut self.frames,
            &mut self.pending,
            self.decode.generation(),
            ViewportSize::from_client_size(800, 600),
            ImageMemoryPolicy::defaults(),
            0,
        )
    }

    fn apply_frame(&mut self, request: &AnimationFrameDecodeRequest, version: ImageFileVersion, frame: Rgba8Image) -> DecodeApplyOutcome {
        apply_animation_frame_pixels(
            &self.decode,
            &mut self.pending,
            &mut self.state,
            &mut self.frames,
            request.generation(),
            request.frame_index(),
            request.path(),
            Some(version),
            frame,
            ImageMemoryPolicy::defaults().max_cache_entry_bytes(),
            1,
        )
    }

    fn shown_pixels(&self) -> Vec<u8> {
        match &self.state {
            ImageState::Loaded(image) => image.pixels().pixels().to_vec(),
            ImageState::Empty => Vec::new(),
        }
    }

    fn playback(&self) -> (usize, AnimationPlaybackState) {
        let playback = current_animation_playback(&self.state).expect("animation playback");
        (playback.current_frame_index(), playback.playback_state())
    }
}

fn needs_decode(outcome: AnimationFrameOutcome) -> AnimationFrameDecodeRequest {
    match outcome {
        AnimationFrameOutcome::NeedsDecode(request) => request,
        outcome => panic!("unexpected animation outcome: {outcome:?}"),
    }
}

#[test]
fn animation_step_requests_frame_decode_then_applies_frame() {
    let mut viewer = Viewer::with_animation();
    let request = needs_decode(viewer.command(AnimationCommand::StepFrame(AnimationFrameStepDirection::Next)));
    assert_eq!(request.frame_index(), 1);
    assert_eq!(animation_timer_interval_ms(&viewer.state, &viewer.pending), None);

    let frame = Rgba8Image::new(2, 1, vec![9, 9, 9, 255, 8, 8, 8, 255]);
    let applied = viewer.apply_frame(&request, request.file_version(), frame);

    assert_eq!(applied, DecodeApplyOutcome::Applied);
    assert_eq!(viewer.shown_pixels(), vec![9, 9, 9, 255, 8, 8, 8, 255]);
    assert_eq!(animation_timer_interval_ms(&viewer.state, &viewer.pending), None);
    assert_eq!(viewer.frames.len(), 1);
}

#[test]
fn animation_step_reuses_cached_frame_allocation() {
    let mut viewer = Viewer::with_animation();
    let cached_frame = Rgba8Image::new(2, 1, vec![9, 9, 9, 255, 8, 8, 8, 255]);
    let cached_pixels = cached_frame.pixels().as_ptr();
    viewer.frames.store(1, cached_frame, 1024, 0);

    let outcome = viewer.command(AnimationCommand::StepFrame(AnimationFrameStepDirection::Next));

    assert_eq!(outcome, AnimationFrameOutcome::Updated);
    match &viewer.state {
        ImageState::Loaded(image) => match image.pixels() {
            PixelImage::Rgba8(shown) => assert_eq!(shown.pixels().as_ptr(), cached_pixels),
            other => panic!("unexpected pixels: {other:?}"),
        },
        ImageState::Empty => panic!("no image"),
    }
}

#[test]
fn animation_frame_result_for_changed_file_version_is_stale() {
    let mut viewer = Viewer::with_animation();
    let request = needs_decode(viewer.command(AnimationCommand::StepFrame(AnimationFrameStepDirection::Next)));

    let changed_version = ImageFileVersion::new(0, UNIX_EPOCH + Duration::from_secs(1));
    let frame = Rgba8Image::new(2, 1, vec![9, 9, 9, 255, 8, 8, 8, 255]);
    let applied = viewer.apply_frame(&request, changed_version, frame);

    assert_eq!(applied, DecodeApplyOutcome::Stale);
    assert_eq!(viewer.shown_pixels(), vec![0, 0, 0, 255, 1, 1, 1, 255]);
}

#[test]
fn pausing_while_animation_frame_decode_is_pending_discards_pending_transition() {
    let mut viewer = Viewer::with_animation();
    let request = needs_decode(viewer.timer());
    assert_eq!(request.frame_index(), 1);
    assert_eq!(viewer.pending.as_ref().map(|pending| pending.frame_index), Some(1));

    let paused = viewer.command(AnimationCommand::TogglePlayback);

    assert_eq!(paused, AnimationFrameOutcome::StateChanged);
    assert!(viewer.pending.is_none());
    assert_eq!(viewer.playback(), (0, AnimationPlaybackState::Paused));
    assert!(!viewer.config.animation_autoplay());

    let late_frame = Rgba8Image::new(2, 1, vec![9, 9, 9, 255, 8, 8, 8, 255]);
    let late = viewer.apply_frame(&request, request.file_version(), late_frame);

    assert_eq!(late, DecodeApplyOutcome::Stale);
    assert_eq!(viewer.playback(), (0, AnimationPlaybackState::Paused));
    assert_eq!(viewer.shown_pixels(), vec![0, 0, 0, 255, 1, 1, 1, 255]);
}

#[test]
fn failed_animation_timer_frame_decode_pauses_playback_and_stops_timer() {
    let mut viewer = Viewer::with_animation();
    let request = needs_decode(viewer.timer());
    assert_eq!(request.frame_index(), 1);
    assert_eq!(animation_timer_interval_ms(&viewer.state, &viewer.pending), None);

    let failed = finish_failed_animation_frame_decode(
        &viewer.decode,
        &mut viewer.pending,
        &mut viewer.state,
        request.generation(),
        request.frame_index(),
        request.path(),
        Some(request.file_version()),
    );

    assert_eq!(failed, DecodeApplyOutcome::Applied);
    assert!(viewer.pending.is_none());
    assert_eq!(viewer.playback(), (0, AnimationPlaybackState::Paused));
    assert_eq!(animation_timer_interval_ms(&viewer.state, &viewer.pending), None);

    let resumed = viewer.command(AnimationCommand::TogglePlayback);

    assert_eq!(resumed, AnimationFrameOutcome::StateChanged);
    assert_eq!(viewer.playback(), (0, AnimationPlaybackState::Playing));
    assert_eq!(animation_timer_interval_ms(&viewer.state, &viewer.pending), Some(100));
}

#[test]
fn timer_waits_while_a_frame_decode_is_pending() {
    let mut viewer = Viewer::with_animation();
    let _ = needs_decode(viewer.timer());
    assert_eq!(viewer.timer(), AnimationFrameOutcome::Unchanged);
    let mut empty = Viewer::with_animation();
    empty.state = ImageState::Empty;
    assert_eq!(empty.timer(), AnimationFrameOutcome::Unchanged);
    assert_eq!(empty.command(AnimationCommand::FirstFrame), AnimationFrameOutcome::Unchanged);
}


fn preloads_with_one_image() -> NavigationPreloadCache {
    let mut preloads = NavigationPreloadCache::new();
    preloads.store(
        1,
        animated_test_image("next.gif", 2, 1),
        ViewportSize::from_client_size(800, 600),
        ImageMemoryPolicy::defaults(),
        j3pic::settings::AnimationTimingSettings::defaults(),
        0,
    );
    preloads
}

fn render_with_scaled_copy() -> RenderCache {
    let mut render = RenderCache::new();
    let key = ScalingCacheKey::new(1, j3pic::geometry::ImageOrientation::Normal, ImageSize::new(1, 1), ScalingQuality::Balanced);
    render.store_scaled_image(key, PixelImage::from(test_rgba8_image(1, 1)), 0);
    render
}

#[test]
fn unchanged_settings_change_nothing() {
    let mut viewer = Viewer::with_animation();
    let mut render = render_with_scaled_copy();
    let mut preloads = preloads_with_one_image();
    let next = viewer.config.clone();
    let changed = apply_viewer_config(&mut viewer.config, next, false, false, &mut viewer.state, &mut viewer.pending, &mut render, &mut preloads);
    assert!(!changed);
    assert!(render.has_scaled_image());
    assert_eq!(preloads.len(), 1);

    let next = viewer.config.clone();
    let zoomed = apply_viewer_config(&mut viewer.config, next, true, false, &mut viewer.state, &mut viewer.pending, &mut render, &mut preloads);
    assert!(zoomed);
    assert!(!render.has_scaled_image());
    assert_eq!(preloads.len(), 1);
}

#[test]
fn new_scaling_quality_drops_the_scaled_copy_only() {
    let mut viewer = Viewer::with_animation();
    let mut render = render_with_scaled_copy();
    let mut preloads = preloads_with_one_image();
    let mut next = viewer.config.clone();
    next.set_scaling_quality(ScalingQuality::HighQuality);
    assert!(apply_viewer_config(&mut viewer.config, next, false, false, &mut viewer.state, &mut viewer.pending, &mut render, &mut preloads));
    assert_eq!(viewer.config.scaling_quality(), ScalingQuality::HighQuality);
    assert!(!render.has_scaled_image());
    assert_eq!(preloads.len(), 1);
    assert_eq!(viewer.playback(), (0, AnimationPlaybackState::Playing));
}

#[test]
fn turning_autoplay_off_pauses_the_shown_animation_and_drops_its_pending_frame() {
    let mut viewer = Viewer::with_animation();
    let _ = needs_decode(viewer.timer());
    let mut render = RenderCache::new();
    let mut preloads = preloads_with_one_image();
    let mut next = viewer.config.clone();
    next.set_animation_autoplay(false);
    assert!(apply_viewer_config(&mut viewer.config, next, false, false, &mut viewer.state, &mut viewer.pending, &mut render, &mut preloads));
    assert!(viewer.pending.is_none());
    assert_eq!(viewer.playback(), (0, AnimationPlaybackState::Paused));
    assert_eq!(preloads.len(), 1);
}

#[test]
fn new_navigation_or_timing_settings_drop_the_preloaded_images() {
    let mut viewer = Viewer::with_animation();
    let mut render = RenderCache::new();
    let mut preloads = preloads_with_one_image();
    let mut next = viewer.config.clone();
    let mut navigation = next.navigation_settings();
    navigation.set_wrap_navigation(false);
    next.set_navigation_settings(navigation);
    assert!(apply_viewer_config(&mut viewer.config, next, false, false, &mut viewer.state, &mut viewer.pending, &mut render, &mut preloads));
    assert_eq!(preloads.len(), 0);

    let mut preloads = preloads_with_one_image();
    let mut next = viewer.config.clone();
    let mut timing = next.animation_timing_settings();
    timing.set_default_frame_delay_ms(250);
    next.set_animation_timing_settings(timing);
    assert!(apply_viewer_config(&mut viewer.config, next, false, false, &mut viewer.state, &mut viewer.pending, &mut render, &mut preloads));
    assert_eq!(preloads.len(), 0);
    assert_eq!(viewer.playback(), (0, AnimationPlaybackState::Playing));
}

#[test]
fn new_request_scale_alone_reports_a_change_and_drops_the_preloaded_images() {
    let mut viewer = Viewer::with_animation();
    let mut render = render_with_scaled_copy();
    let mut preloads = preloads_with_one_image();
    let next = viewer.config.clone();
    assert!(apply_viewer_config(&mut viewer.config, next, false, true, &mut viewer.state, &mut viewer.pending, &mut render, &mut preloads));
    assert_eq!(preloads.len(), 0);
    assert!(render.has_scaled_image());
    assert_eq!(viewer.playback(), (0, AnimationPlaybackState::Playing));
}

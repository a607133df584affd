use std::path::PathBuf;
use std::time::UNIX_EPOCH;

use j3pic::animation::{AnimationFrameStepDirection, AnimationLoopPolicy, AnimationPlayback, AnimationPlaybackState};
use j3pic::animation_frames::{
    animation_timer_interval_ms, apply_animation_frame_pixels, current_animation_playback,
    finish_failed_animation_frame_decode, handle_animation_command,
};
use j3pic::commands::AnimationCommand;
use j3pic::decode::{AnimationFrameDecodeRequest, AnimationFrameOutcome};
use j3pic::display::display_pixels;
use j3pic::viewer::DecodeApplyOutcome;
use j3pic::cache_policy::current_display_orientation;
use j3pic::commands::{Command, ImageNavigationDirection};
use j3pic::config_file::ViewerConfig;
use j3pic::decode_results::{apply_scanned_image_folder, begin_navigation_decode_attempt, current_source_path};
use j3pic::export::SupportedImageFormat;
use j3pic::folder::ImageFolder;
use j3pic::geometry::{ImageBufferKind, ImageOrientation, ImageRotation, ImageSize, ViewMode, ScalingQuality};
use j3pic::loaded::{ImageFileVersion, ImageMetadata, ImageState, LoadedImage};
use j3pic::memory::MemoryPolicySettings;
use j3pic::pixels::Rgba8Image;
use j3pic::settings::{AnimationTimingSettings, UiLanguage};
use j3pic::viewer_error::ViewerAppError;
use j3pic::decode::DecodeFailurePresentation;
use j3pic::decode_results::{begin_full_resolution_decode, apply_full_resolution_image, finish_pending_folder_scan_without_update, navigation_attempt_path};
use j3pic::info::image_status_text_with_zoom_text;
use j3pic::settings::NavigationSettings;
use j3pic::viewer::ImageDecodePurpose;
use j3pic::viewer::AppCommandOutcome;
use j3pic::viewer_core::{CommandStep, DecodedImageStep, ViewerCore};

fn test_rgba8_image(width: u32, height: u32) -> Rgba8Image {
    let pixels = (0..width * height)
        .flat_map(|index| {
            let value = index as u8;
            [value, value, value, 255]
        })
        .collect::<Vec<_>>();
    Rgba8Image::new(width, height, pixels)
}

fn test_image_from_path(path: &str, width: u32, height: u32) -> LoadedImage {
    LoadedImage::new(
        test_rgba8_image(width, height),
        ImageMetadata::with_file_version(path.to_owned(), ImageFileVersion::new(0, UNIX_EPOCH), SupportedImageFormat::Png),
    )
}

fn test_image(name: &str, width: u32, height: u32) -> LoadedImage {
    test_image_from_path(name, width, height)
}

fn test_image_with_exif(name: &str, width: u32, height: u32, exif_orientation: ImageOrientation) -> LoadedImage {
    LoadedImage::new(
        test_rgba8_image(width, height),
        ImageMetadata::with_exif_orientation(name.to_owned(), 0, SupportedImageFormat::Jpeg, exif_orientation),
    )
}

fn animated_test_image_with_delays(name: &str, width: u32, height: u32, frame_delays_ms: Vec<u32>) -> LoadedImage {
    let animation = AnimationPlayback::new(frame_delays_ms, AnimationLoopPolicy::Infinite).expect("animation playback");
    LoadedImage::from_animation(
        test_rgba8_image(width, height),
        ImageSize::new(width, height),
        ImageBufferKind::FullResolution,
        ImageMetadata::with_file_version(name.to_owned(), ImageFileVersion::new(0, UNIX_EPOCH), SupportedImageFormat::Gif),
        animation,
    )
}

fn animated_test_image(name: &str, width: u32, height: u32) -> LoadedImage {
    animated_test_image_with_delays(name, width, height, vec![100, 120])
}

fn new_core() -> ViewerCore {
    ViewerCore::with_config(ViewerConfig::default())
}

fn folder_file_names(folder: &ImageFolder) -> Vec<String> {
    folder.paths().iter().map(|path| path.clone()).collect()
}

#[test]
fn rotation_updates_title_and_resets_when_image_is_replaced() {
    let mut app = new_core();
    app.replace_loaded_image(test_image("first.png", 2, 1), ImageFolder::empty(), 0);

    assert!(app.rotate_clockwise());
    assert_eq!(app.user_rotation, ImageRotation::Degrees90);
    assert_eq!(app.title, "first.png (rotation 90 deg) - j3Pic");

    app.replace_loaded_image(test_image("second.png", 1, 2), ImageFolder::empty(), 0);

    assert_eq!(app.user_rotation, ImageRotation::Degrees0);
    assert_eq!(app.title, "second.png - j3Pic");
}

#[test]
fn replacing_image_resets_only_user_rotation_and_uses_new_exif_orientation() {
    let mut app = new_core();
    app.replace_loaded_image(test_image_with_exif("first.jpg", 3, 2, ImageOrientation::Rotate90), ImageFolder::empty(), 0);
    assert!(app.rotate_clockwise());

    app.replace_loaded_image(
        test_image_with_exif("second.jpg", 3, 2, ImageOrientation::FlipHorizontal),
        ImageFolder::empty(),
        0,
    );

    assert_eq!(app.user_rotation, ImageRotation::Degrees0);
    assert_eq!(
        current_display_orientation(&app.image_state, app.user_rotation),
        Some(ImageOrientation::FlipHorizontal)
    );
    assert_eq!(app.title, "second.jpg (EXIF 2) - j3Pic");
}

#[test]
fn exif_orientation_is_kept_separate_from_user_rotation() {
    let mut app = new_core();
    app.replace_loaded_image(test_image_with_exif("exif.jpg", 3, 2, ImageOrientation::Rotate90), ImageFolder::empty(), 0);

    assert_eq!(app.user_rotation, ImageRotation::Degrees0);
    assert_eq!(current_display_orientation(&app.image_state, app.user_rotation), Some(ImageOrientation::Rotate90));
    assert_eq!(app.title, "exif.jpg (EXIF 6) - j3Pic");
    assert_eq!(info_text(&app, "Fit"), "exif.jpg | source 3x2 | display 2x3 | EXIF 6 | 0 B | JPEG | Fit");
    assert_eq!(app.current_view_image_size(), Some(ImageSize::new(2, 3)));

    assert!(app.rotate_clockwise());

    assert_eq!(app.user_rotation, ImageRotation::Degrees90);
    assert_eq!(current_display_orientation(&app.image_state, app.user_rotation), Some(ImageOrientation::Rotate180));
    assert_eq!(app.title, "exif.jpg (EXIF 6 + rotation 90 deg) - j3Pic");
    assert_eq!(app.current_view_image_size(), Some(ImageSize::new(3, 2)));
}

#[test]
fn decode_requests_carry_configured_memory_policy_and_animation_timing() {
    let mut config = ViewerConfig::default();
    let mut memory = MemoryPolicySettings::default();
    memory.set_max_transient_decode_mib(321);
    config.set_memory_policy_settings(memory);
    let mut timing = AnimationTimingSettings::default();
    timing.set_min_frame_delay_ms(25);
    timing.set_max_frame_delay_ms(500);
    timing.set_default_frame_delay_ms(75);
    config.set_animation_timing_settings(timing);

    let mut app = ViewerCore::with_config(config.clone());
    let request = app.begin_image_decode("configured.png".to_owned());

    assert_eq!(app.memory_policy, config.image_memory_policy());
    assert_eq!(request.memory_policy(), config.image_memory_policy());
    assert_eq!(request.animation_timing(), config.animation_timing_settings());
}

#[test]
fn applying_config_updates_current_animation_timer_behavior() {
    let mut app = new_core();
    app.replace_loaded_image(
        animated_test_image_with_delays("settings-anim.gif", 2, 1, vec![0, 5, 500]),
        ImageFolder::empty(),
        0,
    );
    assert_eq!(animation_timer_interval_ms(&app.image_state, &app.pending_frame), Some(100));

    let mut config = app.config.clone();
    config.set_animation_autoplay(false);
    let mut timing = AnimationTimingSettings::default();
    timing.set_min_frame_delay_ms(50);
    timing.set_max_frame_delay_ms(200);
    timing.set_default_frame_delay_ms(150);
    config.set_animation_timing_settings(timing);

    assert!(app.apply_config(config, false, false, 0).0);
    let playback = current_animation_playback(&app.image_state).expect("animation playback after applying config");
    assert_eq!(playback.playback_state(), AnimationPlaybackState::Paused);
    assert_eq!(playback.frame_delays_ms(), &[150, 50, 200]);
    assert_eq!(animation_timer_interval_ms(&app.image_state, &app.pending_frame), None);

    let mut config = app.config.clone();
    config.set_animation_autoplay(true);
    assert!(app.apply_config(config, false, false, 0).0);

    let playback = current_animation_playback(&app.image_state).expect("animation playback after enabling autoplay");
    assert_eq!(playback.playback_state(), AnimationPlaybackState::Playing);
    assert_eq!(animation_timer_interval_ms(&app.image_state, &app.pending_frame), Some(150));
}

#[test]
fn applying_config_updates_runtime_policy_and_future_decode_requests() {
    let mut app = new_core();
    let mut config = app.config.clone();
    let mut memory = MemoryPolicySettings::default();
    memory.set_max_image_pixels(12_345);
    config.set_memory_policy_settings(memory);
    let mut timing = AnimationTimingSettings::default();
    timing.set_default_frame_delay_ms(75);
    config.set_animation_timing_settings(timing);

    assert!(app.apply_config(config.clone(), false, false, 0).0);
    let request = app.begin_image_decode("configured-after-apply.png".to_owned());

    assert_eq!(app.config, config);
    assert_eq!(app.memory_policy, config.image_memory_policy());
    assert_eq!(request.memory_policy(), config.image_memory_policy());
    assert_eq!(request.animation_timing(), config.animation_timing_settings());
}

#[test]
fn unchanged_config_is_not_applied_but_a_new_request_scale_is() {
    let mut app = new_core();
    app.replace_loaded_image(test_image("shown.png", 4, 4), ImageFolder::empty(), 0);
    let same = app.config.clone();
    assert_eq!(app.apply_config(same.clone(), false, false, 0), (false, false));
    assert_eq!(app.apply_config(same, false, true, 0), (true, false));
    assert_eq!(app.title, "shown.png - j3Pic");
}

#[test]
fn configured_memory_policy_is_used_by_app() {
    let mut config = ViewerConfig::default();
    let mut memory_policy = MemoryPolicySettings::default();
    memory_policy.set_max_image_pixels(12_345);
    config.set_memory_policy_settings(memory_policy);

    let app = ViewerCore::with_config(config);

    assert_eq!(app.memory_policy.max_image_pixels(), 12_345);
}

#[test]
fn loading_image_updates_recent_folder_in_config() {
    let mut app = new_core();
    let path = PathBuf::from("Pictures").join("photo.png");

    app.replace_loaded_image(test_image_from_path(path.to_str().unwrap(), 640, 480), ImageFolder::empty(), 0);

    assert_eq!(app.config.recent_folder(), Some("Pictures"));
}

#[test]
fn animation_autoplay_config_pauses_new_animations() {
    let config = ViewerConfig::new(None, ViewMode::FitToWindow, ScalingQuality::Balanced, None, 90, false);
    let mut app = ViewerCore::with_config(config);

    app.replace_loaded_image(animated_test_image("anim.gif", 2, 1), ImageFolder::empty(), 0);

    let playback = current_animation_playback(&app.image_state).expect("animation playback");
    assert_eq!(playback.playback_state(), AnimationPlaybackState::Paused);
    assert_eq!(animation_timer_interval_ms(&app.image_state, &app.pending_frame), None);
}

#[test]
fn stale_decode_result_does_not_replace_current_image() {
    let mut app = new_core();
    let first = app.begin_image_decode("first.png".to_owned());
    let _second = app.begin_image_decode("second.png".to_owned());

    let outcome = app.apply_decoded_image(first.generation(), test_image("first.png", 10, 10), ImageFolder::empty(), 0);

    assert!(matches!(outcome, DecodedImageStep::Stale));
    assert!(matches!(app.image_state, ImageState::Empty));
    assert!(app.status_message.is_none());
}

#[test]
fn decode_result_for_same_generation_but_different_path_is_stale() {
    let mut app = new_core();
    let request = app.begin_image_decode("requested.png".to_owned());

    let outcome =
        app.apply_decoded_image(request.generation(), test_image("other.png", 10, 10), ImageFolder::empty(), 0);

    assert!(matches!(outcome, DecodedImageStep::Stale));
    assert!(matches!(app.image_state, ImageState::Empty));
    assert!(app.status_message.is_none());
}

#[test]
fn navigation_decode_success_reuses_existing_folder_snapshot() {
    let mut app = new_core();
    let folder = ImageFolder::from_paths("a.png", vec!["a.png".to_owned(), "b.png".to_owned()]);
    app.replace_loaded_image(test_image_from_path("a.png", 2, 1), folder, 0);
    let settings = app.config.navigation_settings();
    let timing = app.config.animation_timing_settings();
    let request = begin_navigation_decode_attempt(
        &mut app.decode,
        &app.image_folder,
        settings,
        app.viewport,
        app.memory_policy,
        timing,
        ImageNavigationDirection::Next,
        0,
    )
    .expect("navigation request");
    let rescanned_folder = ImageFolder::from_paths("b.png", vec!["b.png".to_owned(), "c.png".to_owned()]);

    let outcome = app.apply_decoded_image(request.generation(), test_image_from_path("b.png", 2, 1), rescanned_folder, 0);

    assert!(matches!(outcome, DecodedImageStep::Applied(false)));
    assert_eq!(current_source_path(&app.image_state), Some("b.png"));
    assert_eq!(folder_file_names(&app.image_folder), ["a.png", "b.png"]);
    assert_eq!(app.image_folder.current_index(), Some(1));
}

#[test]
fn navigation_to_an_image_the_folder_does_not_list_asks_for_a_scan() {
    let mut app = new_core();
    let folder = ImageFolder::from_paths("a.png", vec!["a.png".to_owned(), "b.png".to_owned()]);
    app.replace_loaded_image(test_image_from_path("a.png", 2, 1), folder, 0);
    let settings = app.config.navigation_settings();
    let timing = app.config.animation_timing_settings();
    let request = begin_navigation_decode_attempt(
        &mut app.decode,
        &app.image_folder,
        settings,
        app.viewport,
        app.memory_policy,
        timing,
        ImageNavigationDirection::Next,
        0,
    )
    .expect("navigation request");
    app.image_folder = ImageFolder::from_paths("a.png", vec!["a.png".to_owned()]);

    let outcome = app.apply_decoded_image(request.generation(), test_image_from_path("b.png", 2, 1), ImageFolder::empty(), 0);

    match outcome {
        DecodedImageStep::NeedsFolderScan(image) => assert_eq!(image.metadata().path(), "b.png"),
        _ => panic!("the image should be handed back for a folder scan"),
    }
    assert_eq!(current_source_path(&app.image_state), Some("a.png"));
}

#[test]
fn initial_decode_can_apply_deferred_folder_scan_after_image_is_loaded() {
    let mut app = new_core();
    let request = app.begin_image_decode("b.png".to_owned());
    let initial_folder = ImageFolder::from_paths("b.png", vec!["b.png".to_owned()]);
    let scanned_folder =
        ImageFolder::from_paths("b.png", vec!["a.png".to_owned(), "b.png".to_owned(), "c.png".to_owned()]);

    let initial_outcome =
        app.apply_decoded_image(request.generation(), test_image_from_path("b.png", 2, 1), initial_folder, 0);
    let scan_outcome = apply_scanned_image_folder(
        &app.decode,
        &app.image_state,
        &mut app.image_folder,
        &mut app.pending_folder_scan,
        request.generation(),
        "b.png",
        scanned_folder,
    );

    assert!(matches!(initial_outcome, DecodedImageStep::Applied(false)));
    assert_eq!(scan_outcome, j3pic::viewer::DecodeApplyOutcome::Applied);
    assert_eq!(current_source_path(&app.image_state), Some("b.png"));
    assert_eq!(folder_file_names(&app.image_folder), ["a.png", "b.png", "c.png"]);
    assert_eq!(app.image_folder.current_index(), Some(1));
}

#[test]
fn commands_rotate_here_and_hand_back_navigation_and_zoom() {
    let mut app = new_core();
    assert_eq!(app.handle_command(Command::RotateClockwise), CommandStep::Done(AppCommandOutcome::Unchanged));
    app.replace_loaded_image(test_image("shown.png", 2, 1), ImageFolder::empty(), 0);
    app.status_message = Some("old status".to_owned());

    assert_eq!(app.handle_command(Command::RotateCounterClockwise), CommandStep::Done(AppCommandOutcome::Changed));
    assert_eq!(app.user_rotation, ImageRotation::Degrees270);
    assert!(app.status_message.is_none());
    assert_eq!(
        app.handle_command(Command::Navigate(ImageNavigationDirection::Previous)),
        CommandStep::Navigate(ImageNavigationDirection::Previous)
    );
    assert_eq!(app.handle_command(Command::ZoomIn), CommandStep::View(Command::ZoomIn));
    assert_eq!(app.handle_command(Command::Quit), CommandStep::Done(AppCommandOutcome::Unhandled));
    assert!(!app.rotate_to(ImageRotation::Degrees270));
}

#[test]
fn replacing_an_image_advances_the_revision_and_defers_the_first_scaled_copy() {
    let mut app = new_core();
    assert_eq!(app.title, "j3Pic");
    app.image_revision = u64::MAX;
    app.replace_loaded_image(test_image("shown.png", 2, 1), ImageFolder::empty(), 0);
    assert_eq!(app.image_revision, 0);
    assert!(app.defer_next_paint_scaling);
    assert!(app.decode.is_idle());
    assert_eq!(app.preloads.len(), 0);
}

#[test]
fn resident_animation_frames_over_the_entry_limit_are_cleared() {
    let mut app = new_core();
    app.replace_loaded_image(test_image("shown.png", 2, 1), ImageFolder::empty(), 0);
    let too_large = app.memory_policy.max_cache_entry_bytes() + 1;
    assert!(app.enforce_memory_policy(too_large));
    assert!(!app.enforce_memory_policy(16));
}

#[test]
fn viewer_errors_have_full_and_brief_messages_in_both_languages() {
    let decode = ViewerAppError::DecodeWorkerStart { path: "C:\\Images\\photo.png".to_owned() };
    assert_eq!(
        decode.user_message(),
        "이미지 디코드 작업을 시작하지 못했습니다. 시스템 리소스가 부족할 수 있습니다.\n\n파일: C:\\Images\\photo.png"
    );
    assert_eq!(
        decode.user_message_for(UiLanguage::English),
        "Could not start the image decode task. System resources may be low.\n\nFile: C:\\Images\\photo.png"
    );
    assert_eq!(decode.user_message_for(UiLanguage::Korean), decode.user_message());
    assert_eq!(decode.brief_user_message(), "이미지 디코드 작업을 시작하지 못했습니다.");
    assert_eq!(decode.brief_user_message_for(UiLanguage::English), "Could not start the image decode task.");
    assert_eq!(decode.display_text(), "failed to start image decode worker: C:\\Images\\photo.png");

    let export = ViewerAppError::ExportWorkerStart { path: "out.jpg".to_owned() };
    assert_eq!(
        export.user_message_for(UiLanguage::English),
        "Could not start the image export task. System resources may be low.\n\nFile: out.jpg"
    );
    assert_eq!(
        export.user_message(),
        "이미지 내보내기 작업을 시작하지 못했습니다. 시스템 리소스가 부족할 수 있습니다.\n\n파일: out.jpg"
    );
    assert_eq!(export.brief_user_message(), "이미지 내보내기 작업을 시작하지 못했습니다.");
    assert_eq!(export.brief_user_message_for(UiLanguage::English), "Could not start the image export task.");
    assert_eq!(export.display_text(), "failed to start image export worker: out.jpg");

    let nothing = ViewerAppError::NoImageToExport;
    assert_eq!(nothing.user_message(), "내보낼 이미지가 없습니다.");
    assert_eq!(nothing.user_message_for(UiLanguage::English), "There is no image to export.");
    assert_eq!(nothing.brief_user_message(), "내보낼 이미지가 없습니다.");
    assert_eq!(nothing.brief_user_message_for(UiLanguage::English), "There is no image to export.");
    assert_eq!(nothing.display_text(), "no image to export");
}

fn step_next_frame(app: &mut ViewerCore) -> AnimationFrameDecodeRequest {
    let generation = app.decode.generation();
    let outcome = handle_animation_command(
        &mut app.image_state,
        &mut app.config,
        &mut app.frames,
        &mut app.pending_frame,
        generation,
        app.viewport,
        app.memory_policy,
        app.paint_count,
        AnimationCommand::StepFrame(AnimationFrameStepDirection::Next),
    );
    match outcome {
        AnimationFrameOutcome::NeedsDecode(request) => request,
        outcome => panic!("unexpected animation outcome: {outcome:?}"),
    }
}

fn apply_frame(app: &mut ViewerCore, request: &AnimationFrameDecodeRequest, frame: Rgba8Image) -> DecodeApplyOutcome {
    let max_entry_bytes = app.memory_policy.max_cache_entry_bytes();
    let outcome = apply_animation_frame_pixels(
        &app.decode,
        &mut app.pending_frame,
        &mut app.image_state,
        &mut app.frames,
        request.generation(),
        request.frame_index(),
        request.path(),
        Some(request.file_version()),
        frame,
        max_entry_bytes,
        app.paint_count,
    );
    if outcome == DecodeApplyOutcome::Applied {
        app.note_new_pixels(0);
    }
    outcome
}

fn shown_bytes(app: &ViewerCore) -> Vec<u8> {
    display_pixels(&app.image_state, app.user_rotation, app.image_revision, &app.render)
        .expect("display pixels")
        .pixels()
        .to_vec()
}

#[test]
fn replacing_image_clears_pending_animation_frame_decode() {
    let mut app = new_core();
    app.replace_loaded_image(animated_test_image("anim.gif", 2, 1), ImageFolder::empty(), 0);
    let request = step_next_frame(&mut app);

    app.replace_loaded_image(test_image("static.png", 2, 1), ImageFolder::empty(), 0);
    let frame = Rgba8Image::new(2, 1, vec![9, 9, 9, 255, 8, 8, 8, 255]);
    let outcome = apply_frame(&mut app, &request, frame);

    assert_eq!(outcome, DecodeApplyOutcome::Stale);
    assert!(!app.image_state.has_animation());
}

#[test]
fn stale_animation_frame_result_for_previous_path_does_not_clear_new_pending_frame() {
    let mut app = new_core();
    app.replace_loaded_image(animated_test_image("first.gif", 2, 1), ImageFolder::empty(), 0);
    let first_request = step_next_frame(&mut app);

    app.replace_loaded_image(animated_test_image("second.gif", 2, 1), ImageFolder::empty(), 0);
    let second_request = step_next_frame(&mut app);
    assert_eq!(first_request.generation(), second_request.generation());
    assert_eq!(first_request.frame_index(), second_request.frame_index());

    let late_first_frame = Rgba8Image::new(2, 1, vec![9, 9, 9, 255, 8, 8, 8, 255]);
    let late_first = apply_frame(&mut app, &first_request, late_first_frame);

    assert_eq!(late_first, DecodeApplyOutcome::Stale);
    assert_eq!(app.pending_frame.as_ref().map(|pending| pending.frame_index), Some(second_request.frame_index()));

    let late_first_failure = finish_failed_animation_frame_decode(
        &app.decode,
        &mut app.pending_frame,
        &mut app.image_state,
        first_request.generation(),
        first_request.frame_index(),
        first_request.path(),
        Some(first_request.file_version()),
    );
    assert_eq!(late_first_failure, DecodeApplyOutcome::Stale);
    assert_eq!(app.pending_frame.as_ref().map(|pending| pending.frame_index), Some(second_request.frame_index()));

    let second_frame = Rgba8Image::new(2, 1, vec![7, 7, 7, 255, 6, 6, 6, 255]);
    let applied = apply_frame(&mut app, &second_request, second_frame);

    assert_eq!(applied, DecodeApplyOutcome::Applied);
    assert_eq!(shown_bytes(&app), vec![7, 7, 7, 255, 6, 6, 6, 255]);
}

#[test]
fn replacing_image_clears_cached_animation_frames() {
    let mut app = new_core();
    app.replace_loaded_image(animated_test_image("anim.gif", 2, 1), ImageFolder::empty(), 0);
    let request = step_next_frame(&mut app);
    let frame = Rgba8Image::new(2, 1, vec![9, 9, 9, 255, 8, 8, 8, 255]);
    assert_eq!(apply_frame(&mut app, &request, frame), DecodeApplyOutcome::Applied);
    assert_eq!(app.frames.len(), 1);

    app.replace_loaded_image(animated_test_image("next.gif", 2, 1), ImageFolder::empty(), 0);

    assert_eq!(app.frames.len(), 0);
}

#[test]
fn replacing_animation_starts_from_new_first_frame_without_previous_state_leak() {
    let mut app = new_core();
    app.replace_loaded_image(animated_test_image("first.gif", 2, 1), ImageFolder::empty(), 0);
    let request = step_next_frame(&mut app);
    let second_frame = Rgba8Image::new(2, 1, vec![9, 9, 9, 255, 8, 8, 8, 255]);
    assert_eq!(apply_frame(&mut app, &request, second_frame), DecodeApplyOutcome::Applied);
    assert_eq!(
        current_animation_playback(&app.image_state).expect("first animation playback").current_frame_index(),
        1
    );
    assert_eq!(app.frames.len(), 1);

    app.replace_loaded_image(animated_test_image("second.gif", 2, 1), ImageFolder::empty(), 0);

    let playback = current_animation_playback(&app.image_state).expect("second animation playback");
    assert_eq!(playback.current_frame_index(), 0);
    assert_eq!(playback.completed_loops(), 0);
    assert_eq!(playback.playback_state(), AnimationPlaybackState::Playing);
    assert_eq!(animation_timer_interval_ms(&app.image_state, &app.pending_frame), Some(100));
    assert!(app.pending_frame.is_none());
    assert_eq!(app.frames.len(), 0);
    assert_eq!(shown_bytes(&app), vec![0, 0, 0, 255, 1, 1, 1, 255]);
}

#[test]
fn new_pixels_advance_the_revision_and_drop_the_render_copies() {
    let mut app = new_core();
    app.replace_loaded_image(test_image("shown.png", 2, 1), ImageFolder::empty(), 0);
    let revision = app.image_revision;
    app.defer_next_paint_scaling = false;
    assert!(!app.note_new_pixels(0));
    assert_eq!(app.image_revision, revision + 1);
    assert!(app.defer_next_paint_scaling);
    assert!(!app.render.has_oriented_image());
    assert!(!app.render.has_scaled_image());
}

fn info_text(app: &ViewerCore, zoom_text: &str) -> String {
    match &app.image_state {
        ImageState::Loaded(image) => image_status_text_with_zoom_text(
            image,
            app.user_rotation,
            zoom_text,
            app.config.status_ui_settings().detailed_status_text(),
        ),
        ImageState::Empty => panic!("an image should be shown"),
    }
}

fn preview_test_image(name: &str, preview_width: u32, preview_height: u32, source_width: u32, source_height: u32) -> LoadedImage {
    LoadedImage::from_preview(
        test_rgba8_image(preview_width, preview_height),
        ImageSize::new(source_width, source_height),
        ImageMetadata::with_file_version(name.to_owned(), ImageFileVersion::new(0, UNIX_EPOCH), SupportedImageFormat::Png),
    )
}

fn open_with_folder(app: &mut ViewerCore, path: &str, folder: ImageFolder) -> j3pic::scaling::DecodeGeneration {
    let request = app.begin_image_decode(path.to_owned());
    let outcome = app.apply_decoded_image(request.generation(), test_image_from_path(path, 2, 1), folder, 0);
    assert!(matches!(outcome, DecodedImageStep::Applied(_)));
    request.generation()
}

#[test]
fn stale_full_resolution_result_after_image_transition_is_ignored() {
    let mut app = new_core();
    app.viewport = j3pic::geometry::ViewportSize::from_client_size(100, 100);
    app.replace_loaded_image(preview_test_image("first.png", 10, 10, 20, 20), ImageFolder::empty(), 0);
    let timing = app.config.animation_timing_settings();
    let request = begin_full_resolution_decode(&mut app.decode, &app.image_state, app.viewport, app.memory_policy, timing, true)
        .expect("full-resolution request");

    app.replace_loaded_image(preview_test_image("second.png", 10, 10, 20, 20), ImageFolder::empty(), 0);
    let outcome = apply_full_resolution_image(
        &mut app.decode,
        &mut app.image_state,
        request.generation(),
        request.file_version(),
        j3pic::pixels::PixelImage::from(test_rgba8_image(20, 20)),
    );

    assert_eq!(outcome, DecodeApplyOutcome::Stale);
    assert_eq!(current_source_path(&app.image_state), Some("second.png"));
    let ImageState::Loaded(image) = &app.image_state else {
        panic!("image should remain loaded");
    };
    assert_eq!(image.buffer_kind(), ImageBufferKind::Preview);
    assert_eq!(image.pixels().size(), ImageSize::new(10, 10));
}

#[test]
fn navigation_decode_failure_keeps_current_image_and_reports_status() {
    let mut app = new_core();
    let folder = ImageFolder::from_paths("a.png", vec!["a.png".to_owned(), "b.png".to_owned()]);
    app.replace_loaded_image(test_image_from_path("a.png", 2, 1), folder, 0);

    let request = app.begin_navigation_decode(ImageNavigationDirection::Next).expect("navigation request");
    let outcome = app.finish_failed_initial_decode(request.generation(), "Could not find the image file.");

    assert_eq!(outcome, DecodeFailurePresentation::StatusMessage);
    assert_eq!(current_source_path(&app.image_state), Some("a.png"));
    let status = app.status_message.clone().expect("navigation failure status");
    assert!(status.contains("Could not open the image to navigate to"));
    assert!(status.contains("The current image is kept"));
    assert!(status.contains("Could not find the image file"));
    assert!(app.decode.is_idle());
}

#[test]
fn open_decode_failure_uses_message_box_policy_without_status_text() {
    let mut app = new_core();
    let request = app.begin_image_decode("missing.png".to_owned());

    let outcome = app.finish_failed_initial_decode(request.generation(), "Could not find the image file.");

    assert_eq!(outcome, DecodeFailurePresentation::MessageBox);
    assert!(app.status_message.is_none());
    assert!(matches!(app.image_state, ImageState::Empty));
}

#[test]
fn open_decode_failure_keeps_current_image() {
    let mut app = new_core();
    app.replace_loaded_image(test_image_from_path("current.png", 2, 1), ImageFolder::empty(), 0);
    let request = app.begin_image_decode("broken.png".to_owned());

    let outcome = app.finish_failed_initial_decode(request.generation(), "The image data is damaged.");

    assert_eq!(outcome, DecodeFailurePresentation::MessageBox);
    assert_eq!(current_source_path(&app.image_state), Some("current.png"));
    assert!(info_text(&app, "Fit").contains("current.png"));
}

#[test]
fn animated_image_exposes_timer_and_disables_full_resolution_decode() {
    let mut app = new_core();
    app.replace_loaded_image(animated_test_image("anim.gif", 2, 1), ImageFolder::empty(), 0);

    assert!(app.image_state.has_animation());
    assert_eq!(animation_timer_interval_ms(&app.image_state, &app.pending_frame), Some(100));
    let timing = app.config.animation_timing_settings();
    assert_eq!(
        begin_full_resolution_decode(&mut app.decode, &app.image_state, app.viewport, app.memory_policy, timing, true),
        None
    );
}

#[test]
fn navigation_requested_before_deferred_folder_scan_starts_after_scan_applies() {
    let mut app = new_core();
    let generation = open_with_folder(&mut app, "b.png", ImageFolder::from_paths("b.png", vec!["b.png".to_owned()]));
    assert_eq!(app.begin_navigation_decode(ImageNavigationDirection::Next), None);

    let scanned_folder =
        ImageFolder::from_paths("b.png", vec!["a.png".to_owned(), "b.png".to_owned(), "c.png".to_owned()]);
    assert_eq!(
        apply_scanned_image_folder(
            &app.decode,
            &app.image_state,
            &mut app.image_folder,
            &mut app.pending_folder_scan,
            generation,
            "b.png",
            scanned_folder,
        ),
        DecodeApplyOutcome::Applied
    );
    let pending_request = app.take_pending_navigation_after_folder_scan().expect("pending navigation request");

    assert_eq!(pending_request.path(), "c.png");
    assert_eq!(pending_request.purpose(), ImageDecodePurpose::FolderNavigation(ImageNavigationDirection::Next));
}

#[test]
fn pending_navigation_after_folder_scan_is_cleared_when_no_target_exists() {
    let mut app = new_core();
    let generation = open_with_folder(&mut app, "only.png", ImageFolder::from_paths("only.png", vec!["only.png".to_owned()]));
    assert_eq!(app.begin_navigation_decode(ImageNavigationDirection::Next), None);
    let scanned_folder = ImageFolder::from_paths("only.png", vec!["only.png".to_owned()]);
    assert_eq!(
        apply_scanned_image_folder(
            &app.decode,
            &app.image_state,
            &mut app.image_folder,
            &mut app.pending_folder_scan,
            generation,
            "only.png",
            scanned_folder,
        ),
        DecodeApplyOutcome::Applied
    );

    assert_eq!(app.take_pending_navigation_after_folder_scan(), None);
    assert_eq!(app.take_pending_navigation_after_folder_scan(), None);
}

#[test]
fn failed_deferred_folder_scan_clears_pending_navigation_wait() {
    let mut app = new_core();
    let generation = open_with_folder(&mut app, "only.png", ImageFolder::from_paths("only.png", vec!["only.png".to_owned()]));
    assert_eq!(app.begin_navigation_decode(ImageNavigationDirection::Next), None);
    assert!(app.pending_folder_scan.is_some());
    assert_eq!(app.pending_navigation_after_folder_scan, Some(ImageNavigationDirection::Next));

    assert_eq!(
        finish_pending_folder_scan_without_update(
            &app.decode,
            &app.image_state,
            &mut app.pending_folder_scan,
            &mut app.pending_navigation_after_folder_scan,
            generation,
            "only.png",
        ),
        DecodeApplyOutcome::Applied
    );

    assert!(app.pending_folder_scan.is_none());
    assert_eq!(app.pending_navigation_after_folder_scan, None);
    assert_eq!(app.take_pending_navigation_after_folder_scan(), None);
    assert_eq!(app.begin_navigation_decode(ImageNavigationDirection::Next), None);
    assert_eq!(app.pending_navigation_after_folder_scan, None);
}

#[test]
fn navigation_settings_can_disable_wrap_in_app_flow() {
    let mut config = ViewerConfig::default();
    let mut navigation = NavigationSettings::default();
    navigation.set_wrap_navigation(false);
    config.set_navigation_settings(navigation);
    let mut app = ViewerCore::with_config(config);
    let folder = ImageFolder::from_paths("b.png", vec!["a.png".to_owned(), "b.png".to_owned()]);
    app.replace_loaded_image(test_image_from_path("b.png", 2, 1), folder, 0);

    assert_eq!(app.begin_navigation_decode(ImageNavigationDirection::Next), None);
    let settings = app.config.navigation_settings();
    assert_eq!(navigation_attempt_path(&app.image_folder, settings, ImageNavigationDirection::Next, 0), None);
    assert_eq!(current_source_path(&app.image_state), Some("b.png"));
}

#[test]
fn applying_navigation_settings_updates_existing_folder_flow() {
    let mut app = new_core();
    let folder = ImageFolder::from_paths("b.png", vec!["a.png".to_owned(), "b.png".to_owned()]);
    app.replace_loaded_image(test_image_from_path("b.png", 2, 1), folder, 0);

    let mut config = app.config.clone();
    let mut navigation = NavigationSettings::default();
    navigation.set_wrap_navigation(false);
    config.set_navigation_settings(navigation);
    assert!(app.apply_config(config, false, false, 0).0);

    assert_eq!(app.begin_navigation_decode(ImageNavigationDirection::Next), None);

    let folder = ImageFolder::from_paths("a.png", vec!["a.png".to_owned(), "b.png".to_owned(), "c.png".to_owned()]);
    app.replace_loaded_image(test_image_from_path("a.png", 2, 1), folder, 0);
    let mut config = app.config.clone();
    let mut navigation = NavigationSettings::default();
    navigation.set_auto_skip_failed_navigation(true);
    navigation.set_max_navigation_attempts_per_command(2);
    config.set_navigation_settings(navigation);
    assert!(app.apply_config(config, false, false, 0).0);

    let request = app.begin_navigation_decode(ImageNavigationDirection::Next).expect("navigation request");
    match app.finish_failed_initial_decode(request.generation(), "Could not find the image file.") {
        DecodeFailurePresentation::RetryNavigation(retry) => {
            assert_eq!(retry.path(), "c.png");
            assert_ne!(retry.generation(), request.generation());
            assert!(!app.decode.is_idle());
        },
        other => panic!("expected retry after applying navigation settings, got {other:?}"),
    }
}

#[test]
fn navigation_attempts_stop_when_used_up_or_when_failures_are_not_skipped() {
    let folder = ImageFolder::from_paths("a.png", vec!["a.png".to_owned(), "b.png".to_owned(), "c.png".to_owned()]);
    let mut settings = NavigationSettings::default();
    settings.set_auto_skip_failed_navigation(false);
    assert_eq!(navigation_attempt_path(&folder, settings, ImageNavigationDirection::Next, 0), Some("b.png"));
    assert_eq!(navigation_attempt_path(&folder, settings, ImageNavigationDirection::Next, 1), None);
    settings.set_auto_skip_failed_navigation(true);
    settings.set_max_navigation_attempts_per_command(2);
    assert_eq!(navigation_attempt_path(&folder, settings, ImageNavigationDirection::Next, 1), Some("c.png"));
    assert_eq!(navigation_attempt_path(&folder, settings, ImageNavigationDirection::Next, 2), None);
}

#[test]
fn app_export_settings_drive_default_format_suffix_and_jpeg_background() {
    let mut config = ViewerConfig::default();
    config.set_export_settings(j3pic::export::ExportSettings::new(
        j3pic::export::DefaultExportFormatPolicy::Jpeg,
        "_edited",
        j3pic::settings::RgbColor::new(10, 20, 30),
    ));
    let app = ViewerCore::with_config(config);

    assert_eq!(app.default_export_format_for_source(SupportedImageFormat::Png), j3pic::export::ExportFormat::Jpeg);
    assert_eq!(app.suggested_export_path("C:/images/photo.png", SupportedImageFormat::Png), "C:/images/photo_edited.jpg");
    assert_eq!(
        app.export_options(j3pic::export::ExportFormat::Jpeg, None).jpeg_alpha_background_rgb(),
        j3pic::settings::RgbColor::new(10, 20, 30)
    );
}

#[test]
fn memory_policy_evicts_only_selected_animation_frame_cache_entry() {
    let mut app = new_core();
    app.replace_loaded_image(animated_test_image("anim.gif", 2, 1), ImageFolder::empty(), 0);
    let max_entry_bytes = app.memory_policy.max_cache_entry_bytes();
    app.paint_count = 1;
    app.frames.store(1, test_rgba8_image(2, 1), max_entry_bytes, app.paint_count);
    app.paint_count = 2;
    app.frames.store(2, test_rgba8_image(2, 1), max_entry_bytes, app.paint_count);

    let mut config = app.config.clone();
    let mut memory_policy = config.memory_policy_settings();
    memory_policy.set_max_cache_entries(1);
    config.set_memory_policy_settings(memory_policy);
    assert!(app.apply_config(config, false, false, 0).0);

    assert_eq!(app.frames.len(), 1);
    assert!(app.frames.take(2).is_some());
}

#[test]
fn rotated_display_image_is_cached_for_same_image_and_rotation() {
    let mut app = new_core();
    app.replace_loaded_image(test_image("cache.png", 3, 2), ImageFolder::empty(), 0);

    assert!(app.rotate_clockwise());
    assert_eq!(
        j3pic::display::prepare_display_pixels(&app.image_state, app.user_rotation, app.image_revision, &mut app.render, app.paint_count),
        Some(true)
    );
    let first_pixels = shared_display_pixels(&app);
    assert_eq!(
        j3pic::display::prepare_display_pixels(&app.image_state, app.user_rotation, app.image_revision, &mut app.render, app.paint_count),
        Some(false)
    );
    let second_pixels = shared_display_pixels(&app);

    assert!(std::sync::Arc::ptr_eq(&first_pixels, &second_pixels));
}

fn shared_display_pixels(app: &ViewerCore) -> std::sync::Arc<j3pic::pixels::PixelImage> {
    let ImageState::Loaded(image) = &app.image_state else {
        panic!("an image should be shown");
    };
    let orientation = current_display_orientation(&app.image_state, app.user_rotation).expect("orientation");
    app.render.shared_oriented_image(app.image_revision, image.pixels().size(), orientation).expect("display image")
}

fn test_rgb8_image(name: &str, width: u32, height: u32, exif_orientation: ImageOrientation) -> LoadedImage {
    let pixels = (0..width * height).flat_map(|index| [index as u8, 0, 255]).collect::<Vec<_>>();
    LoadedImage::from_pixels(
        j3pic::pixels::PixelImage::from(j3pic::pixels::Rgb8Image::new(width, height, pixels)),
        ImageMetadata::with_exif_orientation(name.to_owned(), 0, SupportedImageFormat::Jpeg, exif_orientation),
    )
}

/// Prepares what a fit-to-window paint draws at `display`, as the window's
/// driver does: the upright copy, then the scaled copy, holding the caches to
/// the memory policy after each one kept.
fn render_at(app: &mut ViewerCore, display: ImageSize) {
    let stored = j3pic::display::prepare_display_pixels(&app.image_state, app.user_rotation, app.image_revision, &mut app.render, app.paint_count)
        .expect("display pixels");
    if stored {
        app.enforce_memory_policy(0);
    }
    let update = j3pic::display::refresh_scaled_copy(
        &mut app.render,
        &app.image_state,
        app.user_rotation,
        app.image_revision,
        display,
        j3pic::geometry::ScalingQuality::Balanced,
        false,
        app.memory_policy.max_cache_entry_bytes(),
        app.paint_count,
    )
    .expect("render update");
    if update.stored {
        app.enforce_memory_policy(0);
    }
}

#[test]
fn image_transition_clears_all_memory_backed_caches() {
    let mut app = new_core();
    app.replace_loaded_image(test_image("first.png", 1000, 800), ImageFolder::empty(), 0);

    assert!(app.rotate_clockwise());
    render_at(&mut app, ImageSize::new(320, 400));
    let max_entry_bytes = app.memory_policy.max_cache_entry_bytes();
    app.frames.store(1, test_rgba8_image(2, 1), max_entry_bytes, app.paint_count);

    assert!(app.render.has_oriented_image());
    assert!(app.render.has_scaled_image());
    assert_eq!(app.frames.len(), 1);

    app.replace_loaded_image(test_image("second.png", 10, 10), ImageFolder::empty(), 0);

    assert!(!app.render.has_oriented_image());
    assert!(!app.render.has_scaled_image());
    assert_eq!(app.frames.len(), 0);
}

#[test]
fn applying_animation_frame_invalidates_scaled_cache() {
    let mut app = new_core();
    app.replace_loaded_image(animated_test_image("anim-large.gif", 1000, 800), ImageFolder::empty(), 0);
    render_at(&mut app, ImageSize::new(500, 400));
    assert!(app.render.has_scaled_image());

    let request = step_next_frame(&mut app);
    assert_eq!(apply_frame(&mut app, &request, test_rgba8_image(1000, 800)), DecodeApplyOutcome::Applied);

    assert!(!app.render.has_scaled_image());
}

#[test]
fn navigation_preloads_do_not_evict_required_oriented_display_pixels() {
    let mut app = new_core();
    app.viewport = j3pic::geometry::ViewportSize::from_client_size(40, 40);
    app.replace_loaded_image(test_rgb8_image("current.jpg", 100, 80, ImageOrientation::Rotate90), ImageFolder::empty(), 0);

    render_at(&mut app, ImageSize::new(32, 40));
    assert!(app.render.has_oriented_image());
    assert!(app.render.has_scaled_image());
    app.paint_count += 1;

    for (index, path) in ["previous.jpg", "next.jpg"].into_iter().enumerate() {
        let timing = app.config.animation_timing_settings();
        app.preloads.store(
            index as u64 + 100,
            test_rgb8_image(path, 100, 80, ImageOrientation::Normal),
            app.viewport,
            app.memory_policy,
            timing,
            app.paint_count + index as u64 + 1,
        );
    }
    app.enforce_memory_policy(0);

    assert!(app.render.has_oriented_image());
    render_at(&mut app, ImageSize::new(32, 40));
    let pixels = display_pixels(&app.image_state, app.user_rotation, app.image_revision, &app.render)
        .expect("oriented image should remain renderable after preload pressure");
    assert!(pixels.is_valid());
}

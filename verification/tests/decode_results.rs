use std::time::{Duration, UNIX_EPOCH};

use j3pic::commands::ImageNavigationDirection;
use j3pic::decode::{DecodeFailurePresentation, ImageDecodeCoordinator, NavigationDecodeState};
use j3pic::decode_results::{
    apply_full_resolution_image, apply_scanned_image_folder, begin_full_resolution_decode, begin_navigation_decode_attempt,
    current_source_path,
    finish_failed_decode, finish_failed_initial_decode, finish_pending_folder_scan_without_update,
    is_current_folder_scan_pending, navigation_retry_request, PendingFolderScan,
};
use j3pic::export::SupportedImageFormat;
use j3pic::folder::ImageFolder;
use j3pic::geometry::{ImageBufferKind, ImageSize, ViewportSize};
use j3pic::loaded::{ImageFileVersion, ImageMetadata, ImageState, LoadedImage};
use j3pic::memory::ImageMemoryPolicy;
use j3pic::pixels::{PixelImage, Rgba8Image};
use j3pic::settings::{AnimationTimingSettings, NavigationSettings, UiLanguage};
use j3pic::viewer::{DecodeApplyOutcome, ImageDecodePurpose};

fn test_rgba8_image(width: u32, height: u32) -> Rgba8Image {
    Rgba8Image::new(width, height, vec![7u8; (width * height * 4) as usize])
}

fn preview_test_image(name: &str) -> ImageState {
    ImageState::Loaded(LoadedImage::from_preview(
        test_rgba8_image(10, 10),
        ImageSize::new(20, 20),
        ImageMetadata::with_file_version(name.to_owned(), ImageFileVersion::new(0, UNIX_EPOCH), SupportedImageFormat::Png),
    ))
}

fn begin_full_resolution(coordinator: &mut ImageDecodeCoordinator, path: &str) {
    coordinator.begin_full_resolution(
        path.to_owned(),
        ImageFileVersion::new(0, UNIX_EPOCH),
        ViewportSize::from_client_size(100, 100),
        ImageMemoryPolicy::defaults(),
        AnimationTimingSettings::defaults(),
    );
}

fn shown(state: &ImageState) -> (ImageBufferKind, ImageSize) {
    match state {
        ImageState::Loaded(image) => (image.buffer_kind(), image.pixels().size()),
        ImageState::Empty => panic!("image should remain loaded"),
    }
}

#[test]
fn full_resolution_result_for_changed_file_version_is_stale() {
    let mut coordinator = ImageDecodeCoordinator::new();
    let mut state = preview_test_image("same.png");
    begin_full_resolution(&mut coordinator, "same.png");
    let changed_version = ImageFileVersion::new(0, UNIX_EPOCH + Duration::from_secs(1));
    let generation = coordinator.generation();

    let outcome = apply_full_resolution_image(
        &mut coordinator,
        &mut state,
        generation,
        Some(changed_version),
        PixelImage::from(test_rgba8_image(20, 20)),
    );

    assert_eq!(outcome, DecodeApplyOutcome::Stale);
    assert_eq!(shown(&state), (ImageBufferKind::Preview, ImageSize::new(10, 10)));
    assert!(coordinator.is_idle());
}

#[test]
fn full_resolution_for_another_image_is_stale_and_the_current_one_is_applied() {
    let mut coordinator = ImageDecodeCoordinator::new();
    let mut state = preview_test_image("second.png");
    begin_full_resolution(&mut coordinator, "first.png");
    let generation = coordinator.generation();
    let outcome = apply_full_resolution_image(
        &mut coordinator,
        &mut state,
        generation,
        Some(ImageFileVersion::new(0, UNIX_EPOCH)),
        PixelImage::from(test_rgba8_image(20, 20)),
    );
    assert_eq!(outcome, DecodeApplyOutcome::Stale);
    assert_eq!(current_source_path(&state), Some("second.png"));
    assert_eq!(shown(&state), (ImageBufferKind::Preview, ImageSize::new(10, 10)));

    begin_full_resolution(&mut coordinator, "second.png");
    let wrong_size = apply_full_resolution_image(
        &mut coordinator,
        &mut state,
        generation,
        Some(ImageFileVersion::new(0, UNIX_EPOCH)),
        PixelImage::from(test_rgba8_image(10, 20)),
    );
    assert_eq!(wrong_size, DecodeApplyOutcome::Unchanged);

    begin_full_resolution(&mut coordinator, "second.png");
    let applied = apply_full_resolution_image(
        &mut coordinator,
        &mut state,
        generation,
        Some(ImageFileVersion::new(0, UNIX_EPOCH)),
        PixelImage::from(test_rgba8_image(20, 20)),
    );
    assert_eq!(applied, DecodeApplyOutcome::Applied);
    assert_eq!(shown(&state), (ImageBufferKind::FullResolution, ImageSize::new(20, 20)));

    let late = apply_full_resolution_image(
        &mut coordinator,
        &mut state,
        generation,
        Some(ImageFileVersion::new(0, UNIX_EPOCH)),
        PixelImage::from(test_rgba8_image(20, 20)),
    );
    assert_eq!(late, DecodeApplyOutcome::Stale);
}

#[test]
fn folder_scans_apply_only_to_the_shown_image_of_the_current_generation() {
    let mut coordinator = ImageDecodeCoordinator::new();
    let request = coordinator.begin_initial(
        "b.png".to_owned(),
        ViewportSize::from_client_size(100, 100),
        ImageMemoryPolicy::defaults(),
        AnimationTimingSettings::defaults(),
        ImageDecodePurpose::OpenImage,
        None,
    );
    let state = preview_test_image("b.png");
    let mut folder = ImageFolder::empty();
    let mut pending = Some(PendingFolderScan { generation: request.generation(), path: "b.png".to_owned() });
    assert!(is_current_folder_scan_pending(&pending, &state, &coordinator));

    let scanned = ImageFolder::from_paths("b.png", vec!["a.png".to_owned(), "b.png".to_owned()]);
    let other = apply_scanned_image_folder(&coordinator, &state, &mut folder, &mut pending, request.generation(), "a.png", scanned);
    assert_eq!(other, DecodeApplyOutcome::Stale);
    assert!(folder.is_empty());

    let scanned = ImageFolder::from_paths("b.png", vec!["a.png".to_owned(), "b.png".to_owned()]);
    let applied =
        apply_scanned_image_folder(&coordinator, &state, &mut folder, &mut pending, request.generation(), "b.png", scanned);
    assert_eq!(applied, DecodeApplyOutcome::Applied);
    assert_eq!(folder.len(), 2);
    assert!(pending.is_none());
    assert!(!is_current_folder_scan_pending(&pending, &state, &coordinator));
}

#[test]
fn a_scan_without_news_ends_the_wait_for_it_and_for_navigation() {
    let mut coordinator = ImageDecodeCoordinator::new();
    let request = coordinator.begin_initial(
        "b.png".to_owned(),
        ViewportSize::from_client_size(100, 100),
        ImageMemoryPolicy::defaults(),
        AnimationTimingSettings::defaults(),
        ImageDecodePurpose::OpenImage,
        None,
    );
    let state = preview_test_image("b.png");
    let mut pending = Some(PendingFolderScan { generation: request.generation(), path: "b.png".to_owned() });
    let mut navigation = Some(ImageNavigationDirection::Next);

    let stale = finish_pending_folder_scan_without_update(&coordinator, &state, &mut pending, &mut navigation, request.generation(), "c.png");
    assert_eq!(stale, DecodeApplyOutcome::Stale);
    assert!(pending.is_some() && navigation.is_some());

    let applied = finish_pending_folder_scan_without_update(&coordinator, &state, &mut pending, &mut navigation, request.generation(), "b.png");
    assert_eq!(applied, DecodeApplyOutcome::Applied);
    assert!(pending.is_none() && navigation.is_none());

    let again = finish_pending_folder_scan_without_update(&coordinator, &state, &mut pending, &mut navigation, request.generation(), "b.png");
    assert_eq!(again, DecodeApplyOutcome::Stale);
}

fn begin_navigation(
    coordinator: &mut ImageDecodeCoordinator,
    folder: &ImageFolder,
    settings: NavigationSettings,
) -> j3pic::decode::ImageDecodeRequest {
    begin_navigation_decode_attempt(
        coordinator,
        folder,
        settings,
        ViewportSize::from_client_size(100, 100),
        ImageMemoryPolicy::defaults(),
        AnimationTimingSettings::defaults(),
        ImageNavigationDirection::Next,
        0,
    )
    .expect("navigation request")
}

fn fail(
    coordinator: &mut ImageDecodeCoordinator,
    folder: &ImageFolder,
    settings: NavigationSettings,
    generation: j3pic::scaling::DecodeGeneration,
) -> (DecodeFailurePresentation, Option<String>) {
    finish_failed_initial_decode(
        coordinator,
        folder,
        settings,
        ViewportSize::from_client_size(100, 100),
        ImageMemoryPolicy::defaults(),
        AnimationTimingSettings::defaults(),
        generation,
        "Could not find the image file.",
        UiLanguage::English,
    )
}

#[test]
fn navigation_decode_failure_can_request_configured_auto_skip_retry() {
    let mut navigation = NavigationSettings::defaults();
    navigation.set_auto_skip_failed_navigation(true);
    navigation.set_max_navigation_attempts_per_command(2);
    let folder = ImageFolder::from_paths("a.png", vec!["a.png".to_owned(), "b.png".to_owned(), "c.png".to_owned()]);
    let mut coordinator = ImageDecodeCoordinator::new();

    let request = begin_navigation(&mut coordinator, &folder, navigation);
    assert_eq!(request.path(), "b.png");
    let (outcome, status) = fail(&mut coordinator, &folder, navigation, request.generation());

    match outcome {
        DecodeFailurePresentation::RetryNavigation(retry) => {
            assert_eq!(retry.path(), "c.png");
            assert_ne!(retry.generation(), request.generation());
        }
        other => panic!("expected retry, got {other:?}"),
    }
    assert_eq!(status, None);
}

#[test]
fn failed_navigation_without_retry_reports_status_and_ends_the_decode() {
    let folder = ImageFolder::from_paths("a.png", vec!["a.png".to_owned(), "b.png".to_owned()]);
    let mut coordinator = ImageDecodeCoordinator::new();
    let settings = NavigationSettings::defaults();
    let request = begin_navigation(&mut coordinator, &folder, settings);
    let (outcome, status) = fail(&mut coordinator, &folder, settings, request.generation());

    assert_eq!(outcome, DecodeFailurePresentation::StatusMessage);
    let status = status.expect("navigation failure status");
    assert!(status.contains("Could not open the image to navigate to"));
    assert!(status.contains("The current image is kept"));
    assert!(status.contains("Could not find the image file"));
    assert!(coordinator.is_idle());

    let (late, _) = fail(&mut coordinator, &folder, settings, request.generation());
    assert_eq!(late, DecodeFailurePresentation::Stale);
}

#[test]
fn failed_open_is_reported_in_a_message_box() {
    let folder = ImageFolder::empty();
    let mut coordinator = ImageDecodeCoordinator::new();
    let request = coordinator.begin_initial(
        "missing.png".to_owned(),
        ViewportSize::from_client_size(100, 100),
        ImageMemoryPolicy::defaults(),
        AnimationTimingSettings::defaults(),
        ImageDecodePurpose::OpenImage,
        None,
    );
    let (outcome, status) = fail(&mut coordinator, &folder, NavigationSettings::defaults(), request.generation());
    assert_eq!(outcome, DecodeFailurePresentation::MessageBox);
    assert_eq!(status, None);
    assert!(coordinator.is_idle());
}

#[test]
fn failed_full_resolution_decode_ends_only_the_matching_decode() {
    let mut coordinator = ImageDecodeCoordinator::new();
    begin_full_resolution(&mut coordinator, "same.png");
    let generation = coordinator.generation();
    let changed = ImageFileVersion::new(0, UNIX_EPOCH + Duration::from_secs(1));
    assert_eq!(finish_failed_decode(&mut coordinator, generation, Some(changed)), DecodeApplyOutcome::Stale);
    assert!(!coordinator.is_idle());
    assert_eq!(
        finish_failed_decode(&mut coordinator, generation, Some(ImageFileVersion::new(0, UNIX_EPOCH))),
        DecodeApplyOutcome::Applied
    );
    assert!(coordinator.is_idle());
}

#[test]
fn navigation_retries_stop_at_the_configured_attempts() {
    let mut navigation = NavigationSettings::defaults();
    navigation.set_auto_skip_failed_navigation(true);
    navigation.set_max_navigation_attempts_per_command(2);
    let folder = ImageFolder::from_paths("a.png", vec!["a.png".to_owned(), "b.png".to_owned(), "c.png".to_owned()]);
    let mut coordinator = ImageDecodeCoordinator::new();
    let state = NavigationDecodeState { direction: ImageNavigationDirection::Next, attempt_index: 1 };
    let retry = navigation_retry_request(
        &mut coordinator,
        &folder,
        navigation,
        ViewportSize::from_client_size(100, 100),
        ImageMemoryPolicy::defaults(),
        AnimationTimingSettings::defaults(),
        state,
    );
    assert!(retry.is_none());
    assert!(coordinator.is_idle());
}

#[test]
fn full_resolution_is_asked_for_only_for_a_still_preview_the_view_wants() {
    let mut coordinator = ImageDecodeCoordinator::new();
    let state = preview_test_image("big.png");
    let viewport = ViewportSize::from_client_size(100, 100);
    let policy = ImageMemoryPolicy::defaults();
    let timing = AnimationTimingSettings::defaults();

    assert!(begin_full_resolution_decode(&mut coordinator, &state, viewport, policy, timing, false).is_none());
    assert!(coordinator.is_idle());

    let request = begin_full_resolution_decode(&mut coordinator, &state, viewport, policy, timing, true)
        .expect("full-resolution request");
    assert_eq!(request.path(), "big.png");
    assert_eq!(request.purpose(), ImageDecodePurpose::FullResolution);
    assert_eq!(request.file_version(), Some(ImageFileVersion::new(0, UNIX_EPOCH)));
    assert_eq!(request.generation(), coordinator.generation());
    assert!(!coordinator.is_idle());
    assert!(begin_full_resolution_decode(&mut coordinator, &state, viewport, policy, timing, true).is_none());

    let mut fresh = ImageDecodeCoordinator::new();
    assert!(begin_full_resolution_decode(&mut fresh, &ImageState::Empty, viewport, policy, timing, true).is_none());
    let full = ImageState::Loaded(LoadedImage::new(
        test_rgba8_image(2, 2),
        ImageMetadata::with_file_version("full.png".to_owned(), ImageFileVersion::new(0, UNIX_EPOCH), SupportedImageFormat::Png),
    ));
    assert!(begin_full_resolution_decode(&mut fresh, &full, viewport, policy, timing, true).is_none());
}

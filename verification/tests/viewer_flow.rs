use std::time::SystemTime;

use j3pic::about::{about_title, licenses_label, normalize_line_endings, source_code_label, version_label};
use j3pic::commands::ImageNavigationDirection;
use j3pic::decode::{navigation_failure_status_text, ImageDecodeCoordinator, NavigationDecodeState};
use j3pic::export::SupportedImageFormat;
use j3pic::geometry::{ImageRotation, ViewportSize};
use j3pic::info::image_status_text_with_zoom_text;
use j3pic::loaded::{ImageFileVersion, ImageMetadata, LoadedImage};
use j3pic::memory::ImageMemoryPolicy;
use j3pic::pixels::Rgba8Image;
use j3pic::profile::{push_profile_table_row, ProfileTableRow};
use j3pic::settings::{AnimationTimingSettings, NavigationSettings, UiLanguage};
use j3pic::viewer::ImageDecodePurpose;

const MILLISECOND_NANOS: u128 = 1_000_000;

#[test]
fn normalize_line_endings_returns_lf_text() {
    assert_eq!(normalize_line_endings("a\r\nb\rc\n"), "a\nb\nc\n");
}

#[test]
fn version_label_uses_cargo_package_version() {
    assert_eq!(version_label(), format!("j3Pic {}", "0.2.0"));
}

#[test]
fn about_labels_follow_language() {
    assert_eq!(about_title(UiLanguage::English), "About j3Pic");
    assert_eq!(about_title(UiLanguage::Korean), "j3Pic 정보");
    assert_eq!(licenses_label(UiLanguage::English), "Licenses");
    assert_eq!(licenses_label(UiLanguage::Korean), "라이선스");
    assert_eq!(source_code_label(UiLanguage::English), "Source code:");
    assert_eq!(source_code_label(UiLanguage::Korean), "소스 코드:");
    assert_eq!(normalize_line_endings("\r\r\n\n\r"), "\n\n\n\n");
    assert_eq!(normalize_line_endings(""), "");
}

#[test]
fn profile_table_rows_accumulate_totals_without_time_thresholds() {
    let mut rows = vec![ProfileTableRow::new("open.complete", 3 * MILLISECOND_NANOS, 5 * MILLISECOND_NANOS)];

    push_profile_table_row(&mut rows, "app.prepare_first_render", 7 * MILLISECOND_NANOS);
    push_profile_table_row(&mut rows, "win32.prepare_paint_dib", 11 * MILLISECOND_NANOS);

    assert_eq!(rows[1].total_nanos, 12 * MILLISECOND_NANOS);
    assert_eq!(rows[2].total_nanos, 23 * MILLISECOND_NANOS);
}

#[test]
fn first_profile_row_total_is_its_own_time() {
    let mut rows = Vec::new();
    push_profile_table_row(&mut rows, "open.format_detection", MILLISECOND_NANOS);
    assert_eq!(rows, vec![ProfileTableRow::new("open.format_detection", MILLISECOND_NANOS, MILLISECOND_NANOS)]);
}

#[test]
fn decode_coordinator_moves_generation_only_for_new_images() {
    let mut coordinator = ImageDecodeCoordinator::new();
    assert_eq!(coordinator.generation().value(), 0);
    assert!(coordinator.is_idle());

    let navigation = NavigationDecodeState { direction: ImageNavigationDirection::Next, attempt_index: 1 };
    let request = coordinator.begin_initial(
        "C:/images/a.png".to_owned(),
        ViewportSize::from_client_size(800, 600),
        ImageMemoryPolicy::defaults(),
        AnimationTimingSettings::defaults(),
        ImageDecodePurpose::FolderNavigation(ImageNavigationDirection::Next),
        Some(navigation),
    );
    let first = coordinator.generation();
    assert_eq!(first.value(), 1);
    assert_eq!(request.generation(), first);
    assert_eq!(request.path(), "C:/images/a.png");
    assert_eq!(request.file_version(), None);
    assert_eq!(request.viewport(), ViewportSize::from_client_size(800, 600));
    assert_eq!(request.purpose(), ImageDecodePurpose::FolderNavigation(ImageNavigationDirection::Next));
    assert!(!coordinator.is_idle());
    assert!(coordinator.is_stale(j3pic::scaling::DecodeGeneration::zero()));
    assert!(!coordinator.is_stale(first));
    assert_eq!(
        coordinator.active_initial_state(first),
        Some((ImageDecodePurpose::FolderNavigation(ImageNavigationDirection::Next), Some(navigation)))
    );
    assert_eq!(coordinator.active_initial_path(first), Some("C:/images/a.png"));
    assert_eq!(coordinator.active_full_resolution_source(first), None);

    let version = ImageFileVersion::new(42, SystemTime::UNIX_EPOCH);
    let full = coordinator.begin_full_resolution(
        "C:/images/a.png".to_owned(),
        version,
        ViewportSize::from_client_size(800, 600),
        ImageMemoryPolicy::defaults(),
        AnimationTimingSettings::defaults(),
    );
    assert_eq!(coordinator.generation(), first);
    assert_eq!(full.generation(), first);
    assert_eq!(full.purpose(), ImageDecodePurpose::FullResolution);
    assert_eq!(coordinator.active_initial_state(first), None);
    assert_eq!(coordinator.active_initial_path(first), None);
    assert_eq!(coordinator.active_full_resolution_source(first), Some(("C:/images/a.png", version)));

    coordinator.clear();
    assert!(coordinator.is_idle());
    assert_eq!(coordinator.generation(), first);

    coordinator.begin_initial(
        "C:/images/b.png".to_owned(),
        ViewportSize::empty(),
        ImageMemoryPolicy::defaults(),
        AnimationTimingSettings::defaults(),
        ImageDecodePurpose::OpenImage,
        None,
    );
    assert!(coordinator.is_stale(first));
    assert_eq!(coordinator.active_initial_state(first), None);
}

#[test]
fn navigation_failure_text_says_whether_images_were_skipped() {
    let mut settings = NavigationSettings::defaults();
    assert_eq!(
        navigation_failure_status_text("The file is damaged.", settings, UiLanguage::English),
        "Could not open the image to navigate to: The file is damaged. The current image is kept."
    );
    assert_eq!(
        navigation_failure_status_text("손상됨.", settings, UiLanguage::Korean),
        "이동할 이미지를 열 수 없습니다: 손상됨. 현재 이미지를 유지합니다."
    );
    settings.set_auto_skip_failed_navigation(true);
    assert_eq!(
        navigation_failure_status_text("The file is damaged.", settings, UiLanguage::English),
        "Could not open the image to navigate to: The file is damaged. The current image is kept."
    );
    settings.set_max_navigation_attempts_per_command(3);
    assert_eq!(
        navigation_failure_status_text("The file is damaged.", settings, UiLanguage::English),
        "Could not open the image to navigate to: The file is damaged. No skippable image was found, so the current image is kept."
    );
    assert_eq!(
        navigation_failure_status_text("손상됨.", settings, UiLanguage::Korean),
        "이동할 이미지를 열 수 없습니다: 손상됨. 건너뛸 수 있는 이미지를 찾지 못해 현재 이미지를 유지합니다."
    );
}

#[test]
fn status_text_joins_description_and_zoom() {
    let image = LoadedImage::new(
        Rgba8Image::new(1920, 1080, Vec::new()),
        ImageMetadata::new(String::from("C:/images/photo.JPG"), 1_572_864, SupportedImageFormat::Jpeg),
    );
    assert_eq!(
        image_status_text_with_zoom_text(&image, ImageRotation::Degrees0, "100%", true),
        "photo.JPG | 1920x1080 | 1.5 MB | JPEG | 100%"
    );
    assert_eq!(image_status_text_with_zoom_text(&image, ImageRotation::Degrees90, "Fit", false), "photo.JPG | Fit");
}

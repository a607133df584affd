use std::path::PathBuf;

use j3pic::animation::{
    animation_state_after_manual_step, animation_state_after_timer_tick, animation_state_after_toggle,
    AnimationFrameStepDirection, AnimationLoopPolicy, AnimationPlayback, AnimationPlaybackState,
};
use j3pic::commands::{
    command_for_key_input, resolve_contextual_command, AnimationCommand, Command, CommandContext,
    ImageNavigationDirection, KeyCode, KeyInput, KeyModifiers,
};
use j3pic::config::{
    config_default_export_format_policy_from_name, config_default_export_format_policy_name,
    config_mouse_shortcut_from_name, config_mouse_shortcut_name, config_rgb_color_value,
    config_scaling_quality_from_name, config_scaling_quality_name, config_ui_language_from_name,
    config_ui_language_name, config_view_mode_from_name, config_view_mode_name, parse_config_bool,
    parse_config_entries, parse_config_i128, parse_config_rgb_color, parse_config_values,
    sanitize_optional_config_u8, AppConfigParseError,
};
use j3pic::config_text::{config_string_value, config_value_text, unescape_config_value};
use j3pic::export::{
    export_path_with_format_extension, sanitize_export_filename_suffix, suggested_export_path_with_suffix,
    validate_export_filename_suffix, DefaultExportFormatPolicy, ExportFilenameSuffixValidationError, ExportFormat,
    ExportOptions, ExportSettings, SupportedImageFormat,
};
use j3pic::folder::{navigation_index_for_attempt, sorted_supported_image_paths, ImageFolder};
use j3pic::geometry::{ImageOrientation, ImageRotation, ImageSize, PixelFormat, ScalingQuality, ViewMode};
use j3pic::info::{decimal_text, format_file_size, image_metadata_info_text};
use j3pic::loaded::{file_name_for_display, ImageMetadata, LoadedImage};
use j3pic::pixels::{orient_pixel_image, PixelImage, Rgb8Image, Rgba8Image};
use j3pic::resample::{resample_display_pixels, resize_export_pixels, ExportResizeError};
use j3pic::scaling::scaling_cache_target_size;
use j3pic::settings::{MouseShortcut, RgbColor, UiLanguage};
use j3pic::text::{eq_ignore_ascii_case, is_control, is_whitespace, split_text, trim};
use j3pic::viewer::{export_success_status_text, image_title, parent_folder};

/// The formatting the file size text follows, written with floating point.
fn file_size_with_floats(bytes: u64) -> String {
    const UNITS: [&str; 5] = ["B", "KB", "MB", "GB", "TB"];
    if bytes < 1024 {
        return format!("{bytes} B");
    }
    let mut value = bytes as f64;
    let mut unit_index = 0usize;
    while value >= 1024.0 && unit_index < UNITS.len() - 1 {
        value /= 1024.0;
        unit_index += 1;
    }
    format!("{value:.1} {}", UNITS[unit_index])
}

#[test]
fn file_size_text_matches_floating_point_formatting() {
    let mut values = vec![
        1024,
        1075,
        1076,
        1127,
        1_048_575,
        1_048_576 + 52_428,
        5 * 1024 * 1024 / 2 + 51_200,
        (1 << 53) - 1,
        1 << 53,
        (1 << 53) + 1,
        (1 << 53) + 3,
        (1 << 60) + 12345,
        u64::MAX,
        u64::MAX - 1024,
        1_099_511_627_776 * 1023 + 1,
        1_099_511_627_776 * 1025,
    ];
    let mut seed: u64 = 0x2545_f491_4f6c_dd1d;
    for _ in 0..2000 {
        seed ^= seed << 13;
        seed ^= seed >> 7;
        seed ^= seed << 17;
        values.push(seed >> (seed % 60));
    }
    for bytes in values {
        assert_eq!(format_file_size(bytes), file_size_with_floats(bytes), "{bytes}");
    }
}

#[test]
fn decimal_text_writes_digits() {
    assert_eq!(decimal_text(0), "0");
    assert_eq!(decimal_text(7), "7");
    assert_eq!(decimal_text(1920), "1920");
    assert_eq!(decimal_text(u64::MAX), u64::MAX.to_string());
}

#[test]
fn text_rules_follow_std() {
    assert_eq!(trim("  \t a b \u{3000}\n"), "a b");
    assert_eq!(trim(""), "");
    assert!(eq_ignore_ascii_case("JpEg", "jpeg"));
    assert!(!eq_ignore_ascii_case("jpeg", "jpg"));
    for code in 0u32..0x3100 {
        if let Some(c) = char::from_u32(code) {
            assert_eq!(is_control(c), c.is_control(), "{code:x}");
            assert_eq!(is_whitespace(c), c.is_whitespace(), "{code:x}");
        }
    }
    assert_eq!(split_text("1, 2,,3", ','), vec!["1", " 2", "", "3"]);
}

#[test]
fn quoted_values_read_back_as_written() {
    let samples = ["", "plain", "C:\\Images\\A=B", "quote \" and \\", "tab\tnew\nline\r", "bell\u{7}\u{9f}", "한글 ✓"];
    for sample in samples {
        let quoted = config_string_value(sample);
        assert!(quoted.starts_with('"') && quoted.ends_with('"'));
        assert_eq!(config_value_text(&quoted), Some(sample.to_owned()), "{quoted}");
    }
    assert_eq!(config_string_value("a\u{1}b"), "\"a\\u0001b\"");
    assert_eq!(unescape_config_value("\\u0041\\U0001F600"), Some("A\u{1F600}".to_owned()));
    assert_eq!(unescape_config_value("\\uD800"), None);
    assert_eq!(unescape_config_value("\\x"), None);
    assert_eq!(unescape_config_value("trailing\\"), None);
    assert_eq!(config_value_text("\"unterminated"), None);
}

#[test]
fn setting_names_read_back() {
    for language in [UiLanguage::English, UiLanguage::Korean] {
        assert_eq!(config_ui_language_from_name(config_ui_language_name(language)), Some(language));
    }
    for mode in [ViewMode::FitToWindow, ViewMode::ActualSize, ViewMode::ManualZoom] {
        let expected = if mode == ViewMode::ActualSize { ViewMode::ActualSize } else { ViewMode::FitToWindow };
        assert_eq!(config_view_mode_from_name(config_view_mode_name(mode)), Some(expected));
    }
    for quality in [ScalingQuality::Nearest, ScalingQuality::Balanced, ScalingQuality::HighQuality] {
        assert_eq!(config_scaling_quality_from_name(config_scaling_quality_name(quality)), Some(quality));
    }
    for policy in [
        DefaultExportFormatPolicy::Source,
        DefaultExportFormatPolicy::Png,
        DefaultExportFormatPolicy::Jpeg,
        DefaultExportFormatPolicy::Bmp,
        DefaultExportFormatPolicy::Webp,
        DefaultExportFormatPolicy::Ico,
    ] {
        assert_eq!(config_default_export_format_policy_from_name(config_default_export_format_policy_name(policy)), Some(policy));
    }
    for shortcut in [
        MouseShortcut::MouseWheel,
        MouseShortcut::CtrlMouseWheel,
        MouseShortcut::LeftButtonDrag,
        MouseShortcut::CtrlLeftButtonDrag,
    ] {
        assert_eq!(config_mouse_shortcut_from_name(config_mouse_shortcut_name(shortcut)), Some(shortcut));
    }
    assert_eq!(config_mouse_shortcut_from_name("CTRL+WHEEL"), Some(MouseShortcut::CtrlMouseWheel));
    assert_eq!(config_ui_language_from_name("KR"), Some(UiLanguage::Korean));
    assert_eq!(config_scaling_quality_from_name("bilinear"), None);
}

#[test]
fn setting_values_parse_like_std() {
    assert_eq!(parse_config_bool("YES"), Some(true));
    assert_eq!(parse_config_bool("0"), Some(false));
    assert_eq!(parse_config_bool("on"), None);
    let integers = [
        "0", "42", "-17", "+5", "", "-", "+", "12a", "1 2", "999999999999999999999999999999999999999999",
        "-999999999999999999999999999999999999999999", "170141183460469231731687303715884105727",
        "170141183460469231731687303715884105728", "-170141183460469231731687303715884105728",
        "-170141183460469231731687303715884105729", "99999999999999999999999999999999999999999x", "x9",
    ];
    for text in integers {
        let expected = match text.parse::<i128>() {
            Ok(value) => Some(value),
            Err(error) => match error.kind() {
                std::num::IntErrorKind::PosOverflow => Some(i128::MAX),
                std::num::IntErrorKind::NegOverflow => Some(i128::MIN),
                _ => None,
            },
        };
        assert_eq!(parse_config_i128(text), expected, "{text}");
    }
    let color = parse_config_rgb_color(" 10, 300 ,-5").expect("colour");
    assert_eq!((color.red(), color.green(), color.blue()), (10, 255, 0));
    assert_eq!(parse_config_rgb_color("1,2"), None);
    assert_eq!(parse_config_rgb_color("1,2,3,4"), None);
    assert_eq!(config_rgb_color_value(RgbColor::new(1, 22, 255)), "1,22,255");
    assert_eq!(sanitize_optional_config_u8(Some(1000), 1, 100, 90), 100);
    assert_eq!(sanitize_optional_config_u8(None, 1, 100, 90), 90);
}

#[test]
fn settings_file_lines_report_their_first_error() {
    assert_eq!(
        parse_config_entries("version=1\n# comment\n\nbroken\nui_language=\"\\q\""),
        Err(AppConfigParseError::MalformedLine { line: 4 })
    );
    assert_eq!(
        parse_config_entries("ui_language=\"\\q\"\nbroken"),
        Err(AppConfigParseError::InvalidEscape { line: 1 })
    );
    assert_eq!(parse_config_entries("version=2"), Err(AppConfigParseError::UnsupportedVersion { line: 1 }));
    assert_eq!(parse_config_entries(" =3"), Err(AppConfigParseError::MalformedLine { line: 1 }));
    assert_eq!(AppConfigParseError::InvalidEscape { line: 12 }.message(), "invalid app config escape: line 12");
    let entries = parse_config_entries("a = b = c\r\n  key=  value  \n").expect("entries");
    assert_eq!(entries.len(), 2);
    assert_eq!((entries[0].line, entries[0].key.as_str(), entries[0].value.as_str()), (1, "a", "b = c"));
    assert_eq!((entries[1].line, entries[1].key.as_str(), entries[1].value.as_str()), (2, "key", "value"));
    assert_eq!(parse_config_values("# nothing\n\n"), Ok(None));
}

#[test]
fn settings_file_values_take_the_last_entry() {
    let values = parse_config_values(
        "window.x=10\nwindow.x=oops\nwindow.y=20\nwindow.width=800\nwindow.height=600\n\
         ui_language=\"ko\"\nexport_filename_suffix=\"bad\\q\"\njpeg_alpha_background_rgb=1,2,3\n\
         default_frame_delay_ms=0\nmin_frame_delay_ms=50\nmax_frame_delay_ms=20\nmin_zoom_scale=0.5\n\
         wrap_navigation=no\nmax_navigation_attempts_per_command=1000\nzoom_shortcut=\"wheel\"\n",
    )
    .expect("readable")
    .expect("values");
    assert_eq!(values.window_x, None);
    assert_eq!(values.window_y, Some(20));
    assert_eq!(values.window_bounds(), None);
    assert_eq!(values.ui_language(), UiLanguage::Korean);
    assert_eq!(values.export_filename_suffix.as_deref(), Some("-export"));
    let color = values.jpeg_alpha_background_rgb.expect("colour");
    assert_eq!((color.red(), color.green(), color.blue()), (1, 2, 3));
    let timing = values.animation_timing();
    assert_eq!((timing.default_frame_delay_ms(), timing.min_frame_delay_ms(), timing.max_frame_delay_ms()), (50, 50, 50));
    assert_eq!(values.min_zoom_scale.as_deref(), Some("0.5"));
    let navigation = values.navigation();
    assert!(!navigation.wrap_navigation());
    assert_eq!(navigation.max_navigation_attempts_per_command(), 100);
    assert_eq!(values.interaction().zoom_shortcut(), MouseShortcut::MouseWheel);
    assert_eq!(values.export_settings().export_filename_suffix(), "-export");
    assert_eq!(values.scaling_quality(), ScalingQuality::Balanced);
    assert_eq!(values.export_default_quality(), 90);
}

#[test]
fn export_suffix_validation_reports_each_error() {
    assert_eq!(validate_export_filename_suffix("  _v2 "), Ok("_v2"));
    assert_eq!(validate_export_filename_suffix("   "), Err(ExportFilenameSuffixValidationError::Empty));
    assert_eq!(validate_export_filename_suffix(&"x".repeat(65)), Err(ExportFilenameSuffixValidationError::TooLong));
    assert_eq!(validate_export_filename_suffix("a:b"), Err(ExportFilenameSuffixValidationError::InvalidCharacter));
    assert_eq!(sanitize_export_filename_suffix("a\u{7}"), "-export");
    let mut settings = ExportSettings::new(DefaultExportFormatPolicy::Source, " _copy ", RgbColor::new(0, 0, 0));
    assert_eq!(settings.export_filename_suffix(), "_copy");
    settings.set_export_filename_suffix("a/b");
    assert_eq!(settings.export_filename_suffix(), "-export");
    assert_eq!(settings.default_export_format_policy().export_format_for_source(SupportedImageFormat::Gif), ExportFormat::Png);
}

#[test]
fn export_paths_use_the_platform_path_rules() {
    assert_eq!(
        PathBuf::from(export_path_with_format_extension("a/b.tar.gz", ExportFormat::Webp)),
        PathBuf::from("a/b.tar.webp")
    );
    assert_eq!(
        PathBuf::from(suggested_export_path_with_suffix("dir/.hidden", ExportFormat::Png, "-x")),
        PathBuf::from("dir/.hidden-x.png")
    );
    assert_eq!(parent_folder("dir/file.png"), Some("dir".to_owned()));
    assert_eq!(parent_folder("file.png"), None);
    assert_eq!(file_name_for_display("dir/name.png"), "name.png");
}

#[test]
fn folder_sort_is_stable_and_case_insensitive() {
    let mut seed: u64 = 7;
    let mut paths = Vec::new();
    for index in 0..3000 {
        seed = seed.wrapping_mul(6364136223846793005).wrapping_add(1442695040888963407);
        let name = format!("{}{}.PNG", ["a", "B", "c", "D"][(seed >> 60) as usize % 4], (seed >> 40) % 50);
        paths.push(format!("dir{}/{}", index % 3, if index % 2 == 0 { name.to_lowercase() } else { name }));
    }
    let mut expected: Vec<String> = paths.clone();
    expected.sort_by_key(|path| PathBuf::from(path).file_name().unwrap().to_string_lossy().to_lowercase());
    assert_eq!(sorted_supported_image_paths(paths.clone()), expected);

    let folder = ImageFolder::from_paths("elsewhere/A3.png", paths);
    let index = folder.current_index().expect("found by name");
    assert_eq!(PathBuf::from(&folder.paths()[index]).file_name().unwrap().to_string_lossy().to_lowercase(), "a3.png");
    assert!(folder.paths()[..index]
        .iter()
        .all(|path| PathBuf::from(path).file_name().unwrap().to_string_lossy().to_lowercase() != "a3.png"));
}

#[test]
fn folder_matches_equal_paths_before_names() {
    let folder = ImageFolder::from_paths("b/x.png", vec!["a/x.png".to_owned(), "b//x.png".to_owned()]);
    assert_eq!(folder.current_index(), Some(1));
    let copy = folder.retargeted_current_path("a/x.png").expect("present");
    assert_eq!(copy.current_index(), Some(0));
    assert!(folder.retargeted_current_path("nothing.png").is_none());
}

#[test]
fn navigation_steps_back_to_the_same_image() {
    for len in 2..6usize {
        for current in 0..len {
            let next = navigation_index_for_attempt(len, Some(current), ImageNavigationDirection::Next, true, 0).unwrap();
            let back = navigation_index_for_attempt(len, Some(next), ImageNavigationDirection::Previous, true, 0).unwrap();
            assert_eq!(back, current);
        }
    }
    assert_eq!(navigation_index_for_attempt(4, Some(1), ImageNavigationDirection::Previous, false, 1), None);
    assert_eq!(navigation_index_for_attempt(4, Some(1), ImageNavigationDirection::Next, true, usize::MAX), None);
}

#[test]
fn animation_pause_and_resume_return_the_same_playback() {
    let playback = AnimationPlayback::new(vec![20, 30, 40], AnimationLoopPolicy::Infinite).unwrap();
    let paused = animation_state_after_toggle(&playback);
    let resumed = animation_state_after_toggle(paused.state());
    assert_eq!(resumed.state(), &playback);
    let ignored = animation_state_after_timer_tick(paused.state());
    assert_eq!(ignored.state(), paused.state());
    let forward = animation_state_after_manual_step(&playback, AnimationFrameStepDirection::Next);
    let back = animation_state_after_manual_step(forward.state(), AnimationFrameStepDirection::Previous);
    assert_eq!(back.state().current_frame_index(), 0);
    assert_eq!(back.state().playback_state(), AnimationPlaybackState::Paused);
}

#[test]
fn chords_and_context_resolve_commands() {
    let space = KeyInput::new(KeyCode::Space, KeyModifiers::none());
    assert_eq!(command_for_key_input(space), Some(Command::Navigate(ImageNavigationDirection::Next)));
    assert_eq!(
        resolve_contextual_command(Command::ContextualSpace, CommandContext::AnimationImage),
        Command::Animation(AnimationCommand::TogglePlayback)
    );
    assert_eq!(command_for_key_input(KeyInput::new(KeyCode::Q, KeyModifiers::new(false, false, true))), None);
}

#[test]
fn scaling_targets_share_sixteen_pixel_buckets() {
    let source = ImageSize::new(4000, 3000);
    let a = scaling_cache_target_size(source, ImageSize::new(1001, 751), ScalingQuality::HighQuality);
    let b = scaling_cache_target_size(source, ImageSize::new(1008, 752), ScalingQuality::HighQuality);
    assert_eq!(a, Some(ImageSize::new(1008, 752)));
    assert_eq!(a, b);
}

#[test]
fn resizing_changes_the_pixel_buffer_to_the_target_size() {
    let rgb = PixelImage::from(Rgb8Image::new(4, 2, (0u8..24).collect()));
    let options = ExportOptions::new(ExportFormat::Png, None).with_target_size(Some(ImageSize::new(2, 1)));
    let resized = resize_export_pixels("out.png", rgb, options).expect("resized");
    assert_eq!(resized.size(), ImageSize::new(2, 1));
    assert_eq!(resized.byte_len(), 6);

    let invalid = PixelImage::from(Rgba8Image::new(4, 2, vec![0; 3]));
    assert_eq!(
        resize_export_pixels("out.png", invalid, options),
        Err(ExportResizeError::InvalidPixelBuffer { path: "out.png".to_owned(), size: ImageSize::new(4, 2), actual_len: 3 })
    );

    let rgba = PixelImage::from(Rgba8Image::new(2, 2, vec![255; 16]));
    let display = resample_display_pixels(&rgba, ImageSize::new(1, 1), ScalingQuality::Balanced).expect("display");
    assert_eq!(display.size(), ImageSize::new(1, 1));
    assert_eq!(display.pixels(), &[255, 255, 255, 255]);
    let unchanged = resize_export_pixels("out.png", rgba.clone(), ExportOptions::new(ExportFormat::Png, None)).unwrap();
    assert_eq!(unchanged, rgba);
}

#[test]
fn titles_and_status_lines_describe_the_image() {
    let image = LoadedImage::new(
        Rgba8Image::new(2, 3, vec![0; 24]),
        ImageMetadata::with_exif_orientation("dir/cat.jpg".to_owned(), 2048, SupportedImageFormat::Jpeg, ImageOrientation::Rotate180),
    );
    assert_eq!(image_title(&image, ImageRotation::Degrees0), "cat.jpg (EXIF 3) - j3Pic");
    assert_eq!(image_title(&image, ImageRotation::Degrees270), "cat.jpg (EXIF 3 + rotation 270 deg) - j3Pic");
    let options = ExportOptions::new(ExportFormat::Jpeg, Some(80)).with_target_size(Some(ImageSize::new(640, 480)));
    assert_eq!(
        export_success_status_text("out/photo.jpg", options, UiLanguage::English),
        "Saved: photo.jpg | JPEG quality 80 | 640x480"
    );
    assert_eq!(
        export_success_status_text("out/photo.png", ExportOptions::new(ExportFormat::Png, None), UiLanguage::Korean),
        "저장됨: photo.png | PNG"
    );
    let metadata = ImageMetadata::new("a.bmp".to_owned(), 10, SupportedImageFormat::Bmp);
    assert_eq!(image_metadata_info_text(&metadata, ImageSize::new(3, 4)), "a.bmp | 3x4 | 10 B | BMP");
}

#[test]
fn empty_images_convert_and_orient() {
    let empty_rgb = PixelImage::new(0, 3, Vec::new(), PixelFormat::Rgb8);
    let rgba = empty_rgb.to_rgba8().expect("empty RGBA copy");
    assert_eq!((rgba.width(), rgba.height()), (0, 3));
    let empty_bgra = PixelImage::new(2, 0, Vec::new(), PixelFormat::Bgra8);
    let rotated = orient_pixel_image(&empty_bgra, ImageOrientation::Rotate90).expect("empty oriented copy");
    assert_eq!((rotated.width(), rotated.height()), (0, 2));
}

use j3pic::config::AppConfigParseError;
use j3pic::config_file::{parse_viewer_config, serialize_viewer_config, ViewerConfig};
use j3pic::export::{
    DefaultExportFormatPolicy, ExportFormat, ExportSettings, SupportedImageFormat, DEFAULT_EXPORT_QUALITY,
    MAX_EXPORT_QUALITY, MIN_EXPORT_QUALITY,
};
use j3pic::geometry::{ImageSize, ScalingQuality, ViewMode, WindowBounds};
use j3pic::memory::{
    ImageMemoryPolicy, MemoryPolicySettings, MAX_CONFIG_IMAGE_PIXELS, MAX_CONFIG_MEMORY_MIB,
};
use j3pic::settings::{
    AnimationTimingSettings, InteractionSettings, MouseShortcut, NavigationSettings, RgbColor, StatusUiSettings,
    UiLanguage, MAX_CONFIG_ANIMATION_DELAY_MS,
};

fn write(config: &ViewerConfig) -> String {
    serialize_viewer_config(config, "0.05", "32", "1.25", "0.75")
}

#[test]
fn viewer_config_defaults_are_safe() {
    let config = ViewerConfig::default();

    assert_eq!(config.window_bounds(), None);
    assert_eq!(config.ui_language(), UiLanguage::English);
    assert_eq!(config.default_view_mode(), ViewMode::FitToWindow);
    assert_eq!(config.scaling_quality(), ScalingQuality::Balanced);
    assert_eq!(config.recent_folder(), None);
    assert_eq!(config.export_default_quality(), DEFAULT_EXPORT_QUALITY);
    assert!(config.animation_autoplay());
    assert_eq!(config.memory_policy_settings(), MemoryPolicySettings::default());
    assert_eq!(config.image_memory_policy(), ImageMemoryPolicy::defaults());
    assert_eq!(config.animation_timing_settings(), AnimationTimingSettings::default());
    assert_eq!(config.navigation_settings(), NavigationSettings::default());
    assert_eq!(config.export_settings(), &ExportSettings::default());
    assert_eq!(
        config.export_settings().default_export_format_policy().export_format_for_source(SupportedImageFormat::Webp),
        ExportFormat::Png
    );
    assert_eq!(config.status_ui_settings(), StatusUiSettings::default());
    assert_eq!(config.interaction_settings(), InteractionSettings::default());
}

#[test]
fn app_config_validation_corrects_invalid_values() {
    let config = parse_viewer_config(
        "\
version=1
window.x=10
window.y=20
window.width=20
window.height=30
default_view_mode=manual_zoom
scaling_quality=not-a-quality
recent_folder=
export_default_quality=250
animation_autoplay=maybe
",
    )
    .expect("config parses with corrected values");

    assert_eq!(config.window_bounds(), None);
    assert_eq!(config.default_view_mode(), ViewMode::FitToWindow);
    assert_eq!(config.scaling_quality(), ScalingQuality::Balanced);
    assert_eq!(config.recent_folder(), None);
    assert_eq!(config.export_default_quality(), 100);
    assert!(config.animation_autoplay());
}

#[test]
fn app_config_export_quality_clamps_wide_numeric_values() {
    let too_low = parse_viewer_config("version=1\nexport_default_quality=-25").expect("negative quality parses and clamps");
    let too_high =
        parse_viewer_config("version=1\nexport_default_quality=99999").expect("large quality parses and clamps");

    assert_eq!(too_low.export_default_quality(), 1);
    assert_eq!(too_high.export_default_quality(), 100);
}

#[test]
fn app_config_clamps_integer_overflow_values() {
    let positive_overflow = "\
9999999999999999999999999999999999999999999999999999999999999999";
    let negative_overflow = "\
-9999999999999999999999999999999999999999999999999999999999999999";
    let config = parse_viewer_config(&format!(
        "\
version=1
export_default_quality={positive_overflow}
max_image_pixels={positive_overflow}
large_image_pixel_threshold={positive_overflow}
preview_max_pixels={positive_overflow}
max_transient_decode_mib={positive_overflow}
max_full_resolution_mib={positive_overflow}
max_resident_mib={positive_overflow}
max_cache_entry_mib={positive_overflow}
max_navigation_attempts_per_command={positive_overflow}
default_frame_delay_ms={positive_overflow}
min_frame_delay_ms={negative_overflow}
max_frame_delay_ms={positive_overflow}
jpeg_alpha_background_rgb={positive_overflow},{negative_overflow},{positive_overflow}
"
    ))
    .expect("overflowing numeric config values still parse");

    assert_eq!(config.export_default_quality(), MAX_EXPORT_QUALITY);

    let memory = config.memory_policy_settings();
    assert_eq!(memory.max_image_pixels(), MAX_CONFIG_IMAGE_PIXELS);
    assert_eq!(memory.large_image_pixel_threshold(), MAX_CONFIG_IMAGE_PIXELS);
    assert_eq!(memory.preview_max_pixels(), MAX_CONFIG_IMAGE_PIXELS);
    assert_eq!(memory.max_transient_decode_mib(), MAX_CONFIG_MEMORY_MIB);
    assert_eq!(memory.max_full_resolution_mib(), MAX_CONFIG_MEMORY_MIB);
    assert_eq!(memory.max_resident_mib(), MAX_CONFIG_MEMORY_MIB);
    assert_eq!(memory.max_cache_entry_mib(), MAX_CONFIG_MEMORY_MIB);
    assert_eq!(config.navigation_settings().max_navigation_attempts_per_command(), 100);

    let animation = config.animation_timing_settings();
    assert_eq!(animation.default_frame_delay_ms(), MAX_CONFIG_ANIMATION_DELAY_MS);
    assert_eq!(animation.min_frame_delay_ms(), 1);
    assert_eq!(animation.max_frame_delay_ms(), MAX_CONFIG_ANIMATION_DELAY_MS);

    assert_eq!(config.export_settings().jpeg_alpha_background_rgb(), RgbColor::new(u8::MAX, u8::MIN, u8::MAX));

    let low_quality = parse_viewer_config(&format!("version=1\nexport_default_quality={negative_overflow}"))
        .expect("negative overflowing quality still parses");
    assert_eq!(low_quality.export_default_quality(), MIN_EXPORT_QUALITY);
}

#[test]
fn viewer_config_parses_aliases_escaped_paths_and_bool_values() {
    let config = parse_viewer_config(
        "\
version=1
window.x=-32768
window.y=32767
window.width=320
window.height=240
ui_language=ko
default_view_mode=actual
scaling_quality=high-quality
recent_folder=C:\\\\Images\\\\Reviewed
export_default_quality=50
animation_autoplay=no
",
    )
    .expect("aliased config parses");

    assert_eq!(config.window_bounds(), WindowBounds::new(-32768, 32767, 320, 240));
    assert_eq!(config.ui_language(), UiLanguage::Korean);
    assert_eq!(config.default_view_mode(), ViewMode::ActualSize);
    assert_eq!(config.scaling_quality(), ScalingQuality::HighQuality);
    assert_eq!(config.recent_folder(), Some(r"C:\Images\Reviewed"));
    assert_eq!(config.export_default_quality(), 50);
    assert!(!config.animation_autoplay());

    for value in ["true", "1", "yes"] {
        let parsed = parse_viewer_config(&format!("version=1\nanimation_autoplay={value}"))
            .expect("true boolean alias parses");
        assert!(parsed.animation_autoplay(), "{value}");
    }
}

#[test]
fn app_config_rejects_invalid_recent_folder_escape_with_line_number() {
    assert_eq!(
        parse_viewer_config("version=1\nrecent_folder=C:\\q"),
        Err(AppConfigParseError::InvalidEscape { line: 2 })
    );
}

#[test]
fn app_config_serializes_and_deserializes() {
    let config = ViewerConfig::new(
        WindowBounds::new(12, 34, 800, 600),
        ViewMode::ActualSize,
        ScalingQuality::HighQuality,
        Some(r"C:\Images\A=B".to_owned()),
        95,
        false,
    );

    let serialized = write(&config);
    let parsed = parse_viewer_config(&serialized).expect("serialized config parses");

    assert!(serialized.contains("ui_language=\"english\"\n"));
    assert!(serialized.contains("default_view_mode=\"actual_size\"\n"));
    assert!(serialized.contains("scaling_quality=\"high_quality\"\n"));
    assert!(serialized.contains(r#"recent_folder="C:\\Images\\A=B""#));
    assert_eq!(parsed, config);
}

#[test]
fn app_config_serialization_includes_all_current_user_setting_keys() {
    let serialized = write(&ViewerConfig::default());
    let required_keys = [
        "ui_language=",
        "min_zoom_scale=",
        "max_zoom_scale=",
        "zoom_step_factor=",
        "large_image_pixel_threshold=",
        "max_image_pixels=",
        "preview_max_pixels=",
        "preview_oversample=",
        "fallback_viewport_width=",
        "fallback_viewport_height=",
        "max_transient_decode_mib=",
        "max_full_resolution_mib=",
        "max_resident_mib=",
        "max_cache_entry_mib=",
        "max_cache_entries=",
        "max_animation_metadata_frames=",
        "full_resolution_request_scale=",
        "default_frame_delay_ms=",
        "min_frame_delay_ms=",
        "max_frame_delay_ms=",
        "wrap_navigation=",
        "auto_skip_failed_navigation=",
        "max_navigation_attempts_per_command=",
        "default_export_format_policy=",
        "export_filename_suffix=",
        "jpeg_alpha_background_rgb=",
        "show_status_bar=",
        "detailed_status_text=",
        "zoom_shortcut=",
        "image_navigation_shortcut=",
        "image_pan_shortcut=",
        "window_move_shortcut=",
    ];

    for key in required_keys {
        assert!(serialized.lines().any(|line| line.starts_with(key)), "missing serialized config key {key}");
    }
}

#[test]
fn legacy_config_without_user_settings_keeps_safe_defaults() {
    let config = parse_viewer_config(
        "\
version=1
window.x=10
window.y=20
window.width=640
window.height=480
default_view_mode=actual_size
scaling_quality=nearest
recent_folder=C:\\\\Images
export_default_quality=85
animation_autoplay=false
",
    )
    .expect("legacy config parses");

    assert_eq!(config.default_view_mode(), ViewMode::ActualSize);
    assert_eq!(config.scaling_quality(), ScalingQuality::Nearest);
    assert_eq!(config.export_default_quality(), 85);
    assert!(!config.animation_autoplay());
    assert_eq!(config.ui_language(), UiLanguage::English);
    assert_eq!(config.memory_policy_settings(), MemoryPolicySettings::default());
    assert_eq!(config.image_memory_policy(), ImageMemoryPolicy::defaults());
    assert_eq!(config.animation_timing_settings(), AnimationTimingSettings::default());
    assert_eq!(config.navigation_settings(), NavigationSettings::default());
    assert_eq!(config.export_settings(), &ExportSettings::default());
    assert_eq!(config.status_ui_settings(), StatusUiSettings::default());
    assert_eq!(config.interaction_settings(), InteractionSettings::default());
}

#[test]
fn viewer_config_serializes_and_deserializes_user_settings() {
    let mut config = ViewerConfig::default();

    let mut memory = MemoryPolicySettings::default();
    memory.set_large_image_pixel_threshold(50_000_000);
    memory.set_max_image_pixels(250_000_000);
    memory.set_preview_max_pixels(6_000_000);
    memory.set_preview_oversample(3);
    memory.set_fallback_viewport_width(1280);
    memory.set_fallback_viewport_height(720);
    memory.set_max_transient_decode_mib(512);
    memory.set_max_full_resolution_mib(64);
    memory.set_max_resident_mib(192);
    memory.set_max_cache_entry_mib(48);
    memory.set_max_cache_entries(4);
    memory.set_max_animation_metadata_frames(25_000);
    config.set_memory_policy_settings(memory);

    let mut animation = AnimationTimingSettings::default();
    animation.set_min_frame_delay_ms(20);
    animation.set_max_frame_delay_ms(5_000);
    animation.set_default_frame_delay_ms(120);
    config.set_animation_timing_settings(animation);

    let mut navigation = NavigationSettings::default();
    navigation.set_wrap_navigation(false);
    navigation.set_auto_skip_failed_navigation(true);
    navigation.set_max_navigation_attempts_per_command(5);
    config.set_navigation_settings(navigation);

    config.set_export_settings(ExportSettings::new(DefaultExportFormatPolicy::Jpeg, "_edited", RgbColor::new(12, 34, 56)));

    let mut status_ui = StatusUiSettings::default();
    status_ui.set_show_status_bar(false);
    status_ui.set_detailed_status_text(false);
    config.set_status_ui_settings(status_ui);

    let mut interaction = InteractionSettings::default();
    interaction.set_zoom_shortcut(MouseShortcut::MouseWheel);
    interaction.set_image_navigation_shortcut(MouseShortcut::CtrlMouseWheel);
    interaction.set_image_pan_shortcut(MouseShortcut::LeftButtonDrag);
    interaction.set_window_move_shortcut(MouseShortcut::CtrlLeftButtonDrag);
    config.set_interaction_settings(interaction);

    let serialized = serialize_viewer_config(&config, "0.125", "64", "1.5", "0.5");
    let parsed = parse_viewer_config(&serialized).expect("serialized user settings parse");

    assert_eq!(parsed, config);
    assert_eq!(parsed.image_memory_policy().max_transient_decode_bytes(), 512 * 1024 * 1024);
    assert_eq!(
        parsed.export_settings().default_export_format_policy().export_format_for_source(SupportedImageFormat::Png),
        ExportFormat::Jpeg
    );
    assert!(serialized.contains("min_zoom_scale=0.125\n"));
    assert!(serialized.contains("full_resolution_request_scale=0.5\n"));
}

#[test]
fn viewer_config_user_setting_invalid_values_are_corrected() {
    let config = parse_viewer_config(
        "\
version=1
min_zoom_scale=NaN
max_zoom_scale=-2
zoom_step_factor=100
large_image_pixel_threshold=-9
max_image_pixels=0
preview_max_pixels=999999999999
preview_oversample=0
fallback_viewport_width=0
fallback_viewport_height=999999
max_transient_decode_mib=0
max_full_resolution_mib=99999
max_resident_mib=1
max_cache_entry_mib=4096
max_cache_entries=-3
max_animation_metadata_frames=0
full_resolution_request_scale=NaN
default_frame_delay_ms=not-a-number
min_frame_delay_ms=1000
max_frame_delay_ms=50
wrap_navigation=maybe
auto_skip_failed_navigation=yes
max_navigation_attempts_per_command=0
default_export_format_policy=tiff
export_filename_suffix=bad\\q
jpeg_alpha_background_rgb=-10,300,128
show_status_bar=no
detailed_status_text=maybe
",
    )
    .expect("config parses with corrected user settings");

    let memory = config.memory_policy_settings();
    assert_eq!(memory.large_image_pixel_threshold(), 1);
    assert_eq!(memory.max_image_pixels(), 1);
    assert_eq!(memory.preview_max_pixels(), 1);
    assert_eq!(memory.preview_oversample(), 1);
    assert_eq!(memory.fallback_viewport_width(), 1);
    assert_eq!(memory.fallback_viewport_height(), 16_384);
    assert_eq!(memory.max_transient_decode_mib(), 1);
    assert_eq!(memory.max_full_resolution_mib(), 1);
    assert_eq!(memory.max_resident_mib(), 1);
    assert_eq!(memory.max_cache_entry_mib(), 1);
    assert_eq!(memory.max_cache_entries(), 0);
    assert_eq!(memory.max_animation_metadata_frames(), 1);
    assert_eq!(config.image_memory_policy().fallback_viewport(), ImageSize::new(1, 16_384));

    let animation = config.animation_timing_settings();
    assert_eq!(animation.min_frame_delay_ms(), 1000);
    assert_eq!(animation.max_frame_delay_ms(), 1000);
    assert_eq!(animation.default_frame_delay_ms(), 1000);
    assert_eq!(animation.normalize_frame_delay_ms(0), 1000);

    let navigation = config.navigation_settings();
    assert!(navigation.wrap_navigation());
    assert!(navigation.auto_skip_failed_navigation());
    assert_eq!(navigation.max_navigation_attempts_per_command(), 1);

    let export = config.export_settings();
    assert_eq!(export.default_export_format_policy(), DefaultExportFormatPolicy::Png);
    assert_eq!(export.export_filename_suffix(), "-export");
    assert_eq!(export.jpeg_alpha_background_rgb(), RgbColor::new(0, 255, 128));

    let status_ui = config.status_ui_settings();
    assert!(!status_ui.show_status_bar());
    assert!(status_ui.detailed_status_text());
    assert_eq!(config.interaction_settings(), InteractionSettings::default());
}

#[test]
fn app_config_parses_mouse_shortcut_settings() {
    let config = parse_viewer_config(
        "\
version=1
zoom_shortcut=mouse_wheel
image_navigation_shortcut=ctrl_mouse_wheel
image_pan_shortcut=left_button_drag
window_move_shortcut=ctrl_left_button_drag
",
    )
    .expect("config parses");

    let interaction = config.interaction_settings();
    assert_eq!(interaction.zoom_shortcut(), MouseShortcut::MouseWheel);
    assert_eq!(interaction.image_navigation_shortcut(), MouseShortcut::CtrlMouseWheel);
    assert_eq!(interaction.image_pan_shortcut(), MouseShortcut::LeftButtonDrag);
    assert_eq!(interaction.window_move_shortcut(), MouseShortcut::CtrlLeftButtonDrag);
}

#[test]
fn corrupt_app_config_data_is_rejected() {
    assert!(parse_viewer_config("version=1\nthis line is broken").is_err());
    assert!(parse_viewer_config("version=2").is_err());
}

#[test]
fn empty_settings_file_gives_defaults() {
    let config = parse_viewer_config("# nothing set\n\n").expect("comments only");
    assert_eq!(config, ViewerConfig::default());
}

#[test]
fn written_settings_read_back_whatever_the_fractional_texts() {
    let mut config = ViewerConfig::new(
        WindowBounds::new(-5, 7, 1024, 768),
        ViewMode::ManualZoom,
        ScalingQuality::Nearest,
        Some("D:\\tab\there \"quoted\" \u{1}".to_owned()),
        0,
        true,
    );
    config.set_ui_language(UiLanguage::Korean);
    assert_eq!(config.default_view_mode(), ViewMode::FitToWindow);
    assert_eq!(config.export_default_quality(), MIN_EXPORT_QUALITY);
    let serialized = serialize_viewer_config(&config, " weird \\ text", "=", "", "#x");
    assert!(serialized.starts_with("version=1\nwindow.x=-5\nwindow.y=7\n"));
    let parsed = parse_viewer_config(&serialized).expect("written settings parse");
    assert_eq!(parsed, config);
}

#[test]
fn written_settings_file_starts_with_the_version_and_lists_every_setting_once() {
    let text = j3pic::config_file::serialize_viewer_config(&j3pic::config_file::ViewerConfig::default(), "0.05", "32", "1.25", "0.75");
    let lines: Vec<&str> = text.lines().collect();
    assert_eq!(lines[0], "version=1");
    assert!(lines.iter().all(|line| line.contains('=')));
    assert!(!lines.iter().any(|line| line.starts_with("window.")));
    assert!(!lines.iter().any(|line| line.starts_with("recent_folder=")));
    for key in ["ui_language=", "zoom_shortcut=", "window_move_shortcut=", "max_navigation_attempts_per_command="] {
        assert_eq!(lines.iter().filter(|line| line.starts_with(key)).count(), 1);
    }
}

#[test]
fn reading_fails_at_the_first_refused_line_only() {
    assert_eq!(
        j3pic::config::parse_config_values("# comment\n\nversion=1\nno equals sign\nversion=2\n").map(|_| ()),
        Err(AppConfigParseError::MalformedLine { line: 4 })
    );
    assert_eq!(
        j3pic::config::parse_config_values("version=1\nui_language=\"bad\\q\"\n=x\n").map(|_| ()),
        Err(AppConfigParseError::InvalidEscape { line: 2 })
    );
    assert!(j3pic::config::parse_config_values("version=1\n# x\nunknown_key=anything\n").is_ok());
}

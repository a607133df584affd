//! The shape of a written settings file: the version line first, every line
//! a key and a value, every user setting present, and the window placement
//! and recent folder written exactly when there are any.
use vstd::prelude::*;

use crate::config_file::{
    config_lines, config_settings, display_settings, folder_settings, remaining_settings, setting_line, window_settings,
    Setting, ViewerConfigView,
};

verus! {

/// Whether some setting of `settings` has the key `key`.
pub open spec fn has_setting_key(settings: Seq<Setting>, key: Seq<char>) -> bool {
    exists|i: int| 0 <= i < settings.len() && (#[trigger] settings[i]).0 == key
}

/// The keys of every setting a user can change, each of which a settings
/// file holds.
pub open spec fn user_setting_keys() -> Seq<Seq<char>> {
    seq![
        "ui_language"@,
        "min_zoom_scale"@,
        "max_zoom_scale"@,
        "zoom_step_factor"@,
        "large_image_pixel_threshold"@,
        "max_image_pixels"@,
        "preview_max_pixels"@,
        "preview_oversample"@,
        "fallback_viewport_width"@,
        "fallback_viewport_height"@,
        "max_transient_decode_mib"@,
        "max_full_resolution_mib"@,
        "max_resident_mib"@,
        "max_cache_entry_mib"@,
        "max_cache_entries"@,
        "max_animation_metadata_frames"@,
        "full_resolution_request_scale"@,
        "default_frame_delay_ms"@,
        "min_frame_delay_ms"@,
        "max_frame_delay_ms"@,
        "wrap_navigation"@,
        "auto_skip_failed_navigation"@,
        "max_navigation_attempts_per_command"@,
        "default_export_format_policy"@,
        "export_filename_suffix"@,
        "jpeg_alpha_background_rgb"@,
        "show_status_bar"@,
        "detailed_status_text"@,
        "zoom_shortcut"@,
        "image_navigation_shortcut"@,
        "image_pan_shortcut"@,
        "window_move_shortcut"@,
    ]
}

proof fn lemma_key_in_prefix(a: Seq<Setting>, b: Seq<Setting>, key: Seq<char>)
    requires
        has_setting_key(a, key),
    ensures
        has_setting_key(a + b, key),
{
    let i = choose|i: int| 0 <= i < a.len() && (#[trigger] a[i]).0 == key;
    assert((a + b)[i] == a[i]);
}

proof fn lemma_key_in_suffix(a: Seq<Setting>, b: Seq<Setting>, key: Seq<char>)
    requires
        has_setting_key(b, key),
    ensures
        has_setting_key(a + b, key),
{
    let i = choose|i: int| 0 <= i < b.len() && (#[trigger] b[i]).0 == key;
    assert((a + b)[a.len() + i] == b[i]);
}

proof fn lemma_key_in_neither(a: Seq<Setting>, b: Seq<Setting>, key: Seq<char>)
    requires
        !has_setting_key(a, key),
        !has_setting_key(b, key),
    ensures
        !has_setting_key(a + b, key),
{
    assert forall|i: int| 0 <= i < (a + b).len() implies (#[trigger] (a + b)[i]).0 != key by {
        if i < a.len() {
            assert((a + b)[i] == a[i]);
        } else {
            assert((a + b)[i] == b[i - a.len()]);
        }
    }
}

proof fn lemma_key_at(settings: Seq<Setting>, i: int, key: Seq<char>)
    requires
        0 <= i < settings.len(),
        settings[i].0 == key,
    ensures
        has_setting_key(settings, key),
{
}

/// No setting but the window placement's has one of its keys or the recent
/// folder's key.
proof fn lemma_fixed_settings_avoid_optional_keys(
    c: ViewerConfigView,
    min_zoom_scale: Seq<char>,
    max_zoom_scale: Seq<char>,
    zoom_step_factor: Seq<char>,
    full_resolution_request_scale: Seq<char>,
    key: Seq<char>,
)
    requires
        key == "window.x"@ || key == "window.y"@ || key == "window.width"@ || key == "window.height"@ || key == "recent_folder"@,
    ensures
        !has_setting_key(seq![("version"@, "1"@)], key),
        !has_setting_key(display_settings(c), key),
        !has_setting_key(
            remaining_settings(c, min_zoom_scale, max_zoom_scale, zoom_step_factor, full_resolution_request_scale),
            key,
        ),
{
    reveal_strlit("1");
    assert("1"@.len() == 1);
    reveal_strlit("animation_autoplay");
    assert("animation_autoplay"@.len() == 18);
    reveal_strlit("auto_skip_failed_navigation");
    assert("auto_skip_failed_navigation"@.len() == 27);
    reveal_strlit("default_export_format_policy");
    assert("default_export_format_policy"@.len() == 28);
    reveal_strlit("default_frame_delay_ms");
    assert("default_frame_delay_ms"@.len() == 22);
    reveal_strlit("default_view_mode");
    assert("default_view_mode"@.len() == 17);
    reveal_strlit("detailed_status_text");
    assert("detailed_status_text"@.len() == 20);
    reveal_strlit("export_default_quality");
    assert("export_default_quality"@.len() == 22);
    reveal_strlit("export_filename_suffix");
    assert("export_filename_suffix"@.len() == 22);
    reveal_strlit("fallback_viewport_height");
    assert("fallback_viewport_height"@.len() == 24);
    reveal_strlit("fallback_viewport_width");
    assert("fallback_viewport_width"@.len() == 23);
    reveal_strlit("full_resolution_request_scale");
    assert("full_resolution_request_scale"@.len() == 29);
    reveal_strlit("image_navigation_shortcut");
    assert("image_navigation_shortcut"@.len() == 25);
    reveal_strlit("image_pan_shortcut");
    assert("image_pan_shortcut"@.len() == 18);
    reveal_strlit("jpeg_alpha_background_rgb");
    assert("jpeg_alpha_background_rgb"@.len() == 25);
    reveal_strlit("large_image_pixel_threshold");
    assert("large_image_pixel_threshold"@.len() == 27);
    reveal_strlit("max_animation_metadata_frames");
    assert("max_animation_metadata_frames"@.len() == 29);
    reveal_strlit("max_cache_entries");
    assert("max_cache_entries"@.len() == 17);
    reveal_strlit("max_cache_entry_mib");
    assert("max_cache_entry_mib"@.len() == 19);
    reveal_strlit("max_frame_delay_ms");
    assert("max_frame_delay_ms"@.len() == 18);
    reveal_strlit("max_full_resolution_mib");
    assert("max_full_resolution_mib"@.len() == 23);
    reveal_strlit("max_image_pixels");
    assert("max_image_pixels"@.len() == 16);
    reveal_strlit("max_navigation_attempts_per_command");
    assert("max_navigation_attempts_per_command"@.len() == 35);
    reveal_strlit("max_resident_mib");
    assert("max_resident_mib"@.len() == 16);
    reveal_strlit("max_transient_decode_mib");
    assert("max_transient_decode_mib"@.len() == 24);
    reveal_strlit("max_zoom_scale");
    assert("max_zoom_scale"@.len() == 14);
    reveal_strlit("min_frame_delay_ms");
    assert("min_frame_delay_ms"@.len() == 18);
    reveal_strlit("min_zoom_scale");
    assert("min_zoom_scale"@.len() == 14);
    reveal_strlit("preview_max_pixels");
    assert("preview_max_pixels"@.len() == 18);
    reveal_strlit("preview_oversample");
    assert("preview_oversample"@.len() == 18);
    reveal_strlit("recent_folder");
    assert("recent_folder"@.len() == 13);
    reveal_strlit("scaling_quality");
    assert("scaling_quality"@.len() == 15);
    reveal_strlit("show_status_bar");
    assert("show_status_bar"@.len() == 15);
    reveal_strlit("ui_language");
    assert("ui_language"@.len() == 11);
    reveal_strlit("version");
    assert("version"@.len() == 7);
    reveal_strlit("version=1");
    assert("version=1"@.len() == 9);
    reveal_strlit("window.height");
    assert("window.height"@.len() == 13);
    reveal_strlit("window.width");
    assert("window.width"@.len() == 12);
    reveal_strlit("window.x");
    assert("window.x"@.len() == 8);
    reveal_strlit("window.y");
    assert("window.y"@.len() == 8);
    reveal_strlit("window_move_shortcut");
    assert("window_move_shortcut"@.len() == 20);
    reveal_strlit("wrap_navigation");
    assert("wrap_navigation"@.len() == 15);
    reveal_strlit("zoom_shortcut");
    assert("zoom_shortcut"@.len() == 13);
    reveal_strlit("zoom_step_factor");
    assert("zoom_step_factor"@.len() == 16);
    assert("zoom_shortcut"@[0] != "window.height"@[0]);
    assert("zoom_shortcut"@[0] != "recent_folder"@[0]);
    let version = seq![("version"@, "1"@)];
    assert forall|i: int| 0 <= i < version.len() implies (#[trigger] version[i]).0 != key by {
        assert(version[i].0 == "version"@);
    }
    let display = display_settings(c);
    assert forall|i: int| 0 <= i < display.len() implies (#[trigger] display[i]).0 != key by {
        if i == 0 {
            assert(display[i].0 == "ui_language"@);
        } else if i == 1 {
            assert(display[i].0 == "default_view_mode"@);
        } else if i == 2 {
            assert(display[i].0 == "scaling_quality"@);
        } else {
            assert(display.len() == 3);
        }
    }
    let remaining = remaining_settings(c, min_zoom_scale, max_zoom_scale, zoom_step_factor, full_resolution_request_scale);
    assert forall|i: int| 0 <= i < remaining.len() implies (#[trigger] remaining[i]).0 != key by {
        if i == 0 {
            assert(remaining[i].0 == "export_default_quality"@);
        } else if i == 1 {
            assert(remaining[i].0 == "animation_autoplay"@);
        } else if i == 2 {
            assert(remaining[i].0 == "min_zoom_scale"@);
        } else if i == 3 {
            assert(remaining[i].0 == "max_zoom_scale"@);
        } else if i == 4 {
            assert(remaining[i].0 == "zoom_step_factor"@);
        } else if i == 5 {
            assert(remaining[i].0 == "large_image_pixel_threshold"@);
        } else if i == 6 {
            assert(remaining[i].0 == "max_image_pixels"@);
        } else if i == 7 {
            assert(remaining[i].0 == "preview_max_pixels"@);
        } else if i == 8 {
            assert(remaining[i].0 == "preview_oversample"@);
        } else if i == 9 {
            assert(remaining[i].0 == "fallback_viewport_width"@);
        } else if i == 10 {
            assert(remaining[i].0 == "fallback_viewport_height"@);
        } else if i == 11 {
            assert(remaining[i].0 == "max_transient_decode_mib"@);
        } else if i == 12 {
            assert(remaining[i].0 == "max_full_resolution_mib"@);
        } else if i == 13 {
            assert(remaining[i].0 == "max_resident_mib"@);
        } else if i == 14 {
            assert(remaining[i].0 == "max_cache_entry_mib"@);
        } else if i == 15 {
            assert(remaining[i].0 == "max_cache_entries"@);
        } else if i == 16 {
            assert(remaining[i].0 == "max_animation_metadata_frames"@);
        } else if i == 17 {
            assert(remaining[i].0 == "full_resolution_request_scale"@);
        } else if i == 18 {
            assert(remaining[i].0 == "default_frame_delay_ms"@);
        } else if i == 19 {
            assert(remaining[i].0 == "min_frame_delay_ms"@);
        } else if i == 20 {
            assert(remaining[i].0 == "max_frame_delay_ms"@);
        } else if i == 21 {
            assert(remaining[i].0 == "wrap_navigation"@);
        } else if i == 22 {
            assert(remaining[i].0 == "auto_skip_failed_navigation"@);
        } else if i == 23 {
            assert(remaining[i].0 == "max_navigation_attempts_per_command"@);
        } else if i == 24 {
            assert(remaining[i].0 == "default_export_format_policy"@);
        } else if i == 25 {
            assert(remaining[i].0 == "export_filename_suffix"@);
        } else if i == 26 {
            assert(remaining[i].0 == "jpeg_alpha_background_rgb"@);
        } else if i == 27 {
            assert(remaining[i].0 == "show_status_bar"@);
        } else if i == 28 {
            assert(remaining[i].0 == "detailed_status_text"@);
        } else if i == 29 {
            assert(remaining[i].0 == "zoom_shortcut"@);
        } else if i == 30 {
            assert(remaining[i].0 == "image_navigation_shortcut"@);
        } else if i == 31 {
            assert(remaining[i].0 == "image_pan_shortcut"@);
        } else if i == 32 {
            assert(remaining[i].0 == "window_move_shortcut"@);
        }
    }
}

proof fn lemma_layout_lines(
    c: ViewerConfigView,
    min_zoom_scale: Seq<char>,
    max_zoom_scale: Seq<char>,
    zoom_step_factor: Seq<char>,
    full_resolution_request_scale: Seq<char>,
)
    ensures
        ({
            let settings = config_settings(c, min_zoom_scale, max_zoom_scale, zoom_step_factor, full_resolution_request_scale);
            let lines = config_lines(c, min_zoom_scale, max_zoom_scale, zoom_step_factor, full_resolution_request_scale);
            &&& lines.len() == settings.len()
            &&& lines[0] == "version=1"@
            &&& forall|i: int| 0 <= i < lines.len() ==> #[trigger] lines[i] == setting_line(settings[i].0, settings[i].1)
        }),
{
    reveal_strlit("version");
    reveal_strlit("1");
    reveal_strlit("version=1");
    let settings = config_settings(c, min_zoom_scale, max_zoom_scale, zoom_step_factor, full_resolution_request_scale);
    let version = seq![("version"@, "1"@)];
    let window = window_settings(c.window_bounds);
    let display = display_settings(c);
    let folder = folder_settings(c.recent_folder);
    let remaining = remaining_settings(c, min_zoom_scale, max_zoom_scale, zoom_step_factor, full_resolution_request_scale);
    assert(settings == version + window + display + folder + remaining);
    assert(settings[0] == ("version"@, "1"@));
    assert(("version"@ + seq!['='] + "1"@) =~= "version=1"@);
}

proof fn lemma_user_keys_present(
    c: ViewerConfigView,
    min_zoom_scale: Seq<char>,
    max_zoom_scale: Seq<char>,
    zoom_step_factor: Seq<char>,
    full_resolution_request_scale: Seq<char>,
)
    ensures
        forall|j: int| 0 <= j < user_setting_keys().len() ==> has_setting_key(
            config_settings(c, min_zoom_scale, max_zoom_scale, zoom_step_factor, full_resolution_request_scale),
            #[trigger] user_setting_keys()[j],
        ),
{
    let settings = config_settings(c, min_zoom_scale, max_zoom_scale, zoom_step_factor, full_resolution_request_scale);
    let version = seq![("version"@, "1"@)];
    let window = window_settings(c.window_bounds);
    let display = display_settings(c);
    let folder = folder_settings(c.recent_folder);
    let remaining = remaining_settings(c, min_zoom_scale, max_zoom_scale, zoom_step_factor, full_resolution_request_scale);
    assert(settings == version + window + display + folder + remaining);
    assert(display[0].0 == "ui_language"@);
    lemma_key_at(display, 0, "ui_language"@);
    lemma_key_in_suffix(version + window, display, "ui_language"@);
    lemma_key_in_prefix(version + window + display, folder, "ui_language"@);
    lemma_key_in_prefix(version + window + display + folder, remaining, "ui_language"@);
    assert(remaining[2].0 == "min_zoom_scale"@);
    lemma_key_at(remaining, 2, "min_zoom_scale"@);
    lemma_key_in_suffix(version + window + display + folder, remaining, "min_zoom_scale"@);
    assert(remaining[3].0 == "max_zoom_scale"@);
    lemma_key_at(remaining, 3, "max_zoom_scale"@);
    lemma_key_in_suffix(version + window + display + folder, remaining, "max_zoom_scale"@);
    assert(remaining[4].0 == "zoom_step_factor"@);
    lemma_key_at(remaining, 4, "zoom_step_factor"@);
    lemma_key_in_suffix(version + window + display + folder, remaining, "zoom_step_factor"@);
    assert(remaining[5].0 == "large_image_pixel_threshold"@);
    lemma_key_at(remaining, 5, "large_image_pixel_threshold"@);
    lemma_key_in_suffix(version + window + display + folder, remaining, "large_image_pixel_threshold"@);
    assert(remaining[6].0 == "max_image_pixels"@);
    lemma_key_at(remaining, 6, "max_image_pixels"@);
    lemma_key_in_suffix(version + window + display + folder, remaining, "max_image_pixels"@);
    assert(remaining[7].0 == "preview_max_pixels"@);
    lemma_key_at(remaining, 7, "preview_max_pixels"@);
    lemma_key_in_suffix(version + window + display + folder, remaining, "preview_max_pixels"@);
    assert(remaining[8].0 == "preview_oversample"@);
    lemma_key_at(remaining, 8, "preview_oversample"@);
    lemma_key_in_suffix(version + window + display + folder, remaining, "preview_oversample"@);
    assert(remaining[9].0 == "fallback_viewport_width"@);
    lemma_key_at(remaining, 9, "fallback_viewport_width"@);
    lemma_key_in_suffix(version + window + display + folder, remaining, "fallback_viewport_width"@);
    assert(remaining[10].0 == "fallback_viewport_height"@);
    lemma_key_at(remaining, 10, "fallback_viewport_height"@);
    lemma_key_in_suffix(version + window + display + folder, remaining, "fallback_viewport_height"@);
    assert(remaining[11].0 == "max_transient_decode_mib"@);
    lemma_key_at(remaining, 11, "max_transient_decode_mib"@);
    lemma_key_in_suffix(version + window + display + folder, remaining, "max_transient_decode_mib"@);
    assert(remaining[12].0 == "max_full_resolution_mib"@);
    lemma_key_at(remaining, 12, "max_full_resolution_mib"@);
    lemma_key_in_suffix(version + window + display + folder, remaining, "max_full_resolution_mib"@);
    assert(remaining[13].0 == "max_resident_mib"@);
    lemma_key_at(remaining, 13, "max_resident_mib"@);
    lemma_key_in_suffix(version + window + display + folder, remaining, "max_resident_mib"@);
    assert(remaining[14].0 == "max_cache_entry_mib"@);
    lemma_key_at(remaining, 14, "max_cache_entry_mib"@);
    lemma_key_in_suffix(version + window + display + folder, remaining, "max_cache_entry_mib"@);
    assert(remaining[15].0 == "max_cache_entries"@);
    lemma_key_at(remaining, 15, "max_cache_entries"@);
    lemma_key_in_suffix(version + window + display + folder, remaining, "max_cache_entries"@);
    assert(remaining[16].0 == "max_animation_metadata_frames"@);
    lemma_key_at(remaining, 16, "max_animation_metadata_frames"@);
    lemma_key_in_suffix(version + window + display + folder, remaining, "max_animation_metadata_frames"@);
    assert(remaining[17].0 == "full_resolution_request_scale"@);
    lemma_key_at(remaining, 17, "full_resolution_request_scale"@);
    lemma_key_in_suffix(version + window + display + folder, remaining, "full_resolution_request_scale"@);
    assert(remaining[18].0 == "default_frame_delay_ms"@);
    lemma_key_at(remaining, 18, "default_frame_delay_ms"@);
    lemma_key_in_suffix(version + window + display + folder, remaining, "default_frame_delay_ms"@);
    assert(remaining[19].0 == "min_frame_delay_ms"@);
    lemma_key_at(remaining, 19, "min_frame_delay_ms"@);
    lemma_key_in_suffix(version + window + display + folder, remaining, "min_frame_delay_ms"@);
    assert(remaining[20].0 == "max_frame_delay_ms"@);
    lemma_key_at(remaining, 20, "max_frame_delay_ms"@);
    lemma_key_in_suffix(version + window + display + folder, remaining, "max_frame_delay_ms"@);
    assert(remaining[21].0 == "wrap_navigation"@);
    lemma_key_at(remaining, 21, "wrap_navigation"@);
    lemma_key_in_suffix(version + window + display + folder, remaining, "wrap_navigation"@);
    assert(remaining[22].0 == "auto_skip_failed_navigation"@);
    lemma_key_at(remaining, 22, "auto_skip_failed_navigation"@);
    lemma_key_in_suffix(version + window + display + folder, remaining, "auto_skip_failed_navigation"@);
    assert(remaining[23].0 == "max_navigation_attempts_per_command"@);
    lemma_key_at(remaining, 23, "max_navigation_attempts_per_command"@);
    lemma_key_in_suffix(version + window + display + folder, remaining, "max_navigation_attempts_per_command"@);
    assert(remaining[24].0 == "default_export_format_policy"@);
    lemma_key_at(remaining, 24, "default_export_format_policy"@);
    lemma_key_in_suffix(version + window + display + folder, remaining, "default_export_format_policy"@);
    assert(remaining[25].0 == "export_filename_suffix"@);
    lemma_key_at(remaining, 25, "export_filename_suffix"@);
    lemma_key_in_suffix(version + window + display + folder, remaining, "export_filename_suffix"@);
    assert(remaining[26].0 == "jpeg_alpha_background_rgb"@);
    lemma_key_at(remaining, 26, "jpeg_alpha_background_rgb"@);
    lemma_key_in_suffix(version + window + display + folder, remaining, "jpeg_alpha_background_rgb"@);
    assert(remaining[27].0 == "show_status_bar"@);
    lemma_key_at(remaining, 27, "show_status_bar"@);
    lemma_key_in_suffix(version + window + display + folder, remaining, "show_status_bar"@);
    assert(remaining[28].0 == "detailed_status_text"@);
    lemma_key_at(remaining, 28, "detailed_status_text"@);
    lemma_key_in_suffix(version + window + display + folder, remaining, "detailed_status_text"@);
    assert(remaining[29].0 == "zoom_shortcut"@);
    lemma_key_at(remaining, 29, "zoom_shortcut"@);
    lemma_key_in_suffix(version + window + display + folder, remaining, "zoom_shortcut"@);
    assert(remaining[30].0 == "image_navigation_shortcut"@);
    lemma_key_at(remaining, 30, "image_navigation_shortcut"@);
    lemma_key_in_suffix(version + window + display + folder, remaining, "image_navigation_shortcut"@);
    assert(remaining[31].0 == "image_pan_shortcut"@);
    lemma_key_at(remaining, 31, "image_pan_shortcut"@);
    lemma_key_in_suffix(version + window + display + folder, remaining, "image_pan_shortcut"@);
    assert(remaining[32].0 == "window_move_shortcut"@);
    lemma_key_at(remaining, 32, "window_move_shortcut"@);
    lemma_key_in_suffix(version + window + display + folder, remaining, "window_move_shortcut"@);
    assert forall|j: int| 0 <= j < user_setting_keys().len() implies has_setting_key(
        settings,
        #[trigger] user_setting_keys()[j],
    ) by {
        if j == 0 {
            assert(user_setting_keys()[j] == "ui_language"@);
        } else if j == 1 {
            assert(user_setting_keys()[j] == "min_zoom_scale"@);
        } else if j == 2 {
            assert(user_setting_keys()[j] == "max_zoom_scale"@);
        } else if j == 3 {
            assert(user_setting_keys()[j] == "zoom_step_factor"@);
        } else if j == 4 {
            assert(user_setting_keys()[j] == "large_image_pixel_threshold"@);
        } else if j == 5 {
            assert(user_setting_keys()[j] == "max_image_pixels"@);
        } else if j == 6 {
            assert(user_setting_keys()[j] == "preview_max_pixels"@);
        } else if j == 7 {
            assert(user_setting_keys()[j] == "preview_oversample"@);
        } else if j == 8 {
            assert(user_setting_keys()[j] == "fallback_viewport_width"@);
        } else if j == 9 {
            assert(user_setting_keys()[j] == "fallback_viewport_height"@);
        } else if j == 10 {
            assert(user_setting_keys()[j] == "max_transient_decode_mib"@);
        } else if j == 11 {
            assert(user_setting_keys()[j] == "max_full_resolution_mib"@);
        } else if j == 12 {
            assert(user_setting_keys()[j] == "max_resident_mib"@);
        } else if j == 13 {
            assert(user_setting_keys()[j] == "max_cache_entry_mib"@);
        } else if j == 14 {
            assert(user_setting_keys()[j] == "max_cache_entries"@);
        } else if j == 15 {
            assert(user_setting_keys()[j] == "max_animation_metadata_frames"@);
        } else if j == 16 {
            assert(user_setting_keys()[j] == "full_resolution_request_scale"@);
        } else if j == 17 {
            assert(user_setting_keys()[j] == "default_frame_delay_ms"@);
        } else if j == 18 {
            assert(user_setting_keys()[j] == "min_frame_delay_ms"@);
        } else if j == 19 {
            assert(user_setting_keys()[j] == "max_frame_delay_ms"@);
        } else if j == 20 {
            assert(user_setting_keys()[j] == "wrap_navigation"@);
        } else if j == 21 {
            assert(user_setting_keys()[j] == "auto_skip_failed_navigation"@);
        } else if j == 22 {
            assert(user_setting_keys()[j] == "max_navigation_attempts_per_command"@);
        } else if j == 23 {
            assert(user_setting_keys()[j] == "default_export_format_policy"@);
        } else if j == 24 {
            assert(user_setting_keys()[j] == "export_filename_suffix"@);
        } else if j == 25 {
            assert(user_setting_keys()[j] == "jpeg_alpha_background_rgb"@);
        } else if j == 26 {
            assert(user_setting_keys()[j] == "show_status_bar"@);
        } else if j == 27 {
            assert(user_setting_keys()[j] == "detailed_status_text"@);
        } else if j == 28 {
            assert(user_setting_keys()[j] == "zoom_shortcut"@);
        } else if j == 29 {
            assert(user_setting_keys()[j] == "image_navigation_shortcut"@);
        } else if j == 30 {
            assert(user_setting_keys()[j] == "image_pan_shortcut"@);
        } else if j == 31 {
            assert(user_setting_keys()[j] == "window_move_shortcut"@);
        }
    }
}

proof fn lemma_window_key(
    c: ViewerConfigView,
    min_zoom_scale: Seq<char>,
    max_zoom_scale: Seq<char>,
    zoom_step_factor: Seq<char>,
    full_resolution_request_scale: Seq<char>,
    key: Seq<char>,
    position: int,
)
    requires
        0 <= position < 4,
        key == window_key(position),
    ensures
        has_setting_key(config_settings(c, min_zoom_scale, max_zoom_scale, zoom_step_factor, full_resolution_request_scale), key) <==> c.window_bounds is Some,
{
    reveal_strlit("window.x");
    assert("window.x"@.len() == 8);
    reveal_strlit("window.y");
    assert("window.y"@.len() == 8);
    reveal_strlit("window.width");
    assert("window.width"@.len() == 12);
    reveal_strlit("window.height");
    assert("window.height"@.len() == 13);
    reveal_strlit("recent_folder");
    assert("recent_folder"@.len() == 13);
    assert("window.height"@[0] != "recent_folder"@[0]);
    let settings = config_settings(c, min_zoom_scale, max_zoom_scale, zoom_step_factor, full_resolution_request_scale);
    let version = seq![("version"@, "1"@)];
    let window = window_settings(c.window_bounds);
    let display = display_settings(c);
    let folder = folder_settings(c.recent_folder);
    let remaining = remaining_settings(c, min_zoom_scale, max_zoom_scale, zoom_step_factor, full_resolution_request_scale);
    assert(settings == version + window + display + folder + remaining);
    lemma_fixed_settings_avoid_optional_keys(c, min_zoom_scale, max_zoom_scale, zoom_step_factor, full_resolution_request_scale, key);
    match c.window_bounds {
        Some(_) => {
            assert(window[position].0 == key);
            lemma_key_at(window, position, key);
            lemma_key_in_suffix(version, window, key);
            lemma_key_in_prefix(version + window, display, key);
            lemma_key_in_prefix(version + window + display, folder, key);
            lemma_key_in_prefix(version + window + display + folder, remaining, key);
        },
        None => {
            assert(!has_setting_key(window, key));
            match c.recent_folder {
                Some(_) => {
                    assert forall|i: int| 0 <= i < folder.len() implies (#[trigger] folder[i]).0 != key by {
                        assert(folder[i].0 == "recent_folder"@);
                    }
                },
                None => {
                    assert(!has_setting_key(folder, key));
                },
            }
            lemma_key_in_neither(version, window, key);
            lemma_key_in_neither(version + window, display, key);
            lemma_key_in_neither(version + window + display, folder, key);
            lemma_key_in_neither(version + window + display + folder, remaining, key);
        },
    }
}

proof fn lemma_folder_key(
    c: ViewerConfigView,
    min_zoom_scale: Seq<char>,
    max_zoom_scale: Seq<char>,
    zoom_step_factor: Seq<char>,
    full_resolution_request_scale: Seq<char>,
)
    ensures
        has_setting_key(config_settings(c, min_zoom_scale, max_zoom_scale, zoom_step_factor, full_resolution_request_scale), "recent_folder"@) <==> c.recent_folder is Some,
{
    reveal_strlit("window.x");
    assert("window.x"@.len() == 8);
    reveal_strlit("window.y");
    assert("window.y"@.len() == 8);
    reveal_strlit("window.width");
    assert("window.width"@.len() == 12);
    reveal_strlit("window.height");
    assert("window.height"@.len() == 13);
    reveal_strlit("recent_folder");
    assert("recent_folder"@.len() == 13);
    assert("window.height"@[0] != "recent_folder"@[0]);
    let settings = config_settings(c, min_zoom_scale, max_zoom_scale, zoom_step_factor, full_resolution_request_scale);
    let version = seq![("version"@, "1"@)];
    let window = window_settings(c.window_bounds);
    let display = display_settings(c);
    let folder = folder_settings(c.recent_folder);
    let remaining = remaining_settings(c, min_zoom_scale, max_zoom_scale, zoom_step_factor, full_resolution_request_scale);
    assert(settings == version + window + display + folder + remaining);
    lemma_fixed_settings_avoid_optional_keys(c, min_zoom_scale, max_zoom_scale, zoom_step_factor, full_resolution_request_scale, "recent_folder"@);
    match c.recent_folder {
        Some(_) => {
            assert(folder[0].0 == "recent_folder"@);
            lemma_key_at(folder, 0, "recent_folder"@);
            lemma_key_in_suffix(version + window + display, folder, "recent_folder"@);
            lemma_key_in_prefix(version + window + display + folder, remaining, "recent_folder"@);
        },
        None => {
            assert(!has_setting_key(folder, "recent_folder"@));
            match c.window_bounds {
                Some(_) => {
                    assert forall|i: int| 0 <= i < window.len() implies (#[trigger] window[i]).0 != "recent_folder"@ by {
                        if i == 0 {
                            assert(window[i].0 == "window.x"@);
                        } else if i == 1 {
                            assert(window[i].0 == "window.y"@);
                        } else if i == 2 {
                            assert(window[i].0 == "window.width"@);
                        } else if i == 3 {
                            assert(window[i].0 == "window.height"@);
                        }
                    }
                },
                None => {
                    assert(!has_setting_key(window, "recent_folder"@));
                },
            }
            lemma_key_in_neither(version, window, "recent_folder"@);
            lemma_key_in_neither(version + window, display, "recent_folder"@);
            lemma_key_in_neither(version + window + display, folder, "recent_folder"@);
            lemma_key_in_neither(version + window + display + folder, remaining, "recent_folder"@);
        },
    }
}

/// The key of the window placement setting at `position`.
pub open spec fn window_key(position: int) -> Seq<char> {
    if position == 0 {
        "window.x"@
    } else if position == 1 {
        "window.y"@
    } else if position == 2 {
        "window.width"@
    } else {
        "window.height"@
    }
}

/// A written settings file (the text `serialize_viewer_config` writes is
/// these lines, each ended by a newline) has the version line first and
/// every line made of a key, `=` and a value; it holds every user setting (see
/// [`user_setting_keys`]); it holds each window placement setting exactly
/// when there is a placement, and the recent folder exactly when there is
/// one.
pub proof fn law_settings_file_layout(
    c: ViewerConfigView,
    min_zoom_scale: Seq<char>,
    max_zoom_scale: Seq<char>,
    zoom_step_factor: Seq<char>,
    full_resolution_request_scale: Seq<char>,
)
    ensures
        ({
            let settings = config_settings(c, min_zoom_scale, max_zoom_scale, zoom_step_factor, full_resolution_request_scale);
            let lines = config_lines(c, min_zoom_scale, max_zoom_scale, zoom_step_factor, full_resolution_request_scale);
            &&& lines.len() == settings.len()
            &&& lines[0] == "version=1"@
            &&& forall|i: int| 0 <= i < lines.len() ==> #[trigger] lines[i] == setting_line(settings[i].0, settings[i].1)
            &&& forall|j: int| 0 <= j < user_setting_keys().len() ==> has_setting_key(settings, #[trigger] user_setting_keys()[j])
            &&& forall|p: int| 0 <= p < 4 ==> (has_setting_key(settings, #[trigger] window_key(p)) <==> c.window_bounds is Some)
            &&& has_setting_key(settings, "recent_folder"@) <==> c.recent_folder is Some
        }),
{
    lemma_layout_lines(c, min_zoom_scale, max_zoom_scale, zoom_step_factor, full_resolution_request_scale);
    lemma_user_keys_present(c, min_zoom_scale, max_zoom_scale, zoom_step_factor, full_resolution_request_scale);
    assert forall|p: int| 0 <= p < 4 implies (has_setting_key(
        config_settings(c, min_zoom_scale, max_zoom_scale, zoom_step_factor, full_resolution_request_scale),
        #[trigger] window_key(p),
    ) <==> c.window_bounds is Some) by {
        lemma_window_key(c, min_zoom_scale, max_zoom_scale, zoom_step_factor, full_resolution_request_scale, window_key(p), p);
    }
    lemma_folder_key(c, min_zoom_scale, max_zoom_scale, zoom_step_factor, full_resolution_request_scale);
}

} // verus!

//! The viewer's settings as a whole, and the settings file they are written
//! to and read back from.
use vstd::prelude::*;

use crate::config::{
    config_default_export_format_policy_name, config_entries, config_mouse_shortcut_name, config_rgb_color_value,
    config_scaling_quality_name, config_ui_language_name, config_view_mode_name, default_config_view_mode,
    default_view_mode_for, export_format_policy_name, mouse_shortcut_name, opt_text, or_default,
    parse_config_values, rgb_text, scaling_quality_name, text_equals, ui_language_name, values_of, view_mode_name,
    AppConfigParseError, ConfigValues, ConfigValuesView,
};
use crate::config_text::{config_string_value, quoted};
use crate::export::{
    default_suffix, is_valid_suffix, sanitized_suffix, DefaultExportFormatPolicy, ExportSettings,
    DEFAULT_EXPORT_QUALITY, MAX_EXPORT_QUALITY, MIN_EXPORT_QUALITY,
};
use crate::geometry::{valid_window_bounds, ScalingQuality, ViewMode, WindowBounds};
use crate::info::{decimal, decimal_text};
use crate::memory::{
    default_limits, limits_from_values, limits_ordered, ImageMemoryPolicy, MemoryLimits, MemoryPolicySettings,
};
use crate::settings::{
    clamp_int, timing_relationships, AnimationTimingSettings, InteractionSettings, MouseShortcut,
    NavigationSettings, StatusUiSettings, UiLanguage,
};
use crate::text::{pieces, string_texts};

verus! {

/// The settings as plain values.
pub struct ViewerConfigView {
    pub window_bounds: Option<(i32, i32, i32, i32)>,
    pub ui_language: UiLanguage,
    pub default_view_mode: ViewMode,
    pub scaling_quality: ScalingQuality,
    pub recent_folder: Option<Seq<char>>,
    pub export_default_quality: u8,
    pub animation_autoplay: bool,
    pub memory: MemoryLimits,
    pub timing: (int, int, int),
    pub wrap_navigation: bool,
    pub auto_skip_failed_navigation: bool,
    pub max_navigation_attempts: int,
    pub export_policy: DefaultExportFormatPolicy,
    pub export_suffix: Seq<char>,
    pub jpeg_background: (u8, u8, u8),
    pub show_status_bar: bool,
    pub detailed_status_text: bool,
    pub shortcuts: (MouseShortcut, MouseShortcut, MouseShortcut, MouseShortcut),
}

/// What holds of every configuration: a window placement that can be
/// restored, a start view mode that is not manual zoom, a recent folder that
/// is not empty, a JPEG quality within 1 ..= 100, memory limits in order,
/// frame delays with the minimum at most the default at most the maximum,
/// 1 ..= 100 navigation attempts, and a valid file name suffix.
pub open spec fn valid_config(c: ViewerConfigView) -> bool {
    &&& (c.window_bounds matches Some((x, y, w, h)) ==> valid_window_bounds(x, y, w, h))
    &&& c.default_view_mode != ViewMode::ManualZoom
    &&& (c.recent_folder matches Some(f) ==> f.len() > 0)
    &&& MIN_EXPORT_QUALITY <= c.export_default_quality <= MAX_EXPORT_QUALITY
    &&& limits_ordered(c.memory)
    &&& 1 <= c.timing.1 <= c.timing.0 <= c.timing.2 <= 600_000
    &&& 1 <= c.max_navigation_attempts <= 100
    &&& is_valid_suffix(c.export_suffix)
}

pub open spec fn bounds_tuple(bounds: Option<WindowBounds>) -> Option<(i32, i32, i32, i32)> {
    match bounds {
        Some(b) => Some((b.x(), b.y(), b.width(), b.height())),
        None => None,
    }
}

/// The viewer's settings apart from the zoom limits and the scale that asks
/// for full resolution, which are fractional numbers.
#[derive(Debug, PartialEq, Eq)]
pub struct ViewerConfig {
    window_bounds: Option<WindowBounds>,
    ui_language: UiLanguage,
    default_view_mode: ViewMode,
    scaling_quality: ScalingQuality,
    recent_folder: Option<String>,
    export_default_quality: u8,
    animation_autoplay: bool,
    memory_policy: MemoryPolicySettings,
    animation_timing: AnimationTimingSettings,
    navigation: NavigationSettings,
    export: ExportSettings,
    status_ui: StatusUiSettings,
    interaction: InteractionSettings,
}

impl View for ViewerConfig {
    type V = ViewerConfigView;

    closed spec fn view(&self) -> ViewerConfigView {
        ViewerConfigView {
            window_bounds: bounds_tuple(self.window_bounds),
            ui_language: self.ui_language,
            default_view_mode: self.default_view_mode,
            scaling_quality: self.scaling_quality,
            recent_folder: opt_text(self.recent_folder),
            export_default_quality: self.export_default_quality,
            animation_autoplay: self.animation_autoplay,
            memory: self.memory_policy@,
            timing: self.animation_timing.limits(),
            wrap_navigation: self.navigation.wrap_navigation(),
            auto_skip_failed_navigation: self.navigation.auto_skip_failed_navigation(),
            max_navigation_attempts: self.navigation.max_navigation_attempts_per_command() as int,
            export_policy: self.export.policy(),
            export_suffix: self.export.suffix(),
            jpeg_background: (
                self.export.background().red(),
                self.export.background().green(),
                self.export.background().blue(),
            ),
            show_status_bar: self.status_ui.show_status_bar(),
            detailed_status_text: self.status_ui.detailed_status_text(),
            shortcuts: (
                self.interaction.zoom_shortcut(),
                self.interaction.image_navigation_shortcut(),
                self.interaction.image_pan_shortcut(),
                self.interaction.window_move_shortcut(),
            ),
        }
    }
}

/// The recent folder kept: none for an empty path.
pub open spec fn kept_folder(folder: Option<Seq<char>>) -> Option<Seq<char>> {
    match folder {
        Some(f) => if f.len() > 0 {
            Some(f)
        } else {
            None
        },
        None => None,
    }
}

fn keep_folder(folder: Option<String>) -> (kept: Option<String>)
    ensures
        opt_text(kept) == kept_folder(opt_text(folder)),
{
    match folder {
        Some(f) => if f.unicode_len() > 0 {
            Some(f)
        } else {
            None
        },
        None => None,
    }
}

fn clamp_quality(quality: u8) -> (clamped: u8)
    ensures
        clamped == (if quality < MIN_EXPORT_QUALITY {
            MIN_EXPORT_QUALITY
        } else if quality > MAX_EXPORT_QUALITY {
            MAX_EXPORT_QUALITY
        } else {
            quality
        }),
{
    if quality < MIN_EXPORT_QUALITY {
        MIN_EXPORT_QUALITY
    } else if quality > MAX_EXPORT_QUALITY {
        MAX_EXPORT_QUALITY
    } else {
        quality
    }
}

impl ViewerConfig {
    #[verifier::type_invariant]
    closed spec fn wf(self) -> bool {
        &&& self.default_view_mode != ViewMode::ManualZoom
        &&& (self.recent_folder matches Some(f) ==> f@.len() > 0)
        &&& MIN_EXPORT_QUALITY <= self.export_default_quality <= MAX_EXPORT_QUALITY
    }

    /// No window placement, English, fit to window, balanced scaling, no
    /// recent folder, JPEG quality 90, animations playing, and the default
    /// settings of each group.
    pub fn defaults() -> (config: Self)
        ensures
            config@.window_bounds is None,
            config@.ui_language == UiLanguage::English,
            config@.default_view_mode == ViewMode::FitToWindow,
            config@.scaling_quality == ScalingQuality::Balanced,
            config@.recent_folder is None,
            config@.export_default_quality == DEFAULT_EXPORT_QUALITY,
            config@.animation_autoplay,
            config@.memory == default_limits(),
            config@.timing == (100int, 10int, 60_000int),
            config@.wrap_navigation,
            !config@.auto_skip_failed_navigation,
            config@.max_navigation_attempts == 1,
            config@.export_policy == DefaultExportFormatPolicy::Png,
            config@.export_suffix == "-export"@,
            config@.jpeg_background == (255u8, 255u8, 255u8),
            config@.show_status_bar,
            config@.detailed_status_text,
            config@.shortcuts == (
                MouseShortcut::CtrlMouseWheel,
                MouseShortcut::MouseWheel,
                MouseShortcut::CtrlLeftButtonDrag,
                MouseShortcut::LeftButtonDrag,
            ),
    {
        let timing = AnimationTimingSettings::defaults();
        proof {
            AnimationTimingSettings::lemma_spec_defaults();
        }
        Self {
            window_bounds: None,
            ui_language: UiLanguage::English,
            default_view_mode: ViewMode::FitToWindow,
            scaling_quality: ScalingQuality::Balanced,
            recent_folder: None,
            export_default_quality: DEFAULT_EXPORT_QUALITY,
            animation_autoplay: true,
            memory_policy: MemoryPolicySettings::defaults(),
            animation_timing: timing,
            navigation: NavigationSettings::defaults(),
            export: ExportSettings::default(),
            status_ui: StatusUiSettings::defaults(),
            interaction: InteractionSettings::defaults(),
        }
    }

    /// The defaults with the given placement, start view mode (manual zoom
    /// starts fitted), scaling quality, recent folder (none when empty),
    /// JPEG quality (limited to 1 ..= 100) and animation autoplay.
    pub fn new(
        window_bounds: Option<WindowBounds>,
        default_view_mode: ViewMode,
        scaling_quality: ScalingQuality,
        recent_folder: Option<String>,
        export_default_quality: u8,
        animation_autoplay: bool,
    ) -> (config: Self)
        ensures
            config@ == (ViewerConfigView {
                window_bounds: bounds_tuple(window_bounds),
                default_view_mode: default_view_mode_for(default_view_mode),
                scaling_quality,
                recent_folder: kept_folder(opt_text(recent_folder)),
                export_default_quality: clamp_quality_spec(export_default_quality),
                animation_autoplay,
                ..Self::defaults_view()
            }),
    {
        let mut config = Self::defaults();
        config.set_window_bounds(window_bounds);
        config.set_default_view_mode(default_view_mode);
        config.set_scaling_quality(scaling_quality);
        config.set_recent_folder(recent_folder);
        config.set_export_default_quality(export_default_quality);
        config.set_animation_autoplay(animation_autoplay);
        config
    }

    /// The view of `defaults`.
    pub open spec fn defaults_view() -> ViewerConfigView {
        ViewerConfigView {
            window_bounds: None,
            ui_language: UiLanguage::English,
            default_view_mode: ViewMode::FitToWindow,
            scaling_quality: ScalingQuality::Balanced,
            recent_folder: None,
            export_default_quality: DEFAULT_EXPORT_QUALITY,
            animation_autoplay: true,
            memory: default_limits(),
            timing: (100int, 10int, 60_000int),
            wrap_navigation: true,
            auto_skip_failed_navigation: false,
            max_navigation_attempts: 1,
            export_policy: DefaultExportFormatPolicy::Png,
            export_suffix: "-export"@,
            jpeg_background: (255u8, 255u8, 255u8),
            show_status_bar: true,
            detailed_status_text: true,
            shortcuts: (
                MouseShortcut::CtrlMouseWheel,
                MouseShortcut::MouseWheel,
                MouseShortcut::CtrlLeftButtonDrag,
                MouseShortcut::LeftButtonDrag,
            ),
        }
    }

    pub fn window_bounds(&self) -> (bounds: Option<WindowBounds>)
        ensures
            bounds_tuple(bounds) == self@.window_bounds,
    {
        self.window_bounds
    }

    pub fn set_window_bounds(&mut self, window_bounds: Option<WindowBounds>)
        ensures
            final(self)@ == (ViewerConfigView { window_bounds: bounds_tuple(window_bounds), ..old(self)@ }),
    {
        proof {
            use_type_invariant(&*self);
        }
        self.window_bounds = window_bounds;
    }

    pub fn ui_language(&self) -> (language: UiLanguage)
        ensures
            language == self@.ui_language,
    {
        self.ui_language
    }

    pub fn set_ui_language(&mut self, ui_language: UiLanguage)
        ensures
            final(self)@ == (ViewerConfigView { ui_language, ..old(self)@ }),
    {
        proof {
            use_type_invariant(&*self);
        }
        self.ui_language = ui_language;
    }

    pub fn default_view_mode(&self) -> (view_mode: ViewMode)
        ensures
            view_mode == self@.default_view_mode,
            view_mode != ViewMode::ManualZoom,
    {
        proof {
            use_type_invariant(self);
        }
        self.default_view_mode
    }

    /// Sets the mode new images start in; manual zoom starts fitted.
    pub fn set_default_view_mode(&mut self, view_mode: ViewMode)
        ensures
            final(self)@ == (ViewerConfigView { default_view_mode: default_view_mode_for(view_mode), ..old(self)@ }),
    {
        proof {
            use_type_invariant(&*self);
        }
        self.default_view_mode = default_config_view_mode(view_mode);
    }

    pub fn scaling_quality(&self) -> (quality: ScalingQuality)
        ensures
            quality == self@.scaling_quality,
    {
        self.scaling_quality
    }

    pub fn set_scaling_quality(&mut self, scaling_quality: ScalingQuality)
        ensures
            final(self)@ == (ViewerConfigView { scaling_quality, ..old(self)@ }),
    {
        proof {
            use_type_invariant(&*self);
        }
        self.scaling_quality = scaling_quality;
    }

    pub fn recent_folder(&self) -> (folder: Option<&str>)
        ensures
            match folder {
                Some(f) => self@.recent_folder == Some(f@) && f@.len() > 0,
                None => self@.recent_folder is None,
            },
    {
        proof {
            use_type_invariant(self);
        }
        match &self.recent_folder {
            Some(folder) => Some(folder.as_str()),
            None => None,
        }
    }

    /// Sets the folder last opened; an empty path is not kept.
    pub fn set_recent_folder(&mut self, recent_folder: Option<String>)
        ensures
            final(self)@ == (ViewerConfigView { recent_folder: kept_folder(opt_text(recent_folder)), ..old(self)@ }),
    {
        proof {
            use_type_invariant(&*self);
        }
        self.recent_folder = keep_folder(recent_folder);
    }

    pub fn export_default_quality(&self) -> (quality: u8)
        ensures
            quality == self@.export_default_quality,
            MIN_EXPORT_QUALITY <= quality <= MAX_EXPORT_QUALITY,
    {
        proof {
            use_type_invariant(self);
        }
        self.export_default_quality
    }

    /// Sets the JPEG quality exports start with, limited to 1 ..= 100.
    pub fn set_export_default_quality(&mut self, quality: u8)
        ensures
            final(self)@ == (ViewerConfigView { export_default_quality: clamp_quality_spec(quality), ..old(self)@ }),
    {
        proof {
            use_type_invariant(&*self);
        }
        self.export_default_quality = clamp_quality(quality);
    }

    pub fn animation_autoplay(&self) -> (autoplay: bool)
        ensures
            autoplay == self@.animation_autoplay,
    {
        self.animation_autoplay
    }

    pub fn set_animation_autoplay(&mut self, animation_autoplay: bool)
        ensures
            final(self)@ == (ViewerConfigView { animation_autoplay, ..old(self)@ }),
    {
        proof {
            use_type_invariant(&*self);
        }
        self.animation_autoplay = animation_autoplay;
    }

    pub fn memory_policy_settings(&self) -> (settings: MemoryPolicySettings)
        ensures
            settings@ == self@.memory,
    {
        self.memory_policy
    }

    pub fn set_memory_policy_settings(&mut self, memory_policy: MemoryPolicySettings)
        ensures
            final(self)@ == (ViewerConfigView { memory: memory_policy@, ..old(self)@ }),
    {
        proof {
            use_type_invariant(&*self);
        }
        self.memory_policy = memory_policy;
    }

    /// The policy the memory settings give.
    pub fn image_memory_policy(&self) -> (policy: ImageMemoryPolicy)
        ensures
            policy.large_image_pixel_threshold() == self@.memory.large_image_pixel_threshold,
            policy.max_image_pixels() == self@.memory.max_image_pixels,
            policy.max_cache_entries() == self@.memory.max_cache_entries,
            self@.memory == default_limits() ==> policy == ImageMemoryPolicy::spec_from_limits(self@.memory)
                && policy == ImageMemoryPolicy::spec_defaults(),
            policy == ImageMemoryPolicy::spec_from_limits(self@.memory),
    {
        self.memory_policy.image_memory_policy()
    }

    /// Whether both hold the same settings.
    pub fn same_settings(&self, other: &Self) -> (same: bool)
        ensures
            same == (self@ == other@),
    {
        proof {
            MemoryPolicySettings::lemma_eq(self.memory_policy, other.memory_policy);
        }
        let bounds_same = match (self.window_bounds, other.window_bounds) {
            (Some(a), Some(b)) => a.x() == b.x() && a.y() == b.y() && a.width() == b.width() && a.height() == b.height(),
            (None, None) => true,
            _ => false,
        };
        let folder_same = match (&self.recent_folder, &other.recent_folder) {
            (Some(a), Some(b)) => text_equals(a.as_str(), b.as_str()),
            (None, None) => true,
            _ => false,
        };
        let timing_same = self.animation_timing.default_frame_delay_ms() == other.animation_timing.default_frame_delay_ms()
            && self.animation_timing.min_frame_delay_ms() == other.animation_timing.min_frame_delay_ms()
            && self.animation_timing.max_frame_delay_ms() == other.animation_timing.max_frame_delay_ms();
        let navigation_same = self.navigation.wrap_navigation() == other.navigation.wrap_navigation()
            && self.navigation.auto_skip_failed_navigation() == other.navigation.auto_skip_failed_navigation()
            && self.navigation.max_navigation_attempts_per_command()
            == other.navigation.max_navigation_attempts_per_command();
        let background = self.export.jpeg_alpha_background_rgb();
        let other_background = other.export.jpeg_alpha_background_rgb();
        let export_same = self.export.default_export_format_policy() == other.export.default_export_format_policy()
            && text_equals(self.export.export_filename_suffix(), other.export.export_filename_suffix())
            && background.red() == other_background.red() && background.green() == other_background.green()
            && background.blue() == other_background.blue();
        let status_same = self.status_ui.show_status_bar() == other.status_ui.show_status_bar()
            && self.status_ui.detailed_status_text() == other.status_ui.detailed_status_text();
        let shortcuts_same = self.interaction.zoom_shortcut() == other.interaction.zoom_shortcut()
            && self.interaction.image_navigation_shortcut() == other.interaction.image_navigation_shortcut()
            && self.interaction.image_pan_shortcut() == other.interaction.image_pan_shortcut()
            && self.interaction.window_move_shortcut() == other.interaction.window_move_shortcut();
        bounds_same && self.ui_language == other.ui_language && self.default_view_mode == other.default_view_mode
            && self.scaling_quality == other.scaling_quality && folder_same && self.export_default_quality
            == other.export_default_quality && self.animation_autoplay == other.animation_autoplay
            && self.memory_policy == other.memory_policy && timing_same && navigation_same && export_same
            && status_same && shortcuts_same
    }

    /// The frame timing settings.
    pub closed spec fn spec_animation_timing(&self) -> AnimationTimingSettings {
        self.animation_timing
    }

    pub fn animation_timing_settings(&self) -> (timing: AnimationTimingSettings)
        ensures
            timing.limits() == self@.timing,
            timing == self.spec_animation_timing(),
    {
        self.animation_timing
    }

    pub fn set_animation_timing_settings(&mut self, animation_timing: AnimationTimingSettings)
        ensures
            final(self)@ == (ViewerConfigView { timing: animation_timing.limits(), ..old(self)@ }),
    {
        proof {
            use_type_invariant(&*self);
        }
        self.animation_timing = animation_timing;
    }

    pub closed spec fn spec_navigation_settings(&self) -> NavigationSettings {
        self.navigation
    }

    pub fn navigation_settings(&self) -> (navigation: NavigationSettings)
        ensures
            navigation == self.spec_navigation_settings(),
            navigation.wrap_navigation() == self@.wrap_navigation,
            navigation.auto_skip_failed_navigation() == self@.auto_skip_failed_navigation,
            navigation.max_navigation_attempts_per_command() == self@.max_navigation_attempts,
    {
        self.navigation
    }

    pub fn set_navigation_settings(&mut self, navigation: NavigationSettings)
        ensures
            final(self)@ == (ViewerConfigView {
                wrap_navigation: navigation.wrap_navigation(),
                auto_skip_failed_navigation: navigation.auto_skip_failed_navigation(),
                max_navigation_attempts: navigation.max_navigation_attempts_per_command() as int,
                ..old(self)@
            }),
    {
        proof {
            use_type_invariant(&*self);
        }
        self.navigation = navigation;
    }

    pub fn export_settings(&self) -> (export: &ExportSettings)
        ensures
            export.policy() == self@.export_policy,
            export.suffix() == self@.export_suffix,
            (export.background().red(), export.background().green(), export.background().blue())
                == self@.jpeg_background,
    {
        &self.export
    }

    pub fn set_export_settings(&mut self, export: ExportSettings)
        ensures
            final(self)@ == (ViewerConfigView {
                export_policy: export.policy(),
                export_suffix: export.suffix(),
                jpeg_background: (export.background().red(), export.background().green(), export.background().blue()),
                ..old(self)@
            }),
    {
        proof {
            use_type_invariant(&*self);
        }
        self.export = export;
    }

    pub fn status_ui_settings(&self) -> (status_ui: StatusUiSettings)
        ensures
            status_ui.show_status_bar() == self@.show_status_bar,
            status_ui.detailed_status_text() == self@.detailed_status_text,
    {
        self.status_ui
    }

    pub fn set_status_ui_settings(&mut self, status_ui: StatusUiSettings)
        ensures
            final(self)@ == (ViewerConfigView {
                show_status_bar: status_ui.show_status_bar(),
                detailed_status_text: status_ui.detailed_status_text(),
                ..old(self)@
            }),
    {
        proof {
            use_type_invariant(&*self);
        }
        self.status_ui = status_ui;
    }

    pub fn interaction_settings(&self) -> (interaction: InteractionSettings)
        ensures
            (
                interaction.zoom_shortcut(),
                interaction.image_navigation_shortcut(),
                interaction.image_pan_shortcut(),
                interaction.window_move_shortcut(),
            ) == self@.shortcuts,
    {
        self.interaction
    }

    pub fn set_interaction_settings(&mut self, interaction: InteractionSettings)
        ensures
            final(self)@ == (ViewerConfigView {
                shortcuts: (
                    interaction.zoom_shortcut(),
                    interaction.image_navigation_shortcut(),
                    interaction.image_pan_shortcut(),
                    interaction.window_move_shortcut(),
                ),
                ..old(self)@
            }),
    {
        proof {
            use_type_invariant(&*self);
        }
        self.interaction = interaction;
    }

    /// Brings out that the configuration is valid.
    fn establish_valid(&self)
        ensures
            valid_config(self@),
    {
        proof {
            use_type_invariant(self);
        }
        if let Some(bounds) = self.window_bounds {
            let _ = (bounds.x(), bounds.y(), bounds.width(), bounds.height());
        }
        let _ = self.memory_policy.max_image_pixels();
        let _ = (
            self.animation_timing.default_frame_delay_ms(),
            self.animation_timing.min_frame_delay_ms(),
            self.animation_timing.max_frame_delay_ms(),
        );
        let _ = self.navigation.max_navigation_attempts_per_command();
        let _ = self.export.export_filename_suffix();
    }
}

/// `quality` limited to 1 ..= 100.
pub open spec fn clamp_quality_spec(quality: u8) -> u8 {
    if quality < MIN_EXPORT_QUALITY {
        MIN_EXPORT_QUALITY
    } else if quality > MAX_EXPORT_QUALITY {
        MAX_EXPORT_QUALITY
    } else {
        quality
    }
}

impl Clone for ViewerConfig {
    fn clone(&self) -> (cloned: Self)
        ensures
            cloned@ == self@,
    {
        proof {
            use_type_invariant(self);
        }
        let recent_folder = match &self.recent_folder {
            Some(folder) => Some(folder.clone()),
            None => None,
        };
        Self {
            window_bounds: self.window_bounds,
            ui_language: self.ui_language,
            default_view_mode: self.default_view_mode,
            scaling_quality: self.scaling_quality,
            recent_folder,
            export_default_quality: self.export_default_quality,
            animation_autoplay: self.animation_autoplay,
            memory_policy: self.memory_policy,
            animation_timing: self.animation_timing,
            navigation: self.navigation,
            export: self.export.clone(),
            status_ui: self.status_ui,
            interaction: self.interaction,
        }
    }
}

impl Default for ViewerConfig {
    fn default() -> (config: Self)
        ensures
            config@ == Self::defaults_view(),
    {
        Self::defaults()
    }
}

// ---------------------------------------------------------------------------
// Reading
// ---------------------------------------------------------------------------
/// A stored number limited to `low ..= high`, or `default` when none is stored.
pub open spec fn stored_int(value: Option<int>, low: int, high: int, default: int) -> int {
    match value {
        Some(v) => clamp_int(v, low, high),
        None => default,
    }
}

/// The settings the values of a settings file give: each value limited to
/// its range and each missing one replaced by its default; a window
/// placement only when all four numbers are stored and restorable; manual
/// zoom starts fitted; an empty recent folder is dropped; the suffix is
/// sanitized; dependent limits are brought into order.
pub open spec fn config_of_values(v: ConfigValuesView) -> ViewerConfigView {
    ViewerConfigView {
        window_bounds: match (v.window_x, v.window_y, v.window_width, v.window_height) {
            (Some(x), Some(y), Some(w), Some(h)) => if valid_window_bounds(x, y, w, h) {
                Some((x, y, w, h))
            } else {
                None
            },
            _ => None,
        },
        ui_language: or_default(v.ui_language, UiLanguage::English),
        default_view_mode: default_view_mode_for(or_default(v.default_view_mode, ViewMode::FitToWindow)),
        scaling_quality: or_default(v.scaling_quality, ScalingQuality::Balanced),
        recent_folder: kept_folder(v.recent_folder),
        export_default_quality: stored_int(v.export_default_quality, 1, 100, 90) as u8,
        animation_autoplay: or_default(v.animation_autoplay, true),
        memory: limits_from_values(
            stored_int(v.large_image_pixel_threshold, 1, 1_000_000_000, 24_000_000),
            stored_int(v.max_image_pixels, 1, 1_000_000_000, 160_000_000),
            stored_int(v.preview_max_pixels, 1, 1_000_000_000, 8_000_000),
            stored_int(v.preview_oversample, 1, 8, 2),
            stored_int(v.fallback_viewport_width, 1, 16_384, 1920),
            stored_int(v.fallback_viewport_height, 1, 16_384, 1080),
            stored_int(v.max_transient_decode_mib, 1, 4096, 640),
            stored_int(v.max_full_resolution_mib, 1, 4096, 128),
            stored_int(v.max_resident_mib, 1, 4096, 256),
            stored_int(v.max_cache_entry_mib, 1, 4096, 128),
            stored_int(v.max_cache_entries, 0, 64, 2),
            stored_int(v.max_animation_metadata_frames, 1, 1_000_000, 10_000),
        ),
        timing: timing_relationships(
            stored_int(v.default_frame_delay_ms, 1, 600_000, 100),
            stored_int(v.min_frame_delay_ms, 1, 600_000, 10),
            stored_int(v.max_frame_delay_ms, 1, 600_000, 60_000),
        ),
        wrap_navigation: or_default(v.wrap_navigation, true),
        auto_skip_failed_navigation: or_default(v.auto_skip_failed_navigation, false),
        max_navigation_attempts: stored_int(v.max_navigation_attempts_per_command, 1, 100, 1),
        export_policy: or_default(v.default_export_format_policy, DefaultExportFormatPolicy::Png),
        export_suffix: sanitized_suffix(or_default(v.export_filename_suffix, default_suffix())),
        jpeg_background: or_default(v.jpeg_alpha_background_rgb, (255u8, 255u8, 255u8)),
        show_status_bar: or_default(v.show_status_bar, true),
        detailed_status_text: or_default(v.detailed_status_text, true),
        shortcuts: (
            or_default(v.zoom_shortcut, MouseShortcut::CtrlMouseWheel),
            or_default(v.image_navigation_shortcut, MouseShortcut::MouseWheel),
            or_default(v.image_pan_shortcut, MouseShortcut::CtrlLeftButtonDrag),
            or_default(v.window_move_shortcut, MouseShortcut::LeftButtonDrag),
        ),
    }
}

impl ConfigValues {
    /// The settings these values give (see `config_of_values`).
    #[verifier::rlimit(80)]
    #[verifier::spinoff_prover]
    pub fn viewer_config(&self) -> (config: ViewerConfig)
        ensures
            config@ == config_of_values(self@),
    {
        let ghost expected = config_of_values(self@);
        let recent_folder = match &self.recent_folder {
            Some(folder) => Some(folder.clone()),
            None => None,
        };
        let window_bounds = self.window_bounds();
        assert(bounds_tuple(window_bounds) == expected.window_bounds);
        let recent_folder = keep_folder(recent_folder);
        assert(opt_text(recent_folder) == expected.recent_folder);
        let export_default_quality = self.export_default_quality();
        assert(export_default_quality == expected.export_default_quality);
        let memory_policy = self.memory_policy();
        assert(memory_policy@ == expected.memory);
        let animation_timing = self.animation_timing();
        assert(animation_timing.limits() == expected.timing);
        let navigation = self.navigation();
        assert(navigation.max_navigation_attempts_per_command() == expected.max_navigation_attempts);
        let export = self.export_settings();
        proof {
            reveal_strlit("-export");
        }
        assert(export.suffix() == expected.export_suffix);
        assert((export.background().red(), export.background().green(), export.background().blue())
            == expected.jpeg_background);
        let status_ui = self.status_ui();
        let interaction = self.interaction();
        let config = ViewerConfig {
            window_bounds,
            ui_language: self.ui_language(),
            default_view_mode: self.default_view_mode(),
            scaling_quality: self.scaling_quality(),
            recent_folder,
            export_default_quality,
            animation_autoplay: self.animation_autoplay(),
            memory_policy,
            animation_timing,
            navigation,
            export,
            status_ui,
            interaction,
        };
        config
    }
}

/// The settings a settings file gives: the defaults when it has no entries,
/// the settings its values give otherwise, or the error of its first line
/// that has one.
pub fn parse_viewer_config(contents: &str) -> (result: Result<ViewerConfig, AppConfigParseError>)
    ensures
        match config_entries(pieces(contents@, '\n')) {
            Ok(entries) => result matches Ok(config) && config@ == (if entries.len() == 0 {
                ViewerConfig::defaults_view()
            } else {
                config_of_values(values_of(entries))
            }),
            Err(e) => result matches Err(error) && error == e,
        },
{
    match parse_config_values(contents) {
        Ok(Some(values)) => Ok(values.viewer_config()),
        Ok(None) => Ok(ViewerConfig::defaults()),
        Err(error) => Err(error),
    }
}

// ---------------------------------------------------------------------------
// Writing
// ---------------------------------------------------------------------------
/// A line of the settings file: the key, `=` and the value.
pub open spec fn setting_line(key: Seq<char>, value: Seq<char>) -> Seq<char> {
    key + seq!['='] + value
}

pub open spec fn bool_text(b: bool) -> Seq<char> {
    if b {
        "true"@
    } else {
        "false"@
    }
}

/// An integer in decimal, with a minus sign when negative.
pub open spec fn signed_decimal(n: int) -> Seq<char> {
    if n < 0 {
        seq!['-'] + decimal((-n) as nat)
    } else {
        decimal(n as nat)
    }
}

/// A setting as its key and the text of its value.
pub type Setting = (Seq<char>, Seq<char>);

/// The window placement settings, when there is a placement.
pub open spec fn window_settings(bounds: Option<(i32, i32, i32, i32)>) -> Seq<Setting> {
    match bounds {
        Some((x, y, w, h)) => seq![
            ("window.x"@, signed_decimal(x as int)),
            ("window.y"@, signed_decimal(y as int)),
            ("window.width"@, signed_decimal(w as int)),
            ("window.height"@, signed_decimal(h as int)),
        ],
        None => Seq::empty(),
    }
}

/// The language, start view mode and scaling quality settings.
pub open spec fn display_settings(c: ViewerConfigView) -> Seq<Setting> {
    seq![
        ("ui_language"@, quoted(ui_language_name(c.ui_language))),
        ("default_view_mode"@, quoted(view_mode_name(c.default_view_mode))),
        ("scaling_quality"@, quoted(scaling_quality_name(c.scaling_quality))),
    ]
}

/// The recent folder setting, when there is a folder.
pub open spec fn folder_settings(folder: Option<Seq<char>>) -> Seq<Setting> {
    match folder {
        Some(f) => seq![("recent_folder"@, quoted(f))],
        None => Seq::empty(),
    }
}

/// The settings written after the recent folder.
pub open spec fn remaining_settings(
    c: ViewerConfigView,
    min_zoom_scale: Seq<char>,
    max_zoom_scale: Seq<char>,
    zoom_step_factor: Seq<char>,
    full_resolution_request_scale: Seq<char>,
) -> Seq<Setting> {
    let m = c.memory;
    seq![
        ("export_default_quality"@, decimal(c.export_default_quality as nat)),
        ("animation_autoplay"@, bool_text(c.animation_autoplay)),
        ("min_zoom_scale"@, min_zoom_scale),
        ("max_zoom_scale"@, max_zoom_scale),
        ("zoom_step_factor"@, zoom_step_factor),
        ("large_image_pixel_threshold"@, decimal(m.large_image_pixel_threshold as nat)),
        ("max_image_pixels"@, decimal(m.max_image_pixels as nat)),
        ("preview_max_pixels"@, decimal(m.preview_max_pixels as nat)),
        ("preview_oversample"@, decimal(m.preview_oversample as nat)),
        ("fallback_viewport_width"@, decimal(m.fallback_viewport_width as nat)),
        ("fallback_viewport_height"@, decimal(m.fallback_viewport_height as nat)),
        ("max_transient_decode_mib"@, decimal(m.max_transient_decode_mib as nat)),
        ("max_full_resolution_mib"@, decimal(m.max_full_resolution_mib as nat)),
        ("max_resident_mib"@, decimal(m.max_resident_mib as nat)),
        ("max_cache_entry_mib"@, decimal(m.max_cache_entry_mib as nat)),
        ("max_cache_entries"@, decimal(m.max_cache_entries as nat)),
        ("max_animation_metadata_frames"@, decimal(m.max_animation_metadata_frames as nat)),
        ("full_resolution_request_scale"@, full_resolution_request_scale),
        ("default_frame_delay_ms"@, decimal(c.timing.0 as nat)),
        ("min_frame_delay_ms"@, decimal(c.timing.1 as nat)),
        ("max_frame_delay_ms"@, decimal(c.timing.2 as nat)),
        ("wrap_navigation"@, bool_text(c.wrap_navigation)),
        ("auto_skip_failed_navigation"@, bool_text(c.auto_skip_failed_navigation)),
        ("max_navigation_attempts_per_command"@, decimal(c.max_navigation_attempts as nat)),
        ("default_export_format_policy"@, quoted(export_format_policy_name(c.export_policy))),
        ("export_filename_suffix"@, quoted(c.export_suffix)),
        (
            "jpeg_alpha_background_rgb"@,
            quoted(rgb_text(c.jpeg_background.0, c.jpeg_background.1, c.jpeg_background.2)),
        ),
        ("show_status_bar"@, bool_text(c.show_status_bar)),
        ("detailed_status_text"@, bool_text(c.detailed_status_text)),
        ("zoom_shortcut"@, quoted(mouse_shortcut_name(c.shortcuts.0))),
        ("image_navigation_shortcut"@, quoted(mouse_shortcut_name(c.shortcuts.1))),
        ("image_pan_shortcut"@, quoted(mouse_shortcut_name(c.shortcuts.2))),
        ("window_move_shortcut"@, quoted(mouse_shortcut_name(c.shortcuts.3))),
    ]
}

/// The settings written for `c`, in order; the four fractional settings are
/// written as the texts given for them.
pub open spec fn config_settings(
    c: ViewerConfigView,
    min_zoom_scale: Seq<char>,
    max_zoom_scale: Seq<char>,
    zoom_step_factor: Seq<char>,
    full_resolution_request_scale: Seq<char>,
) -> Seq<Setting> {
    seq![("version"@, "1"@)] + window_settings(c.window_bounds) + display_settings(c) + folder_settings(
        c.recent_folder,
    ) + remaining_settings(c, min_zoom_scale, max_zoom_scale, zoom_step_factor, full_resolution_request_scale)
}

/// The lines of the settings file for `c`.
pub open spec fn config_lines(
    c: ViewerConfigView,
    min_zoom_scale: Seq<char>,
    max_zoom_scale: Seq<char>,
    zoom_step_factor: Seq<char>,
    full_resolution_request_scale: Seq<char>,
) -> Seq<Seq<char>> {
    config_settings(c, min_zoom_scale, max_zoom_scale, zoom_step_factor, full_resolution_request_scale).map_values(
        |p: Setting| setting_line(p.0, p.1),
    )
}

/// Lines joined into a text, each ended by a newline.
pub open spec fn lines_text(lines: Seq<Seq<char>>) -> Seq<char>
    decreases lines.len(),
{
    if lines.len() == 0 {
        Seq::empty()
    } else {
        lines_text(lines.drop_last()) + lines.last() + seq!['\n']
    }
}

fn setting(key: &str, value: &str) -> (line: String)
    ensures
        line@ == setting_line(key@, value@),
{
    let mut line = key.to_owned();
    line.append("=");
    line.append(value);
    proof {
        reveal_strlit("=");
    }
    line
}

fn bool_setting_text(b: bool) -> (text: &'static str)
    ensures
        text@ == bool_text(b),
{
    if b {
        "true"
    } else {
        "false"
    }
}

fn signed_text(n: i32) -> (text: String)
    ensures
        text@ == signed_decimal(n as int),
{
    if n < 0 {
        let mut text = "-".to_owned();
        let magnitude: i64 = -(n as i64);
        text.append(decimal_text(magnitude as u64).as_str());
        proof {
            reveal_strlit("-");
        }
        text
    } else {
        decimal_text(n as u64)
    }
}

fn join_lines(lines: &Vec<String>) -> (text: String)
    ensures
        text@ == lines_text(string_texts(lines@)),
{
    let mut text = String::new();
    let mut k: usize = 0;
    while k < lines.len()
        invariant
            k <= lines@.len(),
            text@ == lines_text(string_texts(lines@).take(k as int)),
        decreases lines@.len() - k,
    {
        let ghost before = string_texts(lines@).take(k as int);
        assert(string_texts(lines@).take(k + 1).drop_last() == before);
        text.append(lines[k].as_str());
        text.append("\n");
        proof {
            reveal_strlit("\n");
        }
        k = k + 1;
    }
    assert(string_texts(lines@).take(lines@.len() as int) == string_texts(lines@));
    text
}

/// The settings file for `config`, with the four fractional settings written
/// as the given texts.
#[verifier::rlimit(60)]
#[verifier::spinoff_prover]
pub fn serialize_viewer_config(
    config: &ViewerConfig,
    min_zoom_scale: &str,
    max_zoom_scale: &str,
    zoom_step_factor: &str,
    full_resolution_request_scale: &str,
) -> (text: String)
    ensures
        text@ == lines_text(
            config_lines(config@, min_zoom_scale@, max_zoom_scale@, zoom_step_factor@, full_resolution_request_scale@),
        ),
        valid_config(config@),
{
    config.establish_valid();
    let ghost c = config@;
    let mut lines: Vec<String> = Vec::new();
    lines.push(setting("version", "1"));
    if let Some(bounds) = config.window_bounds() {
        lines.push(setting("window.x", signed_text(bounds.x()).as_str()));
        lines.push(setting("window.y", signed_text(bounds.y()).as_str()));
        lines.push(setting("window.width", signed_text(bounds.width()).as_str()));
        lines.push(setting("window.height", signed_text(bounds.height()).as_str()));
    }
    let ghost first = string_texts(lines@);
    lines.push(setting("ui_language", config_string_value(config_ui_language_name(config.ui_language())).as_str()));
    lines.push(setting("default_view_mode", config_string_value(config_view_mode_name(config.default_view_mode())).as_str()));
    lines.push(setting("scaling_quality", config_string_value(config_scaling_quality_name(config.scaling_quality())).as_str()));
    if let Some(folder) = config.recent_folder() {
        lines.push(setting("recent_folder", config_string_value(folder).as_str()));
    }
    let ghost second = string_texts(lines@);
    lines.push(setting("export_default_quality", decimal_text(config.export_default_quality() as u64).as_str()));
    lines.push(setting("animation_autoplay", bool_setting_text(config.animation_autoplay())));
    lines.push(setting("min_zoom_scale", min_zoom_scale));
    lines.push(setting("max_zoom_scale", max_zoom_scale));
    lines.push(setting("zoom_step_factor", zoom_step_factor));
    let memory = config.memory_policy_settings();
    lines.push(setting("large_image_pixel_threshold", decimal_text(memory.large_image_pixel_threshold()).as_str()));
    lines.push(setting("max_image_pixels", decimal_text(memory.max_image_pixels()).as_str()));
    lines.push(setting("preview_max_pixels", decimal_text(memory.preview_max_pixels()).as_str()));
    lines.push(setting("preview_oversample", decimal_text(memory.preview_oversample() as u64).as_str()));
    lines.push(setting("fallback_viewport_width", decimal_text(memory.fallback_viewport_width() as u64).as_str()));
    lines.push(setting("fallback_viewport_height", decimal_text(memory.fallback_viewport_height() as u64).as_str()));
    lines.push(setting("max_transient_decode_mib", decimal_text(memory.max_transient_decode_mib() as u64).as_str()));
    lines.push(setting("max_full_resolution_mib", decimal_text(memory.max_full_resolution_mib() as u64).as_str()));
    lines.push(setting("max_resident_mib", decimal_text(memory.max_resident_mib() as u64).as_str()));
    lines.push(setting("max_cache_entry_mib", decimal_text(memory.max_cache_entry_mib() as u64).as_str()));
    lines.push(setting("max_cache_entries", decimal_text(memory.max_cache_entries() as u64).as_str()));
    lines.push(setting("max_animation_metadata_frames", decimal_text(memory.max_animation_metadata_frames() as u64).as_str()));
    lines.push(setting("full_resolution_request_scale", full_resolution_request_scale));
    let timing = config.animation_timing_settings();
    lines.push(setting("default_frame_delay_ms", decimal_text(timing.default_frame_delay_ms() as u64).as_str()));
    lines.push(setting("min_frame_delay_ms", decimal_text(timing.min_frame_delay_ms() as u64).as_str()));
    lines.push(setting("max_frame_delay_ms", decimal_text(timing.max_frame_delay_ms() as u64).as_str()));
    let navigation = config.navigation_settings();
    lines.push(setting("wrap_navigation", bool_setting_text(navigation.wrap_navigation())));
    lines.push(setting("auto_skip_failed_navigation", bool_setting_text(navigation.auto_skip_failed_navigation())));
    lines.push(setting(
        "max_navigation_attempts_per_command",
        decimal_text(navigation.max_navigation_attempts_per_command() as u64).as_str(),
    ));
    let export = config.export_settings();
    lines.push(setting(
        "default_export_format_policy",
        config_string_value(config_default_export_format_policy_name(export.default_export_format_policy())).as_str(),
    ));
    lines.push(setting("export_filename_suffix", config_string_value(export.export_filename_suffix()).as_str()));
    lines.push(setting(
        "jpeg_alpha_background_rgb",
        config_string_value(config_rgb_color_value(export.jpeg_alpha_background_rgb()).as_str()).as_str(),
    ));
    let status_ui = config.status_ui_settings();
    lines.push(setting("show_status_bar", bool_setting_text(status_ui.show_status_bar())));
    lines.push(setting("detailed_status_text", bool_setting_text(status_ui.detailed_status_text())));
    let interaction = config.interaction_settings();
    lines.push(setting("zoom_shortcut", config_string_value(config_mouse_shortcut_name(interaction.zoom_shortcut())).as_str()));
    lines.push(setting(
        "image_navigation_shortcut",
        config_string_value(config_mouse_shortcut_name(interaction.image_navigation_shortcut())).as_str(),
    ));
    lines.push(setting(
        "image_pan_shortcut",
        config_string_value(config_mouse_shortcut_name(interaction.image_pan_shortcut())).as_str(),
    ));
    lines.push(setting(
        "window_move_shortcut",
        config_string_value(config_mouse_shortcut_name(interaction.window_move_shortcut())).as_str(),
    ));
    proof {
        let expected = config_lines(c, min_zoom_scale@, max_zoom_scale@, zoom_step_factor@, full_resolution_request_scale@);
        reveal_strlit("1");
        assert(string_texts(lines@) =~= expected);
    }
    join_lines(&lines)
}

} // verus!

//! The settings file: the names settings are written with, the values it
//! holds, and reading it line by line.
use vstd::prelude::*;

use crate::config_text::string_value;
use crate::export::{default_suffix, sanitized_suffix, DefaultExportFormatPolicy, ExportSettings, DEFAULT_EXPORT_QUALITY, MAX_EXPORT_QUALITY, MIN_EXPORT_QUALITY};
use crate::geometry::{valid_window_bounds, ScalingQuality, ViewMode, WindowBounds};
use crate::info::{decimal, decimal_text};
use crate::memory::{
    limits_from_values, MemoryPolicySettings, DEFAULT_FALLBACK_VIEWPORT_HEIGHT, DEFAULT_FALLBACK_VIEWPORT_WIDTH,
    DEFAULT_LARGE_IMAGE_PIXEL_THRESHOLD, DEFAULT_MAX_ANIMATION_METADATA_FRAMES, DEFAULT_MAX_CACHE_ENTRIES,
    DEFAULT_MAX_CACHE_ENTRY_MIB, DEFAULT_MAX_FULL_RESOLUTION_MIB, DEFAULT_MAX_IMAGE_PIXELS, DEFAULT_MAX_RESIDENT_MIB,
    DEFAULT_MAX_TRANSIENT_DECODE_MIB, DEFAULT_PREVIEW_MAX_PIXELS, DEFAULT_PREVIEW_OVERSAMPLE,
    MAX_CONFIG_ANIMATION_METADATA_FRAMES, MAX_CONFIG_CACHE_ENTRIES, MAX_CONFIG_IMAGE_PIXELS, MAX_CONFIG_MEMORY_MIB,
    MAX_CONFIG_PREVIEW_OVERSAMPLE, MAX_CONFIG_VIEWPORT_EDGE, MIN_CONFIG_ANIMATION_METADATA_FRAMES,
    MIN_CONFIG_CACHE_ENTRIES, MIN_CONFIG_MEMORY_MIB, MIN_CONFIG_PIXEL_LIMIT, MIN_CONFIG_PREVIEW_OVERSAMPLE,
    MIN_CONFIG_VIEWPORT_EDGE,
};
use crate::settings::{
    timing_relationships, AnimationTimingSettings, InteractionSettings, MouseShortcut, NavigationSettings, RgbColor,
    StatusUiSettings, UiLanguage, DEFAULT_ANIMATION_FRAME_DELAY_MS, MAX_ANIMATION_FRAME_DELAY_MS, MAX_CONFIG_ANIMATION_DELAY_MS,
    MIN_ANIMATION_FRAME_DELAY_MS, MIN_CONFIG_ANIMATION_DELAY_MS,
};
use crate::text::{
    ascii_lower, chars_of, eq_ignore_ascii_case, equal_ignoring_ascii_case, pieces, push_char,
    split_text, string_texts, trim, trimmed,
};

verus! {

/// Why the settings file could not be read, with the line it happened on.
#[derive(Debug, Clone, PartialEq, Eq, Structural)]
pub enum AppConfigParseError {
    MalformedLine { line: usize },
    UnsupportedVersion { line: usize },
    InvalidEscape { line: usize },
}

impl AppConfigParseError {
    pub open spec fn line_number(self) -> usize {
        match self {
            AppConfigParseError::MalformedLine { line } => line,
            AppConfigParseError::UnsupportedVersion { line } => line,
            AppConfigParseError::InvalidEscape { line } => line,
        }
    }

    /// What went wrong and on which line.
    pub open spec fn message_text(self) -> Seq<char> {
        match self {
            AppConfigParseError::MalformedLine { line } => "malformed app config line: "@ + decimal(line as nat),
            AppConfigParseError::UnsupportedVersion { line } => "unsupported app config version: line "@ + decimal(
                line as nat,
            ),
            AppConfigParseError::InvalidEscape { line } => "invalid app config escape: line "@ + decimal(line as nat),
        }
    }

    pub fn message(&self) -> (text: String)
        ensures
            text@ == self.message_text(),
    {
        let (mut text, line) = match self {
            AppConfigParseError::MalformedLine { line } => ("malformed app config line: ".to_owned(), *line),
            AppConfigParseError::UnsupportedVersion { line } => (
                "unsupported app config version: line ".to_owned(),
                *line,
            ),
            AppConfigParseError::InvalidEscape { line } => ("invalid app config escape: line ".to_owned(), *line),
        };
        text.append(decimal_text(line as u64).as_str());
        text
    }
}

// ---------------------------------------------------------------------------
// Names
// ---------------------------------------------------------------------------
pub open spec fn ui_language_name(language: UiLanguage) -> Seq<char> {
    match language {
        UiLanguage::English => "english"@,
        UiLanguage::Korean => "korean"@,
    }
}

pub open spec fn ui_language_named(value: Seq<char>) -> Option<UiLanguage> {
    if equal_ignoring_ascii_case(value, "english"@) || equal_ignoring_ascii_case(value, "en"@) {
        Some(UiLanguage::English)
    } else if equal_ignoring_ascii_case(value, "korean"@) || equal_ignoring_ascii_case(value, "ko"@)
        || equal_ignoring_ascii_case(value, "kr"@) {
        Some(UiLanguage::Korean)
    } else {
        None
    }
}

pub fn config_ui_language_name(language: UiLanguage) -> (name: &'static str)
    ensures
        name@ == ui_language_name(language),
{
    match language {
        UiLanguage::English => "english",
        UiLanguage::Korean => "korean",
    }
}

pub fn config_ui_language_from_name(value: &str) -> (language: Option<UiLanguage>)
    ensures
        language == ui_language_named(value@),
{
    if eq_ignore_ascii_case(value, "english") || eq_ignore_ascii_case(value, "en") {
        Some(UiLanguage::English)
    } else if eq_ignore_ascii_case(value, "korean") || eq_ignore_ascii_case(value, "ko") || eq_ignore_ascii_case(
        value,
        "kr",
    ) {
        Some(UiLanguage::Korean)
    } else {
        None
    }
}

/// The view mode a new image starts in: manual zoom is not kept.
pub open spec fn default_view_mode_for(view_mode: ViewMode) -> ViewMode {
    match view_mode {
        ViewMode::ActualSize => ViewMode::ActualSize,
        _ => ViewMode::FitToWindow,
    }
}

pub fn default_config_view_mode(view_mode: ViewMode) -> (mode: ViewMode)
    ensures
        mode == default_view_mode_for(view_mode),
{
    match view_mode {
        ViewMode::FitToWindow | ViewMode::ManualZoom => ViewMode::FitToWindow,
        ViewMode::ActualSize => ViewMode::ActualSize,
    }
}

pub open spec fn view_mode_name(view_mode: ViewMode) -> Seq<char> {
    match default_view_mode_for(view_mode) {
        ViewMode::ActualSize => "actual_size"@,
        _ => "fit_to_window"@,
    }
}

pub open spec fn view_mode_named(value: Seq<char>) -> Option<ViewMode> {
    if equal_ignoring_ascii_case(value, "fit_to_window"@) || equal_ignoring_ascii_case(value, "fit"@) {
        Some(ViewMode::FitToWindow)
    } else if equal_ignoring_ascii_case(value, "actual_size"@) || equal_ignoring_ascii_case(value, "actual"@) {
        Some(ViewMode::ActualSize)
    } else {
        None
    }
}

pub fn config_view_mode_name(view_mode: ViewMode) -> (name: &'static str)
    ensures
        name@ == view_mode_name(view_mode),
{
    match default_config_view_mode(view_mode) {
        ViewMode::FitToWindow | ViewMode::ManualZoom => "fit_to_window",
        ViewMode::ActualSize => "actual_size",
    }
}

pub fn config_view_mode_from_name(value: &str) -> (view_mode: Option<ViewMode>)
    ensures
        view_mode == view_mode_named(value@),
{
    if eq_ignore_ascii_case(value, "fit_to_window") || eq_ignore_ascii_case(value, "fit") {
        Some(ViewMode::FitToWindow)
    } else if eq_ignore_ascii_case(value, "actual_size") || eq_ignore_ascii_case(value, "actual") {
        Some(ViewMode::ActualSize)
    } else {
        None
    }
}

pub open spec fn scaling_quality_name(quality: ScalingQuality) -> Seq<char> {
    match quality {
        ScalingQuality::Nearest => "nearest"@,
        ScalingQuality::Balanced => "balanced"@,
        ScalingQuality::HighQuality => "high_quality"@,
    }
}

pub open spec fn scaling_quality_named(value: Seq<char>) -> Option<ScalingQuality> {
    if equal_ignoring_ascii_case(value, "nearest"@) {
        Some(ScalingQuality::Nearest)
    } else if equal_ignoring_ascii_case(value, "balanced"@) {
        Some(ScalingQuality::Balanced)
    } else if equal_ignoring_ascii_case(value, "high_quality"@) || equal_ignoring_ascii_case(value, "high-quality"@)
        || equal_ignoring_ascii_case(value, "highquality"@) {
        Some(ScalingQuality::HighQuality)
    } else {
        None
    }
}

pub fn config_scaling_quality_name(quality: ScalingQuality) -> (name: &'static str)
    ensures
        name@ == scaling_quality_name(quality),
{
    match quality {
        ScalingQuality::Nearest => "nearest",
        ScalingQuality::Balanced => "balanced",
        ScalingQuality::HighQuality => "high_quality",
    }
}

pub fn config_scaling_quality_from_name(value: &str) -> (quality: Option<ScalingQuality>)
    ensures
        quality == scaling_quality_named(value@),
{
    if eq_ignore_ascii_case(value, "nearest") {
        Some(ScalingQuality::Nearest)
    } else if eq_ignore_ascii_case(value, "balanced") {
        Some(ScalingQuality::Balanced)
    } else if eq_ignore_ascii_case(value, "high_quality") || eq_ignore_ascii_case(value, "high-quality")
        || eq_ignore_ascii_case(value, "highquality") {
        Some(ScalingQuality::HighQuality)
    } else {
        None
    }
}

pub open spec fn export_format_policy_name(policy: DefaultExportFormatPolicy) -> Seq<char> {
    match policy {
        DefaultExportFormatPolicy::Source => "source"@,
        DefaultExportFormatPolicy::Png => "png"@,
        DefaultExportFormatPolicy::Jpeg => "jpeg"@,
        DefaultExportFormatPolicy::Bmp => "bmp"@,
        DefaultExportFormatPolicy::Webp => "webp"@,
        DefaultExportFormatPolicy::Ico => "ico"@,
    }
}

pub open spec fn export_format_policy_named(value: Seq<char>) -> Option<DefaultExportFormatPolicy> {
    if equal_ignoring_ascii_case(value, "source"@) {
        Some(DefaultExportFormatPolicy::Source)
    } else if equal_ignoring_ascii_case(value, "png"@) {
        Some(DefaultExportFormatPolicy::Png)
    } else if equal_ignoring_ascii_case(value, "jpeg"@) || equal_ignoring_ascii_case(value, "jpg"@) {
        Some(DefaultExportFormatPolicy::Jpeg)
    } else if equal_ignoring_ascii_case(value, "bmp"@) {
        Some(DefaultExportFormatPolicy::Bmp)
    } else if equal_ignoring_ascii_case(value, "webp"@) {
        Some(DefaultExportFormatPolicy::Webp)
    } else if equal_ignoring_ascii_case(value, "ico"@) {
        Some(DefaultExportFormatPolicy::Ico)
    } else {
        None
    }
}

pub fn config_default_export_format_policy_name(policy: DefaultExportFormatPolicy) -> (name: &'static str)
    ensures
        name@ == export_format_policy_name(policy),
{
    match policy {
        DefaultExportFormatPolicy::Source => "source",
        DefaultExportFormatPolicy::Png => "png",
        DefaultExportFormatPolicy::Jpeg => "jpeg",
        DefaultExportFormatPolicy::Bmp => "bmp",
        DefaultExportFormatPolicy::Webp => "webp",
        DefaultExportFormatPolicy::Ico => "ico",
    }
}

pub fn config_default_export_format_policy_from_name(value: &str) -> (policy: Option<DefaultExportFormatPolicy>)
    ensures
        policy == export_format_policy_named(value@),
{
    if eq_ignore_ascii_case(value, "source") {
        Some(DefaultExportFormatPolicy::Source)
    } else if eq_ignore_ascii_case(value, "png") {
        Some(DefaultExportFormatPolicy::Png)
    } else if eq_ignore_ascii_case(value, "jpeg") || eq_ignore_ascii_case(value, "jpg") {
        Some(DefaultExportFormatPolicy::Jpeg)
    } else if eq_ignore_ascii_case(value, "bmp") {
        Some(DefaultExportFormatPolicy::Bmp)
    } else if eq_ignore_ascii_case(value, "webp") {
        Some(DefaultExportFormatPolicy::Webp)
    } else if eq_ignore_ascii_case(value, "ico") {
        Some(DefaultExportFormatPolicy::Ico)
    } else {
        None
    }
}

pub open spec fn mouse_shortcut_name(shortcut: MouseShortcut) -> Seq<char> {
    match shortcut {
        MouseShortcut::MouseWheel => "mouse_wheel"@,
        MouseShortcut::CtrlMouseWheel => "ctrl_mouse_wheel"@,
        MouseShortcut::LeftButtonDrag => "left_button_drag"@,
        MouseShortcut::CtrlLeftButtonDrag => "ctrl_left_button_drag"@,
    }
}

pub open spec fn mouse_shortcut_named(value: Seq<char>) -> Option<MouseShortcut> {
    if equal_ignoring_ascii_case(value, "mouse_wheel"@) || equal_ignoring_ascii_case(value, "wheel"@) {
        Some(MouseShortcut::MouseWheel)
    } else if equal_ignoring_ascii_case(value, "ctrl_mouse_wheel"@) || equal_ignoring_ascii_case(
        value,
        "control_mouse_wheel"@,
    ) || equal_ignoring_ascii_case(value, "ctrl+wheel"@) || equal_ignoring_ascii_case(value, "ctrl_wheel"@) {
        Some(MouseShortcut::CtrlMouseWheel)
    } else if equal_ignoring_ascii_case(value, "left_button_drag"@) || equal_ignoring_ascii_case(
        value,
        "left_drag"@,
    ) {
        Some(MouseShortcut::LeftButtonDrag)
    } else if equal_ignoring_ascii_case(value, "ctrl_left_button_drag"@) || equal_ignoring_ascii_case(
        value,
        "control_left_button_drag"@,
    ) || equal_ignoring_ascii_case(value, "ctrl+left_drag"@) || equal_ignoring_ascii_case(value, "ctrl_left_drag"@) {
        Some(MouseShortcut::CtrlLeftButtonDrag)
    } else {
        None
    }
}

pub fn config_mouse_shortcut_name(shortcut: MouseShortcut) -> (name: &'static str)
    ensures
        name@ == mouse_shortcut_name(shortcut),
{
    match shortcut {
        MouseShortcut::MouseWheel => "mouse_wheel",
        MouseShortcut::CtrlMouseWheel => "ctrl_mouse_wheel",
        MouseShortcut::LeftButtonDrag => "left_button_drag",
        MouseShortcut::CtrlLeftButtonDrag => "ctrl_left_button_drag",
    }
}

pub fn config_mouse_shortcut_from_name(value: &str) -> (shortcut: Option<MouseShortcut>)
    ensures
        shortcut == mouse_shortcut_named(value@),
{
    if eq_ignore_ascii_case(value, "mouse_wheel") || eq_ignore_ascii_case(value, "wheel") {
        Some(MouseShortcut::MouseWheel)
    } else if eq_ignore_ascii_case(value, "ctrl_mouse_wheel") || eq_ignore_ascii_case(value, "control_mouse_wheel")
        || eq_ignore_ascii_case(value, "ctrl+wheel") || eq_ignore_ascii_case(value, "ctrl_wheel") {
        Some(MouseShortcut::CtrlMouseWheel)
    } else if eq_ignore_ascii_case(value, "left_button_drag") || eq_ignore_ascii_case(value, "left_drag") {
        Some(MouseShortcut::LeftButtonDrag)
    } else if eq_ignore_ascii_case(value, "ctrl_left_button_drag") || eq_ignore_ascii_case(
        value,
        "control_left_button_drag",
    ) || eq_ignore_ascii_case(value, "ctrl+left_drag") || eq_ignore_ascii_case(value, "ctrl_left_drag") {
        Some(MouseShortcut::CtrlLeftButtonDrag)
    } else {
        None
    }
}

proof fn lemma_differs_at(a: Seq<char>, b: Seq<char>, i: int)
    requires
        0 <= i < a.len(),
        ascii_lower(a[i]) != ascii_lower(b[i]),
    ensures
        !equal_ignoring_ascii_case(a, b),
{
}

proof fn lemma_equal_ignoring_case_itself(s: Seq<char>)
    ensures
        equal_ignoring_ascii_case(s, s),
{
}

/// Every setting reads back from the name it is written with; a view mode
/// reads back as the mode a new image starts in.
pub proof fn law_names_read_back(
    language: UiLanguage,
    view_mode: ViewMode,
    quality: ScalingQuality,
    policy: DefaultExportFormatPolicy,
    shortcut: MouseShortcut,
)
    ensures
        ui_language_named(ui_language_name(language)) == Some(language),
        view_mode_named(view_mode_name(view_mode)) == Some(default_view_mode_for(view_mode)),
        scaling_quality_named(scaling_quality_name(quality)) == Some(quality),
        export_format_policy_named(export_format_policy_name(policy)) == Some(policy),
        mouse_shortcut_named(mouse_shortcut_name(shortcut)) == Some(shortcut),
{
    reveal_strlit("english");
    reveal_strlit("en");
    reveal_strlit("korean");
    reveal_strlit("fit_to_window");
    reveal_strlit("fit");
    reveal_strlit("actual_size");
    reveal_strlit("nearest");
    reveal_strlit("balanced");
    reveal_strlit("high_quality");
    reveal_strlit("source");
    reveal_strlit("png");
    reveal_strlit("jpeg");
    reveal_strlit("bmp");
    reveal_strlit("webp");
    reveal_strlit("ico");
    reveal_strlit("mouse_wheel");
    reveal_strlit("wheel");
    reveal_strlit("ctrl_mouse_wheel");
    reveal_strlit("control_mouse_wheel");
    reveal_strlit("ctrl+wheel");
    reveal_strlit("ctrl_wheel");
    reveal_strlit("left_button_drag");
    reveal_strlit("left_drag");
    reveal_strlit("ctrl_left_button_drag");
    reveal_strlit("jpg");
    lemma_differs_at("bmp"@, "png"@, 0);
    lemma_differs_at("bmp"@, "jpg"@, 0);
    lemma_differs_at("ico"@, "png"@, 0);
    lemma_differs_at("ico"@, "jpg"@, 0);
    lemma_differs_at("ico"@, "bmp"@, 0);
    lemma_differs_at("webp"@, "jpeg"@, 0);
    lemma_differs_at("left_button_drag"@, "ctrl_mouse_wheel"@, 0);
    lemma_equal_ignoring_case_itself(ui_language_name(language));
    lemma_equal_ignoring_case_itself(view_mode_name(view_mode));
    lemma_equal_ignoring_case_itself(scaling_quality_name(quality));
    lemma_equal_ignoring_case_itself(export_format_policy_name(policy));
    lemma_equal_ignoring_case_itself(mouse_shortcut_name(shortcut));
}

// ---------------------------------------------------------------------------
// Values
// ---------------------------------------------------------------------------
/// A true or false value: `true`, `yes` (in any ASCII case) or `1`; `false`,
/// `no` or `0`.
pub open spec fn config_bool(value: Seq<char>) -> Option<bool> {
    if equal_ignoring_ascii_case(value, "true"@) || value == seq!['1'] || equal_ignoring_ascii_case(value, "yes"@) {
        Some(true)
    } else if equal_ignoring_ascii_case(value, "false"@) || value == seq!['0'] || equal_ignoring_ascii_case(
        value,
        "no"@,
    ) {
        Some(false)
    } else {
        None
    }
}

fn is_single_char(value: &str, c: char) -> (single: bool)
    ensures
        single == (value@ == seq![c]),
{
    if value.unicode_len() == 1 && value.get_char(0) == c {
        assert(value@ == seq![c]);
        true
    } else {
        false
    }
}

pub fn parse_config_bool(value: &str) -> (parsed: Option<bool>)
    ensures
        parsed == config_bool(value@),
{
    if eq_ignore_ascii_case(value, "true") || is_single_char(value, '1') || eq_ignore_ascii_case(value, "yes") {
        Some(true)
    } else if eq_ignore_ascii_case(value, "false") || is_single_char(value, '0') || eq_ignore_ascii_case(value, "no") {
        Some(false)
    } else {
        None
    }
}

pub open spec fn is_decimal_digit(c: char) -> bool {
    '0' <= c <= '9'
}

pub open spec fn digit_value(c: char) -> int {
    c as int - '0' as int
}

/// Decimal digits read left to right into `acc`, as `str::parse::<i128>`
/// reads them: a non-digit fails, unless the value has already left the range
/// of `i128`, in which case it stops at the nearest end of the range.
pub open spec fn scan_i128(digits: Seq<char>, acc: int, negative: bool) -> Option<int>
    decreases digits.len(),
{
    if digits.len() == 0 {
        Some(acc)
    } else if !is_decimal_digit(digits[0]) {
        None
    } else {
        let next = if negative {
            acc * 10 - digit_value(digits[0])
        } else {
            acc * 10 + digit_value(digits[0])
        };
        if next > i128::MAX {
            Some(i128::MAX as int)
        } else if next < i128::MIN {
            Some(i128::MIN as int)
        } else {
            scan_i128(digits.drop_first(), next, negative)
        }
    }
}

/// An integer value: an optional sign and decimal digits; out-of-range values
/// become the nearest end of the range of `i128`.
pub open spec fn config_integer(value: Seq<char>) -> Option<int> {
    if value.len() == 0 {
        None
    } else if value[0] == '+' || value[0] == '-' {
        if value.len() == 1 {
            None
        } else {
            scan_i128(value.drop_first(), 0, value[0] == '-')
        }
    } else {
        scan_i128(value, 0, false)
    }
}

pub fn parse_config_i128(value: &str) -> (parsed: Option<i128>)
    ensures
        match parsed {
            Some(v) => config_integer(value@) == Some(v as int),
            None => config_integer(value@) is None,
        },
{
    let chars = chars_of(value);
    if chars.len() == 0 {
        return None;
    }
    let negative = chars[0] == '-';
    let mut i: usize = 0;
    if chars[0] == '+' || chars[0] == '-' {
        if chars.len() == 1 {
            return None;
        }
        i = 1;
    }
    let ghost digits = chars@.skip(i as int);
    assert(i == 0 ==> digits == chars@);
    assert(i == 1 ==> digits == chars@.drop_first());
    let mut acc: i128 = 0;
    while i < chars.len()
        invariant
            chars@ == value@,
            1 <= chars@.len(),
            negative == (chars@[0] == '-'),
            i <= chars@.len(),
            negative ==> acc <= 0,
            !negative ==> acc >= 0,
            config_integer(value@) == scan_i128(chars@.skip(i as int), acc as int, negative),
        decreases chars@.len() - i,
    {
        let ghost rest = chars@.skip(i as int);
        let c = chars[i];
        assert(rest[0] == c);
        assert(rest.drop_first() == chars@.skip(i + 1));
        if !('0' <= c && c <= '9') {
            return None;
        }
        let d: i128 = (c as u32 - '0' as u32) as i128;
        if negative {
            if acc < -17014118346046923173168730371588410572 {
                return Some(i128::MIN);
            }
            let scaled = acc * 10;
            if scaled < i128::MIN + d {
                return Some(i128::MIN);
            }
            acc = scaled - d;
        } else {
            if acc > 17014118346046923173168730371588410572 {
                return Some(i128::MAX);
            }
            let scaled = acc * 10;
            if scaled > i128::MAX - d {
                return Some(i128::MAX);
            }
            acc = scaled + d;
        }
        i = i + 1;
    }
    assert(chars@.skip(chars@.len() as int) == Seq::<char>::empty());
    Some(acc)
}

/// `value` limited to `min ..= max`.
pub open spec fn clamp_to(value: int, min: int, max: int) -> int {
    if value < min {
        min
    } else if value > max {
        max
    } else {
        value
    }
}

/// A stored number limited to its range, or the default when none was stored.
pub fn sanitize_optional_config_u64(value: Option<i128>, min: u64, max: u64, default: u64) -> (sanitized: u64)
    requires
        min <= max,
    ensures
        sanitized == (match value {
            Some(v) => clamp_to(v as int, min as int, max as int),
            None => default as int,
        }),
{
    match value {
        Some(v) => if v < min as i128 {
            min
        } else if v > max as i128 {
            max
        } else {
            v as u64
        },
        None => default,
    }
}

pub fn sanitize_optional_config_u32(value: Option<i128>, min: u32, max: u32, default: u32) -> (sanitized: u32)
    requires
        min <= max,
    ensures
        sanitized == (match value {
            Some(v) => clamp_to(v as int, min as int, max as int),
            None => default as int,
        }),
{
    match value {
        Some(v) => if v < min as i128 {
            min
        } else if v > max as i128 {
            max
        } else {
            v as u32
        },
        None => default,
    }
}

pub fn sanitize_optional_config_u8(value: Option<i128>, min: u8, max: u8, default: u8) -> (sanitized: u8)
    requires
        min <= max,
    ensures
        sanitized == (match value {
            Some(v) => clamp_to(v as int, min as int, max as int),
            None => default as int,
        }),
{
    match value {
        Some(v) => if v < min as i128 {
            min
        } else if v > max as i128 {
            max
        } else {
            v as u8
        },
        None => default,
    }
}

pub fn sanitize_optional_config_usize(value: Option<i128>, min: usize, max: usize, default: usize) -> (sanitized: usize)
    requires
        min <= max,
    ensures
        sanitized == (match value {
            Some(v) => clamp_to(v as int, min as int, max as int),
            None => default as int,
        }),
{
    match value {
        Some(v) => if v < min as i128 {
            min
        } else if v > max as i128 {
            max
        } else {
            v as usize
        },
        None => default,
    }
}

/// One colour component: an integer (spaces around it allowed) limited to 0 ..= 255.
pub open spec fn rgb_component(value: Seq<char>) -> Option<u8> {
    match config_integer(trimmed(value)) {
        Some(n) => Some(clamp_to(n, 0, 255) as u8),
        None => None,
    }
}

/// A colour: three components separated by commas.
pub open spec fn config_rgb(value: Seq<char>) -> Option<(u8, u8, u8)> {
    let p = pieces(value, ',');
    if p.len() != 3 {
        None
    } else {
        match (rgb_component(p[0]), rgb_component(p[1]), rgb_component(p[2])) {
            (Some(r), Some(g), Some(b)) => Some((r, g, b)),
            _ => None,
        }
    }
}

fn parse_config_rgb_component(value: &str) -> (component: Option<u8>)
    ensures
        component == rgb_component(value@),
{
    match parse_config_i128(trim(value)) {
        Some(n) => if n < 0 {
            Some(0)
        } else if n > 255 {
            Some(255)
        } else {
            Some(n as u8)
        },
        None => None,
    }
}

pub fn parse_config_rgb_color(value: &str) -> (color: Option<RgbColor>)
    ensures
        match config_rgb(value@) {
            Some((r, g, b)) => color matches Some(c) && c.red() == r && c.green() == g && c.blue() == b,
            None => color is None,
        },
{
    let parts = split_text(value, ',');
    if parts.len() != 3 {
        return None;
    }
    assert(parts@[0]@ == pieces(value@, ',')[0]);
    assert(parts@[1]@ == pieces(value@, ',')[1]);
    assert(parts@[2]@ == pieces(value@, ',')[2]);
    let red = match parse_config_rgb_component(parts[0].as_str()) {
        Some(c) => c,
        None => return None,
    };
    let green = match parse_config_rgb_component(parts[1].as_str()) {
        Some(c) => c,
        None => return None,
    };
    let blue = match parse_config_rgb_component(parts[2].as_str()) {
        Some(c) => c,
        None => return None,
    };
    Some(RgbColor::new(red, green, blue))
}

/// A colour as its three components, separated by commas.
pub open spec fn rgb_text(red: u8, green: u8, blue: u8) -> Seq<char> {
    decimal(red as nat) + seq![','] + decimal(green as nat) + seq![','] + decimal(blue as nat)
}

pub fn config_rgb_color_value(color: RgbColor) -> (text: String)
    ensures
        text@ == rgb_text(color.red(), color.green(), color.blue()),
{
    let mut text = decimal_text(color.red() as u64);
    push_char(&mut text, ',');
    text.append(decimal_text(color.green() as u64).as_str());
    push_char(&mut text, ',');
    text.append(decimal_text(color.blue() as u64).as_str());
    text
}

// ---------------------------------------------------------------------------
// Lines
// ---------------------------------------------------------------------------
/// What a line of the settings file is, once trimmed: blank or a `#`
/// comment, a `key=value` entry (split at the first `=`, both sides trimmed,
/// the key not empty), or malformed.
pub enum LineForm {
    Skipped,
    Malformed,
    Entry(Seq<char>, Seq<char>),
}

/// The position of the first `c` in `s`, or -1.
pub open spec fn first_index_of(s: Seq<char>, c: char) -> int
    decreases s.len(),
{
    if s.len() == 0 {
        -1
    } else if s[0] == c {
        0
    } else {
        let rest = first_index_of(s.drop_first(), c);
        if rest < 0 {
            -1
        } else {
            rest + 1
        }
    }
}

pub open spec fn line_form(line: Seq<char>) -> LineForm {
    let t = trimmed(line);
    if t.len() == 0 || t[0] == '#' {
        LineForm::Skipped
    } else {
        let eq = first_index_of(t, '=');
        if eq < 0 {
            LineForm::Malformed
        } else {
            let key = trimmed(t.take(eq));
            let value = trimmed(t.skip(eq + 1));
            if key.len() == 0 {
                LineForm::Malformed
            } else {
                LineForm::Entry(key, value)
            }
        }
    }
}

/// The settings whose quoted value must read as text; a malformed escape in
/// one of them makes the whole file unreadable.
pub open spec fn is_strict_text_key(key: Seq<char>) -> bool {
    ||| key == "ui_language"@
    ||| key == "default_view_mode"@
    ||| key == "scaling_quality"@
    ||| key == "recent_folder"@
    ||| key == "default_export_format_policy"@
    ||| key == "zoom_shortcut"@
    ||| key == "image_navigation_shortcut"@
    ||| key == "image_pan_shortcut"@
    ||| key == "window_move_shortcut"@
}

/// The error line `number` (counting from 1) holding `line` gives, if any.
pub open spec fn line_error(line: Seq<char>, number: usize) -> Option<AppConfigParseError> {
    match line_form(line) {
        LineForm::Skipped => None,
        LineForm::Malformed => Some(AppConfigParseError::MalformedLine { line: number }),
        LineForm::Entry(key, value) => if key == "version"@ && value != seq!['1'] {
            Some(AppConfigParseError::UnsupportedVersion { line: number })
        } else if is_strict_text_key(key) && string_value(value) is None {
            Some(AppConfigParseError::InvalidEscape { line: number })
        } else {
            None
        },
    }
}

/// An entry of the settings file: its line number, key and value.
pub struct EntryView {
    pub line: usize,
    pub key: Seq<char>,
    pub value: Seq<char>,
}

/// The entries of the first `lines.len()` lines, or the error of the first
/// line that has one.
pub open spec fn config_entries(lines: Seq<Seq<char>>) -> Result<Seq<EntryView>, AppConfigParseError>
    decreases lines.len(),
{
    if lines.len() == 0 {
        Ok(Seq::empty())
    } else {
        match config_entries(lines.drop_last()) {
            Err(e) => Err(e),
            Ok(entries) => {
                let number = lines.len() as usize;
                match line_error(lines.last(), number) {
                    Some(e) => Err(e),
                    None => match line_form(lines.last()) {
                        LineForm::Entry(key, value) => Ok(entries.push(EntryView { line: number, key, value })),
                        _ => Ok(entries),
                    },
                }
            },
        }
    }
}

/// An entry of the settings file.
#[derive(Debug, Clone, PartialEq, Eq)]
pub struct ConfigEntry {
    pub line: usize,
    pub key: String,
    pub value: String,
}

impl View for ConfigEntry {
    type V = EntryView;

    open spec fn view(&self) -> EntryView {
        EntryView { line: self.line, key: self.key@, value: self.value@ }
    }
}

pub open spec fn entry_views(entries: Seq<ConfigEntry>) -> Seq<EntryView> {
    entries.map_values(|e: ConfigEntry| e@)
}

/// Whether two texts are the same.
pub fn text_equals(a: &str, b: &str) -> (equal: bool)
    ensures
        equal == (a@ == b@),
{
    let a_chars = chars_of(a);
    let b_chars = chars_of(b);
    crate::text::chars_equal(&a_chars, &b_chars)
}

fn find_char(text: &str, c: char) -> (index: Option<usize>)
    ensures
        match index {
            Some(i) => i == first_index_of(text@, c) && i < text@.len(),
            None => first_index_of(text@, c) == -1,
        },
{
    let len = text.unicode_len();
    let mut i: usize = 0;
    assert(text@.skip(0) == text@);
    while i < len
        invariant
            len == text@.len(),
            i <= len,
            first_index_of(text@, c) == (if first_index_of(text@.skip(i as int), c) < 0 {
                -1
            } else {
                first_index_of(text@.skip(i as int), c) + i
            }),
        decreases len - i,
    {
        let ghost rest = text@.skip(i as int);
        assert(rest[0] == text@[i as int]);
        if text.get_char(i) == c {
            return Some(i);
        }
        assert(rest.drop_first() == text@.skip(i + 1));
        i = i + 1;
    }
    assert(text@.skip(len as int) == Seq::<char>::empty());
    None
}

fn is_strict_text_key_exec(key: &str) -> (strict: bool)
    ensures
        strict == is_strict_text_key(key@),
{
    text_equals(key, "ui_language") || text_equals(key, "default_view_mode") || text_equals(key, "scaling_quality")
        || text_equals(key, "recent_folder") || text_equals(key, "default_export_format_policy")
        || text_equals(key, "zoom_shortcut") || text_equals(key, "image_navigation_shortcut")
        || text_equals(key, "image_pan_shortcut") || text_equals(key, "window_move_shortcut")
}

/// The entries of the settings file in order, or the error of its first
/// line that has one.
pub fn parse_config_entries(contents: &str) -> (result: Result<Vec<ConfigEntry>, AppConfigParseError>)
    ensures
        match config_entries(pieces(contents@, '\n')) {
            Ok(entries) => result matches Ok(es) && entry_views(es@) == entries,
            Err(e) => result == Err::<Vec<ConfigEntry>, AppConfigParseError>(e),
        },
{
    let lines = split_text(contents, '\n');
    let ghost all = pieces(contents@, '\n');
    let mut entries: Vec<ConfigEntry> = Vec::new();
    let mut i: usize = 0;
    assert(all.take(0) == Seq::<Seq<char>>::empty());
    assert(entry_views(entries@) == Seq::<EntryView>::empty());
    while i < lines.len()
        invariant
            all == pieces(contents@, '\n'),
            string_texts(lines@) == all,
            i <= lines@.len(),
            config_entries(all.take(i as int)) == Ok::<Seq<EntryView>, AppConfigParseError>(entry_views(entries@)),
        decreases lines@.len() - i,
    {
        let ghost taken = all.take(i + 1);
        assert(taken.drop_last() == all.take(i as int));
        assert(taken.last() == lines@[i as int]@);
        let number = i + 1;
        let line = trim(lines[i].as_str());
        let len = line.unicode_len();
        if len == 0 || line.get_char(0) == '#' {
            i = i + 1;
            continue;
        }
        let eq = match find_char(line, '=') {
            Some(eq) => eq,
            None => {
                proof {
                    lemma_config_entries_stop(all, i as int);
                }
                return Err(AppConfigParseError::MalformedLine { line: number });
            },
        };
        let key = trim(line.substring_char(0, eq));
        let value = trim(line.substring_char(eq + 1, len));
        assert(line@.take(eq as int) == line@.subrange(0, eq as int));
        assert(line@.skip(eq + 1) == line@.subrange(eq + 1, len as int));
        if key.unicode_len() == 0 {
            proof {
                lemma_config_entries_stop(all, i as int);
            }
            return Err(AppConfigParseError::MalformedLine { line: number });
        }
        if text_equals(key, "version") && !is_single_char(value, '1') {
            proof {
                reveal_strlit("version");
                lemma_config_entries_stop(all, i as int);
            }
            return Err(AppConfigParseError::UnsupportedVersion { line: number });
        }
        if is_strict_text_key_exec(key) && crate::config_text::config_value_text(value).is_none() {
            proof {
                lemma_config_entries_stop(all, i as int);
            }
            return Err(AppConfigParseError::InvalidEscape { line: number });
        }
        let ghost before = entry_views(entries@);
        entries.push(ConfigEntry { line: number, key: key.to_owned(), value: value.to_owned() });
        assert(entry_views(entries@) == before.push(EntryView { line: number, key: key@, value: value@ }));
        i = i + 1;
    }
    assert(all.take(lines@.len() as int) == all);
    Ok(entries)
}

/// Once a line has an error, the error of the whole file is the first one.
proof fn lemma_config_entries_stop(all: Seq<Seq<char>>, i: int)
    requires
        0 <= i < all.len(),
        config_entries(all.take(i)) is Ok,
        line_error(all[i], (i + 1) as usize) is Some,
    ensures
        config_entries(all) == Err::<Seq<EntryView>, AppConfigParseError>(
            line_error(all[i], (i + 1) as usize)->Some_0,
        ),
{
    assert(all.take(i + 1).drop_last() == all.take(i));
    assert(all.take(i + 1).last() == all[i]);
    lemma_config_error_persists(all, i + 1);
}

/// An error in the first `k` lines is the error of the whole file.
proof fn lemma_config_error_persists(all: Seq<Seq<char>>, k: int)
    requires
        0 <= k <= all.len(),
        config_entries(all.take(k)) is Err,
    ensures
        config_entries(all) == config_entries(all.take(k)),
    decreases all.len() - k,
{
    if k < all.len() {
        assert(all.take(k + 1).drop_last() == all.take(k));
        lemma_config_error_persists(all, k + 1);
    } else {
        assert(all.take(k) == all);
    }
}


pub open spec fn opt_text(o: Option<String>) -> Option<Seq<char>> {
    match o {
        Some(t) => Some(t@),
        None => None,
    }
}

pub open spec fn opt_int(o: Option<i128>) -> Option<int> {
    match o {
        Some(v) => Some(v as int),
        None => None,
    }
}

pub open spec fn opt_rgb(o: Option<RgbColor>) -> Option<(u8, u8, u8)> {
    match o {
        Some(c) => Some((c.red(), c.green(), c.blue())),
        None => None,
    }
}

/// The value of the last entry with `key`.
pub open spec fn last_value(entries: Seq<EntryView>, key: Seq<char>) -> Option<Seq<char>>
    decreases entries.len(),
{
    if entries.len() == 0 {
        None
    } else if entries.last().key == key {
        Some(entries.last().value)
    } else {
        last_value(entries.drop_last(), key)
    }
}

fn last_value_of<'a>(entries: &'a Vec<ConfigEntry>, key: &str) -> (value: Option<&'a str>)
    ensures
        opt_str(value) == last_value(entry_views(entries@), key@),
{
    let mut k: usize = entries.len();
    assert(entry_views(entries@).take(k as int) == entry_views(entries@));
    while k > 0
        invariant
            k <= entries@.len(),
            last_value(entry_views(entries@), key@) == last_value(entry_views(entries@).take(k as int), key@),
        decreases k,
    {
        let ghost prefix = entry_views(entries@).take(k as int);
        assert(prefix.last() == entries@[k - 1]@);
        if text_equals(entries[k - 1].key.as_str(), key) {
            return Some(entries[k - 1].value.as_str());
        }
        assert(prefix.drop_last() == entry_views(entries@).take(k - 1));
        k = k - 1;
    }
    None
}

pub open spec fn opt_str(o: Option<&str>) -> Option<Seq<char>> {
    match o {
        Some(t) => Some(t@),
        None => None,
    }
}

/// An integer that fits in `i32`, as `str::parse::<i32>` reads it.
pub open spec fn i32_value(value: Seq<char>) -> Option<i32> {
    match config_integer(value) {
        Some(n) => if i32::MIN <= n <= i32::MAX {
            Some(n as i32)
        } else {
            None
        },
        None => None,
    }
}

pub open spec fn i32_field(value: Option<Seq<char>>) -> Option<i32> {
    match value {
        Some(v) => i32_value(v),
        None => None,
    }
}

pub open spec fn integer_field(value: Option<Seq<char>>) -> Option<int> {
    match value {
        Some(v) => config_integer(v),
        None => None,
    }
}

pub open spec fn bool_field(value: Option<Seq<char>>) -> Option<bool> {
    match value {
        Some(v) => config_bool(v),
        None => None,
    }
}

pub open spec fn raw_field(value: Option<Seq<char>>) -> Option<Seq<char>> {
    value
}

pub open spec fn text_field(value: Option<Seq<char>>) -> Option<Seq<char>> {
    match value {
        Some(v) => string_value(v),
        None => None,
    }
}

pub open spec fn ui_language_field(value: Option<Seq<char>>) -> Option<UiLanguage> {
    match text_field(value) {
        Some(t) => ui_language_named(t),
        None => None,
    }
}

pub open spec fn view_mode_field(value: Option<Seq<char>>) -> Option<ViewMode> {
    match text_field(value) {
        Some(t) => view_mode_named(t),
        None => None,
    }
}

pub open spec fn scaling_quality_field(value: Option<Seq<char>>) -> Option<ScalingQuality> {
    match text_field(value) {
        Some(t) => scaling_quality_named(t),
        None => None,
    }
}

pub open spec fn export_policy_field(value: Option<Seq<char>>) -> Option<DefaultExportFormatPolicy> {
    match text_field(value) {
        Some(t) => export_format_policy_named(t),
        None => None,
    }
}

pub open spec fn shortcut_field(value: Option<Seq<char>>) -> Option<MouseShortcut> {
    match text_field(value) {
        Some(t) => mouse_shortcut_named(t),
        None => None,
    }
}

/// The suffix setting: its text, or `-export` when it does not read as text.
pub open spec fn suffix_field(value: Option<Seq<char>>) -> Option<Seq<char>> {
    match value {
        Some(v) => match string_value(v) {
            Some(t) => Some(t),
            None => Some("-export"@),
        },
        None => None,
    }
}

/// The colour setting: read as text when it can be, as written otherwise.
pub open spec fn rgb_field(value: Option<Seq<char>>) -> Option<(u8, u8, u8)> {
    match value {
        Some(v) => match string_value(v) {
            Some(t) => config_rgb(t),
            None => config_rgb(v),
        },
        None => None,
    }
}

fn read_i32_field(value: Option<&str>) -> (field: Option<i32>)
    ensures
        field == i32_field(opt_str(value)),
{
    match value {
        Some(v) => match parse_config_i128(v) {
            Some(n) => if n >= i32::MIN as i128 && n <= i32::MAX as i128 {
                Some(n as i32)
            } else {
                None
            },
            None => None,
        },
        None => None,
    }
}

fn read_integer_field(value: Option<&str>) -> (field: Option<i128>)
    ensures
        opt_int(field) == integer_field(opt_str(value)),
{
    match value {
        Some(v) => parse_config_i128(v),
        None => None,
    }
}

fn read_bool_field(value: Option<&str>) -> (field: Option<bool>)
    ensures
        field == bool_field(opt_str(value)),
{
    match value {
        Some(v) => parse_config_bool(v),
        None => None,
    }
}

fn read_raw_field(value: Option<&str>) -> (field: Option<String>)
    ensures
        opt_text(field) == raw_field(opt_str(value)),
{
    match value {
        Some(v) => Some(v.to_owned()),
        None => None,
    }
}

fn read_text_field(value: Option<&str>) -> (field: Option<String>)
    ensures
        opt_text(field) == text_field(opt_str(value)),
{
    match value {
        Some(v) => crate::config_text::config_value_text(v),
        None => None,
    }
}

fn read_ui_language_field(value: Option<&str>) -> (field: Option<UiLanguage>)
    ensures
        field == ui_language_field(opt_str(value)),
{
    match read_text_field(value) {
        Some(t) => config_ui_language_from_name(t.as_str()),
        None => None,
    }
}

fn read_view_mode_field(value: Option<&str>) -> (field: Option<ViewMode>)
    ensures
        field == view_mode_field(opt_str(value)),
{
    match read_text_field(value) {
        Some(t) => config_view_mode_from_name(t.as_str()),
        None => None,
    }
}

fn read_scaling_quality_field(value: Option<&str>) -> (field: Option<ScalingQuality>)
    ensures
        field == scaling_quality_field(opt_str(value)),
{
    match read_text_field(value) {
        Some(t) => config_scaling_quality_from_name(t.as_str()),
        None => None,
    }
}

fn read_export_policy_field(value: Option<&str>) -> (field: Option<DefaultExportFormatPolicy>)
    ensures
        field == export_policy_field(opt_str(value)),
{
    match read_text_field(value) {
        Some(t) => config_default_export_format_policy_from_name(t.as_str()),
        None => None,
    }
}

fn read_shortcut_field(value: Option<&str>) -> (field: Option<MouseShortcut>)
    ensures
        field == shortcut_field(opt_str(value)),
{
    match read_text_field(value) {
        Some(t) => config_mouse_shortcut_from_name(t.as_str()),
        None => None,
    }
}

fn read_suffix_field(value: Option<&str>) -> (field: Option<String>)
    ensures
        opt_text(field) == suffix_field(opt_str(value)),
{
    match value {
        Some(v) => match crate::config_text::config_value_text(v) {
            Some(t) => Some(t),
            None => Some("-export".to_owned()),
        },
        None => None,
    }
}

fn read_rgb_field(value: Option<&str>) -> (field: Option<RgbColor>)
    ensures
        opt_rgb(field) == rgb_field(opt_str(value)),
{
    match value {
        Some(v) => match crate::config_text::config_value_text(v) {
            Some(t) => parse_config_rgb_color(t.as_str()),
            None => parse_config_rgb_color(v),
        },
        None => None,
    }
}

/// The values a settings file holds: for each setting, what its last entry
/// says (none when it has no entry or the entry cannot be read). Values that
/// are floating-point numbers are kept as their text.
#[derive(Debug, Clone, PartialEq, Eq)]
pub struct ConfigValues {
    pub window_x: Option<i32>,
    pub window_y: Option<i32>,
    pub window_width: Option<i32>,
    pub window_height: Option<i32>,
    pub ui_language: Option<UiLanguage>,
    pub default_view_mode: Option<ViewMode>,
    pub scaling_quality: Option<ScalingQuality>,
    pub recent_folder: Option<String>,
    pub export_default_quality: Option<i128>,
    pub animation_autoplay: Option<bool>,
    pub min_zoom_scale: Option<String>,
    pub max_zoom_scale: Option<String>,
    pub zoom_step_factor: Option<String>,
    pub large_image_pixel_threshold: Option<i128>,
    pub max_image_pixels: Option<i128>,
    pub preview_max_pixels: Option<i128>,
    pub preview_oversample: Option<i128>,
    pub fallback_viewport_width: Option<i128>,
    pub fallback_viewport_height: Option<i128>,
    pub max_transient_decode_mib: Option<i128>,
    pub max_full_resolution_mib: Option<i128>,
    pub max_resident_mib: Option<i128>,
    pub max_cache_entry_mib: Option<i128>,
    pub max_cache_entries: Option<i128>,
    pub max_animation_metadata_frames: Option<i128>,
    pub full_resolution_request_scale: Option<String>,
    pub default_frame_delay_ms: Option<i128>,
    pub min_frame_delay_ms: Option<i128>,
    pub max_frame_delay_ms: Option<i128>,
    pub wrap_navigation: Option<bool>,
    pub auto_skip_failed_navigation: Option<bool>,
    pub max_navigation_attempts_per_command: Option<i128>,
    pub default_export_format_policy: Option<DefaultExportFormatPolicy>,
    pub export_filename_suffix: Option<String>,
    pub jpeg_alpha_background_rgb: Option<RgbColor>,
    pub show_status_bar: Option<bool>,
    pub detailed_status_text: Option<bool>,
    pub zoom_shortcut: Option<MouseShortcut>,
    pub image_navigation_shortcut: Option<MouseShortcut>,
    pub image_pan_shortcut: Option<MouseShortcut>,
    pub window_move_shortcut: Option<MouseShortcut>,
}

/// The view of `ConfigValues`: texts as character sequences, integers as `int`.
pub struct ConfigValuesView {
    pub window_x: Option<i32>,
    pub window_y: Option<i32>,
    pub window_width: Option<i32>,
    pub window_height: Option<i32>,
    pub ui_language: Option<UiLanguage>,
    pub default_view_mode: Option<ViewMode>,
    pub scaling_quality: Option<ScalingQuality>,
    pub recent_folder: Option<Seq<char>>,
    pub export_default_quality: Option<int>,
    pub animation_autoplay: Option<bool>,
    pub min_zoom_scale: Option<Seq<char>>,
    pub max_zoom_scale: Option<Seq<char>>,
    pub zoom_step_factor: Option<Seq<char>>,
    pub large_image_pixel_threshold: Option<int>,
    pub max_image_pixels: Option<int>,
    pub preview_max_pixels: Option<int>,
    pub preview_oversample: Option<int>,
    pub fallback_viewport_width: Option<int>,
    pub fallback_viewport_height: Option<int>,
    pub max_transient_decode_mib: Option<int>,
    pub max_full_resolution_mib: Option<int>,
    pub max_resident_mib: Option<int>,
    pub max_cache_entry_mib: Option<int>,
    pub max_cache_entries: Option<int>,
    pub max_animation_metadata_frames: Option<int>,
    pub full_resolution_request_scale: Option<Seq<char>>,
    pub default_frame_delay_ms: Option<int>,
    pub min_frame_delay_ms: Option<int>,
    pub max_frame_delay_ms: Option<int>,
    pub wrap_navigation: Option<bool>,
    pub auto_skip_failed_navigation: Option<bool>,
    pub max_navigation_attempts_per_command: Option<int>,
    pub default_export_format_policy: Option<DefaultExportFormatPolicy>,
    pub export_filename_suffix: Option<Seq<char>>,
    pub jpeg_alpha_background_rgb: Option<(u8, u8, u8)>,
    pub show_status_bar: Option<bool>,
    pub detailed_status_text: Option<bool>,
    pub zoom_shortcut: Option<MouseShortcut>,
    pub image_navigation_shortcut: Option<MouseShortcut>,
    pub image_pan_shortcut: Option<MouseShortcut>,
    pub window_move_shortcut: Option<MouseShortcut>,
}

impl View for ConfigValues {
    type V = ConfigValuesView;

    open spec fn view(&self) -> ConfigValuesView {
        ConfigValuesView {
            window_x: self.window_x,
            window_y: self.window_y,
            window_width: self.window_width,
            window_height: self.window_height,
            ui_language: self.ui_language,
            default_view_mode: self.default_view_mode,
            scaling_quality: self.scaling_quality,
            recent_folder: opt_text(self.recent_folder),
            export_default_quality: opt_int(self.export_default_quality),
            animation_autoplay: self.animation_autoplay,
            min_zoom_scale: opt_text(self.min_zoom_scale),
            max_zoom_scale: opt_text(self.max_zoom_scale),
            zoom_step_factor: opt_text(self.zoom_step_factor),
            large_image_pixel_threshold: opt_int(self.large_image_pixel_threshold),
            max_image_pixels: opt_int(self.max_image_pixels),
            preview_max_pixels: opt_int(self.preview_max_pixels),
            preview_oversample: opt_int(self.preview_oversample),
            fallback_viewport_width: opt_int(self.fallback_viewport_width),
            fallback_viewport_height: opt_int(self.fallback_viewport_height),
            max_transient_decode_mib: opt_int(self.max_transient_decode_mib),
            max_full_resolution_mib: opt_int(self.max_full_resolution_mib),
            max_resident_mib: opt_int(self.max_resident_mib),
            max_cache_entry_mib: opt_int(self.max_cache_entry_mib),
            max_cache_entries: opt_int(self.max_cache_entries),
            max_animation_metadata_frames: opt_int(self.max_animation_metadata_frames),
            full_resolution_request_scale: opt_text(self.full_resolution_request_scale),
            default_frame_delay_ms: opt_int(self.default_frame_delay_ms),
            min_frame_delay_ms: opt_int(self.min_frame_delay_ms),
            max_frame_delay_ms: opt_int(self.max_frame_delay_ms),
            wrap_navigation: self.wrap_navigation,
            auto_skip_failed_navigation: self.auto_skip_failed_navigation,
            max_navigation_attempts_per_command: opt_int(self.max_navigation_attempts_per_command),
            default_export_format_policy: self.default_export_format_policy,
            export_filename_suffix: opt_text(self.export_filename_suffix),
            jpeg_alpha_background_rgb: opt_rgb(self.jpeg_alpha_background_rgb),
            show_status_bar: self.show_status_bar,
            detailed_status_text: self.detailed_status_text,
            zoom_shortcut: self.zoom_shortcut,
            image_navigation_shortcut: self.image_navigation_shortcut,
            image_pan_shortcut: self.image_pan_shortcut,
            window_move_shortcut: self.window_move_shortcut,
        }
    }
}

/// The values of a file with these entries.
pub open spec fn values_of(entries: Seq<EntryView>) -> ConfigValuesView {
    ConfigValuesView {
        window_x: i32_field(last_value(entries, "window.x"@)),
        window_y: i32_field(last_value(entries, "window.y"@)),
        window_width: i32_field(last_value(entries, "window.width"@)),
        window_height: i32_field(last_value(entries, "window.height"@)),
        ui_language: ui_language_field(last_value(entries, "ui_language"@)),
        default_view_mode: view_mode_field(last_value(entries, "default_view_mode"@)),
        scaling_quality: scaling_quality_field(last_value(entries, "scaling_quality"@)),
        recent_folder: text_field(last_value(entries, "recent_folder"@)),
        export_default_quality: integer_field(last_value(entries, "export_default_quality"@)),
        animation_autoplay: bool_field(last_value(entries, "animation_autoplay"@)),
        min_zoom_scale: raw_field(last_value(entries, "min_zoom_scale"@)),
        max_zoom_scale: raw_field(last_value(entries, "max_zoom_scale"@)),
        zoom_step_factor: raw_field(last_value(entries, "zoom_step_factor"@)),
        large_image_pixel_threshold: integer_field(last_value(entries, "large_image_pixel_threshold"@)),
        max_image_pixels: integer_field(last_value(entries, "max_image_pixels"@)),
        preview_max_pixels: integer_field(last_value(entries, "preview_max_pixels"@)),
        preview_oversample: integer_field(last_value(entries, "preview_oversample"@)),
        fallback_viewport_width: integer_field(last_value(entries, "fallback_viewport_width"@)),
        fallback_viewport_height: integer_field(last_value(entries, "fallback_viewport_height"@)),
        max_transient_decode_mib: integer_field(last_value(entries, "max_transient_decode_mib"@)),
        max_full_resolution_mib: integer_field(last_value(entries, "max_full_resolution_mib"@)),
        max_resident_mib: integer_field(last_value(entries, "max_resident_mib"@)),
        max_cache_entry_mib: integer_field(last_value(entries, "max_cache_entry_mib"@)),
        max_cache_entries: integer_field(last_value(entries, "max_cache_entries"@)),
        max_animation_metadata_frames: integer_field(last_value(entries, "max_animation_metadata_frames"@)),
        full_resolution_request_scale: raw_field(last_value(entries, "full_resolution_request_scale"@)),
        default_frame_delay_ms: integer_field(last_value(entries, "default_frame_delay_ms"@)),
        min_frame_delay_ms: integer_field(last_value(entries, "min_frame_delay_ms"@)),
        max_frame_delay_ms: integer_field(last_value(entries, "max_frame_delay_ms"@)),
        wrap_navigation: bool_field(last_value(entries, "wrap_navigation"@)),
        auto_skip_failed_navigation: bool_field(last_value(entries, "auto_skip_failed_navigation"@)),
        max_navigation_attempts_per_command: integer_field(last_value(entries, "max_navigation_attempts_per_command"@)),
        default_export_format_policy: export_policy_field(last_value(entries, "default_export_format_policy"@)),
        export_filename_suffix: suffix_field(last_value(entries, "export_filename_suffix"@)),
        jpeg_alpha_background_rgb: rgb_field(last_value(entries, "jpeg_alpha_background_rgb"@)),
        show_status_bar: bool_field(last_value(entries, "show_status_bar"@)),
        detailed_status_text: bool_field(last_value(entries, "detailed_status_text"@)),
        zoom_shortcut: shortcut_field(last_value(entries, "zoom_shortcut"@)),
        image_navigation_shortcut: shortcut_field(last_value(entries, "image_navigation_shortcut"@)),
        image_pan_shortcut: shortcut_field(last_value(entries, "image_pan_shortcut"@)),
        window_move_shortcut: shortcut_field(last_value(entries, "window_move_shortcut"@)),
    }
}

fn config_values_of(entries: &Vec<ConfigEntry>) -> (values: ConfigValues)
    ensures
        values@ == values_of(entry_views(entries@)),
{
    ConfigValues {
        window_x: read_i32_field(last_value_of(entries, "window.x")),
        window_y: read_i32_field(last_value_of(entries, "window.y")),
        window_width: read_i32_field(last_value_of(entries, "window.width")),
        window_height: read_i32_field(last_value_of(entries, "window.height")),
        ui_language: read_ui_language_field(last_value_of(entries, "ui_language")),
        default_view_mode: read_view_mode_field(last_value_of(entries, "default_view_mode")),
        scaling_quality: read_scaling_quality_field(last_value_of(entries, "scaling_quality")),
        recent_folder: read_text_field(last_value_of(entries, "recent_folder")),
        export_default_quality: read_integer_field(last_value_of(entries, "export_default_quality")),
        animation_autoplay: read_bool_field(last_value_of(entries, "animation_autoplay")),
        min_zoom_scale: read_raw_field(last_value_of(entries, "min_zoom_scale")),
        max_zoom_scale: read_raw_field(last_value_of(entries, "max_zoom_scale")),
        zoom_step_factor: read_raw_field(last_value_of(entries, "zoom_step_factor")),
        large_image_pixel_threshold: read_integer_field(last_value_of(entries, "large_image_pixel_threshold")),
        max_image_pixels: read_integer_field(last_value_of(entries, "max_image_pixels")),
        preview_max_pixels: read_integer_field(last_value_of(entries, "preview_max_pixels")),
        preview_oversample: read_integer_field(last_value_of(entries, "preview_oversample")),
        fallback_viewport_width: read_integer_field(last_value_of(entries, "fallback_viewport_width")),
        fallback_viewport_height: read_integer_field(last_value_of(entries, "fallback_viewport_height")),
        max_transient_decode_mib: read_integer_field(last_value_of(entries, "max_transient_decode_mib")),
        max_full_resolution_mib: read_integer_field(last_value_of(entries, "max_full_resolution_mib")),
        max_resident_mib: read_integer_field(last_value_of(entries, "max_resident_mib")),
        max_cache_entry_mib: read_integer_field(last_value_of(entries, "max_cache_entry_mib")),
        max_cache_entries: read_integer_field(last_value_of(entries, "max_cache_entries")),
        max_animation_metadata_frames: read_integer_field(last_value_of(entries, "max_animation_metadata_frames")),
        full_resolution_request_scale: read_raw_field(last_value_of(entries, "full_resolution_request_scale")),
        default_frame_delay_ms: read_integer_field(last_value_of(entries, "default_frame_delay_ms")),
        min_frame_delay_ms: read_integer_field(last_value_of(entries, "min_frame_delay_ms")),
        max_frame_delay_ms: read_integer_field(last_value_of(entries, "max_frame_delay_ms")),
        wrap_navigation: read_bool_field(last_value_of(entries, "wrap_navigation")),
        auto_skip_failed_navigation: read_bool_field(last_value_of(entries, "auto_skip_failed_navigation")),
        max_navigation_attempts_per_command: read_integer_field(last_value_of(entries, "max_navigation_attempts_per_command")),
        default_export_format_policy: read_export_policy_field(last_value_of(entries, "default_export_format_policy")),
        export_filename_suffix: read_suffix_field(last_value_of(entries, "export_filename_suffix")),
        jpeg_alpha_background_rgb: read_rgb_field(last_value_of(entries, "jpeg_alpha_background_rgb")),
        show_status_bar: read_bool_field(last_value_of(entries, "show_status_bar")),
        detailed_status_text: read_bool_field(last_value_of(entries, "detailed_status_text")),
        zoom_shortcut: read_shortcut_field(last_value_of(entries, "zoom_shortcut")),
        image_navigation_shortcut: read_shortcut_field(last_value_of(entries, "image_navigation_shortcut")),
        image_pan_shortcut: read_shortcut_field(last_value_of(entries, "image_pan_shortcut")),
        window_move_shortcut: read_shortcut_field(last_value_of(entries, "window_move_shortcut")),
    }
}

/// What a settings file says: none when it holds no entries at all, its
/// values otherwise, or the error of its first line that has one.
pub fn parse_config_values(contents: &str) -> (result: Result<Option<ConfigValues>, AppConfigParseError>)
    ensures
        match config_entries(pieces(contents@, '\n')) {
            Ok(entries) => if entries.len() == 0 {
                result == Ok::<Option<ConfigValues>, AppConfigParseError>(None)
            } else {
                result matches Ok(Some(values)) && values@ == values_of(entries)
            },
            Err(e) => result == Err::<Option<ConfigValues>, AppConfigParseError>(e),
        },
{
    match parse_config_entries(contents) {
        Ok(entries) => if entries.len() == 0 {
            Ok(None)
        } else {
            Ok(Some(config_values_of(&entries)))
        },
        Err(e) => Err(e),
    }
}

/// A stored number limited to `low ..= high`, or `default` when none is stored.
pub open spec fn stored_or(value: Option<i128>, low: int, high: int, default: int) -> int {
    match value {
        Some(v) => clamp_to(v as int, low, high),
        None => default,
    }
}

/// The default of an optional setting.
pub open spec fn or_default<T>(value: Option<T>, default: T) -> T {
    match value {
        Some(v) => v,
        None => default,
    }
}

impl ConfigValues {
    /// The window position and size when all four are stored and valid.
    pub fn window_bounds(&self) -> (bounds: Option<WindowBounds>)
        ensures
            match (self.window_x, self.window_y, self.window_width, self.window_height) {
                (Some(x), Some(y), Some(w), Some(h)) => if valid_window_bounds(x, y, w, h) {
                    bounds matches Some(b) && b.x() == x && b.y() == y && b.width() == w && b.height() == h
                } else {
                    bounds is None
                },
                _ => bounds is None,
            },
    {
        match (self.window_x, self.window_y, self.window_width, self.window_height) {
            (Some(x), Some(y), Some(width), Some(height)) => WindowBounds::new(x, y, width, height),
            _ => None,
        }
    }

    /// The language; English by default.
    pub fn ui_language(&self) -> (language: UiLanguage)
        ensures
            language == or_default(self.ui_language, UiLanguage::English),
    {
        match self.ui_language {
            Some(language) => language,
            None => UiLanguage::English,
        }
    }

    /// The view mode new images start in; fit to window by default.
    pub fn default_view_mode(&self) -> (view_mode: ViewMode)
        ensures
            view_mode == default_view_mode_for(or_default(self.default_view_mode, ViewMode::FitToWindow)),
    {
        let view_mode = match self.default_view_mode {
            Some(view_mode) => view_mode,
            None => ViewMode::FitToWindow,
        };
        default_config_view_mode(view_mode)
    }

    /// The scaling quality; balanced by default.
    pub fn scaling_quality(&self) -> (quality: ScalingQuality)
        ensures
            quality == or_default(self.scaling_quality, ScalingQuality::Balanced),
    {
        match self.scaling_quality {
            Some(quality) => quality,
            None => ScalingQuality::Balanced,
        }
    }

    /// The JPEG quality exports start with, limited to 1 ..= 100; 90 by default.
    pub fn export_default_quality(&self) -> (quality: u8)
        ensures
            quality == (match self.export_default_quality {
                Some(q) => clamp_to(q as int, MIN_EXPORT_QUALITY as int, MAX_EXPORT_QUALITY as int),
                None => DEFAULT_EXPORT_QUALITY as int,
            }),
    {
        sanitize_optional_config_u8(self.export_default_quality, MIN_EXPORT_QUALITY, MAX_EXPORT_QUALITY, DEFAULT_EXPORT_QUALITY)
    }

    /// Whether animations play when opened; yes by default.
    pub fn animation_autoplay(&self) -> (autoplay: bool)
        ensures
            autoplay == or_default(self.animation_autoplay, true),
    {
        match self.animation_autoplay {
            Some(autoplay) => autoplay,
            None => true,
        }
    }

    /// The animation timing: each delay limited to 1 ms ..= 600 s (the
    /// defaults when not stored), then brought into order.
    pub fn animation_timing(&self) -> (timing: AnimationTimingSettings)
        ensures
            timing.limits() == timing_relationships(
                match self.default_frame_delay_ms {
                    Some(v) => clamp_to(v as int, 1, 600_000),
                    None => DEFAULT_ANIMATION_FRAME_DELAY_MS as int,
                },
                match self.min_frame_delay_ms {
                    Some(v) => clamp_to(v as int, 1, 600_000),
                    None => MIN_ANIMATION_FRAME_DELAY_MS as int,
                },
                match self.max_frame_delay_ms {
                    Some(v) => clamp_to(v as int, 1, 600_000),
                    None => MAX_ANIMATION_FRAME_DELAY_MS as int,
                },
            ),
    {
        let default_ms = sanitize_optional_config_u32(
            self.default_frame_delay_ms,
            MIN_CONFIG_ANIMATION_DELAY_MS,
            MAX_CONFIG_ANIMATION_DELAY_MS,
            DEFAULT_ANIMATION_FRAME_DELAY_MS,
        );
        let min_ms = sanitize_optional_config_u32(
            self.min_frame_delay_ms,
            MIN_CONFIG_ANIMATION_DELAY_MS,
            MAX_CONFIG_ANIMATION_DELAY_MS,
            MIN_ANIMATION_FRAME_DELAY_MS,
        );
        let max_ms = sanitize_optional_config_u32(
            self.max_frame_delay_ms,
            MIN_CONFIG_ANIMATION_DELAY_MS,
            MAX_CONFIG_ANIMATION_DELAY_MS,
            MAX_ANIMATION_FRAME_DELAY_MS,
        );
        AnimationTimingSettings::from_values(default_ms, min_ms, max_ms)
    }

    /// The memory limits: each stored value limited to its range (its
    /// default when none is stored), then the dependent limits lowered to the
    /// ones they depend on.
    pub fn memory_policy(&self) -> (settings: MemoryPolicySettings)
        ensures
            settings@ == limits_from_values(
                stored_or(self.large_image_pixel_threshold, 1, 1_000_000_000, DEFAULT_LARGE_IMAGE_PIXEL_THRESHOLD as int),
                stored_or(self.max_image_pixels, 1, 1_000_000_000, DEFAULT_MAX_IMAGE_PIXELS as int),
                stored_or(self.preview_max_pixels, 1, 1_000_000_000, DEFAULT_PREVIEW_MAX_PIXELS as int),
                stored_or(self.preview_oversample, 1, 8, DEFAULT_PREVIEW_OVERSAMPLE as int),
                stored_or(self.fallback_viewport_width, 1, 16_384, DEFAULT_FALLBACK_VIEWPORT_WIDTH as int),
                stored_or(self.fallback_viewport_height, 1, 16_384, DEFAULT_FALLBACK_VIEWPORT_HEIGHT as int),
                stored_or(self.max_transient_decode_mib, 1, 4096, DEFAULT_MAX_TRANSIENT_DECODE_MIB as int),
                stored_or(self.max_full_resolution_mib, 1, 4096, DEFAULT_MAX_FULL_RESOLUTION_MIB as int),
                stored_or(self.max_resident_mib, 1, 4096, DEFAULT_MAX_RESIDENT_MIB as int),
                stored_or(self.max_cache_entry_mib, 1, 4096, DEFAULT_MAX_CACHE_ENTRY_MIB as int),
                stored_or(self.max_cache_entries, 0, 64, DEFAULT_MAX_CACHE_ENTRIES as int),
                stored_or(self.max_animation_metadata_frames, 1, 1_000_000, DEFAULT_MAX_ANIMATION_METADATA_FRAMES as int),
            ),
    {
        MemoryPolicySettings::from_values(
            sanitize_optional_config_u64(
                self.large_image_pixel_threshold,
                MIN_CONFIG_PIXEL_LIMIT,
                MAX_CONFIG_IMAGE_PIXELS,
                DEFAULT_LARGE_IMAGE_PIXEL_THRESHOLD,
            ),
            sanitize_optional_config_u64(self.max_image_pixels, MIN_CONFIG_PIXEL_LIMIT, MAX_CONFIG_IMAGE_PIXELS, DEFAULT_MAX_IMAGE_PIXELS),
            sanitize_optional_config_u64(
                self.preview_max_pixels,
                MIN_CONFIG_PIXEL_LIMIT,
                MAX_CONFIG_IMAGE_PIXELS,
                DEFAULT_PREVIEW_MAX_PIXELS,
            ),
            sanitize_optional_config_u32(
                self.preview_oversample,
                MIN_CONFIG_PREVIEW_OVERSAMPLE,
                MAX_CONFIG_PREVIEW_OVERSAMPLE,
                DEFAULT_PREVIEW_OVERSAMPLE,
            ),
            sanitize_optional_config_u32(
                self.fallback_viewport_width,
                MIN_CONFIG_VIEWPORT_EDGE,
                MAX_CONFIG_VIEWPORT_EDGE,
                DEFAULT_FALLBACK_VIEWPORT_WIDTH,
            ),
            sanitize_optional_config_u32(
                self.fallback_viewport_height,
                MIN_CONFIG_VIEWPORT_EDGE,
                MAX_CONFIG_VIEWPORT_EDGE,
                DEFAULT_FALLBACK_VIEWPORT_HEIGHT,
            ),
            sanitize_optional_config_u32(
                self.max_transient_decode_mib,
                MIN_CONFIG_MEMORY_MIB,
                MAX_CONFIG_MEMORY_MIB,
                DEFAULT_MAX_TRANSIENT_DECODE_MIB,
            ),
            sanitize_optional_config_u32(
                self.max_full_resolution_mib,
                MIN_CONFIG_MEMORY_MIB,
                MAX_CONFIG_MEMORY_MIB,
                DEFAULT_MAX_FULL_RESOLUTION_MIB,
            ),
            sanitize_optional_config_u32(self.max_resident_mib, MIN_CONFIG_MEMORY_MIB, MAX_CONFIG_MEMORY_MIB, DEFAULT_MAX_RESIDENT_MIB),
            sanitize_optional_config_u32(
                self.max_cache_entry_mib,
                MIN_CONFIG_MEMORY_MIB,
                MAX_CONFIG_MEMORY_MIB,
                DEFAULT_MAX_CACHE_ENTRY_MIB,
            ),
            sanitize_optional_config_usize(
                self.max_cache_entries,
                MIN_CONFIG_CACHE_ENTRIES,
                MAX_CONFIG_CACHE_ENTRIES,
                DEFAULT_MAX_CACHE_ENTRIES,
            ),
            sanitize_optional_config_usize(
                self.max_animation_metadata_frames,
                MIN_CONFIG_ANIMATION_METADATA_FRAMES,
                MAX_CONFIG_ANIMATION_METADATA_FRAMES,
                DEFAULT_MAX_ANIMATION_METADATA_FRAMES,
            ),
        )
    }

    /// The navigation settings: wrapping on and skipping off by default, the
    /// attempt count limited to 1 ..= 100 (1 by default).
    pub fn navigation(&self) -> (settings: NavigationSettings)
        ensures
            settings.wrap_navigation() == or_default(self.wrap_navigation, true),
            settings.auto_skip_failed_navigation() == or_default(self.auto_skip_failed_navigation, false),
            settings.max_navigation_attempts_per_command() == (match self.max_navigation_attempts_per_command {
                Some(v) => clamp_to(v as int, 1, 100),
                None => 1,
            }),
    {
        let wrap = match self.wrap_navigation {
            Some(wrap) => wrap,
            None => true,
        };
        let skip = match self.auto_skip_failed_navigation {
            Some(skip) => skip,
            None => false,
        };
        let attempts = sanitize_optional_config_usize(self.max_navigation_attempts_per_command, 1, 100, 1);
        NavigationSettings::from_values(wrap, skip, attempts)
    }

    /// The export settings: PNG, `-export` and white by default; the suffix is sanitized.
    pub fn export_settings(&self) -> (settings: ExportSettings)
        ensures
            settings.policy() == or_default(self.default_export_format_policy, DefaultExportFormatPolicy::Png),
            settings.suffix() == sanitized_suffix(or_default(opt_text(self.export_filename_suffix), default_suffix())),
            match self.jpeg_alpha_background_rgb {
                Some(c) => settings.background() == c,
                None => settings.background().red() == 255 && settings.background().green() == 255
                    && settings.background().blue() == 255,
            },
    {
        let policy = match self.default_export_format_policy {
            Some(policy) => policy,
            None => DefaultExportFormatPolicy::Png,
        };
        let color = match self.jpeg_alpha_background_rgb {
            Some(color) => color,
            None => RgbColor::white(),
        };
        match &self.export_filename_suffix {
            Some(suffix) => ExportSettings::new(policy, suffix.as_str(), color),
            None => {
                proof {
                    reveal_strlit("-export");
                }
                ExportSettings::new(policy, "-export", color)
            },
        }
    }

    /// The status bar settings: both on by default.
    pub fn status_ui(&self) -> (settings: StatusUiSettings)
        ensures
            settings.show_status_bar() == or_default(self.show_status_bar, true),
            settings.detailed_status_text() == or_default(self.detailed_status_text, true),
    {
        let show = match self.show_status_bar {
            Some(show) => show,
            None => true,
        };
        let detailed = match self.detailed_status_text {
            Some(detailed) => detailed,
            None => true,
        };
        StatusUiSettings::from_values(show, detailed)
    }

    /// The mouse shortcuts; each one's default when not stored.
    pub fn interaction(&self) -> (settings: InteractionSettings)
        ensures
            settings.zoom_shortcut() == or_default(self.zoom_shortcut, MouseShortcut::CtrlMouseWheel),
            settings.image_navigation_shortcut() == or_default(self.image_navigation_shortcut, MouseShortcut::MouseWheel),
            settings.image_pan_shortcut() == or_default(self.image_pan_shortcut, MouseShortcut::CtrlLeftButtonDrag),
            settings.window_move_shortcut() == or_default(self.window_move_shortcut, MouseShortcut::LeftButtonDrag),
    {
        let mut settings = InteractionSettings::defaults();
        if let Some(shortcut) = self.zoom_shortcut {
            settings.set_zoom_shortcut(shortcut);
        }
        if let Some(shortcut) = self.image_navigation_shortcut {
            settings.set_image_navigation_shortcut(shortcut);
        }
        if let Some(shortcut) = self.image_pan_shortcut {
            settings.set_image_pan_shortcut(shortcut);
        }
        if let Some(shortcut) = self.window_move_shortcut {
            settings.set_window_move_shortcut(shortcut);
        }
        settings
    }
}

} // verus!

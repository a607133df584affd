//! User settings that are plain integers, flags and choices.
use vstd::prelude::*;

verus! {

pub const DEFAULT_ANIMATION_FRAME_DELAY_MS: u32 = 100;

pub const MIN_ANIMATION_FRAME_DELAY_MS: u32 = 10;

pub const MAX_ANIMATION_FRAME_DELAY_MS: u32 = 60_000;

pub const MIN_CONFIG_ANIMATION_DELAY_MS: u32 = 1;

pub const MAX_CONFIG_ANIMATION_DELAY_MS: u32 = 600_000;

pub const MIN_NAVIGATION_ATTEMPTS: usize = 1;

pub const MAX_NAVIGATION_ATTEMPTS: usize = 100;

/// `value` limited to `low..=high` (for `low <= high`).
pub open spec fn clamp_int(value: int, low: int, high: int) -> int {
    if value < low {
        low
    } else if value > high {
        high
    } else {
        value
    }
}

pub(crate) fn clamp_u32(value: u32, low: u32, high: u32) -> (clamped: u32)
    requires
        low <= high,
    ensures
        clamped == clamp_int(value as int, low as int, high as int),
{
    if value < low {
        low
    } else if value > high {
        high
    } else {
        value
    }
}

pub(crate) fn clamp_usize(value: usize, low: usize, high: usize) -> (clamped: usize)
    requires
        low <= high,
    ensures
        clamped == clamp_int(value as int, low as int, high as int),
{
    if value < low {
        low
    } else if value > high {
        high
    } else {
        value
    }
}

#[derive(Debug, Clone, Copy, PartialEq, Eq, Structural, Hash)]
pub enum UiLanguage {
    English,
    Korean,
}

impl Default for UiLanguage {
    fn default() -> (language: Self)
        ensures
            language == UiLanguage::English,
    {
        UiLanguage::English
    }
}

/// What the viewer does when the image it navigates to cannot be opened.
#[derive(Debug, Clone, Copy, PartialEq, Eq, Structural)]
pub enum NavigationFailurePolicy {
    KeepCurrentAndReport,
}

impl NavigationFailurePolicy {
    pub fn auto_skips_failed_files(self) -> (skips: bool)
        ensures
            !skips,
    {
        match self {
            NavigationFailurePolicy::KeepCurrentAndReport => false,
        }
    }

    pub fn max_attempts_per_command(self) -> (attempts: usize)
        ensures
            attempts == 1,
    {
        match self {
            NavigationFailurePolicy::KeepCurrentAndReport => 1,
        }
    }
}

pub const NAVIGATION_FAILURE_POLICY: NavigationFailurePolicy =
    NavigationFailurePolicy::KeepCurrentAndReport;

pub fn navigation_failure_policy() -> (policy: NavigationFailurePolicy)
    ensures
        policy == NavigationFailurePolicy::KeepCurrentAndReport,
{
    NAVIGATION_FAILURE_POLICY
}

/// Frame delay limits for animations. The minimum never exceeds the default,
/// and the default never exceeds the maximum.
#[derive(Debug, Clone, Copy, PartialEq, Eq, Structural)]
pub struct AnimationTimingSettings {
    default_frame_delay_ms: u32,
    min_frame_delay_ms: u32,
    max_frame_delay_ms: u32,
}

/// The delay limits after a change: the maximum is raised to the minimum when
/// it fell below it, and the default is moved into the range.
pub open spec fn timing_relationships(default_ms: int, min_ms: int, max_ms: int) -> (int, int, int) {
    let max_ms = if min_ms > max_ms {
        min_ms
    } else {
        max_ms
    };
    (clamp_int(default_ms, min_ms, max_ms), min_ms, max_ms)
}

impl AnimationTimingSettings {
    #[verifier::type_invariant]
    closed spec fn wf(self) -> bool {
        &&& MIN_CONFIG_ANIMATION_DELAY_MS <= self.min_frame_delay_ms
        &&& self.min_frame_delay_ms <= self.default_frame_delay_ms
        &&& self.default_frame_delay_ms <= self.max_frame_delay_ms
        &&& self.max_frame_delay_ms <= MAX_CONFIG_ANIMATION_DELAY_MS
    }

    pub closed spec fn spec_default_frame_delay_ms(self) -> u32 {
        self.default_frame_delay_ms
    }

    pub closed spec fn spec_min_frame_delay_ms(self) -> u32 {
        self.min_frame_delay_ms
    }

    pub closed spec fn spec_max_frame_delay_ms(self) -> u32 {
        self.max_frame_delay_ms
    }

    pub proof fn lemma_eq(a: Self, b: Self)
        ensures
            (a == b) <==> (a.default_frame_delay_ms() == b.default_frame_delay_ms()
                && a.min_frame_delay_ms() == b.min_frame_delay_ms() && a.max_frame_delay_ms()
                == b.max_frame_delay_ms()),
    {
    }

    /// The limits of the settings, as a triple.
    pub open spec fn limits(self) -> (int, int, int) {
        (
            self.default_frame_delay_ms() as int,
            self.min_frame_delay_ms() as int,
            self.max_frame_delay_ms() as int,
        )
    }

    /// The settings that `defaults` returns.
    pub closed spec fn spec_defaults() -> Self {
        Self {
            default_frame_delay_ms: DEFAULT_ANIMATION_FRAME_DELAY_MS,
            min_frame_delay_ms: MIN_ANIMATION_FRAME_DELAY_MS,
            max_frame_delay_ms: MAX_ANIMATION_FRAME_DELAY_MS,
        }
    }

    pub proof fn lemma_spec_defaults()
        ensures
            Self::spec_defaults().default_frame_delay_ms() == DEFAULT_ANIMATION_FRAME_DELAY_MS,
            Self::spec_defaults().min_frame_delay_ms() == MIN_ANIMATION_FRAME_DELAY_MS,
            Self::spec_defaults().max_frame_delay_ms() == MAX_ANIMATION_FRAME_DELAY_MS,
    {
    }

    /// Default 100 ms, minimum 10 ms, maximum 60 s.
    pub fn defaults() -> (settings: Self)
        ensures
            settings == Self::spec_defaults(),
            settings.default_frame_delay_ms() == DEFAULT_ANIMATION_FRAME_DELAY_MS,
            settings.min_frame_delay_ms() == MIN_ANIMATION_FRAME_DELAY_MS,
            settings.max_frame_delay_ms() == MAX_ANIMATION_FRAME_DELAY_MS,
    {
        Self {
            default_frame_delay_ms: DEFAULT_ANIMATION_FRAME_DELAY_MS,
            min_frame_delay_ms: MIN_ANIMATION_FRAME_DELAY_MS,
            max_frame_delay_ms: MAX_ANIMATION_FRAME_DELAY_MS,
        }
    }

    /// Settings from three stored values, each limited to the configurable range
    /// and then brought into order.
    pub fn from_values(default_ms: u32, min_ms: u32, max_ms: u32) -> (settings: Self)
        ensures
            settings.limits() == timing_relationships(
                clamp_int(default_ms as int, 1, 600_000),
                clamp_int(min_ms as int, 1, 600_000),
                clamp_int(max_ms as int, 1, 600_000),
            ),
    {
        let default_ms = clamp_u32(default_ms, MIN_CONFIG_ANIMATION_DELAY_MS, MAX_CONFIG_ANIMATION_DELAY_MS);
        let min_ms = clamp_u32(min_ms, MIN_CONFIG_ANIMATION_DELAY_MS, MAX_CONFIG_ANIMATION_DELAY_MS);
        let max_ms = clamp_u32(max_ms, MIN_CONFIG_ANIMATION_DELAY_MS, MAX_CONFIG_ANIMATION_DELAY_MS);
        let (default_ms, min_ms, max_ms) = Self::normalized(default_ms, min_ms, max_ms);
        Self { default_frame_delay_ms: default_ms, min_frame_delay_ms: min_ms, max_frame_delay_ms: max_ms }
    }

    #[verifier::when_used_as_spec(spec_default_frame_delay_ms)]
    pub fn default_frame_delay_ms(self) -> (delay: u32)
        ensures
            delay == self.default_frame_delay_ms(),
            self.min_frame_delay_ms() <= delay <= self.max_frame_delay_ms(),
    {
        proof {
            use_type_invariant(&self);
        }
        self.default_frame_delay_ms
    }

    #[verifier::when_used_as_spec(spec_min_frame_delay_ms)]
    pub fn min_frame_delay_ms(self) -> (delay: u32)
        ensures
            delay == self.min_frame_delay_ms(),
            MIN_CONFIG_ANIMATION_DELAY_MS <= delay <= self.max_frame_delay_ms(),
            delay <= MAX_CONFIG_ANIMATION_DELAY_MS,
    {
        proof {
            use_type_invariant(&self);
        }
        self.min_frame_delay_ms
    }

    #[verifier::when_used_as_spec(spec_max_frame_delay_ms)]
    pub fn max_frame_delay_ms(self) -> (delay: u32)
        ensures
            delay == self.max_frame_delay_ms(),
            delay <= MAX_CONFIG_ANIMATION_DELAY_MS,
    {
        proof {
            use_type_invariant(&self);
        }
        self.max_frame_delay_ms
    }

    fn normalized(default_ms: u32, min_ms: u32, max_ms: u32) -> (limits: (u32, u32, u32))
        requires
            MIN_CONFIG_ANIMATION_DELAY_MS <= min_ms <= MAX_CONFIG_ANIMATION_DELAY_MS,
            max_ms <= MAX_CONFIG_ANIMATION_DELAY_MS,
        ensures
            (limits.0 as int, limits.1 as int, limits.2 as int) == timing_relationships(
                default_ms as int,
                min_ms as int,
                max_ms as int,
            ),
            MIN_CONFIG_ANIMATION_DELAY_MS <= limits.1 <= limits.0 <= limits.2 <= MAX_CONFIG_ANIMATION_DELAY_MS,
    {
        let max_ms = if min_ms > max_ms {
            min_ms
        } else {
            max_ms
        };
        (clamp_u32(default_ms, min_ms, max_ms), min_ms, max_ms)
    }

    /// Sets the delay for frames that declare none, limited to 1 ms ..= 600 s
    /// and then to the current minimum and maximum.
    pub fn set_default_frame_delay_ms(&mut self, delay_ms: u32)
        ensures
            final(self).limits() == timing_relationships(
                clamp_int(delay_ms as int, 1, 600_000),
                old(self).min_frame_delay_ms() as int,
                old(self).max_frame_delay_ms() as int,
            ),
    {
        let min_ms = self.min_frame_delay_ms();
        let max_ms = self.max_frame_delay_ms();
        let delay = clamp_u32(delay_ms, MIN_CONFIG_ANIMATION_DELAY_MS, MAX_CONFIG_ANIMATION_DELAY_MS);
        let (default_ms, min_ms, max_ms) = Self::normalized(delay, min_ms, max_ms);
        *self = Self { default_frame_delay_ms: default_ms, min_frame_delay_ms: min_ms, max_frame_delay_ms: max_ms };
    }

    /// Sets the shortest frame delay, limited to 1 ms ..= 600 s; the maximum is
    /// raised to it when needed and the default is moved into the range.
    pub fn set_min_frame_delay_ms(&mut self, delay_ms: u32)
        ensures
            final(self).limits() == timing_relationships(
                old(self).default_frame_delay_ms() as int,
                clamp_int(delay_ms as int, 1, 600_000),
                old(self).max_frame_delay_ms() as int,
            ),
    {
        let default_ms = self.default_frame_delay_ms();
        let max_ms = self.max_frame_delay_ms();
        let delay = clamp_u32(delay_ms, MIN_CONFIG_ANIMATION_DELAY_MS, MAX_CONFIG_ANIMATION_DELAY_MS);
        let (default_ms, min_ms, max_ms) = Self::normalized(default_ms, delay, max_ms);
        *self = Self { default_frame_delay_ms: default_ms, min_frame_delay_ms: min_ms, max_frame_delay_ms: max_ms };
    }

    /// Sets the longest frame delay, limited to 1 ms ..= 600 s; it is raised to
    /// the minimum when below it and the default is moved into the range.
    pub fn set_max_frame_delay_ms(&mut self, delay_ms: u32)
        ensures
            final(self).limits() == timing_relationships(
                old(self).default_frame_delay_ms() as int,
                old(self).min_frame_delay_ms() as int,
                clamp_int(delay_ms as int, 1, 600_000),
            ),
    {
        let default_ms = self.default_frame_delay_ms();
        let min_ms = self.min_frame_delay_ms();
        let delay = clamp_u32(delay_ms, MIN_CONFIG_ANIMATION_DELAY_MS, MAX_CONFIG_ANIMATION_DELAY_MS);
        let (default_ms, min_ms, max_ms) = Self::normalized(default_ms, min_ms, delay);
        *self = Self { default_frame_delay_ms: default_ms, min_frame_delay_ms: min_ms, max_frame_delay_ms: max_ms };
    }

    /// The delay a frame is shown for: the default for a zero delay, otherwise
    /// the declared delay limited to the minimum and maximum.
    pub open spec fn spec_normalize_frame_delay_ms(self, delay_ms: u32) -> u32 {
        if delay_ms == 0 {
            self.default_frame_delay_ms()
        } else {
            clamp_int(
                delay_ms as int,
                self.min_frame_delay_ms() as int,
                self.max_frame_delay_ms() as int,
            ) as u32
        }
    }

    #[verifier::when_used_as_spec(spec_normalize_frame_delay_ms)]
    pub fn normalize_frame_delay_ms(self, delay_ms: u32) -> (delay: u32)
        ensures
            delay == self.normalize_frame_delay_ms(delay_ms),
            self.min_frame_delay_ms() <= delay <= self.max_frame_delay_ms(),
    {
        proof {
            use_type_invariant(&self);
        }
        if delay_ms == 0 {
            self.default_frame_delay_ms
        } else {
            clamp_u32(delay_ms, self.min_frame_delay_ms, self.max_frame_delay_ms)
        }
    }
}

impl Default for AnimationTimingSettings {
    fn default() -> (settings: Self)
        ensures
            settings.default_frame_delay_ms() == DEFAULT_ANIMATION_FRAME_DELAY_MS,
            settings.min_frame_delay_ms() == MIN_ANIMATION_FRAME_DELAY_MS,
            settings.max_frame_delay_ms() == MAX_ANIMATION_FRAME_DELAY_MS,
    {
        Self::defaults()
    }
}

/// Whatever limit is set, the three limits come out in order: the minimum is
/// kept as set, it never exceeds the default, and the default never exceeds the
/// maximum, which stays within the configurable range.
pub proof fn law_timing_limits_ordered(default_ms: int, min_ms: int, max_ms: int)
    requires
        1 <= min_ms <= 600_000,
        1 <= max_ms <= 600_000,
    ensures
        ({
            let limits = timing_relationships(default_ms, min_ms, max_ms);
            &&& limits.1 == min_ms
            &&& 1 <= limits.1 <= limits.0 <= limits.2 <= 600_000
            &&& (min_ms <= max_ms ==> limits.2 == max_ms)
            &&& (min_ms <= default_ms <= max_ms ==> limits.0 == default_ms)
        }),
{
}

pub fn normalize_animation_frame_delay_ms(delay_ms: u32) -> (delay: u32)
    ensures
        delay == (if delay_ms == 0 {
            DEFAULT_ANIMATION_FRAME_DELAY_MS as int
        } else {
            clamp_int(delay_ms as int, MIN_ANIMATION_FRAME_DELAY_MS as int, MAX_ANIMATION_FRAME_DELAY_MS as int)
        }),
{
    normalize_animation_frame_delay_ms_with_settings(delay_ms, AnimationTimingSettings::defaults())
}

pub fn normalize_animation_frame_delay_ms_with_settings(
    delay_ms: u32,
    timing: AnimationTimingSettings,
) -> (delay: u32)
    ensures
        delay == timing.normalize_frame_delay_ms(delay_ms),
{
    timing.normalize_frame_delay_ms(delay_ms)
}

/// How folder navigation behaves.
#[derive(Debug, Clone, Copy, PartialEq, Eq, Structural)]
pub struct NavigationSettings {
    wrap_navigation: bool,
    auto_skip_failed_navigation: bool,
    max_navigation_attempts_per_command: usize,
}

impl NavigationSettings {
    #[verifier::type_invariant]
    closed spec fn wf(self) -> bool {
        MIN_NAVIGATION_ATTEMPTS <= self.max_navigation_attempts_per_command
            <= MAX_NAVIGATION_ATTEMPTS
    }

    pub closed spec fn spec_wrap_navigation(self) -> bool {
        self.wrap_navigation
    }

    pub closed spec fn spec_auto_skip_failed_navigation(self) -> bool {
        self.auto_skip_failed_navigation
    }

    pub closed spec fn spec_max_navigation_attempts_per_command(self) -> usize {
        self.max_navigation_attempts_per_command
    }

    /// Wrap at the ends, do not skip failed files, one attempt per command.
    pub fn defaults() -> (settings: Self)
        ensures
            settings.wrap_navigation(),
            !settings.auto_skip_failed_navigation(),
            settings.max_navigation_attempts_per_command() == 1,
    {
        Self { wrap_navigation: true, auto_skip_failed_navigation: false, max_navigation_attempts_per_command: 1 }
    }

    /// Settings from stored values; the attempt count is limited to 1 ..= 100.
    pub fn from_values(wrap_navigation: bool, auto_skip_failed_navigation: bool, max_attempts: usize) -> (settings: Self)
        ensures
            settings.wrap_navigation() == wrap_navigation,
            settings.auto_skip_failed_navigation() == auto_skip_failed_navigation,
            settings.max_navigation_attempts_per_command() == clamp_int(max_attempts as int, 1, 100),
    {
        Self {
            wrap_navigation,
            auto_skip_failed_navigation,
            max_navigation_attempts_per_command: clamp_usize(max_attempts, MIN_NAVIGATION_ATTEMPTS, MAX_NAVIGATION_ATTEMPTS),
        }
    }

    #[verifier::when_used_as_spec(spec_wrap_navigation)]
    pub fn wrap_navigation(self) -> (wrap: bool)
        ensures
            wrap == self.wrap_navigation(),
    {
        self.wrap_navigation
    }

    pub fn set_wrap_navigation(&mut self, wrap_navigation: bool)
        ensures
            final(self).wrap_navigation() == wrap_navigation,
            final(self).auto_skip_failed_navigation() == old(self).auto_skip_failed_navigation(),
            final(self).max_navigation_attempts_per_command() == old(self).max_navigation_attempts_per_command(),
    {
        let attempts = self.max_navigation_attempts_per_command();
        *self = Self { wrap_navigation, auto_skip_failed_navigation: self.auto_skip_failed_navigation, max_navigation_attempts_per_command: attempts };
    }

    #[verifier::when_used_as_spec(spec_auto_skip_failed_navigation)]
    pub fn auto_skip_failed_navigation(self) -> (skip: bool)
        ensures
            skip == self.auto_skip_failed_navigation(),
    {
        self.auto_skip_failed_navigation
    }

    pub fn set_auto_skip_failed_navigation(&mut self, auto_skip_failed_navigation: bool)
        ensures
            final(self).wrap_navigation() == old(self).wrap_navigation(),
            final(self).auto_skip_failed_navigation() == auto_skip_failed_navigation,
            final(self).max_navigation_attempts_per_command() == old(self).max_navigation_attempts_per_command(),
    {
        let attempts = self.max_navigation_attempts_per_command();
        *self = Self { wrap_navigation: self.wrap_navigation, auto_skip_failed_navigation, max_navigation_attempts_per_command: attempts };
    }

    #[verifier::when_used_as_spec(spec_max_navigation_attempts_per_command)]
    pub fn max_navigation_attempts_per_command(self) -> (attempts: usize)
        ensures
            attempts == self.max_navigation_attempts_per_command(),
            MIN_NAVIGATION_ATTEMPTS <= attempts <= MAX_NAVIGATION_ATTEMPTS,
    {
        proof {
            use_type_invariant(&self);
        }
        self.max_navigation_attempts_per_command
    }

    /// Sets the number of files a navigation command may try, limited to 1 ..= 100.
    pub fn set_max_navigation_attempts_per_command(&mut self, max_attempts: usize)
        ensures
            final(self).wrap_navigation() == old(self).wrap_navigation(),
            final(self).auto_skip_failed_navigation() == old(self).auto_skip_failed_navigation(),
            final(self).max_navigation_attempts_per_command() == clamp_int(max_attempts as int, 1, 100),
    {
        let attempts = clamp_usize(max_attempts, MIN_NAVIGATION_ATTEMPTS, MAX_NAVIGATION_ATTEMPTS);
        *self = Self { wrap_navigation: self.wrap_navigation, auto_skip_failed_navigation: self.auto_skip_failed_navigation, max_navigation_attempts_per_command: attempts };
    }
}

impl Default for NavigationSettings {
    fn default() -> (settings: Self)
        ensures
            settings.wrap_navigation(),
            !settings.auto_skip_failed_navigation(),
            settings.max_navigation_attempts_per_command() == 1,
    {
        Self::defaults()
    }
}

/// Whether the status bar is shown, and how much it says.
#[derive(Debug, Clone, Copy, PartialEq, Eq, Structural)]
pub struct StatusUiSettings {
    show_status_bar: bool,
    detailed_status_text: bool,
}

impl StatusUiSettings {
    pub closed spec fn spec_show_status_bar(self) -> bool {
        self.show_status_bar
    }

    pub closed spec fn spec_detailed_status_text(self) -> bool {
        self.detailed_status_text
    }

    /// Both the status bar and its detailed text are on.
    pub fn defaults() -> (settings: Self)
        ensures
            settings.show_status_bar(),
            settings.detailed_status_text(),
    {
        Self { show_status_bar: true, detailed_status_text: true }
    }

    pub fn from_values(show_status_bar: bool, detailed_status_text: bool) -> (settings: Self)
        ensures
            settings.show_status_bar() == show_status_bar,
            settings.detailed_status_text() == detailed_status_text,
    {
        Self { show_status_bar, detailed_status_text }
    }

    #[verifier::when_used_as_spec(spec_show_status_bar)]
    pub fn show_status_bar(self) -> (show: bool)
        ensures
            show == self.show_status_bar(),
    {
        self.show_status_bar
    }

    pub fn set_show_status_bar(&mut self, show_status_bar: bool)
        ensures
            final(self).show_status_bar() == show_status_bar,
            final(self).detailed_status_text() == old(self).detailed_status_text(),
    {
        self.show_status_bar = show_status_bar;
    }

    #[verifier::when_used_as_spec(spec_detailed_status_text)]
    pub fn detailed_status_text(self) -> (detailed: bool)
        ensures
            detailed == self.detailed_status_text(),
    {
        self.detailed_status_text
    }

    pub fn set_detailed_status_text(&mut self, detailed_status_text: bool)
        ensures
            final(self).show_status_bar() == old(self).show_status_bar(),
            final(self).detailed_status_text() == detailed_status_text,
    {
        self.detailed_status_text = detailed_status_text;
    }
}

impl Default for StatusUiSettings {
    fn default() -> (settings: Self)
        ensures
            settings.show_status_bar(),
            settings.detailed_status_text(),
    {
        Self::defaults()
    }
}

#[derive(Debug, Clone, Copy, PartialEq, Eq, Structural)]
pub enum MouseShortcut {
    MouseWheel,
    CtrlMouseWheel,
    LeftButtonDrag,
    CtrlLeftButtonDrag,
}

/// Which mouse gesture triggers each mouse action.
#[derive(Debug, Clone, Copy, PartialEq, Eq, Structural)]
pub struct InteractionSettings {
    zoom_shortcut: MouseShortcut,
    image_navigation_shortcut: MouseShortcut,
    image_pan_shortcut: MouseShortcut,
    window_move_shortcut: MouseShortcut,
}

impl InteractionSettings {
    pub closed spec fn spec_zoom_shortcut(self) -> MouseShortcut {
        self.zoom_shortcut
    }

    pub closed spec fn spec_image_navigation_shortcut(self) -> MouseShortcut {
        self.image_navigation_shortcut
    }

    pub closed spec fn spec_image_pan_shortcut(self) -> MouseShortcut {
        self.image_pan_shortcut
    }

    pub closed spec fn spec_window_move_shortcut(self) -> MouseShortcut {
        self.window_move_shortcut
    }

    /// Ctrl+wheel zooms, the wheel navigates, Ctrl+drag pans and a drag moves the window.
    pub fn defaults() -> (settings: Self)
        ensures
            settings.zoom_shortcut() == MouseShortcut::CtrlMouseWheel,
            settings.image_navigation_shortcut() == MouseShortcut::MouseWheel,
            settings.image_pan_shortcut() == MouseShortcut::CtrlLeftButtonDrag,
            settings.window_move_shortcut() == MouseShortcut::LeftButtonDrag,
    {
        Self {
            zoom_shortcut: MouseShortcut::CtrlMouseWheel,
            image_navigation_shortcut: MouseShortcut::MouseWheel,
            image_pan_shortcut: MouseShortcut::CtrlLeftButtonDrag,
            window_move_shortcut: MouseShortcut::LeftButtonDrag,
        }
    }

    #[verifier::when_used_as_spec(spec_zoom_shortcut)]
    pub fn zoom_shortcut(self) -> (shortcut: MouseShortcut)
        ensures
            shortcut == self.zoom_shortcut(),
    {
        self.zoom_shortcut
    }

    pub fn set_zoom_shortcut(&mut self, shortcut: MouseShortcut)
        ensures
            final(self).zoom_shortcut() == shortcut,
            final(self).image_navigation_shortcut() == old(self).image_navigation_shortcut(),
            final(self).image_pan_shortcut() == old(self).image_pan_shortcut(),
            final(self).window_move_shortcut() == old(self).window_move_shortcut(),
    {
        self.zoom_shortcut = shortcut;
    }

    #[verifier::when_used_as_spec(spec_image_navigation_shortcut)]
    pub fn image_navigation_shortcut(self) -> (shortcut: MouseShortcut)
        ensures
            shortcut == self.image_navigation_shortcut(),
    {
        self.image_navigation_shortcut
    }

    pub fn set_image_navigation_shortcut(&mut self, shortcut: MouseShortcut)
        ensures
            final(self).zoom_shortcut() == old(self).zoom_shortcut(),
            final(self).image_navigation_shortcut() == shortcut,
            final(self).image_pan_shortcut() == old(self).image_pan_shortcut(),
            final(self).window_move_shortcut() == old(self).window_move_shortcut(),
    {
        self.image_navigation_shortcut = shortcut;
    }

    #[verifier::when_used_as_spec(spec_image_pan_shortcut)]
    pub fn image_pan_shortcut(self) -> (shortcut: MouseShortcut)
        ensures
            shortcut == self.image_pan_shortcut(),
    {
        self.image_pan_shortcut
    }

    pub fn set_image_pan_shortcut(&mut self, shortcut: MouseShortcut)
        ensures
            final(self).zoom_shortcut() == old(self).zoom_shortcut(),
            final(self).image_navigation_shortcut() == old(self).image_navigation_shortcut(),
            final(self).image_pan_shortcut() == shortcut,
            final(self).window_move_shortcut() == old(self).window_move_shortcut(),
    {
        self.image_pan_shortcut = shortcut;
    }

    #[verifier::when_used_as_spec(spec_window_move_shortcut)]
    pub fn window_move_shortcut(self) -> (shortcut: MouseShortcut)
        ensures
            shortcut == self.window_move_shortcut(),
    {
        self.window_move_shortcut
    }

    pub fn set_window_move_shortcut(&mut self, shortcut: MouseShortcut)
        ensures
            final(self).zoom_shortcut() == old(self).zoom_shortcut(),
            final(self).image_navigation_shortcut() == old(self).image_navigation_shortcut(),
            final(self).image_pan_shortcut() == old(self).image_pan_shortcut(),
            final(self).window_move_shortcut() == shortcut,
    {
        self.window_move_shortcut = shortcut;
    }
}

impl Default for InteractionSettings {
    fn default() -> (settings: Self)
        ensures
            settings.zoom_shortcut() == MouseShortcut::CtrlMouseWheel,
            settings.image_navigation_shortcut() == MouseShortcut::MouseWheel,
            settings.image_pan_shortcut() == MouseShortcut::CtrlLeftButtonDrag,
            settings.window_move_shortcut() == MouseShortcut::LeftButtonDrag,
    {
        Self::defaults()
    }
}

/// A colour with 8-bit channels.
#[derive(Debug, Clone, Copy, PartialEq, Eq, Structural)]
pub struct RgbColor {
    red: u8,
    green: u8,
    blue: u8,
}

impl RgbColor {
    pub closed spec fn spec_red(self) -> u8 {
        self.red
    }

    pub closed spec fn spec_green(self) -> u8 {
        self.green
    }

    pub closed spec fn spec_blue(self) -> u8 {
        self.blue
    }

    pub proof fn lemma_eq(a: Self, b: Self)
        ensures
            (a == b) <==> (a.red() == b.red() && a.green() == b.green() && a.blue() == b.blue()),
    {
    }

    pub fn white() -> (color: Self)
        ensures
            color.red() == 255 && color.green() == 255 && color.blue() == 255,
    {
        Self { red: 255, green: 255, blue: 255 }
    }

    pub fn new(red: u8, green: u8, blue: u8) -> (color: Self)
        ensures
            color.red() == red && color.green() == green && color.blue() == blue,
    {
        Self { red, green, blue }
    }

    #[verifier::when_used_as_spec(spec_red)]
    pub fn red(self) -> (red: u8)
        ensures
            red == self.red(),
    {
        self.red
    }

    #[verifier::when_used_as_spec(spec_green)]
    pub fn green(self) -> (green: u8)
        ensures
            green == self.green(),
    {
        self.green
    }

    #[verifier::when_used_as_spec(spec_blue)]
    pub fn blue(self) -> (blue: u8)
        ensures
            blue == self.blue(),
    {
        self.blue
    }
}

} // verus!

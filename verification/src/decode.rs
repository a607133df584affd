//! Decode requests and the bookkeeping that tells a current decode result
//! from a stale one.
use vstd::prelude::*;

use crate::commands::ImageNavigationDirection;
use crate::export::SupportedImageFormat;
use crate::geometry::{ImageSize, ViewportSize};
use crate::loaded::ImageFileVersion;
use crate::memory::ImageMemoryPolicy;
use crate::scaling::DecodeGeneration;
use crate::settings::{AnimationTimingSettings, NavigationSettings, UiLanguage};
use crate::viewer::ImageDecodePurpose;

verus! {

/// The generation that follows `generation`, wrapping after the last.
pub open spec fn following(generation: DecodeGeneration) -> u64 {
    if generation.value() == u64::MAX {
        0
    } else {
        (generation.value() + 1) as u64
    }
}

/// A request to decode an image: which decode it belongs to, the file and
/// the version expected of it, and the limits to decode it under.
#[derive(Debug, Clone, PartialEq)]
pub struct ImageDecodeRequest {
    generation: DecodeGeneration,
    path: String,
    file_version: Option<ImageFileVersion>,
    viewport: ViewportSize,
    memory_policy: ImageMemoryPolicy,
    animation_timing: AnimationTimingSettings,
    purpose: ImageDecodePurpose,
}

impl ImageDecodeRequest {
    pub closed spec fn spec_generation(&self) -> DecodeGeneration {
        self.generation
    }

    pub closed spec fn spec_path(&self) -> Seq<char> {
        self.path@
    }

    pub closed spec fn spec_file_version(&self) -> Option<ImageFileVersion> {
        self.file_version
    }

    pub closed spec fn spec_viewport(&self) -> ViewportSize {
        self.viewport
    }

    pub closed spec fn spec_memory_policy(&self) -> ImageMemoryPolicy {
        self.memory_policy
    }

    pub closed spec fn spec_animation_timing(&self) -> AnimationTimingSettings {
        self.animation_timing
    }

    pub closed spec fn spec_purpose(&self) -> ImageDecodePurpose {
        self.purpose
    }

    pub fn new(
        generation: DecodeGeneration,
        path: String,
        file_version: Option<ImageFileVersion>,
        viewport: ViewportSize,
        memory_policy: ImageMemoryPolicy,
        animation_timing: AnimationTimingSettings,
        purpose: ImageDecodePurpose,
    ) -> (request: Self)
        ensures
            request.generation() == generation,
            request.spec_path() == path@,
            request.file_version() == file_version,
            request.viewport() == viewport,
            request.memory_policy() == memory_policy,
            request.animation_timing() == animation_timing,
            request.purpose() == purpose,
    {
        Self { generation, path, file_version, viewport, memory_policy, animation_timing, purpose }
    }

    #[verifier::when_used_as_spec(spec_generation)]
    pub fn generation(&self) -> (generation: DecodeGeneration)
        ensures
            generation == self.generation(),
    {
        self.generation
    }

    pub fn path(&self) -> (path: &str)
        ensures
            path@ == self.spec_path(),
    {
        self.path.as_str()
    }

    #[verifier::when_used_as_spec(spec_file_version)]
    pub fn file_version(&self) -> (version: Option<ImageFileVersion>)
        ensures
            version == self.file_version(),
    {
        self.file_version
    }

    #[verifier::when_used_as_spec(spec_viewport)]
    pub fn viewport(&self) -> (viewport: ViewportSize)
        ensures
            viewport == self.viewport(),
    {
        self.viewport
    }

    #[verifier::when_used_as_spec(spec_memory_policy)]
    pub fn memory_policy(&self) -> (policy: ImageMemoryPolicy)
        ensures
            policy == self.memory_policy(),
    {
        self.memory_policy
    }

    #[verifier::when_used_as_spec(spec_animation_timing)]
    pub fn animation_timing(&self) -> (timing: AnimationTimingSettings)
        ensures
            timing == self.animation_timing(),
    {
        self.animation_timing
    }

    #[verifier::when_used_as_spec(spec_purpose)]
    pub fn purpose(&self) -> (purpose: ImageDecodePurpose)
        ensures
            purpose == self.purpose(),
    {
        self.purpose
    }
}

/// A request to decode a neighbouring image ahead of navigation.
#[derive(Debug, Clone, PartialEq)]
pub struct ImagePreloadRequest {
    generation: DecodeGeneration,
    path: String,
    viewport: ViewportSize,
    memory_policy: ImageMemoryPolicy,
    animation_timing: AnimationTimingSettings,
}

impl ImagePreloadRequest {
    pub closed spec fn spec_generation(&self) -> DecodeGeneration {
        self.generation
    }

    pub closed spec fn spec_path(&self) -> Seq<char> {
        self.path@
    }

    pub closed spec fn spec_viewport(&self) -> ViewportSize {
        self.viewport
    }

    pub closed spec fn spec_memory_policy(&self) -> ImageMemoryPolicy {
        self.memory_policy
    }

    pub closed spec fn spec_animation_timing(&self) -> AnimationTimingSettings {
        self.animation_timing
    }

    pub fn new(
        generation: DecodeGeneration,
        path: String,
        viewport: ViewportSize,
        memory_policy: ImageMemoryPolicy,
        animation_timing: AnimationTimingSettings,
    ) -> (request: Self)
        ensures
            request.generation() == generation,
            request.spec_path() == path@,
            request.viewport() == viewport,
            request.memory_policy() == memory_policy,
            request.animation_timing() == animation_timing,
    {
        Self { generation, path, viewport, memory_policy, animation_timing }
    }

    #[verifier::when_used_as_spec(spec_generation)]
    pub fn generation(&self) -> (generation: DecodeGeneration)
        ensures
            generation == self.generation(),
    {
        self.generation
    }

    pub fn path(&self) -> (path: &str)
        ensures
            path@ == self.spec_path(),
    {
        self.path.as_str()
    }

    #[verifier::when_used_as_spec(spec_viewport)]
    pub fn viewport(&self) -> (viewport: ViewportSize)
        ensures
            viewport == self.viewport(),
    {
        self.viewport
    }

    #[verifier::when_used_as_spec(spec_memory_policy)]
    pub fn memory_policy(&self) -> (policy: ImageMemoryPolicy)
        ensures
            policy == self.memory_policy(),
    {
        self.memory_policy
    }

    #[verifier::when_used_as_spec(spec_animation_timing)]
    pub fn animation_timing(&self) -> (timing: AnimationTimingSettings)
        ensures
            timing == self.animation_timing(),
    {
        self.animation_timing
    }
}

/// A request to decode one frame of an animation.
#[derive(Debug, Clone, PartialEq)]
pub struct AnimationFrameDecodeRequest {
    generation: DecodeGeneration,
    path: String,
    file_version: ImageFileVersion,
    format: SupportedImageFormat,
    source_size: ImageSize,
    frame_index: usize,
    viewport: ViewportSize,
    memory_policy: ImageMemoryPolicy,
}

impl AnimationFrameDecodeRequest {
    pub closed spec fn spec_generation(&self) -> DecodeGeneration {
        self.generation
    }

    pub closed spec fn spec_path(&self) -> Seq<char> {
        self.path@
    }

    pub closed spec fn spec_file_version(&self) -> ImageFileVersion {
        self.file_version
    }

    pub closed spec fn spec_format(&self) -> SupportedImageFormat {
        self.format
    }

    pub closed spec fn spec_source_size(&self) -> ImageSize {
        self.source_size
    }

    pub closed spec fn spec_frame_index(&self) -> usize {
        self.frame_index
    }

    pub closed spec fn spec_viewport(&self) -> ViewportSize {
        self.viewport
    }

    pub closed spec fn spec_memory_policy(&self) -> ImageMemoryPolicy {
        self.memory_policy
    }

    pub fn new(
        generation: DecodeGeneration,
        path: String,
        file_version: ImageFileVersion,
        format: SupportedImageFormat,
        source_size: ImageSize,
        frame_index: usize,
        viewport: ViewportSize,
        memory_policy: ImageMemoryPolicy,
    ) -> (request: Self)
        ensures
            request.generation() == generation,
            request.spec_path() == path@,
            request.file_version() == file_version,
            request.format() == format,
            request.source_size() == source_size,
            request.frame_index() == frame_index,
            request.viewport() == viewport,
            request.memory_policy() == memory_policy,
    {
        Self { generation, path, file_version, format, source_size, frame_index, viewport, memory_policy }
    }

    #[verifier::when_used_as_spec(spec_generation)]
    pub fn generation(&self) -> (generation: DecodeGeneration)
        ensures
            generation == self.generation(),
    {
        self.generation
    }

    pub fn path(&self) -> (path: &str)
        ensures
            path@ == self.spec_path(),
    {
        self.path.as_str()
    }

    #[verifier::when_used_as_spec(spec_file_version)]
    pub fn file_version(&self) -> (version: ImageFileVersion)
        ensures
            version == self.file_version(),
    {
        self.file_version
    }

    #[verifier::when_used_as_spec(spec_format)]
    pub fn format(&self) -> (format: SupportedImageFormat)
        ensures
            format == self.format(),
    {
        self.format
    }

    #[verifier::when_used_as_spec(spec_source_size)]
    pub fn source_size(&self) -> (size: ImageSize)
        ensures
            size == self.source_size(),
    {
        self.source_size
    }

    #[verifier::when_used_as_spec(spec_frame_index)]
    pub fn frame_index(&self) -> (index: usize)
        ensures
            index == self.frame_index(),
    {
        self.frame_index
    }

    #[verifier::when_used_as_spec(spec_viewport)]
    pub fn viewport(&self) -> (viewport: ViewportSize)
        ensures
            viewport == self.viewport(),
    {
        self.viewport
    }

    #[verifier::when_used_as_spec(spec_memory_policy)]
    pub fn memory_policy(&self) -> (policy: ImageMemoryPolicy)
        ensures
            policy == self.memory_policy(),
    {
        self.memory_policy
    }
}

/// How starting a navigation went: a decode to run, an image already
/// preloaded and shown, or nothing to do.
#[derive(Debug, Clone, PartialEq)]
pub enum NavigationStartOutcome {
    Decode(ImageDecodeRequest),
    AppliedPreloaded,
    Noop,
}

/// How a failed decode is presented: in a message box, on the status line,
/// by trying the next image, or not at all when the result was stale.
#[derive(Debug, Clone, PartialEq)]
pub enum DecodeFailurePresentation {
    MessageBox,
    StatusMessage,
    RetryNavigation(ImageDecodeRequest),
    Stale,
}

/// What advancing an animation did: showed a new frame, changed only the
/// playback state, needs a frame decoded first, or nothing.
#[derive(Debug, Clone, PartialEq)]
pub enum AnimationFrameOutcome {
    Updated,
    StateChanged,
    NeedsDecode(AnimationFrameDecodeRequest),
    Unchanged,
}

/// Which navigation command a decode serves and how many files it has tried.
#[derive(Debug, Clone, Copy, PartialEq, Eq, Structural)]
pub struct NavigationDecodeState {
    pub direction: ImageNavigationDirection,
    pub attempt_index: usize,
}

/// The decode in flight, if any.
#[derive(Debug, Clone, PartialEq)]
pub enum ImageDecodeState {
    Idle,
    Loading {
        generation: DecodeGeneration,
        path: String,
        file_version: Option<ImageFileVersion>,
        purpose: ImageDecodePurpose,
        navigation: Option<NavigationDecodeState>,
    },
}

/// The decode in flight as values: its generation, the file's path, the
/// version expected of it, why it is decoded and which navigation it serves.
pub enum DecodeInFlight {
    Idle,
    Loading {
        generation: DecodeGeneration,
        path: Seq<char>,
        file_version: Option<ImageFileVersion>,
        purpose: ImageDecodePurpose,
        navigation: Option<NavigationDecodeState>,
    },
}

impl View for ImageDecodeState {
    type V = DecodeInFlight;

    open spec fn view(&self) -> DecodeInFlight {
        match self {
            ImageDecodeState::Idle => DecodeInFlight::Idle,
            ImageDecodeState::Loading { generation, path, file_version, purpose, navigation } =>
                DecodeInFlight::Loading {
                generation: *generation,
                path: path@,
                file_version: *file_version,
                purpose: *purpose,
                navigation: *navigation,
            },
        }
    }
}

/// Keeps the active decode generation and the decode in flight. Starting an
/// image decode moves to a new generation, so every result of an earlier
/// one is stale; a full-resolution decode of the same image keeps the
/// generation.
#[derive(Debug, Clone, PartialEq)]
pub struct ImageDecodeCoordinator {
    generation: DecodeGeneration,
    state: ImageDecodeState,
}

impl ImageDecodeCoordinator {
    pub closed spec fn spec_generation(&self) -> DecodeGeneration {
        self.generation
    }

    pub closed spec fn in_flight(&self) -> DecodeInFlight {
        self.state@
    }

    /// Generation zero with nothing in flight.
    pub fn new() -> (coordinator: Self)
        ensures
            coordinator.generation().value() == 0,
            coordinator.in_flight() is Idle,
    {
        Self { generation: DecodeGeneration::zero(), state: ImageDecodeState::Idle }
    }

    #[verifier::when_used_as_spec(spec_generation)]
    pub fn generation(&self) -> (generation: DecodeGeneration)
        ensures
            generation == self.generation(),
    {
        self.generation
    }

    pub fn is_idle(&self) -> (idle: bool)
        ensures
            idle == (self.in_flight() is Idle),
    {
        match self.state {
            ImageDecodeState::Idle => true,
            ImageDecodeState::Loading { .. } => false,
        }
    }

    /// A result is stale when it belongs to another generation.
    pub fn is_stale(&self, generation: DecodeGeneration) -> (stale: bool)
        ensures
            stale == (generation.value() != self.generation().value()),
    {
        self.generation.value() != generation.value()
    }

    /// Starts decoding an image to show: a new generation, the file in
    /// flight with no expected version, and the request for it.
    pub fn begin_initial(
        &mut self,
        path: String,
        viewport: ViewportSize,
        memory_policy: ImageMemoryPolicy,
        animation_timing: AnimationTimingSettings,
        purpose: ImageDecodePurpose,
        navigation: Option<NavigationDecodeState>,
    ) -> (request: ImageDecodeRequest)
        ensures
            final(self).generation().value() == following(old(self).generation()),
            final(self).in_flight() == (DecodeInFlight::Loading {
                generation: final(self).generation(),
                path: path@,
                file_version: None,
                purpose,
                navigation,
            }),
            request.generation() == final(self).generation(),
            request.spec_path() == path@,
            request.file_version() is None,
            request.viewport() == viewport,
            request.memory_policy() == memory_policy,
            request.animation_timing() == animation_timing,
            request.purpose() == purpose,
    {
        let generation = self.generation.next();
        let in_flight = path.clone();
        self.generation = generation;
        self.state = ImageDecodeState::Loading { generation, path: in_flight, file_version: None, purpose, navigation };
        ImageDecodeRequest::new(generation, path, None, viewport, memory_policy, animation_timing, purpose)
    }

    /// Starts decoding the full resolution of the image shown: the same
    /// generation, the file in flight with its expected version.
    pub fn begin_full_resolution(
        &mut self,
        path: String,
        file_version: ImageFileVersion,
        viewport: ViewportSize,
        memory_policy: ImageMemoryPolicy,
        animation_timing: AnimationTimingSettings,
    ) -> (request: ImageDecodeRequest)
        ensures
            final(self).generation() == old(self).generation(),
            final(self).in_flight() == (DecodeInFlight::Loading {
                generation: old(self).generation(),
                path: path@,
                file_version: Some(file_version),
                purpose: ImageDecodePurpose::FullResolution,
                navigation: None,
            }),
            request.generation() == old(self).generation(),
            request.spec_path() == path@,
            request.file_version() == Some(file_version),
            request.viewport() == viewport,
            request.memory_policy() == memory_policy,
            request.animation_timing() == animation_timing,
            request.purpose() == ImageDecodePurpose::FullResolution,
    {
        let generation = self.generation;
        let in_flight = path.clone();
        self.state = ImageDecodeState::Loading {
            generation,
            path: in_flight,
            file_version: Some(file_version),
            purpose: ImageDecodePurpose::FullResolution,
            navigation: None,
        };
        ImageDecodeRequest::new(
            generation,
            path,
            Some(file_version),
            viewport,
            memory_policy,
            animation_timing,
            ImageDecodePurpose::FullResolution,
        )
    }

    /// Nothing in flight any more; the generation stays.
    pub fn clear(&mut self)
        ensures
            final(self).generation() == old(self).generation(),
            final(self).in_flight() is Idle,
    {
        self.state = ImageDecodeState::Idle;
    }

    /// Why the image decode of `generation` was started and which navigation
    /// it serves, while it is the one in flight and not a full-resolution
    /// decode.
    pub fn active_initial_state(&self, generation: DecodeGeneration) -> (active: Option<
        (ImageDecodePurpose, Option<NavigationDecodeState>),
    >)
        ensures
            active == (match self.in_flight() {
                DecodeInFlight::Loading { generation: g, purpose, navigation, .. } => if g.value()
                    == generation.value() && purpose != ImageDecodePurpose::FullResolution {
                    Some((purpose, navigation))
                } else {
                    None
                },
                DecodeInFlight::Idle => None,
            }),
    {
        match &self.state {
            ImageDecodeState::Loading { generation: active_generation, purpose, navigation, .. } => {
                if active_generation.value() == generation.value() && !purpose_is_full_resolution(*purpose) {
                    Some((*purpose, *navigation))
                } else {
                    None
                }
            },
            ImageDecodeState::Idle => None,
        }
    }

    /// The file of the image decode of `generation`, under the same
    /// condition as `active_initial_state`.
    pub fn active_initial_path(&self, generation: DecodeGeneration) -> (path: Option<&str>)
        ensures
            match self.in_flight() {
                DecodeInFlight::Loading { generation: g, path: p, purpose, .. } => if g.value()
                    == generation.value() && purpose != ImageDecodePurpose::FullResolution {
                    path matches Some(s) && s@ == p
                } else {
                    path is None
                },
                DecodeInFlight::Idle => path is None,
            },
    {
        match &self.state {
            ImageDecodeState::Loading { generation: active_generation, path, purpose, .. } => {
                if active_generation.value() == generation.value() && !purpose_is_full_resolution(*purpose) {
                    Some(path.as_str())
                } else {
                    None
                }
            },
            ImageDecodeState::Idle => None,
        }
    }

    /// The file and version of the full-resolution decode of `generation`,
    /// while it is the one in flight.
    pub fn active_full_resolution_source(&self, generation: DecodeGeneration) -> (source: Option<
        (&str, ImageFileVersion),
    >)
        ensures
            match self.in_flight() {
                DecodeInFlight::Loading { generation: g, path: p, file_version: Some(v), purpose, .. } =>
                    if g.value() == generation.value() && purpose == ImageDecodePurpose::FullResolution {
                    source matches Some((s, version)) && s@ == p && version == v
                } else {
                    source is None
                },
                _ => source is None,
            },
    {
        match &self.state {
            ImageDecodeState::Loading {
                generation: active_generation,
                path,
                file_version: Some(file_version),
                purpose,
                ..
            } => {
                if active_generation.value() == generation.value() && purpose_is_full_resolution(*purpose) {
                    Some((path.as_str(), *file_version))
                } else {
                    None
                }
            },
            _ => None,
        }
    }
}

fn purpose_is_full_resolution(purpose: ImageDecodePurpose) -> (full: bool)
    ensures
        full == (purpose == ImageDecodePurpose::FullResolution),
{
    match purpose {
        ImageDecodePurpose::FullResolution => true,
        _ => false,
    }
}

// ---------------------------------------------------------------------------
// Status text
// ---------------------------------------------------------------------------
/// The status line when the image to navigate to cannot be opened: the
/// reason, and that the current image is kept, after looking for another
/// when failed files are skipped and more than one attempt is allowed.
pub open spec fn navigation_failure_text(
    reason: Seq<char>,
    settings: NavigationSettings,
    language: UiLanguage,
) -> Seq<char> {
    let skipped = settings.auto_skip_failed_navigation() && settings.max_navigation_attempts_per_command() > 1;
    match language {
        UiLanguage::Korean => "이동할 이미지를 열 수 없습니다: "@ + reason + if skipped {
            " 건너뛸 수 있는 이미지를 찾지 못해 현재 이미지를 유지합니다."@
        } else {
            " 현재 이미지를 유지합니다."@
        },
        UiLanguage::English => "Could not open the image to navigate to: "@ + reason + if skipped {
            " No skippable image was found, so the current image is kept."@
        } else {
            " The current image is kept."@
        },
    }
}

/// The status line for a failed navigation, given the short reason the
/// failure gives in `language`.
pub fn navigation_failure_status_text(
    reason: &str,
    navigation_settings: NavigationSettings,
    language: UiLanguage,
) -> (text: String)
    ensures
        text@ == navigation_failure_text(reason@, navigation_settings, language),
{
    let skipped = navigation_settings.auto_skip_failed_navigation()
        && navigation_settings.max_navigation_attempts_per_command() > 1;
    let mut text = match language {
        UiLanguage::Korean => "이동할 이미지를 열 수 없습니다: ".to_owned(),
        UiLanguage::English => "Could not open the image to navigate to: ".to_owned(),
    };
    text.append(reason);
    match (language, skipped) {
        (UiLanguage::Korean, true) => text.append(" 건너뛸 수 있는 이미지를 찾지 못해 현재 이미지를 유지합니다."),
        (UiLanguage::Korean, false) => text.append(" 현재 이미지를 유지합니다."),
        (UiLanguage::English, true) => text.append(" No skippable image was found, so the current image is kept."),
        (UiLanguage::English, false) => text.append(" The current image is kept."),
    }
    text
}

} // verus!

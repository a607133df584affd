//! What a finished full-resolution decode or folder scan does to the shown
//! image: applied when it is the one still waited for, stale otherwise.
use vstd::prelude::*;

use crate::commands::ImageNavigationDirection;
use crate::decode::{
    following, navigation_failure_status_text, navigation_failure_text, DecodeFailurePresentation, DecodeInFlight,
    ImageDecodeCoordinator, ImageDecodeRequest, NavigationDecodeState,
};
use crate::folder::{stepped_index, ImageFolder};
use crate::geometry::{ImageBufferKind, ViewportSize};
use crate::memory::ImageMemoryPolicy;
use crate::settings::{AnimationTimingSettings, NavigationSettings, UiLanguage};
use crate::loaded::{same_file_version, ImageFileVersion, ImageState, LoadedImage};
use crate::paths::{paths_equal, same_path};
use crate::pixels::PixelImage;
use crate::scaling::DecodeGeneration;
use crate::viewer::{DecodeApplyOutcome, ImageDecodePurpose};

verus! {

broadcast use LoadedImage::lemma_with_full_resolution;

/// The path and file version a full-resolution decode of `generation` was
/// started for, while it is the decode in flight.
pub open spec fn full_resolution_source(in_flight: DecodeInFlight, generation: DecodeGeneration) -> Option<(Seq<char>, ImageFileVersion)> {
    match in_flight {
        DecodeInFlight::Loading { generation: g, path, file_version: Some(v), purpose, .. } => if g.value()
            == generation.value() && purpose == ImageDecodePurpose::FullResolution {
            Some((path, v))
        } else {
            None
        },
        _ => None,
    }
}

/// The path of the shown image, if one is shown.
pub open spec fn shown_path(state: ImageState) -> Option<Seq<char>> {
    match state {
        ImageState::Loaded(image) => Some(image.spec_metadata().spec_path()),
        ImageState::Empty => None,
    }
}

/// The path of the shown image, if one is shown.
pub fn current_source_path(state: &ImageState) -> (path: Option<&str>)
    ensures
        match shown_path(*state) {
            Some(p) => path matches Some(s) && s@ == p,
            None => path is None,
        },
{
    match state {
        ImageState::Loaded(image) => Some(image.metadata().path()),
        ImageState::Empty => None,
    }
}

/// Applies the full resolution of the shown image. Stale when `generation`
/// is not the current one or no full-resolution decode of it is in flight;
/// otherwise that decode is over. Unchanged without an image; stale when the
/// shown image has another path or file version than the decode was started
/// for, or the result another file version; otherwise applied when the image
/// takes the pixels (a still image of the source's size) and unchanged when
/// it does not.
pub fn apply_full_resolution_image(
    coordinator: &mut ImageDecodeCoordinator,
    state: &mut ImageState,
    generation: DecodeGeneration,
    file_version: Option<ImageFileVersion>,
    pixels: PixelImage,
) -> (outcome: DecodeApplyOutcome)
    ensures
        final(coordinator).generation() == old(coordinator).generation(),
        (generation.value() != old(coordinator).generation().value() || full_resolution_source(
            old(coordinator).in_flight(),
            generation,
        ) is None) ==> outcome == DecodeApplyOutcome::Stale && final(coordinator).in_flight() == old(coordinator).in_flight() && *final(state) == *old(state),
        generation.value() == old(coordinator).generation().value() ==> match full_resolution_source(
            old(coordinator).in_flight(),
            generation,
        ) {
            Some((path, version)) => {
                &&& final(coordinator).in_flight() is Idle
                &&& match *old(state) {
                    ImageState::Empty => outcome == DecodeApplyOutcome::Unchanged && *final(state) == *old(state),
                    ImageState::Loaded(image) => if !same_path(image.spec_metadata().spec_path(), path)
                        || image.spec_metadata().file_version() != Some(version) || file_version != Some(version) {
                        outcome == DecodeApplyOutcome::Stale && *final(state) == *old(state)
                    } else if image.spec_animation() is None && pixels.spec_size() == image.spec_source_size() {
                        outcome == DecodeApplyOutcome::Applied && *final(state) == ImageState::Loaded(
                            image.spec_with_full_resolution(pixels),
                        )
                    } else {
                        outcome == DecodeApplyOutcome::Unchanged && *final(state) == *old(state)
                    },
                }
            },
            None => true,
        },
{
    if coordinator.is_stale(generation) {
        return DecodeApplyOutcome::Stale;
    }
    let (path, expected) = match coordinator.active_full_resolution_source(generation) {
        Some((path, version)) => (path.to_string(), version),
        None => return DecodeApplyOutcome::Stale,
    };
    coordinator.clear();
    let image = match state {
        ImageState::Loaded(image) => image,
        ImageState::Empty => return DecodeApplyOutcome::Unchanged,
    };
    if !paths_equal(image.metadata().path(), path.as_str()) || !same_file_version(
        image.metadata().file_version(),
        Some(expected),
    ) || !same_file_version(file_version, Some(expected)) {
        return DecodeApplyOutcome::Stale;
    }
    if !image.replace_with_full_resolution(pixels) {
        return DecodeApplyOutcome::Unchanged;
    }
    DecodeApplyOutcome::Applied
}

/// A folder scan started after an image was opened, and the path it was
/// started for.
pub struct PendingFolderScan {
    pub generation: DecodeGeneration,
    pub path: String,
}

/// Whether the folder scan that is waited for belongs to the shown image and
/// the current generation.
pub open spec fn scan_pending_for_shown(
    pending: Option<PendingFolderScan>,
    state: ImageState,
    active: DecodeGeneration,
) -> bool {
    match pending {
        Some(scan) => (shown_path(state) matches Some(p) && same_path(p, scan.path@)) && scan.generation.value()
            == active.value(),
        None => false,
    }
}

/// Whether the folder scan that is waited for belongs to the shown image and
/// the current generation.
pub fn is_current_folder_scan_pending(
    pending: &Option<PendingFolderScan>,
    state: &ImageState,
    coordinator: &ImageDecodeCoordinator,
) -> (waiting: bool)
    ensures
        waiting == scan_pending_for_shown(*pending, *state, coordinator.generation()),
{
    let scan = match pending {
        Some(scan) => scan,
        None => return false,
    };
    let shown = match current_source_path(state) {
        Some(p) => paths_equal(p, scan.path.as_str()),
        None => false,
    };
    shown && scan.generation.value() == coordinator.generation().value()
}

/// Applies a scanned folder: stale when `generation` is not the current one
/// or the shown image is not at `current_path`; otherwise the folder replaces
/// the shown one and no scan is waited for any more.
pub fn apply_scanned_image_folder(
    coordinator: &ImageDecodeCoordinator,
    state: &ImageState,
    folder: &mut ImageFolder,
    pending: &mut Option<PendingFolderScan>,
    generation: DecodeGeneration,
    current_path: &str,
    scanned: ImageFolder,
) -> (outcome: DecodeApplyOutcome)
    ensures
        ({
            let current = generation.value() == coordinator.generation().value() && (shown_path(*state) matches Some(
                p,
            ) && same_path(p, current_path@));
            &&& !current ==> outcome == DecodeApplyOutcome::Stale && *final(folder) == *old(folder) && *final(pending)
                == *old(pending)
            &&& current ==> outcome == DecodeApplyOutcome::Applied && *final(folder) == scanned && *final(pending) is None
        }),
{
    if coordinator.is_stale(generation) {
        return DecodeApplyOutcome::Stale;
    }
    let shown = match current_source_path(state) {
        Some(p) => paths_equal(p, current_path),
        None => false,
    };
    if !shown {
        return DecodeApplyOutcome::Stale;
    }
    *folder = scanned;
    *pending = None;
    DecodeApplyOutcome::Applied
}

/// Ends the wait for a folder scan that gave nothing new: stale unless a scan
/// is waited for, `generation` is the current one and the scan's, and both the
/// scan and the shown image are at `current_path`; otherwise neither the scan
/// nor a navigation that waited for it is waited for any more.
pub fn finish_pending_folder_scan_without_update(
    coordinator: &ImageDecodeCoordinator,
    state: &ImageState,
    pending: &mut Option<PendingFolderScan>,
    pending_navigation: &mut Option<ImageNavigationDirection>,
    generation: DecodeGeneration,
    current_path: &str,
) -> (outcome: DecodeApplyOutcome)
    ensures
        ({
            let current = match *old(pending) {
                Some(scan) => generation.value() == coordinator.generation().value() && scan.generation.value()
                    == generation.value() && same_path(scan.path@, current_path@) && (shown_path(*state) matches Some(
                    p,
                ) && same_path(p, current_path@)),
                None => false,
            };
            &&& !current ==> outcome == DecodeApplyOutcome::Stale && *final(pending) == *old(pending)
                && *final(pending_navigation) == *old(pending_navigation)
            &&& current ==> outcome == DecodeApplyOutcome::Applied && *final(pending) is None
                && *final(pending_navigation) is None
        }),
{
    let (scan_generation, matches_path) = match pending {
        Some(scan) => (scan.generation, paths_equal(scan.path.as_str(), current_path)),
        None => return DecodeApplyOutcome::Stale,
    };
    let shown = match current_source_path(state) {
        Some(p) => paths_equal(p, current_path),
        None => false,
    };
    if coordinator.is_stale(generation) || scan_generation.value() != generation.value() || !matches_path || !shown {
        return DecodeApplyOutcome::Stale;
    }
    *pending = None;
    *pending_navigation = None;
    DecodeApplyOutcome::Applied
}

/// Ends a failed full-resolution decode: stale unless `generation` is the
/// current one, a full-resolution decode of it is in flight and the failure
/// is for the file version that decode was started for; that decode is then
/// over.
pub fn finish_failed_decode(
    coordinator: &mut ImageDecodeCoordinator,
    generation: DecodeGeneration,
    file_version: Option<ImageFileVersion>,
) -> (outcome: DecodeApplyOutcome)
    ensures
        final(coordinator).generation() == old(coordinator).generation(),
        ({
            let current = generation.value() == old(coordinator).generation().value() && (full_resolution_source(
                old(coordinator).in_flight(),
                generation,
            ) matches Some((p, v)) && file_version == Some(v));
            &&& !current ==> outcome == DecodeApplyOutcome::Stale && final(coordinator).in_flight() == old(coordinator).in_flight()
            &&& current ==> outcome == DecodeApplyOutcome::Applied && final(coordinator).in_flight() is Idle
        }),
{
    if coordinator.is_stale(generation) {
        return DecodeApplyOutcome::Stale;
    }
    let expected = match coordinator.active_full_resolution_source(generation) {
        Some((_, version)) => version,
        None => return DecodeApplyOutcome::Stale,
    };
    if !same_file_version(file_version, Some(expected)) {
        return DecodeApplyOutcome::Stale;
    }
    coordinator.clear();
    DecodeApplyOutcome::Applied
}

/// Starts decoding the image `attempt_index + 1` steps from the shown one in
/// `direction`, when the folder has one there (see [`stepped_index`]); the
/// decode is a folder navigation that remembers the direction and attempt.
/// The caller drops what it waited for from the previous decode when a
/// request comes back.
pub fn begin_navigation_decode_attempt(
    coordinator: &mut ImageDecodeCoordinator,
    folder: &ImageFolder,
    settings: NavigationSettings,
    viewport: ViewportSize,
    memory_policy: ImageMemoryPolicy,
    animation_timing: AnimationTimingSettings,
    direction: ImageNavigationDirection,
    attempt_index: usize,
) -> (request: Option<ImageDecodeRequest>)
    ensures
        match stepped_index(folder@.paths.len() as int, folder@.current, direction, settings.wrap_navigation(), attempt_index as int) {
            Some(i) => request matches Some(r) && final(coordinator).generation().value() == following(
                old(coordinator).generation(),
            ) && final(coordinator).in_flight() == (DecodeInFlight::Loading {
                generation: final(coordinator).generation(),
                path: folder@.paths[i],
                file_version: None,
                purpose: ImageDecodePurpose::FolderNavigation(direction),
                navigation: Some(NavigationDecodeState { direction, attempt_index }),
            }) && r.generation() == final(coordinator).generation() && r.spec_path() == folder@.paths[i]
                && r.file_version() is None && r.viewport() == viewport && r.memory_policy() == memory_policy
                && r.animation_timing() == animation_timing && r.purpose() == ImageDecodePurpose::FolderNavigation(
                direction,
            ),
            None => request is None && *final(coordinator) == *old(coordinator),
        },
{
    let path = match folder.navigation_path_for_attempt(direction, settings, attempt_index) {
        Some(path) => path.to_string(),
        None => return None,
    };
    Some(
        coordinator.begin_initial(
            path,
            viewport,
            memory_policy,
            animation_timing,
            ImageDecodePurpose::FolderNavigation(direction),
            Some(NavigationDecodeState { direction, attempt_index }),
        ),
    )
}

/// Whether a navigation command may make attempt `attempt_index` (counted
/// from zero, every earlier attempt having failed): within the allowed number
/// of attempts, and only the first unless failed images are skipped.
pub open spec fn attempt_allowed(settings: NavigationSettings, attempt_index: int) -> bool {
    &&& attempt_index < settings.max_navigation_attempts_per_command()
    &&& attempt_index == 0 || settings.auto_skip_failed_navigation()
}

/// The file a navigation command tries at attempt `attempt_index`, every
/// earlier attempt having failed: the image that many further steps away in
/// `direction` (see [`stepped_index`]), when that attempt is allowed (see
/// [`attempt_allowed`]) and the folder has an image there; otherwise the
/// command stops.
pub fn navigation_attempt_path<'a>(
    folder: &'a ImageFolder,
    settings: NavigationSettings,
    direction: ImageNavigationDirection,
    attempt_index: usize,
) -> (path: Option<&'a str>)
    ensures
        match (if attempt_allowed(settings, attempt_index as int) {
            stepped_index(
                folder@.paths.len() as int,
                folder@.current,
                direction,
                settings.wrap_navigation(),
                attempt_index as int,
            )
        } else {
            None
        }) {
            Some(i) => path matches Some(p) && p@ == folder@.paths[i],
            None => path is None,
        },
{
    if attempt_index >= settings.max_navigation_attempts_per_command() {
        return None;
    }
    if attempt_index > 0 && !settings.auto_skip_failed_navigation() {
        return None;
    }
    folder.navigation_path_for_attempt(direction, settings, attempt_index)
}

/// The attempt after a failed navigation decode: only when failed images are
/// skipped and fewer than the allowed attempts were made.
pub open spec fn next_attempt(settings: NavigationSettings, navigation: NavigationDecodeState) -> Option<usize> {
    if settings.auto_skip_failed_navigation() && navigation.attempt_index + 1 < settings.max_navigation_attempts_per_command() {
        Some((navigation.attempt_index + 1) as usize)
    } else {
        None
    }
}

/// Starts the next navigation attempt after a failed one (see
/// [`next_attempt`] and [`begin_navigation_decode_attempt`]); none when
/// there is no next attempt or no image there.
pub fn navigation_retry_request(
    coordinator: &mut ImageDecodeCoordinator,
    folder: &ImageFolder,
    settings: NavigationSettings,
    viewport: ViewportSize,
    memory_policy: ImageMemoryPolicy,
    animation_timing: AnimationTimingSettings,
    navigation: NavigationDecodeState,
) -> (request: Option<ImageDecodeRequest>)
    ensures
        match next_attempt(settings, navigation) {
            Some(attempt) => match stepped_index(
                folder@.paths.len() as int,
                folder@.current,
                navigation.direction,
                settings.wrap_navigation(),
                attempt as int,
            ) {
                Some(i) => request matches Some(r) && r.spec_path() == folder@.paths[i] && r.purpose()
                    == ImageDecodePurpose::FolderNavigation(navigation.direction) && r.generation()
                    == final(coordinator).generation() && final(coordinator).generation().value() == following(
                    old(coordinator).generation(),
                ) && final(coordinator).in_flight() == (DecodeInFlight::Loading {
                    generation: final(coordinator).generation(),
                    path: folder@.paths[i],
                    file_version: None,
                    purpose: ImageDecodePurpose::FolderNavigation(navigation.direction),
                    navigation: Some(NavigationDecodeState { direction: navigation.direction, attempt_index: attempt }),
                }) && r.file_version() is None && r.viewport() == viewport && r.memory_policy() == memory_policy
                    && r.animation_timing() == animation_timing,
                None => request is None && *final(coordinator) == *old(coordinator),
            },
            None => request is None && *final(coordinator) == *old(coordinator),
        },
{
    if !settings.auto_skip_failed_navigation() {
        return None;
    }
    let next = match navigation.attempt_index.checked_add(1) {
        Some(next) => next,
        None => return None,
    };
    if next >= settings.max_navigation_attempts_per_command() {
        return None;
    }
    begin_navigation_decode_attempt(
        coordinator,
        folder,
        settings,
        viewport,
        memory_policy,
        animation_timing,
        navigation.direction,
        next,
    )
}

/// What handling a failed open or navigation decode of `generation` does
/// (see [`finish_failed_initial_decode`]): the coordinator goes from `before`
/// to `after`, and `presentation` and `status` are what is reported.
pub open spec fn initial_failure_handled(
    before: ImageDecodeCoordinator,
    after: ImageDecodeCoordinator,
    folder: ImageFolder,
    settings: NavigationSettings,
    viewport: ViewportSize,
    memory_policy: ImageMemoryPolicy,
    animation_timing: AnimationTimingSettings,
    generation: DecodeGeneration,
    reason: Seq<char>,
    language: UiLanguage,
    presentation: DecodeFailurePresentation,
    status: Option<String>,
) -> bool {
    &&& {
        match before.in_flight() {
            DecodeInFlight::Loading { generation: g, purpose, navigation, .. } => if generation.value()
                == before.generation().value() && g.value() == generation.value() && purpose
                != ImageDecodePurpose::FullResolution {
                if purpose is FolderNavigation {
                    ||| (presentation is RetryNavigation && status is None && navigation is Some)
                    ||| (presentation == DecodeFailurePresentation::StatusMessage && after.in_flight() is Idle
                        && after.generation() == before.generation() && (status matches Some(text)
                        && text@ == navigation_failure_text(reason, settings, language)))
                } else {
                    presentation == DecodeFailurePresentation::MessageBox && status is None && after.in_flight() is Idle && after.generation() == before.generation()
                }
            } else {
                presentation == DecodeFailurePresentation::Stale && status is None && after == before
            },
            DecodeInFlight::Idle => presentation == DecodeFailurePresentation::Stale && status is None
                && after == before,
        }
    }
    &&& {
        match before.in_flight() {
            DecodeInFlight::Loading { generation: g, purpose, navigation, .. } => match navigation {
                Some(n) => (generation.value() == before.generation().value() && g.value()
                    == generation.value() && purpose is FolderNavigation) ==> match next_attempt(settings, n) {
                    Some(attempt) => match stepped_index(
                        folder@.paths.len() as int,
                        folder@.current,
                        n.direction,
                        settings.wrap_navigation(),
                        attempt as int,
                    ) {
                        Some(i) => (presentation matches DecodeFailurePresentation::RetryNavigation(r) && r.spec_path()
                            == folder@.paths[i] && r.generation() == after.generation()
                            && after.generation().value() == following(before.generation())
                            && after.in_flight() == (DecodeInFlight::Loading {
                                generation: after.generation(),
                                path: folder@.paths[i],
                                file_version: None,
                                purpose: ImageDecodePurpose::FolderNavigation(n.direction),
                                navigation: Some(NavigationDecodeState { direction: n.direction, attempt_index: attempt }),
                            }) && r.file_version() is None && r.purpose() == ImageDecodePurpose::FolderNavigation(
                                n.direction,
                            ) && r.viewport() == viewport && r.memory_policy() == memory_policy
                            && r.animation_timing() == animation_timing && status is None),
                        None => presentation == DecodeFailurePresentation::StatusMessage,
                    },
                    None => presentation == DecodeFailurePresentation::StatusMessage,
                },
                None => true,
            },
            DecodeInFlight::Idle => true,
        }
    }
}

/// Handles a failed image decode started to open or navigate to an image:
/// stale unless `generation` is the current one and such a decode of it is in
/// flight. A failed navigation is retried further on when it may be (see
/// [`navigation_retry_request`]); otherwise the decode is over and the
/// failure is reported as a status text built from `reason` (see
/// [`navigation_failure_text`]). A failed open is over and reported in a
/// message box.
pub fn finish_failed_initial_decode(
    coordinator: &mut ImageDecodeCoordinator,
    folder: &ImageFolder,
    settings: NavigationSettings,
    viewport: ViewportSize,
    memory_policy: ImageMemoryPolicy,
    animation_timing: AnimationTimingSettings,
    generation: DecodeGeneration,
    reason: &str,
    language: UiLanguage,
) -> (result: (DecodeFailurePresentation, Option<String>))
    ensures
        initial_failure_handled(
            *old(coordinator),
            *final(coordinator),
            *folder,
            settings,
            viewport,
            memory_policy,
            animation_timing,
            generation,
            reason@,
            language,
            result.0,
            result.1,
        ),
{
    if coordinator.is_stale(generation) {
        return (DecodeFailurePresentation::Stale, None);
    }
    let (purpose, navigation) = match coordinator.active_initial_state(generation) {
        Some(state) => state,
        None => return (DecodeFailurePresentation::Stale, None),
    };
    match purpose {
        ImageDecodePurpose::FolderNavigation(_) => {
            match navigation {
                Some(navigation) => {
                    match navigation_retry_request(
                        coordinator,
                        folder,
                        settings,
                        viewport,
                        memory_policy,
                        animation_timing,
                        navigation,
                    ) {
                        Some(request) => return (DecodeFailurePresentation::RetryNavigation(request), None),
                        None => {},
                    }
                },
                None => {},
            }
            coordinator.clear();
            let text = navigation_failure_status_text(reason, settings, language);
            (DecodeFailurePresentation::StatusMessage, Some(text))
        },
        _ => {
            coordinator.clear();
            (DecodeFailurePresentation::MessageBox, None)
        },
    }
}

/// Whether the full resolution of the shown image is to be decoded: nothing
/// is being decoded, the image is a still preview whose file version is
/// known, and the view wants it.
pub open spec fn wants_full_resolution(idle: bool, state: ImageState, wanted_for_view: bool) -> bool {
    &&& idle
    &&& state matches ImageState::Loaded(image)
    &&& image.spec_animation() is None
    &&& image.spec_buffer_kind() != ImageBufferKind::FullResolution
    &&& wanted_for_view
    &&& image.spec_metadata().file_version() is Some
}

/// Starts decoding the full resolution of the shown image when it is to be
/// (see [`wants_full_resolution`]; whether the view wants it is worked out by
/// the caller from the zoom), keeping the generation.
pub fn begin_full_resolution_decode(
    coordinator: &mut ImageDecodeCoordinator,
    state: &ImageState,
    viewport: ViewportSize,
    memory_policy: ImageMemoryPolicy,
    animation_timing: AnimationTimingSettings,
    wanted_for_view: bool,
) -> (request: Option<ImageDecodeRequest>)
    ensures
        !wants_full_resolution(old(coordinator).in_flight() is Idle, *state, wanted_for_view) ==> request is None
            && *final(coordinator) == *old(coordinator),
        wants_full_resolution(old(coordinator).in_flight() is Idle, *state, wanted_for_view) ==> match *state {
            ImageState::Loaded(image) => {
                let version = image.spec_metadata().file_version()->0;
                let path = image.spec_metadata().spec_path();
                &&& final(coordinator).generation() == old(coordinator).generation()
                &&& final(coordinator).in_flight() == (DecodeInFlight::Loading {
                    generation: old(coordinator).generation(),
                    path,
                    file_version: Some(version),
                    purpose: ImageDecodePurpose::FullResolution,
                    navigation: None,
                })
                &&& request matches Some(r) && r.generation() == old(coordinator).generation() && r.spec_path() == path
                    && r.file_version() == Some(version) && r.viewport() == viewport && r.memory_policy()
                    == memory_policy && r.animation_timing() == animation_timing && r.purpose()
                    == ImageDecodePurpose::FullResolution
            },
            ImageState::Empty => false,
        },
{
    if !coordinator.is_idle() {
        return None;
    }
    let image = match state {
        ImageState::Loaded(image) => image,
        ImageState::Empty => return None,
    };
    if image.is_animated() || image.has_full_resolution() || !wanted_for_view {
        return None;
    }
    let version = match image.metadata().file_version() {
        Some(version) => version,
        None => return None,
    };
    Some(
        coordinator.begin_full_resolution(
            image.metadata().path().to_string(),
            version,
            viewport,
            memory_policy,
            animation_timing,
        ),
    )
}

/// A full-resolution result is applied at most once: once its decode is over
/// (nothing in flight), a second result for the same generation is stale.
pub proof fn law_full_resolution_result_applies_once(generation: DecodeGeneration)
    ensures
        full_resolution_source(DecodeInFlight::Idle, generation) is None,
{
}

} // verus!

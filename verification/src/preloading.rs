//! Which neighbouring images are decoded ahead of navigation, and whether a
//! finished preload is still wanted when it arrives.
use vstd::prelude::*;

use crate::commands::ImageNavigationDirection;
use crate::decode::{ImageDecodeCoordinator, ImagePreloadRequest};
use crate::folder::{stepped_index, FolderView, ImageFolder};
use crate::geometry::ViewportSize;
use crate::loaded::LoadedImage;
use crate::memory::ImageMemoryPolicy;
use crate::paths::{paths_equal, same_path};
use crate::preload_cache::{has_current_preload, stores, NavigationPreloadCache, NavigationPreloadCacheEntry};
use crate::settings::{AnimationTimingSettings, NavigationSettings};
use crate::viewer::DecodeApplyOutcome;

verus! {

/// The image one step from the current one in `direction`, if there is one.
pub open spec fn neighbour(folder: FolderView, direction: ImageNavigationDirection, settings: NavigationSettings) -> Option<Seq<char>> {
    match stepped_index(folder.paths.len() as int, folder.current, direction, settings.wrap_navigation(), 0) {
        Some(i) => Some(folder.paths[i]),
        None => None,
    }
}

/// Nothing is decoded ahead while a decode runs or no image is shown; what
/// is decoded ahead is at most the two neighbours, each once, neither the
/// shown image nor one already preloaded for these settings.
pub proof fn law_preload_paths_are_fresh_neighbours(
    idle: bool,
    current: Option<Seq<char>>,
    folder: FolderView,
    settings: NavigationSettings,
    cache: Seq<NavigationPreloadCacheEntry>,
    viewport: ViewportSize,
    memory_policy: ImageMemoryPolicy,
    animation_timing: AnimationTimingSettings,
)
    ensures
        ({
            let paths = preload_paths(idle, current, folder, settings, cache, viewport, memory_policy, animation_timing);
            &&& (!idle || current is None) ==> paths.len() == 0
            &&& paths.len() <= 2
            &&& forall|i: int|
                0 <= i < paths.len() ==> {
                    &&& (neighbour(folder, ImageNavigationDirection::Previous, settings) == Some(#[trigger] paths[i])
                        || neighbour(folder, ImageNavigationDirection::Next, settings) == Some(paths[i]))
                    &&& !same_path(current->0, paths[i])
                    &&& !has_current_preload(cache, paths[i], viewport, memory_policy, animation_timing)
                }
            &&& forall|i: int, j: int| 0 <= i < j < paths.len() ==> !same_path(#[trigger] paths[i], #[trigger] paths[j])
        }),
{
}

/// Whether `path` is the image one step before or after the current one.
pub open spec fn preload_target(folder: FolderView, settings: NavigationSettings, path: Seq<char>) -> bool {
    ||| neighbour(folder, ImageNavigationDirection::Previous, settings) matches Some(p) && same_path(p, path)
    ||| neighbour(folder, ImageNavigationDirection::Next, settings) matches Some(p) && same_path(p, path)
}

/// Whether a neighbour is worth decoding ahead: it is not the current image,
/// not already chosen, and not already preloaded for these settings.
pub open spec fn worth_preloading(
    path: Seq<char>,
    current: Seq<char>,
    chosen: Seq<Seq<char>>,
    cache: Seq<NavigationPreloadCacheEntry>,
    viewport: ViewportSize,
    memory_policy: ImageMemoryPolicy,
    animation_timing: AnimationTimingSettings,
) -> bool {
    &&& !same_path(current, path)
    &&& !(exists|k: int| 0 <= k < chosen.len() && same_path(#[trigger] chosen[k], path))
    &&& !has_current_preload(cache, path, viewport, memory_policy, animation_timing)
}

/// `chosen` with the neighbour in `direction` added when it is worth preloading.
pub open spec fn choose_neighbour(
    chosen: Seq<Seq<char>>,
    folder: FolderView,
    direction: ImageNavigationDirection,
    settings: NavigationSettings,
    current: Seq<char>,
    cache: Seq<NavigationPreloadCacheEntry>,
    viewport: ViewportSize,
    memory_policy: ImageMemoryPolicy,
    animation_timing: AnimationTimingSettings,
) -> Seq<Seq<char>> {
    match neighbour(folder, direction, settings) {
        Some(p) => if worth_preloading(p, current, chosen, cache, viewport, memory_policy, animation_timing) {
            chosen.push(p)
        } else {
            chosen
        },
        None => chosen,
    }
}

/// The paths to decode ahead: none while a decode runs or no image is shown;
/// otherwise the previous, then the next image, each when worth preloading.
pub open spec fn preload_paths(
    idle: bool,
    current: Option<Seq<char>>,
    folder: FolderView,
    settings: NavigationSettings,
    cache: Seq<NavigationPreloadCacheEntry>,
    viewport: ViewportSize,
    memory_policy: ImageMemoryPolicy,
    animation_timing: AnimationTimingSettings,
) -> Seq<Seq<char>> {
    match current {
        Some(c) => if idle {
            let first = choose_neighbour(
                Seq::empty(),
                folder,
                ImageNavigationDirection::Previous,
                settings,
                c,
                cache,
                viewport,
                memory_policy,
                animation_timing,
            );
            choose_neighbour(
                first,
                folder,
                ImageNavigationDirection::Next,
                settings,
                c,
                cache,
                viewport,
                memory_policy,
                animation_timing,
            )
        } else {
            Seq::empty()
        },
        None => Seq::empty(),
    }
}

/// Whether `path` is the image one step before or after the current one.
pub fn is_navigation_preload_target(folder: &ImageFolder, settings: NavigationSettings, path: &str) -> (target: bool)
    ensures
        target == preload_target(folder@, settings, path@),
{
    let previous = folder.navigation_path_for_attempt(ImageNavigationDirection::Previous, settings, 0);
    let previous_matches = match previous {
        Some(p) => paths_equal(p, path),
        None => false,
    };
    if previous_matches {
        return true;
    }
    match folder.navigation_path_for_attempt(ImageNavigationDirection::Next, settings, 0) {
        Some(p) => paths_equal(p, path),
        None => false,
    }
}

/// Whether `chosen` already holds `path`.
fn already_chosen(chosen: &Vec<String>, path: &str) -> (found: bool)
    ensures
        found == exists|k: int| 0 <= k < chosen@.len() && same_path(#[trigger] chosen@[k]@, path@),
{
    let mut index: usize = 0;
    while index < chosen.len()
        invariant
            0 <= index <= chosen@.len(),
            forall|k: int| 0 <= k < index ==> !same_path(#[trigger] chosen@[k]@, path@),
        decreases chosen@.len() - index,
    {
        if paths_equal(chosen[index].as_str(), path) {
            return true;
        }
        index = index + 1;
    }
    false
}

/// The texts of a list of paths.
pub open spec fn path_texts(paths: Seq<String>) -> Seq<Seq<char>> {
    paths.map_values(|p: String| p@)
}

/// Adds the neighbour in `direction` to `chosen` when it is worth preloading.
fn add_neighbour(
    chosen: &mut Vec<String>,
    folder: &ImageFolder,
    direction: ImageNavigationDirection,
    settings: NavigationSettings,
    current: &str,
    cache: &NavigationPreloadCache,
    viewport: ViewportSize,
    memory_policy: ImageMemoryPolicy,
    animation_timing: AnimationTimingSettings,
)
    ensures
        path_texts(final(chosen)@) == choose_neighbour(
            path_texts(old(chosen)@),
            folder@,
            direction,
            settings,
            current@,
            cache.entries(),
            viewport,
            memory_policy,
            animation_timing,
        ),
{
    let path = match folder.navigation_path_for_attempt(direction, settings, 0) {
        Some(p) => p,
        None => return,
    };
    let chosen_before = already_chosen(chosen, path);
    assert(chosen_before == exists|k: int|
        0 <= k < path_texts(chosen@).len() && same_path(#[trigger] path_texts(chosen@)[k], path@)) by {
        if chosen_before {
            let k = choose|k: int| 0 <= k < chosen@.len() && same_path(#[trigger] chosen@[k]@, path@);
            assert(path_texts(chosen@)[k] == chosen@[k]@);
        }
        if exists|k: int| 0 <= k < path_texts(chosen@).len() && same_path(#[trigger] path_texts(chosen@)[k], path@) {
            let k = choose|k: int|
                0 <= k < path_texts(chosen@).len() && same_path(#[trigger] path_texts(chosen@)[k], path@);
            assert(path_texts(chosen@)[k] == chosen@[k]@);
        }
    }
    if paths_equal(current, path) || chosen_before || cache.has_current(path, viewport, memory_policy, animation_timing) {
        return;
    }
    let ghost before = chosen@;
    chosen.push(path.to_string());
    assert(path_texts(chosen@) =~= path_texts(before).push(path@));
}

/// The paths to decode ahead of navigation, as in [`preload_paths`].
pub fn navigation_preload_paths(
    idle: bool,
    current: Option<&str>,
    folder: &ImageFolder,
    settings: NavigationSettings,
    cache: &NavigationPreloadCache,
    viewport: ViewportSize,
    memory_policy: ImageMemoryPolicy,
    animation_timing: AnimationTimingSettings,
) -> (paths: Vec<String>)
    ensures
        path_texts(paths@) == preload_paths(
            idle,
            match current {
                Some(c) => Some(c@),
                None => None,
            },
            folder@,
            settings,
            cache.entries(),
            viewport,
            memory_policy,
            animation_timing,
        ),
{
    let mut chosen: Vec<String> = Vec::new();
    assert(path_texts(chosen@) =~= Seq::<Seq<char>>::empty());
    let current = match current {
        Some(c) => c,
        None => return chosen,
    };
    if !idle {
        return chosen;
    }
    add_neighbour(
        &mut chosen,
        folder,
        ImageNavigationDirection::Previous,
        settings,
        current,
        cache,
        viewport,
        memory_policy,
        animation_timing,
    );
    add_neighbour(
        &mut chosen,
        folder,
        ImageNavigationDirection::Next,
        settings,
        current,
        cache,
        viewport,
        memory_policy,
        animation_timing,
    );
    chosen
}

/// The requests to decode the neighbours ahead of navigation: one for each
/// path of [`preload_paths`] (with the image shown, if any, as the current
/// one), under the coordinator's generation and for these settings.
pub fn navigation_preload_requests(
    coordinator: &ImageDecodeCoordinator,
    current: Option<&str>,
    folder: &ImageFolder,
    settings: NavigationSettings,
    cache: &NavigationPreloadCache,
    viewport: ViewportSize,
    memory_policy: ImageMemoryPolicy,
    animation_timing: AnimationTimingSettings,
) -> (requests: Vec<ImagePreloadRequest>)
    ensures
        ({
            let paths = preload_paths(
                coordinator.in_flight() is Idle,
                match current {
                    Some(c) => Some(c@),
                    None => None,
                },
                folder@,
                settings,
                cache.entries(),
                viewport,
                memory_policy,
                animation_timing,
            );
            &&& requests@.len() == paths.len()
            &&& forall|i: int|
                0 <= i < requests@.len() ==> {
                    &&& (#[trigger] requests@[i]).generation() == coordinator.generation()
                    &&& requests@[i].spec_path() == paths[i]
                    &&& requests@[i].viewport() == viewport
                    &&& requests@[i].memory_policy() == memory_policy
                    &&& requests@[i].animation_timing() == animation_timing
                }
        }),
{
    let paths = navigation_preload_paths(
        coordinator.is_idle(),
        current,
        folder,
        settings,
        cache,
        viewport,
        memory_policy,
        animation_timing,
    );
    let generation = coordinator.generation();
    let mut requests: Vec<ImagePreloadRequest> = Vec::new();
    let mut index: usize = 0;
    while index < paths.len()
        invariant
            0 <= index <= paths@.len(),
            requests@.len() == index,
            forall|i: int|
                0 <= i < index ==> {
                    &&& (#[trigger] requests@[i]).generation() == generation
                    &&& requests@[i].spec_path() == paths@[i]@
                    &&& requests@[i].viewport() == viewport
                    &&& requests@[i].memory_policy() == memory_policy
                    &&& requests@[i].animation_timing() == animation_timing
                },
        decreases paths@.len() - index,
    {
        let path = paths[index].clone();
        requests.push(ImagePreloadRequest::new(generation, path, viewport, memory_policy, animation_timing));
        index = index + 1;
    }
    assert forall|i: int| 0 <= i < requests@.len() implies (#[trigger] requests@[i]).spec_path() == path_texts(
        paths@,
    )[i] by {}
    requests
}

/// Whether a finished preload is still wanted: it belongs to the current
/// generation, was decoded for the current settings, holds the image it was
/// asked for, and that image is still next to the current one.
pub open spec fn preload_is_current(
    active: crate::scaling::DecodeGeneration,
    folder: FolderView,
    settings: NavigationSettings,
    viewport: ViewportSize,
    memory_policy: ImageMemoryPolicy,
    animation_timing: AnimationTimingSettings,
    request: ImagePreloadRequest,
    image_path: Seq<char>,
) -> bool {
    &&& request.generation().value() == active.value()
    &&& request.viewport() == viewport
    &&& request.memory_policy() == memory_policy
    &&& request.animation_timing() == animation_timing
    &&& same_path(request.spec_path(), image_path)
    &&& preload_target(folder, settings, request.spec_path())
}

/// Keeps a finished preload under `path_key` when it is still wanted (see
/// [`preload_is_current`]) and reports it applied; reports it stale and
/// leaves the cache unchanged otherwise.
pub fn store_preloaded_navigation_image(
    cache: &mut NavigationPreloadCache,
    coordinator: &ImageDecodeCoordinator,
    folder: &ImageFolder,
    settings: NavigationSettings,
    viewport: ViewportSize,
    memory_policy: ImageMemoryPolicy,
    animation_timing: AnimationTimingSettings,
    request: &ImagePreloadRequest,
    path_key: u64,
    image: LoadedImage,
    last_used: u64,
) -> (outcome: DecodeApplyOutcome)
    ensures
        ({
            let current = preload_is_current(
                coordinator.generation(),
                folder@,
                settings,
                viewport,
                memory_policy,
                animation_timing,
                *request,
                image.spec_metadata().spec_path(),
            );
            &&& !current ==> outcome == DecodeApplyOutcome::Stale && final(cache).entries() == old(cache).entries()
            &&& current ==> outcome == DecodeApplyOutcome::Applied && stores(
                old(cache).entries(),
                NavigationPreloadCacheEntry {
                    path_key,
                    image,
                    viewport: request.viewport(),
                    memory_policy: request.memory_policy(),
                    animation_timing: request.animation_timing(),
                    last_used,
                },
                final(cache).entries(),
            )
        }),
{
    if coordinator.is_stale(request.generation()) || request.viewport() != viewport || request.memory_policy()
        != memory_policy || request.animation_timing() != animation_timing || !paths_equal(
        request.path(),
        image.metadata().path(),
    ) || !is_navigation_preload_target(folder, settings, request.path()) {
        return DecodeApplyOutcome::Stale;
    }
    cache.store(
        path_key,
        image,
        request.viewport(),
        request.memory_policy(),
        request.animation_timing(),
        last_used,
    );
    DecodeApplyOutcome::Applied
}

} // verus!

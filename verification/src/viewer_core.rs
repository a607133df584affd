//! The viewer's state between events, and the steps that take it from one
//! event to the next: showing a decoded image, rotating it, taking new
//! settings, and holding the caches to the memory policy. The view's zoom
//! and pan, which are fractional, are kept by the caller beside this state.
use vstd::prelude::*;

use crate::animation::AnimationPlaybackState;
use crate::animation_frames::PendingAnimationFrame;
use crate::cache_policy::{
    current_display_orientation, enforce_memory_policy, frames_after, listed_entries, policy_evicts, preloads_after,
    protected_bytes, protected_key, resident_frame_entries, resident_frames_evicted, shown_bytes, shown_orientation,
};
use crate::frame_cache::frame_memory_entry;
use crate::memory::{evictions, is_eviction_order, lemma_evicted_slots_are_listed, total_bytes};
use crate::preload_cache::preload_memory_entry;
use crate::render_cache::{oriented_entries, scaled_entries};
use crate::commands::{Command, ImageNavigationDirection};
use crate::config_apply::{apply_viewer_config, settings_applied};
use crate::config_file::ViewerConfig;
use crate::decode::{following, DecodeInFlight, ImageDecodeCoordinator, ImageDecodeRequest};
use crate::decode::{DecodeFailurePresentation, NavigationDecodeState};
use crate::decode_results::{
    begin_navigation_decode_attempt, finish_failed_initial_decode, initial_failure_handled,
    is_current_folder_scan_pending, scan_pending_for_shown, PendingFolderScan,
};
use crate::folder::stepped_index;
use crate::export::{
    clamped_quality, suggested_export_path_with_suffix, suggested_path, ExportFormat, ExportOptions,
    SupportedImageFormat, DEFAULT_EXPORT_QUALITY,
};
use crate::folder::{current_match, ImageFolder};
use crate::frame_cache::{AnimationFrameCache, AnimationFrameCacheEntry};
use crate::geometry::{ImageRotation, ImageSize, ViewportSize};
use crate::loaded::{display_file_name, ImageState, LoadedImage};
use crate::memory::{saturated, ImageMemoryPolicy};
use crate::paths::{paths_equal, same_path};
use crate::preload_cache::{NavigationPreloadCache, NavigationPreloadCacheEntry};
use crate::render_cache::RenderCache;
use crate::scaling::{DecodeGeneration, ImageCacheSlot};
use crate::viewer::{
    command_outcome, image_title, parent_folder, parent_folder_of, title_text, AppCommandOutcome, ImageDecodePurpose,
    DEFAULT_TITLE,
};

verus! {

broadcast use crate::scaling::MemoryCacheEntry::lemma_spec_new;

/// What the viewer holds between events. Every step below is stated for
/// every value of it, so no invariant ties its fields together, and they are
/// open to the caller that keeps the view beside them.
pub struct ViewerCore {
    pub title: String,
    pub config: ViewerConfig,
    pub viewport: ViewportSize,
    pub image_state: ImageState,
    pub decode: ImageDecodeCoordinator,
    pub memory_policy: ImageMemoryPolicy,
    pub image_folder: ImageFolder,
    pub preloads: NavigationPreloadCache,
    pub image_revision: u64,
    pub user_rotation: ImageRotation,
    pub render: RenderCache,
    pub frames: AnimationFrameCache,
    pub pending_frame: Option<PendingAnimationFrame>,
    pub pending_folder_scan: Option<PendingFolderScan>,
    pub pending_navigation_after_folder_scan: Option<ImageNavigationDirection>,
    pub status_message: Option<String>,
    pub defer_next_paint_scaling: bool,
    pub paint_count: u64,
}

/// The window title for what is shown: the viewer's name alone, or the
/// image's title.
pub open spec fn shown_title(state: ImageState, user_rotation: ImageRotation) -> Seq<char> {
    match state {
        ImageState::Empty => "j3Pic"@,
        ImageState::Loaded(image) => title_text(
            display_file_name(image.spec_metadata().spec_path()),
            image.spec_metadata().exif_orientation(),
            user_rotation,
        ),
    }
}

/// `after` is `before` with its caches held to its memory policy: the
/// evictions are those [`policy_evicts`] allows for the listed entries, and
/// `cleared` says whether the resident animation frames were among them;
/// nothing else changed.
pub open spec fn caches_held_to_policy(before: ViewerCore, after: ViewerCore, resident: usize, cleared: bool) -> bool {
    let protected = protected_key(before.image_state, before.user_rotation, before.image_revision);
    let entries = listed_entries(
        before.render.oriented(),
        before.render.scaled(),
        protected,
        resident,
        before.frames.entries(),
        before.preloads.entries(),
    );
    let base = saturated(shown_bytes(before.image_state) + protected_bytes(before.render.oriented(), protected));
    &&& exists|slots: Seq<ImageCacheSlot>|
        #![trigger policy_evicts(entries, base, before.memory_policy, slots)]
        {
            &&& policy_evicts(entries, base, before.memory_policy, slots)
            &&& after.render.oriented() == (if slots.contains(ImageCacheSlot::OrientedImage) {
                None
            } else {
                before.render.oriented()
            })
            &&& after.render.scaled() == (if slots.contains(ImageCacheSlot::ScaledImage) {
                None
            } else {
                before.render.scaled()
            })
            &&& after.frames.entries() == frames_after(before.frames.entries(), slots)
            &&& after.preloads.entries() == preloads_after(before.preloads.entries(), slots)
            &&& cleared == resident_frames_evicted(slots)
        }
    &&& after == ViewerCore { render: after.render, frames: after.frames, preloads: after.preloads, ..before }
}

/// Holding the caches to the policy never drops the upright copy the shown
/// image is drawn from (the protected one), nor the shown image itself.
pub proof fn law_protected_display_copy_is_kept(before: ViewerCore, after: ViewerCore, resident: usize, cleared: bool)
    requires
        caches_held_to_policy(before, after, resident, cleared),
        before.render.oriented() matches Some(cache) && protected_key(
            before.image_state,
            before.user_rotation,
            before.image_revision,
        ) == Some(cache.key),
    ensures
        after.render.oriented() == before.render.oriented(),
        after.image_state == before.image_state,
{
    let protected = protected_key(before.image_state, before.user_rotation, before.image_revision);
    let entries = listed_entries(
        before.render.oriented(),
        before.render.scaled(),
        protected,
        resident,
        before.frames.entries(),
        before.preloads.entries(),
    );
    let base = saturated(shown_bytes(before.image_state) + protected_bytes(before.render.oriented(), protected));
    let slots = choose|slots: Seq<ImageCacheSlot>|
        #![trigger policy_evicts(entries, base, before.memory_policy, slots)]
        {
            &&& policy_evicts(entries, base, before.memory_policy, slots)
            &&& after.render.oriented() == (if slots.contains(ImageCacheSlot::OrientedImage) {
                None
            } else {
                before.render.oriented()
            })
            &&& after.render.scaled() == (if slots.contains(ImageCacheSlot::ScaledImage) {
                None
            } else {
                before.render.scaled()
            })
            &&& after.frames.entries() == frames_after(before.frames.entries(), slots)
            &&& after.preloads.entries() == preloads_after(before.preloads.entries(), slots)
            &&& cleared == resident_frames_evicted(slots)
        };
    let order = choose|order: Seq<usize>|
        is_eviction_order(entries, order) && slots == evictions(
            entries,
            order,
            saturated(base + total_bytes(entries)),
            entries.len() as int,
            before.memory_policy,
        );
    if slots.contains(ImageCacheSlot::OrientedImage) {
        lemma_evicted_slots_are_listed(
            entries,
            order,
            saturated(base + total_bytes(entries)),
            entries.len() as int,
            before.memory_policy,
            ImageCacheSlot::OrientedImage,
        );
        let k = choose|k: int| 0 <= k < order.len() && ImageCacheSlot::OrientedImage == (#[trigger] entries[order[k] as int]).slot();
        let i = order[k] as int;
        let scaled = scaled_entries(before.render.scaled());
        let resident_entries = resident_frame_entries(resident);
        let frames = before.frames.entries().map_values(|entry| frame_memory_entry(entry));
        let preloads = before.preloads.entries().map_values(|entry| preload_memory_entry(entry));
        assert(oriented_entries(before.render.oriented(), protected).len() == 0);
        assert(entries =~= scaled + resident_entries + frames + preloads);
        if i < scaled.len() {
            assert(entries[i] == scaled[i]);
            assert(scaled[i].slot() == ImageCacheSlot::ScaledImage);
        } else if i < scaled.len() + resident_entries.len() {
            assert(entries[i] == resident_entries[i - scaled.len()]);
            assert(resident_entries[i - scaled.len()].slot() is AnimationFrame);
        } else if i < scaled.len() + resident_entries.len() + frames.len() {
            let j = i - scaled.len() - resident_entries.len();
            assert(entries[i] == frames[j]);
            assert(frames[j] == frame_memory_entry(before.frames.entries()[j]));
            assert(frames[j].slot() is AnimationFrame);
        } else {
            let j = i - scaled.len() - resident_entries.len() - frames.len();
            assert(entries[i] == preloads[j]);
            assert(preloads[j] == preload_memory_entry(before.preloads.entries()[j]));
            assert(preloads[j].slot() is NavigationPreload);
        }
    }
}

/// The revision after `revision`, wrapping to zero after the last one.
pub open spec fn next_revision(revision: u64) -> u64 {
    if revision == u64::MAX {
        0
    } else {
        (revision + 1) as u64
    }
}

/// `after` shows `image`, with the autoplay setting of `before` applied to
/// it, in place of what `before` showed (see [`replaced_state`]), and its
/// caches are then held to the policy.
pub open spec fn shows_replacement(before: ViewerCore, image: LoadedImage, after: ViewerCore, resident: usize, cleared: bool) -> bool {
    &&& after.image_state matches ImageState::Loaded(shown) && autoplay_applied(image, shown, before.config@.animation_autoplay)
        && exists|mid: ViewerCore| #![trigger replaced_state(before, shown, mid)]
            replaced_state(before, shown, mid) && caches_held_to_policy(mid, after, resident, cleared)
}

/// The playback state an autoplay setting starts an animation in.
pub open spec fn autoplay_state(autoplay: bool) -> AnimationPlaybackState {
    if autoplay {
        AnimationPlaybackState::Playing
    } else {
        AnimationPlaybackState::Paused
    }
}

/// `shown` is `image` with the autoplay setting applied to its animation, if
/// it has one: the same frame, playing or paused as the setting says.
pub open spec fn autoplay_applied(image: LoadedImage, shown: LoadedImage, autoplay: bool) -> bool {
    match image.spec_animation() {
        Some(a) => shown.spec_animation() matches Some(b) && shown == image.spec_with_animation(b) && b@ == a@.at_frame(
            a@.current,
            autoplay_state(autoplay),
            a@.completed_loops,
        ),
        None => shown == image,
    }
}

/// The state right after `shown` replaces what `before` showed, before the
/// caches are held to the policy: a new revision without rotation, its
/// folder remembered as the recent one, nothing in flight, waited for,
/// cached or preloaded, no status, and its title.
pub open spec fn replaced_state(before: ViewerCore, shown: LoadedImage, after: ViewerCore) -> bool {
    &&& after.config@ == (crate::config_file::ViewerConfigView {
        recent_folder: crate::config_file::kept_folder(parent_folder_of(shown.spec_metadata().spec_path())),
        ..before.config@
    })
    &&& after.image_state == ImageState::Loaded(shown)
    &&& after.decode.generation() == before.decode.generation()
    &&& after.decode.in_flight() is Idle
    &&& after.image_revision == next_revision(before.image_revision)
    &&& after.user_rotation == ImageRotation::Degrees0
    &&& after.status_message is None
    &&& after.render.oriented() is None
    &&& after.render.scaled() is None
    &&& after.frames.entries() == Seq::<AnimationFrameCacheEntry>::empty()
    &&& after.preloads.entries() == Seq::<NavigationPreloadCacheEntry>::empty()
    &&& after.pending_frame is None
    &&& after.pending_folder_scan is None
    &&& after.pending_navigation_after_folder_scan is None
    &&& after.defer_next_paint_scaling
    &&& after.title@ == shown_title(after.image_state, ImageRotation::Degrees0)
    &&& after.viewport == before.viewport
    &&& after.memory_policy == before.memory_policy
    &&& after.image_folder == before.image_folder
    &&& after.paint_count == before.paint_count
}

/// What showing a decoded image did: nothing, since it is not the image the
/// viewer waits for; shown it (saying whether the resident animation frames
/// must be cleared); or nothing yet, since the folder the viewer holds does not
/// list the image it navigated to, which must be scanned for it first.
#[derive(Debug)]
pub enum DecodedImageStep {
    Stale,
    Applied(bool),
    NeedsFolderScan(LoadedImage),
}

/// Why the viewer waits for the image decode of `generation` of the file at
/// `path`: none when `generation` is not the current one, or the decode in
/// flight is of another generation, of another file, or of a full resolution.
pub open spec fn awaited_purpose(decode: ImageDecodeCoordinator, generation: DecodeGeneration, path: Seq<char>) -> Option<
    ImageDecodePurpose,
> {
    match decode.in_flight() {
        DecodeInFlight::Loading { generation: g, path: p, purpose, .. } => if generation.value()
            == decode.generation().value() && g.value() == generation.value() && purpose
            != ImageDecodePurpose::FullResolution && same_path(p, path) {
            Some(purpose)
        } else {
            None
        },
        DecodeInFlight::Idle => None,
    }
}

/// `after` is `before` turned to `rotation`, when an image is shown and it
/// was not turned so already: its render copies dropped and its title
/// renewed. Otherwise nothing changed.
pub open spec fn rotated(before: ViewerCore, rotation: ImageRotation, after: ViewerCore, changed: bool) -> bool {
    &&& changed == (before.image_state is Loaded && rotation != before.user_rotation)
    &&& !changed ==> after == before
    &&& changed ==> {
        &&& after.render.oriented() is None
        &&& after.render.scaled() is None
        &&& after.title@ == shown_title(before.image_state, rotation)
        &&& after == ViewerCore { user_rotation: rotation, render: after.render, title: after.title, ..before }
    }
}

/// `before` showing the images of `folder`.
pub open spec fn with_folder(before: ViewerCore, folder: ImageFolder) -> ViewerCore {
    ViewerCore { image_folder: folder, ..before }
}

/// `before` waiting for no folder scan.
pub open spec fn without_folder_scan(before: ViewerCore) -> ViewerCore {
    ViewerCore { pending_folder_scan: None, ..before }
}

/// `before` with no status message.
pub open spec fn without_status(before: ViewerCore) -> ViewerCore {
    ViewerCore { status_message: None, ..before }
}

/// `after` is `before` with the settings `next` taken (see
/// [`settings_applied`]), the memory policy they give, and its title renewed.
pub open spec fn settings_taken(
    before: ViewerCore,
    next: ViewerConfig,
    zoom_changed: bool,
    request_scale_changed: bool,
    after: ViewerCore,
) -> bool {
    &&& after.config@ == next@
    &&& after.memory_policy == ImageMemoryPolicy::spec_from_limits(next@.memory)
    &&& settings_applied(
        before.config@,
        next,
        zoom_changed,
        request_scale_changed,
        before.image_state,
        after.image_state,
        before.pending_frame,
        after.pending_frame,
        before.render,
        after.render,
        before.preloads.entries(),
        after.preloads.entries(),
    )
    &&& after.title@ == shown_title(after.image_state, after.user_rotation)
    &&& after == ViewerCore {
        config: after.config,
        memory_policy: after.memory_policy,
        image_state: after.image_state,
        pending_frame: after.pending_frame,
        render: after.render,
        preloads: after.preloads,
        title: after.title,
        ..before
    }
}

/// Where navigating in `direction` from what `before` shows leads at attempt
/// `attempt_index` (see [`stepped_index`]), if anywhere.
pub open spec fn navigation_index(before: ViewerCore, direction: ImageNavigationDirection, attempt_index: usize) -> Option<int> {
    stepped_index(
        before.image_folder@.paths.len() as int,
        before.image_folder@.current,
        direction,
        before.config@.wrap_navigation,
        attempt_index as int,
    )
}

/// `after` and `request` are what starting navigation attempt
/// `attempt_index` in `direction` from `before` gives: when the folder has an
/// image there, a decode of it under the next generation, remembering the
/// direction and attempt, with the status message, the pending animation
/// frame and the folder scan and navigation waited for dropped; otherwise no
/// request and nothing changed.
pub open spec fn navigation_begun(
    before: ViewerCore,
    direction: ImageNavigationDirection,
    attempt_index: usize,
    request: Option<ImageDecodeRequest>,
    after: ViewerCore,
) -> bool {
    match navigation_index(before, direction, attempt_index) {
        Some(i) => {
            &&& request matches Some(r) && r.generation() == after.decode.generation() && r.spec_path()
                == before.image_folder@.paths[i] && r.file_version() is None && r.viewport() == before.viewport
                && r.memory_policy() == before.memory_policy && r.animation_timing()
                == before.config.spec_animation_timing() && r.purpose() == ImageDecodePurpose::FolderNavigation(
                direction,
            )
            &&& after.decode.generation().value() == following(before.decode.generation())
            &&& after.decode.in_flight() == (DecodeInFlight::Loading {
                generation: after.decode.generation(),
                path: before.image_folder@.paths[i],
                file_version: None,
                purpose: ImageDecodePurpose::FolderNavigation(direction),
                navigation: Some(NavigationDecodeState { direction, attempt_index }),
            })
            &&& after == ViewerCore {
                decode: after.decode,
                status_message: None,
                pending_frame: None,
                pending_folder_scan: None,
                pending_navigation_after_folder_scan: None,
                ..before
            }
        },
        None => request is None && after == before,
    }
}

/// What a command asks of the viewer beyond this state: nothing more (with
/// its outcome), moving to another image of the folder, or a change of the
/// view's zoom, which the caller keeps.
#[derive(Debug, Clone, Copy, PartialEq, Eq, Structural)]
pub enum CommandStep {
    Done(AppCommandOutcome),
    Navigate(ImageNavigationDirection),
    View(Command),
}

impl ViewerCore {
    /// Nothing shown yet under `config`: the viewer's name as the title, an
    /// empty viewport and folder, generation zero, and the memory policy the
    /// settings give.
    pub fn with_config(config: ViewerConfig) -> (core: Self)
        ensures
            core.title@ == "j3Pic"@,
            core.config@ == config@,
            core.viewport.width() == 0 && core.viewport.height() == 0,
            core.image_state == ImageState::Empty,
            core.decode.generation().value() == 0,
            core.decode.in_flight() is Idle,
            core.memory_policy == ImageMemoryPolicy::spec_from_limits(config@.memory),
            core.image_folder@.paths.len() == 0,
            core.image_folder@.current is None,
            core.preloads.entries() == Seq::<NavigationPreloadCacheEntry>::empty(),
            core.image_revision == 0,
            core.user_rotation == ImageRotation::Degrees0,
            core.render.oriented() is None,
            core.render.scaled() is None,
            core.frames.entries() == Seq::<AnimationFrameCacheEntry>::empty(),
            core.pending_frame is None,
            core.pending_folder_scan is None,
            core.pending_navigation_after_folder_scan is None,
            core.status_message is None,
            !core.defer_next_paint_scaling,
            core.paint_count == 0,
    {
        let memory_policy = config.image_memory_policy();
        proof {
            reveal_strlit("j3Pic");
        }
        ViewerCore {
            title: String::from_str(DEFAULT_TITLE),
            config,
            viewport: ViewportSize::empty(),
            image_state: ImageState::Empty,
            decode: ImageDecodeCoordinator::new(),
            memory_policy,
            image_folder: ImageFolder::empty(),
            preloads: NavigationPreloadCache::new(),
            image_revision: 0,
            user_rotation: ImageRotation::Degrees0,
            render: RenderCache::new(),
            frames: AnimationFrameCache::new(),
            pending_frame: None,
            pending_folder_scan: None,
            pending_navigation_after_folder_scan: None,
            status_message: None,
            defer_next_paint_scaling: false,
            paint_count: 0,
        }
    }

    /// Sets the title for what is shown (see [`shown_title`]).
    pub fn update_title(&mut self)
        ensures
            final(self).title@ == shown_title(old(self).image_state, old(self).user_rotation),
            *final(self) == (ViewerCore { title: final(self).title, ..*old(self) }),
    {
        let title = match &self.image_state {
            ImageState::Empty => {
                proof {
                    reveal_strlit("j3Pic");
                }
                String::from_str(DEFAULT_TITLE)
            },
            ImageState::Loaded(image) => image_title(image, self.user_rotation),
        };
        self.title = title;
    }

    /// The revision after this one, wrapping to zero after the last one.
    fn advance_revision(&mut self)
        ensures
            *final(self) == (ViewerCore { image_revision: next_revision(old(self).image_revision), ..*old(self) }),
    {
        self.image_revision = if self.image_revision == u64::MAX {
            0
        } else {
            self.image_revision + 1
        };
    }

    /// The shown image's pixels changed (a new frame, or its full
    /// resolution): a new revision, its render copies dropped, the scaled
    /// copy of the next paint put off, and the caches then held to the
    /// policy.
    pub fn note_new_pixels(&mut self, resident: usize) -> (clear_resident_frames: bool)
        ensures
            exists|renewed: ViewerCore|
                #![trigger caches_held_to_policy(renewed, *final(self), resident, clear_resident_frames)]
                {
                    &&& renewed.render.oriented() is None
                    &&& renewed.render.scaled() is None
                    &&& renewed == ViewerCore {
                        image_revision: next_revision(old(self).image_revision),
                        render: renewed.render,
                        defer_next_paint_scaling: true,
                        ..*old(self)
                    }
                    &&& caches_held_to_policy(renewed, *final(self), resident, clear_resident_frames)
                },
    {
        self.advance_revision();
        self.render.clear_all();
        self.defer_next_paint_scaling = true;
        let ghost renewed = *self;
        let cleared = self.enforce_memory_policy(resident);
        assert(caches_held_to_policy(renewed, *self, resident, cleared));
        cleared
    }

    /// Shows `image` in place of what is shown (see [`shows_replacement`]):
    /// its animation starts as the autoplay setting says, its folder becomes
    /// the recent one, and every decode, cache, preload and wait of the
    /// previous image is dropped before the memory policy is applied.
    pub fn replace_loaded_image_state(&mut self, image: LoadedImage, resident: usize) -> (clear_resident_frames: bool)
        ensures
            shows_replacement(*old(self), image, *final(self), resident, clear_resident_frames),
            final(self).render.oriented() is None,
            final(self).render.scaled() is None,
            final(self).frames.entries() == Seq::<AnimationFrameCacheEntry>::empty(),
            final(self).preloads.entries() == Seq::<NavigationPreloadCacheEntry>::empty(),
    {
        let ghost original = image;
        let mut image = image;
        let autoplay = self.config.animation_autoplay();
        let playback = match image.animation() {
            Some(playback) => Some(playback.with_autoplay(autoplay)),
            None => None,
        };
        match playback {
            Some(playback) => {
                let replaced = image.set_animation_playback(playback);
                assert(replaced);
            },
            None => {},
        }
        let ghost shown = image;
        let folder = parent_folder(image.metadata().path());
        self.config.set_recent_folder(folder);
        self.decode.clear();
        self.image_state = ImageState::Loaded(image);
        self.advance_revision();
        self.user_rotation = ImageRotation::Degrees0;
        self.status_message = None;
        self.render.clear_all();
        self.defer_next_paint_scaling = true;
        self.frames.clear();
        self.preloads.clear();
        self.pending_frame = None;
        self.pending_folder_scan = None;
        self.pending_navigation_after_folder_scan = None;
        self.update_title();
        let ghost mid = *self;
        assert(replaced_state(*old(self), shown, mid));
        let cleared = self.enforce_memory_policy(resident);
        assert(autoplay_applied(original, shown, old(self).config@.animation_autoplay));
        cleared
    }

    /// Shows `image` from `folder` (see [`Self::replace_loaded_image_state`]).
    pub fn replace_loaded_image(&mut self, image: LoadedImage, folder: ImageFolder, resident: usize) -> (clear_resident_frames: bool)
        ensures
            shows_replacement(
                with_folder(*old(self), folder),
                image,
                *final(self),
                resident,
                clear_resident_frames,
            ),
    {
        self.image_folder = folder;
        self.replace_loaded_image_state(image, resident)
    }

    /// Shows an image decoded for `generation`, with the folder scanned for it
    /// when it was opened. Stale unless it is the image the viewer waits for
    /// (see [`awaited_purpose`]). An image navigated to is shown when the
    /// folder lists it, which becomes its current image; otherwise it is
    /// given back to be shown with its scanned folder. An opened image is
    /// shown with `folder`, and its folder scan is waited for.
    #[verifier::rlimit(30)]
    pub fn apply_decoded_image(
        &mut self,
        generation: DecodeGeneration,
        image: LoadedImage,
        folder: ImageFolder,
        resident: usize,
    ) -> (step: DecodedImageStep)
        ensures
            awaited_purpose(old(self).decode, generation, image.spec_metadata().spec_path()) is None ==> step is Stale
                && *final(self) == *old(self),
            awaited_purpose(old(self).decode, generation, image.spec_metadata().spec_path()) matches Some(purpose)
                && purpose is FolderNavigation && !current_match(
                old(self).image_folder@.paths,
                image.spec_metadata().spec_path(),
                None,
            ) ==> {
                &&& step matches DecodedImageStep::Applied(cleared) && shows_replacement(
                    with_folder(*old(self), final(self).image_folder),
                    image,
                    *final(self),
                    resident,
                    cleared,
                )
                &&& final(self).image_folder@.paths == old(self).image_folder@.paths
                &&& current_match(
                    final(self).image_folder@.paths,
                    image.spec_metadata().spec_path(),
                    final(self).image_folder@.current,
                )
            },
            awaited_purpose(old(self).decode, generation, image.spec_metadata().spec_path()) matches Some(purpose)
                && purpose is FolderNavigation && current_match(
                old(self).image_folder@.paths,
                image.spec_metadata().spec_path(),
                None,
            ) ==> step == DecodedImageStep::NeedsFolderScan(image) && *final(self) == *old(self),
            awaited_purpose(old(self).decode, generation, image.spec_metadata().spec_path()) matches Some(purpose)
                && !(purpose is FolderNavigation) ==> (step matches DecodedImageStep::Applied(cleared)
                && final(self).pending_folder_scan matches Some(scan) && scan.generation == generation && scan.path@
                == image.spec_metadata().spec_path() && shows_replacement(
                with_folder(*old(self), folder),
                image,
                without_folder_scan(*final(self)),
                resident,
                cleared,
            )),
    {
        if self.decode.is_stale(generation) {
            return DecodedImageStep::Stale;
        }
        let purpose = match self.decode.active_initial_state(generation) {
            Some((purpose, _)) => purpose,
            None => return DecodedImageStep::Stale,
        };
        let awaited = match self.decode.active_initial_path(generation) {
            Some(path) => paths_equal(path, image.metadata().path()),
            None => false,
        };
        if !awaited {
            return DecodedImageStep::Stale;
        }
        if purpose.is_folder_navigation() {
            self.replace_loaded_navigation_image(image, resident)
        } else {
            let path = image.metadata().path().to_string();
            assert(*self == *old(self));
            let cleared = self.replace_loaded_image(image, folder, resident);
            let ghost shown = *self;
            self.pending_folder_scan = Some(PendingFolderScan { generation, path });
            assert(without_folder_scan(*self) == shown);
            DecodedImageStep::Applied(cleared)
        }
    }

    /// The size the shown image is drawn at before zooming: its source size
    /// turned to its display orientation; none without an image.
    pub fn current_view_image_size(&self) -> (size: Option<ImageSize>)
        ensures
            match self.image_state {
                ImageState::Loaded(image) => size == Some(
                    image.spec_source_size().oriented(shown_orientation(self.image_state, self.user_rotation)->0),
                ),
                ImageState::Empty => size is None,
            },
    {
        match (&self.image_state, current_display_orientation(&self.image_state, self.user_rotation)) {
            (ImageState::Loaded(image), Some(orientation)) => Some(image.source_size().with_orientation(orientation)),
            _ => None,
        }
    }

    /// Shows an image navigated to, when the folder lists it; it becomes the
    /// folder's current image. Otherwise the image is given back, to be shown
    /// with the folder scanned for it.
    pub fn replace_loaded_navigation_image(&mut self, image: LoadedImage, resident: usize) -> (step: DecodedImageStep)
        ensures
            !current_match(old(self).image_folder@.paths, image.spec_metadata().spec_path(), None) ==> {
                &&& step matches DecodedImageStep::Applied(cleared) && shows_replacement(
                    with_folder(*old(self), final(self).image_folder),
                    image,
                    *final(self),
                    resident,
                    cleared,
                )
                &&& final(self).image_folder@.paths == old(self).image_folder@.paths
                &&& current_match(
                    final(self).image_folder@.paths,
                    image.spec_metadata().spec_path(),
                    final(self).image_folder@.current,
                )
            },
            current_match(old(self).image_folder@.paths, image.spec_metadata().spec_path(), None) ==> step
                == DecodedImageStep::NeedsFolderScan(image) && *final(self) == *old(self),
    {
        if self.image_folder.retarget_current_path(image.metadata().path()) {
            let ghost retargeted = *self;
            assert(retargeted == with_folder(*old(self), retargeted.image_folder));
            let cleared = self.replace_loaded_image_state(image, resident);
            assert(self.image_folder == retargeted.image_folder);
            assert(shows_replacement(with_folder(*old(self), self.image_folder), image, *self, resident, cleared));
            DecodedImageStep::Applied(cleared)
        } else {
            DecodedImageStep::NeedsFolderScan(image)
        }
    }

    /// Starts navigation attempt `attempt_index` in `direction` (see
    /// [`navigation_begun`]).
    fn begin_navigation_attempt(
        &mut self,
        direction: ImageNavigationDirection,
        attempt_index: usize,
    ) -> (request: Option<ImageDecodeRequest>)
        ensures
            navigation_begun(*old(self), direction, attempt_index, request, *final(self)),
    {
        let settings = self.config.navigation_settings();
        let timing = self.config.animation_timing_settings();
        let request = begin_navigation_decode_attempt(
            &mut self.decode,
            &self.image_folder,
            settings,
            self.viewport,
            self.memory_policy,
            timing,
            direction,
            attempt_index,
        );
        if request.is_some() {
            self.status_message = None;
            self.pending_frame = None;
            self.pending_folder_scan = None;
            self.pending_navigation_after_folder_scan = None;
        }
        request
    }

    /// Starts decoding the next image in `direction` (see
    /// [`navigation_begun`]). When there is none yet while the folder scan
    /// of the shown image is still waited for, the navigation waits for the
    /// scan.
    pub fn begin_navigation_decode(&mut self, direction: ImageNavigationDirection) -> (request: Option<
        ImageDecodeRequest,
    >)
        ensures
            navigation_index(*old(self), direction, 0) is Some ==> navigation_begun(
                *old(self),
                direction,
                0,
                request,
                *final(self),
            ),
            navigation_index(*old(self), direction, 0) is None ==> request is None && *final(self) == (ViewerCore {
                pending_navigation_after_folder_scan: if scan_pending_for_shown(
                    old(self).pending_folder_scan,
                    old(self).image_state,
                    old(self).decode.generation(),
                ) {
                    Some(direction)
                } else {
                    old(self).pending_navigation_after_folder_scan
                },
                ..*old(self)
            }),
    {
        let request = self.begin_navigation_attempt(direction, 0);
        if request.is_none() && is_current_folder_scan_pending(&self.pending_folder_scan, &self.image_state, &self.decode) {
            self.pending_navigation_after_folder_scan = Some(direction);
        }
        request
    }

    /// Starts the navigation that waited for the folder scan, if one did
    /// (see [`navigation_begun`]); the wait is over either way.
    pub fn take_pending_navigation_after_folder_scan(&mut self) -> (request: Option<ImageDecodeRequest>)
        ensures
            match old(self).pending_navigation_after_folder_scan {
                None => request is None && *final(self) == *old(self),
                Some(direction) => navigation_begun(
                    ViewerCore { pending_navigation_after_folder_scan: None, ..*old(self) },
                    direction,
                    0,
                    request,
                    *final(self),
                ),
            },
    {
        let direction = match self.pending_navigation_after_folder_scan {
            Some(direction) => direction,
            None => return None,
        };
        self.pending_navigation_after_folder_scan = None;
        self.begin_navigation_attempt(direction, 0)
    }

    /// Handles a failed decode of an image being opened or navigated to (see
    /// [`initial_failure_handled`], with `reason` as the status line words the
    /// failure): a retried navigation drops what the failed one waited for,
    /// and a reported failure becomes the status message.
    pub fn finish_failed_initial_decode(&mut self, generation: DecodeGeneration, reason: &str) -> (presentation:
        DecodeFailurePresentation)
        ensures
            exists|status: Option<String>|
                #![trigger initial_failure_handled(old(self).decode, final(self).decode, old(self).image_folder, old(self).config.spec_navigation_settings(), old(self).viewport, old(self).memory_policy, old(self).config.spec_animation_timing(), generation, reason@, old(self).config@.ui_language, presentation, status)]
                {
                    &&& initial_failure_handled(
                        old(self).decode,
                        final(self).decode,
                        old(self).image_folder,
                        old(self).config.spec_navigation_settings(),
                        old(self).viewport,
                        old(self).memory_policy,
                        old(self).config.spec_animation_timing(),
                        generation,
                        reason@,
                        old(self).config@.ui_language,
                        presentation,
                        status,
                    )
                    &&& if presentation is RetryNavigation {
                        *final(self) == (ViewerCore {
                            decode: final(self).decode,
                            status_message: None,
                            pending_frame: None,
                            pending_folder_scan: None,
                            pending_navigation_after_folder_scan: None,
                            ..*old(self)
                        })
                    } else {
                        *final(self) == (ViewerCore {
                            decode: final(self).decode,
                            status_message: if status is Some {
                                status
                            } else {
                                old(self).status_message
                            },
                            ..*old(self)
                        })
                    }
                },
    {
        let settings = self.config.navigation_settings();
        let timing = self.config.animation_timing_settings();
        let language = self.config.ui_language();
        let (presentation, status) = finish_failed_initial_decode(
            &mut self.decode,
            &self.image_folder,
            settings,
            self.viewport,
            self.memory_policy,
            timing,
            generation,
            reason,
            language,
        );
        let ghost reported = status;
        let retried = match presentation {
            DecodeFailurePresentation::RetryNavigation(_) => true,
            _ => false,
        };
        if retried {
            self.status_message = None;
            self.pending_frame = None;
            self.pending_folder_scan = None;
            self.pending_navigation_after_folder_scan = None;
        } else {
            match status {
                Some(text) => self.status_message = Some(text),
                None => {},
            }
        }
        assert(initial_failure_handled(
            old(self).decode,
            self.decode,
            old(self).image_folder,
            old(self).config.spec_navigation_settings(),
            old(self).viewport,
            old(self).memory_policy,
            old(self).config.spec_animation_timing(),
            generation,
            reason@,
            old(self).config@.ui_language,
            presentation,
            reported,
        ));
        presentation
    }

    /// The format an image of `source_format` is exported to by default, as
    /// the export settings' policy says.
    pub fn default_export_format_for_source(&self, source_format: SupportedImageFormat) -> (format: ExportFormat)
        ensures
            format == self.config@.export_policy.format_for(source_format),
    {
        self.config.export_settings().default_export_format_policy().export_format_for_source(source_format)
    }

    /// The path an export of the image at `source_path` is suggested under:
    /// the default format for its source format, with the settings' file
    /// name suffix (see [`suggested_path`]).
    pub fn suggested_export_path(&self, source_path: &str, source_format: SupportedImageFormat) -> (path: String)
        ensures
            path@ == suggested_path(
                source_path@,
                self.config@.export_policy.format_for(source_format),
                self.config@.export_suffix,
            ),
    {
        let settings = self.config.export_settings();
        let format = settings.default_export_format_policy().export_format_for_source(source_format);
        suggested_export_path_with_suffix(source_path, format, settings.export_filename_suffix())
    }

    /// The options of an export to `format` with the requested quality (see
    /// [`ExportOptions::new`]), with the settings' JPEG background.
    pub fn export_options(&self, format: ExportFormat, quality: Option<u8>) -> (options: ExportOptions)
        ensures
            options.format() == format,
            options.quality() == (match format {
                ExportFormat::Jpeg => Some(
                    clamped_quality(
                        match quality {
                            Some(q) => q,
                            None => DEFAULT_EXPORT_QUALITY,
                        },
                    ),
                ),
                _ => None,
            }),
            options.rotation() == ImageRotation::Degrees0,
            options.target_size() is None,
            !options.remove_metadata(),
            (
                options.jpeg_alpha_background_rgb().red(),
                options.jpeg_alpha_background_rgb().green(),
                options.jpeg_alpha_background_rgb().blue(),
            ) == self.config@.jpeg_background,
    {
        let background = self.config.export_settings().jpeg_alpha_background_rgb();
        ExportOptions::new(format, quality).with_jpeg_alpha_background_rgb(background)
    }

    /// Turns the shown image to `rotation` (see [`rotated`]); says whether it
    /// did.
    pub fn rotate_to(&mut self, rotation: ImageRotation) -> (changed: bool)
        ensures
            rotated(*old(self), rotation, *final(self), changed),
    {
        if !self.image_state.has_image() || rotation == self.user_rotation {
            return false;
        }
        self.user_rotation = rotation;
        self.render.clear_all();
        self.update_title();
        true
    }

    /// Turns the shown image a quarter turn clockwise.
    pub fn rotate_clockwise(&mut self) -> (changed: bool)
        ensures
            rotated(*old(self), old(self).user_rotation.clockwise(), *final(self), changed),
    {
        let rotation = self.user_rotation.clockwise();
        self.rotate_to(rotation)
    }

    /// Turns the shown image a quarter turn counter-clockwise.
    pub fn rotate_counter_clockwise(&mut self) -> (changed: bool)
        ensures
            rotated(*old(self), old(self).user_rotation.counter_clockwise(), *final(self), changed),
    {
        let rotation = self.user_rotation.counter_clockwise();
        self.rotate_to(rotation)
    }

    /// Takes a command after dropping the status message: rotations are done
    /// here; navigation and the zoom commands are handed back; every other
    /// command is not one for the viewer's state.
    pub fn handle_command(&mut self, command: Command) -> (step: CommandStep)
        ensures
            ({
                let cleared = without_status(*old(self));
                match command {
                    Command::Navigate(direction) => step == CommandStep::Navigate(direction) && *final(self)
                        == cleared,
                    Command::ZoomIn | Command::ZoomOut | Command::ActualSize | Command::FitToWindow => step
                        == CommandStep::View(command) && *final(self) == cleared,
                    Command::RotateClockwise => exists|changed: bool|
                        #![trigger rotated(cleared, cleared.user_rotation.clockwise(), *final(self), changed)]
                        rotated(cleared, cleared.user_rotation.clockwise(), *final(self), changed) && step
                            == CommandStep::Done(if changed {
                            AppCommandOutcome::Changed
                        } else {
                            AppCommandOutcome::Unchanged
                        }),
                    Command::RotateCounterClockwise => exists|changed: bool|
                        #![trigger rotated(cleared, cleared.user_rotation.counter_clockwise(), *final(self), changed)]
                        rotated(cleared, cleared.user_rotation.counter_clockwise(), *final(self), changed) && step
                            == CommandStep::Done(if changed {
                            AppCommandOutcome::Changed
                        } else {
                            AppCommandOutcome::Unchanged
                        }),
                    _ => step == CommandStep::Done(AppCommandOutcome::Unhandled) && *final(self) == cleared,
                }
            }),
    {
        self.status_message = None;
        match command {
            Command::Navigate(direction) => CommandStep::Navigate(direction),
            Command::ZoomIn | Command::ZoomOut | Command::ActualSize | Command::FitToWindow => CommandStep::View(command),
            Command::RotateClockwise => CommandStep::Done(command_outcome(self.rotate_clockwise())),
            Command::RotateCounterClockwise => CommandStep::Done(command_outcome(self.rotate_counter_clockwise())),
            _ => CommandStep::Done(AppCommandOutcome::Unhandled),
        }
    }

    /// Starts decoding the image at `path` to open it: the status message,
    /// the pending animation frame, the folder scan and the navigation waited
    /// for are dropped; the request carries the viewport, memory policy and frame timing now in
    /// force.
    pub fn begin_image_decode(&mut self, path: String) -> (request: ImageDecodeRequest)
        ensures
            final(self).decode.generation().value() == following(old(self).decode.generation()),
            final(self).decode.in_flight() == (DecodeInFlight::Loading {
                generation: final(self).decode.generation(),
                path: path@,
                file_version: None,
                purpose: ImageDecodePurpose::OpenImage,
                navigation: None,
            }),
            request.generation() == final(self).decode.generation(),
            request.spec_path() == path@,
            request.file_version() is None,
            request.viewport() == old(self).viewport,
            request.memory_policy() == old(self).memory_policy,
            request.animation_timing() == old(self).config.spec_animation_timing(),
            request.purpose() == ImageDecodePurpose::OpenImage,
            *final(self) == (ViewerCore {
                decode: final(self).decode,
                status_message: None,
                pending_frame: None,
                pending_folder_scan: None,
                pending_navigation_after_folder_scan: None,
                ..*old(self)
            }),
    {
        self.status_message = None;
        self.pending_frame = None;
        self.pending_folder_scan = None;
        self.pending_navigation_after_folder_scan = None;
        let timing = self.config.animation_timing_settings();
        self.decode.begin_initial(path, self.viewport, self.memory_policy, timing, ImageDecodePurpose::OpenImage, None)
    }

    /// Takes `next` as the settings, unless they are the same as now and
    /// neither the zoom limits nor the full-resolution request scale (both
    /// kept by the caller) changed. The first result says whether it did;
    /// then the settings are taken (see [`settings_taken`]) and the caches
    /// held to the new memory policy, and the second result says whether the
    /// resident animation frames must be cleared.
    pub fn apply_config(
        &mut self,
        next: ViewerConfig,
        zoom_changed: bool,
        request_scale_changed: bool,
        resident: usize,
    ) -> (applied: (bool, bool))
        ensures
            applied.0 == !(old(self).config@ == next@ && !zoom_changed && !request_scale_changed),
            !applied.0 ==> *final(self) == *old(self) && !applied.1,
            applied.0 ==> exists|taken: ViewerCore|
                #![trigger settings_taken(*old(self), next, zoom_changed, request_scale_changed, taken)]
                settings_taken(*old(self), next, zoom_changed, request_scale_changed, taken) && caches_held_to_policy(
                    taken,
                    *final(self),
                    resident,
                    applied.1,
                ),
    {
        let changed = apply_viewer_config(
            &mut self.config,
            next,
            zoom_changed,
            request_scale_changed,
            &mut self.image_state,
            &mut self.pending_frame,
            &mut self.render,
            &mut self.preloads,
        );
        if !changed {
            return (false, false);
        }
        self.memory_policy = self.config.image_memory_policy();
        self.update_title();
        let ghost taken = *self;
        assert(settings_taken(*old(self), next, zoom_changed, request_scale_changed, taken));
        let cleared = self.enforce_memory_policy(resident);
        (true, cleared)
    }

    /// Holds the caches to the memory policy (see [`caches_held_to_policy`]);
    /// `resident` is the size of the animation frames kept outside these
    /// caches, and the result says whether the caller must clear them.
    pub fn enforce_memory_policy(&mut self, resident: usize) -> (clear_resident_frames: bool)
        ensures
            caches_held_to_policy(*old(self), *final(self), resident, clear_resident_frames),
    {
        enforce_memory_policy(
            &mut self.render,
            &mut self.frames,
            &mut self.preloads,
            &self.image_state,
            self.user_rotation,
            self.image_revision,
            resident,
            self.memory_policy,
        )
    }
}

} // verus!

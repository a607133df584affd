//! Moving the shown animation to another frame: from the frame cache or by
//! asking for a decode, and applying or dropping a decoded frame when it
//! arrives.
use vstd::prelude::*;

use crate::animation::{
    after_home, after_manual_step, after_timer_tick, after_toggle, animation_state_after_home,
    animation_state_after_manual_step, animation_state_after_timer_tick, animation_state_after_toggle, AnimationPlayback,
    AnimationPlaybackState, AnimationPlaybackTransition, PlaybackView, normalized_delays,
};
use crate::settings::AnimationTimingSettings;
use crate::commands::AnimationCommand;
use crate::config_file::{ViewerConfig, ViewerConfigView};
use crate::decode::{AnimationFrameDecodeRequest, AnimationFrameOutcome, ImageDecodeCoordinator};
use crate::frame_cache::{first_frame_position, frame_stored, swap_removed, AnimationFrameCache, AnimationFrameCacheEntry};
use crate::geometry::{ImageSize, ViewportSize};
use crate::loaded::{same_file_version, ImageFileVersion, ImageState, LoadedImage};
use crate::memory::ImageMemoryPolicy;
use crate::paths::{paths_equal, same_path};
use crate::pixels::{PixelImage, Rgba8Image};
use crate::scaling::DecodeGeneration;
use crate::viewer::DecodeApplyOutcome;

verus! {

broadcast use {LoadedImage::lemma_with_animation, LoadedImage::lemma_with_frame};

/// A frame decode that was asked for: which frame, of which file version,
/// and the playback to show once the frame arrives.
pub struct PendingAnimationFrame {
    pub frame_index: usize,
    pub file_version: ImageFileVersion,
    pub playback: AnimationPlayback,
}

/// The playback of the shown image, when it is animated.
pub open spec fn shown_playback(state: ImageState) -> Option<AnimationPlayback> {
    match state {
        ImageState::Loaded(image) => image.spec_animation(),
        ImageState::Empty => None,
    }
}

/// The playback of the shown image, when it is animated.
pub fn current_animation_playback(state: &ImageState) -> (playback: Option<&AnimationPlayback>)
    ensures
        match shown_playback(*state) {
            Some(p) => playback == Some(&p),
            None => playback is None,
        },
{
    match state {
        ImageState::Loaded(image) => image.animation(),
        ImageState::Empty => None,
    }
}

/// Whether a request asks for frame `frame_index` of the shown animation,
/// under `generation` and for these settings.
pub open spec fn requests_frame(
    request: AnimationFrameDecodeRequest,
    image: LoadedImage,
    file_version: ImageFileVersion,
    generation: DecodeGeneration,
    viewport: ViewportSize,
    memory_policy: ImageMemoryPolicy,
    frame_index: usize,
) -> bool {
    &&& request.generation() == generation
    &&& request.spec_path() == image.spec_metadata().spec_path()
    &&& request.file_version() == file_version
    &&& request.format() == image.spec_metadata().format()
    &&& request.source_size() == image.spec_source_size()
    &&& request.frame_index() == frame_index
    &&& request.viewport() == viewport
    &&& request.memory_policy() == memory_policy
}

/// The request to decode frame `frame_index` of the shown animation; none
/// without an animated image or without the version of its file.
pub fn animation_frame_decode_request(
    state: &ImageState,
    generation: DecodeGeneration,
    viewport: ViewportSize,
    memory_policy: ImageMemoryPolicy,
    frame_index: usize,
) -> (request: Option<AnimationFrameDecodeRequest>)
    ensures
        match *state {
            ImageState::Loaded(image) => match image.spec_metadata().file_version() {
                Some(version) => if image.spec_animation() is Some {
                    (request matches Some(r) && requests_frame(
                        r,
                        image,
                        version,
                        generation,
                        viewport,
                        memory_policy,
                        frame_index,
                    ))
                } else {
                    request is None
                },
                None => request is None,
            },
            ImageState::Empty => request is None,
        },
{
    let image = match state {
        ImageState::Loaded(image) => image,
        ImageState::Empty => return None,
    };
    if !image.is_animated() {
        return None;
    }
    let file_version = match image.metadata().file_version() {
        Some(version) => version,
        None => return None,
    };
    Some(
        AnimationFrameDecodeRequest::new(
            generation,
            image.metadata().path().to_string(),
            file_version,
            image.metadata().format(),
            image.source_size(),
            frame_index,
            viewport,
            memory_policy,
        ),
    )
}

/// Gives the shown animation `playback` when it has as many frames; says
/// whether it did.
pub fn set_current_animation_playback(state: &mut ImageState, playback: AnimationPlayback) -> (replaced: bool)
    ensures
        match *old(state) {
            ImageState::Loaded(image) => {
                &&& replaced == (image.spec_animation() matches Some(a) && a@.frame_count()
                    == playback@.frame_count())
                &&& replaced ==> *final(state) == ImageState::Loaded(image.spec_with_animation(playback))
                &&& !replaced ==> *final(state) == *old(state)
            },
            ImageState::Empty => !replaced && *final(state) == *old(state),
        },
{
    match state {
        ImageState::Loaded(image) => image.set_animation_playback(playback),
        ImageState::Empty => false,
    }
}

/// Whether showing a frame can be undone or kept: the frame has the size of
/// the shown pixels, and the playback as many frames as the animation.
pub open spec fn frame_fits(image: LoadedImage, frame: Rgba8Image, playback: AnimationPlayback) -> bool {
    &&& frame.spec_size() == image.spec_pixels().spec_size()
    &&& image.spec_animation() matches Some(a) && a@.frame_count() == playback@.frame_count()
}

/// Shows `frame` as frame `frame_index` of the shown animation with
/// `playback`, and keeps the frame it replaces in the frame cache (unless it
/// is the same frame), used at `paint_count`. Says whether it did: it does not
/// without an animated image, when the frame has another size than the shown
/// pixels, when the shown pixels cannot be given back as RGBA, or when the
/// playback has another number of frames; the frame cache is then unchanged.
pub fn apply_animation_frame_image(
    state: &mut ImageState,
    frames: &mut AnimationFrameCache,
    frame_index: usize,
    frame: Rgba8Image,
    playback: AnimationPlayback,
    max_entry_bytes: usize,
    paint_count: u64,
) -> (applied: bool)
    ensures
        !applied ==> final(frames).entries() == old(frames).entries(),
        match *old(state) {
            ImageState::Loaded(image) => {
                &&& applied ==> frame_fits(image, frame, playback)
                &&& (frame_fits(image, frame, playback) && image.spec_pixels() is Rgba8) ==> applied
                &&& applied ==> *final(state) == ImageState::Loaded(
                    image.spec_with_frame(frame).spec_with_animation(playback),
                )
                &&& applied ==> {
                    let shown = image.spec_animation()->0@.current;
                    if shown == frame_index {
                        final(frames).entries() == old(frames).entries()
                    } else {
                        exists|previous: Rgba8Image|
                            #![trigger frame_stored(old(frames).entries(), shown as usize, previous, max_entry_bytes, paint_count, final(frames).entries())]
                            previous.spec_size() == image.spec_pixels().spec_size() && previous.bytes()
                                == image.spec_pixels().rgba_bytes() && frame_stored(
                                old(frames).entries(),
                                shown as usize,
                                previous,
                                max_entry_bytes,
                                paint_count,
                                final(frames).entries(),
                            )
                    }
                }
                &&& (image.spec_animation() is None || frame.spec_size() != image.spec_pixels().spec_size())
                    ==> *final(state) == *old(state)
                &&& !applied ==> (*final(state) matches ImageState::Loaded(after) && after.spec_animation()
                    == image.spec_animation() && after.spec_metadata() == image.spec_metadata()
                    && after.spec_source_size() == image.spec_source_size())
            },
            ImageState::Empty => !applied && *final(state) == *old(state),
        },
{
    let shown_frame = match current_animation_playback(state) {
        Some(current) => Some(current.current_frame_index()),
        None => None,
    };
    let image = match state {
        ImageState::Loaded(image) => image,
        ImageState::Empty => return false,
    };
    let ghost before = *image;
    if !image.is_animated() {
        return false;
    }
    let previous = match image.replace_current_rgba8(frame) {
        Some(previous) => previous,
        None => return false,
    };
    if !image.set_animation_playback(playback) {
        let _ = image.replace_current_rgba8(previous);
        return false;
    }
    let ghost kept = previous;
    proof {
        ImageSize::lemma_eq(kept.spec_size(), before.spec_pixels().spec_size());
    }
    match shown_frame {
        Some(shown) => {
            if shown != frame_index {
                frames.store(shown, previous, max_entry_bytes, paint_count);
                assert(frame_stored(old(frames).entries(), shown, kept, max_entry_bytes, paint_count, frames.entries()));
                assert(shown == (before.spec_animation()->0@.current) as usize);
                assert(kept.spec_size() == before.spec_pixels().spec_size());
                assert(kept.bytes() == before.spec_pixels().rgba_bytes());
            }
        },
        None => {},
    }
    true
}

/// Whether a decoded (or failed) frame is the one the pending decode waits
/// for: same generation, same path and file version as the shown image and
/// as asked for, same frame.
pub open spec fn frame_result_is_current(
    active: DecodeGeneration,
    pending: Option<PendingAnimationFrame>,
    state: ImageState,
    generation: DecodeGeneration,
    frame_index: usize,
    path: Seq<char>,
    file_version: Option<ImageFileVersion>,
) -> bool {
    &&& generation.value() == active.value()
    &&& pending matches Some(p)
    &&& state matches ImageState::Loaded(image)
    &&& same_path(image.spec_metadata().spec_path(), path)
    &&& image.spec_metadata().file_version() == Some(p.file_version)
    &&& file_version == Some(p.file_version)
    &&& p.frame_index == frame_index
}

fn is_current_frame_result(
    coordinator: &ImageDecodeCoordinator,
    pending: &Option<PendingAnimationFrame>,
    state: &ImageState,
    generation: DecodeGeneration,
    frame_index: usize,
    path: &str,
    file_version: Option<ImageFileVersion>,
) -> (current: bool)
    ensures
        current == frame_result_is_current(
            coordinator.generation(),
            *pending,
            *state,
            generation,
            frame_index,
            path@,
            file_version,
        ),
{
    if coordinator.is_stale(generation) {
        return false;
    }
    let expected = match pending {
        Some(p) => p.file_version,
        None => return false,
    };
    let image = match state {
        ImageState::Loaded(image) => image,
        ImageState::Empty => return false,
    };
    if !paths_equal(image.metadata().path(), path) || !same_file_version(image.metadata().file_version(), Some(expected))
        || !same_file_version(file_version, Some(expected)) {
        return false;
    }
    match pending {
        Some(p) => p.frame_index == frame_index,
        None => false,
    }
}

/// Applies a decoded frame that the pending decode waits for (see
/// [`frame_result_is_current`]) with the playback it was asked for, and
/// clears the pending decode; a frame that is not waited for is stale and
/// changes nothing. Applied when the frame could be shown (see
/// [`apply_animation_frame_image`]), unchanged otherwise.
pub fn apply_animation_frame_pixels(
    coordinator: &ImageDecodeCoordinator,
    pending: &mut Option<PendingAnimationFrame>,
    state: &mut ImageState,
    frames: &mut AnimationFrameCache,
    generation: DecodeGeneration,
    frame_index: usize,
    path: &str,
    file_version: Option<ImageFileVersion>,
    rgba8: Rgba8Image,
    max_entry_bytes: usize,
    paint_count: u64,
) -> (outcome: DecodeApplyOutcome)
    ensures
        !frame_result_is_current(
            coordinator.generation(),
            *old(pending),
            *old(state),
            generation,
            frame_index,
            path@,
            file_version,
        ) ==> outcome == DecodeApplyOutcome::Stale && *final(pending) == *old(pending) && *final(state)
            == *old(state) && final(frames).entries() == old(frames).entries(),
        frame_result_is_current(
            coordinator.generation(),
            *old(pending),
            *old(state),
            generation,
            frame_index,
            path@,
            file_version,
        ) ==> {
            &&& *final(pending) is None
            &&& outcome != DecodeApplyOutcome::Stale
            &&& *old(state) matches ImageState::Loaded(image)
            &&& *old(pending) matches Some(p)
            &&& outcome == DecodeApplyOutcome::Applied ==> *final(state) == ImageState::Loaded(
                image.spec_with_frame(rgba8).spec_with_animation(p.playback),
            )
            &&& (frame_fits(image, rgba8, p.playback) && image.spec_pixels() is Rgba8) ==> outcome
                == DecodeApplyOutcome::Applied
            &&& outcome == DecodeApplyOutcome::Unchanged ==> final(frames).entries() == old(frames).entries()
        },
{
    if !is_current_frame_result(coordinator, pending, state, generation, frame_index, path, file_version) {
        return DecodeApplyOutcome::Stale;
    }
    let mut taken: Option<PendingAnimationFrame> = None;
    std::mem::swap(&mut taken, pending);
    let playback = match taken {
        Some(p) => p.playback,
        None => return DecodeApplyOutcome::Unchanged,
    };
    if !apply_animation_frame_image(state, frames, frame_index, rgba8, playback, max_entry_bytes, paint_count) {
        return DecodeApplyOutcome::Unchanged;
    }
    DecodeApplyOutcome::Applied
}

/// The playback after a frame could not be decoded: a playing animation is
/// paused where it stands, any other is left as it is.
pub open spec fn paused_after_failure(p: PlaybackView) -> PlaybackView {
    if p.state == AnimationPlaybackState::Playing {
        after_toggle(p).0
    } else {
        p
    }
}

/// Pauses the shown animation when it is playing.
pub fn pause_current_animation_after_frame_decode_failure(state: &mut ImageState)
    ensures
        match *old(state) {
            ImageState::Loaded(image) => match image.spec_animation() {
                Some(a) => (*final(state) matches ImageState::Loaded(after) && after.spec_animation() matches Some(b)
                    && b@ == paused_after_failure(a@) && after.spec_pixels() == image.spec_pixels()
                    && after.spec_metadata() == image.spec_metadata()),
                None => *final(state) == *old(state),
            },
            ImageState::Empty => *final(state) == *old(state),
        },
{
    let playback = match current_animation_playback(state) {
        Some(playback) => playback.clone(),
        None => return,
    };
    if playback.playback_state() != AnimationPlaybackState::Playing {
        return;
    }
    let transition = animation_state_after_toggle(&playback);
    let paused = transition.state().clone();
    assert(paused@ == after_toggle(playback@).0);
    assert(paused@.frame_count() == playback@.frame_count());
    let _ = set_current_animation_playback(state, paused);
}

/// Handles a frame that could not be decoded: when the pending decode waits
/// for it (see [`frame_result_is_current`]), clears the pending decode,
/// pauses a playing animation and reports it applied; otherwise it is stale
/// and changes nothing.
pub fn finish_failed_animation_frame_decode(
    coordinator: &ImageDecodeCoordinator,
    pending: &mut Option<PendingAnimationFrame>,
    state: &mut ImageState,
    generation: DecodeGeneration,
    frame_index: usize,
    path: &str,
    file_version: Option<ImageFileVersion>,
) -> (outcome: DecodeApplyOutcome)
    ensures
        ({
            let current = frame_result_is_current(
                coordinator.generation(),
                *old(pending),
                *old(state),
                generation,
                frame_index,
                path@,
                file_version,
            );
            &&& !current ==> outcome == DecodeApplyOutcome::Stale && *final(pending) == *old(pending) && *final(state)
                == *old(state)
            &&& current ==> outcome == DecodeApplyOutcome::Applied && *final(pending) is None
            &&& current ==> match *old(state) {
                ImageState::Loaded(image) => match image.spec_animation() {
                    Some(a) => (*final(state) matches ImageState::Loaded(after) && after.spec_animation() matches Some(b)
                        && b@ == paused_after_failure(a@) && after.spec_pixels() == image.spec_pixels()
                        && after.spec_metadata() == image.spec_metadata()),
                    None => *final(state) == *old(state),
                },
                ImageState::Empty => *final(state) == *old(state),
            }
        }),
{
    if !is_current_frame_result(coordinator, pending, state, generation, frame_index, path, file_version) {
        return DecodeApplyOutcome::Stale;
    }
    *pending = None;
    pause_current_animation_after_frame_decode_failure(state);
    DecodeApplyOutcome::Applied
}

/// Whether `after_state`, `after_frames`, `after_pending` and `outcome` are
/// what moving the shown animation to `playback` (and to frame `frame`, when
/// the transition names one) gives: without a frame only the playback
/// changes; a frame in the cache is taken out of it and shown; any other
/// frame is asked for, and the move waits for it.
pub open spec fn transition_applied(
    state: ImageState,
    frames: Seq<AnimationFrameCacheEntry>,
    pending: Option<PendingAnimationFrame>,
    playback: AnimationPlayback,
    frame: Option<usize>,
    generation: DecodeGeneration,
    viewport: ViewportSize,
    memory_policy: ImageMemoryPolicy,
    paint_count: u64,
    outcome: AnimationFrameOutcome,
    after_state: ImageState,
    after_frames: Seq<AnimationFrameCacheEntry>,
    after_pending: Option<PendingAnimationFrame>,
) -> bool {
    match frame {
        None => {
            &&& after_frames == frames
            &&& after_pending == pending
            &&& match state {
                ImageState::Loaded(image) => if image.spec_animation() matches Some(a) && a@.frame_count()
                    == playback@.frame_count() {
                    outcome == AnimationFrameOutcome::StateChanged && after_state == ImageState::Loaded(
                        image.spec_with_animation(playback),
                    )
                } else {
                    outcome == AnimationFrameOutcome::Unchanged && after_state == state
                },
                ImageState::Empty => outcome == AnimationFrameOutcome::Unchanged && after_state == state,
            }
        },
        Some(i) => if exists|k: int| 0 <= k < frames.len() && (#[trigger] frames[k]).frame_index == i {
            &&& after_pending == pending
            &&& (outcome == AnimationFrameOutcome::Updated || outcome == AnimationFrameOutcome::Unchanged)
            &&& exists|position: int|
                #![trigger frames[position]]
                first_frame_position(frames, i, position) && {
                    let cached = *frames[position].rgba8;
                    &&& outcome == AnimationFrameOutcome::Updated ==> (state matches ImageState::Loaded(image)
                        && frame_fits(image, cached, playback) && after_state == ImageState::Loaded(
                        image.spec_with_frame(cached).spec_with_animation(playback),
                    ))
                    &&& (state matches ImageState::Loaded(image) && frame_fits(image, cached, playback)
                        && image.spec_pixels() is Rgba8) ==> outcome == AnimationFrameOutcome::Updated
                    &&& outcome == AnimationFrameOutcome::Unchanged ==> after_frames == swap_removed(frames, position)
                }
        } else {
            &&& after_frames == frames
            &&& after_state == state
            &&& match state {
                ImageState::Loaded(image) => if image.spec_animation() is Some && image.spec_metadata().file_version() is Some {
                    outcome matches AnimationFrameOutcome::NeedsDecode(r) && requests_frame(
                        r,
                        image,
                        image.spec_metadata().file_version()->0,
                        generation,
                        viewport,
                        memory_policy,
                        i,
                    ) && after_pending == Some(
                        PendingAnimationFrame {
                            frame_index: i,
                            file_version: image.spec_metadata().file_version()->0,
                            playback,
                        },
                    )
                } else {
                    outcome == AnimationFrameOutcome::Unchanged && after_pending == pending
                },
                ImageState::Empty => outcome == AnimationFrameOutcome::Unchanged && after_pending == pending,
            }
        },
    }
}

/// Moves the shown animation as `transition` says (see [`transition_applied`]);
/// a frame taken from the cache is shown with the cache's copy, and the frame
/// it replaces is kept, used at `paint_count`.
pub fn apply_animation_transition(
    state: &mut ImageState,
    frames: &mut AnimationFrameCache,
    pending: &mut Option<PendingAnimationFrame>,
    generation: DecodeGeneration,
    viewport: ViewportSize,
    memory_policy: ImageMemoryPolicy,
    paint_count: u64,
    transition: AnimationPlaybackTransition,
) -> (outcome: AnimationFrameOutcome)
    ensures
        transition_applied(
            *old(state),
            old(frames).entries(),
            *old(pending),
            transition.spec_state(),
            transition.spec_frame_index(),
            generation,
            viewport,
            memory_policy,
            paint_count,
            outcome,
            *final(state),
            final(frames).entries(),
            *final(pending),
        ),
{
    let ghost start_frames = frames.entries();
    let (playback, frame_index) = transition.into_parts();
    let frame_index = match frame_index {
        Some(i) => i,
        None => {
            if set_current_animation_playback(state, playback) {
                return AnimationFrameOutcome::StateChanged;
            }
            return AnimationFrameOutcome::Unchanged;
        },
    };
    match frames.take(frame_index) {
        Some(cached) => {
            let frame: Rgba8Image = (*cached).clone();
            let ghost position = choose|position: int|
                #![trigger start_frames[position]]
                first_frame_position(start_frames, frame_index, position) && cached == start_frames[position].rgba8
                    && frames.entries() == swap_removed(start_frames, position);
            if apply_animation_frame_image(
                state,
                frames,
                frame_index,
                frame,
                playback,
                memory_policy.max_cache_entry_bytes(),
                paint_count,
            ) {
                AnimationFrameOutcome::Updated
            } else {
                AnimationFrameOutcome::Unchanged
            }
        },
        None => match animation_frame_decode_request(state, generation, viewport, memory_policy, frame_index) {
            Some(request) => {
                *pending = Some(
                    PendingAnimationFrame { frame_index, file_version: request.file_version(), playback },
                );
                AnimationFrameOutcome::NeedsDecode(request)
            },
            None => AnimationFrameOutcome::Unchanged,
        },
    }
}

/// The transition an animation command makes of a playback.
pub open spec fn command_transition(command: AnimationCommand, p: PlaybackView) -> (PlaybackView, Option<int>) {
    match command {
        AnimationCommand::TogglePlayback => after_toggle(p),
        AnimationCommand::StepFrame(direction) => after_manual_step(p, direction),
        AnimationCommand::FirstFrame => after_home(p),
    }
}

/// Handles an animation command: drops a pending frame decode, and without an
/// animated image does nothing more. Otherwise it makes the command's
/// transition of the playback (see [`command_transition`]), records in the
/// settings whether playback runs after a toggle, and applies the transition
/// (see [`transition_applied`]).
pub fn handle_animation_command(
    state: &mut ImageState,
    config: &mut ViewerConfig,
    frames: &mut AnimationFrameCache,
    pending: &mut Option<PendingAnimationFrame>,
    generation: DecodeGeneration,
    viewport: ViewportSize,
    memory_policy: ImageMemoryPolicy,
    paint_count: u64,
    command: AnimationCommand,
) -> (outcome: AnimationFrameOutcome)
    ensures
        match shown_playback(*old(state)) {
            None => outcome == AnimationFrameOutcome::Unchanged && *final(state) == *old(state) && final(frames).entries()
                == old(frames).entries() && *final(pending) is None && final(config)@ == old(config)@,
            Some(a) => {
                let (next, frame) = command_transition(command, a@);
                &&& final(config)@ == (if command is TogglePlayback {
                    ViewerConfigView {
                        animation_autoplay: next.state == AnimationPlaybackState::Playing,
                        ..old(config)@
                    }
                } else {
                    old(config)@
                })
                &&& exists|playback: AnimationPlayback|
                    #![trigger playback@]
                    playback@ == next && transition_applied(
                        *old(state),
                        old(frames).entries(),
                        None,
                        playback,
                        match frame {
                            Some(f) => Some(f as usize),
                            None => None,
                        },
                        generation,
                        viewport,
                        memory_policy,
                        paint_count,
                        outcome,
                        *final(state),
                        final(frames).entries(),
                        *final(pending),
                    )
            },
        },
{
    *pending = None;
    let playback = match current_animation_playback(state) {
        Some(playback) => playback.clone(),
        None => return AnimationFrameOutcome::Unchanged,
    };
    let transition = match command {
        AnimationCommand::TogglePlayback => animation_state_after_toggle(&playback),
        AnimationCommand::StepFrame(direction) => animation_state_after_manual_step(&playback, direction),
        AnimationCommand::FirstFrame => animation_state_after_home(&playback),
    };
    match command {
        AnimationCommand::TogglePlayback => {
            let playing = match transition.state().playback_state() {
                AnimationPlaybackState::Playing => true,
                _ => false,
            };
            config.set_animation_autoplay(playing);
        },
        _ => {},
    }
    let ghost chosen = transition.spec_state();
    let outcome = apply_animation_transition(state, frames, pending, generation, viewport, memory_policy, paint_count, transition);
    assert(chosen@ == command_transition(command, playback@).0);
    outcome
}

/// Handles the animation timer: nothing while a frame decode is pending or
/// without an animated image; otherwise the playback's timer transition is
/// applied (see [`transition_applied`]).
pub fn handle_animation_timer(
    state: &mut ImageState,
    frames: &mut AnimationFrameCache,
    pending: &mut Option<PendingAnimationFrame>,
    generation: DecodeGeneration,
    viewport: ViewportSize,
    memory_policy: ImageMemoryPolicy,
    paint_count: u64,
) -> (outcome: AnimationFrameOutcome)
    ensures
        (old(pending).is_some() || shown_playback(*old(state)) is None) ==> outcome == AnimationFrameOutcome::Unchanged
            && *final(state) == *old(state) && final(frames).entries() == old(frames).entries() && *final(pending)
            == *old(pending),
        (old(pending).is_none() && shown_playback(*old(state)) is Some) ==> {
            let (next, frame) = after_timer_tick(shown_playback(*old(state))->0@);
            exists|playback: AnimationPlayback|
                #![trigger playback@]
                playback@ == next && transition_applied(
                    *old(state),
                    old(frames).entries(),
                    None,
                    playback,
                    match frame {
                        Some(f) => Some(f as usize),
                        None => None,
                    },
                    generation,
                    viewport,
                    memory_policy,
                    paint_count,
                    outcome,
                    *final(state),
                    final(frames).entries(),
                    *final(pending),
                )
        },
{
    if pending.is_some() {
        return AnimationFrameOutcome::Unchanged;
    }
    let playback = match current_animation_playback(state) {
        Some(playback) => playback.clone(),
        None => return AnimationFrameOutcome::Unchanged,
    };
    let transition = animation_state_after_timer_tick(&playback);
    let ghost chosen = transition.spec_state();
    let outcome = apply_animation_transition(state, frames, pending, generation, viewport, memory_policy, paint_count, transition);
    assert(chosen@ == after_timer_tick(playback@).0);
    outcome
}

/// How long the shown frame stays: the delay of the current frame while the
/// animation plays and no frame decode is pending, none otherwise.
pub fn animation_timer_interval_ms(state: &ImageState, pending: &Option<PendingAnimationFrame>) -> (interval: Option<u32>)
    ensures
        interval == match shown_playback(*state) {
            Some(p) => if pending.is_none() && p@.state == AnimationPlaybackState::Playing {
                Some(p@.delays[p@.current])
            } else {
                None::<u32>
            },
            None => None::<u32>,
        },
{
    if pending.is_some() {
        return None;
    }
    match current_animation_playback(state) {
        Some(playback) => crate::animation::animation_timer_interval_ms(playback),
        None => None,
    }
}

/// The playback after new animation settings: delays normalized by `timing`
/// and, when `apply_autoplay`, playing or paused as `autoplay` says.
pub open spec fn retimed(p: PlaybackView, timing: AnimationTimingSettings, autoplay: bool, apply_autoplay: bool) -> PlaybackView {
    let r = PlaybackView { delays: normalized_delays(p.source_delays, timing), ..p };
    if apply_autoplay {
        r.at_frame(
            r.current,
            if autoplay {
                AnimationPlaybackState::Playing
            } else {
                AnimationPlaybackState::Paused
            },
            r.completed_loops,
        )
    } else {
        r
    }
}

/// Gives the shown animation new settings (see [`retimed`]) and drops a
/// pending frame decode.
pub fn apply_animation_config_to_current_image(
    state: &mut ImageState,
    pending: &mut Option<PendingAnimationFrame>,
    timing: AnimationTimingSettings,
    autoplay: bool,
    apply_autoplay: bool,
)
    ensures
        *final(pending) is None,
        match *old(state) {
            ImageState::Loaded(image) => match image.spec_animation() {
                Some(a) => (*final(state) matches ImageState::Loaded(after) && after.spec_animation() matches Some(b)
                    && b@ == retimed(a@, timing, autoplay, apply_autoplay) && after.spec_pixels() == image.spec_pixels()
                    && after.spec_metadata() == image.spec_metadata()),
                None => *final(state) == *old(state),
            },
            ImageState::Empty => *final(state) == *old(state),
        },
{
    *pending = None;
    let playback = match current_animation_playback(state) {
        Some(playback) => playback.clone(),
        None => return,
    };
    let _ = playback.frame_count();
    let mut next = playback.with_timing_settings(timing);
    if apply_autoplay {
        next = next.with_autoplay(autoplay);
    }
    assert(next@.frame_count() == playback@.frame_count());
    let _ = set_current_animation_playback(state, next);
}

/// A decoded frame is applied at most once: once the pending decode is
/// cleared, no frame result is waited for.
pub proof fn law_frame_result_applies_once(
    active: DecodeGeneration,
    state: ImageState,
    generation: DecodeGeneration,
    frame_index: usize,
    path: Seq<char>,
    file_version: Option<ImageFileVersion>,
)
    ensures
        !frame_result_is_current(active, None, state, generation, frame_index, path, file_version),
{
}

} // verus!

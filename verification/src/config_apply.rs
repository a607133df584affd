//! Taking new settings while an image is shown: which render copies and
//! preloaded images they make stale, and how the shown animation takes them.
use vstd::prelude::*;

use crate::animation_frames::{apply_animation_config_to_current_image, retimed, PendingAnimationFrame};
use crate::config_file::ViewerConfig;
use crate::loaded::ImageState;
use crate::memory::ImageMemoryPolicy;
use crate::preload_cache::{NavigationPreloadCache, NavigationPreloadCacheEntry};
use crate::render_cache::RenderCache;

verus! {

/// Whether images preloaded under `old` settings are stale under `new` ones:
/// the memory policy, the frame timing or the navigation differ.
pub open spec fn preloads_stale(old: crate::config_file::ViewerConfigView, new: crate::config_file::ViewerConfigView) -> bool {
    ||| ImageMemoryPolicy::spec_from_limits(old.memory) != ImageMemoryPolicy::spec_from_limits(new.memory)
    ||| old.timing != new.timing
    ||| old.wrap_navigation != new.wrap_navigation
    ||| old.auto_skip_failed_navigation != new.auto_skip_failed_navigation
    ||| old.max_navigation_attempts != new.max_navigation_attempts
}

/// What taking `next` in place of the settings `before` does to the shown
/// image, its pending frame decode, its render copies and the preloaded
/// images: the scaled copy goes when the scaling quality or the zoom limits
/// changed; a change of frame timing or autoplay retimes the shown animation
/// and drops a pending frame decode; the preloaded images go when stale or
/// when the request scale changed.
pub open spec fn settings_applied(
    before: crate::config_file::ViewerConfigView,
    next: ViewerConfig,
    zoom_changed: bool,
    request_scale_changed: bool,
    state_before: ImageState,
    state_after: ImageState,
    pending_before: Option<PendingAnimationFrame>,
    pending_after: Option<PendingAnimationFrame>,
    render_before: RenderCache,
    render_after: RenderCache,
    preloads_before: Seq<NavigationPreloadCacheEntry>,
    preloads_after: Seq<NavigationPreloadCacheEntry>,
) -> bool {
    let after = next@;
    let autoplay_changed = before.animation_autoplay != after.animation_autoplay;
    let retime = autoplay_changed || before.timing != after.timing;
    &&& render_after.oriented() == render_before.oriented()
    &&& render_after.scaled() == (if before.scaling_quality != after.scaling_quality || zoom_changed {
        None
    } else {
        render_before.scaled()
    })
    &&& preloads_after == (if preloads_stale(before, after) || request_scale_changed {
        Seq::<NavigationPreloadCacheEntry>::empty()
    } else {
        preloads_before
    })
    &&& !retime ==> state_after == state_before && pending_after == pending_before
    &&& retime ==> pending_after is None && match state_before {
        ImageState::Loaded(image) => match image.spec_animation() {
            Some(a) => (state_after matches ImageState::Loaded(shown) && shown.spec_animation() matches Some(b)
                && b@ == retimed(a@, next.spec_animation_timing(), after.animation_autoplay, autoplay_changed)
                && shown.spec_pixels() == image.spec_pixels() && shown.spec_metadata() == image.spec_metadata()),
            None => state_after == state_before,
        },
        ImageState::Empty => state_after == state_before,
    }
}

/// Takes `next` as the settings, unless they are the same as now and neither
/// the zoom limits nor the full-resolution request scale (both kept by the
/// caller) changed; says whether it did. Then the scaled copy is dropped when
/// the scaling quality or the zoom limits changed; the shown animation takes
/// the new frame timing and, when that setting changed, the autoplay setting
/// (dropping a pending frame decode); and the preloaded images are dropped
/// when they are stale (see [`preloads_stale`]) or the request scale, a part
/// of the memory policy they were decoded under, changed.
pub fn apply_viewer_config(
    config: &mut ViewerConfig,
    next: ViewerConfig,
    zoom_changed: bool,
    request_scale_changed: bool,
    state: &mut ImageState,
    pending: &mut Option<PendingAnimationFrame>,
    render: &mut RenderCache,
    preloads: &mut NavigationPreloadCache,
) -> (changed: bool)
    ensures
        changed == !(old(config)@ == next@ && !zoom_changed && !request_scale_changed),
        !changed ==> *final(config) == *old(config) && *final(state) == *old(state) && *final(pending) == *old(pending)
            && *final(render) == *old(render) && *final(preloads) == *old(preloads),
        changed ==> settings_applied(
            old(config)@,
            next,
            zoom_changed,
            request_scale_changed,
            *old(state),
            *final(state),
            *old(pending),
            *final(pending),
            *old(render),
            *final(render),
            old(preloads).entries(),
            final(preloads).entries(),
        ) && final(config)@ == next@,
{
    if config.same_settings(&next) && !zoom_changed && !request_scale_changed {
        return false;
    }
    let old_quality = config.scaling_quality();
    let old_autoplay = config.animation_autoplay();
    let old_timing = config.animation_timing_settings();
    let old_policy = config.image_memory_policy();
    let old_navigation = config.navigation_settings();
    *config = next;
    if config.scaling_quality() != old_quality || zoom_changed {
        render.clear_scaled();
    }
    let new_timing = config.animation_timing_settings();
    let timing_changed = new_timing.default_frame_delay_ms() != old_timing.default_frame_delay_ms()
        || new_timing.min_frame_delay_ms() != old_timing.min_frame_delay_ms() || new_timing.max_frame_delay_ms()
        != old_timing.max_frame_delay_ms();
    let autoplay_changed = config.animation_autoplay() != old_autoplay;
    if autoplay_changed || timing_changed {
        apply_animation_config_to_current_image(state, pending, new_timing, config.animation_autoplay(), autoplay_changed);
    }
    let new_navigation = config.navigation_settings();
    let navigation_changed = new_navigation.wrap_navigation() != old_navigation.wrap_navigation()
        || new_navigation.auto_skip_failed_navigation() != old_navigation.auto_skip_failed_navigation()
        || new_navigation.max_navigation_attempts_per_command() != old_navigation.max_navigation_attempts_per_command();
    if config.image_memory_policy() != old_policy || request_scale_changed || timing_changed || navigation_changed {
        preloads.clear();
    }
    true
}

} // verus!

//! Holding the viewer's caches to the memory policy: the entries they count
//! as, which of them the policy evicts, and what is left of each cache.
use vstd::prelude::*;

use crate::frame_cache::{frame_memory_entry, AnimationFrameCache, AnimationFrameCacheEntry, without_frame};
use crate::geometry::{ImageOrientation, ImageRotation};
use crate::loaded::ImageState;
use crate::memory::{evictions, is_eviction_order, memory_cache_slots_to_evict, saturated, total_bytes, ImageMemoryPolicy};
use crate::preload_cache::{
    preload_memory_entry, resident_bytes, without_key, NavigationPreloadCache, NavigationPreloadCacheEntry,
};
use crate::render_cache::{
    oriented_entries, oriented_matches, scaled_entries, OrientedImageCache, OrientedImageCacheKey, RenderCache,
    ScaledImageCache,
};
use crate::scaling::{ImageCacheSlot, MemoryCacheEntry};

verus! {

broadcast use MemoryCacheEntry::lemma_spec_new;

/// The orientation the shown image is drawn in: its EXIF orientation, then
/// the user's rotation.
pub open spec fn shown_orientation(state: ImageState, user_rotation: ImageRotation) -> Option<ImageOrientation> {
    match state {
        ImageState::Loaded(image) => Some(image.spec_metadata().exif_orientation().then_rotation(user_rotation)),
        ImageState::Empty => None,
    }
}

/// The orientation the shown image is drawn in, if an image is shown.
pub fn current_display_orientation(state: &ImageState, user_rotation: ImageRotation) -> (orientation: Option<ImageOrientation>)
    ensures
        orientation == shown_orientation(*state, user_rotation),
{
    match state {
        ImageState::Loaded(image) => Some(crate::geometry::display_orientation(image.metadata().exif_orientation(), user_rotation)),
        ImageState::Empty => None,
    }
}

/// The bytes the shown image keeps in memory.
pub open spec fn shown_bytes(state: ImageState) -> usize {
    match state {
        ImageState::Loaded(image) => resident_bytes(image),
        ImageState::Empty => 0,
    }
}

/// The bytes the shown image keeps in memory; none without an image.
pub fn current_image_byte_len(state: &ImageState) -> (len: usize)
    ensures
        len == shown_bytes(*state),
{
    match state {
        ImageState::Loaded(image) => image.resident_byte_len(),
        ImageState::Empty => 0,
    }
}

/// The key of the oriented copy the shown image needs: none when no image is
/// shown or it is drawn as stored.
pub open spec fn protected_key(state: ImageState, user_rotation: ImageRotation, image_revision: u64) -> Option<OrientedImageCacheKey> {
    match state {
        ImageState::Loaded(image) => {
            let orientation = image.spec_metadata().exif_orientation().then_rotation(user_rotation);
            if orientation.is_identity() {
                None
            } else {
                Some(OrientedImageCacheKey { image_revision, source_size: image.spec_pixels().spec_size(), orientation })
            }
        },
        ImageState::Empty => None,
    }
}

/// The key of the oriented copy the shown image needs, which the memory
/// policy must not evict.
pub fn protected_oriented_image_cache_key(state: &ImageState, user_rotation: ImageRotation, image_revision: u64) -> (key: Option<OrientedImageCacheKey>)
    ensures
        key == protected_key(*state, user_rotation, image_revision),
{
    let orientation = match current_display_orientation(state, user_rotation) {
        Some(orientation) => orientation,
        None => return None,
    };
    if orientation.is_identity() {
        return None;
    }
    match state {
        ImageState::Loaded(image) => Some(OrientedImageCacheKey::new(image_revision, image.pixels().size(), orientation)),
        ImageState::Empty => None,
    }
}

/// The bytes of the protected oriented copy, when it is cached.
pub open spec fn protected_bytes(oriented: Option<OrientedImageCache>, protected: Option<OrientedImageCacheKey>) -> int {
    match (oriented, protected) {
        (Some(cache), Some(key)) => if oriented_matches(cache, key) {
            (*cache.pixels).bytes().len() as int
        } else {
            0
        },
        _ => 0,
    }
}

/// The entry that stands for the animation frames kept outside these caches.
pub open spec fn resident_frame_entries(resident_bytes: usize) -> Seq<MemoryCacheEntry> {
    if resident_bytes > 0 {
        seq![MemoryCacheEntry::spec_new(ImageCacheSlot::AnimationFrame { frame_index: Some(usize::MAX) }, resident_bytes, 0)]
    } else {
        Seq::empty()
    }
}

/// The memory cache entries of all caches: the render copies (less the
/// protected one), the resident animation frames, the cached frames, then the
/// preloaded images.
pub open spec fn listed_entries(
    oriented: Option<OrientedImageCache>,
    scaled: Option<ScaledImageCache>,
    protected: Option<OrientedImageCacheKey>,
    resident_animation_bytes: usize,
    frames: Seq<AnimationFrameCacheEntry>,
    preloads: Seq<NavigationPreloadCacheEntry>,
) -> Seq<MemoryCacheEntry> {
    oriented_entries(oriented, protected) + scaled_entries(scaled) + resident_frame_entries(resident_animation_bytes)
        + frames.map_values(|entry| frame_memory_entry(entry)) + preloads.map_values(|entry| preload_memory_entry(entry))
}

/// Whether `slots` are what the memory policy evicts from `entries`, with
/// `base_bytes` resident besides them.
pub open spec fn policy_evicts(
    entries: Seq<MemoryCacheEntry>,
    base_bytes: int,
    policy: ImageMemoryPolicy,
    slots: Seq<ImageCacheSlot>,
) -> bool {
    exists|order: Seq<usize>|
        is_eviction_order(entries, order) && slots == evictions(
            entries,
            order,
            saturated(base_bytes + total_bytes(entries)),
            entries.len() as int,
            policy,
        )
}

/// Whether evicting `slots` drops a cached frame: all of them for an
/// unidentified frame slot, and the one named otherwise (the slot of the
/// resident frames names none of them).
pub open spec fn frame_evicted(slots: Seq<ImageCacheSlot>, frame_index: usize) -> bool {
    ||| slots.contains(ImageCacheSlot::AnimationFrame { frame_index: None })
    ||| frame_index != usize::MAX && slots.contains(ImageCacheSlot::AnimationFrame { frame_index: Some(frame_index) })
}

/// Whether evicting `slots` clears the resident animation frames.
pub open spec fn resident_frames_evicted(slots: Seq<ImageCacheSlot>) -> bool {
    ||| slots.contains(ImageCacheSlot::AnimationFrame { frame_index: None })
    ||| slots.contains(ImageCacheSlot::AnimationFrame { frame_index: Some(usize::MAX) })
}

/// The frames whose index `keep` accepts, in order.
pub open spec fn frames_where(entries: Seq<AnimationFrameCacheEntry>, keep: spec_fn(usize) -> bool) -> Seq<AnimationFrameCacheEntry>
    decreases entries.len(),
{
    if entries.len() == 0 {
        entries
    } else {
        let rest = frames_where(entries.drop_last(), keep);
        if keep(entries.last().frame_index) {
            rest.push(entries.last())
        } else {
            rest
        }
    }
}

/// The preloaded images whose key `keep` accepts, in order.
pub open spec fn preloads_where(entries: Seq<NavigationPreloadCacheEntry>, keep: spec_fn(u64) -> bool) -> Seq<NavigationPreloadCacheEntry>
    decreases entries.len(),
{
    if entries.len() == 0 {
        entries
    } else {
        let rest = preloads_where(entries.drop_last(), keep);
        if keep(entries.last().path_key) {
            rest.push(entries.last())
        } else {
            rest
        }
    }
}

/// The frames left after evicting `slots`.
pub open spec fn frames_after(entries: Seq<AnimationFrameCacheEntry>, slots: Seq<ImageCacheSlot>) -> Seq<AnimationFrameCacheEntry> {
    frames_where(entries, |index: usize| !frame_evicted(slots, index))
}

/// The preloaded images left after evicting `slots`.
pub open spec fn preloads_after(entries: Seq<NavigationPreloadCacheEntry>, slots: Seq<ImageCacheSlot>) -> Seq<NavigationPreloadCacheEntry> {
    preloads_where(entries, |key: u64| !slots.contains(ImageCacheSlot::NavigationPreload { path_key: key }))
}

proof fn lemma_frames_without(entries: Seq<AnimationFrameCacheEntry>, keep: spec_fn(usize) -> bool, index: usize)
    ensures
        without_frame(frames_where(entries, keep), index) == frames_where(entries, |j: usize| keep(j) && j != index),
    decreases entries.len(),
{
    if entries.len() > 0 {
        lemma_frames_without(entries.drop_last(), keep, index);
        let kept = frames_where(entries.drop_last(), keep);
        if keep(entries.last().frame_index) {
            assert(kept.push(entries.last()).drop_last() == kept);
        }
    }
}

proof fn lemma_frames_none(entries: Seq<AnimationFrameCacheEntry>, keep: spec_fn(usize) -> bool)
    requires
        forall|j: usize| !#[trigger] keep(j),
    ensures
        frames_where(entries, keep) == Seq::<AnimationFrameCacheEntry>::empty(),
    decreases entries.len(),
{
    if entries.len() > 0 {
        lemma_frames_none(entries.drop_last(), keep);
    }
}

proof fn lemma_preloads_without(entries: Seq<NavigationPreloadCacheEntry>, keep: spec_fn(u64) -> bool, key: u64)
    ensures
        without_key(preloads_where(entries, keep), key) == preloads_where(entries, |k: u64| keep(k) && k != key),
    decreases entries.len(),
{
    if entries.len() > 0 {
        lemma_preloads_without(entries.drop_last(), keep, key);
        let kept = preloads_where(entries.drop_last(), keep);
        if keep(entries.last().path_key) {
            assert(kept.push(entries.last()).drop_last() == kept);
        }
    }
}

proof fn lemma_frames_all(entries: Seq<AnimationFrameCacheEntry>)
    ensures
        frames_where(entries, |j: usize| true) == entries,
    decreases entries.len(),
{
    if entries.len() > 0 {
        lemma_frames_all(entries.drop_last());
        assert(entries.drop_last().push(entries.last()) == entries);
    }
}

proof fn lemma_preloads_all(entries: Seq<NavigationPreloadCacheEntry>)
    ensures
        preloads_where(entries, |k: u64| true) == entries,
    decreases entries.len(),
{
    if entries.len() > 0 {
        lemma_preloads_all(entries.drop_last());
        assert(entries.drop_last().push(entries.last()) == entries);
    }
}

proof fn lemma_push_contains<T>(s: Seq<T>, x: T, y: T)
    ensures
        s.push(x).contains(y) == (s.contains(y) || x == y),
{
    if s.contains(y) {
        let k = choose|k: int| 0 <= k < s.len() && s[k] == y;
        assert(s.push(x)[k] == y);
    }
    if x == y {
        assert(s.push(x)[s.len() as int] == y);
    }
    if s.push(x).contains(y) {
        let k = choose|k: int| 0 <= k < s.push(x).len() && s.push(x)[k] == y;
        if k < s.len() {
            assert(s[k] == y);
        }
    }
}

/// The caches after one more eviction, as the step of the loop below sees them.
proof fn lemma_evict_step(
    frames: Seq<AnimationFrameCacheEntry>,
    preloads: Seq<NavigationPreloadCacheEntry>,
    done: Seq<ImageCacheSlot>,
    slot: ImageCacheSlot,
)
    ensures
        match slot {
            ImageCacheSlot::AnimationFrame { frame_index: Some(i) } => if i == usize::MAX {
                frames_after(frames, done.push(slot)) == frames_after(frames, done)
            } else {
                frames_after(frames, done.push(slot)) == without_frame(frames_after(frames, done), i)
            },
            ImageCacheSlot::AnimationFrame { frame_index: None } => frames_after(frames, done.push(slot))
                == Seq::<AnimationFrameCacheEntry>::empty(),
            _ => frames_after(frames, done.push(slot)) == frames_after(frames, done),
        },
        match slot {
            ImageCacheSlot::NavigationPreload { path_key } => preloads_after(preloads, done.push(slot)) == without_key(
                preloads_after(preloads, done),
                path_key,
            ),
            _ => preloads_after(preloads, done.push(slot)) == preloads_after(preloads, done),
        },
        resident_frames_evicted(done.push(slot)) == (resident_frames_evicted(done) || slot == (
        ImageCacheSlot::AnimationFrame { frame_index: None }) || slot == (ImageCacheSlot::AnimationFrame {
            frame_index: Some(usize::MAX),
        })),
        done.push(slot).contains(ImageCacheSlot::OrientedImage) == (done.contains(ImageCacheSlot::OrientedImage) || slot
            == ImageCacheSlot::OrientedImage),
        done.push(slot).contains(ImageCacheSlot::ScaledImage) == (done.contains(ImageCacheSlot::ScaledImage) || slot
            == ImageCacheSlot::ScaledImage),
{
    let after = done.push(slot);
    assert forall|y: ImageCacheSlot| #[trigger] after.contains(y) == (done.contains(y) || slot == y) by {
        lemma_push_contains(done, slot, y);
    }
    let before_keep = |index: usize| !frame_evicted(done, index);
    let after_keep = |index: usize| !frame_evicted(after, index);
    match slot {
        ImageCacheSlot::AnimationFrame { frame_index: Some(i) } => {
            if i == usize::MAX {
                assert(after_keep =~= before_keep);
            } else {
                lemma_frames_without(frames, before_keep, i);
                assert(after_keep =~= (|j: usize| before_keep(j) && j != i));
            }
        },
        ImageCacheSlot::AnimationFrame { frame_index: None } => {
            assert(after.contains(ImageCacheSlot::AnimationFrame { frame_index: None }));
            lemma_frames_none(frames, after_keep);
        },
        _ => {
            assert(after_keep =~= before_keep);
        },
    }
    let before_preload = |key: u64| !done.contains(ImageCacheSlot::NavigationPreload { path_key: key });
    let after_preload = |key: u64| !after.contains(ImageCacheSlot::NavigationPreload { path_key: key });
    match slot {
        ImageCacheSlot::NavigationPreload { path_key } => {
            lemma_preloads_without(preloads, before_preload, path_key);
            assert(after_preload =~= (|k: u64| before_preload(k) && k != path_key));
        },
        _ => {
            assert(after_preload =~= before_preload);
        },
    }
}

/// Holds the caches to `policy`: lists their entries (see [`listed_entries`],
/// with the protected oriented copy of the shown image counted with the image
/// itself), evicts what the policy selects from each cache, and says whether
/// the resident animation frames, which these caches do not hold, must be
/// cleared too.
pub fn enforce_memory_policy(
    render: &mut RenderCache,
    frames: &mut AnimationFrameCache,
    preloads: &mut NavigationPreloadCache,
    state: &ImageState,
    user_rotation: ImageRotation,
    image_revision: u64,
    resident_animation_bytes: usize,
    policy: ImageMemoryPolicy,
) -> (clear_resident_frames: bool)
    ensures
        ({
            let protected = protected_key(*state, user_rotation, image_revision);
            let entries = listed_entries(
                old(render).oriented(),
                old(render).scaled(),
                protected,
                resident_animation_bytes,
                old(frames).entries(),
                old(preloads).entries(),
            );
            let base = saturated(shown_bytes(*state) + protected_bytes(old(render).oriented(), protected));
            exists|slots: Seq<ImageCacheSlot>|
                #![trigger policy_evicts(entries, base, policy, slots)]
                {
                    &&& policy_evicts(entries, base, policy, slots)
                    &&& final(render).oriented() == (if slots.contains(ImageCacheSlot::OrientedImage) {
                        None
                    } else {
                        old(render).oriented()
                    })
                    &&& final(render).scaled() == (if slots.contains(ImageCacheSlot::ScaledImage) {
                        None
                    } else {
                        old(render).scaled()
                    })
                    &&& final(frames).entries() == frames_after(old(frames).entries(), slots)
                    &&& final(preloads).entries() == preloads_after(old(preloads).entries(), slots)
                    &&& clear_resident_frames == resident_frames_evicted(slots)
                }
        }),
{
    let protected = protected_oriented_image_cache_key(state, user_rotation, image_revision);
    let protected_len = match protected {
        Some(key) => match render.oriented_image_by_key(key) {
            Some(pixels) => pixels.byte_len(),
            None => 0,
        },
        None => 0,
    };
    let base_bytes = current_image_byte_len(state).saturating_add(protected_len);
    let mut entries: Vec<MemoryCacheEntry> = Vec::new();
    render.append_memory_entries(&mut entries, protected);
    if resident_animation_bytes > 0 {
        entries.push(
            MemoryCacheEntry::new(
                ImageCacheSlot::AnimationFrame { frame_index: Some(usize::MAX) },
                resident_animation_bytes,
                0,
            ),
        );
    }
    frames.append_memory_entries(&mut entries);
    preloads.append_memory_entries(&mut entries);
    let ghost listed = listed_entries(
        old(render).oriented(),
        old(render).scaled(),
        protected,
        resident_animation_bytes,
        old(frames).entries(),
        old(preloads).entries(),
    );
    assert(entries@ =~= listed);
    let slots = memory_cache_slots_to_evict(base_bytes, entries.as_slice(), policy);
    let ghost old_frames = frames.entries();
    let ghost old_preloads = preloads.entries();
    proof {
        lemma_frames_all(old_frames);
        lemma_preloads_all(old_preloads);
        assert((|index: usize| !frame_evicted(slots@.take(0), index)) =~= (|j: usize| true));
        assert((|key: u64| !slots@.take(0).contains(ImageCacheSlot::NavigationPreload { path_key: key })) =~= (|k: u64|
            true));
    }
    let mut clear_resident = false;
    let mut k: usize = 0;
    while k < slots.len()
        invariant
            0 <= k <= slots@.len(),
            render.oriented() == (if slots@.take(k as int).contains(ImageCacheSlot::OrientedImage) {
                None
            } else {
                old(render).oriented()
            }),
            render.scaled() == (if slots@.take(k as int).contains(ImageCacheSlot::ScaledImage) {
                None
            } else {
                old(render).scaled()
            }),
            frames.entries() == frames_after(old_frames, slots@.take(k as int)),
            preloads.entries() == preloads_after(old_preloads, slots@.take(k as int)),
            clear_resident == resident_frames_evicted(slots@.take(k as int)),
        decreases slots@.len() - k,
    {
        let slot = slots[k];
        proof {
            assert(slots@.take(k + 1) == slots@.take(k as int).push(slot));
            lemma_evict_step(old_frames, old_preloads, slots@.take(k as int), slot);
        }
        match slot {
            ImageCacheSlot::OrientedImage | ImageCacheSlot::ScaledImage => render.evict(slot),
            ImageCacheSlot::AnimationFrame { frame_index } => match frame_index {
                Some(index) => {
                    if index == usize::MAX {
                        clear_resident = true;
                    } else {
                        frames.evict(index);
                    }
                },
                None => {
                    frames.clear();
                    clear_resident = true;
                },
            },
            ImageCacheSlot::NavigationPreload { path_key } => preloads.evict(path_key),
        }
        k = k + 1;
    }
    assert(slots@.take(slots@.len() as int) == slots@);
    assert(policy_evicts(listed, saturated(shown_bytes(*state) + protected_bytes(old(render).oriented(), protected)), policy, slots@));
    clear_resident
}

} // verus!

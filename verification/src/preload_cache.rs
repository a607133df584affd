//! Images decoded ahead of navigation, each with the viewport, memory policy
//! and frame timing it was decoded for.
use vstd::prelude::*;

use crate::loaded::{ready_bytes, LoadedImage};
use crate::memory::ImageMemoryPolicy;
use crate::geometry::ViewportSize;
use crate::paths::{paths_equal, same_path};
use crate::scaling::{ImageCacheSlot, MemoryCacheEntry};
use crate::settings::AnimationTimingSettings;

verus! {

/// One preloaded image, under the key of its path.
pub struct NavigationPreloadCacheEntry {
    pub path_key: u64,
    pub image: LoadedImage,
    pub viewport: ViewportSize,
    pub memory_policy: ImageMemoryPolicy,
    pub animation_timing: AnimationTimingSettings,
    pub last_used: u64,
}

/// The preloaded images, in the order they were stored (taking one moves the
/// last one into its place).
pub struct NavigationPreloadCache {
    entries: Vec<NavigationPreloadCacheEntry>,
}

/// The path of a preloaded image.
pub open spec fn entry_path(entry: NavigationPreloadCacheEntry) -> Seq<char> {
    entry.image.spec_metadata().spec_path()
}

/// Whether an entry was decoded for these settings.
pub open spec fn decoded_for(
    entry: NavigationPreloadCacheEntry,
    viewport: ViewportSize,
    memory_policy: ImageMemoryPolicy,
    animation_timing: AnimationTimingSettings,
) -> bool {
    entry.viewport == viewport && entry.memory_policy == memory_policy && entry.animation_timing == animation_timing
}

/// Whether an entry is the one stored under `path_key` for `path`.
pub open spec fn stored_under(entry: NavigationPreloadCacheEntry, path_key: u64, path: Seq<char>) -> bool {
    entry.path_key == path_key && same_path(entry_path(entry), path)
}

/// The entries under other keys than `path_key`, in order.
pub open spec fn without_key(entries: Seq<NavigationPreloadCacheEntry>, path_key: u64) -> Seq<NavigationPreloadCacheEntry>
    decreases entries.len(),
{
    if entries.len() == 0 {
        entries
    } else {
        let rest = without_key(entries.drop_last(), path_key);
        if entries.last().path_key == path_key {
            rest
        } else {
            rest.push(entries.last())
        }
    }
}

/// The bytes a loaded image keeps in memory, saturating at the top of `usize`.
pub open spec fn resident_bytes(image: LoadedImage) -> usize {
    if image.spec_pixels().bytes().len() + ready_bytes(image.spec_render_ready()) > usize::MAX {
        usize::MAX
    } else {
        (image.spec_pixels().bytes().len() + ready_bytes(image.spec_render_ready())) as usize
    }
}

/// The memory cache entry a preloaded image counts as.
pub open spec fn preload_memory_entry(entry: NavigationPreloadCacheEntry) -> MemoryCacheEntry {
    MemoryCacheEntry::spec_new(
        ImageCacheSlot::NavigationPreload { path_key: entry.path_key },
        resident_bytes(entry.image),
        entry.last_used,
    )
}

/// Whether `after` is `before` with `stored` kept: in place of the first entry
/// under the same key for the same path, or added at the end when there is none.
pub open spec fn stores(
    before: Seq<NavigationPreloadCacheEntry>,
    stored: NavigationPreloadCacheEntry,
    after: Seq<NavigationPreloadCacheEntry>,
) -> bool {
    let path = entry_path(stored);
    &&& (forall|k: int| 0 <= k < before.len() ==> !stored_under(#[trigger] before[k], stored.path_key, path))
        ==> after == before.push(stored)
    &&& (exists|k: int| 0 <= k < before.len() && stored_under(#[trigger] before[k], stored.path_key, path))
        ==> exists|k: int|
        #![trigger before[k]]
        0 <= k < before.len() && stored_under(before[k], stored.path_key, path) && (forall|j: int|
            0 <= j < k ==> !stored_under(#[trigger] before[j], stored.path_key, path)) && after == before.update(k, stored)
}

/// Whether an image for `path` was preloaded for these settings.
pub open spec fn has_current_preload(
    entries: Seq<NavigationPreloadCacheEntry>,
    path: Seq<char>,
    viewport: ViewportSize,
    memory_policy: ImageMemoryPolicy,
    animation_timing: AnimationTimingSettings,
) -> bool {
    exists|k: int|
        0 <= k < entries.len() && same_path(entry_path(#[trigger] entries[k]), path) && decoded_for(
            entries[k],
            viewport,
            memory_policy,
            animation_timing,
        )
}

impl NavigationPreloadCache {
    /// The preloaded images, in order.
    pub closed spec fn entries(&self) -> Seq<NavigationPreloadCacheEntry> {
        self.entries@
    }

    /// Nothing preloaded.
    pub fn new() -> (cache: Self)
        ensures
            cache.entries() == Seq::<NavigationPreloadCacheEntry>::empty(),
    {
        Self { entries: Vec::new() }
    }

    /// The number of preloaded images.
    pub fn len(&self) -> (len: usize)
        ensures
            len == self.entries().len(),
    {
        self.entries.len()
    }

    /// Keeps `image` under `path_key`: it replaces the first entry stored under
    /// that key for the same path, and is added at the end otherwise.
    pub fn store(
        &mut self,
        path_key: u64,
        image: LoadedImage,
        viewport: ViewportSize,
        memory_policy: ImageMemoryPolicy,
        animation_timing: AnimationTimingSettings,
        last_used: u64,
    )
        ensures
            stores(
                old(self).entries(),
                NavigationPreloadCacheEntry { path_key, image, viewport, memory_policy, animation_timing, last_used },
                final(self).entries(),
            ),
    {
        let mut position: usize = 0;
        while position < self.entries.len()
            invariant
                self.entries@ == old(self).entries@,
                0 <= position <= self.entries@.len(),
                forall|j: int|
                    0 <= j < position ==> !stored_under(
                        #[trigger] self.entries@[j],
                        path_key,
                        image.spec_metadata().spec_path(),
                    ),
            ensures
                self.entries@ == old(self).entries@,
                0 <= position <= self.entries@.len(),
                forall|j: int|
                    0 <= j < position ==> !stored_under(
                        #[trigger] self.entries@[j],
                        path_key,
                        image.spec_metadata().spec_path(),
                    ),
                position < self.entries@.len() ==> stored_under(
                    self.entries@[position as int],
                    path_key,
                    image.spec_metadata().spec_path(),
                ),
            decreases self.entries@.len() - position,
        {
            let entry = &self.entries[position];
            if entry.path_key == path_key && paths_equal(entry.image.metadata().path(), image.metadata().path()) {
                break;
            }
            position = position + 1;
        }
        let stored = NavigationPreloadCacheEntry { path_key, image, viewport, memory_policy, animation_timing, last_used };
        if position < self.entries.len() {
            self.entries.set(position, stored);
        } else {
            self.entries.push(stored);
        }
    }

    /// Removes the first image preloaded for `path` and hands it out when it
    /// was decoded for these settings; an image decoded for other settings is
    /// dropped. The last entry takes the place of the one removed. Whether the
    /// file changed on disk since is left to the caller.
    pub fn take_current(
        &mut self,
        path: &str,
        viewport: ViewportSize,
        memory_policy: ImageMemoryPolicy,
        animation_timing: AnimationTimingSettings,
    ) -> (image: Option<LoadedImage>)
        ensures
            (forall|k: int|
                0 <= k < old(self).entries().len() ==> !same_path(entry_path(#[trigger] old(self).entries()[k]), path@))
                ==> final(self).entries() == old(self).entries() && image is None,
            (exists|k: int|
                0 <= k < old(self).entries().len() && same_path(entry_path(#[trigger] old(self).entries()[k]), path@))
                ==> exists|k: int|
                #![trigger old(self).entries()[k]]
                0 <= k < old(self).entries().len() && same_path(entry_path(old(self).entries()[k]), path@) && (forall|
                    j: int,
                | 0 <= j < k ==> !same_path(entry_path(#[trigger] old(self).entries()[j]), path@))
                    && final(self).entries() == old(self).entries().update(k, old(self).entries().last()).drop_last()
                    && image == (if decoded_for(old(self).entries()[k], viewport, memory_policy, animation_timing) {
                    Some(old(self).entries()[k].image)
                } else {
                    None
                }),
    {
        let mut position: usize = 0;
        while position < self.entries.len()
            invariant
                self.entries@ == old(self).entries@,
                0 <= position <= self.entries@.len(),
                forall|j: int| 0 <= j < position ==> !same_path(entry_path(#[trigger] self.entries@[j]), path@),
            ensures
                self.entries@ == old(self).entries@,
                0 <= position <= self.entries@.len(),
                forall|j: int| 0 <= j < position ==> !same_path(entry_path(#[trigger] self.entries@[j]), path@),
                position < self.entries@.len() ==> same_path(entry_path(self.entries@[position as int]), path@),
            decreases self.entries@.len() - position,
        {
            if paths_equal(self.entries[position].image.metadata().path(), path) {
                break;
            }
            position = position + 1;
        }
        if position == self.entries.len() {
            return None;
        }
        let entry = self.entries.swap_remove(position);
        assert(old(self).entries()[position as int] == entry);
        if entry.viewport != viewport || entry.memory_policy != memory_policy || entry.animation_timing != animation_timing {
            return None;
        }
        Some(entry.image)
    }

    /// Whether an image for `path` was preloaded for these settings.
    pub fn has_current(
        &self,
        path: &str,
        viewport: ViewportSize,
        memory_policy: ImageMemoryPolicy,
        animation_timing: AnimationTimingSettings,
    ) -> (found: bool)
        ensures
            found == has_current_preload(self.entries(), path@, viewport, memory_policy, animation_timing),
    {
        let mut index: usize = 0;
        while index < self.entries.len()
            invariant
                0 <= index <= self.entries@.len(),
                forall|j: int|
                    0 <= j < index ==> !(same_path(entry_path(#[trigger] self.entries@[j]), path@) && decoded_for(
                        self.entries@[j],
                        viewport,
                        memory_policy,
                        animation_timing,
                    )),
            decreases self.entries@.len() - index,
        {
            let entry = &self.entries[index];
            if paths_equal(entry.image.metadata().path(), path) && entry.viewport == viewport && entry.memory_policy
                == memory_policy && entry.animation_timing == animation_timing {
                assert(same_path(entry_path(self.entries()[index as int]), path@) && decoded_for(
                    self.entries()[index as int],
                    viewport,
                    memory_policy,
                    animation_timing,
                ));
                return true;
            }
            index = index + 1;
        }
        false
    }

    /// Drops every preloaded image.
    pub fn clear(&mut self)
        ensures
            final(self).entries() == Seq::<NavigationPreloadCacheEntry>::empty(),
    {
        self.entries = Vec::new();
    }

    /// Drops the images stored under `path_key`.
    pub fn evict(&mut self, path_key: u64)
        ensures
            final(self).entries() == without_key(old(self).entries(), path_key),
    {
        let mut taken: Vec<NavigationPreloadCacheEntry> = Vec::new();
        std::mem::swap(&mut taken, &mut self.entries);
        let ghost target = without_key(taken@, path_key);
        let mut kept_reversed: Vec<NavigationPreloadCacheEntry> = Vec::new();
        while taken.len() > 0
            invariant
                target == without_key(taken@, path_key) + kept_reversed@.reverse(),
            decreases taken@.len(),
        {
            let ghost before = taken@;
            let entry = taken.pop().unwrap();
            assert(before.drop_last() == taken@);
            if entry.path_key != path_key {
                let ghost reversed_before = kept_reversed@;
                kept_reversed.push(entry);
                assert(kept_reversed@.reverse() =~= seq![entry] + reversed_before.reverse());
                assert(without_key(before, path_key) == without_key(taken@, path_key).push(entry));
                assert(target =~= without_key(taken@, path_key) + kept_reversed@.reverse());
            }
        }
        let mut kept: Vec<NavigationPreloadCacheEntry> = Vec::new();
        while kept_reversed.len() > 0
            invariant
                target == kept@ + kept_reversed@.reverse(),
            decreases kept_reversed@.len(),
        {
            let ghost before = kept_reversed@;
            let entry = kept_reversed.pop().unwrap();
            assert(before.reverse() =~= seq![entry] + kept_reversed@.reverse());
            kept.push(entry);
            assert(target =~= kept@ + kept_reversed@.reverse());
        }
        assert(kept@ =~= target);
        self.entries = kept;
    }

    /// Appends the memory cache entry of each preloaded image, in order.
    pub fn append_memory_entries(&self, entries: &mut Vec<MemoryCacheEntry>)
        ensures
            final(entries)@ == old(entries)@ + self.entries().map_values(|entry| preload_memory_entry(entry)),
    {
        let ghost start = entries@;
        let mut index: usize = 0;
        while index < self.entries.len()
            invariant
                0 <= index <= self.entries@.len(),
                entries@ == start + self.entries@.take(index as int).map_values(|entry| preload_memory_entry(entry)),
            decreases self.entries@.len() - index,
        {
            let entry = &self.entries[index];
            entries.push(
                MemoryCacheEntry::new(
                    ImageCacheSlot::NavigationPreload { path_key: entry.path_key },
                    entry.image.resident_byte_len(),
                    entry.last_used,
                ),
            );
            assert(self.entries@.take(index + 1).map_values(|entry| preload_memory_entry(entry))
                =~= self.entries@.take(index as int).map_values(|entry| preload_memory_entry(entry)).push(
                preload_memory_entry(self.entries@[index as int]),
            ));
            index = index + 1;
        }
        assert(self.entries@.take(self.entries@.len() as int) =~= self.entries@);
    }
}

} // verus!

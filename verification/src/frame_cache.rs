//! Decoded animation frames kept for reuse: at most one per frame index, each
//! with the paint count at which it was last used.
use std::sync::Arc;
use vstd::prelude::*;

use crate::pixels::Rgba8Image;
use crate::scaling::{ImageCacheSlot, MemoryCacheEntry};

verus! {

/// One cached frame.
pub struct AnimationFrameCacheEntry {
    pub frame_index: usize,
    pub rgba8: Arc<Rgba8Image>,
    pub last_used: u64,
}

/// The cached frames, in the order they were stored (taking a frame moves the
/// last one into its place).
pub struct AnimationFrameCache {
    entries: Vec<AnimationFrameCacheEntry>,
}

/// No frame index occurs twice.
pub open spec fn frame_indexes_unique(entries: Seq<AnimationFrameCacheEntry>) -> bool {
    forall|i: int, j: int|
        0 <= i < j < entries.len() ==> #[trigger] entries[i].frame_index != #[trigger] entries[j].frame_index
}

/// The entries for other frames than `frame_index`, in order.
pub open spec fn without_frame(entries: Seq<AnimationFrameCacheEntry>, frame_index: usize) -> Seq<AnimationFrameCacheEntry>
    decreases entries.len(),
{
    if entries.len() == 0 {
        entries
    } else {
        let rest = without_frame(entries.drop_last(), frame_index);
        if entries.last().frame_index == frame_index {
            rest
        } else {
            rest.push(entries.last())
        }
    }
}

/// The memory cache entry a cached frame counts as.
pub open spec fn frame_memory_entry(entry: AnimationFrameCacheEntry) -> MemoryCacheEntry {
    MemoryCacheEntry::spec_new(
        ImageCacheSlot::AnimationFrame { frame_index: Some(entry.frame_index) },
        (*entry.rgba8).bytes().len() as usize,
        entry.last_used,
    )
}

/// Whether `position` is the first entry for `frame_index`.
pub open spec fn first_frame_position(entries: Seq<AnimationFrameCacheEntry>, frame_index: usize, position: int) -> bool {
    &&& 0 <= position < entries.len()
    &&& entries[position].frame_index == frame_index
    &&& forall|j: int| 0 <= j < position ==> #[trigger] entries[j].frame_index != frame_index
}

/// Whether `after` is `before` with `rgba8` kept as frame `frame_index`
/// (replacing an earlier copy) when it is no larger than `max_entry_bytes`,
/// and `before` unchanged otherwise.
pub open spec fn frame_stored(
    before: Seq<AnimationFrameCacheEntry>,
    frame_index: usize,
    rgba8: Rgba8Image,
    max_entry_bytes: usize,
    last_used: u64,
    after: Seq<AnimationFrameCacheEntry>,
) -> bool {
    if rgba8.bytes().len() > max_entry_bytes {
        after == before
    } else {
        &&& after.len() > 0
        &&& after.drop_last() == without_frame(before, frame_index)
        &&& after.last().frame_index == frame_index
        &&& *after.last().rgba8 == rgba8
        &&& after.last().last_used == last_used
    }
}

/// What removing the entry at `position` leaves: the last entry takes its place.
pub open spec fn swap_removed<T>(entries: Seq<T>, position: int) -> Seq<T> {
    entries.update(position, entries.last()).drop_last()
}

proof fn lemma_without_frame_excludes(entries: Seq<AnimationFrameCacheEntry>, frame_index: usize)
    ensures
        forall|k: int|
            0 <= k < without_frame(entries, frame_index).len() ==> (#[trigger] without_frame(
                entries,
                frame_index,
            )[k]).frame_index != frame_index,
        forall|k: int|
            0 <= k < without_frame(entries, frame_index).len() ==> entries.contains(
                #[trigger] without_frame(entries, frame_index)[k],
            ),
        without_frame(entries, frame_index).len() <= entries.len(),
    decreases entries.len(),
{
    if entries.len() > 0 {
        lemma_without_frame_excludes(entries.drop_last(), frame_index);
        let rest = without_frame(entries.drop_last(), frame_index);
        assert forall|k: int| 0 <= k < rest.len() implies entries.contains(#[trigger] rest[k]) by {
            assert(entries.drop_last().contains(rest[k]));
            let m = choose|m: int| 0 <= m < entries.drop_last().len() && entries.drop_last()[m] == rest[k];
            assert(entries[m] == rest[k]);
        }
        assert(entries[entries.len() - 1] == entries.last());
    }
}

proof fn lemma_without_frame_unique(entries: Seq<AnimationFrameCacheEntry>, frame_index: usize)
    requires
        frame_indexes_unique(entries),
    ensures
        frame_indexes_unique(without_frame(entries, frame_index)),
    decreases entries.len(),
{
    if entries.len() > 0 {
        let front = entries.drop_last();
        assert(frame_indexes_unique(front)) by {
            assert forall|i: int, j: int| 0 <= i < j < front.len() implies #[trigger] front[i].frame_index
                != #[trigger] front[j].frame_index by {
                assert(front[i] == entries[i] && front[j] == entries[j]);
            }
        }
        lemma_without_frame_unique(front, frame_index);
        lemma_without_frame_excludes(front, frame_index);
        let rest = without_frame(front, frame_index);
        if entries.last().frame_index != frame_index {
            assert forall|k: int| 0 <= k < rest.len() implies #[trigger] rest[k].frame_index
                != entries.last().frame_index by {
                assert(front.contains(rest[k]));
                let m = choose|m: int| 0 <= m < front.len() && front[m] == rest[k];
                assert(entries[m] == rest[k]);
                assert(entries[entries.len() - 1] == entries.last());
            }
            let pushed = rest.push(entries.last());
            assert forall|i: int, j: int| 0 <= i < j < pushed.len() implies #[trigger] pushed[i].frame_index
                != #[trigger] pushed[j].frame_index by {
                if j == pushed.len() - 1 {
                    assert(pushed[i] == rest[i]);
                } else {
                    assert(pushed[i] == rest[i] && pushed[j] == rest[j]);
                }
            }
        }
    }
}

impl AnimationFrameCache {
    /// The cached frames, in order.
    pub closed spec fn entries(&self) -> Seq<AnimationFrameCacheEntry> {
        self.entries@
    }

    #[verifier::type_invariant]
    closed spec fn unique(&self) -> bool {
        frame_indexes_unique(self.entries@)
    }

    /// No frames cached.
    pub fn new() -> (cache: Self)
        ensures
            cache.entries() == Seq::<AnimationFrameCacheEntry>::empty(),
    {
        Self { entries: Vec::new() }
    }

    /// The number of cached frames.
    pub fn len(&self) -> (len: usize)
        ensures
            len == self.entries().len(),
    {
        self.entries.len()
    }

    /// Keeps `rgba8` as frame `frame_index`, replacing an earlier copy, when
    /// it is no larger than `max_entry_bytes`; leaves the cache unchanged
    /// otherwise. No frame index occurs twice afterwards.
    pub fn store(&mut self, frame_index: usize, rgba8: Rgba8Image, max_entry_bytes: usize, last_used: u64)
        ensures
            frame_stored(old(self).entries(), frame_index, rgba8, max_entry_bytes, last_used, final(self).entries()),
            frame_indexes_unique(final(self).entries()),
    {
        proof {
            use_type_invariant(&*self);
        }
        if rgba8.byte_len() > max_entry_bytes {
            return;
        }
        let rgba8 = Arc::new(rgba8);
        let mut kept: Vec<AnimationFrameCacheEntry> = Vec::new();
        let ghost original = self.entries@;
        let taken = &self.entries;
        let mut index: usize = 0;
        while index < taken.len()
            invariant
                taken@ == original,
                0 <= index <= taken.len(),
                kept@ == without_frame(original.take(index as int), frame_index),
            decreases taken.len() - index,
        {
            assert(original.take(index + 1).drop_last() =~= original.take(index as int));
            let entry = &taken[index];
            if entry.frame_index != frame_index {
                kept.push(
                    AnimationFrameCacheEntry {
                        frame_index: entry.frame_index,
                        rgba8: crate::shared::share(&entry.rgba8),
                        last_used: entry.last_used,
                    },
                );
            }
            index = index + 1;
        }
        assert(original.take(taken.len() as int) =~= original);
        proof {
            lemma_without_frame_unique(original, frame_index);
            lemma_without_frame_excludes(original, frame_index);
        }
        let ghost before_push = kept@;
        kept.push(AnimationFrameCacheEntry { frame_index, rgba8, last_used });
        assert(kept@.drop_last() =~= before_push);
        assert(frame_indexes_unique(kept@)) by {
            assert forall|i: int, j: int| 0 <= i < j < kept@.len() implies #[trigger] kept@[i].frame_index
                != #[trigger] kept@[j].frame_index by {
                assert(kept@[i] == before_push[i]);
                if j < before_push.len() {
                    assert(kept@[j] == before_push[j]);
                }
            }
        }
        self.entries = kept;
    }

    /// Removes frame `frame_index` and hands it out, when it is cached: the
    /// last entry takes its place.
    pub fn take(&mut self, frame_index: usize) -> (rgba8: Option<Arc<Rgba8Image>>)
        ensures
            match rgba8 {
                Some(frame) => exists|position: int|
                    #![trigger old(self).entries()[position]]
                    first_frame_position(old(self).entries(), frame_index, position) && frame
                        == old(self).entries()[position].rgba8 && final(self).entries() == swap_removed(
                        old(self).entries(),
                        position,
                    ),
                None => final(self).entries() == old(self).entries() && forall|k: int|
                    0 <= k < old(self).entries().len() ==> (#[trigger] old(self).entries()[k]).frame_index
                        != frame_index,
            },
            frame_indexes_unique(final(self).entries()),
    {
        proof {
            use_type_invariant(&*self);
        }
        let ghost before = self.entries@;
        let mut position: usize = 0;
        while position < self.entries.len()
            invariant
                self.entries@ == before,
                0 <= position <= self.entries@.len(),
                forall|j: int| 0 <= j < position ==> #[trigger] self.entries@[j].frame_index != frame_index,
            ensures
                self.entries@ == before,
                0 <= position <= self.entries@.len(),
                forall|j: int| 0 <= j < position ==> #[trigger] self.entries@[j].frame_index != frame_index,
                position < self.entries@.len() ==> self.entries@[position as int].frame_index == frame_index,
            decreases self.entries@.len() - position,
        {
            if self.entries[position].frame_index == frame_index {
                break;
            }
            position = position + 1;
        }
        if position == self.entries.len() {
            return None;
        }
        let mut entries: Vec<AnimationFrameCacheEntry> = Vec::new();
        std::mem::swap(&mut entries, &mut self.entries);
        let entry = entries.swap_remove(position);
        assert(frame_indexes_unique(entries@)) by {
            assert forall|i: int, j: int| 0 <= i < j < entries@.len() implies #[trigger] entries@[i].frame_index
                != #[trigger] entries@[j].frame_index by {
                let last = before.len() - 1;
                let oi = if i == position { last } else { i };
                let oj = if j == position { last } else { j };
                assert(entries@[i] == before[oi] && entries@[j] == before[oj]);
            }
        }
        self.entries = entries;
        assert(first_frame_position(before, frame_index, position as int));
        assert(old(self).entries()[position as int].rgba8 == entry.rgba8);
        assert(self.entries@ == swap_removed(before, position as int));
        Some(entry.rgba8)
    }

    /// Drops frame `frame_index`, if it is cached.
    pub fn evict(&mut self, frame_index: usize)
        ensures
            final(self).entries() == without_frame(old(self).entries(), frame_index),
            frame_indexes_unique(final(self).entries()),
    {
        proof {
            use_type_invariant(&*self);
        }
        let ghost original = self.entries@;
        let taken = &self.entries;
        let mut kept: Vec<AnimationFrameCacheEntry> = Vec::new();
        let mut index: usize = 0;
        while index < taken.len()
            invariant
                taken@ == original,
                0 <= index <= taken.len(),
                kept@ == without_frame(original.take(index as int), frame_index),
            decreases taken.len() - index,
        {
            assert(original.take(index + 1).drop_last() =~= original.take(index as int));
            let entry = &taken[index];
            if entry.frame_index != frame_index {
                kept.push(
                    AnimationFrameCacheEntry {
                        frame_index: entry.frame_index,
                        rgba8: crate::shared::share(&entry.rgba8),
                        last_used: entry.last_used,
                    },
                );
            }
            index = index + 1;
        }
        assert(original.take(taken.len() as int) =~= original);
        proof {
            lemma_without_frame_unique(original, frame_index);
        }
        self.entries = kept;
    }

    /// Drops every cached frame.
    pub fn clear(&mut self)
        ensures
            final(self).entries() == Seq::<AnimationFrameCacheEntry>::empty(),
    {
        self.entries = Vec::new();
    }

    /// Appends the memory cache entry of each cached frame, in order.
    pub fn append_memory_entries(&self, entries: &mut Vec<MemoryCacheEntry>)
        ensures
            final(entries)@ == old(entries)@ + self.entries().map_values(|entry| frame_memory_entry(entry)),
    {
        let ghost start = entries@;
        let mut index: usize = 0;
        while index < self.entries.len()
            invariant
                0 <= index <= self.entries@.len(),
                entries@ == start + self.entries@.take(index as int).map_values(|entry| frame_memory_entry(entry)),
            decreases self.entries@.len() - index,
        {
            let entry = &self.entries[index];
            entries.push(
                MemoryCacheEntry::new(
                    ImageCacheSlot::AnimationFrame { frame_index: Some(entry.frame_index) },
                    entry.rgba8.byte_len(),
                    entry.last_used,
                ),
            );
            assert(self.entries@.take(index + 1).map_values(|entry| frame_memory_entry(entry)) =~= self.entries@.take(
                index as int,
            ).map_values(|entry| frame_memory_entry(entry)).push(frame_memory_entry(self.entries@[index as int])));
            index = index + 1;
        }
        assert(self.entries@.take(self.entries@.len() as int) =~= self.entries@);
    }
}

} // verus!

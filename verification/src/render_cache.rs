//! The two render caches of the displayed image: an upright (oriented) copy
//! of the decoded pixels and a copy scaled to the size it is drawn at.
use std::sync::Arc;
use vstd::prelude::*;

use crate::geometry::{ImageOrientation, ImageSize};
use crate::pixels::PixelImage;
use crate::scaling::{ImageCacheSlot, MemoryCacheEntry, ScalingCacheKey};
use crate::shared::share;

verus! {

/// What an oriented copy was made from: the image revision, the stored size
/// and the orientation that was applied.
#[derive(Debug, Clone, Copy, PartialEq, Eq, Structural)]
pub struct OrientedImageCacheKey {
    pub image_revision: u64,
    pub source_size: ImageSize,
    pub orientation: ImageOrientation,
}

impl OrientedImageCacheKey {
    pub fn new(image_revision: u64, source_size: ImageSize, orientation: ImageOrientation) -> (key: Self)
        ensures
            key == (OrientedImageCacheKey { image_revision, source_size, orientation }),
    {
        Self { image_revision, source_size, orientation }
    }

    pub open spec fn spec_display_size(self) -> ImageSize {
        self.source_size.oriented(self.orientation)
    }

    /// The size of the upright copy.
    #[verifier::when_used_as_spec(spec_display_size)]
    pub fn display_size(self) -> (size: ImageSize)
        ensures
            size == self.display_size(),
    {
        self.source_size.with_orientation(self.orientation)
    }
}

/// An upright copy of the image, shared with whoever draws it.
pub struct OrientedImageCache {
    pub key: OrientedImageCacheKey,
    pub pixels: Arc<PixelImage>,
    pub last_used: u64,
}

/// A copy of the image scaled for drawing.
pub struct ScaledImageCache {
    pub key: ScalingCacheKey,
    pub pixels: PixelImage,
    pub last_used: u64,
}

/// The oriented and the scaled copy of the displayed image, each present or not.
pub struct RenderCache {
    oriented_image: Option<OrientedImageCache>,
    scaled_image: Option<ScaledImageCache>,
}

/// Whether an oriented copy is the one a key asks for: same key, and pixels of
/// the upright size.
pub open spec fn oriented_matches(cache: OrientedImageCache, key: OrientedImageCacheKey) -> bool {
    cache.key == key && (*cache.pixels).spec_size() == key.display_size()
}

/// The cache entry an oriented copy counts as, unless it is the protected one.
pub open spec fn oriented_entries(
    oriented: Option<OrientedImageCache>,
    protected: Option<OrientedImageCacheKey>,
) -> Seq<MemoryCacheEntry> {
    match oriented {
        Some(cache) => if protected == Some(cache.key) {
            Seq::empty()
        } else {
            seq![MemoryCacheEntry::spec_new(ImageCacheSlot::OrientedImage, (*cache.pixels).bytes().len() as usize, cache.last_used)]
        },
        None => Seq::empty(),
    }
}

/// The cache entry a scaled copy counts as.
pub open spec fn scaled_entries(scaled: Option<ScaledImageCache>) -> Seq<MemoryCacheEntry> {
    match scaled {
        Some(cache) => seq![MemoryCacheEntry::spec_new(ImageCacheSlot::ScaledImage, cache.pixels.bytes().len() as usize, cache.last_used)],
        None => Seq::empty(),
    }
}

impl RenderCache {
    pub closed spec fn oriented(&self) -> Option<OrientedImageCache> {
        self.oriented_image
    }

    pub closed spec fn scaled(&self) -> Option<ScaledImageCache> {
        self.scaled_image
    }

    /// Both caches empty.
    pub fn new() -> (cache: Self)
        ensures
            cache.oriented() is None,
            cache.scaled() is None,
    {
        Self { oriented_image: None, scaled_image: None }
    }

    pub fn clear_all(&mut self)
        ensures
            final(self).oriented() is None,
            final(self).scaled() is None,
    {
        self.oriented_image = None;
        self.scaled_image = None;
    }

    pub fn clear_oriented(&mut self)
        ensures
            final(self).oriented() is None,
            final(self).scaled() == old(self).scaled(),
    {
        self.oriented_image = None;
    }

    pub fn clear_scaled(&mut self)
        ensures
            final(self).oriented() == old(self).oriented(),
            final(self).scaled() is None,
    {
        self.scaled_image = None;
    }

    /// Whether the oriented copy is missing or was made for another key.
    pub fn oriented_image_needs_rebuild(&self, image_revision: u64, source_size: ImageSize, orientation: ImageOrientation) -> (rebuild: bool)
        ensures
            rebuild == match self.oriented() {
                Some(cache) => cache.key != (OrientedImageCacheKey { image_revision, source_size, orientation }),
                None => true,
            },
    {
        let key = OrientedImageCacheKey::new(image_revision, source_size, orientation);
        match &self.oriented_image {
            Some(cache) => cache.key != key,
            None => true,
        }
    }

    /// Keeps `pixels` as the oriented copy for the given key.
    pub fn store_oriented_image(
        &mut self,
        image_revision: u64,
        source_size: ImageSize,
        orientation: ImageOrientation,
        pixels: PixelImage,
        last_used: u64,
    )
        ensures
            final(self).oriented() matches Some(cache) && cache.key == (OrientedImageCacheKey {
                image_revision,
                source_size,
                orientation,
            }) && *cache.pixels == pixels && cache.last_used == last_used,
            final(self).scaled() == old(self).scaled(),
    {
        self.oriented_image = Some(
            OrientedImageCache {
                key: OrientedImageCacheKey::new(image_revision, source_size, orientation),
                pixels: Arc::new(pixels),
                last_used,
            },
        );
    }

    /// The oriented copy, when it was made for these values and has the upright size.
    pub fn matching_oriented_image(&self, image_revision: u64, source_size: ImageSize, orientation: ImageOrientation) -> (cache: Option<&OrientedImageCache>)
        ensures
            match self.oriented() {
                Some(stored) => if oriented_matches(
                    stored,
                    OrientedImageCacheKey { image_revision, source_size, orientation },
                ) {
                    cache == Some(&stored)
                } else {
                    cache is None
                },
                None => cache is None,
            },
    {
        self.matching_oriented_image_by_key(OrientedImageCacheKey::new(image_revision, source_size, orientation))
    }

    /// The oriented copy, when it was made for `key` and has the upright size.
    pub fn matching_oriented_image_by_key(&self, key: OrientedImageCacheKey) -> (cache: Option<&OrientedImageCache>)
        ensures
            match self.oriented() {
                Some(stored) => if oriented_matches(stored, key) {
                    cache == Some(&stored)
                } else {
                    cache is None
                },
                None => cache is None,
            },
    {
        match &self.oriented_image {
            Some(cache) => {
                if cache.key == key && cache.pixels.size() == key.display_size() {
                    Some(cache)
                } else {
                    None
                }
            },
            None => None,
        }
    }

    /// The pixels of the oriented copy made for `key`, if it is there.
    pub fn oriented_image_by_key(&self, key: OrientedImageCacheKey) -> (pixels: Option<&PixelImage>)
        ensures
            match self.oriented() {
                Some(stored) => if oriented_matches(stored, key) {
                    pixels == Some(&*stored.pixels)
                } else {
                    pixels is None
                },
                None => pixels is None,
            },
    {
        match self.matching_oriented_image_by_key(key) {
            Some(cache) => Some(&*cache.pixels),
            None => None,
        }
    }

    /// The pixels of the oriented copy made for these values, if it is there.
    pub fn oriented_image(&self, image_revision: u64, source_size: ImageSize, orientation: ImageOrientation) -> (pixels: Option<&PixelImage>)
        ensures
            match self.oriented() {
                Some(stored) => if oriented_matches(
                    stored,
                    OrientedImageCacheKey { image_revision, source_size, orientation },
                ) {
                    pixels == Some(&*stored.pixels)
                } else {
                    pixels is None
                },
                None => pixels is None,
            },
    {
        self.oriented_image_by_key(OrientedImageCacheKey::new(image_revision, source_size, orientation))
    }

    /// A second handle to the oriented copy made for these values, if it is there.
    pub fn shared_oriented_image(&self, image_revision: u64, source_size: ImageSize, orientation: ImageOrientation) -> (pixels: Option<Arc<PixelImage>>)
        ensures
            match self.oriented() {
                Some(stored) => if oriented_matches(
                    stored,
                    OrientedImageCacheKey { image_revision, source_size, orientation },
                ) {
                    pixels == Some(stored.pixels)
                } else {
                    pixels is None
                },
                None => pixels is None,
            },
    {
        match self.matching_oriented_image(image_revision, source_size, orientation) {
            Some(cache) => Some(share(&cache.pixels)),
            None => None,
        }
    }

    /// The key of the scaled copy, if there is one.
    pub fn scaled_key(&self) -> (key: Option<ScalingCacheKey>)
        ensures
            key == match self.scaled() {
                Some(cache) => Some(cache.key),
                None => None::<ScalingCacheKey>,
            },
    {
        match &self.scaled_image {
            Some(cache) => Some(cache.key),
            None => None,
        }
    }

    /// Keeps `pixels` as the scaled copy for `key`.
    pub fn store_scaled_image(&mut self, key: ScalingCacheKey, pixels: PixelImage, last_used: u64)
        ensures
            final(self).scaled() == Some(ScaledImageCache { key, pixels, last_used }),
            final(self).oriented() == old(self).oriented(),
    {
        self.scaled_image = Some(ScaledImageCache { key, pixels, last_used });
    }

    /// The scaled copy, when it was made for `key`.
    pub fn scaled_image(&self, key: ScalingCacheKey) -> (cache: Option<&ScaledImageCache>)
        ensures
            match self.scaled() {
                Some(stored) => if stored.key == key {
                    cache == Some(&stored)
                } else {
                    cache is None
                },
                None => cache is None,
            },
    {
        match &self.scaled_image {
            Some(cache) => {
                if cache.key == key {
                    Some(cache)
                } else {
                    None
                }
            },
            None => None,
        }
    }

    /// Appends the memory cache entries of the copies held: the oriented copy
    /// unless it is the protected one, then the scaled copy.
    pub fn append_memory_entries(&self, entries: &mut Vec<MemoryCacheEntry>, protected_oriented_image: Option<OrientedImageCacheKey>)
        ensures
            final(entries)@ == old(entries)@ + oriented_entries(self.oriented(), protected_oriented_image)
                + scaled_entries(self.scaled()),
    {
        if let Some(cache) = &self.oriented_image {
            let protected = match protected_oriented_image {
                Some(key) => key == cache.key,
                None => false,
            };
            if !protected {
                entries.push(MemoryCacheEntry::new(ImageCacheSlot::OrientedImage, cache.pixels.byte_len(), cache.last_used));
            }
        }
        if let Some(cache) = &self.scaled_image {
            entries.push(MemoryCacheEntry::new(ImageCacheSlot::ScaledImage, cache.pixels.byte_len(), cache.last_used));
        }
        assert(final(entries)@ =~= old(entries)@ + oriented_entries(self.oriented(), protected_oriented_image)
            + scaled_entries(self.scaled()));
    }

    /// Drops the copy that `slot` names; other slots are not held here.
    pub fn evict(&mut self, slot: ImageCacheSlot)
        ensures
            final(self).oriented() == (if slot is OrientedImage {
                None
            } else {
                old(self).oriented()
            }),
            final(self).scaled() == (if slot is ScaledImage {
                None
            } else {
                old(self).scaled()
            }),
    {
        match slot {
            ImageCacheSlot::OrientedImage => self.oriented_image = None,
            ImageCacheSlot::ScaledImage => self.scaled_image = None,
            ImageCacheSlot::AnimationFrame { .. } | ImageCacheSlot::NavigationPreload { .. } => {},
        }
    }

    pub fn has_oriented_image(&self) -> (present: bool)
        ensures
            present == self.oriented() is Some,
    {
        self.oriented_image.is_some()
    }

    pub fn has_scaled_image(&self) -> (present: bool)
        ensures
            present == self.scaled() is Some,
    {
        self.scaled_image.is_some()
    }
}

impl Default for RenderCache {
    fn default() -> (cache: Self)
        ensures
            cache.oriented() is None,
            cache.scaled() is None,
    {
        Self::new()
    }
}

} // verus!

//! The entries of the image list.

use vstd::prelude::*;

use crate::load_state::LoadState;

verus! {

/// Metadata of a source image.
#[derive(Clone, Copy, Debug)]
pub struct Metadata {
    /// The dimensions of the image: (width, height)
    pub dimensions: (u32, u32),
    /// The short name of the image's format, e.g. "png"
    pub format: Option<&'static str>,
}

/// An image of the image list, with the load state of its full image, its
/// thumbnail and its metadata.
///
/// `T` is the loaded form of an image (for example a handle of the canvas
/// that holds its pixels).
pub struct Image<T> {
    /// The path of the source image
    path: String,
    /// The full image
    full: LoadState<T>,
    /// The thumbnail
    thumbnail: LoadState<T>,
    /// The metadata of the source image
    metadata: LoadState<Metadata>,
    /// Whether the source is known to be unloadable
    unloadable: bool,
}

impl<T> Image<T> {
    pub closed spec fn path_spec(&self) -> Seq<char> {
        self.path@
    }

    pub closed spec fn full_spec(&self) -> LoadState<T> {
        self.full
    }

    pub closed spec fn thumbnail_spec(&self) -> LoadState<T> {
        self.thumbnail
    }

    pub closed spec fn metadata_spec(&self) -> LoadState<Metadata> {
        self.metadata
    }

    pub closed spec fn unloadable_spec(&self) -> bool {
        self.unloadable
    }

    /// A source known to be unloadable has no full image loaded.
    #[verifier::type_invariant]
    closed spec fn unloadable_unloaded(&self) -> bool {
        self.unloadable ==> self.full is Unloaded
    }

    /// An entry with nothing loaded.
    pub fn new_unloaded(path: String) -> (r: Self)
        ensures
            r.path_spec() == path@,
            r.full_spec() is Unloaded,
            r.thumbnail_spec() is Unloaded,
            r.metadata_spec() is Unloaded,
            !r.unloadable_spec(),
    {
        Image {
            path,
            full: LoadState::Unloaded,
            thumbnail: LoadState::Unloaded,
            metadata: LoadState::Unloaded,
            unloadable: false,
        }
    }

    /// The path of the source image.
    pub fn path(&self) -> (r: &str)
        ensures
            r@ == self.path_spec(),
    {
        self.path.as_str()
    }

    /// The full image.
    pub fn full(&self) -> (r: &LoadState<T>)
        ensures
            *r == self.full_spec(),
    {
        &self.full
    }

    /// The thumbnail.
    pub fn thumbnail(&self) -> (r: &LoadState<T>)
        ensures
            *r == self.thumbnail_spec(),
    {
        &self.thumbnail
    }

    /// The metadata of the source image.
    pub fn metadata(&self) -> (r: &LoadState<Metadata>)
        ensures
            *r == self.metadata_spec(),
    {
        &self.metadata
    }

    /// Whether the source image is known to be unloadable.
    pub fn is_unloadable(&self) -> (r: bool)
        ensures
            r == self.unloadable_spec(),
    {
        self.unloadable
    }

    /// Mark the source image as unloadable.
    pub fn mark_unloadable(&mut self)
        requires
            old(self).full_spec() is Unloaded,
        ensures
            final(self).unloadable_spec(),
            final(self).path_spec() == old(self).path_spec(),
            final(self).full_spec() == old(self).full_spec(),
            final(self).thumbnail_spec() == old(self).thumbnail_spec(),
            final(self).metadata_spec() == old(self).metadata_spec(),
    {
        self.unloadable = true;
    }

    /// Forget that the image was marked unloadable.
    pub fn forget_unloadable(&mut self)
        ensures
            !final(self).unloadable_spec(),
            final(self).path_spec() == old(self).path_spec(),
            final(self).full_spec() == old(self).full_spec(),
            final(self).thumbnail_spec() == old(self).thumbnail_spec(),
            final(self).metadata_spec() == old(self).metadata_spec(),
    {
        self.unloadable = false;
    }

    /// Load the full image into an empty slot.
    /// A source whose full image loaded is no longer unloadable.
    pub fn load_full(&mut self, loaded: T)
        requires
            old(self).full_spec() is Unloaded,
        ensures
            final(self).full_spec() == LoadState::Loaded(loaded),
            !final(self).unloadable_spec(),
            final(self).path_spec() == old(self).path_spec(),
            final(self).thumbnail_spec() == old(self).thumbnail_spec(),
            final(self).metadata_spec() == old(self).metadata_spec(),
    {
        self.unloadable = false;
        self.full.load(loaded);
    }

    /// Load the thumbnail into an empty slot.
    pub fn load_thumbnail(&mut self, loaded: T)
        requires
            old(self).thumbnail_spec() is Unloaded,
        ensures
            final(self).thumbnail_spec() == LoadState::Loaded(loaded),
            final(self).unloadable_spec() == old(self).unloadable_spec(),
            final(self).path_spec() == old(self).path_spec(),
            final(self).full_spec() == old(self).full_spec(),
            final(self).metadata_spec() == old(self).metadata_spec(),
    {
        proof {
            use_type_invariant(&*self);
        }
        self.thumbnail.load(loaded);
    }

    /// Set the metadata, replacing any that was loaded before.
    pub fn set_metadata(&mut self, metadata: Metadata) -> (r: Option<Metadata>)
        ensures
            final(self).metadata_spec() == LoadState::Loaded(metadata),
            r == old(self).metadata_spec().item(),
            final(self).unloadable_spec() == old(self).unloadable_spec(),
            final(self).path_spec() == old(self).path_spec(),
            final(self).full_spec() == old(self).full_spec(),
            final(self).thumbnail_spec() == old(self).thumbnail_spec(),
    {
        proof {
            use_type_invariant(&*self);
        }
        self.metadata.set_loaded(metadata)
    }

    /// Unload the full image, and hand back what was loaded, if anything.
    pub fn unload_full(&mut self) -> (r: Option<T>)
        ensures
            final(self).full_spec() is Unloaded,
            r == old(self).full_spec().item(),
            final(self).unloadable_spec() == old(self).unloadable_spec(),
            final(self).path_spec() == old(self).path_spec(),
            final(self).thumbnail_spec() == old(self).thumbnail_spec(),
            final(self).metadata_spec() == old(self).metadata_spec(),
    {
        self.full.unload()
    }

    /// Unload the thumbnail, and hand back what was loaded, if anything.
    pub fn unload_thumbnail(&mut self) -> (r: Option<T>)
        ensures
            final(self).thumbnail_spec() is Unloaded,
            r == old(self).thumbnail_spec().item(),
            final(self).unloadable_spec() == old(self).unloadable_spec(),
            final(self).path_spec() == old(self).path_spec(),
            final(self).full_spec() == old(self).full_spec(),
            final(self).metadata_spec() == old(self).metadata_spec(),
    {
        proof {
            use_type_invariant(&*self);
        }
        self.thumbnail.unload()
    }
}

} // verus!

//! A slot that either holds a loaded item or is empty.

use vstd::prelude::*;

verus! {

/// An item that may or may not be loaded.
pub enum LoadState<T> {
    Unloaded,
    Loaded(T),
}

impl<T> LoadState<T> {
    /// The loaded item, if any.
    pub open spec fn item(self) -> Option<T> {
        match self {
            LoadState::Loaded(x) => Some(x),
            LoadState::Unloaded => None,
        }
    }

    /// Get the loaded item.
    pub fn loaded(&self) -> (r: Option<&T>)
        ensures
            r is None <==> self is Unloaded,
            r matches Some(x) ==> self.item() == Some(*x),
    {
        match self {
            LoadState::Loaded(loaded) => Some(loaded),
            LoadState::Unloaded => None,
        }
    }

    /// Turn the slot into its loaded item, if any.
    pub fn take_loaded(self) -> (r: Option<T>)
        ensures
            r == self.item(),
        no_unwind
    {
        match self {
            LoadState::Loaded(loaded) => Some(loaded),
            LoadState::Unloaded => None,
        }
    }

    /// Check whether the item is loaded.
    pub fn is_loaded(&self) -> (r: bool)
        ensures
            r == (self is Loaded),
    {
        match self {
            LoadState::Loaded(_) => true,
            LoadState::Unloaded => false,
        }
    }

    /// Set the item as loaded, and hand back the item that was loaded before, if any.
    pub fn set_loaded(&mut self, loaded: T) -> (r: Option<T>)
        ensures
            *final(self) == LoadState::Loaded(loaded),
            r == old(self).item(),
        no_unwind
    {
        let mut previous = LoadState::Loaded(loaded);
        std::mem::swap(self, &mut previous);
        previous.take_loaded()
    }

    /// Set an unloaded slot as loaded.
    pub fn load(&mut self, loaded: T)
        requires
            *old(self) is Unloaded,
        ensures
            *final(self) == LoadState::Loaded(loaded),
        no_unwind
    {
        let previous = self.set_loaded(loaded);
        proof {
            assert(previous is None);
        }
    }

    /// Empty the slot, and hand back the item that was loaded, if any.
    pub fn unload(&mut self) -> (r: Option<T>)
        ensures
            *final(self) == LoadState::<T>::Unloaded,
            r == old(self).item(),
        no_unwind
    {
        let mut previous = LoadState::Unloaded;
        std::mem::swap(self, &mut previous);
        previous.take_loaded()
    }
}

} // verus!

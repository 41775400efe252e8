//! Hooks of the scripting layer that commands and outside events set off.

use vstd::prelude::*;

verus! {

/// The hooks that a command set off, to run once it is done.
#[derive(Debug)]
pub struct Hooks {
    current_image_change: bool,
    transform_update: bool,
}

impl Default for Hooks {
    fn default() -> (r: Self)
        ensures
            !r.current_image_change_spec(),
            !r.transform_update_spec(),
    {
        Hooks { current_image_change: false, transform_update: false }
    }
}

impl Hooks {
    pub closed spec fn current_image_change_spec(&self) -> bool {
        self.current_image_change
    }

    pub closed spec fn transform_update_spec(&self) -> bool {
        self.transform_update
    }

    /// The names of the hooks to run, in the order to run them.
    pub open spec fn names_spec(&self) -> Seq<Seq<char>> {
        let first: Seq<Seq<char>> = if self.current_image_change_spec() {
            seq!["current_image_change"@]
        } else {
            seq![]
        };
        let second: Seq<Seq<char>> = if self.transform_update_spec() {
            seq!["transform_update"@]
        } else {
            seq![]
        };
        first + second
    }

    /// Set off the hook for a change of the current image.
    pub fn current_image_change(&mut self)
        ensures
            final(self).current_image_change_spec(),
            final(self).transform_update_spec() == old(self).transform_update_spec(),
    {
        self.current_image_change = true;
    }

    /// Set off the hook for a change of the image transform.
    pub fn transform_update(&mut self)
        ensures
            final(self).transform_update_spec(),
            final(self).current_image_change_spec() == old(self).current_image_change_spec(),
    {
        self.transform_update = true;
    }

    /// The names of the hooks to run, in the order to run them.
    pub fn names(&self) -> (r: Vec<&'static str>)
        ensures
            r@.map_values(|n: &'static str| n@) == self.names_spec(),
    {
        let mut names: Vec<&'static str> = Vec::new();
        if self.current_image_change {
            names.push("current_image_change");
        }
        if self.transform_update {
            names.push("transform_update");
        }
        proof {
            assert(names@.map_values(|n: &'static str| n@) =~= self.names_spec());
        }
        names
    }
}

/// A hook set off by an event from outside.
#[derive(Clone, Copy, PartialEq, Eq, Structural, Debug)]
pub enum ExternalHook {
    /// The current image was loaded
    CurrentImageLoad,
    /// The window was resized
    WindowResize,
}

impl ExternalHook {
    /// The name of the hook for the scripts.
    pub fn name(&self) -> (r: &'static str)
        ensures
            r@ == match *self {
                ExternalHook::CurrentImageLoad => "current_image_load"@,
                ExternalHook::WindowResize => "resize"@,
            },
    {
        match self {
            ExternalHook::CurrentImageLoad => "current_image_load",
            ExternalHook::WindowResize => "resize",
        }
    }
}

} // verus!

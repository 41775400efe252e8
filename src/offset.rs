//! Cyclic distances between two positions of a list of fixed length.

use vstd::prelude::*;

verus! {

/// Steps from `from` to `to` moving upwards through a cyclic list of `length`
/// positions.
pub open spec fn forward_steps(from: int, to: int, length: int) -> int {
    if from <= to {
        to - from
    } else {
        length - (from - to)
    }
}

/// Whether `to` lies within `forward_range` steps forwards or
/// `backward_range` steps backwards of `from`, in a cyclic list of `length`.
pub open spec fn in_window(
    from: int,
    to: int,
    length: int,
    forward_range: int,
    backward_range: int,
) -> bool {
    forward_steps(from, to, length) <= forward_range || length - forward_steps(from, to, length)
        <= backward_range
}

/// How close `to` is to `from` in a cyclic list of `length`: positions
/// forwards come before positions as far backwards.
pub open spec fn closeness(from: int, to: int, length: int) -> int {
    let forward = forward_steps(from, to, length);
    let backward = length - forward;
    if forward <= backward {
        2 * forward
    } else {
        2 * backward + 1
    }
}

/// The offsets of one position from another in a cyclic list.
///
/// `forward` counts the steps moving upwards (wrapping at the end), and
/// `backward` the steps moving downwards; together they make the length of
/// the list.
pub struct Offset {
    forward: usize,
    backward: usize,
}

impl Offset {
    pub closed spec fn forward_spec(self) -> nat {
        self.forward as nat
    }

    pub closed spec fn backward_spec(self) -> nat {
        self.backward as nat
    }

    /// Whether the offset lies within `forward_range` steps forwards or
    /// `backward_range` steps backwards.
    pub open spec fn in_range_spec(self, forward_range: nat, backward_range: nat) -> bool {
        self.forward_spec() <= forward_range || self.backward_spec() <= backward_range
    }

    /// Sort key that counts forward steps as closer than backward steps of
    /// the same number: forward 2 < backward 2 < forward 3.
    pub open spec fn key_spec(self) -> nat {
        if self.forward_spec() <= self.backward_spec() {
            2 * self.forward_spec()
        } else {
            2 * self.backward_spec() + 1
        }
    }

    #[verifier::type_invariant]
    closed spec fn fits(self) -> bool {
        self.forward + self.backward <= usize::MAX
    }

    /// The offset of `to` from `from` in a cyclic list of `length` positions.
    pub fn calculate(from: usize, to: usize, length: usize) -> (r: Self)
        requires
            from < length,
            to < length,
        ensures
            r.forward_spec() == forward_steps(from as int, to as int, length as int),
            r.backward_spec() == length - r.forward_spec(),
    {
        // `direction` says which of `low` and `high` is `from`
        let (direction, low, high) = if from <= to {
            (true, from, to)
        } else {
            (false, to, from)
        };

        // Offsets from `low` to `high`
        let forward = high - low;
        let backward = length - forward;

        if direction {
            Offset { forward, backward }
        } else {
            Offset { forward: backward, backward: forward }
        }
    }

    /// The number of steps forwards.
    pub fn forward(&self) -> (r: usize)
        ensures
            r == self.forward_spec(),
    {
        self.forward
    }

    /// The number of steps backwards.
    pub fn backward(&self) -> (r: usize)
        ensures
            r == self.backward_spec(),
    {
        self.backward
    }

    /// Check whether the offset is within a range.
    pub fn in_range(&self, forward_range: usize, backward_range: usize) -> (r: bool)
        ensures
            r == self.in_range_spec(forward_range as nat, backward_range as nat),
    {
        self.forward <= forward_range || self.backward <= backward_range
    }

    /// Sort key that considers forward offsets closer (forward 2 < backward 2 < forward 3).
    pub fn key(&self) -> (r: usize)
        ensures
            r == self.key_spec(),
    {
        proof {
            use_type_invariant(self);
        }
        if self.forward <= self.backward {
            self.forward * 2
        } else {
            self.backward * 2 + 1
        }
    }
}

} // verus!

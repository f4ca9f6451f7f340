//! Integer parameters shared between an audio thread and its controls.
//!
//! A parameter and its handles hold one atomic cell between them. Either side
//! may write it at any time and the last write wins; every write is clamped
//! to the parameter's range first.

use std::sync::atomic::{AtomicI32, Ordering};
use std::sync::Arc;
use vstd::prelude::*;

verus! {

/// How the value shown to the user relates to the value used in processing.
#[derive(Debug, Clone, Copy, PartialEq, Eq, Structural)]
pub enum Unit {
    /// The value shown is the value used.
    Generic,
    /// The value shown is in decibels and the value used is a raw amplitude.
    /// From -90 dB down the amplitude is zero.
    Decibels,
}

/// `value` brought into the range from `min` to `max`.
pub open spec fn clamp_to_range(value: int, min: int, max: int) -> int
    recommends
        min <= max,
{
    if value < min {
        min
    } else if value > max {
        max
    } else {
        value
    }
}

/// `value` brought into the range from `min` to `max`: what every write to a
/// parameter's cell stores.
pub fn clamp(value: i32, min: i32, max: i32) -> (r: i32)
    requires
        min <= max,
    ensures
        r == clamp_to_range(value as int, min as int, max as int),
        min <= r <= max,
{
    if value < min {
        min
    } else if value > max {
        max
    } else {
        value
    }
}

/// `Arc::clone`: a second pointer to the same allocation, so the result is
/// the cell that `cell` is.
#[verifier::external_body]
fn share(cell: &Arc<AtomicI32>) -> (r: Arc<AtomicI32>)
    ensures
        r == *cell,
{
    Arc::clone(cell)
}

/// A parameter with an `i32` value, as the audio thread holds it.
pub struct ParamI32 {
    min: i32,
    max: i32,
    shared: Arc<AtomicI32>,
}

/// The control side of a `ParamI32`. Clones of a handle share its cell.
pub struct ParamI32Handle {
    min: i32,
    max: i32,
    shared: Arc<AtomicI32>,
}

impl ParamI32 {
    #[verifier::type_invariant]
    spec fn well_formed(self) -> bool {
        self.min < self.max
    }

    /// The least value of this parameter.
    pub closed spec fn spec_min(&self) -> i32 {
        self.min
    }

    /// The greatest value of this parameter.
    pub closed spec fn spec_max(&self) -> i32 {
        self.max
    }

    /// The cell that this parameter shares with its handles.
    pub closed spec fn cell(&self) -> Arc<AtomicI32> {
        self.shared
    }

    /// A parameter with the range from `min` to `max`, and a handle to it.
    /// Their cell starts at `value`, clamped to the range.
    pub fn from_value(value: i32, min: i32, max: i32) -> (r: (Self, ParamI32Handle))
        requires
            min < max,
        ensures
            r.0.spec_min() == min,
            r.0.spec_max() == max,
            r.1.spec_min() == min,
            r.1.spec_max() == max,
            r.1.cell() == r.0.cell(),
    {
        let value = clamp(value, min, max);
        let shared = Arc::new(AtomicI32::new(value));
        (ParamI32 { min, max, shared: share(&shared) }, ParamI32Handle { min, max, shared })
    }

    /// Writes `value`, clamped to the range, to the cell.
    pub fn set_value(&mut self, value: i32)
        ensures
            *final(self) == *old(self),
    {
        proof {
            use_type_invariant(&*self);
        }
        self.shared.store(clamp(value, self.min, self.max), Ordering::Relaxed);
    }

    /// The value in the cell. It lies in the range whichever side wrote last.
    pub fn value(&mut self) -> (r: i32)
        ensures
            *final(self) == *old(self),
            old(self).spec_min() <= r <= old(self).spec_max(),
    {
        proof {
            use_type_invariant(&*self);
        }
        clamp(self.shared.load(Ordering::Relaxed), self.min, self.max)
    }

    /// The least value of this parameter.
    #[verifier::when_used_as_spec(spec_min)]
    pub fn min(&self) -> (r: i32)
        ensures
            r == self.spec_min(),
            r < self.spec_max(),
    {
        proof {
            use_type_invariant(self);
        }
        self.min
    }

    /// The greatest value of this parameter.
    #[verifier::when_used_as_spec(spec_max)]
    pub fn max(&self) -> (r: i32)
        ensures
            r == self.spec_max(),
            self.spec_min() < r,
    {
        proof {
            use_type_invariant(self);
        }
        self.max
    }
}

impl ParamI32Handle {
    #[verifier::type_invariant]
    spec fn well_formed(self) -> bool {
        self.min < self.max
    }

    /// The least value of the parameter.
    pub closed spec fn spec_min(&self) -> i32 {
        self.min
    }

    /// The greatest value of the parameter.
    pub closed spec fn spec_max(&self) -> i32 {
        self.max
    }

    /// The cell that this handle shares with its parameter.
    pub closed spec fn cell(&self) -> Arc<AtomicI32> {
        self.shared
    }

    /// The value in the cell. It lies in the range whichever side wrote last.
    pub fn value(&self) -> (r: i32)
        ensures
            self.spec_min() <= r <= self.spec_max(),
    {
        proof {
            use_type_invariant(self);
        }
        clamp(self.shared.load(Ordering::Relaxed), self.min, self.max)
    }

    /// Writes `value`, clamped to the range, to the cell.
    pub fn set_value(&mut self, value: i32)
        ensures
            *final(self) == *old(self),
    {
        proof {
            use_type_invariant(&*self);
        }
        self.shared.store(clamp(value, self.min, self.max), Ordering::Relaxed);
    }

    /// The least value of the parameter.
    #[verifier::when_used_as_spec(spec_min)]
    pub fn min(&self) -> (r: i32)
        ensures
            r == self.spec_min(),
            r < self.spec_max(),
    {
        proof {
            use_type_invariant(self);
        }
        self.min
    }

    /// The greatest value of the parameter.
    #[verifier::when_used_as_spec(spec_max)]
    pub fn max(&self) -> (r: i32)
        ensures
            r == self.spec_max(),
            self.spec_min() < r,
    {
        proof {
            use_type_invariant(self);
        }
        self.max
    }
}

impl Clone for ParamI32Handle {
    /// Another handle to the same cell, with the same range.
    fn clone(&self) -> (r: Self)
        ensures
            r == *self,
    {
        proof {
            use_type_invariant(self);
        }
        ParamI32Handle { min: self.min, max: self.max, shared: share(&self.shared) }
    }
}

} // verus!

//! Frames: a duration counted in samples.

use crate::sample_time::SampleTime;
use crate::super_frames::SuperFrames;
use crate::tick::{is_common_rate, spec_ticks_per_sample};
use std::cmp::Ordering;
use vstd::prelude::*;

verus! {

/// A length of one channel in samples. Unlike a `SampleTime` it is never
/// negative.
#[derive(Debug, Clone, Copy, PartialEq, Eq, Structural, Hash)]
pub struct Frames(pub usize);

impl View for Frames {
    type V = nat;

    open spec fn view(&self) -> nat {
        self.0 as nat
    }
}

impl Frames {
    /// A length of `frames` samples.
    #[inline]
    pub fn new(frames: usize) -> (r: Self)
        ensures
            r@ == frames,
    {
        Frames(frames)
    }

    /// The position that lies this length after sample zero. A length above
    /// `i64::MAX` wraps around.
    #[inline]
    pub fn to_sample_time(&self) -> (r: SampleTime)
        ensures
            r.0 == self.0 as i64,
            self@ <= i64::MAX ==> r@ == self@,
    {
        SampleTime::new(#[verifier::truncate] (self.0 as i64))
    }

    /// The same length in ticks, where `sample_rate` (in samples per second)
    /// is a common rate; `None` for every other rate.
    #[inline]
    pub fn to_super_frames(&self, sample_rate: usize) -> (r: Option<SuperFrames>)
        requires
            is_common_rate(sample_rate as int) ==> self@ * spec_ticks_per_sample(sample_rate as int)
                <= usize::MAX,
        ensures
            is_common_rate(sample_rate as int) <==> r is Some,
            r matches Some(t) ==> t@ == self@ * spec_ticks_per_sample(sample_rate as int),
    {
        SuperFrames::from_frames(*self, sample_rate)
    }

    /// The shorter of this length and `frames`.
    ///
    /// With a constant for `frames`, the result is known to index a buffer of
    /// that size.
    #[inline]
    pub fn compiler_hint_min(self, frames: usize) -> (r: Frames)
        ensures
            r@ == if self@ <= frames { self@ } else { frames as nat },
    {
        Frames(self.0.min(frames))
    }
}

impl Default for Frames {
    /// The empty length.
    fn default() -> (r: Self)
        ensures
            r@ == 0,
    {
        Frames(0)
    }
}

impl vstd::std_specs::convert::FromSpecImpl<u8> for Frames {
    open spec fn obeys_from_spec() -> bool {
        true
    }

    open spec fn from_spec(v: u8) -> Self {
        Frames(v as usize)
    }
}

impl From<u8> for Frames {
    /// A length of `s` samples.
    fn from(s: u8) -> (r: Self)
        ensures
            r@ == s,
    {
        Frames(s as usize)
    }
}

impl vstd::std_specs::convert::FromSpecImpl<u16> for Frames {
    open spec fn obeys_from_spec() -> bool {
        true
    }

    open spec fn from_spec(v: u16) -> Self {
        Frames(v as usize)
    }
}

impl From<u16> for Frames {
    /// A length of `s` samples.
    fn from(s: u16) -> (r: Self)
        ensures
            r@ == s,
    {
        Frames(s as usize)
    }
}

impl vstd::std_specs::convert::FromSpecImpl<usize> for Frames {
    open spec fn obeys_from_spec() -> bool {
        true
    }

    open spec fn from_spec(v: usize) -> Self {
        Frames(v)
    }
}

impl From<usize> for Frames {
    /// A length of `s` samples.
    fn from(s: usize) -> (r: Self)
        ensures
            r@ == s,
    {
        Frames(s)
    }
}

impl vstd::std_specs::ops::AddSpecImpl for Frames {
    open spec fn obeys_add_spec() -> bool {
        true
    }

    open spec fn add_req(self, rhs: Self) -> bool {
        usize::MIN <= self.0 + rhs.0 <= usize::MAX
    }

    open spec fn add_spec(self, rhs: Self) -> Self {
        Frames((self.0 + rhs.0) as usize)
    }
}

impl core::ops::Add for Frames {
    type Output = Self;

    /// The sum of the two counts.
    fn add(self, rhs: Self) -> (r: Self)
        ensures
            r@ == self@ + rhs@,
    {
        Frames(self.0 + rhs.0)
    }
}

impl core::ops::AddAssign for Frames {
    /// Adds the other count to this one.
    fn add_assign(&mut self, other: Self)
        requires
            usize::MIN <= old(self).0 + other.0 <= usize::MAX,
        ensures
            final(self)@ == old(self)@ + other@,
    {
        self.0 = self.0 + other.0;
    }
}

impl vstd::std_specs::ops::SubSpecImpl for Frames {
    open spec fn obeys_sub_spec() -> bool {
        true
    }

    open spec fn sub_req(self, rhs: Self) -> bool {
        usize::MIN <= self.0 - rhs.0 <= usize::MAX
    }

    open spec fn sub_spec(self, rhs: Self) -> Self {
        Frames((self.0 - rhs.0) as usize)
    }
}

impl core::ops::Sub for Frames {
    type Output = Self;

    /// The difference of the two counts.
    fn sub(self, rhs: Self) -> (r: Self)
        ensures
            r@ == self@ - rhs@,
    {
        Frames(self.0 - rhs.0)
    }
}

impl core::ops::SubAssign for Frames {
    /// Subtracts the other count from this one.
    fn sub_assign(&mut self, other: Self)
        requires
            usize::MIN <= old(self).0 - other.0 <= usize::MAX,
        ensures
            final(self)@ == old(self)@ - other@,
    {
        self.0 = self.0 - other.0;
    }
}

impl vstd::std_specs::cmp::PartialOrdSpecImpl for Frames {
    open spec fn obeys_partial_cmp_spec() -> bool {
        true
    }

    open spec fn partial_cmp_spec(&self, other: &Self) -> Option<Ordering> {
        if self.0 < other.0 {
            Some(Ordering::Less)
        } else if self.0 == other.0 {
            Some(Ordering::Equal)
        } else {
            Some(Ordering::Greater)
        }
    }
}

impl PartialOrd for Frames {
    /// Orders by the count.
    fn partial_cmp(&self, other: &Self) -> (r: Option<Ordering>) {
        if self.0 < other.0 {
            Some(Ordering::Less)
        } else if self.0 == other.0 {
            Some(Ordering::Equal)
        } else {
            Some(Ordering::Greater)
        }
    }
}

} // verus!

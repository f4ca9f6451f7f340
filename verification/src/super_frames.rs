//! Super-frames: a duration counted in ticks of a second.

use crate::frames::Frames;
use crate::super_sample_time::SuperSampleTime;
use crate::tick::{
    is_common_rate, lemma_common_rate_divides, lemma_round_div_of_multiple, round_div,
    round_div_usize, spec_ticks_per_sample, ticks_per_sample,
};
use std::cmp::Ordering;
use vstd::prelude::*;

verus! {

/// A length of one channel in ticks of 1/28,224,000 second. Unlike a
/// `SuperSampleTime` it is never negative.
#[derive(Debug, Clone, Copy, PartialEq, Eq, Structural, Hash)]
pub struct SuperFrames(pub usize);

impl View for SuperFrames {
    type V = nat;

    open spec fn view(&self) -> nat {
        self.0 as nat
    }
}

impl SuperFrames {
    /// A length of `frames` ticks.
    #[inline]
    pub fn new(frames: usize) -> (r: Self)
        ensures
            r@ == frames,
    {
        SuperFrames(frames)
    }

    /// The length in ticks of a length in samples, where `sample_rate` (in
    /// samples per second) is a common rate; `None` for every other rate.
    ///
    /// The result is exact: each sample is a whole number of ticks.
    pub fn from_frames(frames: Frames, sample_rate: usize) -> (r: Option<Self>)
        requires
            is_common_rate(sample_rate as int) ==> frames@ * spec_ticks_per_sample(
                sample_rate as int,
            ) <= usize::MAX,
        ensures
            is_common_rate(sample_rate as int) <==> r is Some,
            r matches Some(t) ==> t@ == frames@ * spec_ticks_per_sample(sample_rate as int),
    {
        match ticks_per_sample(sample_rate) {
            Some(k) => Some(SuperFrames(frames.0 * (k as usize))),
            None => None,
        }
    }

    /// The position that lies this length after tick zero. A length above
    /// `i64::MAX` wraps around.
    #[inline]
    pub fn to_super_sample_time(&self) -> (r: SuperSampleTime)
        ensures
            r.0 == self.0 as i64,
            self@ <= i64::MAX ==> r@ == self@,
    {
        SuperSampleTime::new(#[verifier::truncate] (self.0 as i64))
    }

    /// The nearest length in samples, where `sample_rate` (in samples per
    /// second) is a common rate; `None` for every other rate.
    ///
    /// A length halfway between two sample counts goes to the greater.
    #[inline]
    pub fn to_frames(&self, sample_rate: usize) -> (r: Option<Frames>)
        ensures
            is_common_rate(sample_rate as int) <==> r is Some,
            r matches Some(t) ==> t@ == round_div(
                self@ as int,
                spec_ticks_per_sample(sample_rate as int),
            ),
    {
        match ticks_per_sample(sample_rate) {
            Some(k) => Some(Frames(round_div_usize(self.0, k))),
            None => None,
        }
    }
}

/// A length in samples that is taken to ticks with `SuperFrames::from_frames`
/// and back with `SuperFrames::to_frames`, at one common rate, is the length
/// that went in.
pub proof fn lemma_frames_round_trip(frames: Frames, sample_rate: int)
    requires
        is_common_rate(sample_rate),
    ensures
        round_div(
            frames@ * spec_ticks_per_sample(sample_rate),
            spec_ticks_per_sample(sample_rate),
        ) == frames@,
{
    lemma_common_rate_divides(sample_rate);
    lemma_round_div_of_multiple(frames@ as int, spec_ticks_per_sample(sample_rate));
}

impl Default for SuperFrames {
    /// The empty length.
    fn default() -> (r: Self)
        ensures
            r@ == 0,
    {
        SuperFrames(0)
    }
}

impl vstd::std_specs::convert::FromSpecImpl<u8> for SuperFrames {
    open spec fn obeys_from_spec() -> bool {
        true
    }

    open spec fn from_spec(v: u8) -> Self {
        SuperFrames(v as usize)
    }
}

impl From<u8> for SuperFrames {
    /// A length of `s` ticks.
    fn from(s: u8) -> (r: Self)
        ensures
            r@ == s,
    {
        SuperFrames(s as usize)
    }
}

impl vstd::std_specs::convert::FromSpecImpl<u16> for SuperFrames {
    open spec fn obeys_from_spec() -> bool {
        true
    }

    open spec fn from_spec(v: u16) -> Self {
        SuperFrames(v as usize)
    }
}

impl From<u16> for SuperFrames {
    /// A length of `s` ticks.
    fn from(s: u16) -> (r: Self)
        ensures
            r@ == s,
    {
        SuperFrames(s as usize)
    }
}

impl vstd::std_specs::convert::FromSpecImpl<usize> for SuperFrames {
    open spec fn obeys_from_spec() -> bool {
        true
    }

    open spec fn from_spec(v: usize) -> Self {
        SuperFrames(v)
    }
}

impl From<usize> for SuperFrames {
    /// A length of `s` ticks.
    fn from(s: usize) -> (r: Self)
        ensures
            r@ == s,
    {
        SuperFrames(s)
    }
}

impl vstd::std_specs::ops::AddSpecImpl for SuperFrames {
    open spec fn obeys_add_spec() -> bool {
        true
    }

    open spec fn add_req(self, rhs: Self) -> bool {
        usize::MIN <= self.0 + rhs.0 <= usize::MAX
    }

    open spec fn add_spec(self, rhs: Self) -> Self {
        SuperFrames((self.0 + rhs.0) as usize)
    }
}

impl core::ops::Add for SuperFrames {
    type Output = Self;

    /// The sum of the two counts.
    fn add(self, rhs: Self) -> (r: Self)
        ensures
            r@ == self@ + rhs@,
    {
        SuperFrames(self.0 + rhs.0)
    }
}

impl core::ops::AddAssign for SuperFrames {
    /// Adds the other count to this one.
    fn add_assign(&mut self, other: Self)
        requires
            usize::MIN <= old(self).0 + other.0 <= usize::MAX,
        ensures
            final(self)@ == old(self)@ + other@,
    {
        self.0 = self.0 + other.0;
    }
}

impl vstd::std_specs::ops::SubSpecImpl for SuperFrames {
    open spec fn obeys_sub_spec() -> bool {
        true
    }

    open spec fn sub_req(self, rhs: Self) -> bool {
        usize::MIN <= self.0 - rhs.0 <= usize::MAX
    }

    open spec fn sub_spec(self, rhs: Self) -> Self {
        SuperFrames((self.0 - rhs.0) as usize)
    }
}

impl core::ops::Sub for SuperFrames {
    type Output = Self;

    /// The difference of the two counts.
    fn sub(self, rhs: Self) -> (r: Self)
        ensures
            r@ == self@ - rhs@,
    {
        SuperFrames(self.0 - rhs.0)
    }
}

impl core::ops::SubAssign for SuperFrames {
    /// Subtracts the other count from this one.
    fn sub_assign(&mut self, other: Self)
        requires
            usize::MIN <= old(self).0 - other.0 <= usize::MAX,
        ensures
            final(self)@ == old(self)@ - other@,
    {
        self.0 = self.0 - other.0;
    }
}

impl vstd::std_specs::cmp::PartialOrdSpecImpl for SuperFrames {
    open spec fn obeys_partial_cmp_spec() -> bool {
        true
    }

    open spec fn partial_cmp_spec(&self, other: &Self) -> Option<Ordering> {
        if self.0 < other.0 {
            Some(Ordering::Less)
        } else if self.0 == other.0 {
            Some(Ordering::Equal)
        } else {
            Some(Ordering::Greater)
        }
    }
}

impl PartialOrd for SuperFrames {
    /// Orders by the count.
    fn partial_cmp(&self, other: &Self) -> (r: Option<Ordering>) {
        if self.0 < other.0 {
            Some(Ordering::Less)
        } else if self.0 == other.0 {
            Some(Ordering::Equal)
        } else {
            Some(Ordering::Greater)
        }
    }
}

} // verus!

//! Super-sample time: a signed position counted in ticks of a second.

use crate::sample_time::SampleTime;
use crate::super_frames::SuperFrames;
use crate::tick::{
    is_common_rate, lemma_common_rate_divides, lemma_round_div_of_multiple, round_div,
    round_div_i64, spec_ticks_per_sample, ticks_per_sample,
};
use std::cmp::Ordering;
use vstd::prelude::*;

verus! {

/// A position in ticks of 1/28,224,000 second. It may be negative.
///
/// A sample at any common rate is a whole number of ticks, so a position kept
/// in ticks survives a change of the sample rate without loss.
#[derive(Debug, Clone, Copy, PartialEq, Eq, Structural, Hash)]
pub struct SuperSampleTime(pub i64);

impl View for SuperSampleTime {
    type V = int;

    open spec fn view(&self) -> int {
        self.0 as int
    }
}

impl SuperSampleTime {
    /// A position of `super_samples` ticks.
    #[inline]
    pub fn new(super_samples: i64) -> (r: Self)
        ensures
            r@ == super_samples,
    {
        SuperSampleTime(super_samples)
    }

    /// A position of `super_samples` ticks. A count above `i64::MAX` wraps
    /// around.
    #[inline]
    pub fn from_usize(super_samples: usize) -> (r: Self)
        ensures
            r.0 == super_samples as i64,
            super_samples <= i64::MAX ==> r@ == super_samples,
    {
        SuperSampleTime(#[verifier::truncate] (super_samples as i64))
    }

    /// A position of `super_samples` ticks. A count above `i64::MAX` wraps
    /// around.
    #[inline]
    pub fn from_u64(super_samples: u64) -> (r: Self)
        ensures
            r.0 == super_samples as i64,
            super_samples <= i64::MAX ==> r@ == super_samples,
    {
        SuperSampleTime(#[verifier::truncate] (super_samples as i64))
    }

    /// The position in ticks of a position in samples, where `sample_rate`
    /// (in samples per second) is a common rate; `None` for every other rate.
    ///
    /// The result is exact: each sample is a whole number of ticks.
    pub fn from_sample_time(sample_time: SampleTime, sample_rate: usize) -> (r: Option<Self>)
        requires
            is_common_rate(sample_rate as int) ==> i64::MIN <= sample_time@
                * spec_ticks_per_sample(sample_rate as int) <= i64::MAX,
        ensures
            is_common_rate(sample_rate as int) <==> r is Some,
            r matches Some(t) ==> t@ == sample_time@ * spec_ticks_per_sample(sample_rate as int),
    {
        match ticks_per_sample(sample_rate) {
            Some(k) => Some(SuperSampleTime(sample_time.0 * (k as i64))),
            None => None,
        }
    }

    /// The position as an index: `None` where it is negative.
    #[inline]
    pub fn as_usize(&self) -> (r: Option<usize>)
        ensures
            self@ < 0 <==> r is None,
            r matches Some(v) ==> v == self.0 as usize,
            0 <= self@ <= usize::MAX ==> r == Some(self@ as usize),
    {
        if self.0 >= 0 {
            Some(#[verifier::truncate] (self.0 as usize))
        } else {
            None
        }
    }

    /// The nearest position in samples, where `sample_rate` (in samples per
    /// second) is a common rate; `None` for every other rate.
    ///
    /// A position halfway between two samples goes to the one farther from
    /// zero.
    #[inline]
    pub fn to_sample_time(&self, sample_rate: usize) -> (r: Option<SampleTime>)
        ensures
            is_common_rate(sample_rate as int) <==> r is Some,
            r matches Some(t) ==> t@ == round_div(self@, spec_ticks_per_sample(sample_rate as int)),
    {
        match ticks_per_sample(sample_rate) {
            Some(k) => Some(SampleTime(round_div_i64(self.0, k))),
            None => None,
        }
    }
}

/// A position in samples that is taken to ticks with
/// `SuperSampleTime::from_sample_time` and back with
/// `SuperSampleTime::to_sample_time`, at one common rate, is the position
/// that went in.
pub proof fn lemma_sample_time_round_trip(sample_time: SampleTime, sample_rate: int)
    requires
        is_common_rate(sample_rate),
    ensures
        round_div(
            sample_time@ * spec_ticks_per_sample(sample_rate),
            spec_ticks_per_sample(sample_rate),
        ) == sample_time@,
{
    lemma_common_rate_divides(sample_rate);
    lemma_round_div_of_multiple(sample_time@, spec_ticks_per_sample(sample_rate));
}

impl Default for SuperSampleTime {
    /// The origin: tick zero.
    fn default() -> (r: Self)
        ensures
            r@ == 0,
    {
        SuperSampleTime(0)
    }
}

impl vstd::std_specs::convert::FromSpecImpl<i8> for SuperSampleTime {
    open spec fn obeys_from_spec() -> bool {
        true
    }

    open spec fn from_spec(v: i8) -> Self {
        SuperSampleTime(v as i64)
    }
}

impl From<i8> for SuperSampleTime {
    /// A position of `s` ticks.
    fn from(s: i8) -> (r: Self)
        ensures
            r@ == s,
    {
        SuperSampleTime(s as i64)
    }
}

impl vstd::std_specs::convert::FromSpecImpl<u8> for SuperSampleTime {
    open spec fn obeys_from_spec() -> bool {
        true
    }

    open spec fn from_spec(v: u8) -> Self {
        SuperSampleTime(v as i64)
    }
}

impl From<u8> for SuperSampleTime {
    /// A position of `s` ticks.
    fn from(s: u8) -> (r: Self)
        ensures
            r@ == s,
    {
        SuperSampleTime(s as i64)
    }
}

impl vstd::std_specs::convert::FromSpecImpl<i16> for SuperSampleTime {
    open spec fn obeys_from_spec() -> bool {
        true
    }

    open spec fn from_spec(v: i16) -> Self {
        SuperSampleTime(v as i64)
    }
}

impl From<i16> for SuperSampleTime {
    /// A position of `s` ticks.
    fn from(s: i16) -> (r: Self)
        ensures
            r@ == s,
    {
        SuperSampleTime(s as i64)
    }
}

impl vstd::std_specs::convert::FromSpecImpl<u16> for SuperSampleTime {
    open spec fn obeys_from_spec() -> bool {
        true
    }

    open spec fn from_spec(v: u16) -> Self {
        SuperSampleTime(v as i64)
    }
}

impl From<u16> for SuperSampleTime {
    /// A position of `s` ticks.
    fn from(s: u16) -> (r: Self)
        ensures
            r@ == s,
    {
        SuperSampleTime(s as i64)
    }
}

impl vstd::std_specs::convert::FromSpecImpl<i32> for SuperSampleTime {
    open spec fn obeys_from_spec() -> bool {
        true
    }

    open spec fn from_spec(v: i32) -> Self {
        SuperSampleTime(v as i64)
    }
}

impl From<i32> for SuperSampleTime {
    /// A position of `s` ticks.
    fn from(s: i32) -> (r: Self)
        ensures
            r@ == s,
    {
        SuperSampleTime(s as i64)
    }
}

impl vstd::std_specs::convert::FromSpecImpl<u32> for SuperSampleTime {
    open spec fn obeys_from_spec() -> bool {
        true
    }

    open spec fn from_spec(v: u32) -> Self {
        SuperSampleTime(v as i64)
    }
}

impl From<u32> for SuperSampleTime {
    /// A position of `s` ticks.
    fn from(s: u32) -> (r: Self)
        ensures
            r@ == s,
    {
        SuperSampleTime(s as i64)
    }
}

impl vstd::std_specs::convert::FromSpecImpl<i64> for SuperSampleTime {
    open spec fn obeys_from_spec() -> bool {
        true
    }

    open spec fn from_spec(v: i64) -> Self {
        SuperSampleTime(v)
    }
}

impl From<i64> for SuperSampleTime {
    /// A position of `s` ticks.
    fn from(s: i64) -> (r: Self)
        ensures
            r@ == s,
    {
        SuperSampleTime(s)
    }
}

impl vstd::std_specs::ops::AddSpecImpl for SuperSampleTime {
    open spec fn obeys_add_spec() -> bool {
        true
    }

    open spec fn add_req(self, rhs: Self) -> bool {
        i64::MIN <= self.0 + rhs.0 <= i64::MAX
    }

    open spec fn add_spec(self, rhs: Self) -> Self {
        SuperSampleTime((self.0 + rhs.0) as i64)
    }
}

impl core::ops::Add for SuperSampleTime {
    type Output = Self;

    /// The sum of the two counts.
    fn add(self, rhs: Self) -> (r: Self)
        ensures
            r@ == self@ + rhs@,
    {
        SuperSampleTime(self.0 + rhs.0)
    }
}

impl core::ops::AddAssign for SuperSampleTime {
    /// Adds the other count to this one.
    fn add_assign(&mut self, other: Self)
        requires
            i64::MIN <= old(self).0 + other.0 <= i64::MAX,
        ensures
            final(self)@ == old(self)@ + other@,
    {
        self.0 = self.0 + other.0;
    }
}

impl vstd::std_specs::ops::SubSpecImpl for SuperSampleTime {
    open spec fn obeys_sub_spec() -> bool {
        true
    }

    open spec fn sub_req(self, rhs: Self) -> bool {
        i64::MIN <= self.0 - rhs.0 <= i64::MAX
    }

    open spec fn sub_spec(self, rhs: Self) -> Self {
        SuperSampleTime((self.0 - rhs.0) as i64)
    }
}

impl core::ops::Sub for SuperSampleTime {
    type Output = Self;

    /// The difference of the two counts.
    fn sub(self, rhs: Self) -> (r: Self)
        ensures
            r@ == self@ - rhs@,
    {
        SuperSampleTime(self.0 - rhs.0)
    }
}

impl core::ops::SubAssign for SuperSampleTime {
    /// Subtracts the other count from this one.
    fn sub_assign(&mut self, other: Self)
        requires
            i64::MIN <= old(self).0 - other.0 <= i64::MAX,
        ensures
            final(self)@ == old(self)@ - other@,
    {
        self.0 = self.0 - other.0;
    }
}

impl vstd::std_specs::ops::AddSpecImpl<SuperFrames> for SuperSampleTime {
    open spec fn obeys_add_spec() -> bool {
        true
    }

    open spec fn add_req(self, rhs: SuperFrames) -> bool {
        i64::MIN <= self.0 + (rhs.0 as i64) <= i64::MAX
    }

    open spec fn add_spec(self, rhs: SuperFrames) -> Self {
        SuperSampleTime((self.0 + (rhs.0 as i64)) as i64)
    }
}

impl core::ops::Add<SuperFrames> for SuperSampleTime {
    type Output = Self;

    /// The position moved forward by the duration. A duration above
    /// `i64::MAX` wraps around first.
    fn add(self, rhs: SuperFrames) -> (r: Self)
        ensures
            r.0 == self.0 + (rhs.0 as i64),
            rhs@ <= i64::MAX ==> r@ == self@ + rhs@,
    {
        SuperSampleTime(self.0 + #[verifier::truncate] (rhs.0 as i64))
    }
}

impl core::ops::AddAssign<SuperFrames> for SuperSampleTime {
    /// Moves the position forward by the duration. A duration above
    /// `i64::MAX` wraps around first.
    fn add_assign(&mut self, other: SuperFrames)
        requires
            i64::MIN <= old(self).0 + (other.0 as i64) <= i64::MAX,
        ensures
            final(self).0 == old(self).0 + (other.0 as i64),
            other@ <= i64::MAX ==> final(self)@ == old(self)@ + other@,
    {
        self.0 = self.0 + #[verifier::truncate] (other.0 as i64);
    }
}

impl vstd::std_specs::ops::SubSpecImpl<SuperFrames> for SuperSampleTime {
    open spec fn obeys_sub_spec() -> bool {
        true
    }

    open spec fn sub_req(self, rhs: SuperFrames) -> bool {
        i64::MIN <= self.0 - (rhs.0 as i64) <= i64::MAX
    }

    open spec fn sub_spec(self, rhs: SuperFrames) -> Self {
        SuperSampleTime((self.0 - (rhs.0 as i64)) as i64)
    }
}

impl core::ops::Sub<SuperFrames> for SuperSampleTime {
    type Output = Self;

    /// The position moved back by the duration. A duration above
    /// `i64::MAX` wraps around first.
    fn sub(self, rhs: SuperFrames) -> (r: Self)
        ensures
            r.0 == self.0 - (rhs.0 as i64),
            rhs@ <= i64::MAX ==> r@ == self@ - rhs@,
    {
        SuperSampleTime(self.0 - #[verifier::truncate] (rhs.0 as i64))
    }
}

impl core::ops::SubAssign<SuperFrames> for SuperSampleTime {
    /// Moves the position back by the duration. A duration above
    /// `i64::MAX` wraps around first.
    fn sub_assign(&mut self, other: SuperFrames)
        requires
            i64::MIN <= old(self).0 - (other.0 as i64) <= i64::MAX,
        ensures
            final(self).0 == old(self).0 - (other.0 as i64),
            other@ <= i64::MAX ==> final(self)@ == old(self)@ - other@,
    {
        self.0 = self.0 - #[verifier::truncate] (other.0 as i64);
    }
}

impl vstd::std_specs::cmp::PartialOrdSpecImpl for SuperSampleTime {
    open spec fn obeys_partial_cmp_spec() -> bool {
        true
    }

    open spec fn partial_cmp_spec(&self, other: &Self) -> Option<Ordering> {
        if self.0 < other.0 {
            Some(Ordering::Less)
        } else if self.0 == other.0 {
            Some(Ordering::Equal)
        } else {
            Some(Ordering::Greater)
        }
    }
}

impl PartialOrd for SuperSampleTime {
    /// Orders by the count.
    fn partial_cmp(&self, other: &Self) -> (r: Option<Ordering>) {
        if self.0 < other.0 {
            Some(Ordering::Less)
        } else if self.0 == other.0 {
            Some(Ordering::Equal)
        } else {
            Some(Ordering::Greater)
        }
    }
}

} // verus!

//! Sample time: a signed position counted in samples.

use crate::frames::Frames;
use crate::super_sample_time::SuperSampleTime;
use crate::tick::{is_common_rate, spec_ticks_per_sample};
use std::cmp::Ordering;
use vstd::prelude::*;

verus! {

/// A position in samples, at a sample rate that the context gives. It may be
/// negative.
#[derive(Debug, Clone, Copy, PartialEq, Eq, Structural, Hash)]
pub struct SampleTime(pub i64);

impl View for SampleTime {
    type V = int;

    open spec fn view(&self) -> int {
        self.0 as int
    }
}

impl SampleTime {
    /// A position of `samples` samples.
    #[inline]
    pub fn new(samples: i64) -> (r: Self)
        ensures
            r@ == samples,
    {
        SampleTime(samples)
    }

    /// A position of `samples` samples. A count above `i64::MAX` wraps around.
    #[inline]
    pub fn from_usize(samples: usize) -> (r: Self)
        ensures
            r.0 == samples as i64,
            samples <= i64::MAX ==> r@ == samples,
    {
        SampleTime(#[verifier::truncate] (samples as i64))
    }

    /// A position of `samples` samples. A count above `i64::MAX` wraps around.
    #[inline]
    pub fn from_u64(samples: u64) -> (r: Self)
        ensures
            r.0 == samples as i64,
            samples <= i64::MAX ==> r@ == samples,
    {
        SampleTime(#[verifier::truncate] (samples as i64))
    }

    /// The position as an index: `None` where it is negative.
    #[inline]
    pub fn as_usize(&self) -> (r: Option<usize>)
        ensures
            self@ < 0 <==> r is None,
            r matches Some(v) ==> v == self.0 as usize,
            0 <= self@ <= usize::MAX ==> r == Some(self@ as usize),
    {
        if self.0 >= 0 {
            Some(#[verifier::truncate] (self.0 as usize))
        } else {
            None
        }
    }

    /// The same position in ticks, where `sample_rate` (in samples per
    /// second) is a common rate; `None` for every other rate.
    #[inline]
    pub fn to_super_sample(&self, sample_rate: usize) -> (r: Option<SuperSampleTime>)
        requires
            is_common_rate(sample_rate as int) ==> i64::MIN <= self@ * spec_ticks_per_sample(
                sample_rate as int,
            ) <= i64::MAX,
        ensures
            is_common_rate(sample_rate as int) <==> r is Some,
            r matches Some(t) ==> t@ == self@ * spec_ticks_per_sample(sample_rate as int),
    {
        SuperSampleTime::from_sample_time(*self, sample_rate)
    }
}

impl Default for SampleTime {
    /// The origin: sample zero.
    fn default() -> (r: Self)
        ensures
            r@ == 0,
    {
        SampleTime(0)
    }
}

impl vstd::std_specs::convert::FromSpecImpl<i8> for SampleTime {
    open spec fn obeys_from_spec() -> bool {
        true
    }

    open spec fn from_spec(v: i8) -> Self {
        SampleTime(v as i64)
    }
}

impl From<i8> for SampleTime {
    /// A position of `s` samples.
    fn from(s: i8) -> (r: Self)
        ensures
            r@ == s,
    {
        SampleTime(s as i64)
    }
}

impl vstd::std_specs::convert::FromSpecImpl<u8> for SampleTime {
    open spec fn obeys_from_spec() -> bool {
        true
    }

    open spec fn from_spec(v: u8) -> Self {
        SampleTime(v as i64)
    }
}

impl From<u8> for SampleTime {
    /// A position of `s` samples.
    fn from(s: u8) -> (r: Self)
        ensures
            r@ == s,
    {
        SampleTime(s as i64)
    }
}

impl vstd::std_specs::convert::FromSpecImpl<i16> for SampleTime {
    open spec fn obeys_from_spec() -> bool {
        true
    }

    open spec fn from_spec(v: i16) -> Self {
        SampleTime(v as i64)
    }
}

impl From<i16> for SampleTime {
    /// A position of `s` samples.
    fn from(s: i16) -> (r: Self)
        ensures
            r@ == s,
    {
        SampleTime(s as i64)
    }
}

impl vstd::std_specs::convert::FromSpecImpl<u16> for SampleTime {
    open spec fn obeys_from_spec() -> bool {
        true
    }

    open spec fn from_spec(v: u16) -> Self {
        SampleTime(v as i64)
    }
}

impl From<u16> for SampleTime {
    /// A position of `s` samples.
    fn from(s: u16) -> (r: Self)
        ensures
            r@ == s,
    {
        SampleTime(s as i64)
    }
}

impl vstd::std_specs::convert::FromSpecImpl<i32> for SampleTime {
    open spec fn obeys_from_spec() -> bool {
        true
    }

    open spec fn from_spec(v: i32) -> Self {
        SampleTime(v as i64)
    }
}

impl From<i32> for SampleTime {
    /// A position of `s` samples.
    fn from(s: i32) -> (r: Self)
        ensures
            r@ == s,
    {
        SampleTime(s as i64)
    }
}

impl vstd::std_specs::convert::FromSpecImpl<u32> for SampleTime {
    open spec fn obeys_from_spec() -> bool {
        true
    }

    open spec fn from_spec(v: u32) -> Self {
        SampleTime(v as i64)
    }
}

impl From<u32> for SampleTime {
    /// A position of `s` samples.
    fn from(s: u32) -> (r: Self)
        ensures
            r@ == s,
    {
        SampleTime(s as i64)
    }
}

impl vstd::std_specs::convert::FromSpecImpl<i64> for SampleTime {
    open spec fn obeys_from_spec() -> bool {
        true
    }

    open spec fn from_spec(v: i64) -> Self {
        SampleTime(v)
    }
}

impl From<i64> for SampleTime {
    /// A position of `s` samples.
    fn from(s: i64) -> (r: Self)
        ensures
            r@ == s,
    {
        SampleTime(s)
    }
}

impl vstd::std_specs::ops::AddSpecImpl for SampleTime {
    open spec fn obeys_add_spec() -> bool {
        true
    }

    open spec fn add_req(self, rhs: Self) -> bool {
        i64::MIN <= self.0 + rhs.0 <= i64::MAX
    }

    open spec fn add_spec(self, rhs: Self) -> Self {
        SampleTime((self.0 + rhs.0) as i64)
    }
}

impl core::ops::Add for SampleTime {
    type Output = Self;

    /// The sum of the two counts.
    fn add(self, rhs: Self) -> (r: Self)
        ensures
            r@ == self@ + rhs@,
    {
        SampleTime(self.0 + rhs.0)
    }
}

impl core::ops::AddAssign for SampleTime {
    /// Adds the other count to this one.
    fn add_assign(&mut self, other: Self)
        requires
            i64::MIN <= old(self).0 + other.0 <= i64::MAX,
        ensures
            final(self)@ == old(self)@ + other@,
    {
        self.0 = self.0 + other.0;
    }
}

impl vstd::std_specs::ops::SubSpecImpl for SampleTime {
    open spec fn obeys_sub_spec() -> bool {
        true
    }

    open spec fn sub_req(self, rhs: Self) -> bool {
        i64::MIN <= self.0 - rhs.0 <= i64::MAX
    }

    open spec fn sub_spec(self, rhs: Self) -> Self {
        SampleTime((self.0 - rhs.0) as i64)
    }
}

impl core::ops::Sub for SampleTime {
    type Output = Self;

    /// The difference of the two counts.
    fn sub(self, rhs: Self) -> (r: Self)
        ensures
            r@ == self@ - rhs@,
    {
        SampleTime(self.0 - rhs.0)
    }
}

impl core::ops::SubAssign for SampleTime {
    /// Subtracts the other count from this one.
    fn sub_assign(&mut self, other: Self)
        requires
            i64::MIN <= old(self).0 - other.0 <= i64::MAX,
        ensures
            final(self)@ == old(self)@ - other@,
    {
        self.0 = self.0 - other.0;
    }
}

impl vstd::std_specs::ops::AddSpecImpl<Frames> for SampleTime {
    open spec fn obeys_add_spec() -> bool {
        true
    }

    open spec fn add_req(self, rhs: Frames) -> bool {
        i64::MIN <= self.0 + (rhs.0 as i64) <= i64::MAX
    }

    open spec fn add_spec(self, rhs: Frames) -> Self {
        SampleTime((self.0 + (rhs.0 as i64)) as i64)
    }
}

impl core::ops::Add<Frames> for SampleTime {
    type Output = Self;

    /// The position moved forward by the duration. A duration above
    /// `i64::MAX` wraps around first.
    fn add(self, rhs: Frames) -> (r: Self)
        ensures
            r.0 == self.0 + (rhs.0 as i64),
            rhs@ <= i64::MAX ==> r@ == self@ + rhs@,
    {
        SampleTime(self.0 + #[verifier::truncate] (rhs.0 as i64))
    }
}

impl core::ops::AddAssign<Frames> for SampleTime {
    /// Moves the position forward by the duration. A duration above
    /// `i64::MAX` wraps around first.
    fn add_assign(&mut self, other: Frames)
        requires
            i64::MIN <= old(self).0 + (other.0 as i64) <= i64::MAX,
        ensures
            final(self).0 == old(self).0 + (other.0 as i64),
            other@ <= i64::MAX ==> final(self)@ == old(self)@ + other@,
    {
        self.0 = self.0 + #[verifier::truncate] (other.0 as i64);
    }
}

impl vstd::std_specs::ops::SubSpecImpl<Frames> for SampleTime {
    open spec fn obeys_sub_spec() -> bool {
        true
    }

    open spec fn sub_req(self, rhs: Frames) -> bool {
        i64::MIN <= self.0 - (rhs.0 as i64) <= i64::MAX
    }

    open spec fn sub_spec(self, rhs: Frames) -> Self {
        SampleTime((self.0 - (rhs.0 as i64)) as i64)
    }
}

impl core::ops::Sub<Frames> for SampleTime {
    type Output = Self;

    /// The position moved back by the duration. A duration above
    /// `i64::MAX` wraps around first.
    fn sub(self, rhs: Frames) -> (r: Self)
        ensures
            r.0 == self.0 - (rhs.0 as i64),
            rhs@ <= i64::MAX ==> r@ == self@ - rhs@,
    {
        SampleTime(self.0 - #[verifier::truncate] (rhs.0 as i64))
    }
}

impl core::ops::SubAssign<Frames> for SampleTime {
    /// Moves the position back by the duration. A duration above
    /// `i64::MAX` wraps around first.
    fn sub_assign(&mut self, other: Frames)
        requires
            i64::MIN <= old(self).0 - (other.0 as i64) <= i64::MAX,
        ensures
            final(self).0 == old(self).0 - (other.0 as i64),
            other@ <= i64::MAX ==> final(self)@ == old(self)@ - other@,
    {
        self.0 = self.0 - #[verifier::truncate] (other.0 as i64);
    }
}

impl vstd::std_specs::cmp::PartialOrdSpecImpl for SampleTime {
    open spec fn obeys_partial_cmp_spec() -> bool {
        true
    }

    open spec fn partial_cmp_spec(&self, other: &Self) -> Option<Ordering> {
        if self.0 < other.0 {
            Some(Ordering::Less)
        } else if self.0 == other.0 {
            Some(Ordering::Equal)
        } else {
            Some(Ordering::Greater)
        }
    }
}

impl PartialOrd for SampleTime {
    /// Orders by the count.
    fn partial_cmp(&self, other: &Self) -> (r: Option<Ordering>) {
        if self.0 < other.0 {
            Some(Ordering::Less)
        } else if self.0 == other.0 {
            Some(Ordering::Equal)
        } else {
            Some(Ordering::Greater)
        }
    }
}

} // verus!

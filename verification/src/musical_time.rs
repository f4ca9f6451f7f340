//! Musical time: a signed position counted in ticks of a beat.

use crate::tick::{beat_parts_to_ticks, lemma_trunc_div_in_range, trunc_div, TICKS_PER_UNIT};
use std::cmp::Ordering;
use vstd::prelude::*;

verus! {

/// Musical time in ticks of 1/28,224,000 beat.
///
/// A beat divides evenly into halves down to sixty-fourths, and into thirds,
/// fifths and sevenths, so notes on any of these grids fall on whole ticks.
#[derive(Debug, Clone, Copy, PartialEq, Eq, Structural, Hash)]
pub struct MusicalTime(pub i64);

impl View for MusicalTime {
    type V = int;

    open spec fn view(&self) -> int {
        self.0 as int
    }
}

impl MusicalTime {
    /// A musical time of `super_beats` ticks.
    #[inline]
    pub fn new(super_beats: i64) -> (r: Self)
        ensures
            r@ == super_beats,
    {
        MusicalTime(super_beats)
    }

    /// The musical time of `beats` whole beats.
    #[inline]
    pub fn from_beats(beats: i64) -> (r: Self)
        requires
            i64::MIN <= beat_parts_to_ticks(beats as int, 1) <= i64::MAX,
        ensures
            r@ == beat_parts_to_ticks(beats as int, 1),
    {
        MusicalTime(beats * TICKS_PER_UNIT)
    }

    /// The musical time of `half_beats` halves of a beat.
    #[inline]
    pub fn from_half_beats(half_beats: i64) -> (r: Self)
        requires
            i64::MIN <= beat_parts_to_ticks(half_beats as int, 2) <= i64::MAX,
        ensures
            r@ == beat_parts_to_ticks(half_beats as int, 2),
    {
        MusicalTime(half_beats * (TICKS_PER_UNIT / 2))
    }

    /// The musical time of `quarter_beats` quarters of a beat.
    #[inline]
    pub fn from_quarter_beats(quarter_beats: i64) -> (r: Self)
        requires
            i64::MIN <= beat_parts_to_ticks(quarter_beats as int, 4) <= i64::MAX,
        ensures
            r@ == beat_parts_to_ticks(quarter_beats as int, 4),
    {
        MusicalTime(quarter_beats * (TICKS_PER_UNIT / 4))
    }

    /// The musical time of `eighth_beats` eighths of a beat.
    #[inline]
    pub fn from_eighth_beats(eighth_beats: i64) -> (r: Self)
        requires
            i64::MIN <= beat_parts_to_ticks(eighth_beats as int, 8) <= i64::MAX,
        ensures
            r@ == beat_parts_to_ticks(eighth_beats as int, 8),
    {
        MusicalTime(eighth_beats * (TICKS_PER_UNIT / 8))
    }

    /// The musical time of `sixteenth_beats` sixteenths of a beat.
    #[inline]
    pub fn from_sixteenth_beats(sixteenth_beats: i64) -> (r: Self)
        requires
            i64::MIN <= beat_parts_to_ticks(sixteenth_beats as int, 16) <= i64::MAX,
        ensures
            r@ == beat_parts_to_ticks(sixteenth_beats as int, 16),
    {
        MusicalTime(sixteenth_beats * (TICKS_PER_UNIT / 16))
    }

    /// The musical time of `thirty_second_beats` thirty-seconds of a beat.
    #[inline]
    pub fn from_32nd_beats(thirty_second_beats: i64) -> (r: Self)
        requires
            i64::MIN <= beat_parts_to_ticks(thirty_second_beats as int, 32) <= i64::MAX,
        ensures
            r@ == beat_parts_to_ticks(thirty_second_beats as int, 32),
    {
        MusicalTime(thirty_second_beats * (TICKS_PER_UNIT / 32))
    }

    /// The musical time of `sixty_fourth_beats` sixty-fourths of a beat.
    #[inline]
    pub fn from_64th_beats(sixty_fourth_beats: i64) -> (r: Self)
        requires
            i64::MIN <= beat_parts_to_ticks(sixty_fourth_beats as int, 64) <= i64::MAX,
        ensures
            r@ == beat_parts_to_ticks(sixty_fourth_beats as int, 64),
    {
        MusicalTime(sixty_fourth_beats * (TICKS_PER_UNIT / 64))
    }

    /// The musical time of `third_beats` thirds of a beat.
    #[inline]
    pub fn from_third_beats(third_beats: i64) -> (r: Self)
        requires
            i64::MIN <= beat_parts_to_ticks(third_beats as int, 3) <= i64::MAX,
        ensures
            r@ == beat_parts_to_ticks(third_beats as int, 3),
    {
        MusicalTime(third_beats * (TICKS_PER_UNIT / 3))
    }

    /// The musical time of `fifth_beats` fifths of a beat.
    #[inline]
    pub fn from_fifth_beats(fifth_beats: i64) -> (r: Self)
        requires
            i64::MIN <= beat_parts_to_ticks(fifth_beats as int, 5) <= i64::MAX,
        ensures
            r@ == beat_parts_to_ticks(fifth_beats as int, 5),
    {
        MusicalTime(fifth_beats * (TICKS_PER_UNIT / 5))
    }

    /// The musical time of `seventh_beats` sevenths of a beat.
    #[inline]
    pub fn from_seventh_beats(seventh_beats: i64) -> (r: Self)
        requires
            i64::MIN <= beat_parts_to_ticks(seventh_beats as int, 7) <= i64::MAX,
        ensures
            r@ == beat_parts_to_ticks(seventh_beats as int, 7),
    {
        MusicalTime(seventh_beats * (TICKS_PER_UNIT / 7))
    }
}

impl Default for MusicalTime {
    /// The start: zero ticks.
    fn default() -> (r: Self)
        ensures
            r@ == 0,
    {
        MusicalTime(0)
    }
}

impl vstd::std_specs::convert::FromSpecImpl<i8> for MusicalTime {
    open spec fn obeys_from_spec() -> bool {
        true
    }

    open spec fn from_spec(v: i8) -> Self {
        MusicalTime(v as i64)
    }
}

impl From<i8> for MusicalTime {
    /// A musical time of `s` ticks.
    fn from(s: i8) -> (r: Self)
        ensures
            r@ == s,
    {
        MusicalTime(s as i64)
    }
}

impl vstd::std_specs::convert::FromSpecImpl<u8> for MusicalTime {
    open spec fn obeys_from_spec() -> bool {
        true
    }

    open spec fn from_spec(v: u8) -> Self {
        MusicalTime(v as i64)
    }
}

impl From<u8> for MusicalTime {
    /// A musical time of `s` ticks.
    fn from(s: u8) -> (r: Self)
        ensures
            r@ == s,
    {
        MusicalTime(s as i64)
    }
}

impl vstd::std_specs::convert::FromSpecImpl<i16> for MusicalTime {
    open spec fn obeys_from_spec() -> bool {
        true
    }

    open spec fn from_spec(v: i16) -> Self {
        MusicalTime(v as i64)
    }
}

impl From<i16> for MusicalTime {
    /// A musical time of `s` ticks.
    fn from(s: i16) -> (r: Self)
        ensures
            r@ == s,
    {
        MusicalTime(s as i64)
    }
}

impl vstd::std_specs::convert::FromSpecImpl<u16> for MusicalTime {
    open spec fn obeys_from_spec() -> bool {
        true
    }

    open spec fn from_spec(v: u16) -> Self {
        MusicalTime(v as i64)
    }
}

impl From<u16> for MusicalTime {
    /// A musical time of `s` ticks.
    fn from(s: u16) -> (r: Self)
        ensures
            r@ == s,
    {
        MusicalTime(s as i64)
    }
}

impl vstd::std_specs::convert::FromSpecImpl<i32> for MusicalTime {
    open spec fn obeys_from_spec() -> bool {
        true
    }

    open spec fn from_spec(v: i32) -> Self {
        MusicalTime(v as i64)
    }
}

impl From<i32> for MusicalTime {
    /// A musical time of `s` ticks.
    fn from(s: i32) -> (r: Self)
        ensures
            r@ == s,
    {
        MusicalTime(s as i64)
    }
}

impl vstd::std_specs::convert::FromSpecImpl<u32> for MusicalTime {
    open spec fn obeys_from_spec() -> bool {
        true
    }

    open spec fn from_spec(v: u32) -> Self {
        MusicalTime(v as i64)
    }
}

impl From<u32> for MusicalTime {
    /// A musical time of `s` ticks.
    fn from(s: u32) -> (r: Self)
        ensures
            r@ == s,
    {
        MusicalTime(s as i64)
    }
}

impl vstd::std_specs::ops::AddSpecImpl for MusicalTime {
    open spec fn obeys_add_spec() -> bool {
        true
    }

    open spec fn add_req(self, rhs: Self) -> bool {
        i64::MIN <= self.0 + rhs.0 <= i64::MAX
    }

    open spec fn add_spec(self, rhs: Self) -> Self {
        MusicalTime((self.0 + rhs.0) as i64)
    }
}

impl core::ops::Add for MusicalTime {
    type Output = Self;

    /// The sum of the two counts.
    fn add(self, rhs: Self) -> (r: Self)
        ensures
            r@ == self@ + rhs@,
    {
        MusicalTime(self.0 + rhs.0)
    }
}

impl core::ops::AddAssign for MusicalTime {
    /// Adds the other count to this one.
    fn add_assign(&mut self, other: Self)
        requires
            i64::MIN <= old(self).0 + other.0 <= i64::MAX,
        ensures
            final(self)@ == old(self)@ + other@,
    {
        self.0 = self.0 + other.0;
    }
}

impl vstd::std_specs::ops::SubSpecImpl for MusicalTime {
    open spec fn obeys_sub_spec() -> bool {
        true
    }

    open spec fn sub_req(self, rhs: Self) -> bool {
        i64::MIN <= self.0 - rhs.0 <= i64::MAX
    }

    open spec fn sub_spec(self, rhs: Self) -> Self {
        MusicalTime((self.0 - rhs.0) as i64)
    }
}

impl core::ops::Sub for MusicalTime {
    type Output = Self;

    /// The difference of the two counts.
    fn sub(self, rhs: Self) -> (r: Self)
        ensures
            r@ == self@ - rhs@,
    {
        MusicalTime(self.0 - rhs.0)
    }
}

impl core::ops::SubAssign for MusicalTime {
    /// Subtracts the other count from this one.
    fn sub_assign(&mut self, other: Self)
        requires
            i64::MIN <= old(self).0 - other.0 <= i64::MAX,
        ensures
            final(self)@ == old(self)@ - other@,
    {
        self.0 = self.0 - other.0;
    }
}

impl vstd::std_specs::ops::MulSpecImpl for MusicalTime {
    open spec fn obeys_mul_spec() -> bool {
        true
    }

    open spec fn mul_req(self, rhs: Self) -> bool {
        i64::MIN <= self.0 * rhs.0 <= i64::MAX
    }

    open spec fn mul_spec(self, rhs: Self) -> Self {
        MusicalTime((self.0 * rhs.0) as i64)
    }
}

impl core::ops::Mul for MusicalTime {
    type Output = Self;

    /// The product of the two counts.
    fn mul(self, rhs: Self) -> (r: Self)
        ensures
            r@ == self@ * rhs@,
    {
        MusicalTime(self.0 * rhs.0)
    }
}

impl core::ops::MulAssign for MusicalTime {
    /// Multiplies this count by the other.
    fn mul_assign(&mut self, other: Self)
        requires
            i64::MIN <= old(self).0 * other.0 <= i64::MAX,
        ensures
            final(self)@ == old(self)@ * other@,
    {
        self.0 = self.0 * other.0;
    }
}

impl vstd::std_specs::ops::DivSpecImpl for MusicalTime {
    open spec fn obeys_div_spec() -> bool {
        true
    }

    open spec fn div_req(self, rhs: Self) -> bool {
        rhs.0 != 0 && !(self.0 == i64::MIN && rhs.0 == -1)
    }

    open spec fn div_spec(self, rhs: Self) -> Self {
        MusicalTime(trunc_div(self@, rhs@) as i64)
    }
}

impl core::ops::Div for MusicalTime {
    type Output = Self;

    /// The quotient of the two counts, rounded toward zero.
    fn div(self, rhs: Self) -> (r: Self)
        ensures
            r@ == trunc_div(self@, rhs@),
    {
        proof {
            lemma_trunc_div_in_range(self@, rhs@);
        }
        MusicalTime(self.0 / rhs.0)
    }
}

impl core::ops::DivAssign for MusicalTime {
    /// Divides this count by the other, rounding toward zero.
    fn div_assign(&mut self, other: Self)
        requires
            other.0 != 0,
            !(old(self).0 == i64::MIN && other.0 == -1),
        ensures
            final(self)@ == trunc_div(old(self)@, other@),
    {
        proof {
            lemma_trunc_div_in_range(self@, other@);
        }
        self.0 = self.0 / other.0;
    }
}

impl vstd::std_specs::cmp::PartialOrdSpecImpl for MusicalTime {
    open spec fn obeys_partial_cmp_spec() -> bool {
        true
    }

    open spec fn partial_cmp_spec(&self, other: &Self) -> Option<Ordering> {
        if self.0 < other.0 {
            Some(Ordering::Less)
        } else if self.0 == other.0 {
            Some(Ordering::Equal)
        } else {
            Some(Ordering::Greater)
        }
    }
}

impl PartialOrd for MusicalTime {
    /// Orders by the count.
    fn partial_cmp(&self, other: &Self) -> (r: Option<Ordering>) {
        if self.0 < other.0 {
            Some(Ordering::Less)
        } else if self.0 == other.0 {
            Some(Ordering::Equal)
        } else {
            Some(Ordering::Greater)
        }
    }
}

} // verus!

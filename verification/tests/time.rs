use rusty_daw_core::tick::{round_div_i64, round_div_usize, ticks_per_sample, TICKS_PER_UNIT};
use rusty_daw_core::{Frames, MusicalTime, SampleTime, SuperFrames, SuperSampleTime};

const COMMON_RATES: [usize; 8] = [22_050, 24_000, 44_100, 48_000, 88_200, 96_000, 176_400, 192_000];

#[test]
fn tick_count_is_fixed() {
    assert_eq!(TICKS_PER_UNIT, 28_224_000);
}

#[test]
fn ticks_per_sample_at_each_common_rate() {
    assert_eq!(ticks_per_sample(22_050), Some(1280));
    assert_eq!(ticks_per_sample(24_000), Some(1176));
    assert_eq!(ticks_per_sample(44_100), Some(640));
    assert_eq!(ticks_per_sample(48_000), Some(588));
    assert_eq!(ticks_per_sample(88_200), Some(320));
    assert_eq!(ticks_per_sample(96_000), Some(294));
    assert_eq!(ticks_per_sample(176_400), Some(160));
    assert_eq!(ticks_per_sample(192_000), Some(147));
}

#[test]
fn ticks_per_sample_times_rate_is_a_second() {
    for rate in COMMON_RATES {
        let k = ticks_per_sample(rate).unwrap() as usize;
        assert_eq!(k * rate, 28_224_000);
    }
}

#[test]
fn ticks_per_sample_of_other_rates_is_none() {
    assert_eq!(ticks_per_sample(0), None);
    assert_eq!(ticks_per_sample(1), None);
    assert_eq!(ticks_per_sample(32_000), None);
    assert_eq!(ticks_per_sample(44_099), None);
    assert_eq!(ticks_per_sample(44_101), None);
    assert_eq!(ticks_per_sample(384_000), None);
    assert_eq!(ticks_per_sample(usize::MAX), None);
}

#[test]
fn round_div_rounds_to_nearest() {
    assert_eq!(round_div_i64(0, 640), 0);
    assert_eq!(round_div_i64(319, 640), 0);
    assert_eq!(round_div_i64(321, 640), 1);
    assert_eq!(round_div_i64(639, 640), 1);
    assert_eq!(round_div_i64(640, 640), 1);
    assert_eq!(round_div_i64(-319, 640), 0);
    assert_eq!(round_div_i64(-321, 640), -1);
    assert_eq!(round_div_i64(7, 1), 7);
    assert_eq!(round_div_i64(-7, 1), -7);
}

#[test]
fn round_div_sends_ties_away_from_zero() {
    assert_eq!(round_div_i64(320, 640), 1);
    assert_eq!(round_div_i64(-320, 640), -1);
    assert_eq!(round_div_i64(960, 640), 2);
    assert_eq!(round_div_i64(-960, 640), -2);
    assert_eq!(round_div_i64(1, 2), 1);
    assert_eq!(round_div_i64(-1, 2), -1);
    assert_eq!(round_div_usize(320, 640), 1);
    assert_eq!(round_div_usize(1, 2), 1);
}

#[test]
fn round_div_with_an_odd_divisor() {
    assert_eq!(round_div_i64(73, 147), 0);
    assert_eq!(round_div_i64(74, 147), 1);
    assert_eq!(round_div_i64(-73, 147), 0);
    assert_eq!(round_div_i64(-74, 147), -1);
    assert_eq!(round_div_usize(73, 147), 0);
    assert_eq!(round_div_usize(74, 147), 1);
}

#[test]
fn round_div_at_the_ends_of_the_range() {
    assert_eq!(round_div_i64(i64::MAX, 1), i64::MAX);
    assert_eq!(round_div_i64(i64::MIN, 1), i64::MIN);
    assert_eq!(round_div_i64(i64::MAX, 2), 4_611_686_018_427_387_904);
    assert_eq!(round_div_i64(i64::MIN, 2), -4_611_686_018_427_387_904);
    assert_eq!(round_div_i64(i64::MIN, u32::MAX), -2_147_483_649);
    assert_eq!(round_div_usize(usize::MAX, 1), usize::MAX);
    assert_eq!(round_div_usize(0, u32::MAX), 0);
}

#[test]
fn musical_time_from_beats_counts_ticks() {
    assert_eq!(MusicalTime::new(5).0, 5);
    assert_eq!(MusicalTime::from_beats(0).0, 0);
    assert_eq!(MusicalTime::from_beats(1).0, 28_224_000);
    assert_eq!(MusicalTime::from_beats(2).0, 56_448_000);
    assert_eq!(MusicalTime::from_beats(-3).0, -84_672_000);
}

#[test]
fn musical_time_from_parts_of_a_beat() {
    assert_eq!(MusicalTime::from_half_beats(1).0, 14_112_000);
    assert_eq!(MusicalTime::from_quarter_beats(1).0, 7_056_000);
    assert_eq!(MusicalTime::from_eighth_beats(1).0, 3_528_000);
    assert_eq!(MusicalTime::from_sixteenth_beats(1).0, 1_764_000);
    assert_eq!(MusicalTime::from_32nd_beats(1).0, 882_000);
    assert_eq!(MusicalTime::from_64th_beats(1).0, 441_000);
    assert_eq!(MusicalTime::from_third_beats(1).0, 9_408_000);
    assert_eq!(MusicalTime::from_fifth_beats(1).0, 5_644_800);
    assert_eq!(MusicalTime::from_seventh_beats(1).0, 4_032_000);
    assert_eq!(MusicalTime::from_seventh_beats(-2).0, -8_064_000);
}

#[test]
fn parts_of_a_beat_make_whole_beats() {
    for beats in [-7i64, -1, 0, 1, 2, 300] {
        let whole = MusicalTime::from_beats(beats);
        assert_eq!(MusicalTime::from_half_beats(2 * beats), whole);
        assert_eq!(MusicalTime::from_quarter_beats(4 * beats), whole);
        assert_eq!(MusicalTime::from_eighth_beats(8 * beats), whole);
        assert_eq!(MusicalTime::from_sixteenth_beats(16 * beats), whole);
        assert_eq!(MusicalTime::from_32nd_beats(32 * beats), whole);
        assert_eq!(MusicalTime::from_64th_beats(64 * beats), whole);
        assert_eq!(MusicalTime::from_third_beats(3 * beats), whole);
        assert_eq!(MusicalTime::from_fifth_beats(5 * beats), whole);
        assert_eq!(MusicalTime::from_seventh_beats(7 * beats), whole);
    }
}

#[test]
fn two_beats_at_120_bpm_last_one_second() {
    let beats = MusicalTime::from_beats(2).0 as f64 / TICKS_PER_UNIT as f64;
    assert_eq!(beats * 60.0 / 120.0, 1.0);
}

#[test]
fn four_quarter_beats_are_one_beat() {
    let beats = MusicalTime::from_quarter_beats(4).0 as f64 / TICKS_PER_UNIT as f64;
    assert_eq!(beats, 1.0);
}

#[test]
fn musical_time_arithmetic() {
    let a = MusicalTime::new(12);
    let b = MusicalTime::new(-5);
    assert_eq!(a + b, MusicalTime(7));
    assert_eq!(a - b, MusicalTime(17));
    assert_eq!(a * b, MusicalTime(-60));
    assert_eq!(a / b, MusicalTime(-2));
    assert_eq!(b / a, MusicalTime(0));
    assert_eq!(MusicalTime(-12) / MusicalTime(5), MusicalTime(-2));
    assert_eq!(MusicalTime(-12) / MusicalTime(-5), MusicalTime(2));
    let mut c = a;
    c += b;
    assert_eq!(c, MusicalTime(7));
    c -= a;
    assert_eq!(c, MusicalTime(-5));
    c *= MusicalTime(-4);
    assert_eq!(c, MusicalTime(20));
    c /= MusicalTime(-3);
    assert_eq!(c, MusicalTime(-6));
}

#[test]
fn musical_time_from_small_integers() {
    assert_eq!(MusicalTime::from(-8i8), MusicalTime(-8));
    assert_eq!(MusicalTime::from(200u8), MusicalTime(200));
    assert_eq!(MusicalTime::from(-300i16), MusicalTime(-300));
    assert_eq!(MusicalTime::from(60_000u16), MusicalTime(60_000));
    assert_eq!(MusicalTime::from(i32::MIN), MusicalTime(-2_147_483_648));
    assert_eq!(MusicalTime::from(u32::MAX), MusicalTime(4_294_967_295));
    assert_eq!(MusicalTime::default(), MusicalTime(0));
}

#[test]
fn times_are_ordered_by_their_count() {
    assert!(MusicalTime(1) < MusicalTime(2));
    assert!(MusicalTime(-1) > MusicalTime(-2));
    assert!(MusicalTime(3) <= MusicalTime(3));
    assert!(SampleTime(-5) < SampleTime(0));
    assert!(SampleTime(4) >= SampleTime(4));
    assert!(SuperSampleTime(7) > SuperSampleTime(6));
    assert!(Frames(0) < Frames(1));
    assert!(SuperFrames(10) > SuperFrames(9));
    assert_eq!(SampleTime(2).partial_cmp(&SampleTime(2)), Some(std::cmp::Ordering::Equal));
    assert_eq!(Frames(1).partial_cmp(&Frames(2)), Some(std::cmp::Ordering::Less));
    assert_eq!(SuperFrames(2).partial_cmp(&SuperFrames(1)), Some(std::cmp::Ordering::Greater));
}

#[test]
fn sample_time_constructors() {
    assert_eq!(SampleTime::new(-9).0, -9);
    assert_eq!(SampleTime::from_usize(42).0, 42);
    assert_eq!(SampleTime::from_u64(42).0, 42);
    assert_eq!(SampleTime::from_u64(i64::MAX as u64).0, i64::MAX);
    assert_eq!(SampleTime::default(), SampleTime(0));
}

#[test]
fn sample_time_from_u64_wraps_above_i64_max() {
    assert_eq!(SampleTime::from_u64(u64::MAX).0, -1);
    assert_eq!(SampleTime::from_u64(1 << 63).0, i64::MIN);
    assert_eq!(SuperSampleTime::from_u64(u64::MAX).0, -1);
    assert_eq!(SuperSampleTime::from_u64(1 << 63).0, i64::MIN);
}

#[test]
fn sample_time_as_usize_is_none_below_zero() {
    assert_eq!(SampleTime(-1).as_usize(), None);
    assert_eq!(SampleTime(i64::MIN).as_usize(), None);
    assert_eq!(SampleTime(0).as_usize(), Some(0));
    assert_eq!(SampleTime(77).as_usize(), Some(77));
    assert_eq!(SuperSampleTime(-1).as_usize(), None);
    assert_eq!(SuperSampleTime(0).as_usize(), Some(0));
    assert_eq!(SuperSampleTime(1_000_000).as_usize(), Some(1_000_000));
}

#[test]
fn sample_time_from_small_integers() {
    assert_eq!(SampleTime::from(-8i8), SampleTime(-8));
    assert_eq!(SampleTime::from(200u8), SampleTime(200));
    assert_eq!(SampleTime::from(-300i16), SampleTime(-300));
    assert_eq!(SampleTime::from(60_000u16), SampleTime(60_000));
    assert_eq!(SampleTime::from(-70_000i32), SampleTime(-70_000));
    assert_eq!(SampleTime::from(u32::MAX), SampleTime(4_294_967_295));
    assert_eq!(SampleTime::from(i64::MIN), SampleTime(i64::MIN));
    assert_eq!(SuperSampleTime::from(-8i8), SuperSampleTime(-8));
    assert_eq!(SuperSampleTime::from(200u8), SuperSampleTime(200));
    assert_eq!(SuperSampleTime::from(-300i16), SuperSampleTime(-300));
    assert_eq!(SuperSampleTime::from(60_000u16), SuperSampleTime(60_000));
    assert_eq!(SuperSampleTime::from(-70_000i32), SuperSampleTime(-70_000));
    assert_eq!(SuperSampleTime::from(u32::MAX), SuperSampleTime(4_294_967_295));
    assert_eq!(SuperSampleTime::from(i64::MAX), SuperSampleTime(i64::MAX));
    assert_eq!(SuperSampleTime::default(), SuperSampleTime(0));
}

#[test]
fn sample_time_arithmetic() {
    let a = SampleTime::new(100);
    let b = SampleTime::new(-30);
    assert_eq!(a + b, SampleTime(70));
    assert_eq!(a - b, SampleTime(130));
    let mut c = a;
    c += b;
    assert_eq!(c, SampleTime(70));
    c -= a;
    assert_eq!(c, SampleTime(-30));
    assert_eq!(a + Frames(28), SampleTime(128));
    assert_eq!(b - Frames(70), SampleTime(-100));
    c += Frames(30);
    assert_eq!(c, SampleTime(0));
    c -= Frames(1);
    assert_eq!(c, SampleTime(-1));
}

#[test]
fn super_sample_time_arithmetic() {
    let a = SuperSampleTime::new(1_000);
    let b = SuperSampleTime::new(-250);
    assert_eq!(a + b, SuperSampleTime(750));
    assert_eq!(a - b, SuperSampleTime(1_250));
    let mut c = a;
    c += b;
    assert_eq!(c, SuperSampleTime(750));
    c -= a;
    assert_eq!(c, SuperSampleTime(-250));
    assert_eq!(a + SuperFrames(24), SuperSampleTime(1_024));
    assert_eq!(b - SuperFrames(750), SuperSampleTime(-1_000));
    c += SuperFrames(250);
    assert_eq!(c, SuperSampleTime(0));
    c -= SuperFrames(640);
    assert_eq!(c, SuperSampleTime(-640));
}

#[test]
fn sample_time_to_ticks_is_exact_at_common_rates() {
    assert_eq!(SuperSampleTime::from_sample_time(SampleTime(1), 44_100), Some(SuperSampleTime(640)));
    assert_eq!(SuperSampleTime::from_sample_time(SampleTime(-3), 48_000), Some(SuperSampleTime(-1_764)));
    assert_eq!(SuperSampleTime::from_sample_time(SampleTime(10), 22_050), Some(SuperSampleTime(12_800)));
    assert_eq!(SuperSampleTime::from_sample_time(SampleTime(10), 24_000), Some(SuperSampleTime(11_760)));
    assert_eq!(SuperSampleTime::from_sample_time(SampleTime(10), 88_200), Some(SuperSampleTime(3_200)));
    assert_eq!(SuperSampleTime::from_sample_time(SampleTime(10), 96_000), Some(SuperSampleTime(2_940)));
    assert_eq!(SuperSampleTime::from_sample_time(SampleTime(10), 176_400), Some(SuperSampleTime(1_600)));
    assert_eq!(SuperSampleTime::from_sample_time(SampleTime(10), 192_000), Some(SuperSampleTime(1_470)));
    assert_eq!(SampleTime(44_100).to_super_sample(44_100), Some(SuperSampleTime(28_224_000)));
    assert_eq!(SampleTime(0).to_super_sample(96_000), Some(SuperSampleTime(0)));
}

#[test]
fn sample_time_to_ticks_is_none_at_other_rates() {
    assert_eq!(SuperSampleTime::from_sample_time(SampleTime(1), 32_000), None);
    assert_eq!(SuperSampleTime::from_sample_time(SampleTime(1), 0), None);
    assert_eq!(SampleTime(5).to_super_sample(44_101), None);
    assert_eq!(SuperSampleTime(640).to_sample_time(11_025), None);
    assert_eq!(SuperFrames::from_frames(Frames(1), 8_000), None);
    assert_eq!(Frames(1).to_super_frames(47_999), None);
    assert_eq!(SuperFrames(640).to_frames(0), None);
}

#[test]
fn ticks_to_sample_time_rounds_to_nearest_sample() {
    assert_eq!(SuperSampleTime(640).to_sample_time(44_100), Some(SampleTime(1)));
    assert_eq!(SuperSampleTime(319).to_sample_time(44_100), Some(SampleTime(0)));
    assert_eq!(SuperSampleTime(320).to_sample_time(44_100), Some(SampleTime(1)));
    assert_eq!(SuperSampleTime(-319).to_sample_time(44_100), Some(SampleTime(0)));
    assert_eq!(SuperSampleTime(-320).to_sample_time(44_100), Some(SampleTime(-1)));
    assert_eq!(SuperSampleTime(73).to_sample_time(192_000), Some(SampleTime(0)));
    assert_eq!(SuperSampleTime(74).to_sample_time(192_000), Some(SampleTime(1)));
    assert_eq!(SuperSampleTime(28_224_000).to_sample_time(48_000), Some(SampleTime(48_000)));
    assert_eq!(SuperSampleTime(i64::MAX).to_sample_time(192_000), Some(SampleTime(62_744_027_461_597_114)));
    assert_eq!(SuperSampleTime(i64::MIN).to_sample_time(192_000), Some(SampleTime(-62_744_027_461_597_114)));
}

#[test]
fn sample_time_round_trip_is_exact_at_each_common_rate() {
    let samples: [i64; 9] = [
        0,
        1,
        -1,
        12_345,
        -98_765,
        1 << 40,
        -(1 << 40),
        i64::MAX / 1280,
        i64::MIN / 1280,
    ];
    for rate in COMMON_RATES {
        for n in samples {
            let there = SampleTime(n).to_super_sample(rate).unwrap();
            assert_eq!(there.to_sample_time(rate), Some(SampleTime(n)));
        }
    }
}

#[test]
fn a_tick_count_moves_between_common_rates_without_drift() {
    let one_second = SampleTime(44_100).to_super_sample(44_100).unwrap();
    for rate in COMMON_RATES {
        assert_eq!(one_second.to_sample_time(rate), Some(SampleTime(rate as i64)));
    }
}

#[test]
fn frames_constructors_and_conversions() {
    assert_eq!(Frames::new(12).0, 12);
    assert_eq!(Frames::default(), Frames(0));
    assert_eq!(Frames::from(9u8), Frames(9));
    assert_eq!(Frames::from(60_000u16), Frames(60_000));
    assert_eq!(Frames::from(123_456usize), Frames(123_456));
    assert_eq!(Frames(512).to_sample_time(), SampleTime(512));
    assert_eq!(SuperFrames::new(12).0, 12);
    assert_eq!(SuperFrames::default(), SuperFrames(0));
    assert_eq!(SuperFrames::from(9u8), SuperFrames(9));
    assert_eq!(SuperFrames::from(60_000u16), SuperFrames(60_000));
    assert_eq!(SuperFrames::from(123_456usize), SuperFrames(123_456));
    assert_eq!(SuperFrames(640).to_super_sample_time(), SuperSampleTime(640));
}

#[test]
fn frames_arithmetic() {
    assert_eq!(Frames(100) + Frames(28), Frames(128));
    assert_eq!(Frames(100) - Frames(28), Frames(72));
    assert_eq!(Frames(5) - Frames(5), Frames(0));
    let mut f = Frames(64);
    f += Frames(64);
    assert_eq!(f, Frames(128));
    f -= Frames(100);
    assert_eq!(f, Frames(28));
    assert_eq!(SuperFrames(100) + SuperFrames(28), SuperFrames(128));
    assert_eq!(SuperFrames(100) - SuperFrames(28), SuperFrames(72));
    let mut s = SuperFrames(640);
    s += SuperFrames(640);
    assert_eq!(s, SuperFrames(1_280));
    s -= SuperFrames(1_280);
    assert_eq!(s, SuperFrames(0));
}

#[test]
fn compiler_hint_min_is_the_shorter_length() {
    assert_eq!(Frames(100).compiler_hint_min(128), Frames(100));
    assert_eq!(Frames(200).compiler_hint_min(128), Frames(128));
    assert_eq!(Frames(128).compiler_hint_min(128), Frames(128));
    assert_eq!(Frames(0).compiler_hint_min(0), Frames(0));
    assert_eq!(Frames(usize::MAX).compiler_hint_min(1), Frames(1));
}

#[test]
fn frames_to_ticks_is_exact_at_common_rates() {
    assert_eq!(SuperFrames::from_frames(Frames(1), 44_100), Some(SuperFrames(640)));
    assert_eq!(SuperFrames::from_frames(Frames(3), 192_000), Some(SuperFrames(441)));
    assert_eq!(SuperFrames::from_frames(Frames(0), 48_000), Some(SuperFrames(0)));
    assert_eq!(Frames(48_000).to_super_frames(48_000), Some(SuperFrames(28_224_000)));
    assert_eq!(Frames(2).to_super_frames(22_050), Some(SuperFrames(2_560)));
}

#[test]
fn ticks_to_frames_rounds_to_nearest_sample() {
    assert_eq!(SuperFrames(640).to_frames(44_100), Some(Frames(1)));
    assert_eq!(SuperFrames(319).to_frames(44_100), Some(Frames(0)));
    assert_eq!(SuperFrames(320).to_frames(44_100), Some(Frames(1)));
    assert_eq!(SuperFrames(73).to_frames(192_000), Some(Frames(0)));
    assert_eq!(SuperFrames(74).to_frames(192_000), Some(Frames(1)));
    assert_eq!(SuperFrames(usize::MAX).to_frames(22_050), Some(Frames(usize::MAX / 1280)));
}

#[test]
fn frames_round_trip_is_exact_at_each_common_rate() {
    let lengths: [usize; 6] = [0, 1, 64, 12_345, 1 << 20, usize::MAX / 1280];
    for rate in COMMON_RATES {
        for n in lengths {
            let there = Frames(n).to_super_frames(rate).unwrap();
            assert_eq!(there.to_frames(rate), Some(Frames(n)));
        }
    }
}

#[test]
fn positions_and_lengths_convert_alike() {
    for rate in COMMON_RATES {
        let length = Frames(4_096).to_super_frames(rate).unwrap();
        let position = Frames(4_096).to_sample_time().to_super_sample(rate).unwrap();
        assert_eq!(length.to_super_sample_time(), position);
    }
}

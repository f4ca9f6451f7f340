use rusty_daw_core::parameter::clamp;
use rusty_daw_core::{ParamI32, ParamI32Handle, Unit};

#[test]
fn clamp_brings_a_value_into_the_range() {
    assert_eq!(clamp(5, 0, 10), 5);
    assert_eq!(clamp(-1, 0, 10), 0);
    assert_eq!(clamp(11, 0, 10), 10);
    assert_eq!(clamp(0, 0, 10), 0);
    assert_eq!(clamp(10, 0, 10), 10);
    assert_eq!(clamp(i32::MIN, -3, 3), -3);
    assert_eq!(clamp(i32::MAX, -3, 3), 3);
    assert_eq!(clamp(7, 7, 7), 7);
    assert_eq!(clamp(8, 7, 7), 7);
}

#[test]
fn from_value_keeps_the_range() {
    let (param, handle) = ParamI32::from_value(3, -4, 12);
    assert_eq!(param.min(), -4);
    assert_eq!(param.max(), 12);
    assert_eq!(handle.min(), -4);
    assert_eq!(handle.max(), 12);
}

#[test]
fn from_value_starts_at_the_clamped_value() {
    let (mut param, handle) = ParamI32::from_value(3, 0, 10);
    assert_eq!(param.value(), 3);
    assert_eq!(handle.value(), 3);
    let (mut param, handle) = ParamI32::from_value(-7, 0, 10);
    assert_eq!(param.value(), 0);
    assert_eq!(handle.value(), 0);
    let (mut param, handle) = ParamI32::from_value(99, 0, 10);
    assert_eq!(param.value(), 10);
    assert_eq!(handle.value(), 10);
}

#[test]
fn a_handle_write_is_seen_by_the_parameter() {
    let (mut param, mut handle) = ParamI32::from_value(0, 0, 10);
    handle.set_value(7);
    assert_eq!(param.value(), 7);
    assert_eq!(handle.value(), 7);
}

#[test]
fn a_parameter_write_is_seen_by_the_handle() {
    let (mut param, handle) = ParamI32::from_value(0, 0, 10);
    param.set_value(4);
    assert_eq!(handle.value(), 4);
    assert_eq!(param.value(), 4);
}

#[test]
fn writes_are_clamped_on_both_sides() {
    let (mut param, mut handle) = ParamI32::from_value(5, 0, 10);
    handle.set_value(1_000);
    assert_eq!(param.value(), 10);
    handle.set_value(-1_000);
    assert_eq!(param.value(), 0);
    param.set_value(11);
    assert_eq!(handle.value(), 10);
    param.set_value(-1);
    assert_eq!(handle.value(), 0);
}

#[test]
fn the_last_of_two_writes_wins() {
    let (mut param, mut handle) = ParamI32::from_value(0, 0, 100);
    handle.set_value(25);
    handle.set_value(75);
    assert_eq!(param.value(), 75);
    param.set_value(10);
    handle.set_value(20);
    assert_eq!(param.value(), 20);
    handle.set_value(30);
    param.set_value(40);
    assert_eq!(handle.value(), 40);
}

#[test]
fn a_repeated_write_changes_nothing() {
    let (mut param, handle) = ParamI32::from_value(0, 0, 100);
    param.set_value(33);
    param.set_value(33);
    assert_eq!(param.value(), 33);
    assert_eq!(handle.value(), 33);
}

#[test]
fn cloned_handles_share_the_cell() {
    let (mut param, handle) = ParamI32::from_value(1, 0, 10);
    let mut second: ParamI32Handle = handle.clone();
    assert_eq!(second.min(), 0);
    assert_eq!(second.max(), 10);
    assert_eq!(second.value(), 1);
    second.set_value(9);
    assert_eq!(handle.value(), 9);
    assert_eq!(param.value(), 9);
    param.set_value(2);
    assert_eq!(second.value(), 2);
    assert_eq!(handle.value(), 2);
}

#[test]
fn parameters_made_apart_do_not_share() {
    let (mut first, _first_handle) = ParamI32::from_value(1, 0, 10);
    let (mut second, mut second_handle) = ParamI32::from_value(2, 0, 10);
    second_handle.set_value(8);
    assert_eq!(first.value(), 1);
    assert_eq!(second.value(), 8);
}

#[test]
fn a_handle_outlives_its_parameter() {
    let (param, mut handle) = ParamI32::from_value(6, 0, 10);
    drop(param);
    assert_eq!(handle.value(), 6);
    handle.set_value(3);
    assert_eq!(handle.value(), 3);
}

#[test]
fn the_midpoint_of_zero_to_ten_rounds_to_five() {
    let normalized: f32 = 0.5;
    let value = ((normalized * (10.0 - 0.0)) + 0.0).round() as i32;
    let (mut param, _handle) = ParamI32::from_value(value, 0, 10);
    assert_eq!(param.value(), 5);
}

#[test]
fn units_compare_by_variant() {
    let unit = Unit::Decibels;
    let copy = unit;
    assert_eq!(unit, copy);
    assert_ne!(Unit::Generic, Unit::Decibels);
    assert_eq!(Unit::Generic, Unit::Generic);
}

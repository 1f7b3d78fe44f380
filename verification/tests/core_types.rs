//! Tests of the fixed-point math, angles, spatial index, and the
//! small component types.

use combat_core::angle::{signed_diff, turn_toward, wrap_step};
use combat_core::components::{
    AnimationIndices, BulletPod, FrameStep, PlayerSettings, Ship, Side,
};
use combat_core::damage::Health;
use combat_core::events::ToggleUI;
use combat_core::geometry::{line_equation, Line};
use combat_core::math::{dir_scaled, isqrt64, mul_div_milli, within_cone, Vec2I};
use combat_core::spatial::{SpatialEntry, SpatialIndex};

fn v(x: i64, y: i64) -> Vec2I {
    Vec2I { x, y }
}

#[test]
fn vector_ops_are_exact() {
    let a = v(3, 4);
    let b = v(-1, 2);
    assert_eq!(a.plus(b), v(2, 6));
    assert_eq!(a.minus(b), v(4, 2));
    assert_eq!(a.perp(), v(4, -3));
    assert_eq!(a.dot(b), 5);
    assert_eq!(a.cross(b), 10);
    assert_eq!(a.len_sq(), 25);
    assert_eq!(a.dist_sq(b), 20);
}

#[test]
fn fixed_point_scaling_truncates_toward_zero() {
    assert_eq!(mul_div_milli(1001, 350), 350);
    assert_eq!(mul_div_milli(-1001, 350), -350);
    assert_eq!(mul_div_milli(999, 1000), 999);
    assert_eq!(v(1001, -1001).scaled_milli(350), v(350, -350));
}

#[test]
fn integer_square_root_brackets() {
    assert_eq!(isqrt64(0), 0);
    assert_eq!(isqrt64(1), 1);
    assert_eq!(isqrt64(24), 4);
    assert_eq!(isqrt64(25), 5);
    assert_eq!(isqrt64(26), 5);
    assert_eq!(isqrt64(9_223_372_036_854_775_807), 3_037_000_499);
}

#[test]
fn dir_scaled_rescales_to_speed() {
    assert_eq!(dir_scaled(v(3_000, 4_000), 2_500), v(1_500, 2_000));
    assert_eq!(dir_scaled(v(0, 100_000), 4_000), v(0, 4_000));
    assert_eq!(dir_scaled(v(0, 0), 2_500), v(0, 0));
}

#[test]
fn cone_test_is_inclusive_at_forty_five_degrees() {
    let fwd = v(0, 1_000);
    assert!(within_cone(fwd, v(100_000, 100_000)));
    assert!(within_cone(fwd, v(-100_000, 100_000)));
    assert!(!within_cone(fwd, v(100_001, 100_000)));
    assert!(!within_cone(fwd, v(0, -100_000)));
    assert!(!within_cone(fwd, v(0, 0)));
}

#[test]
fn signed_diff_wraps_the_short_way() {
    assert_eq!(signed_diff(350_000, 10_000), 20_000);
    assert_eq!(signed_diff(10_000, 350_000), -20_000);
    assert_eq!(signed_diff(0, 180_000), 180_000);
    assert_eq!(signed_diff(90_000, 90_000), 0);
}

#[test]
fn turn_toward_clamps_and_wraps() {
    assert_eq!(turn_toward(350_000, 10_000, 27_000), 10_000);
    assert_eq!(turn_toward(350_000, 10_000, 5_000), 355_000);
    assert_eq!(turn_toward(10_000, 350_000, 5_000), 5_000);
    assert_eq!(turn_toward(90_000, 90_000, 27_000), 90_000);
    assert_eq!(wrap_step(359_000, 2_000), 1_000);
}

#[test]
fn spatial_query_is_an_inclusive_snapshot_read() {
    let mut index = SpatialIndex::new(5);
    let entries = vec![
        SpatialEntry { pos: v(0, 3_000), entity: Some(1) },
        SpatialEntry { pos: v(0, 5_000), entity: Some(2) },
        SpatialEntry { pos: v(0, 5_001), entity: Some(3) },
        SpatialEntry { pos: v(100, 100), entity: None },
    ];
    index.rebuild(entries);
    let hits = index.within_distance(v(0, 0), 5_000);
    assert_eq!(hits.len(), 3);
    assert_eq!(hits[0].entity, Some(1));
    assert_eq!(hits[0].dist_sq, 9_000_000);
    assert_eq!(hits[1].entity, Some(2));
    assert_eq!(hits[2].entity, None);
}

#[test]
fn spatial_rebuild_timer_has_a_cadence() {
    let mut index = SpatialIndex::new(5);
    assert!(!index.advance_timer(4));
    assert!(index.advance_timer(1));
    index.rebuild(Vec::new());
    assert!(!index.advance_timer(4));
}

#[test]
fn line_equation_holds_of_both_endpoints() {
    let p = v(1_000, 2_000);
    let q = v(4_000, 8_000);
    let eq = line_equation(Line(p, q));
    assert_eq!(eq[0] * p.x + eq[1] * p.y + eq[2], 0);
    assert_eq!(eq[0] * q.x + eq[1] * q.y + eq[2], 0);
    let vertical = line_equation(Line(v(7, 0), v(7, 9)));
    assert_eq!(vertical, [7, 0, 0]);
}

#[test]
fn animation_advances_wraps_and_finishes() {
    let idx = AnimationIndices { first: 2, last: 5 };
    assert_eq!(idx.advance(2, true), FrameStep::Advance(3));
    assert_eq!(idx.advance(4, true), FrameStep::Advance(2));
    assert_eq!(idx.advance(4, false), FrameStep::Finished);
}

#[test]
fn component_constructors_hold_their_values() {
    let h = Health::new(12);
    assert_eq!(h.max, 12);
    assert_eq!(h.current, 12);
    let pod = BulletPod::new(-10_000, 250_000);
    assert_eq!(pod.heat, -10_000);
    assert_eq!(pod.range, 250_000);
    assert_eq!(Ship::SmallShip(4).get_frame(), 4);
    assert_eq!(Ship::LargeShip(9).get_frame(), 9);
    assert_eq!(ToggleUI::show().0, Some(true));
    assert_eq!(ToggleUI::conceal().0, Some(false));
    assert_eq!(ToggleUI::default().0, None);
    let s = PlayerSettings::default();
    assert_eq!(s.scan_radius, 300_000);
    assert_eq!(s.railgun_cooldown_ms, 30);
    assert_eq!(s.missile_count, 10);
    assert_eq!(s.camera_deadzone, 150_000);
}

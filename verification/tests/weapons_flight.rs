//! Tests of weapon fire control, projectile flight, guidance, and the
//! remaining per-tick decision logic.

use combat_core::camera::{camera_follow, CameraPan};
use combat_core::components::{
    ActivationTime, BulletPod, LevelBlueprint, MissileCooldown, PlayerSettings, Ship,
    ShipBlueprint, Side,
};
use combat_core::control::{control_ship, integrate_movement, ControlInput, ShipControl};
use combat_core::events::{ProjectileKind, SpawnVisualEvent};
use combat_core::feedback::{
    distance_milli, drive_smoke, shake_on_player_damage, strafe_smoke, thrust_emits_smoke,
    RumbleClass, ThrustPuff,
};
use combat_core::flight::{fly_velocity, FlightState};
use combat_core::guidance::{missile_guidance, GuidedMissile};
use combat_core::launchers::{
    fire_railguns, missile_salvo, player_fire_missiles, player_missile_cooldown, MissileDraw,
};
use combat_core::level::{spawn_enemies, spawn_level, spawn_ship};
use combat_core::lifecycle::{fadeout, FadingSprite};
use combat_core::math::Vec2I;
use combat_core::weapons::{
    fire_artillery_at, fire_pdc, pdc_burst, pdc_throttle_gate, MissileThreat, PodMount,
};
use combat_core::components::MissileTarget;

fn v(x: i64, y: i64) -> Vec2I {
    Vec2I { x, y }
}

#[test]
fn pod_heat_trips_to_minus_two_exactly() {
    // Heat climbing past the limit resets to -2.0 (milli: -2000) on
    // that very evaluation, and the shot still fires.
    let mut pod = BulletPod::new(4_900, 250_000);
    let shot = fire_artillery_at(&mut pod, 200, v(0, 0), v(10_000, 0), v(0, 0), 0, 0, 0, 0);
    assert!(shot.is_some());
    assert_eq!(pod.heat, -2_000);

    // While negative, no fire opportunity is granted and the fire
    // step leaves the heat alone.
    let none = fire_artillery_at(&mut pod, 200, v(0, 0), v(10_000, 0), v(0, 0), 0, 0, 0, 0);
    assert!(none.is_none());
    assert_eq!(pod.heat, -2_000);
}

#[test]
fn pod_heat_accumulates_while_ready() {
    let mut pod = BulletPod::new(0, 250_000);
    for k in 1..=5 {
        let shot = fire_artillery_at(&mut pod, 700, v(0, 0), v(10_000, 0), v(0, 0), 0, 0, 0, 0);
        assert!(shot.is_some());
        assert_eq!(pod.heat, 700 * k);
    }
}

#[test]
fn burst_fires_until_the_trip_and_then_stops() {
    let mut pod = BulletPod::new(0, 250_000);
    let jitters = vec![(0i64, 0i64, 0i64); 10];
    let shots = pdc_burst(&mut pod, 600, v(0, 0), v(10_000, 0), v(0, 0), &jitters);
    // Entry heats 0, 600, ..., 4800 all fire; the ninth climbs to
    // 5400, trips to -2000, and the tenth opportunity is denied.
    assert_eq!(shots.len(), 9);
    assert_eq!(pod.heat, -2_000);
    for (j, s) in shots.iter().enumerate() {
        assert_eq!(s.kind, ProjectileKind::PDCSlug);
        assert_eq!(s.side, Side::Enemy);
        assert_eq!(s.speed_milli, 2_500);
        assert_eq!(s.activation_ms, Some(j as i64 * 50));
        assert_eq!(s.fadeout_decay, 5);
    }
}

#[test]
fn slug_aim_leads_the_target_with_jitter() {
    let mut pod = BulletPod::new(0, 250_000);
    // Target ahead on the x axis, moving up; jitter pushes the aim a
    // little further.  aim = (10000 + 0 + 0, 0 + 2000 + 0), origin
    // jittered by 300 on both axes.
    let shot =
        fire_artillery_at(&mut pod, 100, v(0, 0), v(10_000, 0), v(0, 2_000), 0, 0, 300, 150)
            .unwrap();
    assert_eq!(shot.origin, v(300, 300));
    assert_eq!(shot.activation_ms, Some(150));
    // |direction| = sqrt(10000^2 + 2000^2) = 10198.03; the velocity is
    // the direction rescaled to 2500, truncated toward zero.
    assert_eq!(shot.vel, v(10_000 * 2_500 / 10_198, 2_000 * 2_500 / 10_198));
}

#[test]
fn fire_pdc_with_nothing_in_reach_only_cools() {
    let mut pods = vec![
        PodMount { ship_id: 1, pos: v(0, 0), pod: BulletPod::new(-10_000, 250_000) },
        PodMount { ship_id: 2, pos: v(0, 0), pod: BulletPod::new(3_000, 250_000) },
    ];
    let shots = fire_pdc(&mut pods, &Vec::new(), None, 16);
    assert!(shots.is_empty());
    assert_eq!(pods[0].pod.heat, -9_984);
    assert_eq!(pods[1].pod.heat, 3_000);
}

#[test]
fn missiles_trigger_their_target_ships_point_defense() {
    let mut pods = vec![PodMount { ship_id: 1, pos: v(0, 0), pod: BulletPod::new(0, 250_000) }];
    let missiles = vec![MissileThreat { pos: v(50_000, 0), vel: v(-5_000, 0), target: 1 }];
    let shots = fire_pdc(&mut pods, &missiles, None, 16);
    assert_eq!(shots.len(), 1);
    assert_eq!(shots[0].kind, ProjectileKind::PDCSlug);
    assert_eq!(shots[0].side, Side::Enemy);
    assert_eq!(shots[0].activation_ms, Some(0));
    assert_eq!(pods[0].pod.heat, 16);
}

#[test]
fn throttle_gate_opens_outside_the_skip_band() {
    assert!(!pdc_throttle_gate(0));
    assert!(!pdc_throttle_gate(79));
    assert!(pdc_throttle_gate(80));
    assert!(pdc_throttle_gate(99));
}

#[test]
fn each_inbound_missile_draws_one_defensive_shot() {
    // Two missiles homing at the same ship: its mount takes two fire
    // opportunities, staggered, and the heat steps twice.
    let mut pods = vec![PodMount { ship_id: 1, pos: v(0, 0), pod: BulletPod::new(0, 250_000) }];
    let missiles = vec![
        MissileThreat { pos: v(50_000, 0), vel: v(-5_000, 0), target: 1 },
        MissileThreat { pos: v(60_000, 0), vel: v(-5_000, 0), target: 1 },
    ];
    let shots = fire_pdc(&mut pods, &missiles, None, 16);
    assert_eq!(shots.len(), 2);
    assert_eq!(shots[0].activation_ms, Some(0));
    assert_eq!(shots[1].activation_ms, Some(50));
    assert_eq!(pods[0].pod.heat, 32);
}

#[test]
fn cooling_mounts_warm_exactly_even_under_missile_fire() {
    // A deep-cooldown mount takes a fire opportunity from an inbound
    // missile, but a fire step on negative heat is a no-op: the tick
    // still warms it by exactly the elapsed time, and nothing fires.
    let mut pods = vec![PodMount { ship_id: 1, pos: v(0, 0), pod: BulletPod::new(-10_000, 250_000) }];
    let missiles = vec![MissileThreat { pos: v(50_000, 0), vel: v(-5_000, 0), target: 1 }];
    let shots = fire_pdc(&mut pods, &missiles, Some(v(40_000, 0)), 16);
    assert!(shots.is_empty());
    assert_eq!(pods[0].pod.heat, -9_984);
}

#[test]
fn movement_integration_is_exact() {
    // Facing up at full throttle with engine speed three: three units
    // forward.
    let p1 = integrate_movement(v(0, 0), v(0, 1_000), 0, 1_000, 3_000);
    assert_eq!(p1, v(0, 3_000));
    // Half throttle, engine speed two, full right strafe: the lateral
    // push equals the facing's, and both scale by one.
    let p2 = integrate_movement(v(100, 200), v(0, 1_000), 3_000, 500, 2_000);
    assert_eq!(p2, v(100 + 3_000, 200 + 1_000));
    // No throttle: no movement.
    let p3 = integrate_movement(v(7, 8), v(0, 1_000), 3_000, 0, 9_000);
    assert_eq!(p3, v(7, 8));
}

#[test]
fn salvo_missiles_fan_off_the_player_heading() {
    let settings = PlayerSettings::default();
    let mut cooldown = MissileCooldown(0);
    let salvo =
        player_fire_missiles(&mut cooldown, &settings, v(0, 0), v(0, 1_000), 9_000, &Vec::new(), 1);
    assert_eq!(salvo.len(), 10);
    for (i, m) in salvo.iter().enumerate() {
        // Fan step: 3988 millidegrees at the default missile angle.
        assert_eq!(m.heading_millideg, 9_000 + 3_988 * i as i64);
        // Launch origin: five units right of the facing plus one
        // origin-jitter draw, the same on both axes.
        let dx = m.origin.x - 5_000;
        assert!((0..500).contains(&dx));
        assert_eq!(m.origin.y, dx);
    }
}

#[test]
fn activation_window_damps_then_releases() {
    let mut state = FlightState {
        pos: v(0, 0),
        vel: v(1_000, 0),
        activation: Some(ActivationTime(500)),
        scale_milli: 1_000,
        has_noise: false,
    };
    // First tick: damped to 35%, countdown shrinks.
    fly_velocity(&mut state, 300, 0, v(0, 0));
    assert_eq!(state.pos, v(350, 0));
    assert_eq!(state.activation, Some(ActivationTime(200)));
    // Second tick: still damped, and the spent window is removed.
    fly_velocity(&mut state, 300, 0, v(0, 0));
    assert_eq!(state.pos, v(700, 0));
    assert_eq!(state.activation, None);
    // Third tick: full velocity forever after.
    fly_velocity(&mut state, 300, 0, v(0, 0));
    assert_eq!(state.pos, v(1_700, 0));
}

#[test]
fn wobble_scales_with_factor_and_size() {
    // Full velocity, unit scale: coefficient = noise * 1000/1000 *
    // 1000/1000 = noise; wobble = lateral * noise / 1000.
    let mut state = FlightState {
        pos: v(0, 0),
        vel: v(1_000, 0),
        activation: None,
        scale_milli: 1_000,
        has_noise: true,
    };
    fly_velocity(&mut state, 16, 500, v(0, -1_000));
    assert_eq!(state.pos, v(1_000, -500));

    // Inside the activation window the factor is 350, so the wobble
    // coefficient shrinks by (350*350/1000)/1000 = 122/1000.
    let mut damped = FlightState {
        pos: v(0, 0),
        vel: v(1_000, 0),
        activation: Some(ActivationTime(1_000)),
        scale_milli: 1_000,
        has_noise: true,
    };
    fly_velocity(&mut damped, 16, 500, v(0, -1_000));
    assert_eq!(damped.pos, v(350, -61));
}

#[test]
fn guidance_skips_dead_targets_and_clamps_turns() {
    let mut missiles = vec![
        GuidedMissile {
            id: 1,
            heading_millideg: 90_000,
            has_activation: false,
            target: MissileTarget(7),
        },
        GuidedMissile {
            id: 2,
            heading_millideg: 90_000,
            has_activation: false,
            target: MissileTarget(8),
        },
        GuidedMissile {
            id: 3,
            heading_millideg: 90_000,
            has_activation: true,
            target: MissileTarget(8),
        },
    ];
    let live = vec![8u64];
    let bearings = vec![180_000i64, 180_000, 180_000];
    missile_guidance(&mut missiles, &live, &bearings, 100);
    // Target 7 was destroyed a tick earlier: guidance is a no-op for
    // that missile.
    assert_eq!(missiles[0].heading_millideg, 90_000);
    // A live target pulls the heading by at most 270 md/ms * 100 ms.
    assert_eq!(missiles[1].heading_millideg, 117_000);
    // An activation window suppresses guidance entirely.
    assert_eq!(missiles[2].heading_millideg, 90_000);
}

#[test]
fn aligned_missiles_hold_their_heading() {
    let mut missiles = vec![GuidedMissile {
        id: 1,
        heading_millideg: 42_000,
        has_activation: false,
        target: MissileTarget(8),
    }];
    let live = vec![8u64];
    let bearings = vec![42_000i64];
    missile_guidance(&mut missiles, &live, &bearings, 1_000);
    assert_eq!(missiles[0].heading_millideg, 42_000);
}

#[test]
fn railguns_wait_out_their_cooldown() {
    let settings = PlayerSettings::default();
    let mut wait: i64 = 20;
    let dirs = vec![v(0, 1_000)];
    let none = fire_railguns(&mut wait, &settings, v(0, 0), &dirs, 16);
    assert!(none.is_empty());
    assert_eq!(wait, 4);
    let still_none = fire_railguns(&mut wait, &settings, v(0, 0), &dirs, 16);
    assert!(still_none.is_empty());
    assert_eq!(wait, -12);
    let rails = fire_railguns(&mut wait, &settings, v(0, 0), &dirs, 16);
    assert_eq!(rails.len(), 1);
    assert_eq!(wait, settings.railgun_cooldown_ms);
    assert_eq!(rails[0].kind, ProjectileKind::Rail);
    assert_eq!(rails[0].side, Side::Player);
    assert_eq!(rails[0].origin, v(0, 0));
    assert_eq!(rails[0].vel, v(0, 4_000));
    assert_eq!(rails[0].activation_ms, None);
    assert_eq!(rails[0].fadeout_decay, 25);
}

#[test]
fn missile_salvo_fans_and_picks_targets() {
    let mut settings = PlayerSettings::default();
    settings.missile_count = 3;
    let targets = vec![100u64, 101u64];
    let draws = vec![
        MissileDraw { origin_jitter: 0, speed_milli: 5_100, activation_ms: 600, pick: 1 },
        MissileDraw { origin_jitter: 100, speed_milli: 5_200, activation_ms: 700, pick: 0 },
        MissileDraw { origin_jitter: 200, speed_milli: 5_400, activation_ms: 900, pick: 1 },
    ];
    // Facing up: the lateral launch offset is five units to the right.
    let out = missile_salvo(v(0, 0), v(0, 1_000), 0, &settings, &targets, &draws);
    assert_eq!(out.len(), 3);
    // Fan step: 3988 millidegrees at full missile angle.
    assert_eq!(out[0].heading_millideg, 0);
    assert_eq!(out[1].heading_millideg, 3_988);
    assert_eq!(out[2].heading_millideg, 7_976);
    assert_eq!(out[0].origin, v(5_000, 0));
    assert_eq!(out[1].origin, v(5_100, 100));
    assert_eq!(out[0].target, Some(101));
    assert_eq!(out[1].target, Some(100));
    assert_eq!(out[0].speed_milli, 5_100);
    assert_eq!(out[0].activation_ms, Some(600));
    assert_eq!(out[0].kind, ProjectileKind::Missile);
    assert_eq!(out[0].side, Side::Player);
}

#[test]
fn missile_fire_is_cooldown_gated() {
    let settings = PlayerSettings::default();
    let mut cooldown = MissileCooldown(50);
    let none =
        player_fire_missiles(&mut cooldown, &settings, v(0, 0), v(0, 1_000), 0, &Vec::new(), 1);
    assert!(none.is_empty());
    assert_eq!(cooldown.0, 50);

    player_missile_cooldown(&mut cooldown, 60);
    assert_eq!(cooldown.0, -10);
    let salvo =
        player_fire_missiles(&mut cooldown, &settings, v(0, 0), v(0, 1_000), 0, &Vec::new(), 2);
    assert_eq!(salvo.len(), 2 * settings.missile_count as usize);
    assert_eq!(cooldown.0, settings.missile_cooldown_ms);
    for m in &salvo {
        assert_eq!(m.kind, ProjectileKind::Missile);
        assert_eq!(m.side, Side::Player);
        assert_eq!(m.target, None);
        assert!(5_000 <= m.speed_milli && m.speed_milli < 5_500);
        let a = m.activation_ms.unwrap();
        assert!((500..950).contains(&a));
    }
}

#[test]
fn fadeout_destroys_at_zero_opacity() {
    let mut faders = vec![
        FadingSprite { id: 1, opacity_milli: 30, decay_milli: 25, pos: v(1_000, 0) },
        FadingSprite { id: 2, opacity_milli: 20, decay_milli: 25, pos: v(2_000, 0) },
    ];
    let (destroys, visuals) = fadeout(&mut faders);
    assert_eq!(faders[0].opacity_milli, 5);
    assert_eq!(faders[1].opacity_milli, 0);
    assert_eq!(destroys, vec![2]);
    assert_eq!(visuals, vec![SpawnVisualEvent::Explosion(v(2_000, 0))]);
}

#[test]
fn control_strafe_fires_impulse_then_decays() {
    let mut state = ShipControl { thrust_milli: 0, strafe_milli: 0 };
    let press = ControlInput {
        stick: None,
        strafe_left: false,
        strafe_right: true,
        fire_a: false,
        fire_b: false,
    };
    let (thrusts, fires) = control_ship(&mut state, &vec![press], 9);
    assert_eq!(state.strafe_milli, 3_000);
    assert_eq!(thrusts.len(), 1);
    assert_eq!(thrusts[0].side, 1);
    assert_eq!(thrusts[0].thrust_milli, 1_000);
    assert!(fires.is_empty());

    // While strafing, triggers are ignored and the impulse decays by
    // 895/1000 per event, snapping to zero below 100.
    let idle = ControlInput {
        stick: None,
        strafe_left: false,
        strafe_right: true,
        fire_a: true,
        fire_b: false,
    };
    let (_, fires) = control_ship(&mut state, &vec![idle], 9);
    assert_eq!(state.strafe_milli, 2_685);
    assert!(fires.is_empty());
}

#[test]
fn control_throttle_ramps_and_decays() {
    let mut state = ShipControl { thrust_milli: 0, strafe_milli: 0 };
    let throttle = ControlInput {
        stick: Some(v(0, 1_000)),
        strafe_left: false,
        strafe_right: false,
        fire_a: false,
        fire_b: false,
    };
    let (thrusts, _) = control_ship(&mut state, &vec![throttle], 9);
    assert_eq!(state.thrust_milli, 100);
    assert_eq!(thrusts.len(), 1);
    assert_eq!(thrusts[0].side, 0);
    assert_eq!(thrusts[0].thrust_milli, 100);

    // No input at all: the throttle bleeds off.
    let (thrusts, _) = control_ship(&mut state, &Vec::new(), 9);
    assert!(thrusts.is_empty());
    assert_eq!(state.thrust_milli, 98);
}

#[test]
fn control_fire_triggers_queue_missile_events() {
    let mut state = ShipControl { thrust_milli: 0, strafe_milli: 0 };
    let press = ControlInput {
        stick: None,
        strafe_left: false,
        strafe_right: false,
        fire_a: true,
        fire_b: true,
    };
    let (_, fires) = control_ship(&mut state, &vec![press], 9);
    assert_eq!(fires.len(), 2);
    assert_eq!(fires[0].0, 9);
}

#[test]
fn camera_pans_outside_the_deadzone_until_throttle_drops() {
    let mut cam = CameraPan { panning: false, blend_milli: 0 };
    // Player inside the deadzone: still.
    camera_follow(&mut cam, v(0, 0), v(100_000, 0), 150_000, 1_000);
    assert!(!cam.panning);
    // Player escapes: panning engages with a fresh blend.
    camera_follow(&mut cam, v(0, 0), v(150_001, 0), 150_000, 1_000);
    assert!(cam.panning);
    assert_eq!(cam.blend_milli, 0);
    // Panning ramps the blend.
    camera_follow(&mut cam, v(0, 0), v(150_001, 0), 150_000, 1_000);
    assert!(cam.panning);
    assert_eq!(cam.blend_milli, 50);
    // Throttle drops below 0.7: panning lets go.
    camera_follow(&mut cam, v(0, 0), v(150_001, 0), 150_000, 600);
    assert!(!cam.panning);
}

#[test]
fn rumble_buckets_match_distance() {
    assert_eq!(shake_on_player_damage(0).0, RumbleClass::Max);
    assert_eq!(shake_on_player_damage(29_999).0, RumbleClass::Near);
    assert_eq!(shake_on_player_damage(30_000).0, RumbleClass::Mid);
    assert_eq!(shake_on_player_damage(199_999).0, RumbleClass::Far);
    assert_eq!(shake_on_player_damage(200_000).0, RumbleClass::Distant);
    // Trauma: (2000 - min(dist/100, 2000)) / 10.
    assert_eq!(shake_on_player_damage(0).1, 200);
    assert_eq!(shake_on_player_damage(100_000).1, 100);
    assert_eq!(shake_on_player_damage(500_000).1, 0);
    assert_eq!(distance_milli(v(0, 0), v(3_000, 4_000)), 5_000);
}

#[test]
fn thrust_smoke_has_exact_offsets() {
    // Strafe puff, facing up, full throttle, scale roll 1000.
    let s = strafe_smoke(v(0, 0), v(0, 1_000), 1, 1_000, 1_000);
    match s {
        SpawnVisualEvent::Smoke { origin, rotation_millideg, scale_milli } => {
            // Lateral: right=(1000,0) scaled by -50/1000 = (-50, 0);
            // forward: (0,1000) scaled by 20000/1000 = (0, 20000).
            assert_eq!(origin, v(-50, 20_000));
            assert_eq!(rotation_millideg, 45_000);
            assert_eq!(scale_milli, 1_250);
        },
        _ => panic!("expected smoke"),
    }
    let d = drive_smoke(v(0, 0), v(0, 1_000), 1_000, 500, -2_000, 800);
    match d {
        SpawnVisualEvent::Smoke { origin, rotation_millideg, scale_milli } => {
            // Jitter shrinks to zero at full throttle; ten units back.
            assert_eq!(origin, v(0, -12_000));
            assert_eq!(rotation_millideg, 0);
            assert_eq!(scale_milli, 800);
        },
        _ => panic!("expected smoke"),
    }
    // The stochastic pass only ever emits smoke.
    let puffs = vec![
        ThrustPuff { pos: v(0, 0), forward: v(0, 1_000), side: -1, thrust_milli: 900 },
        ThrustPuff { pos: v(0, 0), forward: v(0, 1_000), side: 0, thrust_milli: 900 },
    ];
    for _ in 0..20 {
        for e in thrust_emits_smoke(&puffs) {
            match e {
                SpawnVisualEvent::Smoke { scale_milli, .. } => {
                    assert!((500..1_563).contains(&scale_milli));
                },
                _ => panic!("expected smoke"),
            }
        }
    }
}

#[test]
fn level_partition_keeps_order() {
    let bp = |name: &str, player: bool| ShipBlueprint {
        name: name.to_string(),
        ship: Ship::SmallShip(0),
        health: 10,
        turn_speed: 2_000,
        move_speed: 3_000,
        player,
    };
    let level = LevelBlueprint {
        ships: vec![bp("a", false), bp("b", true), bp("c", false), bp("d", true)],
    };
    let (players, enemies) = spawn_level(&level);
    assert_eq!(players, vec![1, 3]);
    assert_eq!(enemies, vec![0, 2]);

    let enemy = spawn_ship(&level.ships[0], v(7_000, 8_000));
    assert_eq!(enemy.side, Side::Enemy);
    assert_eq!(enemy.health.current, 10);
    assert_eq!(enemy.pod.unwrap().heat, -10_000);
    assert_eq!(enemy.pod.unwrap().range, 250_000);
    let player = spawn_ship(&level.ships[1], v(0, 0));
    assert_eq!(player.side, Side::Player);
    assert!(player.pod.is_none());
    assert!(player.fire_target.is_none());
}

#[test]
fn reinforcements_arrive_every_ten_seconds() {
    let mut wait: i64 = 0;
    assert!(spawn_enemies(&mut wait, 9_999, 5).is_none());
    assert_eq!(wait, 9_999);
    let spawned = spawn_enemies(&mut wait, 16, 5).unwrap();
    assert_eq!(wait, 0);
    assert!(spawned.0 < 5);
    assert!((-400_000..400_000).contains(&spawned.1.x));
    assert!((-400_000..400_000).contains(&spawned.1.y));
    // An empty pool spawns nothing, and the timer keeps running.
    let mut idle: i64 = 20_000;
    assert!(spawn_enemies(&mut idle, 16, 0).is_none());
    assert_eq!(idle, 20_016);
}

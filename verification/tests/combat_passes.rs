//! Scenario tests of the targeting scanner, the collision passes and
//! damage resolution.

use combat_core::collisions::{
    missile_explode_against_ship, pdc_collisions, pdc_encounter, rail_collisions, MissileAt,
    RailAt, ShipRec, SlugAt,
};
use combat_core::components::Side;
use combat_core::damage::{
    apply_damage_events, destroy_when_health_reaches_zero, resolve_damage, DamageEvent, Health,
    HealthAt,
};
use combat_core::events::SpawnVisualEvent;
use combat_core::math::Vec2I;
use combat_core::scanner::{scan_surroundings, ShipContact};
use combat_core::spatial::{SpatialEntry, SpatialIndex};
use combat_core::components::PlayerSettings;
use combat_core::control::{gamepad_input, GamepadState};
use combat_core::events::ToggleUI;
use combat_core::ui::{
    debug_input, render_player_health_ui, show_ui_elements, show_ui_on_damage, DebugKeys,
};

fn v(x: i64, y: i64) -> Vec2I {
    Vec2I { x, y }
}

fn index_of(entries: Vec<SpatialEntry>) -> SpatialIndex {
    let mut index = SpatialIndex::new(5);
    index.rebuild(entries);
    index
}

#[test]
fn resolve_damage_saturates_at_zero() {
    assert_eq!(resolve_damage(10, 4), 6);
    assert_eq!(resolve_damage(4, 4), 0);
    assert_eq!(resolve_damage(3, 4), 0);
    assert_eq!(resolve_damage(0, 7), 0);
    assert_eq!(resolve_damage(u32::MAX, 1), u32::MAX - 1);
}

#[test]
fn three_hits_in_one_tick_all_land_before_the_sweep() {
    let mut healths = vec![(1u64, Health::new(10))];
    let events = vec![
        DamageEvent { target: 1, amount: 4 },
        DamageEvent { target: 1, amount: 4 },
        DamageEvent { target: 1, amount: 4 },
    ];
    apply_damage_events(&mut healths, &events);
    assert_eq!(healths[0].1.current, 0);

    let units = vec![HealthAt { id: 1, health: healths[0].1, pos: v(5_000, 6_000) }];
    let (destroys, visuals) = destroy_when_health_reaches_zero(&units);
    assert_eq!(destroys, vec![1]);
    assert_eq!(visuals.len(), 2);
    assert_eq!(
        visuals[0],
        SpawnVisualEvent::Smoke { origin: v(5_000, 6_000), rotation_millideg: 0, scale_milli: 1000 },
    );
    assert_eq!(visuals[1], SpawnVisualEvent::Debris(v(5_000, 6_000)));
}

#[test]
fn damage_to_unknown_entities_falls_through() {
    let mut healths = vec![(1u64, Health::new(5))];
    let events = vec![DamageEvent { target: 9, amount: 3 }];
    apply_damage_events(&mut healths, &events);
    assert_eq!(healths[0].1.current, 5);
}

#[test]
fn scanner_marks_the_cone_boundary_inclusively() {
    let mut ships = vec![
        // Exactly on the 45-degree edge, inside the radius: marked.
        ShipContact { id: 1, pos: v(100_000, 100_000), fire_target: false },
        // Straight ahead at one milli-unit short of the radius: marked.
        ShipContact { id: 2, pos: v(0, 299_999), fire_target: false },
        // Straight ahead exactly at the radius: the distance test is
        // exclusive, so unmarked.
        ShipContact { id: 3, pos: v(0, 300_000), fire_target: false },
        // Just past the 45-degree edge: unmarked.
        ShipContact { id: 4, pos: v(100_001, 100_000), fire_target: true },
        // Behind the player: unmarked.
        ShipContact { id: 5, pos: v(0, -50_000), fire_target: true },
    ];
    scan_surroundings(&mut ships, v(0, 0), v(0, 1_000), 300_000);
    assert!(ships[0].fire_target);
    assert!(ships[1].fire_target);
    assert!(!ships[2].fire_target);
    assert!(!ships[3].fire_target);
    assert!(!ships[4].fire_target);
}

#[test]
fn missiles_only_damage_the_opposite_side() {
    let ships = vec![
        ShipRec { id: 10, side: Side::Player },
        ShipRec { id: 11, side: Side::Enemy },
    ];
    let index = index_of(vec![
        SpatialEntry { pos: v(0, 0), entity: Some(10) },
        SpatialEntry { pos: v(200_000, 0), entity: Some(11) },
    ]);
    // A player missile sitting on the player ship: same side, no event.
    let friendly = vec![MissileAt { id: 70, pos: v(0, 0), side: Side::Player }];
    let (events, destroyed, visuals) = missile_explode_against_ship(&friendly, &ships, &index);
    assert!(events.is_empty());
    assert!(destroyed.is_empty());
    assert!(visuals.is_empty());

    // The same missile next to the enemy ship: one damage point, the
    // missile dies, one explosion at the missile's position.
    let hostile = vec![MissileAt { id: 70, pos: v(195_000, 0), side: Side::Player }];
    let (events, destroyed, visuals) = missile_explode_against_ship(&hostile, &ships, &index);
    assert_eq!(events.len(), 1);
    assert_eq!(events[0].target, 11);
    assert_eq!(events[0].amount, 1);
    assert_eq!(destroyed, vec![70]);
    assert_eq!(visuals, vec![SpawnVisualEvent::Explosion(v(195_000, 0))]);
}

#[test]
fn stale_spatial_references_are_no_ops() {
    // The index still lists an entity that is gone from the ship
    // table, and one registration with no entity at all.
    let ships = vec![ShipRec { id: 11, side: Side::Enemy }];
    let index = index_of(vec![
        SpatialEntry { pos: v(0, 0), entity: Some(99) },
        SpatialEntry { pos: v(1_000, 0), entity: None },
        SpatialEntry { pos: v(2_000, 0), entity: Some(11) },
    ]);
    let missiles = vec![MissileAt { id: 70, pos: v(0, 0), side: Side::Player }];
    let (events, destroyed, _) = missile_explode_against_ship(&missiles, &ships, &index);
    assert_eq!(events.len(), 1);
    assert_eq!(events[0].target, 11);
    assert_eq!(destroyed, vec![70]);
}

#[test]
fn one_missile_takes_at_most_one_hit_per_tick() {
    // Two enemy ships equally close: only one damage event, and the
    // missile is destroyed after the first qualifying hit.
    let ships = vec![
        ShipRec { id: 11, side: Side::Enemy },
        ShipRec { id: 12, side: Side::Enemy },
    ];
    let index = index_of(vec![
        SpatialEntry { pos: v(5_000, 0), entity: Some(11) },
        SpatialEntry { pos: v(-5_000, 0), entity: Some(12) },
    ]);
    let missiles = vec![MissileAt { id: 70, pos: v(0, 0), side: Side::Player }];
    let (events, destroyed, visuals) = missile_explode_against_ship(&missiles, &ships, &index);
    assert_eq!(events.len(), 1);
    assert_eq!(events[0].target, 11);
    assert_eq!(destroyed, vec![70]);
    assert_eq!(visuals.len(), 1);
}

#[test]
fn rail_destroys_first_slug_and_smokes_at_its_own_position() {
    let slugs = vec![42u64, 43u64];
    let index = index_of(vec![
        SpatialEntry { pos: v(5_000, 0), entity: Some(42) },
        SpatialEntry { pos: v(-5_000, 0), entity: Some(43) },
    ]);
    let rails = vec![RailAt { id: 7, pos: v(0, 0) }];
    let (destroyed, visuals) = rail_collisions(&rails, &slugs, &index, 10_000);
    // Only the first equally close slug goes; the scan halts there.
    assert_eq!(destroyed, vec![42]);
    assert_eq!(visuals.len(), 1);
    // The smoke sits at the rail's position, not the slug's.
    assert_eq!(
        visuals[0],
        SpawnVisualEvent::Smoke { origin: v(0, 0), rotation_millideg: 0, scale_milli: 1000 },
    );
}

#[test]
fn rail_out_of_range_leaves_slugs_alone() {
    let slugs = vec![42u64];
    let index = index_of(vec![SpatialEntry { pos: v(50_000, 0), entity: Some(42) }]);
    let rails = vec![RailAt { id: 7, pos: v(0, 0) }];
    let (destroyed, visuals) = rail_collisions(&rails, &slugs, &index, 10_000);
    assert!(destroyed.is_empty());
    assert!(visuals.is_empty());
}

#[test]
fn slug_kills_missile_deterministically() {
    let missiles = vec![5u64];
    let index = index_of(vec![SpatialEntry { pos: v(1_000, 0), entity: Some(5) }]);
    let slugs = vec![SlugAt { id: 30, pos: v(0, 0) }];
    let (events, dead_missiles, dead_slugs, visuals) =
        pdc_collisions(&slugs, &missiles, Some(1), &index);
    assert!(events.is_empty());
    assert_eq!(dead_missiles, vec![5]);
    assert_eq!(dead_slugs, vec![30]);
    assert_eq!(visuals.len(), 1);
}

#[test]
fn slug_without_player_emits_no_damage() {
    let index = index_of(vec![SpatialEntry { pos: v(1_000, 0), entity: Some(1) }]);
    let slugs = vec![SlugAt { id: 30, pos: v(0, 0) }];
    let (events, dead_missiles, _, _) = pdc_collisions(&slugs, &Vec::new(), None, &index);
    assert!(events.is_empty());
    assert!(dead_missiles.is_empty());
}

#[test]
fn slug_grazing_player_stays_within_its_contract() {
    // The outcome is stochastic; whatever the draws, every event must
    // target the player with amount one, and only listed slugs die.
    let index = index_of(vec![SpatialEntry { pos: v(1_000, 0), entity: Some(1) }]);
    let slugs = vec![SlugAt { id: 30, pos: v(0, 0) }];
    for _ in 0..50 {
        let (events, dead_missiles, dead_slugs, visuals) =
            pdc_collisions(&slugs, &Vec::new(), Some(1), &index);
        for ev in &events {
            assert_eq!(ev.target, 1);
            assert_eq!(ev.amount, 1);
        }
        assert!(events.len() <= 1);
        assert!(dead_missiles.is_empty());
        for s in &dead_slugs {
            assert_eq!(*s, 30);
        }
        assert_eq!(visuals.len(), 1);
    }
}

#[test]
fn pdc_encounter_boundaries_are_exact() {
    assert_eq!(pdc_encounter(29, 49), (true, true));
    assert_eq!(pdc_encounter(30, 50), (false, false));
    assert_eq!(pdc_encounter(0, 99), (true, false));
    assert_eq!(pdc_encounter(99, 0), (false, true));
}

#[test]
fn health_bar_lights_one_cell_per_hit_point() {
    let cells = render_player_health_ui(3, true, 5);
    assert_eq!(cells, vec![true, true, true, false, false]);
    let hidden = render_player_health_ui(3, false, 5);
    assert_eq!(hidden, vec![false, false, false, false, false]);
}

#[test]
fn ui_toggle_commands_set_or_flip() {
    assert!(show_ui_elements(false, ToggleUI::show()));
    assert!(!show_ui_elements(true, ToggleUI::conceal()));
    assert!(show_ui_elements(false, ToggleUI::default()));
    assert!(!show_ui_elements(true, ToggleUI::default()));
}

#[test]
fn gamepad_decode_invents_no_input() {
    let rest = GamepadState {
        left_stick: Some(v(0, 0)),
        right_stick: None,
        strafe_left: false,
        strafe_right: false,
        fire_a: false,
        fire_b: false,
    };
    let (event, dir) = gamepad_input(rest);
    assert!(event.is_none());
    assert!(dir.is_none());

    let active = GamepadState {
        left_stick: Some(v(0, 1_000)),
        right_stick: Some(v(1_000, 0)),
        strafe_left: true,
        strafe_right: false,
        fire_a: false,
        fire_b: true,
    };
    let (event, dir) = gamepad_input(active);
    let ev = event.unwrap();
    assert_eq!(ev.stick, Some(v(0, 1_000)));
    assert!(ev.strafe_left);
    assert!(!ev.strafe_right);
    assert!(!ev.fire_a);
    assert!(ev.fire_b);
    assert_eq!(dir, Some(v(1_000, 0)));
}

#[test]
fn debug_keys_flip_settings_and_hurt_on_request() {
    let mut settings = PlayerSettings::default();
    let keys = DebugKeys {
        toggle_debug: true,
        toggle_hp_bar: true,
        toggle_rumble: true,
        toggle_gizmos: false,
        reload_level: false,
        hurt_player: true,
    };
    let (toggle, reload, hurt) = debug_input(&mut settings, keys, Some(3));
    assert!(settings.show_debug);
    assert!(!settings.use_rumble);
    assert!(!settings.show_gizmos);
    assert_eq!(toggle.map(|t| t.0), Some(None));
    assert!(!reload);
    let ev = hurt.unwrap();
    assert_eq!(ev.target, 3);
    assert!((1..10).contains(&ev.amount));

    // No player on the board: the self-test hit is silently skipped.
    let (_, _, none) = debug_input(&mut settings, keys, None);
    assert!(none.is_none());
}

#[test]
fn damage_on_player_pops_the_health_bar() {
    let events = vec![DamageEvent { target: 3, amount: 1 }];
    assert_eq!(show_ui_on_damage(&events, 3).map(|t| t.0), Some(Some(true)));
    assert!(show_ui_on_damage(&events, 4).is_none());
    assert!(show_ui_on_damage(&Vec::new(), 3).is_none());
}

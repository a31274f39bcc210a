use rust_and_ruin::aiming::{turret_control_system, TurretRotation};
use rust_and_ruin::hierarchy::Hierarchy;
use rust_and_ruin::weapons::{create_cannon_weapon, weapon_control_system, ATTACK_RANGE};

fn bearing_of(x: f32, z: f32) -> i64 {
    (x.atan2(z).to_degrees() * 1000.0).round() as i64
}

/// Entities with ground positions (units) and world yaws (millidegrees), beside
/// the hierarchy that links them.
struct Scene {
    h: Hierarchy,
    pos: Vec<(f32, f32)>,
    yaw: Vec<i64>,
}

impl Scene {
    fn new() -> Scene {
        Scene { h: Hierarchy::new(), pos: Vec::new(), yaw: Vec::new() }
    }

    fn spawn(&mut self, parent: Option<usize>, x: f32, z: f32) -> usize {
        self.pos.push((x, z));
        self.yaw.push(0);
        self.h.spawn(parent)
    }

    /// One aiming pass for the turret `t`, the way the host runs it.
    fn aim(&self, t: usize, rotation: &mut TurretRotation, speed: u64, dt: u64) {
        let parent = self.h.nodes[t].parent.unwrap();
        let bearing = self.h.valid_parent_target(t).map(|e| {
            let (tx, tz) = self.pos[t];
            let (ex, ez) = self.pos[e];
            bearing_of(ex - tx, ez - tz)
        });
        turret_control_system(rotation, self.yaw[parent], bearing, speed, dt);
    }
}

#[test]
fn test_turret_control_with_nested_hierarchy() {
    let mut s = Scene::new();
    let hero = s.spawn(None, 0.0, 0.0);
    let tank_base = s.spawn(Some(hero), 0.0, 0.0);
    let turret = s.spawn(Some(tank_base), 0.0, 0.0);
    let enemy = s.spawn(None, 0.0, 10.0);
    s.h.set_attack_target(hero, Some(enemy));
    let mut rotation = TurretRotation { current_angle: 180_000, target_angle: 180_000 };
    s.aim(turret, &mut rotation, 360_000, 16);
    assert_eq!(rotation.current_angle, 180_000, "Turret current angle should not change in one frame");
    assert_ne!(rotation.target_angle, 0, "Turret should not target the enemy without AttackTarget propagation");
}

#[test]
fn test_turret_control_with_immediate_parent_attack_target() {
    let mut s = Scene::new();
    let hero = s.spawn(None, 0.0, 0.0);
    let tank_base = s.spawn(Some(hero), 0.0, 0.0);
    let turret = s.spawn(Some(tank_base), 0.0, 0.0);
    let enemy = s.spawn(None, 0.0, 10.0);
    s.h.set_attack_target(tank_base, Some(enemy));
    let mut rotation = TurretRotation { current_angle: 180_000, target_angle: 180_000 };
    s.aim(turret, &mut rotation, 360_000, 16);
    assert_eq!(rotation.target_angle, 0, "Turret should target forward (0 degrees) when enemy is in front");
}

#[test]
fn test_turret_control_with_attack_target_propagation() {
    let mut s = Scene::new();
    let hero = s.spawn(None, 0.0, 0.0);
    let tank_base = s.spawn(Some(hero), 0.0, 0.0);
    let turret = s.spawn(Some(tank_base), 0.0, 0.0);
    let enemy = s.spawn(None, 10.0, 0.0);
    s.h.set_attack_target(hero, Some(enemy));
    s.h.propagate_attack_target_system();
    assert_eq!(s.h.nodes[tank_base].attack_target, Some(enemy), "AttackTarget should be propagated to tank_base");
    let mut rotation = TurretRotation { current_angle: 180_000, target_angle: 180_000 };
    s.aim(turret, &mut rotation, 360_000, 16);
    assert_eq!(rotation.target_angle, 90_000, "Turret should target right (+X = 90 degrees) with AttackTarget propagation");
}

#[test]
fn test_turret_tracking_during_tank_rotation() {
    let mut s = Scene::new();
    let hero = s.spawn(None, 0.0, 0.0);
    let tank_base = s.spawn(Some(hero), 0.0, 0.0);
    let turret = s.spawn(Some(tank_base), 0.0, 0.0);
    let enemy = s.spawn(None, 10.0, 0.0);
    s.h.set_attack_target(hero, Some(enemy));
    s.h.propagate_attack_target_system();
    let mut rotation = TurretRotation { current_angle: 0, target_angle: 0 };
    s.aim(turret, &mut rotation, 360_000, 1_000);
    assert_eq!(rotation.target_angle, 90_000, "Turret should initially target right (90°)");

    s.yaw[hero] = 90_000;
    s.yaw[tank_base] = 90_000;
    s.aim(turret, &mut rotation, 360_000, 1_000);
    assert_eq!(rotation.current_angle, 0, "After tank rotates 90° CCW, turret should face forward (0°) in local space");

    s.yaw[hero] = 180_000;
    s.yaw[tank_base] = 180_000;
    s.aim(turret, &mut rotation, 360_000, 1_000);
    let actual = rotation.current_angle as f32 / 1000.0;
    assert!((actual - 270.0).abs() < 1.0, "After tank rotates 180°, turret should face left (270°) in local space, got {}", actual);
}

#[test]
fn test_turret_maintains_angle_when_target_removed() {
    let mut s = Scene::new();
    let mech = s.spawn(None, 0.0, 0.0);
    let turret = s.spawn(Some(mech), 0.0, 0.0);
    let enemy = s.spawn(None, 10.0, 0.0);
    s.h.set_attack_target(mech, Some(enemy));
    let mut rotation = TurretRotation { current_angle: 0, target_angle: 0 };
    s.aim(turret, &mut rotation, 360_000, 16);
    assert_eq!(rotation.target_angle, 90_000, "Turret should target enemy at 90 degrees");

    s.h.set_attack_target(mech, None);
    for _ in 0..10 {
        s.aim(turret, &mut rotation, 360_000, 16);
    }
    assert!(rotation.current_angle < 180_000, "Turret should not track mouse after AttackTarget is removed");
}

#[test]
fn test_turret_rotates_towards_target_when_facing_away() {
    let mut s = Scene::new();
    let mech = s.spawn(None, 0.0, 0.0);
    let turret = s.spawn(Some(mech), 0.0, 0.0);
    let enemy = s.spawn(None, 0.0, 10.0);
    s.h.set_attack_target(mech, Some(enemy));
    let mut rotation = TurretRotation { current_angle: 180_000, target_angle: 180_000 };
    s.aim(turret, &mut rotation, 90_000, 100);
    assert_eq!(rotation.target_angle, 0, "Turret should target forward (0 degrees)");
    assert_ne!(rotation.current_angle, 180_000, "Turret should have started rotating towards target");
    assert_ne!(rotation.current_angle, 0, "Turret should not have instantly snapped to target");
}

#[test]
fn deep_propagation_reaches_every_level_in_one_pass() {
    let mut h = Hierarchy::new();
    let root = h.spawn(None);
    let a = h.spawn(Some(root));
    let b = h.spawn(Some(a));
    let c = h.spawn(Some(b));
    let other = h.spawn(None);
    let enemy = h.spawn(None);
    let enemy2 = h.spawn(None);
    h.set_attack_target(root, Some(enemy));
    h.set_attack_target(b, Some(enemy2));
    h.propagate_attack_target_system();
    assert_eq!(h.nodes[a].attack_target, Some(enemy));
    assert_eq!(h.nodes[b].attack_target, Some(enemy2));
    assert_eq!(h.nodes[c].attack_target, Some(enemy2));
    assert_eq!(h.nodes[other].attack_target, None);
}

#[test]
fn cleanup_clears_subtree_of_untargeted_entity() {
    let mut h = Hierarchy::new();
    let root = h.spawn(None);
    let a = h.spawn(Some(root));
    let b = h.spawn(Some(a));
    let enemy = h.spawn(None);
    h.set_attack_target(root, Some(enemy));
    h.propagate_attack_target_system();
    h.set_attack_target(root, None);
    h.cleanup_attack_target_system();
    assert_eq!(h.nodes[a].attack_target, None);
    assert_eq!(h.nodes[b].attack_target, None);

    h.set_attack_target(root, Some(enemy));
    h.set_attack_target(b, Some(enemy));
    h.cleanup_attack_target_system();
    assert_eq!(h.nodes[b].attack_target, None);
    assert_eq!(h.nodes[root].attack_target, Some(enemy));
}

#[test]
fn stale_target_falls_back_to_holding_angle() {
    let mut s = Scene::new();
    let mech = s.spawn(None, 0.0, 0.0);
    let turret = s.spawn(Some(mech), 0.0, 0.0);
    let enemy = s.spawn(None, 10.0, 0.0);
    s.h.set_attack_target(mech, Some(enemy));
    assert_eq!(s.h.valid_parent_target(turret), Some(enemy));
    s.h.despawn(enemy);
    assert_eq!(s.h.valid_parent_target(turret), None);
    s.h.set_attack_target(mech, Some(99));
    assert_eq!(s.h.valid_parent_target(turret), None);
    let mut rotation = TurretRotation { current_angle: 30_000, target_angle: 0 };
    s.aim(turret, &mut rotation, 360_000, 16);
    assert_eq!(rotation, TurretRotation { current_angle: 30_000, target_angle: 30_000 });
}

#[test]
fn turret_on_turned_parent_locks_and_fires_at_cadence() {
    let mut s = Scene::new();
    let hero = s.spawn(None, 0.0, 0.0);
    let turret = s.spawn(Some(hero), 0.0, 0.0);
    let h = std::f32::consts::FRAC_1_SQRT_2 * 6.0;
    let enemy = s.spawn(None, h, -h);
    s.yaw[hero] = 45_000;
    s.h.set_attack_target(hero, Some(enemy));
    let mut rotation = TurretRotation { current_angle: 0, target_angle: 0 };
    for _ in 0..200 {
        s.aim(turret, &mut rotation, 120_000, 16);
    }
    assert_eq!(rotation.target_angle, 135_000);
    assert_eq!(rotation.current_angle, 90_000);

    let mut weapon = create_cannon_weapon("main".to_string());
    let aligned = TurretRotation { current_angle: 135_000, target_angle: 135_000 };
    let offset = Some((4_243, -4_243));
    let mut shots = Vec::new();
    for tick in 0..400u32 {
        if weapon_control_system(&mut weapon, &aligned, offset, ATTACK_RANGE, 16) {
            shots.push(tick);
        }
    }
    assert!(shots.len() >= 2);
    for pair in shots.windows(2) {
        assert!((pair[1] - pair[0]) * 16 >= 1_500);
    }

    let mut weapon = create_cannon_weapon("main".to_string());
    assert!(!weapon_control_system(&mut weapon, &rotation, offset, ATTACK_RANGE, 2_000));
    assert_eq!(weapon.last_fire_time, 2_000);
    assert!(!weapon_control_system(&mut weapon, &aligned, Some((8_000, 6_001)), ATTACK_RANGE, 16));
    assert!(!weapon_control_system(&mut weapon, &aligned, None, ATTACK_RANGE, 16));
    assert!(weapon_control_system(&mut weapon, &aligned, Some((8_000, 6_000)), ATTACK_RANGE, 16));
    assert_eq!(weapon.last_fire_time, 0);
}

#[test]
fn spawned_mech_is_a_valid_hierarchy() {
    let mut h = Hierarchy::new();
    let world = h.spawn(None);
    let (mech, parts) = h.spawn_mech(Some(world));
    assert!(mech.is_valid());
    assert!(parts.is_complete());
    assert_eq!(h.nodes[mech.root_entity].parent, Some(world));
    assert_eq!(h.nodes[mech.lower_entity].parent, Some(mech.root_entity));
    assert_eq!(h.nodes[mech.upper_entity].parent, Some(mech.root_entity));
    assert_eq!(h.nodes[mech.barrel_entity].parent, Some(mech.upper_entity));
    let enemy = h.spawn(None);
    h.set_attack_target(mech.root_entity, Some(enemy));
    h.propagate_attack_target_system();
    assert_eq!(h.nodes[mech.barrel_entity].attack_target, Some(enemy));
    assert_eq!(h.valid_parent_target(mech.upper_entity), Some(enemy));
}

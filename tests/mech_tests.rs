use rust_and_ruin::mech::{
    create_dual_turret_upper, create_tank_treads_lower, create_turret_upper, get_mech_part_offset, muzzle_offset, Hardpoint,
    Mech, MechAssemblyResult, MechHierarchy, MechLower, MechPartType, MechParts, MechSpawnParams, MechStats, MechUpper,
    Offset3, TankTreads, TankTreadsLower, Team, TurretCannon, TurretUpper,
};
use rust_and_ruin::weapons::{create_cannon_weapon, CannonWeapon, WeaponStats};

#[test]
fn test_mech_component_creation() {
    let mech = Mech::new("TestMech");
    assert_eq!(mech.name, "TestMech");
}

#[test]
fn test_mech_lower_component() {
    let lower = MechLower { turn_rate: 90_000, max_speed: 5_000 };
    assert_eq!(lower.turn_rate, 90_000);
    assert_eq!(lower.max_speed, 5_000);
}

#[test]
fn test_mech_upper_component() {
    let upper = MechUpper { rotation_speed: 180_000, weapon_mount_offset: Offset3 { x: 0, y: 100, z: 300 } };
    assert_eq!(upper.rotation_speed, 180_000);
    assert_eq!(upper.weapon_mount_offset, Offset3 { x: 0, y: 100, z: 300 });
}

#[test]
fn test_tank_treads_creation() {
    let treads = TankTreads::default();
    assert_eq!(treads.speed, 4_000);
    assert_eq!(treads.turn_rate, 60_000);
    assert_eq!(treads.acceleration, 2_000);
}

#[test]
fn test_mech_part_attachment() {
    let mech_parts = MechParts { lower: Some(1), upper: Some(2) };
    assert!(mech_parts.has_lower());
    assert!(mech_parts.has_upper());
    assert!(mech_parts.is_complete());
}

#[test]
fn test_incomplete_mech_parts() {
    let mech_parts = MechParts { lower: Some(1), upper: None };
    assert!(mech_parts.has_lower());
    assert!(!mech_parts.has_upper());
    assert!(!mech_parts.is_complete());
}

#[test]
fn test_mech_assembly_result() {
    let assembly_result = MechAssemblyResult { root_entity: 1, lower_entity: 2, upper_entity: 3, barrel_entity: 4 };
    assert!(assembly_result.is_valid());
    assert_ne!(assembly_result.root_entity, assembly_result.lower_entity);
    assert_ne!(assembly_result.upper_entity, assembly_result.barrel_entity);
}

#[test]
fn test_mech_spawn_parameters() {
    let params = MechSpawnParams {
        name: "TestMech".to_string(),
        position: Offset3 { x: 10_000, y: 0, z: 10_000 },
        rotation: 45_000,
        team: Team::Player,
    };
    assert_eq!(params.name, "TestMech");
    assert_eq!(params.position.x, 10_000);
    assert_eq!(params.position.z, 10_000);
    assert_eq!(params.rotation, 45_000);
}

#[test]
fn test_mech_visual_offsets() {
    assert_eq!(get_mech_part_offset(MechPartType::TankTreads), Offset3 { x: 0, y: 0, z: 0 });
    assert_eq!(get_mech_part_offset(MechPartType::TurretBase), Offset3 { x: 0, y: 100, z: 0 });
    assert_eq!(get_mech_part_offset(MechPartType::CannonBarrel), Offset3 { x: 0, y: 0, z: 300 });
}

#[test]
fn mech_hierarchy_completeness() {
    let mut h = MechHierarchy::new();
    assert!(!h.has_lower() && !h.has_upper() && !h.is_complete());
    h.lower = Some(3);
    assert!(h.has_lower() && !h.is_complete());
    h.upper = Some(4);
    assert!(h.is_complete());
    assert!(h.weapons.is_empty());
}

#[test]
fn mech_stats_combine_parts() {
    let stats = MechStats::from_parts(&TankTreads::default(), &TurretCannon::default());
    assert_eq!(stats, MechStats { max_speed: 4_000, turn_rate: 60_000, fire_rate: 1_500, damage: 25_000 });
}

#[test]
fn assembly_with_shared_entity_is_invalid() {
    let r = MechAssemblyResult { root_entity: 1, lower_entity: 2, upper_entity: 2, barrel_entity: 4 };
    assert!(!r.is_valid());
}

#[test]
fn turret_uppers_have_expected_mounts() {
    let single = TurretUpper::default();
    assert_eq!(single.rotation_capability.rotation_speed, 120_000);
    assert_eq!(single.hardpoints.len(), 1);
    assert_eq!(single.hardpoints[0].id, "main");
    assert_eq!(single.hardpoints[0].offset, Offset3 { x: 0, y: 0, z: 500 });

    let dual = TurretUpper::with_dual_mount(90_000);
    assert_eq!(dual.rotation_capability.rotation_speed, 90_000);
    assert_eq!(dual.hardpoints[0].id, "left");
    assert_eq!(dual.hardpoints[1].id, "right");
    assert_eq!(dual.hardpoints[1].offset, Offset3 { x: 300, y: 0, z: 500 });

    assert_eq!(TurretUpper::new(10).hardpoints[0].id, "main");
    assert_eq!(create_turret_upper().hardpoints.len(), 1);
    assert_eq!(create_dual_turret_upper().hardpoints.len(), 2);
    assert!(create_dual_turret_upper().hardpoints.iter().all(|h| h.occupied_by.is_none()));
}

#[test]
fn tread_lowers_carry_stats() {
    assert_eq!(create_tank_treads_lower().movement_stats.turn_rate, 90_000);
    assert_eq!(TankTreadsLower::default().movement_stats.max_speed, 5_000);
    assert_eq!(TankTreadsLower::new(1, 2, 3).movement_stats.acceleration, 3);
}

#[test]
fn muzzle_offsets_follow_hardpoint() {
    assert_eq!(muzzle_offset(&"left".to_string(), 500), Offset3 { x: -300, y: 0, z: 500 });
    assert_eq!(muzzle_offset(&"right".to_string(), 700), Offset3 { x: 300, y: 0, z: 700 });
    assert_eq!(muzzle_offset(&"main".to_string(), 400), Offset3 { x: 0, y: 0, z: 400 });
    let h = Hardpoint::new("left".to_string(), Offset3 { x: -300, y: 0, z: 500 });
    assert_eq!(muzzle_offset(&h.id, 500).x, -300);
}

#[test]
fn cannon_presets() {
    assert_eq!(CannonWeapon::default().weapon_stats.fire_rate, 1_500);
    assert_eq!(CannonWeapon::heavy().weapon_stats, WeaponStats { fire_rate: 2_000, damage: 40_000, range: 20_000, projectile_speed: 12_000 });
    assert_eq!(CannonWeapon::light().barrel_length, 400);
    assert_eq!(CannonWeapon::new(1, 2, 3, 4, 5).weapon_stats.projectile_speed, 4);
    let w = create_cannon_weapon("main".to_string());
    assert_eq!(w.hardpoint_id, "main");
    assert_eq!(w.last_fire_time, 0);
    assert_eq!(w.weapon_stats.damage, 25_000);
}

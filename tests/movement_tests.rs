use rust_and_ruin::movement::{
    mech_movement_system, tank_movement_adapter_system, tank_movement_system, MechMovement, MechMovementState,
    MovementCommand, MovementStats, TankMovement, TankRotationState, TargetFix,
};
use rust_and_ruin::selection::{attack_move_system, movement_system, AttackMove};

fn bearing_of(x: f32, z: f32) -> i64 {
    (x.atan2(z).to_degrees() * 1000.0).round() as i64
}

fn yaw_degrees(yaw: i64) -> f32 {
    let d = yaw as f32 / 1000.0;
    if d > 180.0 {
        d - 360.0
    } else {
        d
    }
}

/// A chassis on the ground plane, driven tick by tick the way a host would:
/// the bearing and offset to the move target go in, the command comes out and is
/// applied to the pose.
struct Rig {
    x: f32,
    z: f32,
    yaw: i64,
    target: Option<(f32, f32)>,
}

impl Rig {
    fn new(target: Option<(f32, f32)>) -> Rig {
        Rig { x: 0.0, z: 0.0, yaw: 0, target }
    }

    fn fix(&self) -> Option<TargetFix> {
        self.target.map(|(tx, tz)| {
            let dx = tx - self.x;
            let dz = tz - self.z;
            TargetFix {
                dx: (dx * 1000.0).round() as i64,
                dz: (dz * 1000.0).round() as i64,
                bearing: bearing_of(dx, dz),
            }
        })
    }

    fn apply(&mut self, cmd: MovementCommand) {
        let heading = (self.yaw as f32 / 1000.0).to_radians();
        let step = cmd.advance as f32 / 1000.0;
        self.x += heading.sin() * step;
        self.z += heading.cos() * step;
        self.yaw = cmd.yaw;
        if cmd.clear_target {
            self.target = None;
        }
    }

    fn tank_tick(&mut self, tank: &mut TankMovement, dt: u32) {
        let cmd = tank_movement_system(tank, self.yaw, self.fix(), dt);
        self.apply(cmd);
    }

    fn mech_tick(&mut self, m: &mut MechMovement, stats: &MovementStats, dt: u32) {
        let cmd = mech_movement_system(m, stats, self.yaw, self.fix(), dt);
        self.apply(cmd);
    }
}

#[test]
fn test_acceleration_to_max_speed() {
    let mut tank = TankMovement::default();
    let delta_ms = 100;
    assert_eq!(tank.current_speed, 0);
    for _ in 0..20 {
        tank.current_speed = (tank.current_speed + tank.acceleration * delta_ms / 1000).min(tank.max_speed);
    }
    assert_eq!(tank.current_speed, tank.max_speed);
    tank.current_speed = (tank.current_speed + tank.acceleration * delta_ms / 1000).min(tank.max_speed);
    assert_eq!(tank.current_speed, tank.max_speed);
}

#[test]
fn test_deceleration_to_stop() {
    let mut tank = TankMovement::default();
    tank.current_speed = tank.max_speed;
    let delta_ms = 100;
    let deceleration_rate = tank.acceleration * 2;
    while tank.current_speed > 0 {
        tank.current_speed = tank.current_speed.saturating_sub(deceleration_rate * delta_ms / 1000);
    }
    assert_eq!(tank.current_speed, 0);
}

#[test]
fn test_state_transitions() {
    let mut tank = TankMovement::default();
    assert_eq!(tank.rotation_state, TankRotationState::Idle);
    tank.target_rotation = 90_000;
    tank.rotation_state = TankRotationState::Rotating;
    assert_eq!(tank.rotation_state, TankRotationState::Rotating);
    tank.rotation_state = TankRotationState::Moving;
    assert_eq!(tank.rotation_state, TankRotationState::Moving);
    tank.rotation_state = TankRotationState::Idle;
    tank.current_speed = 0;
    assert_eq!(tank.rotation_state, TankRotationState::Idle);
}

#[test]
fn test_rotation_speed_timing() {
    let tank = TankMovement::default();
    let angle_to_rotate = 180_000.0;
    let time_needed = angle_to_rotate / tank.rotation_speed as f32;
    assert!((time_needed - 2.0).abs() < 0.01);
    let small_angle = 45_000.0;
    let time_needed = small_angle / tank.rotation_speed as f32;
    assert!((time_needed - 0.5).abs() < 0.01);
}

#[test]
fn test_tank_acceleration_and_deceleration() {
    let mut tank = TankMovement {
        rotation_state: TankRotationState::Moving,
        target_rotation: 0,
        current_speed: 0,
        acceleration: 3_000,
        max_speed: 5_000,
        rotation_speed: 90_000,
    };
    let mut rig = Rig::new(Some((0.0, 10.0)));
    let mut dt = 0;
    let mut speeds = Vec::new();
    for _ in 0..30 {
        rig.tank_tick(&mut tank, dt);
        speeds.push(tank.current_speed);
        dt = 16;
    }
    assert!(speeds[0] < speeds[10]);
    assert!(speeds[20] <= 5_000);

    rig.target = None;
    let mut decel_speeds = Vec::new();
    for _ in 0..30 {
        rig.tank_tick(&mut tank, dt);
        decel_speeds.push(tank.current_speed);
    }
    assert!(decel_speeds[0] > decel_speeds[10]);
    assert_eq!(decel_speeds[29], 0);
    assert_eq!(tank.rotation_state, TankRotationState::Idle);
}

#[test]
fn test_tank_handles_close_targets() {
    let mut tank = TankMovement::default();
    let mut rig = Rig::new(Some((0.1, 0.0)));
    rig.tank_tick(&mut tank, 0);
    assert!(rig.target.is_none());
    assert_eq!(tank.rotation_state, TankRotationState::Idle);
}

#[test]
fn test_tank_handles_target_change_during_rotation() {
    let mut tank = TankMovement::default();
    let mut rig = Rig::new(Some((5.0, 0.0)));
    rig.tank_tick(&mut tank, 0);
    rig.tank_tick(&mut tank, 500);
    rig.target = Some((-5.0, 0.0));
    rig.tank_tick(&mut tank, 500);
    assert_eq!(tank.rotation_state, TankRotationState::Rotating);
    assert!((tank.target_rotation - 270_000).abs() < 1_000 || (tank.target_rotation + 90_000).abs() < 1_000);
}

#[test]
fn tank_turns_before_driving_and_arrives() {
    let mut tank = TankMovement::default();
    let mut rig = Rig::new(Some((10.0, 0.0)));
    rig.tank_tick(&mut tank, 0);
    assert_eq!(tank.rotation_state, TankRotationState::Rotating);
    assert_eq!(tank.target_rotation, 90_000);
    assert_eq!(tank.current_speed, 0);
    for _ in 0..11 {
        rig.tank_tick(&mut tank, 100);
    }
    assert_eq!(tank.rotation_state, TankRotationState::Moving);
    assert!((yaw_degrees(rig.yaw) - 90.0).abs() < 1.0);
    assert!(rig.x.abs() < 0.01);
    let mut ticks = 0;
    while rig.target.is_some() && ticks < 2_000 {
        rig.tank_tick(&mut tank, 16);
        assert!(tank.current_speed <= tank.max_speed);
        ticks += 1;
    }
    assert!(rig.target.is_none());
    assert_eq!(tank.rotation_state, TankRotationState::Idle);
    assert_eq!(tank.current_speed, 0);
    assert!(((rig.x - 10.0).powi(2) + rig.z.powi(2)).sqrt() < 1.0);
}

#[test]
fn hero_scenario_turns_then_drives_to_target() {
    let stats = MovementStats { max_speed: 5_000, turn_rate: 90_000, acceleration: 3_000 };
    let mut m = MechMovement::default();
    let mut rig = Rig::new(Some((10.0, 0.0)));
    let mut reached_heading = false;
    let mut ticks = 0;
    while rig.target.is_some() && ticks < 3_000 {
        rig.mech_tick(&mut m, &stats, 16);
        if !reached_heading && m.movement_state == MechMovementState::Moving {
            reached_heading = true;
            assert!((yaw_degrees(rig.yaw) - 90.0).abs() < 1.0);
            assert!((rig.x.powi(2) + rig.z.powi(2)).sqrt() < 0.1);
        }
        assert!(m.current_speed <= stats.max_speed);
        ticks += 1;
    }
    assert!(reached_heading);
    assert!(rig.target.is_none());
    assert_eq!(m.movement_state, MechMovementState::Idle);
    assert!(((rig.x - 10.0).powi(2) + rig.z.powi(2)).sqrt() < 1.0);
}

#[test]
fn idle_without_target_stays_idle() {
    let stats = MovementStats { max_speed: 5_000, turn_rate: 90_000, acceleration: 3_000 };
    let mut m = MechMovement::default();
    let mut rig = Rig::new(None);
    for _ in 0..100 {
        rig.mech_tick(&mut m, &stats, 16);
        assert_eq!(m.movement_state, MechMovementState::Idle);
    }
    assert_eq!((rig.x, rig.z, rig.yaw), (0.0, 0.0, 0));
}

#[test]
fn driving_far_off_course_halves_speed_and_turns_again() {
    let stats = MovementStats { max_speed: 5_000, turn_rate: 90_000, acceleration: 3_000 };
    let mut m = MechMovement { movement_state: MechMovementState::Moving, target_rotation: 0, current_speed: 4_000 };
    let fix = TargetFix { dx: 10_000, dz: 0, bearing: 90_000 };
    let cmd = mech_movement_system(&mut m, &stats, 0, Some(fix), 100);
    assert_eq!(m.movement_state, MechMovementState::Rotating);
    assert_eq!(m.current_speed, 2_150);
    assert_eq!(m.target_rotation, 90_000);
    assert_eq!(cmd.advance, 430);
}

#[test]
fn mech_creeps_while_turning() {
    let stats = MovementStats { max_speed: 5_000, turn_rate: 90_000, acceleration: 3_000 };
    let mut m = MechMovement { movement_state: MechMovementState::Rotating, target_rotation: 90_000, current_speed: 1_000 };
    let fix = TargetFix { dx: 10_000, dz: 0, bearing: 92_000 };
    let cmd = mech_movement_system(&mut m, &stats, 0, Some(fix), 100);
    assert_eq!(m.current_speed, 700);
    assert_eq!(m.target_rotation, 90_000);
    assert_eq!(cmd.advance, 70);
    assert_eq!(cmd.yaw, 9_000);

    let (mut tm, _) = tank_movement_adapter_system(&TankMovement {
        rotation_state: TankRotationState::Rotating,
        target_rotation: 90_000,
        current_speed: 1_000,
        acceleration: 3_000,
        max_speed: 5_000,
        rotation_speed: 90_000,
    });
    assert_eq!(tm.movement_state, MechMovementState::Rotating);
    tm.current_speed = 0;
    assert_eq!(tm.current_speed, 0);
}

#[test]
fn direct_mover_and_attack_move() {
    let step = movement_system(TargetFix { dx: 3_000, dz: 4_000, bearing: 36_870 }, 4_000, 100);
    assert_eq!(step.advance, 400);
    assert_eq!(step.face, Some(36_870));
    assert!(!step.arrived);
    let step = movement_system(TargetFix { dx: 30, dz: 40, bearing: 36_870 }, 4_000, 100);
    assert!(step.arrived);
    let step = movement_system(TargetFix { dx: 6, dz: 8, bearing: -36_870 }, 4_000, 100);
    assert!(step.arrived);
    let step = movement_system(TargetFix { dx: 40, dz: 40, bearing: -45_000 }, 4_000, 100);
    assert!(!step.arrived);
    assert_eq!(step.face, Some(315_000));

    assert_eq!(attack_move_system(None), AttackMove::DropTarget);
    assert_eq!(attack_move_system(Some((6_000, 8_000))), AttackMove::Hold);
    assert_eq!(attack_move_system(Some((6_000, 8_001))), AttackMove::Approach);
}

#[test]
fn losing_the_target_while_turning_brakes_to_idle() {
    let stats = MovementStats { max_speed: 5_000, turn_rate: 90_000, acceleration: 3_000 };
    let mut m = MechMovement { movement_state: MechMovementState::Rotating, target_rotation: 90_000, current_speed: 1_000 };
    let cmd = mech_movement_system(&mut m, &stats, 10_000, None, 100);
    assert_eq!(m.current_speed, 400);
    assert_eq!(m.movement_state, MechMovementState::Rotating);
    assert_eq!((cmd.yaw, cmd.advance, cmd.clear_target), (10_000, 0, false));
    mech_movement_system(&mut m, &stats, 10_000, None, 100);
    assert_eq!(m.current_speed, 0);
    assert_eq!(m.movement_state, MechMovementState::Idle);
}

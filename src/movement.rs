use vstd::prelude::*;
use crate::plane::magnitude;
use crate::angle::{
    abs, norm, shortest, rotate_towards, step_of, normalize_angle, shortest_angle_difference, rotate_towards_angle,
    law_rotate_never_overshoots, lemma_shortest_norm_from,
};

verus! {

/// Below this angle (millidegrees) a turning chassis counts as facing its target.
pub const ROTATION_TOLERANCE: i64 = 1_000;

/// Within this distance (thousandths of a unit) a move target counts as reached.
pub const ARRIVAL_THRESHOLD: i64 = 500;

/// While turning, a move target whose bearing moved by more than this is re-aimed.
pub const REAIM_THRESHOLD: i64 = 5_000;

/// While driving, a bearing error above this sends the chassis back to turning.
pub const OFF_COURSE_THRESHOLD: i64 = 30_000;

/// The phase of a mech's drive.
#[derive(Clone, Copy, Debug, PartialEq, Eq, Structural)]
pub enum MechMovementState {
    Idle,
    Rotating,
    Moving,
}

/// The phase of a tank's drive.
#[derive(Clone, Copy, Debug, PartialEq, Eq, Structural)]
pub enum TankRotationState {
    Idle,
    Rotating,
    Moving,
}

/// How a chassis drives: top speed and acceleration in thousandths of a unit per
/// second (per second), turn rate in millidegrees per second.
#[derive(Clone, Copy, Debug, PartialEq, Eq, Structural)]
pub struct MovementStats {
    pub max_speed: u32,
    pub turn_rate: u32,
    pub acceleration: u32,
}

/// The drive state of a mech.
#[derive(Clone, Copy, Debug, PartialEq, Eq, Structural)]
pub struct MechMovement {
    pub movement_state: MechMovementState,
    pub target_rotation: i64,
    pub current_speed: u32,
}

/// The drive state of a tank, with its own stats.
#[derive(Clone, Copy, Debug, PartialEq, Eq, Structural)]
pub struct TankMovement {
    pub rotation_state: TankRotationState,
    pub target_rotation: i64,
    pub current_speed: u32,
    pub acceleration: u32,
    pub max_speed: u32,
    pub rotation_speed: u32,
}

/// Where the move target lies this tick, seen from the chassis: its offset on
/// the ground plane and its bearing.
#[derive(Clone, Copy, Debug, PartialEq, Eq, Structural)]
pub struct TargetFix {
    pub dx: i64,
    pub dz: i64,
    pub bearing: i64,
}

/// What the chassis does this tick: the yaw to take, how far to drive along the
/// heading it had at the start of the tick, and whether to drop the move target.
#[derive(Clone, Copy, Debug, PartialEq, Eq, Structural)]
pub struct MovementCommand {
    pub yaw: i64,
    pub advance: u64,
    pub clear_target: bool,
}

/// The outcome of one tick of the drive.
pub struct DriveStep {
    pub state: MechMovementState,
    pub target_rotation: int,
    pub speed: int,
    pub yaw: int,
    pub advance: int,
    pub clear_target: bool,
}

pub open spec fn min(a: int, b: int) -> int {
    if a < b {
        a
    } else {
        b
    }
}

pub open spec fn max(a: int, b: int) -> int {
    if a > b {
        a
    } else {
        b
    }
}

/// A rate per second applied over `dt` milliseconds.
pub open spec fn per_tick(rate: int, dt: int) -> int {
    (rate * dt) / 1000
}

/// The target lies farther than the arrival threshold.
pub open spec fn beyond_arrival(f: TargetFix) -> bool {
    f.dx * f.dx + f.dz * f.dz > ARRIVAL_THRESHOLD * ARRIVAL_THRESHOLD
}

/// One tick of the drive. `creep` says whether the chassis keeps rolling on its
/// residual (decelerating) speed while it turns.
pub open spec fn drive_next(
    m: MechMovement,
    stats: MovementStats,
    creep: bool,
    yaw: int,
    fix: Option<TargetFix>,
    dt: int,
) -> DriveStep {
    let speed = m.current_speed as int;
    let accel = per_tick(stats.acceleration as int, dt);
    let brake = per_tick(2 * stats.acceleration, dt);
    let hold = |state: MechMovementState, target_rotation: int, speed: int, clear: bool|
        DriveStep { state, target_rotation, speed, yaw: norm(yaw), advance: 0, clear_target: clear };
    match m.movement_state {
        MechMovementState::Idle => match fix {
            Some(f) => if beyond_arrival(f) {
                hold(MechMovementState::Rotating, norm(f.bearing as int), speed, false)
            } else {
                hold(MechMovementState::Idle, m.target_rotation as int, speed, true)
            },
            None => hold(MechMovementState::Idle, m.target_rotation as int, speed, false),
        },
        MechMovementState::Rotating => match fix {
            Some(f) => {
                let tr = if abs(shortest(m.target_rotation as int, f.bearing as int)) > REAIM_THRESHOLD {
                    norm(f.bearing as int)
                } else {
                    m.target_rotation as int
                };
                if abs(shortest(yaw, tr)) < ROTATION_TOLERANCE {
                    hold(MechMovementState::Moving, tr, speed, false)
                } else {
                    let rolling = creep && speed > 0;
                    let sp = if rolling {
                        max(0, speed - accel)
                    } else {
                        speed
                    };
                    DriveStep {
                        state: MechMovementState::Rotating,
                        target_rotation: tr,
                        speed: sp,
                        yaw: norm(rotate_towards(yaw, tr, stats.turn_rate as int, dt)),
                        advance: if rolling {
                            per_tick(sp, dt)
                        } else {
                            0
                        },
                        clear_target: false,
                    }
                }
            },
            None => {
                let sp = max(0, speed - brake);
                if sp == 0 {
                    hold(MechMovementState::Idle, m.target_rotation as int, 0, false)
                } else {
                    hold(MechMovementState::Rotating, m.target_rotation as int, sp, false)
                }
            },
        },
        MechMovementState::Moving => match fix {
            Some(f) => if beyond_arrival(f) {
                let sp = min(stats.max_speed as int, speed + accel);
                if abs(shortest(yaw, f.bearing as int)) > OFF_COURSE_THRESHOLD {
                    DriveStep {
                        state: MechMovementState::Rotating,
                        target_rotation: norm(f.bearing as int),
                        speed: sp / 2,
                        yaw: norm(yaw),
                        advance: per_tick(sp, dt),
                        clear_target: false,
                    }
                } else {
                    DriveStep {
                        state: MechMovementState::Moving,
                        target_rotation: m.target_rotation as int,
                        speed: sp,
                        yaw: norm(yaw),
                        advance: per_tick(sp, dt),
                        clear_target: false,
                    }
                }
            } else {
                let sp = max(0, speed - brake);
                if sp == 0 {
                    hold(MechMovementState::Idle, m.target_rotation as int, 0, true)
                } else {
                    hold(MechMovementState::Moving, m.target_rotation as int, sp, false)
                }
            },
            None => {
                let sp = max(0, speed - brake);
                if sp == 0 {
                    hold(MechMovementState::Idle, m.target_rotation as int, 0, false)
                } else {
                    hold(MechMovementState::Moving, m.target_rotation as int, sp, false)
                }
            },
        },
    }
}

fn far_from(f: &TargetFix) -> (r: bool)
    ensures
        r == beyond_arrival(*f),
{
    let ax = magnitude(f.dx);
    let az = magnitude(f.dz);
    assert(ax * ax <= 0x4000_0000_0000_0000_0000_0000_0000_0000) by (nonlinear_arith)
        requires
            ax <= 0x8000_0000_0000_0000,
    ;
    assert(az * az <= 0x4000_0000_0000_0000_0000_0000_0000_0000) by (nonlinear_arith)
        requires
            az <= 0x8000_0000_0000_0000,
    ;
    assert(ax * ax == f.dx * f.dx) by (nonlinear_arith)
        requires
            ax == abs(f.dx as int),
    ;
    assert(az * az == f.dz * f.dz) by (nonlinear_arith)
        requires
            az == abs(f.dz as int),
    ;
    ax * ax + az * az > 250_000
}

fn per_tick_of(rate: u64, delta_ms: u32) -> (r: u64)
    requires
        rate <= 0x1_ffff_fffe,
    ensures
        r == per_tick(rate as int, delta_ms as int),
        r < 0x100_0000_0000_0000,
{
    let a = rate as u128;
    let b = delta_ms as u128;
    assert(a * b <= 0x1_ffff_fffe * 0xffff_ffff) by (nonlinear_arith)
        requires
            a <= 0x1_ffff_fffe,
            b <= 0xffff_ffff,
    ;
    (a * b / 1000) as u64
}

fn abs_of(x: i64) -> (r: i64)
    requires
        x > i64::MIN,
    ensures
        r == abs(x as int),
{
    if x < 0 {
        -x
    } else {
        x
    }
}

/// The drive rule shared by mechs and tanks; see `drive_next`.
fn drive(
    m: &mut MechMovement,
    stats: &MovementStats,
    creep: bool,
    yaw: i64,
    fix: Option<TargetFix>,
    delta_ms: u32,
) -> (cmd: MovementCommand)
    ensures
        ({
            let s = drive_next(*old(m), *stats, creep, yaw as int, fix, delta_ms as int);
            &&& final(m).movement_state == s.state
            &&& final(m).target_rotation == s.target_rotation
            &&& final(m).current_speed == s.speed
            &&& cmd.yaw == s.yaw
            &&& cmd.advance == s.advance
            &&& cmd.clear_target == s.clear_target
        }),
{
    let speed = m.current_speed as u64;
    let accel = per_tick_of(stats.acceleration as u64, delta_ms);
    let brake = per_tick_of(2 * (stats.acceleration as u64), delta_ms);
    let here = normalize_angle(yaw);
    let mut cmd = MovementCommand { yaw: here, advance: 0, clear_target: false };
    match m.movement_state {
        MechMovementState::Idle => {
            if let Some(f) = fix {
                if far_from(&f) {
                    m.target_rotation = normalize_angle(f.bearing);
                    m.movement_state = MechMovementState::Rotating;
                } else {
                    cmd.clear_target = true;
                }
            }
        },
        MechMovementState::Rotating => {
            match fix {
                Some(f) => {
                    let moved = shortest_angle_difference(m.target_rotation, f.bearing);
                    if abs_of(moved) > REAIM_THRESHOLD {
                        m.target_rotation = normalize_angle(f.bearing);
                    }
                    let diff = shortest_angle_difference(yaw, m.target_rotation);
                    if abs_of(diff) < ROTATION_TOLERANCE {
                        m.movement_state = MechMovementState::Moving;
                    } else {
                        if creep && speed > 0 {
                            let sp = if accel >= speed {
                                0
                            } else {
                                speed - accel
                            };
                            m.current_speed = sp as u32;
                            cmd.advance = per_tick_of(sp, delta_ms);
                        }
                        let turned = rotate_towards_angle(
                            yaw,
                            m.target_rotation,
                            stats.turn_rate as u64,
                            delta_ms as u64,
                        );
                        cmd.yaw = normalize_angle(turned);
                    }
                },
                None => {
                    let sp = if brake >= speed {
                        0
                    } else {
                        speed - brake
                    };
                    m.current_speed = sp as u32;
                    if sp == 0 {
                        m.movement_state = MechMovementState::Idle;
                    }
                },
            }
        },
        MechMovementState::Moving => {
            let far = match fix {
                Some(f) => far_from(&f),
                None => false,
            };
            if far {
                let f = fix.unwrap();
                let raised = speed + accel;
                let sp = if raised < stats.max_speed as u64 {
                    raised
                } else {
                    stats.max_speed as u64
                };
                cmd.advance = per_tick_of(sp, delta_ms);
                let off = shortest_angle_difference(yaw, f.bearing);
                if abs_of(off) > OFF_COURSE_THRESHOLD {
                    m.target_rotation = normalize_angle(f.bearing);
                    m.movement_state = MechMovementState::Rotating;
                    m.current_speed = (sp / 2) as u32;
                } else {
                    m.current_speed = sp as u32;
                }
            } else {
                let sp = if brake >= speed {
                    0
                } else {
                    speed - brake
                };
                m.current_speed = sp as u32;
                if sp == 0 {
                    m.movement_state = MechMovementState::Idle;
                    cmd.clear_target = fix.is_some();
                }
            }
        },
    }
    cmd
}

/// The stats a tank drives with.
pub open spec fn tank_stats(t: TankMovement) -> MovementStats {
    MovementStats { max_speed: t.max_speed, turn_rate: t.rotation_speed, acceleration: t.acceleration }
}

pub open spec fn mech_state_of(s: TankRotationState) -> MechMovementState {
    match s {
        TankRotationState::Idle => MechMovementState::Idle,
        TankRotationState::Rotating => MechMovementState::Rotating,
        TankRotationState::Moving => MechMovementState::Moving,
    }
}

/// The drive state of a tank, in the mech's form.
pub open spec fn tank_as_mech(t: TankMovement) -> MechMovement {
    MechMovement {
        movement_state: mech_state_of(t.rotation_state),
        target_rotation: t.target_rotation,
        current_speed: t.current_speed,
    }
}

/// One tick of a mech's drive, which keeps rolling on residual speed while it
/// turns. The caller turns the chassis to `cmd.yaw`, drives it `cmd.advance`
/// along the heading it had before, and drops the move target when told to.
pub fn mech_movement_system(
    movement: &mut MechMovement,
    stats: &MovementStats,
    yaw: i64,
    fix: Option<TargetFix>,
    delta_ms: u32,
) -> (cmd: MovementCommand)
    requires
        old(movement).current_speed <= stats.max_speed,
    ensures
        ({
            let s = drive_next(*old(movement), *stats, true, yaw as int, fix, delta_ms as int);
            &&& final(movement).movement_state == s.state
            &&& final(movement).target_rotation == s.target_rotation
            &&& final(movement).current_speed == s.speed
            &&& cmd.yaw == s.yaw
            &&& cmd.advance == s.advance
            &&& cmd.clear_target == s.clear_target
        }),
        final(movement).current_speed <= stats.max_speed,
{
    proof {
        law_speed_stays_bounded(*movement, *stats, true, yaw as int, fix, delta_ms as int);
    }
    drive(movement, stats, true, yaw, fix, delta_ms)
}

/// One tick of a tank's drive, which turns in place without rolling.
pub fn tank_movement_system(tank: &mut TankMovement, yaw: i64, fix: Option<TargetFix>, delta_ms: u32) -> (cmd:
    MovementCommand)
    requires
        old(tank).current_speed <= old(tank).max_speed,
    ensures
        ({
            let s = drive_next(tank_as_mech(*old(tank)), tank_stats(*old(tank)), false, yaw as int, fix, delta_ms as int);
            &&& mech_state_of(final(tank).rotation_state) == s.state
            &&& final(tank).target_rotation == s.target_rotation
            &&& final(tank).current_speed == s.speed
            &&& cmd.yaw == s.yaw
            &&& cmd.advance == s.advance
            &&& cmd.clear_target == s.clear_target
        }),
        tank_stats(*final(tank)) == tank_stats(*old(tank)),
        final(tank).current_speed <= final(tank).max_speed,
{
    let (mut m, stats) = tank_movement_adapter_system(tank);
    proof {
        law_speed_stays_bounded(m, stats, false, yaw as int, fix, delta_ms as int);
    }
    let cmd = drive(&mut m, &stats, false, yaw, fix, delta_ms);
    tank.rotation_state = match m.movement_state {
        MechMovementState::Idle => TankRotationState::Idle,
        MechMovementState::Rotating => TankRotationState::Rotating,
        MechMovementState::Moving => TankRotationState::Moving,
    };
    tank.target_rotation = m.target_rotation;
    tank.current_speed = m.current_speed;
    cmd
}

/// A tank's drive state and stats in the mech's form.
pub fn tank_movement_adapter_system(tank: &TankMovement) -> (r: (MechMovement, MovementStats))
    ensures
        r.0 == tank_as_mech(*tank),
        r.1 == tank_stats(*tank),
{
    let state = match tank.rotation_state {
        TankRotationState::Idle => MechMovementState::Idle,
        TankRotationState::Rotating => MechMovementState::Rotating,
        TankRotationState::Moving => MechMovementState::Moving,
    };
    (
        MechMovement { movement_state: state, target_rotation: tank.target_rotation, current_speed: tank.current_speed },
        MovementStats { max_speed: tank.max_speed, turn_rate: tank.rotation_speed, acceleration: tank.acceleration },
    )
}

impl TankMovement {
    /// An idle tank: acceleration 3, top speed 5 units per second, turning 90
    /// degrees per second.
    pub fn default() -> (r: TankMovement)
        ensures
            r.rotation_state == TankRotationState::Idle,
            r.target_rotation == 0,
            r.current_speed == 0,
            r.acceleration == 3_000,
            r.max_speed == 5_000,
            r.rotation_speed == 90_000,
    {
        TankMovement {
            rotation_state: TankRotationState::Idle,
            target_rotation: 0,
            current_speed: 0,
            acceleration: 3_000,
            max_speed: 5_000,
            rotation_speed: 90_000,
        }
    }
}

impl MechMovement {
    /// An idle mech at rest.
    pub fn default() -> (r: MechMovement)
        ensures
            r.movement_state == MechMovementState::Idle,
            r.target_rotation == 0,
            r.current_speed == 0,
    {
        MechMovement { movement_state: MechMovementState::Idle, target_rotation: 0, current_speed: 0 }
    }
}

/// Speed never becomes negative and never exceeds the top speed.
pub proof fn law_speed_stays_bounded(
    m: MechMovement,
    stats: MovementStats,
    creep: bool,
    yaw: int,
    fix: Option<TargetFix>,
    dt: int,
)
    requires
        m.current_speed <= stats.max_speed,
        dt >= 0,
    ensures
        0 <= drive_next(m, stats, creep, yaw, fix, dt).speed <= stats.max_speed,
{
    vstd::arithmetic::mul::lemma_mul_nonnegative(stats.acceleration as int, dt);
    vstd::arithmetic::div_mod::lemma_div_pos_is_pos(stats.acceleration * dt, 1000);
}

/// An idle chassis with no move target stays idle, at the same speed and in
/// place.
pub proof fn law_idle_without_target_stays_idle(m: MechMovement, stats: MovementStats, creep: bool, yaw: int, dt: int)
    requires
        m.movement_state == MechMovementState::Idle,
    ensures
        drive_next(m, stats, creep, yaw, None, dt).state == MechMovementState::Idle,
        drive_next(m, stats, creep, yaw, None, dt).speed == m.current_speed,
        drive_next(m, stats, creep, yaw, None, dt).advance == 0,
        drive_next(m, stats, creep, yaw, None, dt).yaw == norm(yaw),
        !drive_next(m, stats, creep, yaw, None, dt).clear_target,
{
}

/// An idle chassis given a move target beyond the arrival threshold starts
/// turning toward its bearing; one given a target within the threshold drops it
/// at once and never turns.
pub proof fn law_idle_reacts_to_target(
    m: MechMovement,
    stats: MovementStats,
    creep: bool,
    yaw: int,
    f: TargetFix,
    dt: int,
)
    requires
        m.movement_state == MechMovementState::Idle,
    ensures
        beyond_arrival(f) ==> drive_next(m, stats, creep, yaw, Some(f), dt).state == MechMovementState::Rotating
            && drive_next(m, stats, creep, yaw, Some(f), dt).target_rotation == norm(f.bearing as int),
        !beyond_arrival(f) ==> drive_next(m, stats, creep, yaw, Some(f), dt).state == MechMovementState::Idle
            && drive_next(m, stats, creep, yaw, Some(f), dt).clear_target,
{
}

/// While turning toward an unchanged target rotation, each tick either finds
/// the chassis within tolerance and starts driving, or turns it closer by the
/// full turning step, landing exactly on the target rotation once it is within
/// one step.
pub proof fn law_turning_converges(
    m: MechMovement,
    stats: MovementStats,
    creep: bool,
    yaw: int,
    fix: Option<TargetFix>,
    dt: int,
)
    requires
        m.movement_state == MechMovementState::Rotating,
        dt >= 0,
        fix.is_some(),
        fix.unwrap().bearing == m.target_rotation,
    ensures
        ({
            let s = drive_next(m, stats, creep, yaw, fix, dt);
            let before = abs(shortest(yaw, m.target_rotation as int));
            let after = abs(shortest(s.yaw, m.target_rotation as int));
            &&& s.target_rotation == m.target_rotation
            &&& before < ROTATION_TOLERANCE ==> s.state == MechMovementState::Moving
            &&& before >= ROTATION_TOLERANCE ==> s.state == MechMovementState::Rotating
            &&& before >= ROTATION_TOLERANCE && before <= step_of(stats.turn_rate as int, dt) ==> after == 0
            &&& before >= ROTATION_TOLERANCE && before > step_of(stats.turn_rate as int, dt) ==> after == before
                - step_of(stats.turn_rate as int, dt)
        }),
{
    let tr = m.target_rotation as int;
    match fix {
        Some(f) => {
            crate::angle::lemma_shortest_unique(tr, tr, 0, 0);
        },
        None => {},
    }
    let r = rotate_towards(yaw, tr, stats.turn_rate as int, dt);
    law_rotate_never_overshoots(yaw, tr, stats.turn_rate as int, dt);
    lemma_shortest_norm_from(r, tr);
}

/// Once a driving chassis has arrived, or a driving or turning one has lost
/// its target, it brakes at twice its acceleration without moving on; when it
/// comes to rest it turns idle, dropping the target if it had one.
pub proof fn law_arrival_brakes_to_idle(
    m: MechMovement,
    stats: MovementStats,
    creep: bool,
    yaw: int,
    fix: Option<TargetFix>,
    dt: int,
)
    requires
        braking(m, fix),
    ensures
        ({
            let s = drive_next(m, stats, creep, yaw, fix, dt);
            let braked = max(0, m.current_speed - per_tick(2 * stats.acceleration, dt));
            &&& s.speed == braked
            &&& s.advance == 0
            &&& braked == 0 ==> s.state == MechMovementState::Idle && s.clear_target == fix.is_some()
            &&& braked > 0 ==> s.state == m.movement_state && !s.clear_target
        }),
{
}

/// The chassis brakes this tick: it drives and has arrived or lost its
/// target, or it turns and has lost its target.
pub open spec fn braking(m: MechMovement, fix: Option<TargetFix>) -> bool {
    match m.movement_state {
        MechMovementState::Moving => match fix {
            Some(f) => !beyond_arrival(f),
            None => true,
        },
        MechMovementState::Rotating => fix.is_none(),
        MechMovementState::Idle => false,
    }
}

/// The drive state after a step.
pub open spec fn state_after(s: DriveStep) -> MechMovement {
    MechMovement {
        movement_state: s.state,
        target_rotation: s.target_rotation as i64,
        current_speed: s.speed as u32,
    }
}

/// The drive state and yaw after `k` ticks that all see the same move target
/// fix (as they do while the chassis stays in place).
pub open spec fn drive_run(
    m: MechMovement,
    stats: MovementStats,
    creep: bool,
    yaw: int,
    fix: Option<TargetFix>,
    dt: int,
    k: nat,
) -> (MechMovement, int)
    decreases k,
{
    if k == 0 {
        (m, yaw)
    } else {
        let s = drive_next(m, stats, creep, yaw, fix, dt);
        drive_run(state_after(s), stats, creep, s.yaw, fix, dt, (k - 1) as nat)
    }
}

/// There is a move target, and its bearing is close enough to the target
/// rotation that turning does not re-aim.
pub open spec fn keeps_aim(m: MechMovement, fix: Option<TargetFix>) -> bool {
    match fix {
        Some(f) => abs(shortest(m.target_rotation as int, f.bearing as int)) <= REAIM_THRESHOLD,
        None => false,
    }
}

/// A turning chassis whose target stays put, and that turns by a positive step
/// each tick, comes to face it and starts driving after finitely many ticks.
pub proof fn law_turning_reaches_moving(
    m: MechMovement,
    stats: MovementStats,
    creep: bool,
    yaw: int,
    fix: Option<TargetFix>,
    dt: int,
)
    requires
        m.movement_state == MechMovementState::Rotating,
        keeps_aim(m, fix),
        step_of(stats.turn_rate as int, dt) > 0,
        dt >= 0,
        m.current_speed <= stats.max_speed,
    ensures
        exists|k: nat| (#[trigger] drive_run(m, stats, creep, yaw, fix, dt, k)).0.movement_state
            == MechMovementState::Moving,
    decreases abs(shortest(yaw, m.target_rotation as int)),
{
    let s = drive_next(m, stats, creep, yaw, fix, dt);
    let tr = m.target_rotation as int;
    let before = abs(shortest(yaw, tr));
    law_speed_stays_bounded(m, stats, creep, yaw, fix, dt);
    assert(s.target_rotation == tr);
    if before < ROTATION_TOLERANCE {
        assert(drive_run(state_after(s), stats, creep, s.yaw, fix, dt, 0).0.movement_state == MechMovementState::Moving);
        assert(drive_run(m, stats, creep, yaw, fix, dt, 1) == drive_run(state_after(s), stats, creep, s.yaw, fix, dt, 0));
    } else {
        let r = rotate_towards(yaw, tr, stats.turn_rate as int, dt);
        law_rotate_never_overshoots(yaw, tr, stats.turn_rate as int, dt);
        lemma_shortest_norm_from(r, tr);
        let m2 = state_after(s);
        assert(m2.target_rotation == m.target_rotation);
        assert(abs(shortest(s.yaw, tr)) < before);
        law_turning_reaches_moving(m2, stats, creep, s.yaw, fix, dt);
        let k2 = choose|k: nat| (#[trigger] drive_run(m2, stats, creep, s.yaw, fix, dt, k)).0.movement_state
            == MechMovementState::Moving;
        assert(drive_run(m, stats, creep, yaw, fix, dt, k2 + 1) == drive_run(m2, stats, creep, s.yaw, fix, dt, k2));
    }
}

/// After `k > 0` ticks the chassis is idle and at rest, and the last of those
/// ticks dropped the move target exactly when there was one.
pub open spec fn rests_after(
    m: MechMovement,
    stats: MovementStats,
    creep: bool,
    yaw: int,
    fix: Option<TargetFix>,
    dt: int,
    k: nat,
) -> bool {
    let end = drive_run(m, stats, creep, yaw, fix, dt, k);
    let last = drive_run(m, stats, creep, yaw, fix, dt, (k - 1) as nat);
    &&& k > 0
    &&& end.0.movement_state == MechMovementState::Idle
    &&& end.0.current_speed == 0
    &&& drive_next(last.0, stats, creep, last.1, fix, dt).clear_target == fix.is_some()
}

/// A chassis that brakes (see `braking`) by a positive amount each tick comes
/// to rest and turns idle after finitely many ticks, dropping the target if it
/// had one.
pub proof fn law_braking_reaches_idle(
    m: MechMovement,
    stats: MovementStats,
    creep: bool,
    yaw: int,
    fix: Option<TargetFix>,
    dt: int,
)
    requires
        braking(m, fix),
        per_tick(2 * stats.acceleration, dt) > 0,
    ensures
        exists|k: nat| #[trigger] rests_after(m, stats, creep, yaw, fix, dt, k),
    decreases m.current_speed,
{
    let s = drive_next(m, stats, creep, yaw, fix, dt);
    let m2 = state_after(s);
    law_arrival_brakes_to_idle(m, stats, creep, yaw, fix, dt);
    lemma_run_shift(m, stats, creep, yaw, fix, dt, 0);
    if s.speed == 0 {
        assert(rests_after(m, stats, creep, yaw, fix, dt, 1));
    } else {
        assert(braking(m2, fix));
        law_braking_reaches_idle(m2, stats, creep, s.yaw, fix, dt);
        let k2 = choose|k: nat| #[trigger] rests_after(m2, stats, creep, s.yaw, fix, dt, k);
        lemma_run_shift(m, stats, creep, yaw, fix, dt, k2);
        lemma_run_shift(m, stats, creep, yaw, fix, dt, (k2 - 1) as nat);
        assert(rests_after(m, stats, creep, yaw, fix, dt, k2 + 1));
    }
}

/// Running `k + 1` ticks is one tick followed by `k` more.
proof fn lemma_run_shift(
    m: MechMovement,
    stats: MovementStats,
    creep: bool,
    yaw: int,
    fix: Option<TargetFix>,
    dt: int,
    k: nat,
)
    ensures
        drive_run(m, stats, creep, yaw, fix, dt, k + 1) == drive_run(
            state_after(drive_next(m, stats, creep, yaw, fix, dt)),
            stats,
            creep,
            drive_next(m, stats, creep, yaw, fix, dt).yaw,
            fix,
            dt,
            k,
        ),
{
}

} // verus!

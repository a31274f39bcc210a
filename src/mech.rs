use vstd::prelude::*;
use crate::movement::MovementStats;

verus! {

/// A point or offset in thousandths of a unit.
#[derive(Clone, Copy, Debug, PartialEq, Eq, Structural)]
pub struct Offset3 {
    pub x: i64,
    pub y: i64,
    pub z: i64,
}

/// Whether and how fast (millidegrees per second) an upper body turns.
#[derive(Clone, Copy, Debug, PartialEq, Eq, Structural)]
pub struct RotationCapability {
    pub can_rotate: bool,
    pub rotation_speed: u32,
}

/// A named mount point on an upper body, and the entity mounted on it.
#[derive(Debug)]
pub struct Hardpoint {
    pub id: String,
    pub offset: Offset3,
    pub occupied_by: Option<usize>,
}

impl Hardpoint {
    /// A free hardpoint.
    pub fn new(id: String, offset: Offset3) -> (r: Hardpoint)
        ensures
            r.id@ == id@,
            r.offset == offset,
            r.occupied_by.is_none(),
    {
        Hardpoint { id, offset, occupied_by: None }
    }
}

/// The drive of a mech's lower body.
#[derive(Clone, Copy, Debug, PartialEq, Eq, Structural)]
pub struct MechLowerBody {
    pub movement_stats: MovementStats,
}

/// A mech's upper body: how it turns and where weapons mount.
#[derive(Debug)]
pub struct MechUpperBody {
    pub rotation_capability: RotationCapability,
    pub hardpoints: Vec<Hardpoint>,
}

/// Tank treads as a lower body.
#[derive(Clone, Copy, Debug, PartialEq, Eq, Structural)]
pub struct TankTreadsLower {
    pub movement_stats: MovementStats,
}

impl TankTreadsLower {
    /// Treads with top speed 5, turning 90 degrees per second, acceleration 3.
    pub fn default() -> (r: TankTreadsLower)
        ensures
            r.movement_stats == (MovementStats { max_speed: 5_000, turn_rate: 90_000, acceleration: 3_000 }),
    {
        TankTreadsLower { movement_stats: MovementStats { max_speed: 5_000, turn_rate: 90_000, acceleration: 3_000 } }
    }

    pub fn new(max_speed: u32, turn_rate: u32, acceleration: u32) -> (r: TankTreadsLower)
        ensures
            r.movement_stats == (MovementStats { max_speed, turn_rate, acceleration }),
    {
        TankTreadsLower { movement_stats: MovementStats { max_speed, turn_rate, acceleration } }
    }
}

/// The lower body of standard tank treads.
pub fn create_tank_treads_lower() -> (r: MechLowerBody)
    ensures
        r.movement_stats == (MovementStats { max_speed: 5_000, turn_rate: 90_000, acceleration: 3_000 }),
{
    let treads = TankTreadsLower::default();
    MechLowerBody { movement_stats: treads.movement_stats }
}

/// A turret as an upper body.
#[derive(Debug)]
pub struct TurretUpper {
    pub rotation_capability: RotationCapability,
    pub hardpoints: Vec<Hardpoint>,
}

/// One hardpoint named `main`, half a unit ahead.
pub open spec fn single_mount(h: Seq<Hardpoint>) -> bool {
    &&& h.len() == 1
    &&& h[0].id@ == "main"@
    &&& h[0].offset == (Offset3 { x: 0, y: 0, z: 500 })
    &&& h[0].occupied_by.is_none()
}

/// Hardpoints `left` and `right`, 0.3 to either side and half a unit ahead.
pub open spec fn dual_mount(h: Seq<Hardpoint>) -> bool {
    &&& h.len() == 2
    &&& h[0].id@ == "left"@
    &&& h[0].offset == (Offset3 { x: -300i64, y: 0, z: 500 })
    &&& h[0].occupied_by.is_none()
    &&& h[1].id@ == "right"@
    &&& h[1].offset == (Offset3 { x: 300, y: 0, z: 500 })
    &&& h[1].occupied_by.is_none()
}

fn main_mount() -> (r: Vec<Hardpoint>)
    ensures
        single_mount(r@),
{
    let mut v: Vec<Hardpoint> = Vec::new();
    v.push(Hardpoint::new("main".to_owned(), Offset3 { x: 0, y: 0, z: 500 }));
    v
}

fn twin_mount() -> (r: Vec<Hardpoint>)
    ensures
        dual_mount(r@),
{
    let mut v: Vec<Hardpoint> = Vec::new();
    v.push(Hardpoint::new("left".to_owned(), Offset3 { x: -300, y: 0, z: 500 }));
    v.push(Hardpoint::new("right".to_owned(), Offset3 { x: 300, y: 0, z: 500 }));
    v
}

impl TurretUpper {
    /// A single-mount turret turning 120 degrees per second.
    pub fn default() -> (r: TurretUpper)
        ensures
            r.rotation_capability == (RotationCapability { can_rotate: true, rotation_speed: 120_000 }),
            single_mount(r.hardpoints@),
    {
        TurretUpper {
            rotation_capability: RotationCapability { can_rotate: true, rotation_speed: 120_000 },
            hardpoints: main_mount(),
        }
    }

    /// A single-mount turret with the given turn rate.
    pub fn new(rotation_speed: u32) -> (r: TurretUpper)
        ensures
            r.rotation_capability == (RotationCapability { can_rotate: true, rotation_speed }),
            single_mount(r.hardpoints@),
    {
        TurretUpper { rotation_capability: RotationCapability { can_rotate: true, rotation_speed }, hardpoints: main_mount() }
    }

    /// A turret with left and right mounts and the given turn rate.
    pub fn with_dual_mount(rotation_speed: u32) -> (r: TurretUpper)
        ensures
            r.rotation_capability == (RotationCapability { can_rotate: true, rotation_speed }),
            dual_mount(r.hardpoints@),
    {
        TurretUpper { rotation_capability: RotationCapability { can_rotate: true, rotation_speed }, hardpoints: twin_mount() }
    }
}

/// The upper body of a standard single-mount turret.
pub fn create_turret_upper() -> (r: MechUpperBody)
    ensures
        r.rotation_capability == (RotationCapability { can_rotate: true, rotation_speed: 120_000 }),
        single_mount(r.hardpoints@),
{
    let turret = TurretUpper::default();
    MechUpperBody { rotation_capability: turret.rotation_capability, hardpoints: turret.hardpoints }
}

/// The upper body of a dual-mount turret turning 120 degrees per second.
pub fn create_dual_turret_upper() -> (r: MechUpperBody)
    ensures
        r.rotation_capability == (RotationCapability { can_rotate: true, rotation_speed: 120_000 }),
        dual_mount(r.hardpoints@),
{
    let turret = TurretUpper::with_dual_mount(120_000);
    MechUpperBody { rotation_capability: turret.rotation_capability, hardpoints: turret.hardpoints }
}

/// Where a weapon's muzzle sits relative to its upper body: the barrel length
/// ahead, shifted 0.3 to the side for the `left` and `right` hardpoints.
pub open spec fn muzzle_offset_of(hardpoint_id: Seq<char>, barrel_length: int) -> Offset3 {
    let x = if hardpoint_id == "left"@ {
        -300i64
    } else if hardpoint_id == "right"@ {
        300i64
    } else {
        0i64
    };
    Offset3 { x, y: 0, z: barrel_length as i64 }
}

/// The muzzle offset of a weapon on the named hardpoint.
pub fn muzzle_offset(hardpoint_id: &String, barrel_length: u32) -> (r: Offset3)
    ensures
        r == muzzle_offset_of(hardpoint_id@, barrel_length as int),
{
    let left = "left".to_owned();
    let right = "right".to_owned();
    let x: i64 = if *hardpoint_id == left {
        -300
    } else if *hardpoint_id == right {
        300
    } else {
        0
    };
    Offset3 { x, y: 0, z: barrel_length as i64 }
}

/// A named mech.
#[derive(Debug)]
pub struct Mech {
    pub name: String,
}

impl Mech {
    pub fn new(name: &str) -> (r: Mech)
        ensures
            r.name@ == name@,
    {
        Mech { name: name.to_owned() }
    }
}

/// A lower part's turn rate and top speed.
#[derive(Clone, Copy, Debug, PartialEq, Eq, Structural)]
pub struct MechLower {
    pub turn_rate: u32,
    pub max_speed: u32,
}

/// An upper part's turn rate and where weapons mount on it.
#[derive(Clone, Copy, Debug, PartialEq, Eq, Structural)]
pub struct MechUpper {
    pub rotation_speed: u32,
    pub weapon_mount_offset: Offset3,
}

/// Tank treads as a mech part.
#[derive(Clone, Copy, Debug, PartialEq, Eq, Structural)]
pub struct TankTreads {
    pub speed: u32,
    pub turn_rate: u32,
    pub acceleration: u32,
}

impl TankTreads {
    /// Treads at speed 4, turning 60 degrees per second, acceleration 2.
    pub fn default() -> (r: TankTreads)
        ensures
            r == (TankTreads { speed: 4_000, turn_rate: 60_000, acceleration: 2_000 }),
    {
        TankTreads { speed: 4_000, turn_rate: 60_000, acceleration: 2_000 }
    }
}

/// A turret cannon as a mech part.
#[derive(Clone, Copy, Debug, PartialEq, Eq, Structural)]
pub struct TurretCannon {
    pub fire_rate: u32,
    pub projectile_damage: u32,
    pub rotation_speed: u32,
    pub barrel_length: u32,
}

impl TurretCannon {
    /// A shot every 1.5 s for 25 damage, turning 120 degrees per second, with a
    /// barrel half a unit long.
    pub fn default() -> (r: TurretCannon)
        ensures
            r == (TurretCannon { fire_rate: 1_500, projectile_damage: 25_000, rotation_speed: 120_000, barrel_length: 500 }),
    {
        TurretCannon { fire_rate: 1_500, projectile_damage: 25_000, rotation_speed: 120_000, barrel_length: 500 }
    }
}

/// The parts a mech is assembled from.
#[derive(Clone, Copy, Debug, PartialEq, Eq, Structural)]
pub struct MechParts {
    pub lower: Option<usize>,
    pub upper: Option<usize>,
}

impl MechParts {
    pub fn new() -> (r: MechParts)
        ensures
            r.lower.is_none(),
            r.upper.is_none(),
    {
        MechParts { lower: None, upper: None }
    }

    pub fn has_lower(&self) -> (r: bool)
        ensures
            r == self.lower.is_some(),
    {
        self.lower.is_some()
    }

    pub fn has_upper(&self) -> (r: bool)
        ensures
            r == self.upper.is_some(),
    {
        self.upper.is_some()
    }

    /// Both a lower and an upper part are present.
    pub fn is_complete(&self) -> (r: bool)
        ensures
            r == (self.lower.is_some() && self.upper.is_some()),
    {
        self.has_lower() && self.has_upper()
    }
}

/// The entities a mech is made of.
#[derive(Debug)]
pub struct MechHierarchy {
    pub lower: Option<usize>,
    pub upper: Option<usize>,
    pub weapons: Vec<usize>,
}

impl MechHierarchy {
    pub fn new() -> (r: MechHierarchy)
        ensures
            r.lower.is_none(),
            r.upper.is_none(),
            r.weapons@.len() == 0,
    {
        MechHierarchy { lower: None, upper: None, weapons: Vec::new() }
    }

    pub fn has_lower(&self) -> (r: bool)
        ensures
            r == self.lower.is_some(),
    {
        self.lower.is_some()
    }

    pub fn has_upper(&self) -> (r: bool)
        ensures
            r == self.upper.is_some(),
    {
        self.upper.is_some()
    }

    /// Both a lower and an upper body are present.
    pub fn is_complete(&self) -> (r: bool)
        ensures
            r == (self.lower.is_some() && self.upper.is_some()),
    {
        self.has_lower() && self.has_upper()
    }
}

/// The combined stats of a mech built from treads and a cannon.
#[derive(Clone, Copy, Debug, PartialEq, Eq, Structural)]
pub struct MechStats {
    pub max_speed: u32,
    pub turn_rate: u32,
    pub fire_rate: u32,
    pub damage: u32,
}

impl MechStats {
    pub fn from_parts(lower: &TankTreads, upper: &TurretCannon) -> (r: MechStats)
        ensures
            r == (MechStats {
                max_speed: lower.speed,
                turn_rate: lower.turn_rate,
                fire_rate: upper.fire_rate,
                damage: upper.projectile_damage,
            }),
    {
        MechStats {
            max_speed: lower.speed,
            turn_rate: lower.turn_rate,
            fire_rate: upper.fire_rate,
            damage: upper.projectile_damage,
        }
    }
}

/// The entities of an assembled mech.
#[derive(Clone, Copy, Debug, PartialEq, Eq, Structural)]
pub struct MechAssemblyResult {
    pub root_entity: usize,
    pub lower_entity: usize,
    pub upper_entity: usize,
    pub barrel_entity: usize,
}

impl MechAssemblyResult {
    /// The four entities are pairwise distinct.
    pub fn is_valid(&self) -> (r: bool)
        ensures
            r == (self.root_entity != self.lower_entity && self.root_entity != self.upper_entity
                && self.root_entity != self.barrel_entity && self.lower_entity != self.upper_entity
                && self.lower_entity != self.barrel_entity && self.upper_entity != self.barrel_entity),
    {
        self.root_entity != self.lower_entity && self.root_entity != self.upper_entity && self.root_entity
            != self.barrel_entity && self.lower_entity != self.upper_entity && self.lower_entity != self.barrel_entity
            && self.upper_entity != self.barrel_entity
    }
}

/// The visible parts of a mech.
#[derive(Clone, Copy, Debug, PartialEq, Eq, Structural)]
pub enum MechPartType {
    TankTreads,
    TurretBase,
    CannonBarrel,
}

/// Where each visible part sits relative to its parent.
pub fn get_mech_part_offset(part_type: MechPartType) -> (r: Offset3)
    ensures
        r == match part_type {
            MechPartType::TankTreads => Offset3 { x: 0, y: 0, z: 0 },
            MechPartType::TurretBase => Offset3 { x: 0, y: 100, z: 0 },
            MechPartType::CannonBarrel => Offset3 { x: 0, y: 0, z: 300 },
        },
{
    match part_type {
        MechPartType::TankTreads => Offset3 { x: 0, y: 0, z: 0 },
        MechPartType::TurretBase => Offset3 { x: 0, y: 100, z: 0 },
        MechPartType::CannonBarrel => Offset3 { x: 0, y: 0, z: 300 },
    }
}

/// The side a mech fights on.
#[derive(Clone, Copy, Debug, PartialEq, Eq, Structural)]
pub enum Team {
    Player,
    Enemy,
}

/// What a mech is spawned with: its name, position, yaw in millidegrees and
/// side.
#[derive(Debug)]
pub struct MechSpawnParams {
    pub name: String,
    pub position: Offset3,
    pub rotation: i64,
    pub team: Team,
}

} // verus!

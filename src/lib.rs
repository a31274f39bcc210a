//! Turret aiming, attack-target propagation, movement and projectile rules of a
//! small tank combat simulation, in fixed-point integer units.
//!
//! Angles are in millidegrees, lengths in thousandths of a world unit, times in
//! milliseconds. Bearings follow the `atan2(dx, dz)` convention: 0 is +Z, 90 degrees
//! is +X.
pub mod angle;
pub mod plane;
pub mod hierarchy;
pub mod aiming;
pub mod movement;
pub mod weapons;
pub mod projectile;
pub mod mech;
pub mod selection;

use vstd::prelude::*;

verus! {

/// Damage types form the core of the counter system.
/// Each type has strengths and weaknesses against specific armor types.
#[derive(Debug, Clone, Copy, PartialEq, Eq, Hash, Structural)]
pub enum DamageType {
    /// Fast-firing rounds: strong vs infantry, weak vs armored.
    Bullet,
    /// Area-of-effect blasts: strong vs groups, weak vs air.
    Explosive,
    /// High-voltage discharge: strong vs armored, weak vs fast units.
    Electric,
}

/// Armor categories carried by enemies.
#[derive(Debug, Clone, Copy, PartialEq, Eq, Hash, Structural)]
pub enum ArmorType {
    /// Infantry-class.
    Light,
    /// Tank-class.
    Heavy,
    /// Aerial units.
    Air,
}

/// Identifies the tower variant (used to look up config data).
#[derive(Debug, Clone, Copy, PartialEq, Eq, Hash, Structural)]
pub enum TowerType {
    MachineGun,
    TeslaCoil,
    MissileLauncher,
}

/// Identifies the enemy variant.
#[derive(Debug, Clone, Copy, PartialEq, Eq, Hash, Structural)]
pub enum EnemyType {
    Infantry,
    Tank,
    AirUnit,
}

/// The movement mode of an enemy (ground or air).
#[derive(Debug, Clone, Copy, PartialEq, Eq, Hash, Structural)]
pub enum MovementMode {
    Ground,
    Air,
}

} // verus!

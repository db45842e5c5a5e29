use vstd::prelude::*;
use crate::kinds::{ArmorType, DamageType};

verus! {

/// The counter matrix, in quarters of the base damage (4 means x1).
pub open spec fn spec_multiplier_quarters(damage_type: DamageType, armor: ArmorType) -> u32 {
    match (damage_type, armor) {
        (DamageType::Bullet, ArmorType::Light) => 6,
        (DamageType::Bullet, ArmorType::Heavy) => 2,
        (DamageType::Bullet, ArmorType::Air) => 4,
        (DamageType::Explosive, ArmorType::Light) => 5,
        (DamageType::Explosive, ArmorType::Heavy) => 4,
        (DamageType::Explosive, ArmorType::Air) => 2,
        (DamageType::Electric, ArmorType::Heavy) => 6,
        (DamageType::Electric, ArmorType::Light) => 3,
        (DamageType::Electric, ArmorType::Air) => 3,
    }
}

/// Looks up the damage multiplier of an attack of `damage_type` against a
/// target wearing `armor`, counted in quarters: the damage dealt is
/// `base * result / 4` (so 6 is x1.5, 2 is x0.5, 4 is x1).
pub fn damage_multiplier(damage_type: DamageType, armor: ArmorType) -> (quarters: u32)
    ensures
        quarters == spec_multiplier_quarters(damage_type, armor),
{
    match (damage_type, armor) {
        // Bullet: strong vs Light (infantry), weak vs Heavy (tanks)
        (DamageType::Bullet, ArmorType::Light) => 6,
        (DamageType::Bullet, ArmorType::Heavy) => 2,
        (DamageType::Bullet, ArmorType::Air) => 4,
        // Explosive: strong vs groups (Light), weak vs Air
        (DamageType::Explosive, ArmorType::Light) => 5,
        (DamageType::Explosive, ArmorType::Heavy) => 4,
        (DamageType::Explosive, ArmorType::Air) => 2,
        // Electric: strong vs armored (Heavy), weak vs fast units (Light/Air)
        (DamageType::Electric, ArmorType::Heavy) => 6,
        (DamageType::Electric, ArmorType::Light) => 3,
        (DamageType::Electric, ArmorType::Air) => 3,
    }
}

/// Every damage type has an armor it is strong against (multiplier above x1)
/// and one it is weak against (below x1): bullets beat infantry and bounce off
/// tanks, explosives beat infantry groups and miss air units, electricity
/// beats tanks and is weak against light and air units. No attack is ever
/// fully absorbed, and none more than doubles.
pub proof fn law_counter_strengths(damage_type: DamageType, armor: ArmorType)
    ensures
        0 < spec_multiplier_quarters(damage_type, armor) < 8,
        spec_multiplier_quarters(DamageType::Bullet, ArmorType::Light) > 4,
        spec_multiplier_quarters(DamageType::Bullet, ArmorType::Heavy) < 4,
        spec_multiplier_quarters(DamageType::Explosive, ArmorType::Light) > 4,
        spec_multiplier_quarters(DamageType::Explosive, ArmorType::Air) < 4,
        spec_multiplier_quarters(DamageType::Electric, ArmorType::Heavy) > 4,
        spec_multiplier_quarters(DamageType::Electric, ArmorType::Light) < 4,
        spec_multiplier_quarters(DamageType::Electric, ArmorType::Air) < 4,
        spec_multiplier_quarters(DamageType::Bullet, ArmorType::Air) == 4,
        spec_multiplier_quarters(DamageType::Explosive, ArmorType::Heavy) == 4,
        exists|a: ArmorType| spec_multiplier_quarters(damage_type, a) > 4,
        exists|a: ArmorType| spec_multiplier_quarters(damage_type, a) < 4,
{
    match damage_type {
        DamageType::Bullet => {
            assert(spec_multiplier_quarters(damage_type, ArmorType::Light) > 4);
            assert(spec_multiplier_quarters(damage_type, ArmorType::Heavy) < 4);
        },
        DamageType::Explosive => {
            assert(spec_multiplier_quarters(damage_type, ArmorType::Light) > 4);
            assert(spec_multiplier_quarters(damage_type, ArmorType::Air) < 4);
        },
        DamageType::Electric => {
            assert(spec_multiplier_quarters(damage_type, ArmorType::Heavy) > 4);
            assert(spec_multiplier_quarters(damage_type, ArmorType::Light) < 4);
        },
    }
}

} // verus!

use tower_defense::combo::ComboState;
use tower_defense::counter::damage_multiplier;
use tower_defense::economy::Economy;
use tower_defense::kinds::{ArmorType, DamageType, MovementMode, TowerType};
use tower_defense::results::{rating_label, rating_value, GameLevel, LevelResults, StarRating};
use tower_defense::tower::TowerData;

#[test]
fn counter_matrix_values() {
    assert_eq!(damage_multiplier(DamageType::Bullet, ArmorType::Light), 6);
    assert_eq!(damage_multiplier(DamageType::Bullet, ArmorType::Heavy), 2);
    assert_eq!(damage_multiplier(DamageType::Bullet, ArmorType::Air), 4);
    assert_eq!(damage_multiplier(DamageType::Explosive, ArmorType::Light), 5);
    assert_eq!(damage_multiplier(DamageType::Explosive, ArmorType::Heavy), 4);
    assert_eq!(damage_multiplier(DamageType::Explosive, ArmorType::Air), 2);
    assert_eq!(damage_multiplier(DamageType::Electric, ArmorType::Heavy), 6);
    assert_eq!(damage_multiplier(DamageType::Electric, ArmorType::Light), 3);
    assert_eq!(damage_multiplier(DamageType::Electric, ArmorType::Air), 3);
}

#[test]
fn counter_matrix_as_float_multipliers() {
    // In quarters: 1.5, 0.5, 1.25, 0.75 and 1.0 are exact.
    let m = |d, a| damage_multiplier(d, a) as f32 / 4.0;
    assert_eq!(m(DamageType::Bullet, ArmorType::Light), 1.5);
    assert_eq!(m(DamageType::Bullet, ArmorType::Heavy), 0.5);
    assert_eq!(m(DamageType::Explosive, ArmorType::Light), 1.25);
    assert_eq!(m(DamageType::Electric, ArmorType::Air), 0.75);
    assert_eq!(m(DamageType::Explosive, ArmorType::Heavy), 1.0);
}

#[test]
fn every_damage_type_has_strength_and_weakness() {
    let armors = [ArmorType::Light, ArmorType::Heavy, ArmorType::Air];
    for d in [DamageType::Bullet, DamageType::Explosive, DamageType::Electric] {
        assert!(armors.iter().any(|a| damage_multiplier(d, *a) > 4));
        assert!(armors.iter().any(|a| damage_multiplier(d, *a) < 4));
    }
}

#[test]
fn economy_defaults() {
    let e = Economy::default();
    assert_eq!(e, Economy { money: 200, total_earned: 200, total_spent: 0 });
}

#[test]
fn economy_spend_when_affordable() {
    let mut e = Economy::default();
    assert!(e.can_afford(200));
    assert!(e.spend(50));
    assert_eq!(e, Economy { money: 150, total_earned: 200, total_spent: 50 });
    assert_eq!(e.money + e.total_spent, e.total_earned);
}

#[test]
fn economy_refuses_unaffordable() {
    let mut e = Economy::default();
    assert!(!e.can_afford(201));
    assert!(!e.spend(201));
    assert_eq!(e, Economy::default());
}

#[test]
fn economy_earn_then_spend() {
    let mut e = Economy::default();
    e.earn(30);
    assert_eq!(e, Economy { money: 230, total_earned: 230, total_spent: 0 });
    assert!(e.spend(30));
    assert_eq!(e.money, 200);
    assert_eq!(e.money + e.total_spent, e.total_earned);
}

#[test]
fn combo_register_kill_tracks_best() {
    let mut c = ComboState { current: 0, timer: 0.0f32, max_combo: 0, decay_time: 3.0 };
    c.register_kill();
    assert_eq!(c.current, 1);
    assert_eq!(c.timer, 3.0);
    assert_eq!(c.max_combo, 1);
    c.register_kill();
    assert_eq!(c.current, 2);
    assert_eq!(c.max_combo, 2);
    c.current = 0;
    c.register_kill();
    assert_eq!(c.current, 1);
    assert_eq!(c.max_combo, 2);
}

#[test]
fn record_keeps_best_rating() {
    let mut r = LevelResults::default();
    r.record(1, StarRating::Two);
    r.record(2, StarRating::One);
    assert_eq!(r.ratings, vec![(1, StarRating::Two), (2, StarRating::One)]);
    r.record(1, StarRating::One);
    assert_eq!(r.ratings, vec![(1, StarRating::Two), (2, StarRating::One)]);
    r.record(1, StarRating::Three);
    assert_eq!(r.ratings, vec![(1, StarRating::Three), (2, StarRating::One)]);
    r.record(1, StarRating::Three);
    assert_eq!(r.ratings.len(), 2);
}

#[test]
fn rating_values() {
    assert_eq!(rating_value(StarRating::Zero), 0);
    assert_eq!(rating_value(StarRating::One), 1);
    assert_eq!(rating_value(StarRating::Two), 2);
    assert_eq!(rating_value(StarRating::Three), 3);
}

#[test]
fn default_game_level() {
    let g = GameLevel::default();
    assert_eq!((g.current_level, g.levels_unlocked, g.total_levels), (1, 1, 10));
}

#[test]
fn towers_without_air_targeting_skip_air_units() {
    let tesla = TowerData { tower_type: TowerType::TeslaCoil, level: 1, can_target_air: false };
    let gun = TowerData { tower_type: TowerType::MachineGun, level: 1, can_target_air: true };
    assert!(!tesla.can_engage(MovementMode::Air));
    assert!(tesla.can_engage(MovementMode::Ground));
    assert!(gun.can_engage(MovementMode::Air));
    assert!(gun.can_engage(MovementMode::Ground));
}

#[test]
fn rating_labels() {
    assert_eq!(rating_label(StarRating::Zero), "No Stars");
    assert_eq!(rating_label(StarRating::One), "\u{2605}");
    assert_eq!(rating_label(StarRating::Three).chars().count(), 3);
}

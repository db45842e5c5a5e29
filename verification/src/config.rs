use vstd::prelude::*;
use crate::kinds::{ArmorType, DamageType, EnemyType, MovementMode, TowerType};
use crate::search::{first_match, lemma_first_match_at, lemma_no_match};

verus! {

/// Static definition of a tower at a specific upgrade level. `F` is the
/// scalar type of damage, range and attack period.
#[derive(Debug, Clone)]
pub struct TowerLevelConfig<F> {
    pub damage: F,
    pub range: F,
    pub attack_speed: F,
    pub cost: u32,
}

/// Full tower definition with its upgrade levels.
#[derive(Debug, Clone)]
pub struct TowerConfig<F> {
    pub tower_type: TowerType,
    pub name: String,
    pub damage_type: DamageType,
    pub can_target_air: bool,
    /// Splash radius (zero means single target).
    pub splash_radius: F,
    /// Upgrade levels (index 0 = base, 1 = upgrade 1, 2 = upgrade 2).
    pub levels: Vec<TowerLevelConfig<F>>,
}

/// Complete collection of tower configs, searchable by `TowerType`.
#[derive(Debug, Clone)]
pub struct TowersConfig<F> {
    pub towers: Vec<TowerConfig<F>>,
}

/// The first position in `s` whose config is for `tt`.
pub open spec fn find_tower<F>(s: Seq<TowerConfig<F>>, tt: TowerType) -> Option<int> {
    first_match(s.map_values(|c: TowerConfig<F>| c.tower_type == tt))
}

impl<F> TowersConfig<F> {
    /// The first config for `tt`, if any.
    pub fn get(&self, tt: TowerType) -> (c: Option<&TowerConfig<F>>)
        ensures
            c == match find_tower(self.towers@, tt) {
                Some(i) => Some(&self.towers@[i]),
                None => None,
            },
    {
        let n = self.towers.len();
        let mut i: usize = 0;
        while i < n
            invariant
                n == self.towers@.len(),
                i <= n,
                forall|j: int| 0 <= j < i ==> #[trigger] self.towers@[j].tower_type != tt,
            decreases n - i,
        {
            if self.towers[i].tower_type == tt {
                proof {
                    lemma_first_match_at(
                        self.towers@.map_values(|c: TowerConfig<F>| c.tower_type == tt),
                        i as int,
                    );
                }
                return Some(&self.towers[i]);
            }
            i = i + 1;
        }
        proof {
            lemma_no_match(self.towers@.map_values(|c: TowerConfig<F>| c.tower_type == tt));
        }
        None
    }
}

/// The tower type of entry `t` of the standard tower table.
pub open spec fn standard_tower_type(t: int) -> TowerType {
    if t == 0 {
        TowerType::MachineGun
    } else if t == 1 {
        TowerType::TeslaCoil
    } else {
        TowerType::MissileLauncher
    }
}

/// The damage type of entry `t` of the standard tower table.
pub open spec fn standard_damage_type(t: int) -> DamageType {
    if t == 0 {
        DamageType::Bullet
    } else if t == 1 {
        DamageType::Electric
    } else {
        DamageType::Explosive
    }
}

/// The display name of entry `t` of the standard tower table.
pub open spec fn standard_tower_name(t: int) -> Seq<char> {
    if t == 0 {
        "Machine Gun Tower"@
    } else if t == 1 {
        "Tesla Coil"@
    } else {
        "Missile Launcher"@
    }
}

/// The cost of level `k` of entry `t` of the standard tower table: machine
/// gun 50/40/60, tesla coil 100/75/100, missile launcher 80/60/80.
pub open spec fn standard_level_cost(t: int, k: int) -> u32 {
    let costs = seq![50u32, 40, 60, 100, 75, 100, 80, 60, 80];
    costs[3 * t + k]
}

/// A tower level with the given (damage, range, attack period) and cost.
pub open spec fn level_of<F>(stats: (F, F, F), cost: u32) -> TowerLevelConfig<F> {
    TowerLevelConfig { damage: stats.0, range: stats.1, attack_speed: stats.2, cost }
}

/// The three levels of one tower, from `stats[base..base + 3]`.
fn three_levels<F: Copy>(stats: &Vec<(F, F, F)>, base: usize, c0: u32, c1: u32, c2: u32) -> (levels:
    Vec<TowerLevelConfig<F>>)
    requires
        base <= 6,
        stats@.len() == 9,
    ensures
        levels@.len() == 3,
        levels@[0] == level_of(stats@[base as int], c0),
        levels@[1] == level_of(stats@[base + 1], c1),
        levels@[2] == level_of(stats@[base + 2], c2),
{
    let mut levels: Vec<TowerLevelConfig<F>> = Vec::new();
    let (d, r, a) = stats[base];
    levels.push(TowerLevelConfig { damage: d, range: r, attack_speed: a, cost: c0 });
    let (d, r, a) = stats[base + 1];
    levels.push(TowerLevelConfig { damage: d, range: r, attack_speed: a, cost: c1 });
    let (d, r, a) = stats[base + 2];
    levels.push(TowerLevelConfig { damage: d, range: r, attack_speed: a, cost: c2 });
    levels
}

impl<F: Copy> TowersConfig<F> {
    /// The standard tower table: a machine gun (bullets, hits air, costs
    /// 50/40/60), a tesla coil (electric, ground only, 100/75/100) and a
    /// missile launcher (explosive, hits air, splash, 80/60/80). Level `k` of
    /// tower `t` has the (damage, range, attack period) `levels[3 * t + k]`;
    /// the missile launcher splashes `missile_splash`, the others `no_splash`.
    pub fn standard(levels: &Vec<(F, F, F)>, no_splash: F, missile_splash: F) -> (c: Self)
        requires
            levels@.len() == 9,
        ensures
            c.towers@.len() == 3,
            forall|t: int|
                0 <= t < 3 ==> {
                    &&& (#[trigger] c.towers@[t]).tower_type == standard_tower_type(t)
                    &&& c.towers@[t].name@ == standard_tower_name(t)
                    &&& c.towers@[t].damage_type == standard_damage_type(t)
                    &&& c.towers@[t].can_target_air == (t != 1)
                    &&& c.towers@[t].splash_radius == if t == 2 {
                        missile_splash
                    } else {
                        no_splash
                    }
                    &&& c.towers@[t].levels@.len() == 3
                    &&& forall|k: int|
                        0 <= k < 3 ==> #[trigger] c.towers@[t].levels@[k] == level_of(
                            levels@[3 * t + k],
                            standard_level_cost(t, k),
                        )
                },
    {
        let machine_gun = TowerConfig {
            tower_type: TowerType::MachineGun,
            name: "Machine Gun Tower".to_owned(),
            damage_type: DamageType::Bullet,
            can_target_air: true,
            splash_radius: no_splash,
            levels: three_levels(levels, 0, 50, 40, 60),
        };
        let tesla_coil = TowerConfig {
            tower_type: TowerType::TeslaCoil,
            name: "Tesla Coil".to_owned(),
            damage_type: DamageType::Electric,
            can_target_air: false,
            splash_radius: no_splash,
            levels: three_levels(levels, 3, 100, 75, 100),
        };
        let missile_launcher = TowerConfig {
            tower_type: TowerType::MissileLauncher,
            name: "Missile Launcher".to_owned(),
            damage_type: DamageType::Explosive,
            can_target_air: true,
            splash_radius: missile_splash,
            levels: three_levels(levels, 6, 80, 60, 80),
        };
        let mut towers: Vec<TowerConfig<F>> = Vec::new();
        towers.push(machine_gun);
        towers.push(tesla_coil);
        towers.push(missile_launcher);
        let c = TowersConfig { towers };
        c
    }
}

/// Static definition of an enemy variant. `F` is the scalar type of health
/// and speed.
#[derive(Debug, Clone)]
pub struct EnemyConfig<F> {
    pub enemy_type: EnemyType,
    pub name: String,
    pub health: F,
    pub speed: F,
    pub armor: ArmorType,
    pub movement: MovementMode,
    pub reward: u32,
}

/// Collection of enemy configs.
#[derive(Debug, Clone)]
pub struct EnemiesConfig<F> {
    pub enemies: Vec<EnemyConfig<F>>,
}

/// The first position in `s` whose config is for `et`.
pub open spec fn find_enemy<F>(s: Seq<EnemyConfig<F>>, et: EnemyType) -> Option<int> {
    first_match(s.map_values(|c: EnemyConfig<F>| c.enemy_type == et))
}

impl<F> EnemiesConfig<F> {
    /// The first config for `et`, if any.
    pub fn get(&self, et: EnemyType) -> (c: Option<&EnemyConfig<F>>)
        ensures
            c == match find_enemy(self.enemies@, et) {
                Some(i) => Some(&self.enemies@[i]),
                None => None,
            },
    {
        let n = self.enemies.len();
        let mut i: usize = 0;
        while i < n
            invariant
                n == self.enemies@.len(),
                i <= n,
                forall|j: int| 0 <= j < i ==> #[trigger] self.enemies@[j].enemy_type != et,
            decreases n - i,
        {
            if self.enemies[i].enemy_type == et {
                proof {
                    lemma_first_match_at(
                        self.enemies@.map_values(|c: EnemyConfig<F>| c.enemy_type == et),
                        i as int,
                    );
                }
                return Some(&self.enemies[i]);
            }
            i = i + 1;
        }
        proof {
            lemma_no_match(self.enemies@.map_values(|c: EnemyConfig<F>| c.enemy_type == et));
        }
        None
    }
}

/// The enemy type, armor, movement, reward and name of entry `e` of the
/// standard enemy table: infantry (light armor, ground, reward 10), tank
/// (heavy armor, ground, 30) and air unit (air armor, flying, 20).
pub open spec fn standard_enemy(e: int) -> (EnemyType, ArmorType, MovementMode, u32, Seq<char>) {
    if e == 0 {
        (EnemyType::Infantry, ArmorType::Light, MovementMode::Ground, 10u32, "Infantry"@)
    } else if e == 1 {
        (EnemyType::Tank, ArmorType::Heavy, MovementMode::Ground, 30u32, "Tank"@)
    } else {
        (EnemyType::AirUnit, ArmorType::Air, MovementMode::Air, 20u32, "Air Unit"@)
    }
}

impl<F: Copy> EnemiesConfig<F> {
    /// The standard enemy table: infantry, tank and air unit, entry `e`
    /// having the (health, speed) `stats[e]`.
    pub fn standard(stats: &Vec<(F, F)>) -> (c: Self)
        requires
            stats@.len() == 3,
        ensures
            c.enemies@.len() == 3,
            forall|e: int|
                0 <= e < 3 ==> {
                    &&& (#[trigger] c.enemies@[e]).enemy_type == standard_enemy(e).0
                    &&& c.enemies@[e].armor == standard_enemy(e).1
                    &&& c.enemies@[e].movement == standard_enemy(e).2
                    &&& c.enemies@[e].reward == standard_enemy(e).3
                    &&& c.enemies@[e].name@ == standard_enemy(e).4
                    &&& c.enemies@[e].health == stats@[e].0
                    &&& c.enemies@[e].speed == stats@[e].1
                },
    {
        let mut enemies: Vec<EnemyConfig<F>> = Vec::new();
        let (health, speed) = stats[0];
        enemies.push(
            EnemyConfig {
                enemy_type: EnemyType::Infantry,
                name: "Infantry".to_owned(),
                health,
                speed,
                armor: ArmorType::Light,
                movement: MovementMode::Ground,
                reward: 10,
            },
        );
        let (health, speed) = stats[1];
        enemies.push(
            EnemyConfig {
                enemy_type: EnemyType::Tank,
                name: "Tank".to_owned(),
                health,
                speed,
                armor: ArmorType::Heavy,
                movement: MovementMode::Ground,
                reward: 30,
            },
        );
        let (health, speed) = stats[2];
        enemies.push(
            EnemyConfig {
                enemy_type: EnemyType::AirUnit,
                name: "Air Unit".to_owned(),
                health,
                speed,
                armor: ArmorType::Air,
                movement: MovementMode::Air,
                reward: 20,
            },
        );
        EnemiesConfig { enemies }
    }
}

} // verus!

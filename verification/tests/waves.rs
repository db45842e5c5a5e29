use tower_defense::config::{EnemiesConfig, EnemyConfig, TowerConfig, TowerLevelConfig, TowersConfig};
use tower_defense::economy::Economy;
use tower_defense::combo::ComboState;
use tower_defense::grid::{MapGrid, TileKind};
use tower_defense::kinds::{ArmorType, DamageType, EnemyType, MovementMode, TowerType};
use tower_defense::results::StarRating;
use tower_defense::scoring::{
    compute_final_score, compute_star_rating, register_enemy_death, LevelStats, ScoreState,
};
use tower_defense::tower::try_place_tower;
use tower_defense::waves::{spawn_entries, SpawnQueue, WaveDefinition, WaveSpawnGroup, WaveState, WavesConfig};

fn campaign() -> WavesConfig<f32> {
    let scales: Vec<f32> = (1..=10).map(|i| 1.0 + (i as f32 - 1.0) * 0.15).collect();
    WavesConfig::standard(&scales, 1.0, 2.0, 1.5)
}

fn wave_state() -> WaveState<f32> {
    WaveState {
        current_wave: 0,
        total_waves: 10,
        enemies_spawned: 0,
        enemies_alive: 0,
        wave_active: false,
        spawn_timer: 0.0,
        between_wave_timer: 5.0,
        wave_complete: false,
    }
}

fn stats() -> LevelStats<f32> {
    LevelStats { total_kills: 0, towers_built: 0, damage_dealt: 0.0, max_combo: 0, time_elapsed: 0.0 }
}

#[test]
fn standard_campaign_shape() {
    let c = campaign();
    assert_eq!(c.waves.len(), 10);
    let sizes: Vec<u32> = c.waves.iter().map(|w| w.groups.iter().map(|g| g.count).sum()).collect();
    assert_eq!(sizes, vec![4, 5, 8, 9, 12, 15, 16, 18, 20, 22]);
    let bosses: Vec<u32> = c.waves.iter().filter(|w| w.is_boss_wave).map(|w| w.wave_number).collect();
    assert_eq!(bosses, vec![5, 10]);
    assert_eq!(c.waves[0].groups.len(), 1);
    assert_eq!(c.waves[2].groups[1].enemy_type, EnemyType::Tank);
    assert_eq!(c.waves[4].groups[2].enemy_type, EnemyType::AirUnit);
    assert_eq!(c.waves[4].groups[2].spawn_interval, 1.5);
    assert_eq!(c.waves[9].difficulty_scale, 1.0 + 9.0 * 0.15);
}

#[test]
fn spawn_entries_expand_groups_in_order() {
    let def = WaveDefinition {
        wave_number: 1,
        groups: vec![
            WaveSpawnGroup { enemy_type: EnemyType::Infantry, count: 2, spawn_interval: 1.0f32 },
            WaveSpawnGroup { enemy_type: EnemyType::Tank, count: 0, spawn_interval: 2.0 },
            WaveSpawnGroup { enemy_type: EnemyType::AirUnit, count: 1, spawn_interval: 1.5 },
        ],
        is_boss_wave: false,
        difficulty_scale: 1.3,
    };
    let e = spawn_entries(&def);
    let kinds: Vec<EnemyType> = e.iter().map(|x| x.enemy_type).collect();
    assert_eq!(kinds, vec![EnemyType::Infantry, EnemyType::Infantry, EnemyType::AirUnit]);
    assert!(e.iter().all(|x| x.health_scale == 1.3));
    assert_eq!(e[2].spawn_interval, 1.5);
}

#[test]
fn wave_lifecycle() {
    let cfg = campaign();
    let mut ws = wave_state();
    let entries = ws.start_next_wave(&cfg).expect("wave 1 is defined");
    assert_eq!(entries.len(), 4);
    assert_eq!((ws.current_wave, ws.wave_active, ws.wave_complete), (1, true, false));
    let mut q = SpawnQueue { entries, current_index: 0, timer: 0.0f32 };
    ws.complete_if_cleared(&q, 5.0);
    assert!(ws.wave_active);
    while let Some(e) = q.take_next() {
        assert_eq!(q.timer, e.spawn_interval);
        ws.enemy_spawned();
    }
    assert!(q.all_spawned());
    assert_eq!((ws.enemies_spawned, ws.enemies_alive), (4, 4));
    ws.complete_if_cleared(&q, 5.0);
    assert!(ws.wave_active);
    for _ in 0..5 {
        ws.enemy_removed();
    }
    assert_eq!(ws.enemies_alive, 0);
    ws.between_wave_timer = -1.0;
    ws.complete_if_cleared(&q, 5.0);
    assert_eq!((ws.wave_active, ws.wave_complete, ws.between_wave_timer), (false, true, 5.0));
    assert!(!ws.level_complete());
}

#[test]
fn no_wave_after_the_last() {
    let cfg = campaign();
    let mut ws = wave_state();
    ws.current_wave = 10;
    assert!(ws.start_next_wave(&cfg).is_none());
    assert_eq!(ws.current_wave, 10);
    ws.wave_complete = true;
    assert!(ws.level_complete());
    ws.enemies_alive = 1;
    assert!(!ws.level_complete());
}

#[test]
fn take_next_on_spent_queue() {
    let mut q: SpawnQueue<f32> = SpawnQueue { entries: vec![], current_index: 0, timer: 0.7 };
    assert!(q.take_next().is_none());
    assert_eq!(q.timer, 0.7);
}

fn towers() -> TowersConfig<f32> {
    TowersConfig {
        towers: vec![TowerConfig {
            tower_type: TowerType::MachineGun,
            name: "Machine Gun Tower".into(),
            damage_type: DamageType::Bullet,
            can_target_air: true,
            splash_radius: 0.0,
            levels: vec![TowerLevelConfig { damage: 10.0, range: 5.0, attack_speed: 0.3, cost: 50 }],
        }],
    }
}

#[test]
fn tower_config_lookup() {
    let t = towers();
    assert_eq!(t.get(TowerType::MachineGun).map(|c| c.levels[0].cost), Some(50));
    assert!(t.get(TowerType::TeslaCoil).is_none());
    let e = EnemiesConfig {
        enemies: vec![EnemyConfig {
            enemy_type: EnemyType::Tank,
            name: "Tank".into(),
            health: 200.0f32,
            speed: 1.0,
            armor: ArmorType::Heavy,
            movement: MovementMode::Ground,
            reward: 30,
        }],
    };
    assert_eq!(e.get(EnemyType::Tank).map(|c| c.reward), Some(30));
    assert!(e.get(EnemyType::AirUnit).is_none());
}

#[test]
fn place_tower_rules() {
    let mut map = MapGrid::new(4, 4);
    map.set(1, 1, TileKind::Path);
    let cfg = towers();
    let mut eco = Economy::default();
    let mut st = stats();
    assert!(try_place_tower(&map, &mut eco, &cfg, TowerType::MachineGun, 0, 0, &mut st));
    assert_eq!((eco.money, eco.total_spent, st.towers_built), (150, 50, 1));
    assert!(!try_place_tower(&map, &mut eco, &cfg, TowerType::MachineGun, 1, 1, &mut st));
    assert!(!try_place_tower(&map, &mut eco, &cfg, TowerType::MachineGun, 4, 0, &mut st));
    assert!(!try_place_tower(&map, &mut eco, &cfg, TowerType::TeslaCoil, 2, 2, &mut st));
    assert_eq!((eco.money, st.towers_built), (150, 1));
    eco.money = 49;
    assert!(!try_place_tower(&map, &mut eco, &cfg, TowerType::MachineGun, 2, 2, &mut st));
    assert_eq!((eco.money, st.towers_built), (49, 1));
}

#[test]
fn star_ratings() {
    let low = ScoreState { points: 199 };
    let high = ScoreState { points: 200 };
    assert_eq!(compute_star_rating(false, false, true, &high), StarRating::One);
    assert_eq!(compute_star_rating(false, false, false, &high), StarRating::Zero);
    assert_eq!(compute_star_rating(true, false, true, &low), StarRating::One);
    assert_eq!(compute_star_rating(true, true, false, &high), StarRating::Two);
    assert_eq!(compute_star_rating(true, true, true, &low), StarRating::Two);
    assert_eq!(compute_star_rating(true, true, true, &high), StarRating::Three);
}

#[test]
fn final_score_formula() {
    let score = ScoreState { points: 300 };
    let mut st = stats();
    st.max_combo = 4;
    assert_eq!(compute_final_score(&score, 80, true, &st), 300 + 80 + 50 + 20);
    assert_eq!(compute_final_score(&score, 0, false, &st), 320);
}

#[test]
fn enemy_death_bookkeeping() {
    let mut eco = Economy::default();
    let mut combo = ComboState { current: 0, timer: 0.0f32, max_combo: 0, decay_time: 3.0 };
    let mut st = stats();
    let mut ws = wave_state();
    ws.enemies_alive = 2;
    register_enemy_death(&mut eco, &mut combo, &mut st, &mut ws, 30);
    assert_eq!((eco.money, eco.total_earned), (230, 230));
    assert_eq!((combo.current, combo.max_combo, combo.timer), (1, 1, 3.0));
    assert_eq!(st.total_kills, 1);
    assert_eq!(ws.enemies_alive, 1);
    let mut score = ScoreState::default();
    score.add_points(33);
    assert_eq!(score.points, 33);
}

#[test]
fn standard_tower_table() {
    let levels: Vec<(f32, f32, f32)> = (0..9).map(|k| (k as f32, 1.0, 0.5)).collect();
    let t = TowersConfig::standard(&levels, 0.0f32, 2.5);
    let types: Vec<TowerType> = t.towers.iter().map(|c| c.tower_type).collect();
    assert_eq!(types, vec![TowerType::MachineGun, TowerType::TeslaCoil, TowerType::MissileLauncher]);
    let costs: Vec<u32> = t.towers.iter().flat_map(|c| c.levels.iter().map(|l| l.cost)).collect();
    assert_eq!(costs, vec![50, 40, 60, 100, 75, 100, 80, 60, 80]);
    let air: Vec<bool> = t.towers.iter().map(|c| c.can_target_air).collect();
    assert_eq!(air, vec![true, false, true]);
    assert_eq!(t.towers[1].damage_type, DamageType::Electric);
    assert_eq!(t.towers[2].splash_radius, 2.5);
    assert_eq!(t.towers[0].splash_radius, 0.0);
    assert_eq!(t.towers[1].levels[2].damage, 5.0);
    assert_eq!(t.towers[0].name, "Machine Gun Tower");
}

#[test]
fn standard_enemy_table() {
    let e = EnemiesConfig::standard(&vec![(50.0f32, 2.0), (200.0, 1.0), (80.0, 3.0)]);
    let rewards: Vec<u32> = e.enemies.iter().map(|c| c.reward).collect();
    assert_eq!(rewards, vec![10, 30, 20]);
    assert_eq!(e.enemies[1].armor, ArmorType::Heavy);
    assert_eq!(e.enemies[2].movement, MovementMode::Air);
    assert_eq!(e.enemies[2].name, "Air Unit");
    assert_eq!(e.get(EnemyType::Tank).map(|c| c.health), Some(200.0));
}

#[test]
fn wave_starts_only_when_due_and_idle() {
    let cfg = campaign();
    let mut ws = wave_state();
    assert!(ws.start_wave_if_due(&cfg, false).is_none());
    assert_eq!(ws.current_wave, 0);
    let q = ws.start_wave_if_due(&cfg, true).expect("wave 1 starts");
    assert_eq!((ws.current_wave, ws.wave_active), (1, true));
    assert!(ws.start_wave_if_due(&cfg, true).is_none());
    assert_eq!(ws.current_wave, 1);
    let queue = SpawnQueue { entries: q, current_index: 0, timer: 0.0f32 };
    assert!(ws.spawning(&queue));
    let spent = SpawnQueue { entries: vec![], current_index: 0, timer: 0.0f32 };
    assert!(!ws.spawning(&spent));
    ws.wave_active = false;
    assert!(!ws.spawning(&queue));
}

#[test]
fn placed_tower_data() {
    let t = towers();
    let d = tower_defense::tower::placed_tower(&t, TowerType::MachineGun).expect("configured");
    assert_eq!((d.tower_type, d.level, d.can_target_air), (TowerType::MachineGun, 1, true));
    assert!(tower_defense::tower::placed_tower(&t, TowerType::TeslaCoil).is_none());
}

use vstd::prelude::*;
use crate::config::{find_tower, TowerConfig, TowersConfig};
use crate::economy::Economy;
use crate::grid::{GridView, MapGrid, TileKind};
use crate::kinds::{MovementMode, TowerType};
use crate::scoring::LevelStats;

verus! {

/// Metadata attached to tower entities.
#[derive(Debug, Clone, Copy, PartialEq, Eq, Structural)]
pub struct TowerData {
    pub tower_type: TowerType,
    pub level: u32,
    pub can_target_air: bool,
}

impl TowerData {
    /// Whether this tower may aim at an enemy moving in `movement` mode:
    /// air units only if the tower can target air.
    pub open spec fn engages(self, movement: MovementMode) -> bool {
        movement == MovementMode::Air ==> self.can_target_air
    }

    /// Whether this tower may aim at an enemy moving in `movement` mode.
    pub fn can_engage(&self, movement: MovementMode) -> (b: bool)
        ensures
            b == self.engages(movement),
    {
        !(movement == MovementMode::Air && !self.can_target_air)
    }
}

/// Every tower engages ground units; a tower that cannot target air never
/// engages an air unit.
pub proof fn law_air_targeting(t: TowerData)
    ensures
        t.engages(MovementMode::Ground),
        !t.can_target_air ==> !t.engages(MovementMode::Air),
        t.can_target_air ==> t.engages(MovementMode::Air),
{
}

/// The data of a freshly placed tower of type `tt`: level 1, air targeting
/// as its first config says; nothing if the type is not configured.
pub open spec fn spec_placed_tower<F>(c: TowersConfig<F>, tt: TowerType) -> Option<TowerData> {
    match find_tower(c.towers@, tt) {
        Some(i) => Some(
            TowerData { tower_type: tt, level: 1, can_target_air: c.towers@[i].can_target_air },
        ),
        None => None,
    }
}

/// The data of a freshly placed tower of type `tower_type`.
pub fn placed_tower<F>(towers_config: &TowersConfig<F>, tower_type: TowerType) -> (t: Option<
    TowerData,
>)
    ensures
        t == spec_placed_tower(*towers_config, tower_type),
{
    match towers_config.get(tower_type) {
        Some(cfg) => Some(
            TowerData { tower_type, level: 1, can_target_air: cfg.can_target_air },
        ),
        None => None,
    }
}

/// Whether the tile at `(x, y)` accepts a tower.
pub open spec fn buildable_at(map: GridView, x: int, y: int) -> bool {
    map.tile_at(x, y) == Some(TileKind::Buildable)
}

/// The cost of the base level of the first config for `tt`.
pub open spec fn base_cost<F>(config: TowersConfig<F>, tt: TowerType) -> u32 {
    config.towers@[find_tower(config.towers@, tt).unwrap()].levels@[0].cost
}

/// Whether a tower of type `tt` may go up at `(x, y)`: the tile is buildable,
/// the tower type is configured, and its base level is affordable.
pub open spec fn placement_allowed<F>(
    map: GridView,
    economy: Economy,
    config: TowersConfig<F>,
    tt: TowerType,
    x: int,
    y: int,
) -> bool {
    &&& buildable_at(map, x, y)
    &&& find_tower(config.towers@, tt) is Some
    &&& economy.money >= base_cost(config, tt)
}

/// A tower goes up only on a buildable tile of the map, only for a
/// configured tower type, and only when its base cost is affordable; on a
/// path, blocked, spawn or base tile, or off the map, placement is refused.
/// Conversely a buildable tile, a configured type and enough money always
/// allow it.
pub proof fn law_placement_rules<F>(
    map: GridView,
    economy: Economy,
    config: TowersConfig<F>,
    tt: TowerType,
    x: int,
    y: int,
)
    ensures
        placement_allowed(map, economy, config, tt, x, y) ==> map.in_bounds(x, y) && map.cell(x, y)
            == TileKind::Buildable,
        placement_allowed(map, economy, config, tt, x, y) ==> exists|i: int|
            0 <= i < config.towers@.len() && (#[trigger] config.towers@[i]).tower_type == tt,
        placement_allowed(map, economy, config, tt, x, y) ==> economy.money >= base_cost(config, tt),
        !map.in_bounds(x, y) ==> !placement_allowed(map, economy, config, tt, x, y),
        map.in_bounds(x, y) && map.cell(x, y) != TileKind::Buildable ==> !placement_allowed(
            map,
            economy,
            config,
            tt,
            x,
            y,
        ),
        map.in_bounds(x, y) && map.cell(x, y) == TileKind::Buildable && find_tower(config.towers@, tt) is Some
            && economy.money >= base_cost(config, tt) ==> placement_allowed(
            map,
            economy,
            config,
            tt,
            x,
            y,
        ),
{
    let flags = config.towers@.map_values(|c: TowerConfig<F>| c.tower_type == tt);
    crate::search::lemma_first_match(flags);
    if let Some(k) = find_tower(config.towers@, tt) {
        assert(flags[k]);
        assert(config.towers@[k].tower_type == tt);
    }
}

/// Places a tower of type `tower_type` at grid `(grid_x, grid_y)` if the tile
/// is buildable, the type is configured and its base level is affordable:
/// then the base cost is paid, the tower count rises, and `true` comes back.
/// Otherwise nothing changes and `false` comes back.
pub fn try_place_tower<F: Copy>(
    map: &MapGrid,
    economy: &mut Economy,
    towers_config: &TowersConfig<F>,
    tower_type: TowerType,
    grid_x: usize,
    grid_y: usize,
    stats: &mut LevelStats<F>,
) -> (placed: bool)
    requires
        map@.has_slot(grid_x as int, grid_y as int),
        buildable_at(map@, grid_x as int, grid_y as int) && find_tower(towers_config.towers@, tower_type) is Some
            ==> towers_config.towers@[find_tower(towers_config.towers@, tower_type).unwrap()].levels@.len() > 0
            && old(economy).spend_fits(base_cost(*towers_config, tower_type)),
        placement_allowed(map@, *old(economy), *towers_config, tower_type, grid_x as int, grid_y as int)
            ==> old(stats).towers_built < u32::MAX,
    ensures
        placed == placement_allowed(map@, *old(economy), *towers_config, tower_type, grid_x as int, grid_y as int),
        placed ==> *final(economy) == old(economy).after_spend(base_cost(*towers_config, tower_type))
            && *final(stats) == old(stats).with_tower(),
        !placed ==> *final(economy) == *old(economy) && *final(stats) == *old(stats),
{
    // Validate the tile
    match map.get(grid_x, grid_y) {
        Some(tile) => {
            if tile != TileKind::Buildable {
                return false;
            }
        },
        None => {
            return false;
        },
    }
    // Look up the config
    let cfg = match towers_config.get(tower_type) {
        Some(c) => c,
        None => {
            return false;
        },
    };
    // Base level
    let cost = cfg.levels[0].cost;
    // Check the cost
    if !economy.spend(cost) {
        return false;
    }
    stats.towers_built = stats.towers_built + 1;
    true
}

} // verus!

use tower_defense::grid::{MapGrid, TileKind};
use tower_defense::layout::create_default_map;
use tower_defense::path::PathFollower;

#[test]
fn new_map_is_buildable() {
    let m = MapGrid::new(3, 2);
    assert_eq!(m.tiles.len(), 6);
    for y in 0..2 {
        for x in 0..3 {
            assert_eq!(m.get(x, y), Some(TileKind::Buildable));
        }
    }
    assert_eq!(m.get(3, 0), None);
    assert_eq!(m.get(0, 2), None);
}

#[test]
fn set_then_get() {
    let mut m = MapGrid::new(4, 3);
    m.set(2, 1, TileKind::Path);
    assert_eq!(m.get(2, 1), Some(TileKind::Path));
    assert_eq!(m.tiles[1 * 4 + 2], TileKind::Path);
    assert_eq!(m.get(1, 2), Some(TileKind::Buildable));
    m.set(2, 1, TileKind::Blocked);
    assert_eq!(m.get(2, 1), Some(TileKind::Blocked));
}

#[test]
fn set_out_of_bounds_is_ignored() {
    let mut m = MapGrid::new(2, 2);
    m.set(2, 0, TileKind::Base);
    m.set(0, 5, TileKind::Base);
    assert!(m.tiles.iter().all(|t| *t == TileKind::Buildable));
}

#[test]
fn build_path_orders_spawn_path_base() {
    let mut m = MapGrid::new(3, 3);
    m.set(2, 2, TileKind::Spawn);
    m.set(0, 0, TileKind::Base);
    m.set(1, 0, TileKind::Path);
    m.set(0, 1, TileKind::Path);
    assert_eq!(m.build_path(), vec![(2, 2), (1, 0), (0, 1), (0, 0)]);
}

#[test]
fn build_path_of_empty_map() {
    let m = MapGrid::new(0, 5);
    assert_eq!(m.build_path(), Vec::<(usize, usize)>::new());
}

#[test]
fn default_map_layout() {
    let m = create_default_map();
    assert_eq!((m.width, m.height), (12, 12));
    assert_eq!(m.get(0, 0), Some(TileKind::Spawn));
    assert_eq!(m.get(9, 11), Some(TileKind::Base));
    for x in 1..=5 {
        assert_eq!(m.get(x, 0), Some(TileKind::Path));
    }
    for y in 1..=4 {
        assert_eq!(m.get(5, y), Some(TileKind::Path));
    }
    assert_eq!(m.get(3, 2), Some(TileKind::Blocked));
    assert_eq!(m.get(8, 5), Some(TileKind::Blocked));
    assert_eq!(m.get(1, 1), Some(TileKind::Buildable));
    assert_eq!(m.get(6, 6), Some(TileKind::Buildable));
    assert_eq!(m.tiles.len(), 144);
    let paths = m.tiles.iter().filter(|t| **t == TileKind::Path).count();
    assert_eq!(paths, 25);
    let buildable = m.tiles.iter().filter(|t| **t == TileKind::Buildable).count();
    assert_eq!(buildable, 113);
}

#[test]
fn default_map_route() {
    let route = create_default_map().build_path();
    assert_eq!(route.len(), 27);
    assert_eq!(route[0], (0, 0));
    assert_eq!(route[1], (1, 0));
    assert_eq!(route[26], (9, 11));
    // path tiles come in row-major order
    assert_eq!(route[6], (5, 1));
}

#[test]
fn follower_walks_and_stops_at_last_waypoint() {
    let mut f = PathFollower { waypoints: vec![10, 20, 30], current_index: 0 };
    assert_eq!(f.current_target(), Some(10));
    assert!(f.advance());
    assert_eq!(f.current_target(), Some(20));
    assert!(f.advance());
    assert_eq!(f.current_target(), Some(30));
    assert!(!f.advance());
    assert_eq!(f.current_index, 2);
    assert!(!f.finished());
}

#[test]
fn follower_with_no_waypoints_is_finished() {
    let mut f: PathFollower<i32> = PathFollower { waypoints: vec![], current_index: 0 };
    assert!(f.finished());
    assert_eq!(f.current_target(), None);
    assert!(!f.advance());
}

#[test]
fn extra_tiles_past_the_grid_are_ignored() {
    let m = MapGrid { width: 2, height: 1, tiles: vec![TileKind::Path, TileKind::Spawn, TileKind::Base] };
    assert_eq!(m.get(0, 0), Some(TileKind::Path));
    assert_eq!(m.get(1, 0), Some(TileKind::Spawn));
    assert_eq!(m.build_path(), vec![(1, 0), (0, 0)]);
}

#[test]
fn short_tile_vector_serves_present_slots() {
    let mut m = MapGrid { width: 3, height: 3, tiles: vec![TileKind::Spawn, TileKind::Path] };
    assert_eq!(m.get(1, 0), Some(TileKind::Path));
    assert_eq!(m.get(3, 3), None);
    m.set(0, 0, TileKind::Base);
    assert_eq!(m.get(0, 0), Some(TileKind::Base));
    assert_eq!(m.tiles.len(), 2);
}

use vstd::prelude::*;
use crate::grid::{GridView, MapGrid, TileKind};

verus! {

/// The tile of the default 12 x 12 level at `(x, y)`: a winding path from the
/// spawn in the top-left corner to the base near the bottom-right corner,
/// with four blocked tiles for variety.
pub open spec fn default_tile(x: int, y: int) -> TileKind {
    if x == 0 && y == 0 {
        TileKind::Spawn
    } else if x == 9 && y == 11 {
        TileKind::Base
    } else if (y == 2 && (x == 3 || x == 4)) || (y == 5 && (x == 7 || x == 8)) {
        TileKind::Blocked
    } else if (y == 0 && 1 <= x <= 5) || (x == 5 && 1 <= y <= 4) || (y == 4 && 2 <= x <= 4) || (x
        == 2 && 5 <= y <= 8) || (y == 8 && 3 <= x <= 9) || (x == 9 && 9 <= y <= 10) {
        TileKind::Path
    } else {
        TileKind::Buildable
    }
}

/// `after` is `before` with the cells `(x, y)` for `x_lo <= x <= x_hi` and
/// `y_lo <= y <= y_hi` painted `kind`.
pub open spec fn painted(
    before: GridView,
    after: GridView,
    x_lo: int,
    x_hi: int,
    y_lo: int,
    y_hi: int,
    kind: TileKind,
) -> bool {
    &&& after.wf()
    &&& after.width == before.width
    &&& after.height == before.height
    &&& forall|a: int, b: int|
        after.in_bounds(a, b) ==> #[trigger] after.cell(a, b) == if x_lo <= a <= x_hi && y_lo <= b
            <= y_hi {
            kind
        } else {
            before.cell(a, b)
        }
}

/// Paints the cells `(x, y)` for `x_lo <= x <= x_hi` in one row `y`.
fn paint_row(map: &mut MapGrid, y: usize, x_lo: usize, x_hi: usize, kind: TileKind)
    requires
        old(map).wf(),
        x_lo <= x_hi < old(map).width,
        y < old(map).height,
    ensures
        final(map).wf(),
        final(map).tiles@.len() == old(map).tiles@.len(),
        painted(old(map)@, final(map)@, x_lo as int, x_hi as int, y as int, y as int, kind),
{
    let mut x = x_lo;
    while x <= x_hi
        invariant
            map.wf(),
            map.tiles@.len() == old(map).tiles@.len(),
            x_hi < map.width,
            y < map.height,
            x_lo <= x <= x_hi + 1,
            painted(old(map)@, map@, x_lo as int, x as int - 1, y as int, y as int, kind),
        decreases x_hi + 1 - x,
    {
        let ghost before = map@;
        proof {
            crate::grid::lemma_wf_has_slot(map@, x as int, y as int);
        }
        map.set(x, y, kind);
        proof {
            assert forall|a: int, b: int| map@.in_bounds(a, b) implies #[trigger] map@.cell(a, b)
                == if x_lo <= a <= x && y <= b <= y {
                kind
            } else {
                old(map)@.cell(a, b)
            } by {
                crate::grid::law_set_then_get(before, x as int, y as int, kind, kind, a, b);
                assert(map@.tile_at(a, b) == before.tile_at(a, b) || (a == x && b == y));
            }
        }
        x = x + 1;
    }
}

/// Paints the cells `(x, y)` for `y_lo <= y <= y_hi` in one column `x`.
fn paint_column(map: &mut MapGrid, x: usize, y_lo: usize, y_hi: usize, kind: TileKind)
    requires
        old(map).wf(),
        x < old(map).width,
        y_lo <= y_hi < old(map).height,
    ensures
        final(map).wf(),
        final(map).tiles@.len() == old(map).tiles@.len(),
        painted(old(map)@, final(map)@, x as int, x as int, y_lo as int, y_hi as int, kind),
{
    let mut y = y_lo;
    while y <= y_hi
        invariant
            map.wf(),
            map.tiles@.len() == old(map).tiles@.len(),
            x < map.width,
            y_hi < map.height,
            y_lo <= y <= y_hi + 1,
            painted(old(map)@, map@, x as int, x as int, y_lo as int, y as int - 1, kind),
        decreases y_hi + 1 - y,
    {
        let ghost before = map@;
        proof {
            crate::grid::lemma_wf_has_slot(map@, x as int, y as int);
        }
        map.set(x, y, kind);
        proof {
            assert forall|a: int, b: int| map@.in_bounds(a, b) implies #[trigger] map@.cell(a, b)
                == if x <= a <= x && y_lo <= b <= y {
                kind
            } else {
                old(map)@.cell(a, b)
            } by {
                crate::grid::law_set_then_get(before, x as int, y as int, kind, kind, a, b);
                assert(map@.tile_at(a, b) == before.tile_at(a, b) || (a == x && b == y));
            }
        }
        y = y + 1;
    }
}

/// Builds the default 12 x 12 map with a winding enemy path from the spawn at
/// `(0, 0)` to the base at `(9, 11)`.
pub fn create_default_map() -> (map: MapGrid)
    ensures
        map.wf(),
        map.width == 12,
        map.height == 12,
        map.tiles@.len() == 144,
        forall|x: int, y: int|
            map@.in_bounds(x, y) ==> #[trigger] map@.cell(x, y) == default_tile(x, y),
{
    let mut map = MapGrid::new(12, 12);
    let ghost g0 = map@;
    // Spawn at (0, 0)
    paint_row(&mut map, 0, 0, 0, TileKind::Spawn);
    let ghost g1 = map@;
    // Path across the top
    paint_row(&mut map, 0, 1, 5, TileKind::Path);
    let ghost g2 = map@;
    // Path down the right side
    paint_column(&mut map, 5, 1, 4, TileKind::Path);
    let ghost g3 = map@;
    // Path back to the left
    paint_row(&mut map, 4, 2, 4, TileKind::Path);
    let ghost g4 = map@;
    // Path down
    paint_column(&mut map, 2, 5, 8, TileKind::Path);
    let ghost g5 = map@;
    // Path to the right
    paint_row(&mut map, 8, 3, 9, TileKind::Path);
    let ghost g6 = map@;
    // Path down to the base
    paint_column(&mut map, 9, 9, 10, TileKind::Path);
    let ghost g7 = map@;
    // Base at (9, 11)
    paint_row(&mut map, 11, 9, 9, TileKind::Base);
    let ghost g8 = map@;
    // Some blocked tiles for variety
    paint_row(&mut map, 2, 3, 4, TileKind::Blocked);
    let ghost g9 = map@;
    paint_row(&mut map, 5, 7, 8, TileKind::Blocked);
    proof {
        assert forall|x: int, y: int| map@.in_bounds(x, y) implies #[trigger] map@.cell(x, y)
            == default_tile(x, y) by {
            assert(g9.cell(x, y) == g8.cell(x, y) || (y == 2 && 3 <= x <= 4));
            assert(g8.cell(x, y) == g7.cell(x, y) || (y == 11 && x == 9));
            assert(g7.cell(x, y) == g6.cell(x, y) || (x == 9 && 9 <= y <= 10));
            assert(g6.cell(x, y) == g5.cell(x, y) || (y == 8 && 3 <= x <= 9));
            assert(g5.cell(x, y) == g4.cell(x, y) || (x == 2 && 5 <= y <= 8));
            assert(g4.cell(x, y) == g3.cell(x, y) || (y == 4 && 2 <= x <= 4));
            assert(g3.cell(x, y) == g2.cell(x, y) || (x == 5 && 1 <= y <= 4));
            assert(g2.cell(x, y) == g1.cell(x, y) || (y == 0 && 1 <= x <= 5));
            assert(g1.cell(x, y) == g0.cell(x, y) || (y == 0 && x == 0));
            assert(g0.cell(x, y) == TileKind::Buildable);
        }
    }
    map
}

} // verus!

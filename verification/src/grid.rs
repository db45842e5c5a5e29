use vstd::prelude::*;

verus! {

/// Tile variants on the grid map.
#[derive(Debug, Clone, Copy, PartialEq, Eq, Hash, Structural)]
pub enum TileKind {
    /// Can place towers here.
    Buildable,
    /// Enemy path.
    Path,
    /// Blocked / impassable.
    Blocked,
    /// Spawn point for enemies.
    Spawn,
    /// The player base to defend.
    Base,
}

/// The grid-based map used for tower placement and enemy pathing, stored in
/// row-major order: the tile at `(x, y)` is `tiles[y * width + x]`.
#[derive(Debug, Clone)]
pub struct MapGrid {
    pub width: usize,
    pub height: usize,
    pub tiles: Vec<TileKind>,
}

/// The mathematical content of a map: its dimensions and its row-major tiles.
pub struct GridView {
    pub width: nat,
    pub height: nat,
    pub tiles: Seq<TileKind>,
}

impl View for MapGrid {
    type V = GridView;

    open spec fn view(&self) -> GridView {
        GridView { width: self.width as nat, height: self.height as nat, tiles: self.tiles@ }
    }
}

/// Distinct in-bounds coordinates occupy distinct row-major slots.
pub proof fn lemma_index_unique(w: int, x1: int, y1: int, x2: int, y2: int)
    requires
        0 <= x1 < w,
        0 <= x2 < w,
        0 <= y1,
        0 <= y2,
        y1 * w + x1 == y2 * w + x2,
    ensures
        x1 == x2,
        y1 == y2,
{
    if y1 < y2 {
        assert(y1 * w + w <= y2 * w) by (nonlinear_arith)
            requires
                y1 < y2,
                0 < w,
        ;
    } else if y2 < y1 {
        assert(y2 * w + w <= y1 * w) by (nonlinear_arith)
            requires
                y2 < y1,
                0 < w,
        ;
    }
}

/// An in-bounds coordinate has a row-major slot inside the tile vector.
pub proof fn lemma_index_in_range(w: int, h: int, x: int, y: int)
    requires
        0 <= x < w,
        0 <= y < h,
    ensures
        0 <= y * w + x < w * h,
        0 <= y * w <= y * w + x,
{
    assert(0 <= y * w + x < w * h && 0 <= y * w) by (nonlinear_arith)
        requires
            0 <= x < w,
            0 <= y < h,
    ;
}

impl GridView {
    /// Every cell has a tile (tiles past the last cell are never read).
    pub open spec fn wf(self) -> bool {
        self.width * self.height <= self.tiles.len()
    }

    /// The tile of `(x, y)` is present whenever `(x, y)` is on the map.
    pub open spec fn has_slot(self, x: int, y: int) -> bool {
        self.in_bounds(x, y) ==> self.index(x, y) < self.tiles.len()
    }

    /// The number of cells.
    pub open spec fn cell_count(self) -> nat {
        self.width * self.height
    }

    pub open spec fn in_bounds(self, x: int, y: int) -> bool {
        0 <= x < self.width && 0 <= y < self.height
    }

    /// The row-major slot of `(x, y)`.
    pub open spec fn index(self, x: int, y: int) -> int {
        y * self.width + x
    }

    /// The tile at `(x, y)`.
    pub open spec fn cell(self, x: int, y: int) -> TileKind {
        self.tiles[self.index(x, y)]
    }

    /// What a lookup of `(x, y)` answers: the tile, or nothing outside the map.
    pub open spec fn tile_at(self, x: int, y: int) -> Option<TileKind> {
        if self.in_bounds(x, y) {
            Some(self.cell(x, y))
        } else {
            None
        }
    }

    /// The map with the tile at `(x, y)` replaced, or unchanged outside the map.
    pub open spec fn with_tile(self, x: int, y: int, kind: TileKind) -> GridView {
        if self.in_bounds(x, y) {
            GridView { tiles: self.tiles.update(self.index(x, y), kind), ..self }
        } else {
            self
        }
    }

    /// The coordinates of the tiles of `kind` among the first `n` row-major
    /// slots, in row-major order.
    pub open spec fn cells_of_kind(self, kind: TileKind, n: nat) -> Seq<(usize, usize)>
        decreases n,
    {
        if n == 0 {
            Seq::empty()
        } else {
            let j = n - 1;
            let before = self.cells_of_kind(kind, j as nat);
            if self.tiles[j] == kind {
                before.push(((j % (self.width as int)) as usize, (j / (self.width as int)) as usize))
            } else {
                before
            }
        }
    }

    /// The enemy route: the spawn tiles, then the path tiles, then the base
    /// tiles, each group in row-major order.
    pub open spec fn route(self) -> Seq<(usize, usize)> {
        self.cells_of_kind(TileKind::Spawn, self.cell_count())
            + self.cells_of_kind(TileKind::Path, self.cell_count())
            + self.cells_of_kind(TileKind::Base, self.cell_count())
    }
}

/// On a well-formed map every cell has its tile.
pub proof fn lemma_wf_has_slot(g: GridView, x: int, y: int)
    requires
        g.wf(),
    ensures
        g.has_slot(x, y),
{
    if g.in_bounds(x, y) {
        lemma_index_in_range(g.width as int, g.height as int, x, y);
    }
}

/// Writing a tile and reading it back gives the tile written; every other
/// cell reads as before; a write outside the map changes nothing; of two
/// writes to one cell the later one wins.
pub proof fn law_set_then_get(
    g: GridView,
    x: int,
    y: int,
    kind: TileKind,
    other: TileKind,
    a: int,
    b: int,
)
    requires
        g.wf(),
    ensures
        g.with_tile(x, y, kind).wf(),
        g.with_tile(x, y, kind).tile_at(x, y) == if g.in_bounds(x, y) {
            Some(kind)
        } else {
            None::<TileKind>
        },
        !(a == x && b == y) ==> g.with_tile(x, y, kind).tile_at(a, b) == g.tile_at(a, b),
        !g.in_bounds(x, y) ==> g.with_tile(x, y, kind) == g,
        g.with_tile(x, y, other).with_tile(x, y, kind) == g.with_tile(x, y, kind),
{
    if g.in_bounds(x, y) {
        lemma_index_in_range(g.width as int, g.height as int, x, y);
        if g.in_bounds(a, b) {
            lemma_index_in_range(g.width as int, g.height as int, a, b);
            if g.index(a, b) == g.index(x, y) {
                lemma_index_unique(g.width as int, a, b, x, y);
            }
        }
        assert(g.with_tile(x, y, other).with_tile(x, y, kind).tiles =~= g.with_tile(
            x,
            y,
            kind,
        ).tiles);
    }
}

impl MapGrid {
    /// The tile vector holds a tile for every cell.
    pub open spec fn wf(self) -> bool {
        &&& self@.wf()
        &&& self.width * self.height <= usize::MAX
    }

    /// A `width` x `height` map made only of buildable tiles.
    pub fn new(width: usize, height: usize) -> (m: Self)
        requires
            width * height <= usize::MAX,
        ensures
            m.wf(),
            m.tiles@.len() == width * height,
            m.width == width,
            m.height == height,
            forall|x: int, y: int| m@.in_bounds(x, y) ==> #[trigger] m@.cell(x, y) == TileKind::Buildable,
    {
        let n = width * height;
        let mut tiles: Vec<TileKind> = Vec::new();
        let mut i: usize = 0;
        while i < n
            invariant
                i <= n,
                tiles@.len() == i,
                forall|j: int| 0 <= j < i ==> #[trigger] tiles@[j] == TileKind::Buildable,
            decreases n - i,
        {
            tiles.push(TileKind::Buildable);
            i = i + 1;
        }
        let m = MapGrid { width, height, tiles };
        assert forall|x: int, y: int| m@.in_bounds(x, y) implies #[trigger] m@.cell(x, y)
            == TileKind::Buildable by {
            lemma_index_in_range(width as int, height as int, x, y);
        }
        m
    }

    /// The tile at `(x, y)`, or `None` outside the map.
    pub fn get(&self, x: usize, y: usize) -> (t: Option<TileKind>)
        requires
            self@.has_slot(x as int, y as int),
        ensures
            t == self@.tile_at(x as int, y as int),
    {
        if x < self.width && y < self.height {
            let n = self.tiles.len();
            proof {
                lemma_index_in_range(self.width as int, self.height as int, x as int, y as int);
                assert(y * self.width + x < n);
            }
            Some(self.tiles[y * self.width + x])
        } else {
            None
        }
    }

    /// Sets the tile at `(x, y)`; does nothing outside the map.
    pub fn set(&mut self, x: usize, y: usize, kind: TileKind)
        requires
            old(self)@.has_slot(x as int, y as int),
        ensures
            final(self).tiles@.len() == old(self).tiles@.len(),
            old(self).wf() ==> final(self).wf(),
            final(self)@ == old(self)@.with_tile(x as int, y as int, kind),
    {
        if x < self.width && y < self.height {
            let n = self.tiles.len();
            proof {
                lemma_index_in_range(self.width as int, self.height as int, x as int, y as int);
                assert(y * self.width + x < n);
            }
            let i = y * self.width + x;
            self.tiles.set(i, kind);
        }
    }

    /// Appends the coordinates of every tile of `kind`, in row-major order.
    fn push_cells_of_kind(&self, kind: TileKind, path: &mut Vec<(usize, usize)>)
        requires
            self.wf(),
        ensures
            final(path)@ == old(path)@ + self@.cells_of_kind(kind, self@.cell_count()),
    {
        let n = self.width * self.height;
        let mut j: usize = 0;
        while j < n
            invariant
                self.wf(),
                n == self@.cell_count(),
                j <= n,
                path@ == old(path)@ + self@.cells_of_kind(kind, j as nat),
            decreases n - j,
        {
            assert(self.width != 0) by (nonlinear_arith)
                requires
                    j < n,
                    n == self.width * self.height,
            ;
            if self.tiles[j] == kind {
                path.push((j % self.width, j / self.width));
            }
            assert(self@.cells_of_kind(kind, (j + 1) as nat) == if self@.tiles[j as int] == kind {
                self@.cells_of_kind(kind, j as nat).push(
                    ((j % self.width) as usize, (j / self.width) as usize),
                )
            } else {
                self@.cells_of_kind(kind, j as nat)
            });
            j = j + 1;
        }
    }

    /// The route enemies follow, as grid coordinates: the spawn tiles, then
    /// the path tiles, then the base tiles, each group in row-major order.
    pub fn build_path(&self) -> (path: Vec<(usize, usize)>)
        requires
            self.wf(),
        ensures
            path@ == self@.route(),
    {
        let mut path: Vec<(usize, usize)> = Vec::new();
        self.push_cells_of_kind(TileKind::Spawn, &mut path);
        self.push_cells_of_kind(TileKind::Path, &mut path);
        self.push_cells_of_kind(TileKind::Base, &mut path);
        assert(path@ == self@.route());
        path
    }
}

} // verus!

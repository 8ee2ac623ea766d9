//! The tile grid of a level and the classification of its cells.

use vstd::prelude::*;

verus! {

/// Largest number of tiles that a level may have along one axis: 262144
/// pixels.
pub const LEVEL_MAX_TILES: u32 = 0x8000;

/// What a tile does to an entity that overlaps it.
#[derive(Clone, Copy, Debug, PartialEq, Eq, Structural)]
pub enum TileProperty {
    /// Entities move through the tile.
    Passable,
    /// The tile blocks movement.
    Solid,
    /// The tile kills the wizard.
    Lethal,
    /// The tile completes the level.
    Goal,
}

/// The immutable description of one level.
#[derive(Debug)]
pub struct Level {
    /// Tile indices of the background layer, row by row.
    pub background: Vec<u16>,
    /// Tile indices of the foreground layer, row by row.
    pub foreground: Vec<u16>,
    /// Number of tiles in a row.
    pub width: u32,
    /// Number of rows.
    pub height: u32,
    /// Property of each tile index.
    pub collision: Vec<TileProperty>,
    /// Where the slimes start, in pixels.
    pub slimes: Vec<(i32, i32)>,
    /// Where the wizard starts, in pixels.
    pub start_pos: (i32, i32),
}

/// Every tile index of `tiles` has an entry in a table of `entries` entries.
pub open spec fn tiles_classified(tiles: Seq<u16>, entries: int) -> bool {
    forall|i: int| 0 <= i < tiles.len() ==> (#[trigger] tiles[i]) < entries
}

/// Largest pixel coordinate of a spawn point. It is the right edge of the
/// widest level.
pub const PIXEL_LIMIT: i32 = 0x4_0000;

/// A pixel coordinate at which an entity can start.
pub open spec fn pixel_in_range(p: int) -> bool {
    -PIXEL_LIMIT <= p <= PIXEL_LIMIT
}

/// Every spawn point of `points` has coordinates at which an entity can
/// start.
pub open spec fn spawns_in_range(points: Seq<(i32, i32)>) -> bool {
    forall|i: int|
        0 <= i < points.len() ==> pixel_in_range((#[trigger] points[i]).0 as int)
            && pixel_in_range(points[i].1 as int)
}

impl Level {
    /// The layers cover the grid, every tile index is classified, and all
    /// coordinates are in range.
    pub open spec fn wf(&self) -> bool {
        &&& 0 < self.width <= LEVEL_MAX_TILES
        &&& 0 < self.height <= LEVEL_MAX_TILES
        &&& self.foreground@.len() == self.width * self.height
        &&& self.background@.len() == self.width * self.height
        &&& tiles_classified(self.foreground@, self.collision@.len() as int)
        &&& tiles_classified(self.background@, self.collision@.len() as int)
        &&& spawns_in_range(self.slimes@)
        &&& pixel_in_range(self.start_pos.0 as int)
        &&& pixel_in_range(self.start_pos.1 as int)
    }

    /// The level is at least as large as the screen of 240 by 160 pixels.
    pub open spec fn covers_screen(&self) -> bool {
        self.width >= 30 && self.height >= 20
    }

    /// The cell `(x, y)` lies inside the grid.
    pub open spec fn in_bounds(&self, x: int, y: int) -> bool {
        0 <= x < self.width && 0 <= y < self.height
    }

    /// Property of the foreground tile of a cell inside the grid.
    pub open spec fn foreground_property(&self, x: int, y: int) -> TileProperty {
        self.collision@[self.foreground@[self.width * y + x] as int]
    }

    /// Property of the background tile of a cell inside the grid.
    pub open spec fn background_property(&self, x: int, y: int) -> TileProperty {
        self.collision@[self.background@[self.width * y + x] as int]
    }

    /// Whether the cell `(x, y)` has the property `tile`. A cell outside the
    /// grid is solid and nothing else; a cell inside has the properties of
    /// its foreground tile and of its background tile.
    pub open spec fn has_property(&self, x: int, y: int, tile: TileProperty) -> bool {
        if self.in_bounds(x, y) {
            self.foreground_property(x, y) == tile || self.background_property(x, y) == tile
        } else {
            tile == TileProperty::Solid
        }
    }

    /// Builds a level from its tables, or returns `None` where they do not
    /// fit together.
    pub fn new(
        background: Vec<u16>,
        foreground: Vec<u16>,
        width: u32,
        height: u32,
        collision: Vec<TileProperty>,
        slimes: Vec<(i32, i32)>,
        start_pos: (i32, i32),
    ) -> (r: Option<Level>)
        ensures
            r is Some <==> (Level {
                background,
                foreground,
                width,
                height,
                collision,
                slimes,
                start_pos,
            }).wf(),
            r matches Some(level) ==> level == (Level {
                background,
                foreground,
                width,
                height,
                collision,
                slimes,
                start_pos,
            }),
    {
        if width == 0 || width > LEVEL_MAX_TILES || height == 0 || height > LEVEL_MAX_TILES {
            return None;
        }
        assert(width * height <= 0x8000 * 0x8000) by (nonlinear_arith)
            requires
                0 < width <= 0x8000,
                0 < height <= 0x8000,
        ;
        let cells: u64 = width as u64 * height as u64;
        if foreground.len() as u64 != cells || background.len() as u64 != cells {
            return None;
        }
        if !all_classified(&foreground, collision.len()) {
            return None;
        }
        if !all_classified(&background, collision.len()) {
            return None;
        }
        if !all_spawns_in_range(&slimes) {
            return None;
        }
        if !in_pixel_range(start_pos.0) || !in_pixel_range(start_pos.1) {
            return None;
        }
        Some(Level { background, foreground, width, height, collision, slimes, start_pos })
    }

    /// Whether the level is at least as large as the screen.
    pub fn fills_screen(&self) -> (r: bool)
        ensures
            r == self.covers_screen(),
    {
        self.width >= 30 && self.height >= 20
    }

    /// Whether the cell `(x, y)` has the property `tile`.
    pub fn at_point(&self, x: i32, y: i32, tile: TileProperty) -> (r: bool)
        requires
            self.wf(),
        ensures
            r == self.has_property(x as int, y as int, tile),
    {
        if x < 0 || y < 0 || x as u32 >= self.width || y as u32 >= self.height {
            return tile == TileProperty::Solid;
        }
        let cells: usize = self.foreground.len();
        proof {
            lemma_cell_index(self.width as int, self.height as int, x as int, y as int);
            assert(self.width * self.height == cells);
        }
        let row: usize = y as usize;
        let column: usize = x as usize;
        let pos: usize = self.width as usize * row + column;
        let tile_foreground = self.foreground[pos];
        let tile_background = self.background[pos];
        let foreground_tile_property = self.collision[tile_foreground as usize];
        let background_tile_property = self.collision[tile_background as usize];
        foreground_tile_property == tile || background_tile_property == tile
    }

    /// Whether the cell `(x, y)` blocks movement.
    pub fn collides(&self, x: i32, y: i32) -> (r: bool)
        requires
            self.wf(),
        ensures
            r == self.has_property(x as int, y as int, TileProperty::Solid),
    {
        self.at_point(x, y, TileProperty::Solid)
    }

    /// Whether the cell `(x, y)` kills the wizard.
    pub fn kills(&self, x: i32, y: i32) -> (r: bool)
        requires
            self.wf(),
        ensures
            r == self.has_property(x as int, y as int, TileProperty::Lethal),
    {
        self.at_point(x, y, TileProperty::Lethal)
    }

    /// Whether the cell `(x, y)` completes the level.
    pub fn wins(&self, x: i32, y: i32) -> (r: bool)
        requires
            self.wf(),
        ensures
            r == self.has_property(x as int, y as int, TileProperty::Goal),
    {
        self.at_point(x, y, TileProperty::Goal)
    }
}

/// The row-major index of a cell inside the grid is an index of the layers.
pub proof fn lemma_cell_index(width: int, height: int, x: int, y: int)
    requires
        0 <= x < width,
        0 <= y < height,
    ensures
        0 <= width * y,
        0 <= width * y + x < width * height,
{
    assert(width * y >= 0) by (nonlinear_arith)
        requires
            width > 0,
            y >= 0,
    ;
    assert(width * y + width <= width * height) by (nonlinear_arith)
        requires
            width > 0,
            0 <= y < height,
    ;
}

/// Whether an entity can start at the pixel coordinate `p`.
pub fn in_pixel_range(p: i32) -> (r: bool)
    ensures
        r == pixel_in_range(p as int),
{
    -PIXEL_LIMIT <= p && p <= PIXEL_LIMIT
}

/// Whether every tile index of `tiles` has an entry in a table of `entries`
/// entries.
pub fn all_classified(tiles: &Vec<u16>, entries: usize) -> (r: bool)
    ensures
        r == tiles_classified(tiles@, entries as int),
{
    let mut i: usize = 0;
    while i < tiles.len()
        invariant
            0 <= i <= tiles.len(),
            forall|j: int| 0 <= j < i ==> (#[trigger] tiles@[j]) < entries,
        decreases tiles.len() - i,
    {
        if tiles[i] as usize >= entries {
            return false;
        }
        i += 1;
    }
    true
}

/// Whether every spawn point of `points` has coordinates at which an entity
/// can start.
pub fn all_spawns_in_range(points: &Vec<(i32, i32)>) -> (r: bool)
    ensures
        r == spawns_in_range(points@),
{
    let mut i: usize = 0;
    while i < points.len()
        invariant
            0 <= i <= points.len(),
            forall|j: int|
                0 <= j < i ==> pixel_in_range((#[trigger] points@[j]).0 as int) && pixel_in_range(
                    points@[j].1 as int,
                ),
        decreases points.len() - i,
    {
        let point = points[i];
        if !in_pixel_range(point.0) || !in_pixel_range(point.1) {
            return false;
        }
        i += 1;
    }
    true
}

} // verus!

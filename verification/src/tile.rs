//! Utilities related to creating a tilemap.

use vstd::prelude::*;

use crate::camera::Camera;
use crate::error::CtraitError;
use crate::error::CtraitResult;
use crate::math::Vec2;
use crate::rect::Color;
use crate::rect::Rect;
use crate::sprite::Sprite;
use crate::traits::RenderSink;
use crate::traits::Renderable;

verus! {

/// 2-D layout for a [`Tilemap`]: one optional tile-set index per cell,
/// stored row-major in `ROWS` rows of `COLUMNS` cells.
#[derive(Debug, PartialEq, Eq, Clone)]
pub struct TilemapLayout<const ROWS: usize, const COLUMNS: usize>(pub Vec<Option<usize>>);

impl<const ROWS: usize, const COLUMNS: usize> TilemapLayout<ROWS, COLUMNS> {
    /// The layout has exactly one cell per grid position.
    pub open spec fn wf(self) -> bool {
        self.0@.len() == ROWS * COLUMNS
    }

    /// Create a new layout from the given slice, which must hold exactly
    /// `ROWS * COLUMNS` cells.
    pub fn new(layout: &[Option<usize>]) -> (r: CtraitResult<Self>)
        ensures
            r is Ok <==> layout@.len() == ROWS * COLUMNS,
            r is Ok ==> r.unwrap().0@ == layout@ && r.unwrap().wf(),
            r is Err ==> r.unwrap_err() is Other,
    {
        let given = layout.len();
        let expected = match ROWS.checked_mul(COLUMNS) {
            Some(n) => n,
            None => {
                return Err(
                    CtraitError::Other(
                        "layout length must equal the number of grid cells".to_owned(),
                    ),
                );
            },
        };
        if given != expected {
            return Err(
                CtraitError::Other("layout length must equal the number of grid cells".to_owned()),
            );
        }
        let mut cells: Vec<Option<usize>> = Vec::new();
        let mut i: usize = 0;
        while i < expected
            invariant
                expected == layout@.len(),
                i <= expected,
                cells@ == layout@.subrange(0, i as int),
            decreases expected - i,
        {
            cells.push(layout[i]);
            proof {
                assert(layout@.subrange(0, i as int + 1) =~= layout@.subrange(0, i as int).push(
                    layout@[i as int],
                ));
            }
            i += 1;
        }
        proof {
            assert(layout@.subrange(0, expected as int) =~= layout@);
        }
        Ok(TilemapLayout(cells))
    }

    /// The cell at `(row, column)`: the tile-set index it holds, or `None`
    /// for an empty cell. Positions outside the grid read as empty.
    pub fn get(&self, row: usize, column: usize) -> (cell: Option<usize>)
        ensures
            (row < ROWS && column < COLUMNS && row * COLUMNS + column < self.0@.len()) ==> cell
                == self.0@[row as int * COLUMNS + column],
            !(row < ROWS && column < COLUMNS && row * COLUMNS + column < self.0@.len()) ==> cell
                is None,
    {
        let len = self.0.len();
        if row >= ROWS || column >= COLUMNS {
            return None;
        }
        let index = match row.checked_mul(COLUMNS) {
            Some(base) => match base.checked_add(column) {
                Some(i) => i,
                None => {
                    return None;
                },
            },
            None => {
                return None;
            },
        };
        if index < len {
            self.0[index]
        } else {
            None
        }
    }

    /// Write the cell at `(row, column)`. Positions outside the grid are
    /// left unchanged.
    pub fn set(&mut self, row: usize, column: usize, cell: Option<usize>)
        ensures
            (row < ROWS && column < COLUMNS && row * COLUMNS + column < old(self).0@.len())
                ==> final(self).0@ == old(self).0@.update(row as int * COLUMNS + column, cell),
            !(row < ROWS && column < COLUMNS && row * COLUMNS + column < old(self).0@.len())
                ==> *final(self) == *old(self),
    {
        let len = self.0.len();
        if row >= ROWS || column >= COLUMNS {
            return ;
        }
        let index = match row.checked_mul(COLUMNS) {
            Some(base) => match base.checked_add(column) {
                Some(i) => i,
                None => {
                    return ;
                },
            },
            None => {
                return ;
            },
        };
        if index < len {
            self.0[index] = cell;
        }
    }
}

impl<const ROWS: usize, const COLUMNS: usize> Default for TilemapLayout<ROWS, COLUMNS> {
    /// A layout of `ROWS * COLUMNS` empty cells.
    fn default() -> (layout: Self)
        ensures
            ROWS * COLUMNS <= usize::MAX ==> {
                &&& layout.wf()
                &&& forall|i: int| 0 <= i < layout.0@.len() ==> (#[trigger] layout.0@[i]) is None
            },
    {
        let n = match ROWS.checked_mul(COLUMNS) {
            Some(n) => n,
            None => 0,
        };
        let mut cells: Vec<Option<usize>> = Vec::new();
        let mut i: usize = 0;
        while i < n
            invariant
                i <= n,
                cells@.len() == i,
                forall|j: int| 0 <= j < cells@.len() ==> (#[trigger] cells@[j]) is None,
            decreases n - i,
        {
            cells.push(None);
            i += 1;
        }
        TilemapLayout(cells)
    }
}

/// Possible tile types: each tile in a [`Tilemap`] is either a textured
/// sprite or a colored square.
#[derive(Debug, Clone, PartialEq)]
pub enum Tile {
    /// A sprite tile, holding the path to its texture.
    Sprite(String),
    /// A colored square tile.
    Color(Color),
}

/// A 2-D tilemap: a tile set, a layout of indices into it, a world
/// position of the tilemap's center, and the square size of each tile.
#[derive(Debug)]
pub struct Tilemap<const ROWS: usize, const COLUMNS: usize> {
    /// Center world position of the tilemap.
    pub position: Vec2,
    /// Layout of the tilemap: each cell optionally holds an index into the
    /// tile set.
    pub layout: TilemapLayout<ROWS, COLUMNS>,
    /// The tiles the layout's indices refer to.
    pub tile_set: Vec<Tile>,
    /// Width and height of each rendered tile, in world units.
    pub tile_size: i64,
}

impl<const ROWS: usize, const COLUMNS: usize> Tilemap<ROWS, COLUMNS> {
    /// Create a new tilemap with a tile set and the size of each tile;
    /// the layout starts empty and the position at the origin.
    pub fn new(set: Vec<Tile>, tile_size: i64) -> (t: Self)
        ensures
            t.position == (Vec2 { x: 0, y: 0 }),
            t.tile_set@ == set@,
            t.tile_size == tile_size,
            ROWS * COLUMNS <= usize::MAX ==> {
                &&& t.layout.wf()
                &&& forall|i: int|
                    0 <= i < t.layout.0@.len() ==> (#[trigger] t.layout.0@[i]) is None
            },
    {
        Tilemap {
            position: Vec2 { x: 0, y: 0 },
            layout: TilemapLayout::default(),
            tile_set: set,
            tile_size,
        }
    }

    /// The same tilemap with the given center world position.
    pub fn with_position(self, position: &Vec2) -> (t: Self)
        ensures
            t.position == *position,
            t.layout == self.layout,
            t.tile_set@ == self.tile_set@,
            t.tile_size == self.tile_size,
    {
        Tilemap { position: *position, ..self }
    }

    /// The same tilemap with the given layout.
    pub fn with_layout(self, layout: TilemapLayout<ROWS, COLUMNS>) -> (t: Self)
        ensures
            t.position == self.position,
            t.layout == layout,
            t.tile_set@ == self.tile_set@,
            t.tile_size == self.tile_size,
    {
        Tilemap { layout, ..self }
    }
}

impl<const ROWS: usize, const COLUMNS: usize, S: RenderSink> Renderable<S> for Tilemap<
    ROWS,
    COLUMNS,
> {
    /// Draw every laid-out tile, row-major, offset so that the tilemap is
    /// centered on its world position. Cells that name no tile, name a
    /// missing tile-set entry, or place their tile beyond the coordinate
    /// range draw nothing.
    fn render(&self, camera: &Camera, sink: &mut S) {
        if self.tile_size < 0 {
            return ;
        }
        let ts = self.tile_size as i128;
        let half_w = match (COLUMNS as i128).checked_mul(ts) {
            Some(v) => {
                if v <= i64::MAX as i128 {
                    v / 2
                } else {
                    return ;
                }
            },
            None => {
                return ;
            },
        };
        let half_h = match (ROWS as i128).checked_mul(ts) {
            Some(v) => {
                if v <= i64::MAX as i128 {
                    v / 2
                } else {
                    return ;
                }
            },
            None => {
                return ;
            },
        };
        let mut row: usize = 0;
        while row < ROWS
            invariant
                self.tile_size >= 0,
                ts == self.tile_size as int,
                0 <= half_w <= i64::MAX,
                0 <= half_h <= i64::MAX,
                (COLUMNS as int) * ts <= i64::MAX,
                (ROWS as int) * ts <= i64::MAX,
            decreases ROWS - row,
        {
            let mut column: usize = 0;
            while column < COLUMNS
                invariant
                    row < ROWS,
                    self.tile_size >= 0,
                    ts == self.tile_size as int,
                    0 <= half_w <= i64::MAX,
                    0 <= half_h <= i64::MAX,
                    (COLUMNS as int) * ts <= i64::MAX,
                    (ROWS as int) * ts <= i64::MAX,
                decreases COLUMNS - column,
            {
                if let Some(index) = self.layout.get(row, column) {
                    if index < self.tile_set.len() {
                        proof {
                            assert((column as int) * ts <= (COLUMNS as int) * ts && 0 <= (
                            column as int) * ts) by (nonlinear_arith)
                                requires
                                    0 <= column as int <= COLUMNS as int,
                                    0 <= ts,
                            ;
                            assert((row as int) * ts <= (ROWS as int) * ts && 0 <= (row as int)
                                * ts) by (nonlinear_arith)
                                requires
                                    0 <= row as int <= ROWS as int,
                                    0 <= ts,
                            ;
                        }
                        let x = (column as i128) * ts - half_w + (self.position.x as i128);
                        let y = (row as i128) * ts - half_h + (self.position.y as i128);
                        if x >= i64::MIN as i128 && x <= i64::MAX as i128 && y >= i64::MIN as i128
                            && y <= i64::MAX as i128 {
                            let rect = Rect::new(x as i64, y as i64, self.tile_size, self.tile_size);
                            match &self.tile_set[index] {
                                Tile::Sprite(path) => {
                                    let sprite = Sprite::new(path.as_str(), &rect);
                                    sprite.render(camera, sink);
                                },
                                Tile::Color(color) => {
                                    let colored = rect.with_color(color);
                                    colored.render(camera, sink);
                                },
                            }
                        }
                    }
                }
                column += 1;
            }
            row += 1;
        }
    }
}

} // verus!

//! The bounded coordinate space: cells, the size of the board and its walls.

use crate::direction::Direction;
use vstd::prelude::*;

verus! {

/// A cell of the grid, or a place outside of it: the type itself knows no bounds.
#[derive(Clone, Copy, PartialEq, Eq, PartialOrd, Ord, Debug, Structural)]
pub struct GridPosition {
    pub x: i32,
    pub y: i32,
}

/// The extent of the board: the cells `(x, y)` with `0 <= x < width` and `0 <= y < height`.
#[derive(Clone, Copy, PartialEq, Eq, PartialOrd, Ord, Debug, Structural)]
pub struct GridSize {
    pub width: u32,
    pub height: u32,
}

/// An axis-aligned rectangle of wall cells, both corners included. A range whose
/// `from` lies beyond its `to` on either axis is empty.
#[derive(Clone, Copy, PartialEq, Eq, Debug)]
pub struct WallRange {
    pub from: [i32; 2],
    pub to: [i32; 2],
}

/// The static geometry of a level.
#[derive(Clone, PartialEq, Eq, Debug)]
pub struct Grid {
    pub size: GridSize,
    pub walls: Vec<WallRange>,
}

/// What a grid is to the rules: its extent and the set of cells that walls fill.
pub struct GridView {
    pub size: GridSize,
    pub blockers: Set<GridPosition>,
}

/// The cells that a list of wall ranges fills.
pub open spec fn wall_cells(walls: Seq<WallRange>) -> Set<GridPosition> {
    Set::new(|p: GridPosition| exists|i: int| 0 <= i < walls.len() && #[trigger] walls[i].covers(p))
}

impl GridPosition {
    /// The neighbouring cell one step in `direction`, where its coordinates can be
    /// represented at all.
    pub open spec fn stepped(self, direction: Direction) -> Option<GridPosition> {
        let x = self.x + direction.step().0;
        let y = self.y + direction.step().1;
        if i32::MIN <= x <= i32::MAX && i32::MIN <= y <= i32::MAX {
            Some(GridPosition { x: x as i32, y: y as i32 })
        } else {
            None
        }
    }

    pub fn new(x: i32, y: i32) -> (r: GridPosition)
        ensures
            r == (GridPosition { x, y }),
    {
        GridPosition { x, y }
    }

    /// The neighbouring cell one step in `direction`.
    pub fn apply_direction(&self, direction: Direction) -> (r: GridPosition)
        requires
            self.stepped(direction) is Some,
        ensures
            Some(r) == self.stepped(direction),
            r.x == self.x + direction.step().0,
            r.y == self.y + direction.step().1,
    {
        let (dx, dy) = direction.delta();
        GridPosition { x: self.x + dx, y: self.y + dy }
    }

    /// The neighbouring cell one step in `direction`, or `None` at the edge of the
    /// representable coordinates.
    pub fn checked_apply_direction(&self, direction: Direction) -> (r: Option<GridPosition>)
        ensures
            r == self.stepped(direction),
    {
        let (dx, dy) = direction.delta();
        match (self.x.checked_add(dx), self.y.checked_add(dy)) {
            (Some(x), Some(y)) => Some(GridPosition { x, y }),
            _ => None,
        }
    }
}

impl GridSize {
    /// Whether `p` is a cell of a board of this size.
    pub open spec fn in_bounds(self, p: GridPosition) -> bool {
        0 <= p.x < self.width && 0 <= p.y < self.height
    }

    /// The number of cells of the board.
    pub open spec fn cell_count(self) -> nat {
        (self.width * self.height) as nat
    }

    pub fn new(width: u32, height: u32) -> (r: GridSize)
        ensures
            r == (GridSize { width, height }),
    {
        GridSize { width, height }
    }

    pub fn new_square(size: u32) -> (r: GridSize)
        ensures
            r == (GridSize { width: size, height: size }),
    {
        GridSize::new(size, size)
    }

    /// Whether `p` is a cell of a board of this size.
    pub fn contains(&self, p: GridPosition) -> (r: bool)
        ensures
            r == self.in_bounds(p),
    {
        p.x >= 0 && (p.x as u32) < self.width && p.y >= 0 && (p.y as u32) < self.height
    }

    /// The cells of the board, column by column from the left and upwards within a
    /// column.
    pub open spec fn cell_seq(self) -> Seq<GridPosition> {
        Seq::new(
            self.cell_count(),
            |k: int|
                GridPosition {
                    x: (k / (self.height as int)) as i32,
                    y: (k % (self.height as int)) as i32,
                },
        )
    }

    /// Lists the cells of the board, column by column from the left and upwards within
    /// a column. Every cell must have coordinates, so neither side may be longer than
    /// the coordinates reach.
    pub fn cells(&self) -> (r: Vec<GridPosition>)
        requires
            self.width <= 0x8000_0000,
            self.height <= 0x8000_0000,
            self.cell_count() <= usize::MAX,
        ensures
            r@ == self.cell_seq(),
            forall|p: GridPosition| r@.contains(p) <==> self.in_bounds(p),
    {
        let right = (self.width as i64 - 1) as i32;
        let top = (self.height as i64 - 1) as i32;
        let board = WallRange { from: [0, 0], to: [right, top] };
        assert(board.columns() == self.width && board.rows() == self.height);
        assert(forall|p: GridPosition| board.covers(p) <==> self.in_bounds(p));
        let r = board.cells();
        assert(r@ =~= self.cell_seq());
        r
    }
}

impl WallRange {
    /// Whether the range fills the cell `p`.
    pub open spec fn covers(self, p: GridPosition) -> bool {
        self.from[0] <= p.x <= self.to[0] && self.from[1] <= p.y <= self.to[1]
    }

    /// How many columns of cells the range spans.
    pub open spec fn columns(self) -> nat {
        if self.from[0] <= self.to[0] {
            (self.to[0] - self.from[0] + 1) as nat
        } else {
            0
        }
    }

    /// How many rows of cells the range spans.
    pub open spec fn rows(self) -> nat {
        if self.from[1] <= self.to[1] {
            (self.to[1] - self.from[1] + 1) as nat
        } else {
            0
        }
    }

    /// The cells of the range, column by column from the left and upwards within a
    /// column.
    pub open spec fn cell_seq(self) -> Seq<GridPosition> {
        Seq::new(
            self.columns() * self.rows(),
            |k: int|
                GridPosition {
                    x: (self.from[0] + k / (self.rows() as int)) as i32,
                    y: (self.from[1] + k % (self.rows() as int)) as i32,
                },
        )
    }

    /// Lists the cells of the range, column by column from the left and upwards within
    /// a column. The list holds exactly the cells that the range fills.
    pub fn cells(&self) -> (r: Vec<GridPosition>)
        requires
            self.columns() * self.rows() <= usize::MAX,
        ensures
            r@ == self.cell_seq(),
            forall|p: GridPosition| r@.contains(p) <==> self.covers(p),
    {
        let mut out: Vec<GridPosition> = Vec::new();
        let ghost rows = self.rows() as int;
        let ghost cols = self.columns() as int;
        let x0 = self.from[0] as i64;
        let y0 = self.from[1] as i64;
        let x1 = self.to[0] as i64;
        let y1 = self.to[1] as i64;
        if x0 <= x1 && y0 <= y1 {
            let mut x: i64 = x0;
            while x <= x1
                invariant
                    x0 <= x <= x1 + 1,
                    y0 <= y1,
                    x0 == self.from[0],
                    y0 == self.from[1],
                    x1 == self.to[0],
                    y1 == self.to[1],
                    rows == self.rows() == y1 - y0 + 1,
                    cols == self.columns() == x1 - x0 + 1,
                    out@.len() == (x - x0) * rows,
                    forall|k: int| 0 <= k < out@.len() ==> out@[k] == self.cell_seq()[k],
                decreases x1 + 1 - x,
            {
                let mut y: i64 = y0;
                while y <= y1
                    invariant
                        x0 <= x <= x1,
                        y0 <= y <= y1 + 1,
                        x0 == self.from[0],
                        y0 == self.from[1],
                        x1 == self.to[0],
                        y1 == self.to[1],
                        rows == self.rows() == y1 - y0 + 1,
                        cols == self.columns() == x1 - x0 + 1,
                        out@.len() == (x - x0) * rows + (y - y0),
                        forall|k: int| 0 <= k < out@.len() ==> out@[k] == self.cell_seq()[k],
                    decreases y1 + 1 - y,
                {
                    proof {
                        let k = (x - x0) * rows + (y - y0);
                        vstd::arithmetic::div_mod::lemma_fundamental_div_mod_converse(
                            k,
                            rows,
                            x - x0,
                            y - y0,
                        );
                        assert((x - x0) * rows + rows <= cols * rows) by (nonlinear_arith)
                            requires
                                x - x0 + 1 <= cols,
                                rows >= 0,
                        ;
                    }
                    out.push(GridPosition { x: x as i32, y: y as i32 });
                    y += 1;
                }
                assert((x - x0) * rows + rows == (x + 1 - x0) * rows) by (nonlinear_arith);
                x += 1;
            }
            assert(out@.len() == cols * rows);
        } else {
            assert(self.columns() * self.rows() == 0) by (nonlinear_arith)
                requires
                    self.columns() == 0 || self.rows() == 0,
            ;
        }
        assert(out@ =~= self.cell_seq());
        proof {
            self.cell_seq_fills_the_range();
        }
        out
    }

    /// The listed cells are exactly the cells that the range fills.
    pub proof fn cell_seq_fills_the_range(self)
        ensures
            forall|p: GridPosition| self.cell_seq().contains(p) <==> self.covers(p),
    {
        let rows = self.rows() as int;
        let cols = self.columns() as int;
        assert forall|p: GridPosition| self.cell_seq().contains(p) implies self.covers(p) by {
            let k = choose|k: int| 0 <= k < self.cell_seq().len() && self.cell_seq()[k] == p;
            assert(rows > 0 && cols > 0) by (nonlinear_arith)
                requires
                    0 <= k < cols * rows,
                    rows >= 0,
                    cols >= 0,
            ;
            vstd::arithmetic::div_mod::lemma_fundamental_div_mod(k, rows);
            vstd::arithmetic::div_mod::lemma_mod_bound(k, rows);
            assert(0 <= k / rows < cols) by (nonlinear_arith)
                requires
                    0 <= k < cols * rows,
                    rows > 0,
                    k == rows * (k / rows) + k % rows,
                    0 <= k % rows < rows,
            ;
        }
        assert forall|p: GridPosition| self.covers(p) implies self.cell_seq().contains(p) by {
            let a = p.x - self.from[0];
            let b = p.y - self.from[1];
            let k = a * rows + b;
            vstd::arithmetic::div_mod::lemma_fundamental_div_mod_converse(k, rows, a, b);
            assert(0 <= k < cols * rows) by (nonlinear_arith)
                requires
                    k == a * rows + b,
                    0 <= a < cols,
                    0 <= b < rows,
            ;
            assert(self.cell_seq()[k] == p);
        }
    }

    /// Whether the range fills the cell `p`.
    pub fn contains(&self, p: GridPosition) -> (r: bool)
        ensures
            r == self.covers(p),
    {
        self.from[0] <= p.x && p.x <= self.to[0] && self.from[1] <= p.y && p.y <= self.to[1]
    }
}

impl View for Grid {
    type V = GridView;

    open spec fn view(&self) -> GridView {
        GridView { size: self.size, blockers: wall_cells(self.walls@) }
    }
}

impl Grid {
    pub fn new(size: GridSize, walls: Vec<WallRange>) -> (r: Grid)
        ensures
            r.size == size,
            r.walls == walls,
    {
        Grid { size, walls }
    }

    /// Whether a wall fills the cell `p`.
    pub fn is_blocked(&self, p: GridPosition) -> (r: bool)
        ensures
            r == self@.blockers.contains(p),
    {
        let mut i: usize = 0;
        while i < self.walls.len()
            invariant
                i <= self.walls.len(),
                forall|j: int| 0 <= j < i ==> !(#[trigger] self.walls@[j]).covers(p),
            decreases self.walls.len() - i,
        {
            if self.walls[i].contains(p) {
                return true;
            }
            i += 1;
        }
        false
    }
}

} // verus!

//! A fixed-size, bounds-checked 2D container of optional values.
use vstd::prelude::*;

verus! {

/// A cell address: column `x`, row `y`. Whether it is valid depends on the
/// grid it is used with.
#[derive(Copy, Clone, Debug, PartialEq, Eq, Hash, Structural)]
pub struct Coord {
    pub x: usize,
    pub y: usize,
}

impl From<&(usize, usize)> for Coord {
    fn from(input: &(usize, usize)) -> (r: Coord)
        ensures
            r == (Coord { x: input.0, y: input.1 }),
    {
        Coord { x: input.0, y: input.1 }
    }
}

impl vstd::std_specs::convert::FromSpecImpl<&(usize, usize)> for Coord {
    open spec fn obeys_from_spec() -> bool {
        true
    }

    open spec fn from_spec(input: &(usize, usize)) -> Coord {
        Coord { x: input.0, y: input.1 }
    }
}

/// A grid operation was given a coordinate outside `[0, width) x [0, height)`.
#[derive(Copy, Clone, Debug, PartialEq, Eq, Structural)]
pub enum GridError {
    OutOfBounds,
}

/// The abstract content of a grid: its dimensions and its slots in
/// row-major order (slot of `(x, y)` at `x + y * width`).
pub ghost struct GridView<T> {
    pub width: nat,
    pub height: nat,
    pub cells: Seq<Option<T>>,
}

impl<T> GridView<T> {
    pub open spec fn wf(self) -> bool {
        self.cells.len() == self.width * self.height
    }

    pub open spec fn contains(self, c: Coord) -> bool {
        c.x < self.width && c.y < self.height
    }

    pub open spec fn index_of(self, c: Coord) -> int {
        c.x + c.y * self.width
    }

    /// What the cell at `c` holds.
    pub open spec fn at(self, c: Coord) -> Option<T> {
        self.cells[self.index_of(c)]
    }

    /// The same grid with the cell at `c` set to `o`.
    pub open spec fn put(self, c: Coord, o: Option<T>) -> GridView<T> {
        GridView { cells: self.cells.update(self.index_of(c), o), ..self }
    }
}

/// Distinct valid coordinates have distinct row-major slots, and every
/// valid coordinate's slot lies inside the grid.
pub proof fn lemma_index_of<T>(g: GridView<T>, c: Coord, d: Coord)
    requires
        g.contains(c),
        g.contains(d),
    ensures
        0 <= g.index_of(c) < g.width * g.height,
        g.index_of(c) == g.index_of(d) ==> c == d,
{
    let w = g.width as int;
    let h = g.height as int;
    let (cx, cy, dx, dy) = (c.x as int, c.y as int, d.x as int, d.y as int);
    assert(0 <= cx + cy * w < w * h) by (nonlinear_arith)
        requires
            0 <= cx < w,
            0 <= cy < h,
    ;
    assert(cx + cy * w == dx + dy * w ==> cx == dx && cy == dy) by (nonlinear_arith)
        requires
            0 <= cx < w,
            0 <= dx < w,
            0 <= cy,
            0 <= dy,
    ;
}

/// After storing `v` in a valid cell, reading that cell gives `v` back.
pub proof fn add_then_get<T>(g: GridView<T>, c: Coord, v: T)
    requires
        g.wf(),
        g.contains(c),
    ensures
        g.put(c, Some(v)).wf(),
        g.put(c, Some(v)).at(c) == Some(v),
{
    lemma_index_of(g, c, c);
}

/// Writing one valid cell leaves every other cell as it was.
pub proof fn put_keeps_other_cells<T>(g: GridView<T>, c: Coord, o: Option<T>, d: Coord)
    requires
        g.wf(),
        g.contains(c),
        g.contains(d),
        c != d,
    ensures
        g.put(c, o).at(d) == g.at(d),
{
    lemma_index_of(g, c, d);
    lemma_index_of(g, d, c);
}

/// Removing from a cell that is already empty changes nothing, so the cell
/// stays empty.
pub proof fn remove_empty_cell<T>(g: GridView<T>, c: Coord)
    requires
        g.wf(),
        g.contains(c),
        g.at(c) is None,
    ensures
        g.put(c, None) == g,
        g.put(c, None).at(c) is None,
{
    lemma_index_of(g, c, c);
    assert(g.put(c, None).cells =~= g.cells);
}

/// A `width` by `height` array of optional values that never resizes.
#[derive(Debug)]
pub struct Grid<T> {
    tile_array: Vec<Option<T>>,
    width: usize,
    height: usize,
}

impl<T> View for Grid<T> {
    type V = GridView<T>;

    closed spec fn view(&self) -> GridView<T> {
        GridView { width: self.width as nat, height: self.height as nat, cells: self.tile_array@ }
    }
}

impl<T> Grid<T> {
    /// The slots fill the grid, and their count fits in a `usize`.
    pub open spec fn wf(&self) -> bool {
        &&& self@.wf()
        &&& self@.width * self@.height <= usize::MAX
    }

    /// An empty grid of the given size.
    pub fn new(width: usize, height: usize) -> (r: Grid<T>)
        requires
            width * height <= usize::MAX,
        ensures
            r.wf(),
            r@.wf(),
            r@.width == width,
            r@.height == height,
            forall|c: Coord| r@.contains(c) ==> #[trigger] r@.at(c) == None::<T>,
    {
        let n: usize = width * height;
        let mut v: Vec<Option<T>> = Vec::with_capacity(n);
        let mut i: usize = 0;
        while i < n
            invariant
                i <= n,
                v@.len() == i,
                forall|k: int| 0 <= k < i ==> #[trigger] v@[k] == None::<T>,
            decreases n - i,
        {
            v.push(None);
            i = i + 1;
        }
        let r = Grid { tile_array: v, width, height };
        proof {
            assert forall|c: Coord| r@.contains(c) implies #[trigger] r@.at(c) == None::<T> by {
                lemma_index_of(r@, c, c);
            }
        }
        r
    }

    pub fn width(&self) -> (r: usize)
        ensures
            r == self@.width,
    {
        self.width
    }

    pub fn height(&self) -> (r: usize)
        ensures
            r == self@.height,
    {
        self.height
    }

    /// The row-major slot of `coord`, or `OutOfBounds`: the one place where
    /// coordinates are checked.
    fn maybe_coord_to_index(&self, coord: &Coord) -> (r: Result<usize, GridError>)
        requires
            self.wf(),
        ensures
            self@.contains(*coord) ==> r is Ok && r->Ok_0 as int == self@.index_of(*coord)
                && r->Ok_0 < self.tile_array@.len(),
            !self@.contains(*coord) ==> r == Err::<usize, GridError>(GridError::OutOfBounds),
    {
        if coord.x >= self.width || coord.y >= self.height {
            return Err(GridError::OutOfBounds);
        }
        proof {
            lemma_index_of(self@, *coord, *coord);
            assert(coord.y * self.width <= self@.index_of(*coord));
        }
        Ok(coord.x + coord.y * self.width)
    }

    /// The content of the cell at `coord`, or `OutOfBounds`.
    pub fn get(&self, coord: &Coord) -> (r: Result<&Option<T>, GridError>)
        requires
            self.wf(),
        ensures
            self@.contains(*coord) ==> r == Ok::<&Option<T>, GridError>(&self@.at(*coord)),
            !self@.contains(*coord) ==> r == Err::<&Option<T>, GridError>(GridError::OutOfBounds),
    {
        match self.maybe_coord_to_index(coord) {
            Ok(i) => Ok(&self.tile_array[i]),
            Err(e) => Err(e),
        }
    }

    /// Empties the cell at `coord` (an empty cell stays empty), or fails with
    /// `OutOfBounds` and leaves the grid as it was.
    pub fn remove(&mut self, coord: &Coord) -> (r: Result<(), GridError>)
        requires
            old(self).wf(),
        ensures
            final(self).wf(),
            old(self)@.contains(*coord) ==> r is Ok && final(self)@ == old(self)@.put(*coord, None),
            !old(self)@.contains(*coord) ==> r == Err::<(), GridError>(GridError::OutOfBounds)
                && final(self)@ == old(self)@,
    {
        match self.maybe_coord_to_index(coord) {
            Ok(i) => {
                self.tile_array.set(i, None);
                Ok(())
            },
            Err(e) => Err(e),
        }
    }

    /// Stores `t` at `coord`, silently replacing what was there, or fails with
    /// `OutOfBounds` and leaves the grid as it was.
    pub fn add(&mut self, coord: &Coord, t: T) -> (r: Result<(), GridError>)
        requires
            old(self).wf(),
        ensures
            final(self).wf(),
            old(self)@.contains(*coord) ==> r is Ok && final(self)@ == old(self)@.put(*coord, Some(t)),
            !old(self)@.contains(*coord) ==> r == Err::<(), GridError>(GridError::OutOfBounds)
                && final(self)@ == old(self)@,
    {
        match self.maybe_coord_to_index(coord) {
            Ok(i) => {
                self.tile_array.set(i, Some(t));
                Ok(())
            },
            Err(e) => Err(e),
        }
    }
}

} // verus!

//! The play field: a fixed-size matrix of cells, row 0 at the top.
//!
//! `Field` is the mathematical model of a field and carries the meaning of every
//! operation as a spec function. `Grid` is the executable field; its view is a
//! `Field`.

use vstd::prelude::*;
use crate::cell::{Cell, Color};
use crate::clearing::law_clearing_is_idempotent;
use crate::error::EngineError;

verus! {

/// Largest width or height a field can have.
pub const MAX_SIDE: usize = 65535;

/// Model of a play field: its width and its rows from top to bottom.
pub struct Field {
    pub width: int,
    pub rows: Seq<Seq<Cell>>,
}

impl Field {
    /// Number of rows.
    pub open spec fn height(self) -> int {
        self.rows.len() as int
    }

    /// Every row has exactly `width` squares, and both sides are within `MAX_SIDE`.
    pub open spec fn wf(self) -> bool {
        &&& 0 <= self.width <= MAX_SIDE
        &&& self.rows.len() <= MAX_SIDE
        &&& forall|r: int| 0 <= r < self.rows.len() ==> (#[trigger] self.rows[r]).len() == self.width
    }

    /// A row of `width` empty squares.
    pub open spec fn blank_row(width: int) -> Seq<Cell> {
        Seq::new(width as nat, |c: int| Cell::Empty)
    }

    /// `count` rows of `width` empty squares.
    pub open spec fn blank_rows(width: int, count: int) -> Seq<Seq<Cell>> {
        Seq::new(count as nat, |r: int| Field::blank_row(width))
    }

    /// The field of the given size with no block in it.
    pub open spec fn empty(width: int, height: int) -> Field {
        Field { width, rows: Field::blank_rows(width, height) }
    }

    /// Whether `(col, row)` addresses a square of the field.
    pub open spec fn in_bounds(self, col: int, row: int) -> bool {
        0 <= col < self.width && 0 <= row < self.height()
    }

    /// Whether a piece may not enter `(col, row)` as far as the field's contents and
    /// floor go. Rows above the top are empty at every column; everything else
    /// outside the field is solid, and inside it a square is occupied when it
    /// holds a block.
    pub open spec fn occupied(self, col: int, row: int) -> bool {
        if row < 0 {
            false
        } else if col < 0 || col >= self.width || row >= self.height() {
            true
        } else {
            self.rows[row][col] != Cell::Empty
        }
    }

    /// Whether a square of a piece may not lie on `(col, row)`: beside the field, below
    /// its floor, or on an occupied square.
    pub open spec fn blocked(self, col: int, row: int) -> bool {
        col < 0 || col >= self.width || row >= self.height() || self.occupied(col, row)
    }

    /// Whether no square of the field holds a block.
    pub open spec fn is_clear(self) -> bool {
        forall|c: int, r: int| self.in_bounds(c, r) ==> (#[trigger] self.rows[r][c]) == Cell::Empty
    }

    /// Whether every square of row `r` holds a block.
    pub open spec fn row_full(self, r: int) -> bool {
        forall|c: int| 0 <= c < self.rows[r].len() ==> (#[trigger] self.rows[r][c]) != Cell::Empty
    }

    /// The indices of the full rows among the first `n` rows, ascending.
    pub open spec fn full_rows_below(self, n: int) -> Seq<int>
        decreases n,
    {
        if n <= 0 {
            Seq::empty()
        } else if self.row_full(n - 1) {
            self.full_rows_below(n - 1).push(n - 1)
        } else {
            self.full_rows_below(n - 1)
        }
    }

    /// The indices of all full rows, ascending.
    pub open spec fn full_rows(self) -> Seq<int> {
        self.full_rows_below(self.height())
    }

    /// The first `n` rows without those whose index is in `marked`, order kept.
    pub open spec fn kept_rows(self, marked: Set<int>, n: int) -> Seq<Seq<Cell>>
        decreases n,
    {
        if n <= 0 {
            Seq::empty()
        } else if marked.contains(n - 1) {
            self.kept_rows(marked, n - 1)
        } else {
            self.kept_rows(marked, n - 1).push(self.rows[n - 1])
        }
    }

    /// How many rows with an index in `lo..hi` are in `marked`.
    pub open spec fn marked_between(marked: Set<int>, lo: int, hi: int) -> int
        decreases hi - lo,
    {
        if hi <= lo {
            0
        } else if marked.contains(hi - 1) {
            Field::marked_between(marked, lo, hi - 1) + 1
        } else {
            Field::marked_between(marked, lo, hi - 1)
        }
    }

    /// The field after the rows in `marked` are taken out: the rows that stay sink to
    /// the bottom in their old order, and as many empty rows as were taken out
    /// come in at the top.
    pub open spec fn without_rows(self, marked: Set<int>) -> Field {
        let kept = self.kept_rows(marked, self.height());
        Field { width: self.width, rows: Field::blank_rows(self.width, self.height() - kept.len()) + kept }
    }

    /// The field after all its full rows are taken out.
    pub open spec fn without_full_rows(self) -> Field {
        self.without_rows(self.full_rows().to_set())
    }

    /// The field with the square `(col, row)` replaced by `cell`.
    pub open spec fn with_cell(self, col: int, row: int, cell: Cell) -> Field {
        Field { width: self.width, rows: self.rows.update(row, self.rows[row].update(col, cell)) }
    }
}

/// The set of row indices that a list of rows names.
pub open spec fn row_set(rows: Seq<usize>) -> Set<int> {
    Set::new(|r: int| exists|i: int| 0 <= i < rows.len() && rows[i] as int == r)
}

/// The row indices of a list, as mathematical integers.
pub open spec fn row_indices(rows: Seq<usize>) -> Seq<int> {
    Seq::new(rows.len(), |i: int| rows[i] as int)
}

/// Taking rows out leaves the field's height as it was, and the number of rows that
/// stay and the number of marked rows add up to it.
pub proof fn lemma_kept_rows_len(field: Field, marked: Set<int>, n: int)
    requires
        0 <= n,
    ensures
        field.kept_rows(marked, n).len() + Field::marked_between(marked, 0, n) == n,
    decreases n,
{
    if n > 0 {
        lemma_kept_rows_len(field, marked, n - 1);
    }
}

/// Rows that stay keep their width.
pub proof fn lemma_kept_rows_width(field: Field, marked: Set<int>, n: int)
    requires
        field.wf(),
        0 <= n <= field.height(),
    ensures
        forall|i: int|
            0 <= i < field.kept_rows(marked, n).len() ==> (#[trigger] field.kept_rows(
                marked,
                n,
            )[i]).len() == field.width,
    decreases n,
{
    if n > 0 {
        lemma_kept_rows_width(field, marked, n - 1);
        let shorter = field.kept_rows(marked, n - 1);
        let longer = field.kept_rows(marked, n);
        assert forall|i: int| 0 <= i < longer.len() implies (#[trigger] longer[i]).len()
            == field.width by {
            if i < shorter.len() {
                assert(longer[i] == shorter[i]);
            }
        }
    }
}

/// A field stays well formed when rows are taken out of it.
pub proof fn lemma_without_rows_wf(field: Field, marked: Set<int>)
    requires
        field.wf(),
    ensures
        field.without_rows(marked).wf(),
        field.without_rows(marked).height() == field.height(),
{
    lemma_kept_rows_len(field, marked, field.height());
    lemma_kept_rows_width(field, marked, field.height());
    lemma_marked_between_bounds(marked, 0, field.height());
}

/// The number of marked rows in a range is between zero and the range's length.
pub proof fn lemma_marked_between_bounds(marked: Set<int>, lo: int, hi: int)
    ensures
        0 <= Field::marked_between(marked, lo, hi),
        lo <= hi ==> Field::marked_between(marked, lo, hi) <= hi - lo,
        hi <= lo ==> Field::marked_between(marked, lo, hi) == 0,
    decreases hi - lo,
{
    if hi > lo {
        lemma_marked_between_bounds(marked, lo, hi - 1);
    }
}

/// What the list of full rows holds: exactly the indices of the full rows, each
/// once, in ascending order.
pub proof fn lemma_full_rows_below(field: Field, n: int)
    requires
        0 <= n,
    ensures
        field.full_rows_below(n).len() <= n,
        forall|i: int|
            0 <= i < field.full_rows_below(n).len() ==> 0 <= (#[trigger] field.full_rows_below(
                n,
            )[i]) < n && field.row_full(field.full_rows_below(n)[i]),
        forall|i: int, j: int|
            0 <= i < j < field.full_rows_below(n).len() ==> (#[trigger] field.full_rows_below(
                n,
            )[i]) < (#[trigger] field.full_rows_below(n)[j]),
        forall|r: int|
            0 <= r < n && field.row_full(r) ==> #[trigger] field.full_rows_below(n).contains(r),
    decreases n,
{
    if n > 0 {
        lemma_full_rows_below(field, n - 1);
        let shorter = field.full_rows_below(n - 1);
        let longer = field.full_rows_below(n);
        if field.row_full(n - 1) {
            assert forall|r: int| 0 <= r < n && field.row_full(r) implies #[trigger] longer.contains(
                r,
            ) by {
                if r < n - 1 {
                    assert(shorter.contains(r));
                    let i = choose|i: int| 0 <= i < shorter.len() && shorter[i] == r;
                    assert(longer[i] == r);
                } else {
                    assert(longer[longer.len() - 1] == r);
                }
            }
        }
    }
}

/// The full rows among the first `n` are as many as the marked rows there, when the
/// marked rows are the full ones.
proof fn lemma_full_rows_count(field: Field, n: int)
    requires
        0 <= n <= field.height(),
    ensures
        field.full_rows_below(n).len() == Field::marked_between(field.full_rows().to_set(), 0, n),
    decreases n,
{
    if n > 0 {
        lemma_full_rows_count(field, n - 1);
        lemma_full_rows_below(field, field.height());
        let all = field.full_rows();
        if all.to_set().contains(n - 1) {
            let i = choose|i: int| 0 <= i < all.len() && all[i] == n - 1;
            assert(field.row_full(all[i]));
        }
    }
}

/// A list of rows names the same set of rows as its indices, taken as integers, hold.
proof fn lemma_row_set_of_indices(rows: Seq<usize>)
    ensures
        row_set(rows) == row_indices(rows).to_set(),
{
    let indices = row_indices(rows);
    assert forall|r: int| row_set(rows).contains(r) <==> indices.to_set().contains(r) by {
        if row_set(rows).contains(r) {
            let i = choose|i: int| 0 <= i < rows.len() && rows[i] as int == r;
            assert(indices[i] == r);
        }
        if indices.to_set().contains(r) {
            let i = choose|i: int| 0 <= i < indices.len() && indices[i] == r;
            assert(rows[i] as int == r);
        }
    }
}

/// With no row of the field marked, all of the first `n` rows stay.
proof fn lemma_kept_rows_all(field: Field, marked: Set<int>, n: int)
    requires
        0 <= n <= field.height(),
        forall|r: int| 0 <= r < n ==> !marked.contains(r),
    ensures
        field.kept_rows(marked, n) == field.rows.take(n),
    decreases n,
{
    if n > 0 {
        lemma_kept_rows_all(field, marked, n - 1);
    }
}

/// Taking out no row of the field leaves it as it is.
pub proof fn lemma_without_no_rows(field: Field, marked: Set<int>)
    requires
        forall|r: int| 0 <= r < field.height() ==> !marked.contains(r),
    ensures
        field.without_rows(marked) == field,
{
    lemma_kept_rows_all(field, marked, field.height());
    assert(field.without_rows(marked).rows =~= field.rows);
}

/// The executable play field.
#[derive(Clone, Debug)]
pub struct Grid {
    width: usize,
    cells: Vec<Vec<Cell>>,
}

impl View for Grid {
    type V = Field;

    closed spec fn view(&self) -> Field {
        Field { width: self.width as int, rows: Seq::new(self.cells@.len(), |r: int| self.cells@[r]@) }
    }
}

impl Grid {
    /// The invariant of a field: its model is well formed.
    pub open spec fn wf(&self) -> bool {
        self@.wf()
    }

    /// An empty field of the given size.
    pub fn new(width: u16, height: u16) -> (grid: Grid)
        ensures
            grid.wf(),
            grid@ == Field::empty(width as int, height as int),
    {
        let mut cells: Vec<Vec<Cell>> = Vec::new();
        let mut r: u16 = 0;
        while r < height
            invariant
                r <= height,
                cells@.len() == r,
                forall|i: int| 0 <= i < r ==> (#[trigger] cells@[i])@ == Field::blank_row(width as int),
            decreases height - r,
        {
            cells.push(Grid::blank_row(width));
            r = r + 1;
        }
        let grid = Grid { width: width as usize, cells };
        assert(grid@.rows =~= Field::blank_rows(width as int, height as int));
        grid
    }

    fn blank_row(width: u16) -> (row: Vec<Cell>)
        ensures
            row@ == Field::blank_row(width as int),
    {
        let mut row: Vec<Cell> = Vec::new();
        let mut c: u16 = 0;
        while c < width
            invariant
                c <= width,
                row@.len() == c,
                forall|i: int| 0 <= i < c ==> #[trigger] row@[i] == Cell::Empty,
            decreases width - c,
        {
            row.push(Cell::Empty);
            c = c + 1;
        }
        row
    }

    /// Number of columns.
    pub fn width(&self) -> (width: usize)
        ensures
            width == self@.width,
    {
        self.width
    }

    /// Number of rows.
    pub fn height(&self) -> (height: usize)
        ensures
            height == self@.height(),
    {
        self.cells.len()
    }

    /// The contents of the square `(col, row)`, or `OutOfBounds` when there is no
    /// such square.
    pub fn get(&self, col: i32, row: i32) -> (result: Result<Cell, EngineError>)
        requires
            self.wf(),
        ensures
            self@.in_bounds(col as int, row as int) ==> result == Ok::<Cell, EngineError>(
                self@.rows[row as int][col as int],
            ),
            !self@.in_bounds(col as int, row as int) ==> result == Err::<Cell, EngineError>(
                EngineError::OutOfBounds,
            ),
    {
        if col < 0 || row < 0 {
            return Err(EngineError::OutOfBounds);
        }
        let c = col as usize;
        let r = row as usize;
        if c >= self.width || r >= self.cells.len() {
            return Err(EngineError::OutOfBounds);
        }
        assert(self.cells@[r as int]@ == self@.rows[r as int]);
        Ok(self.cells[r][c])
    }

    /// Writes a block of the given colour into the square `(col, row)`. Outside the
    /// field nothing is written and `OutOfBounds` is returned.
    pub fn set(&mut self, col: i32, row: i32, color: Color) -> (result: Result<(), EngineError>)
        requires
            old(self).wf(),
        ensures
            final(self).wf(),
            old(self)@.in_bounds(col as int, row as int) ==> result is Ok && final(self)@ == old(
                self,
            )@.with_cell(col as int, row as int, Cell::Filled(color)),
            !old(self)@.in_bounds(col as int, row as int) ==> result == Err::<(), EngineError>(
                EngineError::OutOfBounds,
            ) && final(self)@ == old(self)@,
    {
        if col < 0 || row < 0 {
            return Err(EngineError::OutOfBounds);
        }
        let c = col as usize;
        let r = row as usize;
        if c >= self.width || r >= self.cells.len() {
            return Err(EngineError::OutOfBounds);
        }
        assert(self.cells@[r as int]@ == self@.rows[r as int]);
        self.cells[r][c] = Cell::Filled(color);
        assert(final(self)@.rows =~= old(self)@.with_cell(col as int, row as int, Cell::Filled(color)).rows);
        Ok(())
    }

    /// Whether `(col, row)` is closed to a piece: see `Field::occupied`.
    pub fn is_occupied(&self, col: i32, row: i32) -> (occupied: bool)
        requires
            self.wf(),
        ensures
            occupied == self@.occupied(col as int, row as int),
    {
        if row < 0 {
            return false;
        }
        if col < 0 {
            return true;
        }
        let c = col as usize;
        let r = row as usize;
        if c >= self.width || r >= self.cells.len() {
            return true;
        }
        assert(self.cells@[r as int]@ == self@.rows[r as int]);
        self.cells[r][c].is_filled()
    }

    fn row_is_full(&self, r: usize) -> (full: bool)
        requires
            self.wf(),
            r < self@.height(),
        ensures
            full == self@.row_full(r as int),
    {
        let row = &self.cells[r];
        let mut c: usize = 0;
        while c < row.len()
            invariant
                c <= row@.len(),
                row@ == self@.rows[r as int],
                forall|i: int| 0 <= i < c ==> (#[trigger] self@.rows[r as int][i]) != Cell::Empty,
            decreases row@.len() - c,
        {
            if !row[c].is_filled() {
                return false;
            }
            c = c + 1;
        }
        true
    }

    /// The indices of the rows in which every square holds a block, ascending.
    pub fn full_rows(&self) -> (rows: Vec<usize>)
        requires
            self.wf(),
        ensures
            row_indices(rows@) == self@.full_rows(),
    {
        let mut rows: Vec<usize> = Vec::new();
        let mut r: usize = 0;
        while r < self.cells.len()
            invariant
                self.wf(),
                r <= self@.height(),
                self@.height() == self.cells@.len(),
                row_indices(rows@) == self@.full_rows_below(r as int),
            decreases self.cells@.len() - r,
        {
            if self.row_is_full(r) {
                rows.push(r);
            }
            r = r + 1;
        }
        rows
    }

    fn copy_row(&self, r: usize) -> (row: Vec<Cell>)
        requires
            r < self@.height(),
        ensures
            row@ == self@.rows[r as int],
    {
        let source = &self.cells[r];
        let mut row: Vec<Cell> = Vec::new();
        let mut c: usize = 0;
        while c < source.len()
            invariant
                c <= source@.len(),
                row@ == source@.take(c as int),
            decreases source@.len() - c,
        {
            row.push(source[c]);
            c = c + 1;
        }
        row
    }

    /// A copy of the field's squares, row by row from the top.
    pub fn rows(&self) -> (rows: Vec<Vec<Cell>>)
        ensures
            rows@.len() == self@.height(),
            forall|r: int| 0 <= r < rows@.len() ==> (#[trigger] rows@[r])@ == self@.rows[r],
    {
        let mut rows: Vec<Vec<Cell>> = Vec::new();
        let mut r: usize = 0;
        while r < self.cells.len()
            invariant
                r <= self.cells@.len(),
                self.cells@.len() == self@.height(),
                rows@.len() == r,
                forall|k: int| 0 <= k < r ==> (#[trigger] rows@[k])@ == self@.rows[k],
            decreases self.cells@.len() - r,
        {
            let row = self.copy_row(r);
            rows.push(row);
            r = r + 1;
        }
        rows
    }

    /// Takes out the rows that `rows` names. Each row that stays moves down by the
    /// number of rows taken out below it, and empty rows fill the top. An index
    /// that names no row of the field is passed over, and a row named twice is
    /// taken out once. Returns the number of rows taken out.
    pub fn clear_rows(&mut self, rows: &Vec<usize>) -> (count: usize)
        requires
            old(self).wf(),
        ensures
            final(self).wf(),
            final(self)@ == old(self)@.without_rows(row_set(rows@)),
            count == Field::marked_between(row_set(rows@), 0, old(self)@.height()),
    {
        let height = self.cells.len();
        let ghost field = self@;
        let ghost marked = row_set(rows@);
        let mut marks: Vec<bool> = Vec::new();
        let mut r: usize = 0;
        while r < height
            invariant
                r <= height,
                marks@.len() == r,
                forall|i: int| 0 <= i < r ==> !(#[trigger] marks@[i]),
            decreases height - r,
        {
            marks.push(false);
            r = r + 1;
        }
        let mut i: usize = 0;
        while i < rows.len()
            invariant
                i <= rows@.len(),
                marks@.len() == height,
                forall|k: int|
                    0 <= k < height ==> ((#[trigger] marks@[k]) <==> exists|j: int|
                        0 <= j < i && rows@[j] as int == k),
            decreases rows@.len() - i,
        {
            let target = rows[i];
            if target < height {
                marks.set(target, true);
            }
            i = i + 1;
        }
        assert forall|k: int| 0 <= k < height implies ((#[trigger] marks@[k]) <==> marked.contains(
            k,
        )) by {}
        let mut count: usize = 0;
        r = 0;
        while r < height
            invariant
                r <= height,
                marks@.len() == height,
                forall|k: int| 0 <= k < height ==> ((#[trigger] marks@[k]) <==> marked.contains(k)),
                count == Field::marked_between(marked, 0, r as int),
                count <= r,
            decreases height - r,
        {
            if marks[r] {
                count = count + 1;
            }
            r = r + 1;
        }
        proof {
            lemma_kept_rows_len(field, marked, height as int);
        }
        let width = self.width;
        let mut cells: Vec<Vec<Cell>> = Vec::new();
        r = 0;
        while r < count
            invariant
                r <= count,
                width <= MAX_SIDE,
                cells@.len() == r,
                forall|k: int| 0 <= k < r ==> (#[trigger] cells@[k])@ == Field::blank_row(width as int),
            decreases count - r,
        {
            cells.push(Grid::blank_row(width as u16));
            r = r + 1;
        }
        r = 0;
        while r < height
            invariant
                r <= height,
                height == field.height(),
                self@ == field,
                marks@.len() == height,
                forall|k: int| 0 <= k < height ==> ((#[trigger] marks@[k]) <==> marked.contains(k)),
                cells@.len() == count + field.kept_rows(marked, r as int).len(),
                forall|k: int| 0 <= k < count ==> (#[trigger] cells@[k])@ == Field::blank_row(width as int),
                forall|k: int|
                    0 <= k < field.kept_rows(marked, r as int).len() ==> (#[trigger] cells@[count
                        + k])@ == field.kept_rows(marked, r as int)[k],
            decreases height - r,
        {
            if !marks[r] {
                let row = self.copy_row(r);
                cells.push(row);
            }
            r = r + 1;
        }
        self.cells = cells;
        proof {
            lemma_without_rows_wf(field, marked);
            let kept = field.kept_rows(marked, height as int);
            let target = field.without_rows(marked).rows;
            assert forall|k: int| 0 <= k < height implies (#[trigger] self.cells@[k])@
                == target[k] by {
                if k >= count {
                    assert(self.cells@[count + (k - count)]@ == kept[k - count]);
                }
            }
            assert(self@.rows =~= target);
        }
        count
    }

    /// Takes out every full row and returns how many there were. In a field with at
    /// least one column no full row is left, so that a second call takes out
    /// nothing and returns 0.
    pub fn clear_full_rows(&mut self) -> (count: usize)
        requires
            old(self).wf(),
        ensures
            final(self).wf(),
            final(self)@ == old(self)@.without_full_rows(),
            count == old(self)@.full_rows().len(),
            old(self)@.width > 0 ==> final(self)@.full_rows().len() == 0,
    {
        let rows = self.full_rows();
        proof {
            if self@.width > 0 {
                law_clearing_is_idempotent(self@);
            }
            lemma_row_set_of_indices(rows@);
            lemma_full_rows_count(self@, self@.height());
        }
        if rows.len() == 0 {
            proof {
                assert forall|r: int| 0 <= r < self@.height() implies !self@.full_rows().to_set().contains(
                    r,
                ) by {
                    if self@.full_rows().to_set().contains(r) {
                        let i = choose|i: int|
                            0 <= i < self@.full_rows().len() && self@.full_rows()[i] == r;
                    }
                }
                lemma_without_no_rows(self@, self@.full_rows().to_set());
            }
            return 0;
        }
        self.clear_rows(&rows)
    }
}

} // verus!

//! Two-dimensional raster buffers laid out row by row.

use vstd::prelude::*;

verus! {

/// `Buffer<T>` manages cell values in raster I/O operations.
///
/// It represents a 2-D array backed by a `Vec<T>` in row-major order, of
/// `shape` `(cols, rows)`. Cells are addressed by `(row, col)`.
#[derive(Debug, Clone)]
pub struct Buffer<T> {
    cols: usize,
    rows: usize,
    data: Vec<T>,
}

/// The position in the row-major data of the cell `(row, col)` of a buffer
/// of `cols` columns.
pub open spec fn cell_index(cols: int, row: int, col: int) -> int {
    row * cols + col
}

impl<T> Buffer<T> {
    /// The shape of the buffer, `(cols, rows)`.
    pub closed spec fn spec_shape(&self) -> (usize, usize) {
        (self.cols, self.rows)
    }

    /// The cell values in row-major order.
    pub closed spec fn spec_data(&self) -> Seq<T> {
        self.data@
    }

    /// The buffer holds exactly one value per cell.
    pub open spec fn wf(&self) -> bool {
        self.spec_shape().0 * self.spec_shape().1 == self.spec_data().len()
    }

    /// Construct a new buffer from `shape` (`(cols, rows)`) and the cell
    /// values in row-major order; there must be one value per cell.
    pub fn new(shape: (usize, usize), data: Vec<T>) -> (b: Self)
        requires
            shape.0 * shape.1 == data@.len(),
        ensures
            b.wf(),
            b.spec_shape() == shape,
            b.spec_data() == data@,
    {
        Buffer { cols: shape.0, rows: shape.1, data }
    }

    /// Destructures `self` into constituent parts.
    pub fn into_shape_and_vec(self) -> (r: ((usize, usize), Vec<T>))
        ensures
            r.0 == self.spec_shape(),
            r.1@ == self.spec_data(),
    {
        ((self.cols, self.rows), self.data)
    }

    /// Returns the width (number of columns) of the buffer.
    pub fn width(&self) -> (w: usize)
        ensures
            w == self.spec_shape().0,
    {
        self.cols
    }

    /// Returns the height (number of rows) of the buffer.
    pub fn height(&self) -> (h: usize)
        ensures
            h == self.spec_shape().1,
    {
        self.rows
    }

    /// Gets the 2-d shape of the buffer, `(cols, rows)`.
    pub fn shape(&self) -> (s: (usize, usize))
        ensures
            s == self.spec_shape(),
    {
        (self.cols, self.rows)
    }

    /// Get a slice over the buffer contents, in row-major order.
    pub fn data(&self) -> (d: &[T])
        ensures
            d@ == self.spec_data(),
    {
        self.data.as_slice()
    }

    /// Get a mutable slice over the buffer contents, in row-major order.
    pub fn data_mut(&mut self) -> (d: &mut [T])
        ensures
            d@ == old(self).spec_data(),
            final(d)@ == final(self).spec_data(),
            final(self).spec_shape() == old(self).spec_shape(),
    {
        self.data.as_mut_slice()
    }

    /// Get the number of elements in the buffer.
    pub fn len(&self) -> (n: usize)
        ensures
            n == self.spec_data().len(),
    {
        self.data.len()
    }

    /// Determine if the buffer has no elements.
    pub fn is_empty(&self) -> (b: bool)
        ensures
            b == (self.spec_data().len() == 0),
    {
        self.data.len() == 0
    }

    /// The position in the data of the cell `coord` = `(row, col)`.
    fn vec_index_for(&self, coord: (usize, usize)) -> (i: usize)
        requires
            self.wf(),
            coord.0 < self.spec_shape().1,
            coord.1 < self.spec_shape().0,
        ensures
            i == cell_index(self.spec_shape().0 as int, coord.0 as int, coord.1 as int),
            i < self.spec_data().len(),
    {
        let _n = self.data.len();
        proof {
            lemma_cell_index_in_bounds(
                self.cols as int,
                self.rows as int,
                coord.0 as int,
                coord.1 as int,
            );
        }
        coord.0 * self.cols + coord.1
    }

    /// The value of the cell `coord` = `(row, col)`.
    pub fn get(&self, coord: (usize, usize)) -> (v: &T)
        requires
            self.wf(),
            coord.0 < self.spec_shape().1,
            coord.1 < self.spec_shape().0,
        ensures
            *v == self.spec_data()[cell_index(
                self.spec_shape().0 as int,
                coord.0 as int,
                coord.1 as int,
            )],
    {
        let i = self.vec_index_for(coord);
        &self.data[i]
    }

    /// Sets the value of the cell `coord` = `(row, col)`.
    pub fn set(&mut self, coord: (usize, usize), value: T)
        requires
            old(self).wf(),
            coord.0 < old(self).spec_shape().1,
            coord.1 < old(self).spec_shape().0,
        ensures
            final(self).wf(),
            final(self).spec_shape() == old(self).spec_shape(),
            final(self).spec_data() == old(self).spec_data().update(
                cell_index(old(self).spec_shape().0 as int, coord.0 as int, coord.1 as int),
                value,
            ),
    {
        let i = self.vec_index_for(coord);
        self.data.set(i, value);
    }
}

/// A cell of the buffer lies inside the data.
pub proof fn lemma_cell_index_in_bounds(cols: int, rows: int, row: int, col: int)
    requires
        0 <= row < rows,
        0 <= col < cols,
    ensures
        0 <= cell_index(cols, row, col) < cols * rows,
{
    assert(0 <= row * cols) by (nonlinear_arith)
        requires
            0 <= row,
            0 <= col < cols,
    ;
    assert(row * cols + col < cols * rows) by (nonlinear_arith)
        requires
            0 <= row < rows,
            0 <= col < cols,
    ;
}

/// The cells of a `cols` by `rows` buffer and the positions of its data
/// correspond one to one: every cell lies inside the data, distinct cells
/// lie at distinct positions, and every position holds a cell.
pub proof fn law_cell_index_bijective(cols: int, rows: int)
    requires
        cols >= 0,
        rows >= 0,
    ensures
        forall|r: int, c: int|
            0 <= r < rows && 0 <= c < cols ==> 0 <= #[trigger] cell_index(cols, r, c) < cols * rows,
        forall|r1: int, c1: int, r2: int, c2: int|
            0 <= r1 < rows && 0 <= c1 < cols && 0 <= r2 < rows && 0 <= c2 < cols && #[trigger]
                cell_index(cols, r1, c1) == #[trigger] cell_index(cols, r2, c2) ==> r1 == r2 && c1
                == c2,
        forall|i: int|
            0 <= i < cols * rows ==> 0 <= #[trigger] (i / cols) < rows && 0 <= i % cols < cols
                && cell_index(cols, i / cols, i % cols) == i,
{
    assert forall|r: int, c: int|
        0 <= r < rows && 0 <= c < cols implies 0 <= #[trigger] cell_index(cols, r, c) < cols
        * rows by {
        lemma_cell_index_in_bounds(cols, rows, r, c);
    }
    assert forall|r1: int, c1: int, r2: int, c2: int|
        0 <= r1 < rows && 0 <= c1 < cols && 0 <= r2 < rows && 0 <= c2 < cols && #[trigger]
            cell_index(cols, r1, c1) == #[trigger] cell_index(cols, r2, c2) implies r1 == r2 && c1
        == c2 by {
        assert(r1 == r2 && c1 == c2) by (nonlinear_arith)
            requires
                0 <= c1 < cols,
                0 <= c2 < cols,
                r1 * cols + c1 == r2 * cols + c2,
        ;
    }
    assert forall|i: int| 0 <= i < cols * rows implies 0 <= #[trigger] (i / cols) < rows && 0 <= i
        % cols < cols && cell_index(cols, i / cols, i % cols) == i by {
        assert(cols > 0) by (nonlinear_arith)
            requires
                0 <= i < cols * rows,
                rows >= 0,
        ;
        assert(0 <= i / cols < rows && 0 <= i % cols < cols && (i / cols) * cols + i % cols == i)
            by (nonlinear_arith)
            requires
                0 <= i < cols * rows,
                cols > 0,
        ;
    }
}

/// Writing a cell of a well-formed buffer and reading it back gives the value
/// written, and leaves every other cell as it was.
pub proof fn law_buffer_read_after_write<T>(
    cols: int,
    rows: int,
    data: Seq<T>,
    cell: (int, int),
    other: (int, int),
    value: T,
)
    requires
        cols >= 0,
        rows >= 0,
        data.len() == cols * rows,
        0 <= cell.0 < rows,
        0 <= cell.1 < cols,
        0 <= other.0 < rows,
        0 <= other.1 < cols,
    ensures
        data.update(cell_index(cols, cell.0, cell.1), value)[cell_index(cols, cell.0, cell.1)]
            == value,
        other != cell ==> data.update(cell_index(cols, cell.0, cell.1), value)[cell_index(
            cols,
            other.0,
            other.1,
        )] == data[cell_index(cols, other.0, other.1)],
{
    law_cell_index_bijective(cols, rows);
    lemma_cell_index_in_bounds(cols, rows, cell.0, cell.1);
    lemma_cell_index_in_bounds(cols, rows, other.0, other.1);
    if other != cell {
        assert(cell_index(cols, cell.0, cell.1) != cell_index(cols, other.0, other.1));
    }
}

/// Whether a slice of `len` values holds exactly the cells of a `size` =
/// `(cols, rows)` window.
pub fn buffer_len_matches(len: usize, size: (usize, usize)) -> (b: bool)
    ensures
        b == (len == size.0 * size.1),
{
    match size.0.checked_mul(size.1) {
        Some(n) => n == len,
        None => false,
    }
}

/// A buffer of `u8` cells.
pub type ByteBuffer = Buffer<u8>;

} // verus!

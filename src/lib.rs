//! A dense two-dimensional matrix over a generic cell type, stored row-major
//! in one flat buffer, with indexing, transposition and arithmetic.
use vstd::prelude::*;

pub mod element;
pub mod grid;
pub mod laws;
pub mod math;
pub mod size;
pub mod text;

pub use element::{CommutativeSum, Element, Multipliable, Summable};
pub use math::MatrixError;
pub use size::Size;

use grid::{lemma_offset_in_bounds, lemma_offset_split, lemma_offset_unique};

verus! {

/// A `rows` by `columns` matrix. The cell at (`row`, `column`) is stored at
/// offset `column + row * columns` of `values`.
#[derive(Debug)]
pub struct Matrix<T> {
    pub rows: usize,
    pub columns: usize,
    pub values: Vec<T>,
}

impl<T> Matrix<T> {
    /// The buffer holds exactly one value per cell, and its size fits in a `usize`.
    pub open spec fn wf(&self) -> bool {
        &&& self.values@.len() == self.rows * self.columns
        &&& self.rows * self.columns <= usize::MAX
    }

    /// Whether (`row`, `column`) names a cell of this matrix.
    pub open spec fn in_grid(&self, row: int, column: int) -> bool {
        0 <= row < self.rows && 0 <= column < self.columns
    }

    /// The offset of a cell in the buffer.
    pub open spec fn offset(&self, row: int, column: int) -> int {
        grid::offset(row, column, self.columns as int)
    }

    /// The value of a cell.
    pub open spec fn cell(&self, row: int, column: int) -> T {
        self.values@[self.offset(row, column)]
    }

    /// The views of the cells, in buffer order.
    pub open spec fn cells(&self) -> Seq<T::V> where T: View {
        self.values@.map_values(|x: T| x@)
    }

    /// The views of one row's cells, from left to right.
    pub open spec fn row_view(&self, row: int) -> Seq<T::V> where T: View {
        Seq::new(self.columns as nat, |c: int| self.cell(row, c)@)
    }

    /// The views of one column's cells, from top to bottom.
    pub open spec fn column_view(&self, column: int) -> Seq<T::V> where T: View {
        Seq::new(self.rows as nat, |r: int| self.cell(r, column)@)
    }

    /// The cell visited at step `k` of an iteration: row `k / columns`,
    /// column `k % columns`.
    pub open spec fn visit_position(&self, k: int) -> (int, int) {
        (k / self.columns as int, k % self.columns as int)
    }

    /// `self` is `m` with rows and columns exchanged.
    pub open spec fn is_transpose_of(&self, m: &Matrix<T>) -> bool {
        &&& self.wf()
        &&& self.rows == m.columns
        &&& self.columns == m.rows
        &&& forall|r: int, c: int|
            m.in_grid(r, c) ==> self.cell(c, r) == #[trigger] m.cell(r, c)
    }
}

impl<T: Element> Matrix<T> {
    /// An iterator over the cells in row-major order, each with its position.
    pub fn iter(&self) -> (r: MatrixIter<'_, T>)
        ensures
            r.source() == *self,
            r.visited() == 0,
    {
        MatrixIter { matrix: self, index: 0 }
    }

    /// Builds a matrix from `(rows, columns, values)`. The buffer is filled in
    /// order from `values`; missing cells get the zero value and values past
    /// the last cell are dropped.
    pub fn from(v: (usize, usize, Vec<T>)) -> (r: Matrix<T>)
        requires
            v.0 * v.1 <= usize::MAX,
        ensures
            r.wf(),
            r.rows == v.0,
            r.columns == v.1,
            forall|i: int| 0 <= i < r.values@.len() && i < v.2@.len() ==> r.values@[i] == v.2@[i],
            forall|i: int|
                v.2@.len() <= i < r.values@.len() ==> (#[trigger] r.values@[i])@ == T::zero_view(),
    {
        let (rows, columns, data) = v;
        let n: usize = rows * columns;
        let mut values: Vec<T> = Vec::new();
        let mut i: usize = 0;
        while i < n
            invariant
                i <= n,
                n == rows * columns,
                values@.len() == i,
                forall|k: int| 0 <= k < i && k < data@.len() ==> values@[k] == data@[k],
                forall|k: int| data@.len() <= k < i ==> (#[trigger] values@[k])@ == T::zero_view(),
            decreases n - i,
        {
            if i < data.len() {
                values.push(data[i].duplicate());
            } else {
                values.push(T::zero());
            }
            i += 1;
        }
        Matrix { rows, columns, values }
    }

    /// Replaces the value of a cell.
    pub fn set(&mut self, row: usize, column: usize, v: T)
        requires
            old(self).wf(),
            row < old(self).rows,
            column < old(self).columns,
        ensures
            final(self).rows == old(self).rows,
            final(self).columns == old(self).columns,
            final(self).values@ == old(self).values@.update(old(self).offset(row as int, column as int), v),
    {
        proof {
            lemma_offset_in_bounds(row as int, column as int, self.rows as int, self.columns as int);
        }
        let idx: usize = column + row * self.columns;
        self.values.set(idx, v);
    }

    /// The value of a cell.
    pub fn get(&self, row: usize, column: usize) -> (r: &T)
        requires
            self.wf(),
            row < self.rows,
            column < self.columns,
        ensures
            *r == self.cell(row as int, column as int),
    {
        proof {
            lemma_offset_in_bounds(row as int, column as int, self.rows as int, self.columns as int);
        }
        &self.values[column + row * self.columns]
    }

    /// A copy of one row, from left to right.
    pub fn get_row(&self, row: usize) -> (r: Vec<T>)
        requires
            self.wf(),
            row < self.rows,
        ensures
            r@.len() == self.columns,
            forall|c: int| 0 <= c < self.columns ==> r@[c] == self.cell(row as int, c),
    {
        let mut v: Vec<T> = Vec::new();
        let mut column: usize = 0;
        while column < self.columns
            invariant
                self.wf(),
                row < self.rows,
                column <= self.columns,
                v@.len() == column,
                forall|c: int| 0 <= c < column ==> v@[c] == self.cell(row as int, c),
            decreases self.columns - column,
        {
            let value = self.get(row, column);
            v.push(value.duplicate());
            column += 1;
        }
        v
    }

    /// A copy of one column, from top to bottom.
    pub fn get_column(&self, column: usize) -> (r: Vec<T>)
        requires
            self.wf(),
            column < self.columns,
        ensures
            r@.len() == self.rows,
            forall|k: int| 0 <= k < self.rows ==> r@[k] == self.cell(k, column as int),
    {
        let mut v: Vec<T> = Vec::new();
        let mut row: usize = 0;
        while row < self.rows
            invariant
                self.wf(),
                column < self.columns,
                row <= self.rows,
                v@.len() == row,
                forall|k: int| 0 <= k < row ==> v@[k] == self.cell(k, column as int),
            decreases self.rows - row,
        {
            let value = self.get(row, column);
            v.push(value.duplicate());
            row += 1;
        }
        v
    }

    /// A new matrix with rows and columns exchanged; `self` is left as it is.
    pub fn transpose(&self) -> (r: Matrix<T>)
        requires
            self.wf(),
        ensures
            r.is_transpose_of(self),
    {
        let n: usize = self.values.len();
        assert(self.columns * self.rows == self.rows * self.columns) by (nonlinear_arith);
        let mut values: Vec<T> = Vec::new();
        let mut idx: usize = 0;
        while idx < n
            invariant
                self.wf(),
                n == self.rows * self.columns,
                n == self.columns * self.rows,
                idx <= n,
                values@.len() == idx,
                forall|i: int|
                    0 <= i < idx ==> #[trigger] values@[i] == self.cell(i % self.rows as int, i / self.rows as int),
            decreases n - idx,
        {
            proof {
                lemma_offset_split(idx as int, self.columns as int, self.rows as int);
                lemma_offset_in_bounds(
                    idx as int % self.rows as int,
                    idx as int / self.rows as int,
                    self.rows as int,
                    self.columns as int,
                );
            }
            let r: usize = idx % self.rows;
            let c: usize = idx / self.rows;
            values.push(self.values[c + r * self.columns].duplicate());
            idx += 1;
        }
        let t = Matrix { rows: self.columns, columns: self.rows, values };
        assert forall|r: int, c: int| self.in_grid(r, c) implies t.cell(c, r) == #[trigger] self.cell(r, c) by {
            lemma_offset_in_bounds(c, r, self.columns as int, self.rows as int);
            let i = r + c * self.rows;
            lemma_offset_split(i, self.columns as int, self.rows as int);
            lemma_offset_unique(i / self.rows as int, i % self.rows as int, c, r, self.rows as int);
            assert(t.values@[i] == self.cell(i % self.rows as int, i / self.rows as int));
        }
        t
    }
}

/// Walks a matrix cell by cell in row-major order: row 0 from left to right,
/// then row 1, and so on. It only reads the matrix.
pub struct MatrixIter<'a, T> {
    matrix: &'a Matrix<T>,
    index: usize,
}

impl<'a, T> MatrixIter<'a, T> {
    /// The matrix being walked.
    pub closed spec fn source(&self) -> Matrix<T> {
        *self.matrix
    }

    /// How many cells have been handed out so far.
    pub closed spec fn visited(&self) -> nat {
        self.index as nat
    }
}

impl<'a, T: Element> MatrixIter<'a, T> {
    /// The next cell with its (row, column) position, or `None` once every
    /// cell has been handed out.
    pub fn next(&mut self) -> (r: Option<(&'a T, (usize, usize))>)
        requires
            old(self).source().wf(),
        ensures
            final(self).source() == old(self).source(),
            ({
                let m = old(self).source();
                let k = old(self).visited() as int;
                if k < m.rows * m.columns {
                    let (row, column) = m.visit_position(k);
                    &&& final(self).visited() == k + 1
                    &&& r is Some
                    &&& *r.unwrap().0 == m.cell(row, column)
                    &&& r.unwrap().1.0 == row
                    &&& r.unwrap().1.1 == column
                } else {
                    &&& final(self).visited() == k
                    &&& r is None
                }
            }),
    {
        if self.index < self.matrix.rows * self.matrix.columns {
            proof {
                lemma_offset_split(self.index as int, self.matrix.rows as int, self.matrix.columns as int);
            }
            let row: usize = self.index / self.matrix.columns;
            let column: usize = self.index % self.matrix.columns;
            let position = (row, column);
            let v = self.matrix.get(row, column);
            self.index += 1;
            Some((v, position))
        } else {
            None
        }
    }
}

impl<T> Default for Matrix<T> {
    /// The empty 0 by 0 matrix.
    fn default() -> (r: Self)
        ensures
            r.wf(),
            r.rows == 0,
            r.columns == 0,
            r.values@.len() == 0,
    {
        Matrix { rows: 0, columns: 0, values: Vec::new() }
    }
}

impl<T: Element> Clone for Matrix<T> {
    /// A copy with the same shape and the same values.
    fn clone(&self) -> (r: Self)
        ensures
            r.rows == self.rows,
            r.columns == self.columns,
            r.values@ == self.values@,
    {
        let mut values: Vec<T> = Vec::new();
        let mut i: usize = 0;
        while i < self.values.len()
            invariant
                i <= self.values@.len(),
                values@ == self.values@.subrange(0, i as int),
            decreases self.values@.len() - i,
        {
            values.push(self.values[i].duplicate());
            i += 1;
        }
        assert(values@ =~= self.values@);
        Matrix { rows: self.rows, columns: self.columns, values }
    }
}

} // verus!

//! Elementwise addition, matrix multiplication and scaling.
use vstd::prelude::*;
use vstd::string::StringExecFns;

use crate::element::{Multipliable, Summable};
use crate::grid::{lemma_offset_in_bounds, lemma_offset_split, lemma_offset_unique};
use crate::Matrix;

verus! {

/// Why an operation on two matrices could not be carried out.
#[derive(Debug, PartialEq, Eq, Structural)]
pub enum MatrixError {
    /// The operands' dimensions do not fit the operation.
    DimensionMismatch,
}

impl MatrixError {
    /// A human-readable description of the error.
    pub fn message(&self) -> (r: String)
        ensures
            r@ == "Dissimilar multidimensional matrix"@,
    {
        String::from_str("Dissimilar multidimensional matrix")
    }
}

/// Both matrices have the same number of rows and the same number of columns.
pub open spec fn same_shape<T>(a: &Matrix<T>, b: &Matrix<T>) -> bool {
    a.rows == b.rows && a.columns == b.columns
}

/// Every pair of corresponding cells can be added.
pub open spec fn sum_fits<T: Summable>(a: &Matrix<T>, b: &Matrix<T>) -> bool {
    forall|i: int|
        0 <= i < a.values@.len() ==> T::can_add(#[trigger] a.values@[i]@, b.values@[i]@)
}

/// The sums of corresponding cells, in buffer order.
pub open spec fn cell_sums<T: Summable>(a: &Matrix<T>, b: &Matrix<T>) -> Seq<T::V> {
    Seq::new(a.values@.len(), |i: int| T::sum_of(a.values@[i]@, b.values@[i]@))
}

/// The dot product of the first `n` entries of `x` and `y`, accumulated from
/// the zero value as `((zero + x0*y0) + x1*y1) + ...`.
pub open spec fn dot<T: Multipliable>(x: Seq<T::V>, y: Seq<T::V>, n: nat) -> T::V
    decreases n,
{
    if n == 0 {
        T::zero_view()
    } else {
        T::sum_of(dot::<T>(x, y, (n - 1) as nat), T::product_of(x[n - 1], y[n - 1]))
    }
}

/// Every step of `dot(x, y, n)` can be carried out.
pub open spec fn dot_fits<T: Multipliable>(x: Seq<T::V>, y: Seq<T::V>, n: nat) -> bool
    decreases n,
{
    n == 0 || {
        &&& dot_fits::<T>(x, y, (n - 1) as nat)
        &&& T::can_mul(x[n - 1], y[n - 1])
        &&& T::can_add(dot::<T>(x, y, (n - 1) as nat), T::product_of(x[n - 1], y[n - 1]))
    }
}

/// Every cell of the product `a * b` can be computed, and the product fits in memory.
pub open spec fn product_fits<T: Multipliable>(a: &Matrix<T>, b: &Matrix<T>) -> bool {
    &&& a.rows * b.columns <= usize::MAX
    &&& forall|i: int, j: int|
        0 <= i < a.rows && 0 <= j < b.columns ==> dot_fits::<T>(
            #[trigger] a.row_view(i),
            #[trigger] b.column_view(j),
            a.columns as nat,
        )
}

/// `p` is the product `a * b`: cell (`i`, `j`) is the dot product of row `i`
/// of `a` and column `j` of `b`.
pub open spec fn is_product<T: Multipliable>(p: &Matrix<T>, a: &Matrix<T>, b: &Matrix<T>) -> bool {
    &&& p.wf()
    &&& p.rows == a.rows
    &&& p.columns == b.columns
    &&& forall|i: int, j: int|
        0 <= i < a.rows && 0 <= j < b.columns ==> (#[trigger] p.cell(i, j))@ == dot::<T>(
            a.row_view(i),
            b.column_view(j),
            a.columns as nat,
        )
}

/// The products of each cell with `k`, in buffer order.
pub open spec fn scaled<T: Multipliable>(k: &T, m: &Matrix<T>) -> Seq<T::V> {
    Seq::new(m.values@.len(), |i: int| T::product_of(m.values@[i]@, k@))
}

/// Every cell can be multiplied by `k`.
pub open spec fn scale_fits<T: Multipliable>(k: &T, m: &Matrix<T>) -> bool {
    forall|i: int| 0 <= i < m.values@.len() ==> T::can_mul(#[trigger] m.values@[i]@, k@)
}

/// A prefix of a dot product that can be carried out can be carried out too.
proof fn lemma_dot_fits_prefix<T: Multipliable>(x: Seq<T::V>, y: Seq<T::V>, k: nat, n: nat)
    requires
        k <= n,
        dot_fits::<T>(x, y, n),
    ensures
        dot_fits::<T>(x, y, k),
    decreases n - k,
{
    if k < n {
        lemma_dot_fits_prefix::<T>(x, y, k, (n - 1) as nat);
    }
}

impl<T: Summable> Matrix<T> {
    /// The elementwise sum of two matrices of the same shape.
    pub fn add(&self, m: &Matrix<T>) -> (r: Result<Matrix<T>, MatrixError>)
        requires
            self.wf(),
            m.wf(),
            same_shape(self, m) ==> sum_fits(self, m),
        ensures
            match r {
                Ok(s) => {
                    &&& same_shape(self, m)
                    &&& s.wf()
                    &&& same_shape(&s, self)
                    &&& s.cells() == cell_sums(self, m)
                },
                Err(e) => !same_shape(self, m) && e == MatrixError::DimensionMismatch,
            },
    {
        if self.rows != m.rows || self.columns != m.columns {
            return Err(MatrixError::DimensionMismatch);
        }
        let n: usize = self.values.len();
        let mut values: Vec<T> = Vec::new();
        let mut i: usize = 0;
        while i < n
            invariant
                self.wf(),
                m.wf(),
                same_shape(self, m),
                sum_fits(self, m),
                n == self.values@.len(),
                i <= n,
                values@.len() == i,
                forall|k: int|
                    0 <= k < i ==> (#[trigger] values@[k])@ == T::sum_of(
                        self.values@[k]@,
                        m.values@[k]@,
                    ),
            decreases n - i,
        {
            values.push(self.values[i].plus(&m.values[i]));
            i += 1;
        }
        let s = Matrix { rows: self.rows, columns: self.columns, values };
        assert(s.cells() =~= cell_sums(self, m));
        Ok(s)
    }
}

impl<T: Multipliable> Matrix<T> {
    /// The dot product of row `i` of `self` and row `j` of `t`.
    fn dot_rows(&self, i: usize, t: &Matrix<T>, j: usize) -> (r: T)
        requires
            self.wf(),
            t.wf(),
            t.columns == self.columns,
            i < self.rows,
            j < t.rows,
            dot_fits::<T>(self.row_view(i as int), t.row_view(j as int), self.columns as nat),
        ensures
            r@ == dot::<T>(self.row_view(i as int), t.row_view(j as int), self.columns as nat),
    {
        let ghost x = self.row_view(i as int);
        let ghost y = t.row_view(j as int);
        let mut acc = T::zero();
        let mut k: usize = 0;
        while k < self.columns
            invariant
                self.wf(),
                t.wf(),
                t.columns == self.columns,
                i < self.rows,
                j < t.rows,
                x == self.row_view(i as int),
                y == t.row_view(j as int),
                dot_fits::<T>(x, y, self.columns as nat),
                k <= self.columns,
                acc@ == dot::<T>(x, y, k as nat),
            decreases self.columns - k,
        {
            proof {
                lemma_dot_fits_prefix::<T>(x, y, (k + 1) as nat, self.columns as nat);
                lemma_offset_in_bounds(i as int, k as int, self.rows as int, self.columns as int);
                lemma_offset_in_bounds(j as int, k as int, t.rows as int, t.columns as int);
            }
            let p = self.values[k + i * self.columns].times(&t.values[k + j * t.columns]);
            acc = acc.plus(&p);
            k += 1;
        }
        acc
    }

    /// The matrix product `self * m`, defined when `self` has as many columns
    /// as `m` has rows. `m` is transposed first, so that both operands are
    /// read row by row.
    pub fn multiply(&self, m: &Matrix<T>) -> (r: Result<Matrix<T>, MatrixError>)
        requires
            self.wf(),
            m.wf(),
            self.columns == m.rows ==> product_fits(self, m),
        ensures
            match r {
                Ok(p) => self.columns == m.rows && is_product(&p, self, m),
                Err(e) => self.columns != m.rows && e == MatrixError::DimensionMismatch,
            },
    {
        if self.columns != m.rows {
            return Err(MatrixError::DimensionMismatch);
        }
        let t = m.transpose();
        let n: usize = self.rows * m.columns;
        let mut values: Vec<T> = Vec::new();
        let mut p: usize = 0;
        while p < n
            invariant
                self.wf(),
                m.wf(),
                self.columns == m.rows,
                product_fits(self, m),
                t.is_transpose_of(m),
                n == self.rows * m.columns,
                p <= n,
                values@.len() == p,
                forall|q: int|
                    0 <= q < p ==> (#[trigger] values@[q])@ == dot::<T>(
                        self.row_view(q / m.columns as int),
                        m.column_view(q % m.columns as int),
                        self.columns as nat,
                    ),
            decreases n - p,
        {
            proof {
                lemma_offset_split(p as int, self.rows as int, m.columns as int);
            }
            let i: usize = p / m.columns;
            let j: usize = p % m.columns;
            proof {
                assert(t.row_view(j as int) =~= m.column_view(j as int));
                assert(dot_fits::<T>(self.row_view(i as int), m.column_view(j as int), self.columns as nat));
            }
            values.push(self.dot_rows(i, &t, j));
            p += 1;
        }
        let prod = Matrix { rows: self.rows, columns: m.columns, values };
        assert forall|i: int, j: int| 0 <= i < self.rows && 0 <= j < m.columns implies
            (#[trigger] prod.cell(i, j))@ == dot::<T>(self.row_view(i), m.column_view(j), self.columns as nat) by {
            lemma_offset_in_bounds(i, j, self.rows as int, m.columns as int);
            let q = j + i * m.columns;
            lemma_offset_split(q, self.rows as int, m.columns as int);
            lemma_offset_unique(q / m.columns as int, q % m.columns as int, i, j, m.columns as int);
            assert(prod.values@[q]@ == dot::<T>(
                self.row_view(q / m.columns as int),
                m.column_view(q % m.columns as int),
                self.columns as nat,
            ));
        }
        Ok(prod)
    }

    /// Multiplies every cell by the scalar `k`. This always succeeds; the
    /// shape is kept.
    pub fn scalar_multiply(k: &T, m: &Matrix<T>) -> (r: Result<Matrix<T>, MatrixError>)
        requires
            m.wf(),
            scale_fits(k, m),
        ensures
            r is Ok,
            r.unwrap().wf(),
            same_shape(&r.unwrap(), m),
            r.unwrap().cells() == scaled(k, m),
    {
        let n: usize = m.values.len();
        let mut values: Vec<T> = Vec::new();
        let mut i: usize = 0;
        while i < n
            invariant
                m.wf(),
                scale_fits(k, m),
                n == m.values@.len(),
                i <= n,
                values@.len() == i,
                forall|q: int|
                    0 <= q < i ==> (#[trigger] values@[q])@ == T::product_of(m.values@[q]@, k@),
            decreases n - i,
        {
            values.push(m.values[i].times(k));
            i += 1;
        }
        let s = Matrix { rows: m.rows, columns: m.columns, values };
        assert(s.cells() =~= scaled(k, m));
        Ok(s)
    }
}

} // verus!

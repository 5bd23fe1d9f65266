//! Facts that relate several operations of a matrix.
use vstd::prelude::*;

use crate::element::CommutativeSum;
use crate::grid::{lemma_offset_in_bounds, lemma_offset_split, lemma_offset_unique};
use crate::math::{cell_sums, same_shape, sum_fits};
use crate::Matrix;

verus! {

/// Writing a cell with `set` and reading it back with `get` gives the value
/// written, and every other cell keeps its value. `after` is the matrix as
/// `set(row, column, v)` leaves `m`.
pub proof fn lemma_set_then_get<T>(m: Matrix<T>, after: Matrix<T>, row: int, column: int, v: T)
    requires
        m.wf(),
        m.in_grid(row, column),
        after.rows == m.rows,
        after.columns == m.columns,
        after.values@ == m.values@.update(m.offset(row, column), v),
    ensures
        after.wf(),
        after.cell(row, column) == v,
        forall|r: int, c: int|
            m.in_grid(r, c) && (r != row || c != column) ==> #[trigger] after.cell(r, c) == m.cell(r, c),
{
    lemma_offset_in_bounds(row, column, m.rows as int, m.columns as int);
    assert forall|r: int, c: int|
        m.in_grid(r, c) && (r != row || c != column) implies #[trigger] after.cell(r, c) == m.cell(r, c) by {
        lemma_offset_in_bounds(r, c, m.rows as int, m.columns as int);
        if m.offset(r, c) == m.offset(row, column) {
            lemma_offset_unique(r, c, row, column, m.columns as int);
        }
    }
}

/// Transposing twice gives back the matrix it started from: the same shape and the
/// same buffer. `t` is the transpose of `m`, and `tt` the transpose of `t`.
pub proof fn lemma_transpose_involution<T>(m: Matrix<T>, t: Matrix<T>, tt: Matrix<T>)
    requires
        m.wf(),
        t.is_transpose_of(&m),
        tt.is_transpose_of(&t),
    ensures
        tt.rows == m.rows,
        tt.columns == m.columns,
        tt.values@ == m.values@,
{
    assert forall|i: int| 0 <= i < m.values@.len() implies tt.values@[i] == m.values@[i] by {
        lemma_offset_split(i, m.rows as int, m.columns as int);
        let r = i / m.columns as int;
        let c = i % m.columns as int;
        assert(t.cell(c, r) == m.cell(r, c));
        assert(tt.cell(r, c) == t.cell(c, r));
    }
    assert(tt.values@ =~= m.values@);
}

/// Where cell addition commutes, so does matrix addition: `a + b` can be
/// formed exactly when `b + a` can, and both have the same cells.
pub proof fn lemma_add_commutes<T: CommutativeSum>(a: Matrix<T>, b: Matrix<T>)
    requires
        a.wf(),
        b.wf(),
        same_shape(&a, &b),
    ensures
        sum_fits(&a, &b) == sum_fits(&b, &a),
        cell_sums(&a, &b) == cell_sums(&b, &a),
{
    assert forall|i: int| 0 <= i < a.values@.len() implies T::can_add(a.values@[i]@, b.values@[i]@)
        == T::can_add(b.values@[i]@, a.values@[i]@) && T::sum_of(a.values@[i]@, b.values@[i]@)
        == T::sum_of(b.values@[i]@, a.values@[i]@) by {
        T::lemma_sum_commutes(a.values@[i]@, b.values@[i]@);
    }
    assert(cell_sums(&a, &b) =~= cell_sums(&b, &a));
}

/// Iteration hands out every cell exactly once, in row-major order: step `k`
/// visits a cell of the matrix whose offset is `k`, each cell is visited at
/// the step equal to its offset, and a later step visits a later row, or a
/// later column of the same row.
pub proof fn lemma_visit_order<T>(m: Matrix<T>)
    requires
        m.wf(),
    ensures
        forall|k: int|
            0 <= k < m.rows * m.columns ==> {
                let (r, c) = #[trigger] m.visit_position(k);
                m.in_grid(r, c) && m.offset(r, c) == k
            },
        forall|r: int, c: int| m.in_grid(r, c) ==> #[trigger] m.visit_position(m.offset(r, c)) == (r, c),
        forall|k1: int, k2: int|
            0 <= k1 < k2 < m.rows * m.columns ==> {
                let (r1, c1) = #[trigger] m.visit_position(k1);
                let (r2, c2) = #[trigger] m.visit_position(k2);
                r1 < r2 || (r1 == r2 && c1 < c2)
            },
{
    let n = m.rows * m.columns;
    let cols = m.columns as int;
    assert forall|k: int| 0 <= k < n implies {
        let (r, c) = #[trigger] m.visit_position(k);
        m.in_grid(r, c) && m.offset(r, c) == k
    } by {
        lemma_offset_split(k, m.rows as int, cols);
    }
    assert forall|r: int, c: int| m.in_grid(r, c) implies #[trigger] m.visit_position(m.offset(r, c)) == (r, c) by {
        let k = m.offset(r, c);
        lemma_offset_in_bounds(r, c, m.rows as int, cols);
        lemma_offset_split(k, m.rows as int, cols);
        lemma_offset_unique(k / cols, k % cols, r, c, cols);
    }
    assert forall|k1: int, k2: int| 0 <= k1 < k2 < n implies {
        let (r1, c1) = #[trigger] m.visit_position(k1);
        let (r2, c2) = #[trigger] m.visit_position(k2);
        r1 < r2 || (r1 == r2 && c1 < c2)
    } by {
        lemma_offset_split(k1, m.rows as int, cols);
        lemma_offset_split(k2, m.rows as int, cols);
        let r1 = k1 / cols;
        let c1 = k1 % cols;
        let r2 = k2 / cols;
        let c2 = k2 % cols;
        assert(r1 < r2 || (r1 == r2 && c1 < c2)) by (nonlinear_arith)
            requires
                k1 == c1 + r1 * cols,
                k2 == c2 + r2 * cols,
                0 <= c1 < cols,
                0 <= c2 < cols,
                k1 < k2,
        ;
    }
}

} // verus!

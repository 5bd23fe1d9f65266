use vstd::prelude::*;
use vstd::arithmetic::div_mod::lemma_fundamental_div_mod_converse;

verus! {

/// The row-major offset of a cell of a grid with `columns` columns.
pub open spec fn offset(row: int, column: int, columns: int) -> int {
    column + row * columns
}

/// A cell inside a `rows` by `columns` grid has its offset inside the buffer.
pub proof fn lemma_offset_in_bounds(row: int, column: int, rows: int, columns: int)
    requires
        0 <= row < rows,
        0 <= column < columns,
    ensures
        0 <= offset(row, column, columns) < rows * columns,
{
    assert(0 <= row * columns) by (nonlinear_arith)
        requires
            0 <= row,
            0 <= columns,
    ;
    assert(column + row * columns < rows * columns) by (nonlinear_arith)
        requires
            0 <= row < rows,
            0 <= column < columns,
    ;
}

/// Every offset inside a `rows` by `columns` buffer belongs to one cell:
/// row `i / columns`, column `i % columns`.
pub proof fn lemma_offset_split(i: int, rows: int, columns: int)
    requires
        0 <= rows,
        0 <= columns,
        0 <= i < rows * columns,
    ensures
        columns > 0,
        0 <= i / columns < rows,
        0 <= i % columns < columns,
        offset(i / columns, i % columns, columns) == i,
{
    assert(columns > 0 && rows > 0) by (nonlinear_arith)
        requires
            0 <= rows,
            0 <= columns,
            0 <= i < rows * columns,
    ;
    let q = i / columns;
    let r = i % columns;
    assert(i == r + q * columns && 0 <= r < columns) by (nonlinear_arith)
        requires
            columns > 0,
            q == i / columns,
            r == i % columns,
    ;
    assert(0 <= q < rows) by (nonlinear_arith)
        requires
            columns > 0,
            i == r + q * columns,
            0 <= r < columns,
            0 <= i < rows * columns,
    ;
}

/// Two cells of one grid with the same offset are the same cell.
pub proof fn lemma_offset_unique(r1: int, c1: int, r2: int, c2: int, columns: int)
    requires
        0 <= c1 < columns,
        0 <= c2 < columns,
        offset(r1, c1, columns) == offset(r2, c2, columns),
    ensures
        r1 == r2,
        c1 == c2,
{
    let x = offset(r1, c1, columns);
    lemma_fundamental_div_mod_converse(x, columns, r1, c1);
    lemma_fundamental_div_mod_converse(x, columns, r2, c2);
}

} // verus!

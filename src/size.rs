use vstd::prelude::*;

verus! {

/// Something with a number of rows and a number of columns.
pub trait Size {
    /// The number of rows, for contracts.
    spec fn row_count(&self) -> usize;

    /// The number of columns, for contracts.
    spec fn column_count(&self) -> usize;

    /// Return the number of rows.
    fn rows(&self) -> (r: usize)
        ensures
            r == self.row_count(),
    ;

    /// Return the number of columns.
    fn columns(&self) -> (r: usize)
        ensures
            r == self.column_count(),
    ;

    /// Return the number of rows and columns.
    fn dimensions(&self) -> (r: (usize, usize))
        ensures
            r == (self.row_count(), self.column_count()),
    {
        (self.rows(), self.columns())
    }
}

/// A pair read as (rows, columns).
impl Size for (usize, usize) {
    open spec fn row_count(&self) -> usize {
        self.0
    }

    open spec fn column_count(&self) -> usize {
        self.1
    }

    fn rows(&self) -> (r: usize) {
        self.0
    }

    fn columns(&self) -> (r: usize) {
        self.1
    }
}

} // verus!
